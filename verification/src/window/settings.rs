use vstd::prelude::*;
use vstd::string::StringExecFns;

verus! {

/// The window's settings.
#[derive(Clone, Copy, Debug, PartialEq, Eq, Structural)]
pub struct WindowSettings {
    /// Frames per second.
    pub refresh_rate: u64,
    /// How opaque the window is, in percent.
    pub transparency: u32,
    /// Whether frames are drawn even when nothing has changed.
    pub no_idle: bool,
    pub fullscreen: bool,
}

/// Whether the arguments ask for drawing without idling.
pub open spec fn asks_for_no_idle(arguments: Seq<Seq<char>>) -> bool {
    arguments.contains("--noIdle"@)
}

/// The fields of the window's settings.
#[derive(Clone, Copy, Debug, PartialEq, Eq, Structural)]
pub enum SettingField {
    RefreshRate,
    Transparency,
    NoIdle,
    Fullscreen,
}

/// A setting that the engine is told of: the name under which the engine
/// knows it, and the field that takes its value.
#[derive(Debug, PartialEq, Eq)]
pub struct Registration {
    pub name: String,
    pub field: SettingField,
}

/// A value that the engine reports for a setting.
#[derive(Clone, Copy, Debug, PartialEq, Eq, Structural)]
pub enum SettingValue {
    Number(u64),
    Flag(bool),
}

/// The settings that are registered with the engine, in order: each field
/// under its own name.
pub open spec fn registered() -> Seq<(Seq<char>, SettingField)> {
    seq![
        ("refresh_rate"@, SettingField::RefreshRate),
        ("transparency"@, SettingField::Transparency),
        ("no_idle"@, SettingField::NoIdle),
        ("fullscreen"@, SettingField::Fullscreen),
    ]
}

/// Registrations as plain values, in order.
pub open spec fn registration_views(registrations: Seq<Registration>) -> Seq<
    (Seq<char>, SettingField),
> {
    Seq::new(registrations.len(), |i: int| (registrations[i].name@, registrations[i].field))
}

/// The settings with one field taking a reported value. The refresh rate
/// takes a number; the transparency takes a number of percent, of which
/// there are no more than a hundred; the two switches take a flag. A value
/// of the wrong sort changes nothing.
pub open spec fn with_value(
    settings: WindowSettings,
    field: SettingField,
    value: SettingValue,
) -> WindowSettings {
    match (field, value) {
        (SettingField::RefreshRate, SettingValue::Number(rate)) => WindowSettings {
            refresh_rate: rate,
            ..settings
        },
        (SettingField::Transparency, SettingValue::Number(percent)) => WindowSettings {
            transparency: if percent > 100 {
                100u32
            } else {
                percent as u32
            },
            ..settings
        },
        (SettingField::NoIdle, SettingValue::Flag(flag)) => WindowSettings {
            no_idle: flag,
            ..settings
        },
        (SettingField::Fullscreen, SettingValue::Flag(flag)) => WindowSettings {
            fullscreen: flag,
            ..settings
        },
        (_, _) => settings,
    }
}

impl WindowSettings {
    /// Takes a value that the engine reports for one field.
    pub fn apply(&mut self, field: SettingField, value: SettingValue)
        ensures
            *final(self) == with_value(*old(self), field, value),
    {
        match (field, value) {
            (SettingField::RefreshRate, SettingValue::Number(rate)) => {
                self.refresh_rate = rate;
            },
            (SettingField::Transparency, SettingValue::Number(percent)) => {
                self.transparency = if percent > 100 {
                    100
                } else {
                    percent as u32
                };
            },
            (SettingField::NoIdle, SettingValue::Flag(flag)) => {
                self.no_idle = flag;
            },
            (SettingField::Fullscreen, SettingValue::Flag(flag)) => {
                self.fullscreen = flag;
            },
            (_, _) => {},
        }
    }
}

/// The field that is registered under `name`, if there is one.
pub fn field_named(name: &str) -> (field: Option<SettingField>)
    ensures
        match field {
            Some(found) => registered().contains((name@, found)),
            None => forall|i: int| 0 <= i < registered().len() ==> (#[trigger] registered()[i]).0
                != name@,
        },
{
    let registrations = registrations();
    let wanted = String::from_str(name);
    let mut i: usize = 0;
    while i < registrations.len()
        invariant
            i <= registrations.len(),
            wanted@ == name@,
            registration_views(registrations@) == registered(),
            forall|k: int| 0 <= k < i ==> (#[trigger] registered()[k]).0 != name@,
        decreases registrations.len() - i,
    {
        assert(registration_views(registrations@)[i as int] == (
            registrations[i as int].name@,
            registrations[i as int].field,
        ));
        if registrations[i].name == wanted {
            assert(registered()[i as int] == (name@, registrations[i as int].field));
            return Some(registrations[i].field);
        }
        i = i + 1;
    }
    None
}

/// The settings that are registered with the engine.
pub fn registrations() -> (made: Vec<Registration>)
    ensures
        registration_views(made@) == registered(),
{
    let mut made: Vec<Registration> = Vec::new();
    made.push(
        Registration { name: String::from_str("refresh_rate"), field: SettingField::RefreshRate },
    );
    made.push(
        Registration { name: String::from_str("transparency"), field: SettingField::Transparency },
    );
    made.push(Registration { name: String::from_str("no_idle"), field: SettingField::NoIdle });
    made.push(
        Registration { name: String::from_str("fullscreen"), field: SettingField::Fullscreen },
    );
    assert(registration_views(made@) =~= registered());
    made
}

/// The settings that the window starts with, and the settings that are
/// registered with the engine. The window starts with sixty frames per
/// second, fully opaque and not fullscreen, and idles unless the arguments
/// hold `--noIdle`; each of the four fields is registered under its own
/// name.
pub fn initialize_settings(neovim_arguments: &Vec<String>) -> (made: (
    WindowSettings,
    Vec<Registration>,
))
    ensures
        made.0 == (WindowSettings {
            refresh_rate: 60,
            transparency: 100,
            no_idle: asks_for_no_idle(neovim_arguments.deep_view()),
            fullscreen: false,
        }),
        registration_views(made.1@) == registered(),
{
    let flag = String::from_str("--noIdle");
    let mut no_idle = false;
    let mut i: usize = 0;
    while i < neovim_arguments.len() && !no_idle
        invariant
            i <= neovim_arguments.len(),
            flag@ == "--noIdle"@,
            no_idle ==> asks_for_no_idle(neovim_arguments.deep_view()),
            !no_idle ==> forall|k: int|
                0 <= k < i ==> neovim_arguments.deep_view()[k] != "--noIdle"@,
        decreases neovim_arguments.len() - i,
    {
        if neovim_arguments[i] == flag {
            assert(neovim_arguments.deep_view()[i as int] == "--noIdle"@);
            no_idle = true;
        }
        i = i + 1;
    }
    (
        WindowSettings { refresh_rate: 60, transparency: 100, no_idle, fullscreen: false },
        registrations(),
    )
}

} // verus!
