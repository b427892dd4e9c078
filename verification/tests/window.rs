use neovide::bridge::UiCommand;
use neovide::window::{
    characters, field_named, frame_survives, handle_new_grid_size, initialize_settings,
    parse_dimension, parse_geometry, registrations, split_dimensions, starts_with, typed_keys,
    window_geometry, window_geometry_or_default, FramePlan, GeometryFault, Registration,
    SettingField, SettingValue, WheelMotion, WindowAction, WindowEvent, WindowSettings,
    WindowWrapper,
};
use neovide::INITIAL_DIMENSIONS;

fn args(list: &[&str]) -> Vec<String> {
    list.iter().map(|s| s.to_string()).collect()
}

fn chars(text: &str) -> Vec<char> {
    text.chars().collect()
}

fn format_error(input: &str) -> String {
    format!(
        "Invalid geometry: {}\nValid format: <width>x<height>",
        input
    )
}

fn zero_error() -> String {
    "Invalid geometry: Window dimensions should be greater than 0.".to_string()
}

fn scroll(direction: &str, position: (u32, u32)) -> UiCommand {
    UiCommand::Scroll {
        direction: direction.to_string(),
        position,
    }
}

fn button(action: &str, position: (u32, u32)) -> UiCommand {
    UiCommand::MouseButton {
        action: action.to_string(),
        position,
    }
}

#[test]
fn initial_dimensions_are_one_hundred_by_fifty() {
    assert_eq!(INITIAL_DIMENSIONS, (100, 50));
}

#[test]
fn geometry_defaults_without_the_flag() {
    assert_eq!(window_geometry(&args(&["neovide"])), Ok((100, 50)));
    assert_eq!(window_geometry(&args(&[])), Ok((100, 50)));
    assert_eq!(
        window_geometry(&args(&["neovide", "--wsl", "file.txt"])),
        Ok((100, 50))
    );
}

#[test]
fn geometry_reads_width_and_height() {
    assert_eq!(
        window_geometry(&args(&["neovide", "--geometry=80x24"])),
        Ok((80, 24))
    );
    assert_eq!(
        window_geometry(&args(&["neovide", "file", "--geometry=1x1"])),
        Ok((1, 1))
    );
    assert_eq!(
        window_geometry(&args(&["--geometry=18446744073709551615x7"])),
        Ok((18446744073709551615, 7))
    );
}

#[test]
fn geometry_takes_the_first_flag() {
    assert_eq!(
        window_geometry(&args(&["neovide", "--geometry=10x20", "--geometry=30x40"])),
        Ok((10, 20))
    );
    assert_eq!(
        window_geometry(&args(&["neovide", "--geometry=bad", "--geometry=30x40"])),
        Err(format_error("bad"))
    );
}

#[test]
fn geometry_accepts_a_plus_sign_and_leading_zeros() {
    assert_eq!(parse_geometry("+8x0024"), Ok((8, 24)));
}

#[test]
fn geometry_refuses_bad_formats() {
    for input in [
        "", "x", "10", "10x", "x10", "10x20x30", "axb", "10 x20", "-1x5", "1.5x2", "10X20", "+x1",
        "18446744073709551616x1", "1x99999999999999999999999", "١x٢",
    ] {
        assert_eq!(parse_geometry(input), Err(GeometryFault::Format), "{}", input);
        assert_eq!(
            window_geometry(&vec![format!("--geometry={}", input)]),
            Err(format_error(input)),
            "{}",
            input
        );
    }
}

#[test]
fn geometry_refuses_zero() {
    for input in ["0x0", "0x10", "10x0", "00x5", "+0x1"] {
        assert_eq!(parse_geometry(input), Err(GeometryFault::Zero), "{}", input);
        assert_eq!(
            window_geometry(&vec![format!("--geometry={}", input)]),
            Err(zero_error()),
            "{}",
            input
        );
    }
}

#[test]
fn geometry_reports_the_first_fault() {
    assert_eq!(parse_geometry("0x"), Err(GeometryFault::Zero));
    assert_eq!(parse_geometry("x0"), Err(GeometryFault::Format));
    assert_eq!(parse_geometry("10x0x"), Err(GeometryFault::Zero));
    assert_eq!(parse_geometry("ax0"), Err(GeometryFault::Format));
    assert_eq!(parse_geometry("1x2x0"), Err(GeometryFault::Zero));
    assert_eq!(parse_geometry("1x2x3"), Err(GeometryFault::Format));
}

#[test]
fn geometry_fault_messages() {
    assert_eq!(GeometryFault::Format.message("9y9"), format_error("9y9"));
    assert_eq!(GeometryFault::Zero.message("0x0"), zero_error());
}

#[test]
fn geometry_or_default_falls_back() {
    assert_eq!(window_geometry_or_default(&args(&["neovide"])), (100, 50));
    assert_eq!(
        window_geometry_or_default(&args(&["neovide", "--geometry=12x34"])),
        (12, 34)
    );
    assert_eq!(
        window_geometry_or_default(&args(&["neovide", "--geometry=12"])),
        (100, 50)
    );
    assert_eq!(
        window_geometry_or_default(&args(&["neovide", "--geometry=0x4"])),
        (100, 50)
    );
}

#[test]
fn dimension_parsing() {
    assert_eq!(parse_dimension(&chars("0")), Some(0));
    assert_eq!(parse_dimension(&chars("42")), Some(42));
    assert_eq!(parse_dimension(&chars("+42")), Some(42));
    assert_eq!(parse_dimension(&chars("007")), Some(7));
    assert_eq!(
        parse_dimension(&chars("18446744073709551615")),
        Some(u64::MAX)
    );
    assert_eq!(parse_dimension(&chars("18446744073709551616")), None);
    assert_eq!(parse_dimension(&chars("184467440737095516150")), None);
    assert_eq!(parse_dimension(&chars("")), None);
    assert_eq!(parse_dimension(&chars("+")), None);
    assert_eq!(parse_dimension(&chars("++1")), None);
    assert_eq!(parse_dimension(&chars("-1")), None);
    assert_eq!(parse_dimension(&chars("1a")), None);
    assert_eq!(parse_dimension(&chars(" 1")), None);
    assert_eq!(parse_dimension(&chars("1_000")), None);
}

#[test]
fn dimension_parsing_agrees_with_the_standard_parser() {
    for text in [
        "0", "1", "+1", "-1", "", "+", "12x", "99999", "18446744073709551615",
        "18446744073709551616", "000000000000000000000000001", "1 ", "٣",
    ] {
        assert_eq!(
            parse_dimension(&chars(text)),
            text.parse::<u64>().ok(),
            "{}",
            text
        );
    }
}

#[test]
fn splitting_at_x() {
    assert_eq!(split_dimensions(&chars("")), vec![chars("")]);
    assert_eq!(split_dimensions(&chars("10")), vec![chars("10")]);
    assert_eq!(
        split_dimensions(&chars("10x20")),
        vec![chars("10"), chars("20")]
    );
    assert_eq!(
        split_dimensions(&chars("x1xx")),
        vec![chars(""), chars("1"), chars(""), chars("")]
    );
}

#[test]
fn characters_of_a_text() {
    assert_eq!(characters("a<é"), vec!['a', '<', 'é']);
    assert_eq!(characters(""), Vec::<char>::new());
}

#[test]
fn prefix_test() {
    assert!(starts_with("--geometry=1x1", "--geometry="));
    assert!(starts_with("--geometry=", "--geometry="));
    assert!(starts_with("abc", ""));
    assert!(!starts_with("--geometry", "--geometry="));
    assert!(!starts_with("x--geometry=1x1", "--geometry="));
    assert!(!starts_with("", "a"));
}

fn registered() -> Vec<Registration> {
    vec![
        Registration {
            name: "refresh_rate".to_string(),
            field: SettingField::RefreshRate,
        },
        Registration {
            name: "transparency".to_string(),
            field: SettingField::Transparency,
        },
        Registration {
            name: "no_idle".to_string(),
            field: SettingField::NoIdle,
        },
        Registration {
            name: "fullscreen".to_string(),
            field: SettingField::Fullscreen,
        },
    ]
}

#[test]
fn settings_start_idle_unless_asked() {
    assert_eq!(
        initialize_settings(&args(&["neovide", "file.txt"])).0,
        WindowSettings {
            refresh_rate: 60,
            transparency: 100,
            no_idle: false,
            fullscreen: false,
        }
    );
    assert_eq!(
        initialize_settings(&args(&["neovide", "--noIdle"])).0,
        WindowSettings {
            refresh_rate: 60,
            transparency: 100,
            no_idle: true,
            fullscreen: false,
        }
    );
    assert!(!initialize_settings(&args(&["--noidle", "--noIdle "])).0.no_idle);
    assert!(!initialize_settings(&args(&[])).0.no_idle);
}

#[test]
fn settings_are_registered_under_their_names() {
    assert_eq!(initialize_settings(&args(&[])).1, registered());
    assert_eq!(
        initialize_settings(&args(&["neovide", "--noIdle"])).1,
        registered()
    );
    assert_eq!(registrations(), registered());
    assert_eq!(registrations().len(), 4);
}

#[test]
fn names_lead_to_their_fields() {
    assert_eq!(field_named("refresh_rate"), Some(SettingField::RefreshRate));
    assert_eq!(field_named("transparency"), Some(SettingField::Transparency));
    assert_eq!(field_named("no_idle"), Some(SettingField::NoIdle));
    assert_eq!(field_named("fullscreen"), Some(SettingField::Fullscreen));
    assert_eq!(field_named("Fullscreen"), None);
    assert_eq!(field_named(""), None);
    assert_eq!(field_named("refresh_rate "), None);
}

#[test]
fn reported_values_go_to_their_fields() {
    let (mut settings, _) = initialize_settings(&args(&[]));
    settings.apply(SettingField::RefreshRate, SettingValue::Number(144));
    assert_eq!(settings.refresh_rate, 144);
    settings.apply(SettingField::Transparency, SettingValue::Number(85));
    assert_eq!(settings.transparency, 85);
    settings.apply(SettingField::Transparency, SettingValue::Number(250));
    assert_eq!(settings.transparency, 100);
    settings.apply(SettingField::Transparency, SettingValue::Number(0));
    assert_eq!(settings.transparency, 0);
    settings.apply(SettingField::NoIdle, SettingValue::Flag(true));
    settings.apply(SettingField::Fullscreen, SettingValue::Flag(true));
    assert_eq!(
        settings,
        WindowSettings {
            refresh_rate: 144,
            transparency: 0,
            no_idle: true,
            fullscreen: true,
        }
    );
}

#[test]
fn values_of_the_wrong_sort_change_nothing() {
    let (mut settings, _) = initialize_settings(&args(&[]));
    let before = settings;
    settings.apply(SettingField::RefreshRate, SettingValue::Flag(true));
    settings.apply(SettingField::Transparency, SettingValue::Flag(false));
    settings.apply(SettingField::NoIdle, SettingValue::Number(1));
    settings.apply(SettingField::Fullscreen, SettingValue::Number(0));
    assert_eq!(settings, before);
}

#[test]
fn quit_closes_the_loop() {
    let mut window = WindowWrapper::new();
    assert_eq!(window.handle_quit(), UiCommand::Quit);
    assert_eq!(
        window.handle_event(WindowEvent::CloseRequested),
        vec![WindowAction::Queue(UiCommand::Quit), WindowAction::Exit]
    );
}

#[test]
fn typed_characters_become_keys() {
    let mut window = WindowWrapper::new();
    assert_eq!(typed_keys('a'), "a");
    assert_eq!(typed_keys('<'), "<lt>");
    assert_eq!(
        window.handle_keyboard_input("abc".to_string()),
        UiCommand::Keyboard("abc".to_string())
    );
    assert_eq!(
        window.handle_event(WindowEvent::ReceivedCharacter('<')),
        vec![WindowAction::Queue(UiCommand::Keyboard("<lt>".to_string()))]
    );
    assert_eq!(
        window.handle_event(WindowEvent::ReceivedCharacter('ß')),
        vec![WindowAction::Queue(UiCommand::Keyboard("ß".to_string()))]
    );
}

#[test]
fn pointer_press_drag_release() {
    let mut window = WindowWrapper::new();
    assert_eq!(window.handle_pointer_motion(3, 4), None);
    assert_eq!(window.handle_pointer_down(), button("press", (3, 4)));
    assert_eq!(window.handle_pointer_motion(3, 4), None);
    assert_eq!(
        window.handle_pointer_motion(5, 4),
        Some(UiCommand::Drag(5, 4))
    );
    assert_eq!(
        window.handle_pointer_motion(5, 6),
        Some(UiCommand::Drag(5, 6))
    );
    assert_eq!(window.handle_pointer_up(), button("release", (5, 6)));
    assert_eq!(window.handle_pointer_motion(7, 7), None);
}

#[test]
fn pointer_events_through_the_loop() {
    let mut window = WindowWrapper::new();
    assert_eq!(
        window.handle_event(WindowEvent::CursorMoved(Some((2, 9)))),
        vec![]
    );
    assert_eq!(window.handle_event(WindowEvent::CursorMoved(None)), vec![]);
    assert_eq!(
        window.handle_event(WindowEvent::MouseInput { pressed: true }),
        vec![WindowAction::Queue(button("press", (2, 9)))]
    );
    assert_eq!(
        window.handle_event(WindowEvent::CursorMoved(Some((3, 9)))),
        vec![WindowAction::Queue(UiCommand::Drag(3, 9))]
    );
    assert_eq!(window.handle_event(WindowEvent::CursorMoved(None)), vec![]);
    assert_eq!(
        window.handle_event(WindowEvent::MouseInput { pressed: false }),
        vec![WindowAction::Queue(button("release", (3, 9)))]
    );
}

#[test]
fn wheel_scrolls_vertical_first() {
    let mut window = WindowWrapper::new();
    window.handle_pointer_motion(1, 2);
    assert_eq!(
        window.handle_mouse_wheel(WheelMotion::Still, WheelMotion::Forward),
        vec![scroll("up", (1, 2))]
    );
    assert_eq!(
        window.handle_mouse_wheel(WheelMotion::Still, WheelMotion::Backward),
        vec![scroll("down", (1, 2))]
    );
    assert_eq!(
        window.handle_mouse_wheel(WheelMotion::Forward, WheelMotion::Still),
        vec![scroll("right", (1, 2))]
    );
    assert_eq!(
        window.handle_mouse_wheel(WheelMotion::Backward, WheelMotion::Still),
        vec![scroll("left", (1, 2))]
    );
    assert_eq!(
        window.handle_mouse_wheel(WheelMotion::Backward, WheelMotion::Forward),
        vec![scroll("up", (1, 2)), scroll("left", (1, 2))]
    );
    assert_eq!(
        window.handle_mouse_wheel(WheelMotion::Still, WheelMotion::Still),
        vec![]
    );
    assert_eq!(
        window.handle_event(WindowEvent::MouseWheel {
            horizontal: WheelMotion::Forward,
            vertical: WheelMotion::Backward,
        }),
        vec![
            WindowAction::Queue(scroll("down", (1, 2))),
            WindowAction::Queue(scroll("right", (1, 2))),
        ]
    );
}

#[test]
fn focus_changes() {
    let mut window = WindowWrapper::new();
    assert_eq!(window.handle_focus_lost(), UiCommand::FocusLost);
    assert_eq!(
        window.handle_focus_gained(),
        vec![
            WindowAction::Queue(UiCommand::FocusGained),
            WindowAction::QueueNextFrame,
        ]
    );
    assert_eq!(
        window.handle_event(WindowEvent::Focused(true)),
        vec![
            WindowAction::Queue(UiCommand::FocusGained),
            WindowAction::QueueNextFrame,
        ]
    );
    assert_eq!(
        window.handle_event(WindowEvent::Focused(false)),
        vec![WindowAction::Queue(UiCommand::FocusLost)]
    );
}

#[test]
fn other_events() {
    let mut window = WindowWrapper::new();
    assert_eq!(
        window.handle_event(WindowEvent::Wake),
        vec![WindowAction::RequestRedraw]
    );
    assert_eq!(
        window.handle_event(WindowEvent::RedrawRequested),
        vec![WindowAction::DrawFrame]
    );
    assert_eq!(window.handle_event(WindowEvent::Other), vec![]);
    assert_eq!(
        window.handle_event(WindowEvent::DroppedFile(Some("a b.txt".to_string()))),
        vec![WindowAction::Queue(UiCommand::FileDrop("a b.txt".to_string()))]
    );
    assert_eq!(window.handle_event(WindowEvent::DroppedFile(None)), vec![]);
    assert_eq!(
        window.handle_event(WindowEvent::Resized(Some((80, 24)))),
        vec![WindowAction::Queue(UiCommand::Resize {
            width: 80,
            height: 24
        })]
    );
    assert_eq!(window.handle_event(WindowEvent::Resized(None)), vec![]);
}

#[test]
fn new_grid_size() {
    assert_eq!(
        handle_new_grid_size(Some((7, 3))),
        Some(UiCommand::Resize {
            width: 7,
            height: 3
        })
    );
    assert_eq!(handle_new_grid_size(None), None);
}

#[test]
fn fullscreen_is_only_left() {
    let mut window = WindowWrapper::new();
    let (mut settings, _) = initialize_settings(&args(&[]));
    assert_eq!(
        window.toggle_fullscreen(true),
        Some(WindowAction::LeaveFullscreen)
    );
    assert_eq!(window.toggle_fullscreen(false), None);
    assert_eq!(
        window.synchronize_settings(true, &settings),
        Some(WindowAction::LeaveFullscreen)
    );
    assert_eq!(window.synchronize_settings(false, &settings), None);
    settings.fullscreen = true;
    assert_eq!(window.synchronize_settings(true, &settings), None);
    assert_eq!(window.synchronize_settings(false, &settings), None);
}

#[test]
fn frames() {
    let mut window = WindowWrapper::new();
    assert_eq!(window.draw_frame(false, true, true), FramePlan::Stop);
    assert_eq!(window.draw_frame(false, false, false), FramePlan::Stop);
    assert_eq!(window.draw_frame(true, true, false), FramePlan::Draw);
    assert_eq!(window.draw_frame(true, false, true), FramePlan::Draw);
    assert_eq!(window.draw_frame(true, false, false), FramePlan::Idle);
    assert!(!frame_survives(FramePlan::Stop, true));
    assert!(frame_survives(FramePlan::Draw, true));
    assert!(!frame_survives(FramePlan::Draw, false));
    assert!(frame_survives(FramePlan::Idle, false));
}
