use vstd::prelude::*;
use vstd::string::StringExecFns;
use crate::bridge::ui_commands::{UiCommand, UiCommandView};
use crate::text::char_text;

pub mod geometry;
pub mod icon;
pub mod settings;

pub use geometry::{
    characters, parse_dimension, parse_geometry, split_dimensions, starts_with, window_geometry,
    window_geometry_or_default, GeometryFault,
};
pub use settings::{
    field_named, initialize_settings, registrations, Registration, SettingField, SettingValue,
    WindowSettings,
};

verus! {

/// The direction in which the wheel turned along one axis: the sign of the
/// distance that the window system reports.
#[derive(Clone, Copy, Debug, PartialEq, Eq, Structural)]
pub enum WheelMotion {
    /// A distance below zero: down, or to the left.
    Backward,
    /// No distance.
    Still,
    /// A distance above zero: up, or to the right.
    Forward,
}

/// What the window system reports, reduced to what the front-end acts on.
#[derive(Debug, PartialEq, Eq)]
pub enum WindowEvent {
    /// The loop started or a frame timer ran out.
    Wake,
    CloseRequested,
    /// The window has a new size. `Some` holds the grid that fits it,
    /// columns then rows; `None` says that the window has no area.
    Resized(Option<(u32, u32)>),
    ReceivedCharacter(char),
    /// The pointer moved. `Some` holds the grid cell under it; `None` says
    /// that it is left of or above the window.
    CursorMoved(Option<(u32, u32)>),
    MouseInput { pressed: bool },
    MouseWheel { horizontal: WheelMotion, vertical: WheelMotion },
    Focused(bool),
    /// A file was dropped. `None` says that its path is no valid text.
    DroppedFile(Option<String>),
    RedrawRequested,
    /// Anything else.
    Other,
}

/// What the event loop has to do for an event.
#[derive(Debug, PartialEq, Eq)]
pub enum WindowAction {
    /// Ask the window system for a redraw.
    RequestRedraw,
    /// Hand the command to the bridge.
    Queue(UiCommand),
    /// Tell the redraw scheduler that the next frame is due.
    QueueNextFrame,
    /// Draw a frame, as [`draw_frame`] decides.
    DrawFrame,
    /// Take the window out of fullscreen.
    LeaveFullscreen,
    /// Leave the event loop.
    Exit,
}

/// An action as plain values.
pub enum WindowActionView {
    RequestRedraw,
    Queue(UiCommandView),
    QueueNextFrame,
    DrawFrame,
    LeaveFullscreen,
    Exit,
}

impl View for WindowAction {
    type V = WindowActionView;

    open spec fn view(&self) -> WindowActionView {
        match *self {
            WindowAction::RequestRedraw => WindowActionView::RequestRedraw,
            WindowAction::Queue(command) => WindowActionView::Queue(command@),
            WindowAction::QueueNextFrame => WindowActionView::QueueNextFrame,
            WindowAction::DrawFrame => WindowActionView::DrawFrame,
            WindowAction::LeaveFullscreen => WindowActionView::LeaveFullscreen,
            WindowAction::Exit => WindowActionView::Exit,
        }
    }
}

/// The actions of a list as plain values, in order.
pub open spec fn action_views(actions: Seq<WindowAction>) -> Seq<WindowActionView> {
    Seq::new(actions.len(), |i: int| actions[i]@)
}

/// The commands of a list as plain values, in order.
pub open spec fn command_views(commands: Seq<UiCommand>) -> Seq<UiCommandView> {
    Seq::new(commands.len(), |i: int| commands[i]@)
}

/// What is done about a frame.
#[derive(Clone, Copy, Debug, PartialEq, Eq, Structural)]
pub enum FramePlan {
    /// The bridge has stopped: no frame is drawn and the front-end ends.
    Stop,
    /// A frame is drawn.
    Draw,
    /// Nothing has changed and idling is allowed: no frame is drawn.
    Idle,
}

/// The keys that a typed character stands for in the engine's notation.
pub open spec fn typed_text(c: char) -> Seq<char> {
    if c == '<' {
        "<lt>"@
    } else {
        seq![c]
    }
}

/// The scroll command for a turn of the wheel along the vertical axis.
pub open spec fn vertical_scroll(motion: WheelMotion, position: (u32, u32)) -> Seq<UiCommandView> {
    match motion {
        WheelMotion::Forward => seq![UiCommandView::Scroll { direction: "up"@, position }],
        WheelMotion::Backward => seq![UiCommandView::Scroll { direction: "down"@, position }],
        WheelMotion::Still => Seq::empty(),
    }
}

/// The scroll command for a turn of the wheel along the horizontal axis.
pub open spec fn horizontal_scroll(motion: WheelMotion, position: (u32, u32)) -> Seq<
    UiCommandView,
> {
    match motion {
        WheelMotion::Forward => seq![UiCommandView::Scroll { direction: "right"@, position }],
        WheelMotion::Backward => seq![UiCommandView::Scroll { direction: "left"@, position }],
        WheelMotion::Still => Seq::empty(),
    }
}

/// The commands for a turn of the wheel: the vertical one first.
pub open spec fn wheel_scrolls(
    horizontal: WheelMotion,
    vertical: WheelMotion,
    position: (u32, u32),
) -> Seq<UiCommandView> {
    vertical_scroll(vertical, position) + horizontal_scroll(horizontal, position)
}

/// The pointer as the front-end knows it.
pub struct PointerState {
    pub mouse_down: bool,
    pub mouse_position: (u32, u32),
}

/// The pointer after an event.
pub open spec fn pointer_after(pointer: PointerState, event: WindowEvent) -> PointerState {
    match event {
        WindowEvent::CursorMoved(Some(cell)) => PointerState {
            mouse_down: pointer.mouse_down,
            mouse_position: cell,
        },
        WindowEvent::MouseInput { pressed } => PointerState {
            mouse_down: pressed,
            mouse_position: pointer.mouse_position,
        },
        _ => pointer,
    }
}

/// The actions that an event calls for, with the pointer as it was before
/// the event.
pub open spec fn response(pointer: PointerState, event: WindowEvent) -> Seq<WindowActionView> {
    match event {
        WindowEvent::Wake => seq![WindowActionView::RequestRedraw],
        WindowEvent::CloseRequested => seq![
            WindowActionView::Queue(UiCommandView::Quit),
            WindowActionView::Exit,
        ],
        WindowEvent::Resized(Some(grid)) => seq![
            WindowActionView::Queue(UiCommandView::Resize { width: grid.0, height: grid.1 }),
        ],
        WindowEvent::Resized(None) => Seq::empty(),
        WindowEvent::ReceivedCharacter(c) => seq![
            WindowActionView::Queue(UiCommandView::Keyboard(typed_text(c))),
        ],
        WindowEvent::CursorMoved(Some(cell)) => if pointer.mouse_down && cell
            != pointer.mouse_position {
            seq![WindowActionView::Queue(UiCommandView::Drag(cell.0, cell.1))]
        } else {
            Seq::empty()
        },
        WindowEvent::CursorMoved(None) => Seq::empty(),
        WindowEvent::MouseInput { pressed } => seq![
            WindowActionView::Queue(
                UiCommandView::MouseButton {
                    action: if pressed {
                        "press"@
                    } else {
                        "release"@
                    },
                    position: pointer.mouse_position,
                },
            ),
        ],
        WindowEvent::MouseWheel { horizontal, vertical } => wheel_scrolls(
            horizontal,
            vertical,
            pointer.mouse_position,
        ).map_values(|command: UiCommandView| WindowActionView::Queue(command)),
        WindowEvent::Focused(focused) => if focused {
            seq![
                WindowActionView::Queue(UiCommandView::FocusGained),
                WindowActionView::QueueNextFrame,
            ]
        } else {
            seq![WindowActionView::Queue(UiCommandView::FocusLost)]
        },
        WindowEvent::DroppedFile(Some(path)) => seq![
            WindowActionView::Queue(UiCommandView::FileDrop(path@)),
        ],
        WindowEvent::DroppedFile(None) => Seq::empty(),
        WindowEvent::RedrawRequested => seq![WindowActionView::DrawFrame],
        WindowEvent::Other => Seq::empty(),
    }
}

/// The front-end's side of the window: where the pointer is and whether its
/// button is held.
#[derive(Debug, PartialEq, Eq)]
pub struct WindowWrapper {
    mouse_down: bool,
    mouse_position: (u32, u32),
}

impl View for WindowWrapper {
    type V = PointerState;

    closed spec fn view(&self) -> PointerState {
        PointerState { mouse_down: self.mouse_down, mouse_position: self.mouse_position }
    }
}

impl WindowWrapper {
    /// A window whose pointer rests in the first cell with no button held.
    pub fn new() -> (window: WindowWrapper)
        ensures
            window@ == (PointerState { mouse_down: false, mouse_position: (0, 0) }),
    {
        WindowWrapper { mouse_down: false, mouse_position: (0, 0) }
    }

    /// Leaves fullscreen if the window is in it. Entering fullscreen is not
    /// done: a window that is not fullscreen stays as it is.
    pub fn toggle_fullscreen(&mut self, is_fullscreen: bool) -> (action: Option<WindowAction>)
        ensures
            final(self)@ == old(self)@,
            action == if is_fullscreen {
                Some(WindowAction::LeaveFullscreen)
            } else {
                None::<WindowAction>
            },
    {
        if is_fullscreen {
            Some(WindowAction::LeaveFullscreen)
        } else {
            None
        }
    }

    /// Brings the window in step with the settings: where the window's
    /// fullscreen state is not the wanted one, it is toggled.
    pub fn synchronize_settings(&mut self, is_fullscreen: bool, settings: &WindowSettings) -> (action:
        Option<WindowAction>)
        ensures
            final(self)@ == old(self)@,
            action == if is_fullscreen && !settings.fullscreen {
                Some(WindowAction::LeaveFullscreen)
            } else {
                None::<WindowAction>
            },
    {
        if is_fullscreen != settings.fullscreen {
            self.toggle_fullscreen(is_fullscreen)
        } else {
            None
        }
    }

    /// The window is closing: the engine is told to quit.
    pub fn handle_quit(&mut self) -> (command: UiCommand)
        ensures
            final(self)@ == old(self)@,
            command == UiCommand::Quit,
    {
        UiCommand::Quit
    }

    /// Keys were typed: they go to the engine as they are.
    pub fn handle_keyboard_input(&self, input: String) -> (command: UiCommand)
        ensures
            command == UiCommand::Keyboard(input),
    {
        UiCommand::Keyboard(input)
    }

    /// The pointer is over the grid cell `(x, y)`. With the button held and
    /// the cell a new one, the engine gets a drag to it.
    pub fn handle_pointer_motion(&mut self, x: u32, y: u32) -> (command: Option<UiCommand>)
        ensures
            final(self)@ == (PointerState {
                mouse_down: old(self)@.mouse_down,
                mouse_position: (x, y),
            }),
            command == if old(self)@.mouse_down && old(self)@.mouse_position != (x, y) {
                Some(UiCommand::Drag(x, y))
            } else {
                None::<UiCommand>
            },
    {
        let previous = self.mouse_position;
        self.mouse_position = (x, y);
        if self.mouse_down && (previous.0 != x || previous.1 != y) {
            Some(UiCommand::Drag(x, y))
        } else {
            None
        }
    }

    /// The button went down: the engine gets a press at the pointer's cell.
    pub fn handle_pointer_down(&mut self) -> (command: UiCommand)
        ensures
            final(self)@ == (PointerState {
                mouse_down: true,
                mouse_position: old(self)@.mouse_position,
            }),
            command@ == (UiCommandView::MouseButton {
                action: "press"@,
                position: old(self)@.mouse_position,
            }),
    {
        self.mouse_down = true;
        UiCommand::MouseButton {
            action: String::from_str("press"),
            position: self.mouse_position,
        }
    }

    /// The button came up: the engine gets a release at the pointer's cell.
    pub fn handle_pointer_up(&mut self) -> (command: UiCommand)
        ensures
            final(self)@ == (PointerState {
                mouse_down: false,
                mouse_position: old(self)@.mouse_position,
            }),
            command@ == (UiCommandView::MouseButton {
                action: "release"@,
                position: old(self)@.mouse_position,
            }),
    {
        self.mouse_down = false;
        UiCommand::MouseButton {
            action: String::from_str("release"),
            position: self.mouse_position,
        }
    }

    /// The wheel turned: the engine gets a scroll for each axis that moved,
    /// the vertical one first, at the pointer's cell.
    pub fn handle_mouse_wheel(&mut self, x: WheelMotion, y: WheelMotion) -> (commands: Vec<
        UiCommand,
    >)
        ensures
            final(self)@ == old(self)@,
            command_views(commands@) == wheel_scrolls(x, y, old(self)@.mouse_position),
    {
        let mut commands: Vec<UiCommand> = Vec::new();
        match y {
            WheelMotion::Forward => {
                commands.push(
                    UiCommand::Scroll {
                        direction: String::from_str("up"),
                        position: self.mouse_position,
                    },
                );
            },
            WheelMotion::Backward => {
                commands.push(
                    UiCommand::Scroll {
                        direction: String::from_str("down"),
                        position: self.mouse_position,
                    },
                );
            },
            WheelMotion::Still => {},
        }
        assert(command_views(commands@) =~= vertical_scroll(y, self.mouse_position));
        match x {
            WheelMotion::Forward => {
                commands.push(
                    UiCommand::Scroll {
                        direction: String::from_str("right"),
                        position: self.mouse_position,
                    },
                );
            },
            WheelMotion::Backward => {
                commands.push(
                    UiCommand::Scroll {
                        direction: String::from_str("left"),
                        position: self.mouse_position,
                    },
                );
            },
            WheelMotion::Still => {},
        }
        assert(command_views(commands@) =~= wheel_scrolls(x, y, self.mouse_position));
        commands
    }

    /// The window lost the focus.
    pub fn handle_focus_lost(&mut self) -> (command: UiCommand)
        ensures
            final(self)@ == old(self)@,
            command == UiCommand::FocusLost,
    {
        UiCommand::FocusLost
    }

    /// The window got the focus: the engine is told, and a frame is due.
    pub fn handle_focus_gained(&mut self) -> (actions: Vec<WindowAction>)
        ensures
            final(self)@ == old(self)@,
            actions@ == seq![
                WindowAction::Queue(UiCommand::FocusGained),
                WindowAction::QueueNextFrame,
            ],
    {
        let mut actions: Vec<WindowAction> = Vec::new();
        actions.push(WindowAction::Queue(UiCommand::FocusGained));
        actions.push(WindowAction::QueueNextFrame);
        actions
    }

    /// Decides about a frame: none once the bridge has stopped, one if a
    /// redraw is due or idling is off, none otherwise.
    pub fn draw_frame(&mut self, running: bool, redraw_due: bool, no_idle: bool) -> (plan: FramePlan)
        ensures
            final(self)@ == old(self)@,
            plan == if !running {
                FramePlan::Stop
            } else if redraw_due || no_idle {
                FramePlan::Draw
            } else {
                FramePlan::Idle
            },
    {
        if !running {
            return FramePlan::Stop;
        }
        if redraw_due || no_idle {
            FramePlan::Draw
        } else {
            FramePlan::Idle
        }
    }

    /// Takes one event of the window system and says what the event loop
    /// has to do for it, in order.
    pub fn handle_event(&mut self, event: WindowEvent) -> (actions: Vec<WindowAction>)
        ensures
            final(self)@ == pointer_after(old(self)@, event),
            action_views(actions@) == response(old(self)@, event),
    {
        let mut actions: Vec<WindowAction> = Vec::new();
        match event {
            WindowEvent::Wake => {
                actions.push(WindowAction::RequestRedraw);
            },
            WindowEvent::CloseRequested => {
                actions.push(WindowAction::Queue(self.handle_quit()));
                actions.push(WindowAction::Exit);
            },
            WindowEvent::Resized(grid) => {
                if let Some(command) = handle_new_grid_size(grid) {
                    actions.push(WindowAction::Queue(command));
                }
            },
            WindowEvent::ReceivedCharacter(c) => {
                let input = typed_keys(c);
                actions.push(WindowAction::Queue(self.handle_keyboard_input(input)));
            },
            WindowEvent::CursorMoved(cell) => {
                if let Some((x, y)) = cell {
                    if let Some(command) = self.handle_pointer_motion(x, y) {
                        actions.push(WindowAction::Queue(command));
                    }
                }
            },
            WindowEvent::MouseInput { pressed } => {
                let command = if pressed {
                    self.handle_pointer_down()
                } else {
                    self.handle_pointer_up()
                };
                actions.push(WindowAction::Queue(command));
            },
            WindowEvent::MouseWheel { horizontal, vertical } => {
                let ghost position = self@.mouse_position;
                let commands = self.handle_mouse_wheel(horizontal, vertical);
                let ghost scrolls = commands@;
                for command in it: commands
                    invariant
                        it.seq() == scrolls,
                        actions@.len() == it.index(),
                        forall|k: int|
                            0 <= k < it.index() ==> (#[trigger] actions@[k])@
                                == WindowActionView::Queue(scrolls[k]@),
                {
                    actions.push(WindowAction::Queue(command));
                }
                assert(action_views(actions@) =~= command_views(scrolls).map_values(
                    |command: UiCommandView| WindowActionView::Queue(command),
                ));
            },
            WindowEvent::Focused(focused) => {
                if focused {
                    actions = self.handle_focus_gained();
                } else {
                    actions.push(WindowAction::Queue(self.handle_focus_lost()));
                }
            },
            WindowEvent::DroppedFile(path) => {
                if let Some(path) = path {
                    actions.push(WindowAction::Queue(UiCommand::FileDrop(path)));
                }
            },
            WindowEvent::RedrawRequested => {
                actions.push(WindowAction::DrawFrame);
            },
            WindowEvent::Other => {},
        }
        assert(action_views(actions@) =~= response(old(self)@, event));
        actions
    }
}

/// The keys that a typed character stands for: `<` must be written out,
/// every other character stands for itself.
pub fn typed_keys(c: char) -> (input: String)
    ensures
        input@ == typed_text(c),
{
    if c == '<' {
        String::from_str("<lt>")
    } else {
        char_text(c)
    }
}

/// The resize that a new window size calls for: none for a window without
/// area.
pub fn handle_new_grid_size(grid: Option<(u32, u32)>) -> (command: Option<UiCommand>)
    ensures
        command == match grid {
            Some(size) => Some(UiCommand::Resize { width: size.0, height: size.1 }),
            None => None::<UiCommand>,
        },
{
    match grid {
        Some(size) => Some(UiCommand::Resize { width: size.0, height: size.1 }),
        None => None,
    }
}

/// Whether the front-end goes on after a frame: not once the bridge has
/// stopped, and not after a frame that could not be drawn.
pub fn frame_survives(plan: FramePlan, drawn: bool) -> (alive: bool)
    ensures
        alive == match plan {
            FramePlan::Stop => false,
            FramePlan::Draw => drawn,
            FramePlan::Idle => true,
        },
{
    match plan {
        FramePlan::Stop => false,
        FramePlan::Draw => drawn,
        FramePlan::Idle => true,
    }
}

} // verus!
