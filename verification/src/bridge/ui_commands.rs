use vstd::prelude::*;
use vstd::string::StringExecFns;

verus! {

/// One user-intent action, queued by the window layer for execution against
/// the engine. A command is never changed once it has been built.
#[derive(Debug, PartialEq, Eq)]
pub enum UiCommand {
    /// The grid should take this many columns and rows.
    Resize { width: u32, height: u32 },
    /// Keys to feed to the engine, already in its key notation.
    Keyboard(String),
    /// A mouse button changed state (`action`) at a grid cell.
    MouseButton { action: String, position: (u32, u32) },
    /// The wheel moved in `direction` while the pointer was at a grid cell.
    Scroll { direction: String, position: (u32, u32) },
    /// The pointer moved to this grid cell with the button held.
    Drag(u32, u32),
    /// A file was dropped on the window.
    FileDrop(String),
    FocusLost,
    FocusGained,
    Quit,
}

/// A command as plain values: every text as its characters.
pub enum UiCommandView {
    Resize { width: u32, height: u32 },
    Keyboard(Seq<char>),
    MouseButton { action: Seq<char>, position: (u32, u32) },
    Scroll { direction: Seq<char>, position: (u32, u32) },
    Drag(u32, u32),
    FileDrop(Seq<char>),
    FocusLost,
    FocusGained,
    Quit,
}

impl View for UiCommand {
    type V = UiCommandView;

    open spec fn view(&self) -> UiCommandView {
        match *self {
            UiCommand::Resize { width, height } => UiCommandView::Resize { width, height },
            UiCommand::Keyboard(text) => UiCommandView::Keyboard(text@),
            UiCommand::MouseButton { action, position } => UiCommandView::MouseButton {
                action: action@,
                position,
            },
            UiCommand::Scroll { direction, position } => UiCommandView::Scroll {
                direction: direction@,
                position,
            },
            UiCommand::Drag(column, row) => UiCommandView::Drag(column, row),
            UiCommand::FileDrop(path) => UiCommandView::FileDrop(path@),
            UiCommand::FocusLost => UiCommandView::FocusLost,
            UiCommand::FocusGained => UiCommandView::FocusGained,
            UiCommand::Quit => UiCommandView::Quit,
        }
    }
}

impl Clone for UiCommand {
    fn clone(&self) -> (copy: Self)
        ensures
            copy == *self,
    {
        match self {
            UiCommand::Resize { width, height } => UiCommand::Resize {
                width: *width,
                height: *height,
            },
            UiCommand::Keyboard(text) => UiCommand::Keyboard(text.clone()),
            UiCommand::MouseButton { action, position } => UiCommand::MouseButton {
                action: action.clone(),
                position: (position.0, position.1),
            },
            UiCommand::Scroll { direction, position } => UiCommand::Scroll {
                direction: direction.clone(),
                position: (position.0, position.1),
            },
            UiCommand::Drag(column, row) => UiCommand::Drag(*column, *row),
            UiCommand::FileDrop(path) => UiCommand::FileDrop(path.clone()),
            UiCommand::FocusLost => UiCommand::FocusLost,
            UiCommand::FocusGained => UiCommand::FocusGained,
            UiCommand::Quit => UiCommand::Quit,
        }
    }
}

impl UiCommand {
    /// Whether this command asks for a new grid size.
    pub fn is_resize(&self) -> (r: bool)
        ensures
            r == (self is Resize),
    {
        match self {
            UiCommand::Resize { .. } => true,
            _ => false,
        }
    }
}

/// A call to the engine: which function of its interface, and with which
/// arguments.
#[derive(Debug, PartialEq, Eq)]
pub enum RemoteCall {
    /// Ask for a grid of this size.
    TryResize { width: i64, height: i64 },
    /// Feed keys.
    Input(String),
    /// Report a mouse event at a cell of a grid.
    InputMouse { button: String, action: String, modifier: String, grid: i64, row: i64, column: i64 },
    /// Run a command line.
    Command(String),
}

/// A call as plain values.
pub enum RemoteCallView {
    TryResize { width: i64, height: i64 },
    Input(Seq<char>),
    InputMouse {
        button: Seq<char>,
        action: Seq<char>,
        modifier: Seq<char>,
        grid: i64,
        row: i64,
        column: i64,
    },
    Command(Seq<char>),
}

impl View for RemoteCall {
    type V = RemoteCallView;

    open spec fn view(&self) -> RemoteCallView {
        match *self {
            RemoteCall::TryResize { width, height } => RemoteCallView::TryResize { width, height },
            RemoteCall::Input(keys) => RemoteCallView::Input(keys@),
            RemoteCall::InputMouse {
                button,
                action,
                modifier,
                grid,
                row,
                column,
            } => RemoteCallView::InputMouse {
                button: button@,
                action: action@,
                modifier: modifier@,
                grid,
                row,
                column,
            },
            RemoteCall::Command(line) => RemoteCallView::Command(line@),
        }
    }
}

/// The narrowest grid that is asked for.
pub const MINIMUM_WIDTH: u32 = 10;

/// The lowest grid that is asked for.
pub const MINIMUM_HEIGHT: u32 = 3;

/// The larger of two numbers.
pub open spec fn at_least(minimum: u32, value: u32) -> u32 {
    if value < minimum {
        minimum
    } else {
        value
    }
}

/// A mouse call on the first grid without modifiers. The engine takes the
/// row before the column.
pub open spec fn mouse_call(button: Seq<char>, action: Seq<char>, position: (u32, u32)) -> RemoteCallView {
    RemoteCallView::InputMouse {
        button,
        action,
        modifier: ""@,
        grid: 0,
        row: position.1 as i64,
        column: position.0 as i64,
    }
}

/// The call that carries a command out. A resize never asks for less than
/// the minimum grid; the focus events run the autocommands of their name
/// where there are any; quitting leaves without saving; a dropped file is
/// opened.
pub open spec fn call_for(command: UiCommandView) -> RemoteCallView {
    match command {
        UiCommandView::Resize { width, height } => RemoteCallView::TryResize {
            width: at_least(MINIMUM_WIDTH, width) as i64,
            height: at_least(MINIMUM_HEIGHT, height) as i64,
        },
        UiCommandView::Keyboard(keys) => RemoteCallView::Input(keys),
        UiCommandView::MouseButton { action, position } => mouse_call("left"@, action, position),
        UiCommandView::Scroll { direction, position } => mouse_call("wheel"@, direction, position),
        UiCommandView::Drag(column, row) => mouse_call("left"@, "drag"@, (column, row)),
        UiCommandView::FileDrop(path) => RemoteCallView::Command("e "@ + path),
        UiCommandView::FocusLost => RemoteCallView::Command(
            "if exists('#FocusLost') | doautocmd <nomodeline> FocusLost | endif"@,
        ),
        UiCommandView::FocusGained => RemoteCallView::Command(
            "if exists('#FocusGained') | doautocmd <nomodeline> FocusGained | endif"@,
        ),
        UiCommandView::Quit => RemoteCallView::Command("qa!"@),
    }
}

/// What is logged when the call for a command fails. Nothing is logged for
/// quitting and for a dropped file: their failure is expected.
pub open spec fn failure_text(command: UiCommandView) -> Option<Seq<char>> {
    match command {
        UiCommandView::Resize { .. } => Some("Resize failed"@),
        UiCommandView::Keyboard(_) => Some("Input failed"@),
        UiCommandView::MouseButton { .. } => Some("Mouse Input Failed"@),
        UiCommandView::Scroll { .. } => Some("Mouse Scroll Failed"@),
        UiCommandView::Drag(_, _) => Some("Mouse Drag Failed"@),
        UiCommandView::FocusLost => Some("Focus Lost Failed"@),
        UiCommandView::FocusGained => Some("Focus Gained Failed"@),
        UiCommandView::FileDrop(_) => None,
        UiCommandView::Quit => None,
    }
}

fn mouse(button: &str, action: String, position: (u32, u32)) -> (call: RemoteCall)
    ensures
        call@ == mouse_call(button@, action@, position),
{
    RemoteCall::InputMouse {
        button: String::from_str(button),
        action,
        modifier: String::from_str(""),
        grid: 0,
        row: position.1 as i64,
        column: position.0 as i64,
    }
}

impl UiCommand {
    /// The call to the engine that carries this command out.
    pub fn remote_call(self) -> (call: RemoteCall)
        ensures
            call@ == call_for(self@),
    {
        match self {
            UiCommand::Resize { width, height } => {
                let width = if width < MINIMUM_WIDTH {
                    MINIMUM_WIDTH
                } else {
                    width
                };
                let height = if height < MINIMUM_HEIGHT {
                    MINIMUM_HEIGHT
                } else {
                    height
                };
                RemoteCall::TryResize { width: width as i64, height: height as i64 }
            },
            UiCommand::Keyboard(keys) => RemoteCall::Input(keys),
            UiCommand::MouseButton { action, position } => mouse("left", action, position),
            UiCommand::Scroll { direction, position } => mouse("wheel", direction, position),
            UiCommand::Drag(column, row) => mouse("left", String::from_str("drag"), (column, row)),
            UiCommand::FileDrop(path) => {
                let mut line = String::from_str("e ");
                line.append(path.as_str());
                RemoteCall::Command(line)
            },
            UiCommand::FocusLost => RemoteCall::Command(
                String::from_str(
                    "if exists('#FocusLost') | doautocmd <nomodeline> FocusLost | endif",
                ),
            ),
            UiCommand::FocusGained => RemoteCall::Command(
                String::from_str(
                    "if exists('#FocusGained') | doautocmd <nomodeline> FocusGained | endif",
                ),
            ),
            UiCommand::Quit => RemoteCall::Command(String::from_str("qa!")),
        }
    }

    /// What is logged when the call for this command fails, if anything.
    pub fn failure_message(&self) -> (message: Option<String>)
        ensures
            match message {
                Some(text) => failure_text(self@) == Some(text@),
                None => failure_text(self@) is None,
            },
    {
        match self {
            UiCommand::Resize { .. } => Some(String::from_str("Resize failed")),
            UiCommand::Keyboard(_) => Some(String::from_str("Input failed")),
            UiCommand::MouseButton { .. } => Some(String::from_str("Mouse Input Failed")),
            UiCommand::Scroll { .. } => Some(String::from_str("Mouse Scroll Failed")),
            UiCommand::Drag(_, _) => Some(String::from_str("Mouse Drag Failed")),
            UiCommand::FocusLost => Some(String::from_str("Focus Lost Failed")),
            UiCommand::FocusGained => Some(String::from_str("Focus Gained Failed")),
            UiCommand::FileDrop(_) => None,
            UiCommand::Quit => None,
        }
    }
}

} // verus!
