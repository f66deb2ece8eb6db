//! What the notifications of the tray window mean: which command a menu
//! entry stands for, what a tray notification asks for, and which keys the
//! number fields of the settings take.

use vstd::prelude::*;
use crate::lifecycle::{Request, Status};

verus! {

/// The window is being destroyed.
pub const WM_DESTROY: u32 = 0x0002;

/// The user asked to close the window.
pub const WM_CLOSE: u32 = 0x0010;

/// A character was typed.
pub const WM_CHAR: u32 = 0x0102;

/// A menu entry or a control was chosen.
pub const WM_COMMAND: u32 = 0x0111;

/// The tray icon reports an event.
pub const WM_TRAY: u32 = 0x8001;

/// Tray event: the context menu was asked for.
pub const TRAY_CONTEXT_MENU: u16 = 0x007B;

/// Tray event: the icon was chosen.
pub const TRAY_SELECT: u16 = 0x0400;

/// Identifier of the control that pauses.
pub const CONTROL_PAUSE: i32 = 104;

/// Identifier of the control that resumes.
pub const CONTROL_RESUME: i32 = 105;

/// What the tray window does with a message.
#[derive(Clone, Copy, Debug, PartialEq, Eq, Structural)]
pub enum WindowAction {
    /// Hide the window; the answer is 0.
    Hide,
    /// Carry out the command in the message; the answer is 1.
    Command,
    /// Look at the tray notification in the message; the answer is 1.
    Tray,
    /// End the message loop of the program; the answer is 0.
    Quit,
    /// Leave the message to the default handling, answer included.
    Default,
}

/// The action for a window message.
pub open spec fn window_action_of(message: u32) -> WindowAction {
    if message == WM_CLOSE {
        WindowAction::Hide
    } else if message == WM_COMMAND {
        WindowAction::Command
    } else if message == WM_TRAY {
        WindowAction::Tray
    } else if message == WM_DESTROY {
        WindowAction::Quit
    } else {
        WindowAction::Default
    }
}

/// Decides what the tray window does with a message.
pub fn window_action(message: u32) -> (action: WindowAction)
    ensures
        action == window_action_of(message),
{
    if message == WM_CLOSE {
        WindowAction::Hide
    } else if message == WM_COMMAND {
        WindowAction::Command
    } else if message == WM_TRAY {
        WindowAction::Tray
    } else if message == WM_DESTROY {
        WindowAction::Quit
    } else {
        WindowAction::Default
    }
}

impl WindowAction {
    /// The answer of the window procedure, where the action fixes it.
    pub open spec fn answer_of(self) -> Option<isize> {
        match self {
            WindowAction::Hide => Some(0isize),
            WindowAction::Command => Some(1isize),
            WindowAction::Tray => Some(1isize),
            WindowAction::Quit => Some(0isize),
            WindowAction::Default => None,
        }
    }

    /// The answer of the window procedure, where the action fixes it.
    pub fn answer(&self) -> (answer: Option<isize>)
        ensures
            answer == self.answer_of(),
    {
        match self {
            WindowAction::Hide => Some(0),
            WindowAction::Command => Some(1),
            WindowAction::Tray => Some(1),
            WindowAction::Quit => Some(0),
            WindowAction::Default => None,
        }
    }
}

/// A command of the menu or of the settings window.
#[derive(Clone, Copy, Debug, PartialEq, Eq, Structural)]
pub enum MenuCommand {
    /// End the program.
    Quit,
    /// Show the settings.
    Show,
    /// Show the note about the program.
    Info,
    /// Start the program again with raised rights.
    Elevate,
    /// Pause the capture loop.
    Pause,
    /// Resume the capture loop.
    Resume,
    /// Store the settings, then resume the capture loop with them.
    SaveAndResume,
}

/// The low sixteen bits of a message word.
pub open spec fn low_word(word: int) -> int {
    word % 0x10000
}

/// The sixteen bits above the low sixteen of a message word.
pub open spec fn high_word(word: int) -> int {
    (word / 0x10000) % 0x10000
}

/// Sixteen bits read as a signed number.
pub open spec fn signed_word(bits: int) -> int {
    if bits >= 0x8000 {
        bits - 0x10000
    } else {
        bits
    }
}

impl MenuCommand {
    /// The identifier of the command.
    pub open spec fn id_of(self) -> usize {
        match self {
            MenuCommand::Quit => 100,
            MenuCommand::Show => 101,
            MenuCommand::Info => 102,
            MenuCommand::Elevate => 103,
            MenuCommand::Pause => 104,
            MenuCommand::Resume => 105,
            MenuCommand::SaveAndResume => 106,
        }
    }

    /// The command with the identifier `id`, if there is one.
    pub open spec fn with_id(id: int) -> Option<MenuCommand> {
        if id == 100 {
            Some(MenuCommand::Quit)
        } else if id == 101 {
            Some(MenuCommand::Show)
        } else if id == 102 {
            Some(MenuCommand::Info)
        } else if id == 103 {
            Some(MenuCommand::Elevate)
        } else if id == 104 {
            Some(MenuCommand::Pause)
        } else if id == 105 {
            Some(MenuCommand::Resume)
        } else if id == 106 {
            Some(MenuCommand::SaveAndResume)
        } else {
            None
        }
    }

    /// What the command asks of the lifecycle coordinator, if anything.
    pub open spec fn request_of(self) -> Option<Request> {
        match self {
            MenuCommand::Pause => Some(Request::Pause),
            MenuCommand::Resume => Some(Request::Resume),
            MenuCommand::SaveAndResume => Some(Request::Resume),
            _ => None,
        }
    }

    /// The text of the menu entry for the command; the settings window
    /// alone offers to store and resume, so that command has none.
    pub open spec fn label_of(self) -> Option<Seq<char>> {
        match self {
            MenuCommand::Quit => Some("Quit"@),
            MenuCommand::Show => Some("Options"@),
            MenuCommand::Info => Some("About NimbusScroll"@),
            MenuCommand::Elevate => Some("Restart as Admin"@),
            MenuCommand::Pause => Some("Stop Thread"@),
            MenuCommand::Resume => Some("Start Thread"@),
            MenuCommand::SaveAndResume => None,
        }
    }

    /// The identifier of the command.
    pub fn id(&self) -> (id: usize)
        ensures
            id == self.id_of(),
            MenuCommand::with_id(id as int) == Some(*self),
    {
        match self {
            MenuCommand::Quit => 100,
            MenuCommand::Show => 101,
            MenuCommand::Info => 102,
            MenuCommand::Elevate => 103,
            MenuCommand::Pause => 104,
            MenuCommand::Resume => 105,
            MenuCommand::SaveAndResume => 106,
        }
    }

    /// Reads the command out of the first word of a command message: its
    /// identifier is the low sixteen bits.
    pub fn decode(w_param: usize) -> (command: Option<MenuCommand>)
        ensures
            command == MenuCommand::with_id(low_word(w_param as int)),
            command matches Some(found) ==> found.id_of() == low_word(w_param as int),
    {
        let id: usize = w_param % 0x10000;
        if id == 100 {
            Some(MenuCommand::Quit)
        } else if id == 101 {
            Some(MenuCommand::Show)
        } else if id == 102 {
            Some(MenuCommand::Info)
        } else if id == 103 {
            Some(MenuCommand::Elevate)
        } else if id == 104 {
            Some(MenuCommand::Pause)
        } else if id == 105 {
            Some(MenuCommand::Resume)
        } else if id == 106 {
            Some(MenuCommand::SaveAndResume)
        } else {
            None
        }
    }

    /// What the command asks of the lifecycle coordinator, if anything.
    pub fn request(&self) -> (request: Option<Request>)
        ensures
            request == self.request_of(),
    {
        match self {
            MenuCommand::Pause => Some(Request::Pause),
            MenuCommand::Resume => Some(Request::Resume),
            MenuCommand::SaveAndResume => Some(Request::Resume),
            _ => None,
        }
    }

    /// Whether the settings are stored before the command is carried out.
    pub fn saves_first(&self) -> (saves: bool)
        ensures
            saves == (*self == MenuCommand::SaveAndResume),
    {
        match self {
            MenuCommand::SaveAndResume => true,
            _ => false,
        }
    }

    /// The text of the menu entry for the command.
    pub fn label(&self) -> (label: Option<&'static str>)
        ensures
            label is Some <==> self.label_of() is Some,
            label matches Some(text) ==> Some(text@) == self.label_of(),
    {
        match self {
            MenuCommand::Quit => Some("Quit"),
            MenuCommand::Show => Some("Options"),
            MenuCommand::Info => Some("About NimbusScroll"),
            MenuCommand::Elevate => Some("Restart as Admin"),
            MenuCommand::Pause => Some("Stop Thread"),
            MenuCommand::Resume => Some("Start Thread"),
            MenuCommand::SaveAndResume => None,
        }
    }
}

/// One line of the tray menu.
#[derive(Clone, Copy, Debug, PartialEq, Eq, Structural)]
pub enum MenuItem {
    Entry(MenuCommand),
    Separator,
}

/// The tray menu while the capture loop runs (`active`) or does not: the
/// first entry pauses a running loop or resumes a stopped one, and the rest
/// is always the same.
pub open spec fn menu_of(active: bool) -> Seq<MenuItem> {
    seq![
        MenuItem::Entry(
            if active {
                MenuCommand::Pause
            } else {
                MenuCommand::Resume
            },
        ),
        MenuItem::Entry(MenuCommand::Elevate),
        MenuItem::Separator,
        MenuItem::Entry(MenuCommand::Info),
        MenuItem::Entry(MenuCommand::Show),
        MenuItem::Entry(MenuCommand::Quit),
    ]
}

/// Lists the lines of the tray menu from top to bottom.
pub fn menu(active: bool) -> (items: Vec<MenuItem>)
    ensures
        items@ == menu_of(active),
{
    let mut items: Vec<MenuItem> = Vec::new();
    if active {
        items.push(MenuItem::Entry(MenuCommand::Pause));
    } else {
        items.push(MenuItem::Entry(MenuCommand::Resume));
    }
    items.push(MenuItem::Entry(MenuCommand::Elevate));
    items.push(MenuItem::Separator);
    items.push(MenuItem::Entry(MenuCommand::Info));
    items.push(MenuItem::Entry(MenuCommand::Show));
    items.push(MenuItem::Entry(MenuCommand::Quit));
    assert(items@ =~= menu_of(active));
    items
}

/// What a notification of the tray icon asks for.
#[derive(Clone, Copy, Debug, PartialEq, Eq, Structural)]
pub enum TrayEvent {
    /// Show the menu of the icon `uid` at the position `(x, y)`.
    Menu { uid: u16, x: i16, y: i16 },
    /// Show the settings.
    Show,
    /// Nothing.
    Nothing,
}

/// The meaning of a tray notification with the message words `w_param` and
/// `l_param`. The event and the icon are the low and the high half of
/// `l_param`; the position is in the two halves of `w_param`, each read as
/// a signed number.
pub open spec fn tray_event_of(w_param: int, l_param: int) -> TrayEvent {
    let event = low_word(l_param);
    if event == TRAY_CONTEXT_MENU {
        TrayEvent::Menu {
            uid: high_word(l_param) as u16,
            x: signed_word(low_word(w_param)) as i16,
            y: signed_word(high_word(w_param)) as i16,
        }
    } else if event == TRAY_SELECT {
        TrayEvent::Show
    } else {
        TrayEvent::Nothing
    }
}

/// The low and the high sixteen bits of a signed message word.
fn halves(word: isize) -> (halves: (u16, u16))
    ensures
        halves.0 == low_word(word as int),
        halves.1 == high_word(word as int),
{
    if word >= 0 {
        let bits: usize = word as usize;
        ((bits % 0x10000) as u16, ((bits / 0x10000) % 0x10000) as u16)
    } else {
        let inverse: usize = (-(word + 1)) as usize;
        let low: usize = 0xFFFF - inverse % 0x10000;
        let high: usize = 0xFFFF - (inverse / 0x10000) % 0x10000;
        (low as u16, high as u16)
    }
}

/// Sixteen bits as a signed number.
fn signed(bits: u16) -> (value: i16)
    ensures
        value == signed_word(bits as int),
{
    if bits >= 0x8000 {
        (bits as i32 - 0x10000) as i16
    } else {
        bits as i16
    }
}

/// Reads a tray notification.
pub fn decode_tray(w_param: usize, l_param: isize) -> (event: TrayEvent)
    ensures
        event == tray_event_of(w_param as int, l_param as int),
{
    let (kind, uid) = halves(l_param);
    if kind == TRAY_CONTEXT_MENU {
        let x: u16 = (w_param % 0x10000) as u16;
        let y: u16 = ((w_param / 0x10000) % 0x10000) as u16;
        TrayEvent::Menu { uid, x: signed(x), y: signed(y) }
    } else if kind == TRAY_SELECT {
        TrayEvent::Show
    } else {
        TrayEvent::Nothing
    }
}

/// The code of the space character; what lies below it is a control
/// character.
pub const KEY_SPACE: usize = 0x20;

/// The code of the minus sign.
pub const KEY_MINUS: usize = 0x2D;

/// The code of the digit zero.
pub const KEY_ZERO: usize = 0x30;

/// The code of the digit nine.
pub const KEY_NINE: usize = 0x39;

/// Whether a number field takes the message. Every message but a typed
/// character passes, and so does a control character. Of the other
/// characters a digit passes anywhere, and a minus sign at the very start
/// of the field, where `selection` is zero.
pub open spec fn accepts_key_of(message: u32, key: usize, selection: isize) -> bool {
    ||| message != WM_CHAR
    ||| key < KEY_SPACE
    ||| KEY_ZERO <= key <= KEY_NINE
    ||| (key == KEY_MINUS && selection == 0)
}

/// Decides whether a number field takes the message, given the answer
/// `selection` of the field to the question where its selection lies.
pub fn accepts_key(message: u32, key: usize, selection: isize) -> (accepted: bool)
    ensures
        accepted == accepts_key_of(message, key, selection),
{
    if message == WM_CHAR && key >= KEY_SPACE {
        if key != KEY_MINUS || selection != 0 {
            if !(KEY_ZERO <= key && key <= KEY_NINE) {
                return false;
            }
        }
    }
    true
}

/// How the settings window follows a status of the capture loop: the
/// control that is relabelled, its new text and its new identifier.
#[derive(Clone, Copy, Debug, PartialEq, Eq)]
pub struct Relabel {
    pub control: i32,
    pub text: &'static str,
    pub becomes: i32,
}

/// Says how the settings window follows `status`. A stopped loop turns
/// the control that pauses into one that resumes, a started loop turns it
/// back, and the filter worker shows nowhere.
pub fn relabel(status: Status) -> (change: Option<Relabel>)
    ensures
        status == Status::CaptureStopped ==> (change matches Some(r) && r.control
            == CONTROL_PAUSE && r.becomes == CONTROL_RESUME && r.text@ == "Unpause"@),
        status == Status::CaptureStarted ==> (change matches Some(r) && r.control
            == CONTROL_RESUME && r.becomes == CONTROL_PAUSE && r.text@ == "Pause"@),
        (status == Status::HookStopped || status == Status::HookStarted) ==> change is None,
{
    match status {
        Status::CaptureStopped => Some(
            Relabel { control: CONTROL_PAUSE, text: "Unpause", becomes: CONTROL_RESUME },
        ),
        Status::CaptureStarted => Some(
            Relabel { control: CONTROL_RESUME, text: "Pause", becomes: CONTROL_PAUSE },
        ),
        _ => None,
    }
}

/// What the tip of the tray icon says after its name once the capture
/// loop has reported `status`.
pub fn tip_suffix(status: Status) -> (suffix: Option<&'static str>)
    ensures
        status == Status::CaptureStopped ==> (suffix matches Some(text) && text@
            == " - Inactive"@),
        status == Status::CaptureStarted ==> (suffix matches Some(text) && text@
            == " - Active"@),
        (status == Status::HookStopped || status == Status::HookStarted) ==> suffix is None,
{
    match status {
        Status::CaptureStopped => Some(" - Inactive"),
        Status::CaptureStarted => Some(" - Active"),
        _ => None,
    }
}

/// Whether the program may go on as the only instance: the guard was
/// created, and creating it raised no error, which it does where another
/// instance holds the guard already.
pub fn sole_instance(guard: usize, last_error: u32) -> (sole: bool)
    ensures
        sole == (guard != 0 && last_error == 0),
{
    guard != 0 && last_error == 0
}

/// Whether the path of the program was obtained: `len` characters were
/// written into a buffer of `capacity`, and the path was not cut short. A
/// full buffer holds a whole path only where no error was raised.
pub fn path_obtained(len: u32, capacity: u32, last_error: u32) -> (obtained: bool)
    ensures
        obtained == (len != 0 && !(len == capacity && last_error != 0)),
{
    !(len == 0 || (len == capacity && last_error != 0))
}

} // verus!
