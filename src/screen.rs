use vstd::prelude::*;

use crate::fspath::FsPath;
use crate::session::{allowed, copy_opt, opt_path, FileSystem, Message, Mode};

verus! {

/// A control that a screen offers, one for each kind of user action.
#[derive(Debug, Clone, Copy, PartialEq, Eq, Structural)]
pub enum Action {
    OpenFile,
    OpenFolder,
    Edit,
    Save,
    New,
    Delete,
    ChangeTheme,
    Back,
    CreateFolder,
    UpFolder,
    Copy,
    Paste,
    Refresh,
    ConfirmDelete,
    CancelDelete,
    SelectTheme,
}

/// The control that raises `m`, or `None` for the outcome of an operation.
pub open spec fn action_of(m: Message) -> Option<Action> {
    match m {
        Message::OpenFile => Some(Action::OpenFile),
        Message::OpenFolder => Some(Action::OpenFolder),
        Message::Edit(_) => Some(Action::Edit),
        Message::Save => Some(Action::Save),
        Message::New(_) => Some(Action::New),
        Message::Delete => Some(Action::Delete),
        Message::GoThemePage => Some(Action::ChangeTheme),
        Message::GoDirPage => Some(Action::Back),
        Message::CreateFolder => Some(Action::CreateFolder),
        Message::BackFolder => Some(Action::UpFolder),
        Message::Copy => Some(Action::Copy),
        Message::Paste(_) => Some(Action::Paste),
        Message::Refresh => Some(Action::Refresh),
        Message::ConfirmDelete => Some(Action::ConfirmDelete),
        Message::GoEditPage => Some(Action::CancelDelete),
        Message::SelectedTheme(_) => Some(Action::SelectTheme),
        _ => None,
    }
}

/// The controls that each mode offers, in the order they are shown.
pub open spec fn offered(mode: Mode) -> Seq<Action> {
    match mode {
        Mode::Start => seq![Action::OpenFile, Action::OpenFolder],
        Mode::Opened => seq![
            Action::Edit,
            Action::Save,
            Action::New,
            Action::Delete,
            Action::ChangeTheme,
            Action::Back,
        ],
        Mode::OnDir => seq![
            Action::New,
            Action::CreateFolder,
            Action::OpenFile,
            Action::OpenFolder,
            Action::UpFolder,
            Action::Copy,
            Action::Paste,
            Action::Refresh,
        ],
        Mode::ConfirmDel => seq![Action::ConfirmDelete, Action::CancelDelete],
        Mode::ThemePage => seq![Action::SelectTheme],
    }
}

/// What the screen shows for a session; drawing it is left to a front end.
#[derive(Debug)]
pub struct Screen {
    pub mode: Mode,
    /// A line of text above everything else, where the mode has one.
    pub heading: Option<String>,
    /// The current directory or file.
    pub path: Option<FsPath>,
    /// The text of the open file, while it is being edited.
    pub text: Option<String>,
    /// The listing of the current directory.
    pub listing: Option<String>,
    /// The controls, in order.
    pub actions: Vec<Action>,
    pub theme: usize,
}

/// The heading that a mode shows, if any.
pub open spec fn heading_of(mode: Mode) -> Option<Seq<char>> {
    match mode {
        Mode::Start => Some("Rust Virtual File System"@),
        Mode::ConfirmDel => Some("Are you sure you want to delete this file?"@),
        _ => None,
    }
}

fn offered_actions(mode: Mode) -> (r: Vec<Action>)
    ensures
        r@ == offered(mode),
{
    let r = match mode {
        Mode::Start => vec![Action::OpenFile, Action::OpenFolder],
        Mode::Opened => vec![
            Action::Edit,
            Action::Save,
            Action::New,
            Action::Delete,
            Action::ChangeTheme,
            Action::Back,
        ],
        Mode::OnDir => vec![
            Action::New,
            Action::CreateFolder,
            Action::OpenFile,
            Action::OpenFolder,
            Action::UpFolder,
            Action::Copy,
            Action::Paste,
            Action::Refresh,
        ],
        Mode::ConfirmDel => vec![Action::ConfirmDelete, Action::CancelDelete],
        Mode::ThemePage => vec![Action::SelectTheme],
    };
    assert(r@ =~= offered(mode));
    r
}

impl FileSystem {
    /// Describes the screen for the current session.
    pub fn screen(&self) -> (r: Screen)
        ensures
            r.mode == self.mode,
            r.theme == self.theme,
            opt_path(r.path) == opt_path(self.dir),
            r.actions@ == offered(self.mode),
            r.heading is Some == heading_of(self.mode) is Some,
            r.heading matches Some(h) ==> heading_of(self.mode) == Some(h@),
            r.text is Some == (self.mode == Mode::Opened),
            r.text matches Some(t) ==> t@ == self.file_content@,
            r.listing is Some == (self.mode == Mode::Opened || self.mode == Mode::OnDir),
            r.listing matches Some(l) ==> l@ == self.content@,
    {
        let heading = match self.mode {
            Mode::Start => Some(String::from_str("Rust Virtual File System")),
            Mode::ConfirmDel => Some(String::from_str("Are you sure you want to delete this file?")),
            _ => None,
        };
        let text = match self.mode {
            Mode::Opened => Some(self.file_content.clone()),
            _ => None,
        };
        let listing = match self.mode {
            Mode::Opened | Mode::OnDir => Some(self.content.clone()),
            _ => None,
        };
        let path = copy_opt(&self.dir);
        Screen {
            mode: self.mode,
            heading,
            path,
            text,
            listing,
            actions: offered_actions(self.mode),
            theme: self.theme,
        }
    }
}

/// A user action is handled exactly in the modes whose screen offers its control.
pub proof fn lemma_offered_iff_allowed(mode: Mode, m: Message)
    requires
        action_of(m) is Some,
    ensures
        allowed(mode, m) <==> offered(mode).contains(action_of(m)->0),
{
    let a = action_of(m)->0;
    let s = offered(mode);
    match mode {
        Mode::Start => {
            assert(s[0] == Action::OpenFile && s[1] == Action::OpenFolder);
        },
        Mode::Opened => {
            assert(s[0] == Action::Edit && s[1] == Action::Save && s[2] == Action::New && s[3]
                == Action::Delete && s[4] == Action::ChangeTheme && s[5] == Action::Back);
        },
        Mode::OnDir => {
            assert(s[0] == Action::New && s[1] == Action::CreateFolder && s[2] == Action::OpenFile
                && s[3] == Action::OpenFolder && s[4] == Action::UpFolder && s[5] == Action::Copy
                && s[6] == Action::Paste && s[7] == Action::Refresh);
        },
        Mode::ConfirmDel => {
            assert(s[0] == Action::ConfirmDelete && s[1] == Action::CancelDelete);
        },
        Mode::ThemePage => {
            assert(s[0] == Action::SelectTheme);
        },
    }
}

} // verus!
