use vstd::prelude::*;

use crate::entry::{listing_text, render_listing, Error, FileType};
use crate::fspath::{default_file, default_path, parent_of, FsPath};

verus! {

/// What the application shows, and so which actions it takes.
#[derive(Debug, Clone, Copy, PartialEq, Eq, Structural)]
pub enum Mode {
    Start,
    Opened,
    OnDir,
    ConfirmDel,
    ThemePage,
}

/// The theme that the application starts with, as an index into the themes offered.
pub const DARK_THEME: usize = 1;

/// An event: a user action, or the outcome of an operation that was scheduled.
#[derive(Debug)]
pub enum Message {
    /// The editor's text after an edit.
    Edit(String),
    LoadFolder(Result<(FsPath, Vec<FileType>), Error>),
    LoadFileFolder(Result<(FsPath, Vec<FileType>), Error>),
    LoadFile(Result<(FsPath, String), Error>),
    OpenFile,
    OpenFolder,
    /// Create a file; carries whether the current path is a directory.
    New(bool),
    Save,
    Delete,
    ConfirmDelete,
    FileDeleted(Result<FsPath, Error>),
    FileSaved(Result<FsPath, Error>),
    CreateFolder,
    CreatedFolder(Result<FsPath, Error>),
    GoEditPage,
    GoThemePage,
    GoDirPage,
    SelectedTheme(usize),
    BackFolder,
    Copy,
    /// Paste the clipboard; carries whether the copied path is a directory.
    Paste(bool),
    Pasted(Result<FsPath, Error>),
    Refresh,
}

/// The one operation that an event schedules, and the event that answers it.
#[derive(Debug)]
pub enum Command {
    Nothing,
    /// List a directory; answered by `LoadFolder`.
    ListFolder(FsPath),
    /// List the directory around the open file; answered by `LoadFileFolder`.
    ListFileFolder(FsPath),
    /// Ask for a file and read it; answered by `LoadFile`.
    PickFile,
    /// Ask for a directory and list it; answered by `LoadFolder`.
    PickFolder,
    /// Write the text, asking for a name where the path is absent or a
    /// directory; answered by `FileSaved`.
    SaveFile(Option<FsPath>, String),
    /// Create a directory, asking for a name where the path is absent or a
    /// directory; answered by `CreatedFolder`.
    CreateFolder(Option<FsPath>),
    /// Delete a file, asking for one where the path is absent or a
    /// directory; answered by `FileDeleted` with the parent directory.
    DeleteFile(Option<FsPath>),
    /// Copy a directory tree into a directory; answered by `Pasted`.
    CopyFolder(FsPath, FsPath),
    /// Copy a file into a directory; answered by `Pasted`.
    CopyFile(FsPath, FsPath),
}

/// A command with its paths and text as plain sequences.
pub enum CommandView {
    Nothing,
    ListFolder(Seq<Seq<char>>),
    ListFileFolder(Seq<Seq<char>>),
    PickFile,
    PickFolder,
    SaveFile(Option<Seq<Seq<char>>>, Seq<char>),
    CreateFolder(Option<Seq<Seq<char>>>),
    DeleteFile(Option<Seq<Seq<char>>>),
    CopyFolder(Seq<Seq<char>>, Seq<Seq<char>>),
    CopyFile(Seq<Seq<char>>, Seq<Seq<char>>),
}

/// An optional path as an optional sequence of components.
pub open spec fn opt_path(p: Option<FsPath>) -> Option<Seq<Seq<char>>> {
    match p {
        Some(q) => Some(q@),
        None => None,
    }
}

impl View for Command {
    type V = CommandView;

    open spec fn view(&self) -> CommandView {
        match self {
            Command::Nothing => CommandView::Nothing,
            Command::ListFolder(p) => CommandView::ListFolder(p@),
            Command::ListFileFolder(p) => CommandView::ListFileFolder(p@),
            Command::PickFile => CommandView::PickFile,
            Command::PickFolder => CommandView::PickFolder,
            Command::SaveFile(p, t) => CommandView::SaveFile(opt_path(*p), t@),
            Command::CreateFolder(p) => CommandView::CreateFolder(opt_path(*p)),
            Command::DeleteFile(p) => CommandView::DeleteFile(opt_path(*p)),
            Command::CopyFolder(a, b) => CommandView::CopyFolder(a@, b@),
            Command::CopyFile(a, b) => CommandView::CopyFile(a@, b@),
        }
    }
}

/// The session: everything the application knows between two events.
#[derive(Debug)]
pub struct FileSystem {
    /// The text of the current directory listing.
    pub content: String,
    /// The text of the open file, as edited.
    pub file_content: String,
    /// The current directory or file.
    pub dir: Option<FsPath>,
    /// The last failure, for display.
    pub error: Option<Error>,
    pub mode: Mode,
    /// 0 until the first directory listing after launch has arrived (and
    /// been discarded), 1 from then on.
    pub modecount: u32,
    pub theme: usize,
    /// The path last marked for copying.
    pub clipboard: Option<FsPath>,
}

/// A session with its paths and texts as plain sequences.
pub struct SessionView {
    pub content: Seq<char>,
    pub file_content: Seq<char>,
    pub dir: Option<Seq<Seq<char>>>,
    pub error: Option<Error>,
    pub mode: Mode,
    pub modecount: u32,
    pub theme: usize,
    pub clipboard: Option<Seq<Seq<char>>>,
}

impl View for FileSystem {
    type V = SessionView;

    open spec fn view(&self) -> SessionView {
        SessionView {
            content: self.content@,
            file_content: self.file_content@,
            dir: opt_path(self.dir),
            error: self.error,
            mode: self.mode,
            modecount: self.modecount,
            theme: self.theme,
            clipboard: opt_path(self.clipboard),
        }
    }
}

/// Whether `m` may be handled in `mode`. User actions are taken only in the
/// modes that offer them; outcomes of scheduled operations in any mode.
pub open spec fn allowed(mode: Mode, m: Message) -> bool {
    match m {
        Message::OpenFile | Message::OpenFolder => mode == Mode::Start || mode == Mode::OnDir,
        Message::Edit(_) | Message::Save | Message::Delete | Message::GoThemePage
        | Message::GoDirPage => mode == Mode::Opened,
        Message::New(_) => mode == Mode::Opened || mode == Mode::OnDir,
        Message::CreateFolder | Message::BackFolder | Message::Copy | Message::Paste(_)
        | Message::Refresh => mode == Mode::OnDir,
        Message::ConfirmDelete | Message::GoEditPage => mode == Mode::ConfirmDel,
        Message::SelectedTheme(_) => mode == Mode::ThemePage,
        _ => true,
    }
}

/// Whether `m` is the outcome of a scheduled operation rather than a user action.
pub open spec fn is_outcome(m: Message) -> bool {
    match m {
        Message::LoadFolder(_) | Message::LoadFileFolder(_) | Message::LoadFile(_)
        | Message::FileDeleted(_) | Message::FileSaved(_) | Message::CreatedFolder(_)
        | Message::Pasted(_) => true,
        _ => false,
    }
}

/// A failure is recorded in the error slot, and nothing else changes.
pub open spec fn failed(s: SessionView, e: Error) -> (SessionView, CommandView) {
    (SessionView { error: Some(e), ..s }, CommandView::Nothing)
}

/// The session and the command that follow `m` in session `s`.
pub open spec fn step(s: SessionView, m: Message) -> (SessionView, CommandView) {
    if !allowed(s.mode, m) {
        (s, CommandView::Nothing)
    } else {
        match m {
            Message::Edit(t) => (SessionView { file_content: t@, ..s }, CommandView::Nothing),
            Message::LoadFile(Ok((p, text))) => (
                SessionView { mode: Mode::Opened, dir: Some(p@), file_content: text@, ..s },
                CommandView::ListFileFolder(parent_of(p@)),
            ),
            Message::LoadFile(Err(e)) => failed(s, e),
            Message::GoDirPage => (
                SessionView {
                    mode: Mode::OnDir,
                    dir: match s.dir {
                        Some(d) => Some(parent_of(d)),
                        None => None,
                    },
                    ..s
                },
                CommandView::Nothing,
            ),
            Message::LoadFolder(r) => {
                if s.modecount == 0 {
                    (SessionView { modecount: 1, ..s }, CommandView::Nothing)
                } else {
                    match r {
                        Ok((p, es)) => (
                            SessionView {
                                mode: Mode::OnDir,
                                dir: Some(p@),
                                file_content: seq![],
                                content: listing_text(es@),
                                ..s
                            },
                            CommandView::Nothing,
                        ),
                        Err(e) => failed(s, e),
                    }
                }
            },
            Message::LoadFileFolder(Ok((_, es))) => (
                SessionView { content: listing_text(es@), ..s },
                CommandView::Nothing,
            ),
            Message::LoadFileFolder(Err(e)) => failed(s, e),
            Message::BackFolder => match s.dir {
                Some(d) => (
                    SessionView { dir: Some(parent_of(d)), ..s },
                    CommandView::ListFolder(parent_of(d)),
                ),
                None => (s, CommandView::Nothing),
            },
            Message::New(is_folder) => {
                let target = match s.dir {
                    None => default_path(),
                    Some(d) => if is_folder { d } else { parent_of(d) },
                };
                (
                    SessionView { mode: Mode::Opened, file_content: seq![], dir: Some(target), ..s },
                    CommandView::SaveFile(Some(target), seq![]),
                )
            },
            Message::Save => (s, CommandView::SaveFile(s.dir, s.file_content)),
            Message::FileSaved(Ok(p)) => (
                SessionView { dir: Some(p@), ..s },
                CommandView::ListFileFolder(parent_of(p@)),
            ),
            Message::FileSaved(Err(e)) => failed(s, e),
            Message::Delete => (SessionView { mode: Mode::ConfirmDel, ..s }, CommandView::Nothing),
            Message::ConfirmDelete => (s, CommandView::DeleteFile(s.dir)),
            Message::FileDeleted(Ok(p)) => (
                SessionView { mode: Mode::OnDir, file_content: seq![], dir: Some(p@), ..s },
                CommandView::ListFileFolder(p@),
            ),
            Message::FileDeleted(Err(e)) => failed(s, e),
            Message::CreateFolder => (s, CommandView::CreateFolder(s.dir)),
            Message::CreatedFolder(Ok(p)) => (
                SessionView { dir: Some(p@), ..s },
                CommandView::ListFileFolder(parent_of(p@)),
            ),
            Message::CreatedFolder(Err(e)) => failed(s, e),
            Message::GoEditPage => (SessionView { mode: Mode::Opened, ..s }, CommandView::Nothing),
            Message::GoThemePage => (SessionView { mode: Mode::ThemePage, ..s }, CommandView::Nothing),
            Message::SelectedTheme(t) => (
                SessionView { theme: t, mode: Mode::Opened, ..s },
                CommandView::Nothing,
            ),
            Message::Copy => (SessionView { clipboard: s.dir, ..s }, CommandView::Nothing),
            Message::Paste(is_folder) => match (s.clipboard, s.dir) {
                (Some(from), Some(to)) => (
                    s,
                    if is_folder {
                        CommandView::CopyFolder(from, to)
                    } else {
                        CommandView::CopyFile(from, to)
                    },
                ),
                _ => (s, CommandView::Nothing),
            },
            Message::Pasted(Ok(p)) => (s, CommandView::ListFileFolder(parent_of(p@))),
            Message::Pasted(Err(e)) => failed(s, e),
            Message::Refresh => match s.dir {
                Some(d) => (s, CommandView::ListFolder(d)),
                None => (s, CommandView::Nothing),
            },
            Message::OpenFile => (s, CommandView::PickFile),
            Message::OpenFolder => (s, CommandView::PickFolder),
        }
    }
}

/// Whether `m` may be handled in `mode`.
pub fn accepts(mode: Mode, m: &Message) -> (r: bool)
    ensures
        r == allowed(mode, *m),
{
    match m {
        Message::OpenFile | Message::OpenFolder => mode == Mode::Start || mode == Mode::OnDir,
        Message::Edit(_) | Message::Save | Message::Delete | Message::GoThemePage
        | Message::GoDirPage => mode == Mode::Opened,
        Message::New(_) => mode == Mode::Opened || mode == Mode::OnDir,
        Message::CreateFolder | Message::BackFolder | Message::Copy | Message::Paste(_)
        | Message::Refresh => mode == Mode::OnDir,
        Message::ConfirmDelete | Message::GoEditPage => mode == Mode::ConfirmDel,
        Message::SelectedTheme(_) => mode == Mode::ThemePage,
        _ => true,
    }
}

/// An independent copy of an optional path.
pub(crate) fn copy_opt(p: &Option<FsPath>) -> (r: Option<FsPath>)
    ensures
        opt_path(r) == opt_path(*p),
{
    match p {
        Some(q) => Some(q.duplicate()),
        None => None,
    }
}

impl FileSystem {
    /// A session in the start mode, with the command that lists the working
    /// directory (the first listing to arrive is discarded).
    pub fn new() -> (r: (FileSystem, Command))
        ensures
            r.0@ == (SessionView {
                content: seq![],
                file_content: seq![],
                dir: None,
                error: None,
                mode: Mode::Start,
                modecount: 0,
                theme: DARK_THEME,
                clipboard: None,
            }),
            r.1@ == CommandView::ListFolder(default_path()),
    {
        let fs = FileSystem {
            content: String::new(),
            file_content: String::new(),
            dir: None,
            error: None,
            mode: Mode::Start,
            modecount: 0,
            theme: DARK_THEME,
            clipboard: None,
        };
        (fs, Command::ListFolder(default_file()))
    }

    pub fn title(&self) -> (r: String)
        ensures
            r@ == seq!['F', 'i', 'l', 'e', ' ', 'S', 'y', 's', 't', 'e', 'm'],
    {
        let r = String::from_str("File System");
        proof {
            reveal_strlit("File System");
        }
        r
    }

    pub fn theme(&self) -> (r: usize)
        ensures
            r == self.theme,
    {
        self.theme
    }

    /// Handles one event: updates the session and returns the operation to run.
    pub fn update(&mut self, message: Message) -> (r: Command)
        ensures
            (final(self)@, r@) == step(old(self)@, message),
    {
        if !accepts(self.mode, &message) {
            return Command::Nothing;
        }
        match message {
            Message::Edit(text) => {
                self.file_content = text;
                Command::Nothing
            },
            Message::LoadFile(Ok((path, text))) => {
                self.mode = Mode::Opened;
                let folder = path.parent();
                self.dir = Some(path);
                self.file_content = text;
                Command::ListFileFolder(folder)
            },
            Message::LoadFile(Err(e)) => {
                self.error = Some(e);
                Command::Nothing
            },
            Message::GoDirPage => {
                self.mode = Mode::OnDir;
                if let Some(d) = &self.dir {
                    self.dir = Some(d.parent());
                }
                Command::Nothing
            },
            Message::LoadFolder(result) => {
                if self.modecount == 0 {
                    self.modecount = 1;
                } else {
                    match result {
                        Ok((path, entries)) => {
                            self.mode = Mode::OnDir;
                            self.dir = Some(path);
                            self.file_content = String::new();
                            self.content = render_listing(&entries);
                        },
                        Err(e) => {
                            self.error = Some(e);
                        },
                    }
                }
                Command::Nothing
            },
            Message::LoadFileFolder(Ok((_, entries))) => {
                self.content = render_listing(&entries);
                Command::Nothing
            },
            Message::LoadFileFolder(Err(e)) => {
                self.error = Some(e);
                Command::Nothing
            },
            Message::BackFolder => match &self.dir {
                Some(d) => {
                    let up = d.parent();
                    self.dir = Some(up.duplicate());
                    Command::ListFolder(up)
                },
                None => Command::Nothing,
            },
            Message::New(is_folder) => {
                self.mode = Mode::Opened;
                self.file_content = String::new();
                let target = match &self.dir {
                    None => default_file(),
                    Some(d) => if is_folder {
                        d.duplicate()
                    } else {
                        d.parent()
                    },
                };
                self.dir = Some(target.duplicate());
                Command::SaveFile(Some(target), String::new())
            },
            Message::Save => Command::SaveFile(copy_opt(&self.dir), self.file_content.clone()),
            Message::FileSaved(Ok(path)) => {
                let folder = path.parent();
                self.dir = Some(path);
                Command::ListFileFolder(folder)
            },
            Message::FileSaved(Err(e)) => {
                self.error = Some(e);
                Command::Nothing
            },
            Message::Delete => {
                self.mode = Mode::ConfirmDel;
                Command::Nothing
            },
            Message::ConfirmDelete => Command::DeleteFile(copy_opt(&self.dir)),
            Message::FileDeleted(Ok(folder)) => {
                self.mode = Mode::OnDir;
                self.file_content = String::new();
                self.dir = Some(folder.duplicate());
                Command::ListFileFolder(folder)
            },
            Message::FileDeleted(Err(e)) => {
                self.error = Some(e);
                Command::Nothing
            },
            Message::CreateFolder => Command::CreateFolder(copy_opt(&self.dir)),
            Message::CreatedFolder(Ok(path)) => {
                let folder = path.parent();
                self.dir = Some(path);
                Command::ListFileFolder(folder)
            },
            Message::CreatedFolder(Err(e)) => {
                self.error = Some(e);
                Command::Nothing
            },
            Message::GoEditPage => {
                self.mode = Mode::Opened;
                Command::Nothing
            },
            Message::GoThemePage => {
                self.mode = Mode::ThemePage;
                Command::Nothing
            },
            Message::SelectedTheme(t) => {
                self.theme = t;
                self.mode = Mode::Opened;
                Command::Nothing
            },
            Message::Copy => {
                self.clipboard = copy_opt(&self.dir);
                Command::Nothing
            },
            Message::Paste(is_folder) => match (&self.clipboard, &self.dir) {
                (Some(from), Some(to)) => if is_folder {
                    Command::CopyFolder(from.duplicate(), to.duplicate())
                } else {
                    Command::CopyFile(from.duplicate(), to.duplicate())
                },
                _ => Command::Nothing,
            },
            Message::Pasted(Ok(path)) => Command::ListFileFolder(path.parent()),
            Message::Pasted(Err(e)) => {
                self.error = Some(e);
                Command::Nothing
            },
            Message::Refresh => match &self.dir {
                Some(d) => Command::ListFolder(d.duplicate()),
                None => Command::Nothing,
            },
            Message::OpenFile => Command::PickFile,
            Message::OpenFolder => Command::PickFolder,
        }
    }
}

/// A user action that the current mode does not offer changes nothing in the
/// session and schedules nothing: in particular no directory action runs
/// while a file is open, and no file action runs while a directory is shown.
pub proof fn lemma_mode_guards_actions(s: SessionView, m: Message)
    requires
        !allowed(s.mode, m),
    ensures
        step(s, m) == (s, CommandView::Nothing),
{
}

/// The outcome of a scheduled operation is handled in every mode.
pub proof fn lemma_outcomes_always_handled(mode: Mode, m: Message)
    requires
        is_outcome(m),
    ensures
        allowed(mode, m),
{
}

/// A failed operation (other than the discarded first listing) changes the
/// session in its error slot alone, and schedules nothing.
pub proof fn lemma_failure_only_records_error(s: SessionView, m: Message, e: Error)
    requires
        is_outcome(m),
        match m {
            Message::LoadFolder(r) => r == Err::<(FsPath, Vec<FileType>), Error>(e) && s.modecount != 0,
            Message::LoadFileFolder(r) => r == Err::<(FsPath, Vec<FileType>), Error>(e),
            Message::LoadFile(r) => r == Err::<(FsPath, String), Error>(e),
            Message::FileDeleted(r) => r == Err::<FsPath, Error>(e),
            Message::FileSaved(r) => r == Err::<FsPath, Error>(e),
            Message::CreatedFolder(r) => r == Err::<FsPath, Error>(e),
            Message::Pasted(r) => r == Err::<FsPath, Error>(e),
            _ => false,
        },
    ensures
        step(s, m) == (SessionView { error: Some(e), ..s }, CommandView::Nothing),
{
}

} // verus!
