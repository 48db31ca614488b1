use file_system::entry::{Error, FileType, IoKind};
use file_system::fspath::FsPath;
use file_system::session::{accepts, Command, FileSystem, Message, Mode, DARK_THEME};

fn path(parts: &[&str]) -> FsPath {
    FsPath::new(parts.iter().map(|p| p.to_string()).collect())
}

fn started() -> FileSystem {
    let (mut fs, _) = FileSystem::new();
    // The first listing after launch is discarded.
    fs.update(Message::LoadFolder(Err(Error::IOErr(IoKind::Other))));
    fs
}

fn browsing(dir: &[&str]) -> FileSystem {
    let mut fs = started();
    fs.update(Message::LoadFolder(Ok((path(dir), vec![FileType::File("f.txt".to_string())]))));
    fs
}

fn editing(file: &[&str], text: &str) -> FileSystem {
    let mut fs = started();
    fs.update(Message::LoadFile(Ok((path(file), text.to_string()))));
    fs
}

const USER_ACTIONS: usize = 17;

fn user_action(i: usize) -> (&'static str, Message) {
    match i {
        0 => ("OpenFile", Message::OpenFile),
        1 => ("OpenFolder", Message::OpenFolder),
        2 => ("Edit", Message::Edit("x".to_string())),
        3 => ("Save", Message::Save),
        4 => ("New", Message::New(true)),
        5 => ("Delete", Message::Delete),
        6 => ("GoThemePage", Message::GoThemePage),
        7 => ("GoDirPage", Message::GoDirPage),
        8 => ("CreateFolder", Message::CreateFolder),
        9 => ("BackFolder", Message::BackFolder),
        10 => ("Copy", Message::Copy),
        11 => ("Paste", Message::Paste(false)),
        12 => ("Refresh", Message::Refresh),
        13 => ("ConfirmDelete", Message::ConfirmDelete),
        14 => ("GoEditPage", Message::GoEditPage),
        15 => ("SelectedTheme", Message::SelectedTheme(3)),
        _ => ("New", Message::New(false)),
    }
}

fn documented(mode: Mode, name: &str) -> bool {
    let legal: &[&str] = match mode {
        Mode::Start => &["OpenFile", "OpenFolder"],
        Mode::Opened => &["Edit", "Save", "New", "Delete", "GoThemePage", "GoDirPage"],
        Mode::OnDir => &[
            "New", "CreateFolder", "OpenFile", "OpenFolder", "BackFolder", "Copy", "Paste", "Refresh",
        ],
        Mode::ConfirmDel => &["ConfirmDelete", "GoEditPage"],
        Mode::ThemePage => &["SelectedTheme"],
    };
    legal.contains(&name)
}

fn snapshot(fs: &FileSystem) -> String {
    format!("{:?}", fs)
}

#[test]
fn starts_in_start_mode_and_lists_working_directory() {
    let (fs, cmd) = FileSystem::new();
    assert_eq!(fs.mode, Mode::Start);
    assert_eq!(fs.dir, None);
    assert_eq!(fs.theme(), DARK_THEME);
    assert_eq!(fs.title(), "File System");
    assert!(matches!(cmd, Command::ListFolder(p) if p == path(&["."])));
}

#[test]
fn first_listing_is_discarded_second_applies() {
    let (mut fs, _) = FileSystem::new();
    let first = fs.update(Message::LoadFolder(Ok((path(&["/", "x"]), vec![]))));
    assert!(matches!(first, Command::Nothing));
    assert_eq!(fs.mode, Mode::Start);
    assert_eq!(fs.dir, None);
    assert_eq!(fs.modecount, 1);
    fs.update(Message::LoadFolder(Ok((
        path(&["/", "y"]),
        vec![FileType::Dir("d".to_string()), FileType::File("f".to_string())],
    ))));
    assert_eq!(fs.mode, Mode::OnDir);
    assert_eq!(fs.dir, Some(path(&["/", "y"])));
    assert_eq!(fs.content, "📁d\n📝f\n");
    assert_eq!(fs.file_content, "");
}

#[test]
fn only_documented_actions_are_accepted_in_each_mode() {
    let modes = [Mode::Start, Mode::Opened, Mode::OnDir, Mode::ConfirmDel, Mode::ThemePage];
    for mode in modes {
        for i in 0..USER_ACTIONS {
            let (name, msg) = user_action(i);
            assert_eq!(accepts(mode, &msg), documented(mode, name), "{:?} {}", mode, name);
            let mut fs = editing(&["/", "d", "f.txt"], "body");
            fs.clipboard = Some(path(&["/", "c"]));
            fs.mode = mode;
            let before = snapshot(&fs);
            let cmd = fs.update(msg);
            if !documented(mode, name) {
                assert!(matches!(cmd, Command::Nothing), "{:?} {}", mode, name);
                assert_eq!(snapshot(&fs), before, "{:?} {}", mode, name);
            }
        }
    }
}

#[test]
fn outcomes_are_accepted_in_every_mode() {
    let modes = [Mode::Start, Mode::Opened, Mode::OnDir, Mode::ConfirmDel, Mode::ThemePage];
    for mode in modes {
        assert!(accepts(mode, &Message::FileSaved(Ok(path(&["a"])))));
        assert!(accepts(mode, &Message::LoadFile(Err(Error::DClosed))));
        assert!(accepts(mode, &Message::Pasted(Err(Error::DClosed))));
    }
}

#[test]
fn dismissed_open_file_dialog_changes_nothing_but_error() {
    let mut fs = started();
    let cmd = fs.update(Message::OpenFile);
    assert!(matches!(cmd, Command::PickFile));
    let cmd = fs.update(Message::LoadFile(Err(Error::DClosed)));
    assert!(matches!(cmd, Command::Nothing));
    assert_eq!(fs.mode, Mode::Start);
    assert_eq!(fs.dir, None);
    assert_eq!(fs.file_content, "");
    assert_eq!(fs.error, Some(Error::DClosed));
}

#[test]
fn open_folder_asks_for_a_folder() {
    let mut fs = started();
    assert!(matches!(fs.update(Message::OpenFolder), Command::PickFolder));
}

#[test]
fn loaded_file_opens_editor_and_lists_its_folder() {
    let mut fs = started();
    let cmd = fs.update(Message::LoadFile(Ok((path(&["/", "d", "f.txt"]), "hi".to_string()))));
    assert_eq!(fs.mode, Mode::Opened);
    assert_eq!(fs.dir, Some(path(&["/", "d", "f.txt"])));
    assert_eq!(fs.file_content, "hi");
    assert!(matches!(cmd, Command::ListFileFolder(p) if p == path(&["/", "d"])));
    fs.update(Message::LoadFileFolder(Ok((path(&["/", "d"]), vec![FileType::File("f.txt".to_string())]))));
    assert_eq!(fs.content, "📝f.txt\n");
}

#[test]
fn edit_then_save_writes_buffer_to_open_file() {
    let mut fs = editing(&["/", "d", "f.txt"], "old");
    fs.update(Message::Edit("new text".to_string()));
    assert_eq!(fs.file_content, "new text");
    let cmd = fs.update(Message::Save);
    assert!(matches!(cmd, Command::SaveFile(Some(p), t) if p == path(&["/", "d", "f.txt"]) && t == "new text"));
    let cmd = fs.update(Message::FileSaved(Ok(path(&["/", "d", "g.txt"]))));
    assert_eq!(fs.dir, Some(path(&["/", "d", "g.txt"])));
    assert!(matches!(cmd, Command::ListFileFolder(p) if p == path(&["/", "d"])));
}

#[test]
fn failed_save_records_error_only() {
    let mut fs = editing(&["/", "d", "f.txt"], "x");
    let cmd = fs.update(Message::FileSaved(Err(Error::IOErr(IoKind::PermissionDenied))));
    assert!(matches!(cmd, Command::Nothing));
    assert_eq!(fs.error, Some(Error::IOErr(IoKind::PermissionDenied)));
    assert_eq!(fs.dir, Some(path(&["/", "d", "f.txt"])));
    assert_eq!(fs.mode, Mode::Opened);
}

#[test]
fn new_file_from_open_file_saves_empty_text_in_its_folder() {
    let mut fs = editing(&["/", "d", "f.txt"], "x");
    let cmd = fs.update(Message::New(false));
    assert_eq!(fs.mode, Mode::Opened);
    assert_eq!(fs.file_content, "");
    assert_eq!(fs.dir, Some(path(&["/", "d"])));
    assert!(matches!(cmd, Command::SaveFile(Some(p), t) if p == path(&["/", "d"]) && t.is_empty()));
}

#[test]
fn new_file_from_folder_saves_into_folder() {
    let mut fs = browsing(&["/", "d"]);
    let cmd = fs.update(Message::New(true));
    assert_eq!(fs.mode, Mode::Opened);
    assert!(matches!(cmd, Command::SaveFile(Some(p), _) if p == path(&["/", "d"])));
}

#[test]
fn delete_asks_then_deletes_and_goes_to_parent() {
    let mut fs = editing(&["/", "d", "f.txt"], "x");
    assert!(matches!(fs.update(Message::Delete), Command::Nothing));
    assert_eq!(fs.mode, Mode::ConfirmDel);
    let cmd = fs.update(Message::ConfirmDelete);
    assert!(matches!(cmd, Command::DeleteFile(Some(p)) if p == path(&["/", "d", "f.txt"])));
    let cmd = fs.update(Message::FileDeleted(Ok(path(&["/", "d"]))));
    assert_eq!(fs.mode, Mode::OnDir);
    assert_eq!(fs.dir, Some(path(&["/", "d"])));
    assert_eq!(fs.file_content, "");
    assert!(matches!(cmd, Command::ListFileFolder(p) if p == path(&["/", "d"])));
}

#[test]
fn cancel_delete_returns_to_editor() {
    let mut fs = editing(&["/", "d", "f.txt"], "x");
    fs.update(Message::Delete);
    fs.update(Message::GoEditPage);
    assert_eq!(fs.mode, Mode::Opened);
    assert_eq!(fs.file_content, "x");
}

#[test]
fn failed_delete_reports_not_found() {
    let mut fs = editing(&["/", "d", "f.txt"], "x");
    fs.update(Message::Delete);
    fs.update(Message::FileDeleted(Err(Error::IOErr(IoKind::NotFound))));
    assert_eq!(fs.error, Some(Error::IOErr(IoKind::NotFound)));
    assert_eq!(fs.mode, Mode::ConfirmDel);
}

#[test]
fn theme_selection_returns_to_editor() {
    let mut fs = editing(&["/", "d", "f.txt"], "x");
    fs.update(Message::GoThemePage);
    assert_eq!(fs.mode, Mode::ThemePage);
    fs.update(Message::SelectedTheme(5));
    assert_eq!(fs.theme(), 5);
    assert_eq!(fs.mode, Mode::Opened);
}

#[test]
fn back_from_editor_shows_folder_of_file() {
    let mut fs = editing(&["/", "d", "f.txt"], "x");
    assert!(matches!(fs.update(Message::GoDirPage), Command::Nothing));
    assert_eq!(fs.mode, Mode::OnDir);
    assert_eq!(fs.dir, Some(path(&["/", "d"])));
}

#[test]
fn back_folder_lists_parent() {
    let mut fs = browsing(&["/", "d", "e"]);
    let cmd = fs.update(Message::BackFolder);
    assert_eq!(fs.dir, Some(path(&["/", "d"])));
    assert!(matches!(cmd, Command::ListFolder(p) if p == path(&["/", "d"])));
}

#[test]
fn refresh_lists_current_folder() {
    let mut fs = browsing(&["/", "d"]);
    assert!(matches!(fs.update(Message::Refresh), Command::ListFolder(p) if p == path(&["/", "d"])));
}

#[test]
fn create_folder_then_list_around_it() {
    let mut fs = browsing(&["/", "d"]);
    let cmd = fs.update(Message::CreateFolder);
    assert!(matches!(cmd, Command::CreateFolder(Some(p)) if p == path(&["/", "d"])));
    let cmd = fs.update(Message::CreatedFolder(Ok(path(&["/", "d", "n"]))));
    assert_eq!(fs.dir, Some(path(&["/", "d", "n"])));
    assert!(matches!(cmd, Command::ListFileFolder(p) if p == path(&["/", "d"])));
}

#[test]
fn create_existing_folder_reports_already_exists() {
    let mut fs = browsing(&["/", "d"]);
    fs.update(Message::CreatedFolder(Err(Error::IOErr(IoKind::AlreadyExists))));
    assert_eq!(fs.error, Some(Error::IOErr(IoKind::AlreadyExists)));
    assert_eq!(fs.dir, Some(path(&["/", "d"])));
}

#[test]
fn copy_then_paste_folder_into_other_folder() {
    let mut fs = browsing(&["/", "src"]);
    fs.update(Message::Copy);
    assert_eq!(fs.clipboard, Some(path(&["/", "src"])));
    fs.update(Message::LoadFolder(Ok((path(&["/", "dst"]), vec![]))));
    assert_eq!(fs.clipboard, Some(path(&["/", "src"])));
    let cmd = fs.update(Message::Paste(true));
    assert!(matches!(cmd, Command::CopyFolder(a, b) if a == path(&["/", "src"]) && b == path(&["/", "dst"])));
    let cmd = fs.update(Message::Pasted(Ok(path(&["/", "dst", "src"]))));
    assert!(matches!(cmd, Command::ListFileFolder(p) if p == path(&["/", "dst"])));
}

#[test]
fn paste_file_copies_single_file() {
    let mut fs = browsing(&["/", "dst"]);
    fs.clipboard = Some(path(&["/", "a.txt"]));
    let cmd = fs.update(Message::Paste(false));
    assert!(matches!(cmd, Command::CopyFile(a, b) if a == path(&["/", "a.txt"]) && b == path(&["/", "dst"])));
}

#[test]
fn paste_with_empty_clipboard_does_nothing() {
    let mut fs = browsing(&["/", "dst"]);
    assert!(matches!(fs.update(Message::Paste(false)), Command::Nothing));
}

#[test]
fn failed_paste_reports_error() {
    let mut fs = browsing(&["/", "dst"]);
    fs.update(Message::Pasted(Err(Error::IOErr(IoKind::Other))));
    assert_eq!(fs.error, Some(Error::IOErr(IoKind::Other)));
}

#[test]
fn failed_listing_after_start_keeps_state() {
    let mut fs = browsing(&["/", "d"]);
    let content = fs.content.clone();
    fs.update(Message::LoadFolder(Err(Error::IOErr(IoKind::NotFound))));
    assert_eq!(fs.error, Some(Error::IOErr(IoKind::NotFound)));
    assert_eq!(fs.dir, Some(path(&["/", "d"])));
    assert_eq!(fs.content, content);
    assert_eq!(fs.mode, Mode::OnDir);
}
