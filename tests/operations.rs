use workspace_fs::error::FsError;
use workspace_fs::ops::{
    create_directory, create_file, delete_directory, delete_file, rename_file, rename_folder,
    save_file_contents, Action, EntryKind, Probe,
};

fn at(canonical: &str, kind: EntryKind) -> Probe {
    Probe { canonical: Ok(canonical.to_string()), kind }
}

fn missing() -> Probe {
    Probe { canonical: Err("No such file or directory (os error 2)".to_string()), kind: EntryKind::Absent }
}

fn root() -> Probe {
    at("/home/u/ws", EntryKind::Directory)
}

fn s(x: &str) -> String {
    x.to_string()
}

#[test]
fn create_file_in_workspace() {
    let r = create_file(&root(), s("/home/u/ws/notes"), &at("/home/u/ws/notes", EntryKind::Directory), s("a.md"), &missing());
    assert_eq!(r, Ok(Action::CreateFile { path: s("/home/u/ws/notes/a.md") }));
}

#[test]
fn create_file_twice_is_refused() {
    let folder = at("/home/u/ws/notes", EntryKind::Directory);
    let first = create_file(&root(), s("/home/u/ws/notes"), &folder, s("a.md"), &missing());
    assert_eq!(first, Ok(Action::CreateFile { path: s("/home/u/ws/notes/a.md") }));
    let now = at("/home/u/ws/notes/a.md", EntryKind::File);
    let second = create_file(&root(), s("/home/u/ws/notes"), &folder, s("a.md"), &now);
    assert_eq!(second, Err(FsError::AlreadyExists { path: s("/home/u/ws/notes/a.md"), dir: false, renaming: false }));
}

#[test]
fn create_file_needs_a_directory() {
    let r = create_file(&root(), s("/home/u/ws/gone"), &missing(), s("a.md"), &missing());
    assert_eq!(r, Err(FsError::ParentMissing(s("/home/u/ws/gone"))));
    let r = create_file(&root(), s("/home/u/ws/f.txt"), &at("/home/u/ws/f.txt", EntryKind::File), s("a.md"), &missing());
    assert_eq!(r, Err(FsError::ParentMissing(s("/home/u/ws/f.txt"))));
}

#[test]
fn create_file_outside_workspace_is_refused() {
    let r = create_file(&root(), s("/home/u/ws/link"), &at("/tmp", EntryKind::Directory), s("a.md"), &missing());
    assert_eq!(r, Err(FsError::NotContained { path: s("/tmp"), root: s("/home/u/ws") }));
}

#[test]
fn create_directory_with_nested_name() {
    let r = create_directory(&root(), s("/home/u/ws"), &root(), s("x/y"), &missing(), &root());
    assert_eq!(r, Ok(Action::CreateDirAll { path: s("/home/u/ws/x/y") }));
    let r = create_directory(&root(), s("/home/u/ws"), &root(), s("x"), &at("/home/u/ws/x", EntryKind::Directory), &root());
    assert_eq!(r, Err(FsError::AlreadyExists { path: s("/home/u/ws/x"), dir: true, renaming: false }));
}

#[test]
fn rename_file_in_place() {
    let r = rename_file(&root(), s("/home/u/ws/a.md"), &at("/home/u/ws/a.md", EntryKind::File), &root(), s("b.md"), &missing());
    assert_eq!(r, Ok(Action::Rename { from: s("/home/u/ws/a.md"), to: s("/home/u/ws/b.md"), dir: false }));
}

#[test]
fn rename_file_onto_taken_name_is_refused() {
    let r = rename_file(
        &root(),
        s("/home/u/ws/a.md"),
        &at("/home/u/ws/a.md", EntryKind::File),
        &root(),
        s("b.md"),
        &at("/home/u/ws/b.md", EntryKind::File),
    );
    assert_eq!(r, Err(FsError::AlreadyExists { path: s("/home/u/ws/b.md"), dir: false, renaming: true }));
}

#[test]
fn rename_file_checks_source() {
    let r = rename_file(&root(), s("/home/u/ws/a.md"), &missing(), &root(), s("b.md"), &missing());
    assert_eq!(r, Err(FsError::NotFound { path: s("/home/u/ws/a.md"), dir: false }));
    let r = rename_file(&root(), s("/home/u/ws/d"), &at("/home/u/ws/d", EntryKind::Directory), &root(), s("e"), &missing());
    assert_eq!(r, Err(FsError::WrongKind { path: s("/home/u/ws/d"), expected_dir: false }));
    let r = rename_file(&root(), s("/"), &at("/", EntryKind::Directory), &missing(), s("e"), &missing());
    assert_eq!(r, Err(FsError::NoParent(s("/"))));
}

#[test]
fn rename_outside_workspace_is_refused() {
    let r = rename_file(&root(), s("/etc/hosts"), &at("/etc/hosts", EntryKind::File), &at("/etc", EntryKind::Directory), s("x"), &missing());
    assert_eq!(r, Err(FsError::NotContained { path: s("/etc"), root: s("/home/u/ws") }));
}

#[test]
fn rename_folder_in_place() {
    let r = rename_folder(&root(), s("/home/u/ws/d"), &at("/home/u/ws/d", EntryKind::Directory), &root(), s("e"), &missing());
    assert_eq!(r, Ok(Action::Rename { from: s("/home/u/ws/d"), to: s("/home/u/ws/e"), dir: true }));
    let r = rename_folder(&root(), s("/home/u/ws/f.txt"), &at("/home/u/ws/f.txt", EntryKind::File), &root(), s("e"), &missing());
    assert_eq!(r, Err(FsError::WrongKind { path: s("/home/u/ws/f.txt"), expected_dir: true }));
}

#[test]
fn save_writes_whole_contents() {
    let file = at("/home/u/ws/a.md", EntryKind::File);
    let r = save_file_contents(&root(), s("/home/u/ws/a.md"), &file, s("hello"));
    assert_eq!(r, Ok(Action::Write { path: s("/home/u/ws/a.md"), content: s("hello") }));
    let r = save_file_contents(&root(), s("/home/u/ws/a.md"), &file, s(""));
    assert_eq!(r, Ok(Action::Write { path: s("/home/u/ws/a.md"), content: s("") }));
}

#[test]
fn save_needs_an_existing_path() {
    let r = save_file_contents(&root(), s("/home/u/ws/new.md"), &missing(), s("hello"));
    assert_eq!(r, Err(FsError::TargetUnresolved(s("No such file or directory (os error 2)"))));
}

#[test]
fn delete_file_refuses_directory() {
    let r = delete_file(&root(), s("/home/u/ws/d"), &at("/home/u/ws/d", EntryKind::Directory));
    assert_eq!(r, Err(FsError::WrongKind { path: s("/home/u/ws/d"), expected_dir: false }));
    let r = delete_file(&root(), s("/home/u/ws/a.md"), &at("/home/u/ws/a.md", EntryKind::File));
    assert_eq!(r, Ok(Action::RemoveFile { path: s("/home/u/ws/a.md") }));
}

#[test]
fn delete_directory_removes_whole_tree() {
    let r = delete_directory(&root(), s("/home/u/ws/d"), &at("/home/u/ws/d", EntryKind::Directory));
    assert_eq!(r, Ok(Action::RemoveDirAll { path: s("/home/u/ws/d") }));
    let r = delete_directory(&root(), s("/home/u/wsx"), &at("/home/u/wsx", EntryKind::Directory));
    assert_eq!(r, Err(FsError::NotContained { path: s("/home/u/wsx"), root: s("/home/u/ws") }));
}

#[test]
fn unresolved_root_is_reported() {
    let r = delete_directory(&missing(), s("/home/u/ws/d"), &at("/home/u/ws/d", EntryKind::Directory));
    assert_eq!(r, Err(FsError::RootUnresolved(s("No such file or directory (os error 2)"))));
}

#[test]
fn error_messages() {
    assert_eq!(FsError::RootUnresolved(s("gone")).message(), "Failed to canonicalize workspace root: gone");
    assert_eq!(FsError::TargetUnresolved(s("gone")).message(), "Failed to canonicalize target path: gone");
    assert_eq!(
        FsError::NotContained { path: s("/a/b-other"), root: s("/a/b") }.message(),
        "Path '/a/b-other' is not inside workspace '/a/b'"
    );
    assert_eq!(FsError::NoParent(s("/")).message(), "Cannot determine parent of /");
    assert_eq!(FsError::NotFound { path: s("/a"), dir: false }.message(), "Source file does not exist: /a");
    assert_eq!(
        FsError::NotFound { path: s("/a"), dir: true }.message(),
        "Source folder does not exist or is not a directory: /a"
    );
    assert_eq!(FsError::WrongKind { path: s("/a"), expected_dir: true }.message(), "Not a directory: /a");
    assert_eq!(FsError::WrongKind { path: s("/a"), expected_dir: false }.message(), "Not a file: /a");
    assert_eq!(FsError::ParentMissing(s("/a")).message(), "Parent folder does not exist: /a");
    assert_eq!(
        FsError::AlreadyExists { path: s("/a"), dir: false, renaming: false }.message(),
        "File already exists: /a"
    );
    assert_eq!(
        FsError::AlreadyExists { path: s("/a"), dir: true, renaming: false }.message(),
        "Directory already exists: /a"
    );
    assert_eq!(
        FsError::AlreadyExists { path: s("/a"), dir: false, renaming: true }.message(),
        "A file already exists at destination: /a"
    );
    assert_eq!(
        FsError::AlreadyExists { path: s("/a"), dir: true, renaming: true }.message(),
        "A folder already exists at destination: /a"
    );
    assert_eq!(FsError::BadName(s("../x")).message(), "Invalid name: ../x");
    assert_eq!(
        FsError::Io(Action::Rename { from: s("/a"), to: s("/b"), dir: false }, s("busy")).message(),
        "Failed to rename file: busy"
    );
    assert_eq!(
        FsError::Io(Action::RemoveDirAll { path: s("/a") }, s("busy")).message(),
        "Failed to delete directory: busy"
    );
    assert_eq!(FsError::Io(Action::Write { path: s("/a"), content: s("x") }, s("disk full")).message(), "disk full");
}

#[test]
fn create_file_refuses_names_that_leave_the_folder() {
    for name in ["../x", "..", ".", "", "a/b", "/etc/x", "x/"] {
        let r = create_file(&root(), s("/home/u/ws"), &root(), s(name), &missing());
        assert_eq!(r, Err(FsError::BadName(s(name))), "name {:?}", name);
    }
    let r = create_file(&root(), s("/home/u/ws"), &root(), s("..x"), &missing());
    assert_eq!(r, Ok(Action::CreateFile { path: s("/home/u/ws/..x") }));
    let r = create_file(&root(), s("/home/u/ws"), &root(), s(".hidden"), &missing());
    assert_eq!(r, Ok(Action::CreateFile { path: s("/home/u/ws/.hidden") }));
}

#[test]
fn create_directory_refuses_names_that_leave_the_folder() {
    for name in ["../x", "x/../../y", "x/..", "/x", "", ".."] {
        let r = create_directory(&root(), s("/home/u/ws"), &root(), s(name), &missing(), &root());
        assert_eq!(r, Err(FsError::BadName(s(name))), "name {:?}", name);
    }
    let r = create_directory(&root(), s("/home/u/ws"), &root(), s("x/y.d/...z"), &missing(), &root());
    assert_eq!(r, Ok(Action::CreateDirAll { path: s("/home/u/ws/x/y.d/...z") }));
}

#[test]
fn create_directory_takes_names_with_empty_and_dot_segments() {
    for (name, full) in [("x/./y", "/home/u/ws/x/./y"), ("x//y", "/home/u/ws/x//y"), ("x/", "/home/u/ws/x/"), ("./x", "/home/u/ws/./x")] {
        let r = create_directory(&root(), s("/home/u/ws"), &root(), s(name), &missing(), &root());
        assert_eq!(r, Ok(Action::CreateDirAll { path: s(full) }), "name {:?}", name);
    }
}

#[test]
fn create_directory_reports_existing_path_before_name() {
    let here = at("/home/u/ws", EntryKind::Directory);
    for name in [".", "x/", ""] {
        let full = if name == "" { s("/home/u/ws/") } else { format!("/home/u/ws/{}", name) };
        let r = create_directory(&root(), s("/home/u/ws"), &root(), s(name), &here, &root());
        assert_eq!(r, Err(FsError::AlreadyExists { path: full, dir: true, renaming: false }), "name {:?}", name);
    }
}

#[test]
fn create_directory_refuses_link_out_of_workspace() {
    let nearest = at("/tmp/elsewhere", EntryKind::Directory);
    let r = create_directory(&root(), s("/home/u/ws"), &root(), s("x/y"), &missing(), &nearest);
    assert_eq!(r, Err(FsError::NotContained { path: s("/tmp/elsewhere"), root: s("/home/u/ws") }));
    let r = create_directory(&root(), s("/home/u/ws"), &root(), s("x/y"), &missing(), &missing());
    assert_eq!(r, Err(FsError::TargetUnresolved(s("No such file or directory (os error 2)"))));
    let inside = at("/home/u/ws/x", EntryKind::Directory);
    let r = create_directory(&root(), s("/home/u/ws"), &root(), s("x/y"), &missing(), &inside);
    assert_eq!(r, Ok(Action::CreateDirAll { path: s("/home/u/ws/x/y") }));
}

#[test]
fn rename_reports_existing_path_before_name() {
    let here = at("/home/u/ws", EntryKind::Directory);
    let r = rename_file(&root(), s("/home/u/ws/a.md"), &at("/home/u/ws/a.md", EntryKind::File), &root(), s("."), &here);
    assert_eq!(r, Err(FsError::AlreadyExists { path: s("/home/u/ws/."), dir: false, renaming: true }));
    let r = rename_folder(&root(), s("/home/u/ws/d"), &at("/home/u/ws/d", EntryKind::Directory), &root(), s("."), &here);
    assert_eq!(r, Err(FsError::AlreadyExists { path: s("/home/u/ws/."), dir: true, renaming: true }));
}

#[test]
fn rename_refuses_names_that_leave_the_directory() {
    for name in ["../x", "..", ".", "", "d/x", "/tmp/x"] {
        let r = rename_file(&root(), s("/home/u/ws/a.md"), &at("/home/u/ws/a.md", EntryKind::File), &root(), s(name), &missing());
        assert_eq!(r, Err(FsError::BadName(s(name))), "name {:?}", name);
        let r = rename_folder(&root(), s("/home/u/ws/d"), &at("/home/u/ws/d", EntryKind::Directory), &root(), s(name), &missing());
        assert_eq!(r, Err(FsError::BadName(s(name))), "name {:?}", name);
    }
}
