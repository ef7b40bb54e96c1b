//! The workspace operations. Each one decides, from what was found on disk
//! just before, either the single action to carry out or the error to
//! report; no action is ever decided before the containment check passed.
use vstd::prelude::*;
use crate::error::FsError;
use crate::guard::{containment, ensure_within_workspace};
use crate::tree::{children_of, readable, removed_entry_not_listed, FileNode};
use crate::paths::{
    is_plain_name, is_relative_below, join, join_path, lemma_parent_join_parent, parent, parent_path,
    plain_name, relative_below,
};

verus! {

/// What stands at a path.
#[derive(Debug, Clone, Copy, PartialEq, Eq, Structural)]
pub enum EntryKind {
    Absent,
    File,
    Directory,
    Other,
}

/// What was found at one path: its resolved form (or why it could not be
/// resolved) and the kind of entry there.
#[derive(Debug)]
pub struct Probe {
    pub canonical: Result<String, String>,
    pub kind: EntryKind,
}

/// The one change to the filesystem that an operation asks for.
#[derive(Debug, Clone, PartialEq, Eq)]
pub enum Action {
    /// Truncate the file and write `content` as its whole contents.
    Write { path: String, content: String },
    /// Create an empty file.
    CreateFile { path: String },
    /// Create a directory with any missing directories above it.
    CreateDirAll { path: String },
    /// Give an entry a new path in the same directory.
    Rename { from: String, to: String, dir: bool },
    /// Remove one file.
    RemoveFile { path: String },
    /// Remove a directory and everything beneath it.
    RemoveDirAll { path: String },
}

/// What `action` writes as the whole contents of the file at `path`, where
/// it is a write of that file; `None` for every other action, of which
/// this says nothing.
pub open spec fn written_contents(action: Action, path: Seq<char>) -> Option<Seq<char>> {
    match action {
        Action::Write { path: p, content } => if p@ == path {
            Some(content@)
        } else {
            None
        },
        _ => None,
    }
}

/// What saving asks for: the containment check on the file, then a write
/// of the whole new contents.
pub open spec fn save_outcome(
    r: Result<Action, FsError>,
    root: Probe,
    file_path: String,
    file: Probe,
    content: String,
) -> bool {
    match containment(root.canonical, file.canonical) {
        Err(e) => r == Err::<Action, FsError>(e),
        Ok(_) => r == Ok::<Action, FsError>(Action::Write { path: file_path, content }),
    }
}

/// What creating an entry asks for: the folder must be a directory inside
/// the workspace, and nothing may stand yet at the joined path. A file's
/// name is one plain name; a directory's may hold separators but no `..`
/// segment, and the deepest part of the joined path that exists (`nearest`,
/// in its resolved form) must lie inside the workspace too, so that no
/// directory is created through a link that leads out of it.
pub open spec fn create_outcome(
    r: Result<Action, FsError>,
    root: Probe,
    folder_path: String,
    folder: Probe,
    name: String,
    dest: Probe,
    nearest: Probe,
    dir: bool,
) -> bool {
    let full = join(folder_path@, name@);
    if folder.kind != EntryKind::Directory {
        r == Err::<Action, FsError>(FsError::ParentMissing(folder_path))
    } else {
        match containment(root.canonical, folder.canonical) {
            Err(e) => r == Err::<Action, FsError>(e),
            Ok(_) => if dest.kind != EntryKind::Absent {
                r matches Err(FsError::AlreadyExists { path: p, dir: d, renaming: false }) && p@
                    == full && d == dir
            } else if !(if dir {
                relative_below(name@)
            } else {
                plain_name(name@)
            }) {
                r == Err::<Action, FsError>(FsError::BadName(name))
            } else {
                match containment(root.canonical, nearest.canonical) {
                    Err(e) => r == Err::<Action, FsError>(e),
                    Ok(_) => if dir {
                        r matches Ok(Action::CreateDirAll { path }) && path@ == full
                    } else {
                        r matches Ok(Action::CreateFile { path }) && path@ == full
                    },
                }
            },
        }
    }
}

/// What renaming asks for: the entry's directory must lie inside the
/// workspace, the entry must exist with the right kind, and its new name
/// must still be free in that directory.
pub open spec fn rename_outcome(
    r: Result<Action, FsError>,
    root: Probe,
    old_path: String,
    old: Probe,
    parent_dir: Probe,
    new_name: String,
    dest: Probe,
    dir: bool,
) -> bool {
    let wanted = if dir {
        EntryKind::Directory
    } else {
        EntryKind::File
    };
    match parent(old_path@) {
        None => r == Err::<Action, FsError>(FsError::NoParent(old_path)),
        Some(d) => match containment(root.canonical, parent_dir.canonical) {
            Err(e) => r == Err::<Action, FsError>(e),
            Ok(_) => if old.kind == EntryKind::Absent {
                r == Err::<Action, FsError>(FsError::NotFound { path: old_path, dir })
            } else if old.kind != wanted {
                r == Err::<Action, FsError>(
                    FsError::WrongKind { path: old_path, expected_dir: dir },
                )
            } else if dest.kind != EntryKind::Absent {
                r matches Err(FsError::AlreadyExists { path: p, dir: is_dir, renaming: true }) && p@
                    == join(d, new_name@) && is_dir == dir
            } else if !plain_name(new_name@) {
                r == Err::<Action, FsError>(FsError::BadName(new_name))
            } else {
                r matches Ok(Action::Rename { from, to, dir: is_dir }) && from == old_path && to@
                    == join(d, new_name@) && is_dir == dir
            },
        },
    }
}

/// What deleting asks for: the containment check on the entry, then its
/// removal; a file deletion refuses a directory.
pub open spec fn delete_outcome(
    r: Result<Action, FsError>,
    root: Probe,
    path: String,
    entry: Probe,
    dir: bool,
) -> bool {
    match containment(root.canonical, entry.canonical) {
        Err(e) => r == Err::<Action, FsError>(e),
        Ok(_) => if dir {
            r == Ok::<Action, FsError>(Action::RemoveDirAll { path })
        } else if entry.kind == EntryKind::Directory {
            r == Err::<Action, FsError>(FsError::WrongKind { path, expected_dir: false })
        } else {
            r == Ok::<Action, FsError>(Action::RemoveFile { path })
        },
    }
}

/// Overwrites an existing file of the workspace with `new_content`.
/// `file` is what was found at `file_path`.
pub fn save_file_contents(
    workspace_root: &Probe,
    file_path: String,
    file: &Probe,
    new_content: String,
) -> (r: Result<Action, FsError>)
    ensures
        save_outcome(r, *workspace_root, file_path, *file, new_content),
        r is Ok ==> containment(workspace_root.canonical, file.canonical) is Ok,
{
    match ensure_within_workspace(&workspace_root.canonical, &file.canonical) {
        Err(e) => Err(e),
        Ok(()) => Ok(Action::Write { path: file_path, content: new_content }),
    }
}

fn plan_create(
    workspace_root: &Probe,
    folder_path: String,
    folder: &Probe,
    name: String,
    dest: &Probe,
    nearest: &Probe,
    dir: bool,
) -> (r: Result<Action, FsError>)
    ensures
        create_outcome(r, *workspace_root, folder_path, *folder, name, *dest, *nearest, dir),
{
    if folder.kind != EntryKind::Directory {
        return Err(FsError::ParentMissing(folder_path));
    }
    if let Err(e) = ensure_within_workspace(&workspace_root.canonical, &folder.canonical) {
        return Err(e);
    }
    let full = join_path(folder_path.as_str(), name.as_str());
    if dest.kind != EntryKind::Absent {
        return Err(FsError::AlreadyExists { path: full, dir, renaming: false });
    }
    let allowed = if dir {
        is_relative_below(name.as_str())
    } else {
        is_plain_name(name.as_str())
    };
    if !allowed {
        return Err(FsError::BadName(name));
    }
    match ensure_within_workspace(&workspace_root.canonical, &nearest.canonical) {
        Err(e) => Err(e),
        Ok(()) => if dir {
            Ok(Action::CreateDirAll { path: full })
        } else {
            Ok(Action::CreateFile { path: full })
        },
    }
}

/// Creates an empty file named `file_name` in the workspace directory
/// `folder_path`. `folder` is what was found at `folder_path`, `dest` what
/// was found at the joined path. A plain name leads straight into the
/// folder, which is then the deepest part of the path that exists.
pub fn create_file(
    workspace_root: &Probe,
    folder_path: String,
    folder: &Probe,
    file_name: String,
    dest: &Probe,
) -> (r: Result<Action, FsError>)
    ensures
        create_outcome(r, *workspace_root, folder_path, *folder, file_name, *dest, *folder, false),
        r is Ok ==> containment(workspace_root.canonical, folder.canonical) is Ok,
{
    plan_create(workspace_root, folder_path, folder, file_name, dest, folder, false)
}

/// Creates the directory `new_folder_name` (which may hold separators) in
/// the workspace directory `folder_path`, with any directories between.
/// `nearest` is what was found at the deepest part of the joined path that
/// exists, in its resolved form: every directory created lies beneath it.
pub fn create_directory(
    workspace_root: &Probe,
    folder_path: String,
    folder: &Probe,
    new_folder_name: String,
    dest: &Probe,
    nearest: &Probe,
) -> (r: Result<Action, FsError>)
    ensures
        create_outcome(
            r,
            *workspace_root,
            folder_path,
            *folder,
            new_folder_name,
            *dest,
            *nearest,
            true,
        ),
        r is Ok ==> containment(workspace_root.canonical, folder.canonical) is Ok,
        r is Ok ==> containment(workspace_root.canonical, nearest.canonical) is Ok,
{
    plan_create(workspace_root, folder_path, folder, new_folder_name, dest, nearest, true)
}

fn plan_rename(
    workspace_root: &Probe,
    old_path: String,
    old: &Probe,
    parent_dir: &Probe,
    new_name: String,
    dest: &Probe,
    dir: bool,
) -> (r: Result<Action, FsError>)
    ensures
        rename_outcome(r, *workspace_root, old_path, *old, *parent_dir, new_name, *dest, dir),
{
    let d = match parent_path(old_path.as_str()) {
        None => {
            return Err(FsError::NoParent(old_path));
        },
        Some(d) => d,
    };
    match ensure_within_workspace(&workspace_root.canonical, &parent_dir.canonical) {
        Err(e) => Err(e),
        Ok(()) => {
            let wanted = if dir {
                EntryKind::Directory
            } else {
                EntryKind::File
            };
            if old.kind == EntryKind::Absent {
                return Err(FsError::NotFound { path: old_path, dir });
            }
            if old.kind != wanted {
                return Err(FsError::WrongKind { path: old_path, expected_dir: dir });
            }
            let to = join_path(d.as_str(), new_name.as_str());
            if dest.kind != EntryKind::Absent {
                Err(FsError::AlreadyExists { path: to, dir, renaming: true })
            } else if !is_plain_name(new_name.as_str()) {
                Err(FsError::BadName(new_name))
            } else {
                Ok(Action::Rename { from: old_path, to, dir })
            }
        },
    }
}

/// Renames the file `old_path` to `new_name` within its own directory.
/// `parent_dir` is what was found at that directory (any probe where the
/// path has none), `dest` what was found at the new path.
pub fn rename_file(
    workspace_root: &Probe,
    old_path: String,
    old: &Probe,
    parent_dir: &Probe,
    new_name: String,
    dest: &Probe,
) -> (r: Result<Action, FsError>)
    ensures
        rename_outcome(r, *workspace_root, old_path, *old, *parent_dir, new_name, *dest, false),
        r is Ok ==> containment(workspace_root.canonical, parent_dir.canonical) is Ok,
{
    plan_rename(workspace_root, old_path, old, parent_dir, new_name, dest, false)
}

/// Renames the directory `old_path` to `new_name` within its own directory.
pub fn rename_folder(
    workspace_root: &Probe,
    old_path: String,
    old: &Probe,
    parent_dir: &Probe,
    new_name: String,
    dest: &Probe,
) -> (r: Result<Action, FsError>)
    ensures
        rename_outcome(r, *workspace_root, old_path, *old, *parent_dir, new_name, *dest, true),
        r is Ok ==> containment(workspace_root.canonical, parent_dir.canonical) is Ok,
{
    plan_rename(workspace_root, old_path, old, parent_dir, new_name, dest, true)
}

/// Removes the file `file_path` of the workspace; a directory is refused.
pub fn delete_file(workspace_root: &Probe, file_path: String, file: &Probe) -> (r: Result<
    Action,
    FsError,
>)
    ensures
        delete_outcome(r, *workspace_root, file_path, *file, false),
        r is Ok ==> containment(workspace_root.canonical, file.canonical) is Ok,
{
    match ensure_within_workspace(&workspace_root.canonical, &file.canonical) {
        Err(e) => Err(e),
        Ok(()) => if file.kind == EntryKind::Directory {
            Err(FsError::WrongKind { path: file_path, expected_dir: false })
        } else {
            Ok(Action::RemoveFile { path: file_path })
        },
    }
}

/// Removes the directory `folder_path` of the workspace with all it holds.
pub fn delete_directory(workspace_root: &Probe, folder_path: String, folder: &Probe) -> (r: Result<
    Action,
    FsError,
>)
    ensures
        delete_outcome(r, *workspace_root, folder_path, *folder, true),
        r is Ok ==> containment(workspace_root.canonical, folder.canonical) is Ok,
{
    match ensure_within_workspace(&workspace_root.canonical, &folder.canonical) {
        Err(e) => Err(e),
        Ok(()) => Ok(Action::RemoveDirAll { path: folder_path }),
    }
}

/// Creating the same file twice: once the file of the first call stands at
/// the joined path, the second call with the same arguments is refused as
/// already existing and asks for no action, so that file stays as it was.
pub proof fn create_file_twice_refused(
    root: Probe,
    folder_path: String,
    folder: Probe,
    file_name: String,
    before: Probe,
    after: Probe,
    first: Result<Action, FsError>,
    second: Result<Action, FsError>,
)
    requires
        create_outcome(first, root, folder_path, folder, file_name, before, folder, false),
        create_outcome(second, root, folder_path, folder, file_name, after, folder, false),
        first is Ok,
        after.kind == EntryKind::File,
    ensures
        first matches Ok(Action::CreateFile { path }) && path@ == join(folder_path@, file_name@),
        second matches Err(FsError::AlreadyExists { path: p, .. }) && p@ == join(
            folder_path@,
            file_name@,
        ),
{
}

/// Renaming onto a name that is already taken in the same directory is
/// refused as already existing and asks for no action: the entry and the
/// one in the way both stay as they were.
pub proof fn rename_onto_taken_name_refused(
    r: Result<Action, FsError>,
    root: Probe,
    old_path: String,
    old: Probe,
    parent_dir: Probe,
    new_name: String,
    dest: Probe,
    dir: bool,
)
    requires
        rename_outcome(r, root, old_path, old, parent_dir, new_name, dest, dir),
        parent(old_path@) is Some,
        containment(root.canonical, parent_dir.canonical) is Ok,
        old.kind == (if dir {
            EntryKind::Directory
        } else {
            EntryKind::File
        }),
        dest.kind != EntryKind::Absent,
    ensures
        r matches Err(FsError::AlreadyExists { path: p, .. }) && p@ == join(
            parent(old_path@)->Some_0,
            new_name@,
        ),
{
}

/// Saving a text and reading the file back gives exactly that text, and a
/// later save of the empty text leaves the file empty: each save replaces
/// the whole contents, it never appends.
pub proof fn save_replaces_contents(
    root: Probe,
    file_path: String,
    file: Probe,
    text: String,
    empty: String,
    first: Result<Action, FsError>,
    second: Result<Action, FsError>,
)
    requires
        save_outcome(first, root, file_path, file, text),
        save_outcome(second, root, file_path, file, empty),
        empty@.len() == 0,
        first is Ok,
    ensures
        second is Ok,
        written_contents(first->Ok_0, file_path@) == Some(text@),
        written_contents(second->Ok_0, file_path@) == Some(empty@),
{
}

/// A rename never moves an entry out of its own directory: the path it
/// asks to rename to has the same parent as the path it renames.
pub proof fn rename_stays_in_directory(
    r: Result<Action, FsError>,
    root: Probe,
    old_path: String,
    old: Probe,
    parent_dir: Probe,
    new_name: String,
    dest: Probe,
    dir: bool,
)
    requires
        rename_outcome(r, root, old_path, old, parent_dir, new_name, dest, dir),
        r is Ok,
    ensures
        r matches Ok(Action::Rename { to, .. }) && parent(to@) == parent(old_path@),
{
    lemma_parent_join_parent(old_path@, new_name@);
}

/// Deleting a directory asks to remove it with all it holds, and a later
/// snapshot of the directory above it, taken from a listing that no longer
/// holds a readable entry at that path, does not list it.
pub proof fn deleted_directory_not_listed(
    r: Result<Action, FsError>,
    root: Probe,
    folder_path: String,
    folder: Probe,
    listing: Seq<Result<FileNode, String>>,
    snapshot: FileNode,
)
    requires
        delete_outcome(r, root, folder_path, folder, true),
        r is Ok,
        forall|i: int| 0 <= i < listing.len() && #[trigger] listing[i] is Ok ==> listing[i]->Ok_0.path@
            != folder_path@,
        snapshot.children == Some(children_of(snapshot)),
        children_of(snapshot)@ == readable(listing),
    ensures
        r == Ok::<Action, FsError>(Action::RemoveDirAll { path: folder_path }),
        forall|j: int| 0 <= j < children_of(snapshot)@.len() ==> #[trigger] children_of(snapshot)@[j].path@
            != folder_path@,
{
    removed_entry_not_listed(folder_path@, folder_path, listing, snapshot);
}

} // verus!
