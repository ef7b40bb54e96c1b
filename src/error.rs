//! What can go wrong in a workspace operation, and how it reads.
use vstd::prelude::*;
use vstd::string::StringExecFns;
use crate::ops::Action;

verus! {

/// Why a workspace operation was refused or did not complete.
#[derive(Debug, Clone, PartialEq, Eq)]
pub enum FsError {
    /// The workspace root could not be resolved; holds the system's reason.
    RootUnresolved(String),
    /// The checked path could not be resolved; holds the system's reason.
    TargetUnresolved(String),
    /// The resolved path lies outside the resolved workspace root.
    NotContained { path: String, root: String },
    /// The path names no entry inside a directory (it is empty or a root).
    NoParent(String),
    /// The entry to rename does not exist; `dir` tells whether a directory
    /// was expected.
    NotFound { path: String, dir: bool },
    /// The entry exists but is not of the kind the operation needs.
    WrongKind { path: String, expected_dir: bool },
    /// The directory to create in is missing or is not a directory.
    ParentMissing(String),
    /// The path to create, or to rename to, is already taken; `dir` tells
    /// whether the entry is a directory, `renaming` whether it is a rename.
    AlreadyExists { path: String, dir: bool, renaming: bool },
    /// The name given for a new entry or a new name is not allowed: a
    /// file's name or a new name is not one plain name (it is empty, `.` or
    /// `..`, or holds a separator); a directory's name is empty, starts at
    /// the filesystem root or has a `..` segment.
    BadName(String),
    /// The system refused the action itself; holds the system's reason.
    Io(Action, String),
}

/// What the message of a refused action starts with.
pub open spec fn io_prefix(action: Action) -> Seq<char> {
    match action {
        Action::Write { .. } => Seq::empty(),
        Action::CreateFile { .. } => "Failed to create file: "@,
        Action::CreateDirAll { .. } => "Failed to create directory: "@,
        Action::Rename { dir, .. } => if dir {
            "Failed to rename folder: "@
        } else {
            "Failed to rename file: "@
        },
        Action::RemoveFile { .. } => "Failed to delete file: "@,
        Action::RemoveDirAll { .. } => "Failed to delete directory: "@,
    }
}

/// What the message of a taken path starts with.
pub open spec fn already_prefix(dir: bool, renaming: bool) -> Seq<char> {
    if renaming {
        if dir {
            "A folder already exists at destination: "@
        } else {
            "A file already exists at destination: "@
        }
    } else if dir {
        "Directory already exists: "@
    } else {
        "File already exists: "@
    }
}

/// The text that a caller sees for an error.
pub open spec fn describe(e: FsError) -> Seq<char> {
    match e {
        FsError::RootUnresolved(why) => "Failed to canonicalize workspace root: "@ + why@,
        FsError::TargetUnresolved(why) => "Failed to canonicalize target path: "@ + why@,
        FsError::NotContained { path, root } => "Path '"@ + path@ + "' is not inside workspace '"@
            + root@ + "'"@,
        FsError::NoParent(p) => "Cannot determine parent of "@ + p@,
        FsError::NotFound { path, dir } => if dir {
            "Source folder does not exist or is not a directory: "@ + path@
        } else {
            "Source file does not exist: "@ + path@
        },
        FsError::WrongKind { path, expected_dir } => if expected_dir {
            "Not a directory: "@ + path@
        } else {
            "Not a file: "@ + path@
        },
        FsError::ParentMissing(p) => "Parent folder does not exist: "@ + p@,
        FsError::AlreadyExists { path, dir, renaming } => already_prefix(dir, renaming) + path@,
        FsError::BadName(n) => "Invalid name: "@ + n@,
        FsError::Io(action, why) => io_prefix(action) + why@,
    }
}

fn prefixed(prefix: &str, detail: &String) -> (r: String)
    ensures
        r@ == prefix@ + detail@,
{
    String::from_str(prefix).concat(detail.as_str())
}

impl FsError {
    /// The human-readable message for this error.
    pub fn message(&self) -> (r: String)
        ensures
            r@ == describe(*self),
    {
        match self {
            FsError::RootUnresolved(why) => prefixed("Failed to canonicalize workspace root: ", why),
            FsError::TargetUnresolved(why) => prefixed("Failed to canonicalize target path: ", why),
            FsError::NotContained { path, root } => {
                let s = prefixed("Path '", path);
                let s = s.concat("' is not inside workspace '");
                let s = s.concat(root.as_str());
                s.concat("'")
            },
            FsError::NoParent(p) => prefixed("Cannot determine parent of ", p),
            FsError::NotFound { path, dir } => if *dir {
                prefixed("Source folder does not exist or is not a directory: ", path)
            } else {
                prefixed("Source file does not exist: ", path)
            },
            FsError::WrongKind { path, expected_dir } => if *expected_dir {
                prefixed("Not a directory: ", path)
            } else {
                prefixed("Not a file: ", path)
            },
            FsError::ParentMissing(p) => prefixed("Parent folder does not exist: ", p),
            FsError::AlreadyExists { path, dir, renaming } => if *renaming {
                if *dir {
                    prefixed("A folder already exists at destination: ", path)
                } else {
                    prefixed("A file already exists at destination: ", path)
                }
            } else if *dir {
                prefixed("Directory already exists: ", path)
            } else {
                prefixed("File already exists: ", path)
            },
            FsError::BadName(n) => prefixed("Invalid name: ", n),
            FsError::Io(action, why) => match action {
                Action::Write { .. } => {
                    let r = why.clone();
                    assert(r@ =~= Seq::<char>::empty() + why@);
                    r
                },
                Action::CreateFile { .. } => prefixed("Failed to create file: ", why),
                Action::CreateDirAll { .. } => prefixed("Failed to create directory: ", why),
                Action::Rename { dir, .. } => if *dir {
                    prefixed("Failed to rename folder: ", why)
                } else {
                    prefixed("Failed to rename file: ", why)
                },
                Action::RemoveFile { .. } => prefixed("Failed to delete file: ", why),
                Action::RemoveDirAll { .. } => prefixed("Failed to delete directory: ", why),
            },
        }
    }
}

} // verus!
