//! The containment check that every mutating operation passes first.
use vstd::prelude::*;
use crate::error::FsError;
use crate::paths::{is_within, join, lemma_join_within, lemma_name_prefix_not_within, within};

verus! {

/// The outcome of checking a path against a workspace root, given what
/// resolving each of them (following links) produced.
pub open spec fn containment(root: Result<String, String>, target: Result<String, String>) -> Result<
    (),
    FsError,
> {
    match root {
        Err(why) => Err(FsError::RootUnresolved(why)),
        Ok(r) => match target {
            Err(why) => Err(FsError::TargetUnresolved(why)),
            Ok(t) => if within(r@, t@) {
                Ok(())
            } else {
                Err(FsError::NotContained { path: t, root: r })
            },
        },
    }
}

/// Checks that a path lies at or beneath a workspace root, both taken in
/// their resolved form. A root or a path that could not be resolved is
/// reported as such, apart from a path that escapes the root.
pub fn ensure_within_workspace(
    workspace_root: &Result<String, String>,
    target: &Result<String, String>,
) -> (r: Result<(), FsError>)
    ensures
        r == containment(*workspace_root, *target),
{
    match workspace_root {
        Err(why) => Err(FsError::RootUnresolved(why.clone())),
        Ok(root) => match target {
            Err(why) => Err(FsError::TargetUnresolved(why.clone())),
            Ok(path) => if is_within(root.as_str(), path.as_str()) {
                Ok(())
            } else {
                Err(FsError::NotContained { path: path.clone(), root: root.clone() })
            },
        },
    }
}

/// A path whose resolved form is a name joined under the resolved root
/// passes the check.
pub proof fn descendant_passes(root: String, target: String, name: Seq<char>)
    requires
        root@.len() > 0,
        target@ == join(root@, name),
    ensures
        containment(Ok(root), Ok(target)) == Ok::<(), FsError>(()),
{
    lemma_join_within(root@, name);
}

/// A path that only shares a name prefix with the resolved root, as
/// `/a/b-other` does with `/a/b`, is refused as lying outside it.
pub proof fn name_prefix_sibling_refused(root: String, target: String)
    requires
        root@.len() > 0,
        root@.last() != '/',
        target@.len() > root@.len(),
        target@.subrange(0, root@.len() as int) == root@,
        target@[root@.len() as int] != '/',
    ensures
        containment(Ok(root), Ok(target)) == Err::<(), FsError>(
            FsError::NotContained { path: target, root },
        ),
{
    lemma_name_prefix_not_within(root@, target@);
}

} // verus!
