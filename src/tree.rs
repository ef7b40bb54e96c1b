//! Snapshots of a directory tree for the explorer.
use vstd::prelude::*;
use vstd::string::StringExecFns;
use crate::paths::{file_name, final_segment};

verus! {

/// One file or directory of a snapshot. `children` is `Some` exactly for a
/// directory; a file has none at all, which sets it apart from an empty
/// directory.
#[derive(Debug, PartialEq, Eq)]
pub struct FileNode {
    pub name: String,
    pub path: String,
    pub is_dir: bool,
    pub children: Option<Vec<FileNode>>,
}

impl FileNode {
    pub open spec fn wf(&self) -> bool {
        self.is_dir == self.children.is_some()
    }
}

/// The children of a directory node.
pub open spec fn children_of(n: FileNode) -> Vec<FileNode> {
    n.children->Some_0
}

/// The name a node shows: the last segment of its path, or the whole path
/// where that has none.
pub open spec fn display_name(path: Seq<char>) -> Seq<char> {
    match file_name(path) {
        Some(n) => n,
        None => path,
    }
}

/// The nodes of the entries that could be read, in listing order; the
/// others are left out.
pub open spec fn readable(entries: Seq<Result<FileNode, String>>) -> Seq<FileNode>
    decreases entries.len(),
{
    if entries.len() == 0 {
        Seq::empty()
    } else {
        let rest = readable(entries.drop_first());
        match entries[0] {
            Ok(n) => seq![n] + rest,
            Err(_) => rest,
        }
    }
}

fn node_name(path: &String) -> (r: String)
    ensures
        r@ == display_name(path@),
{
    match final_segment(path.as_str()) {
        Some(n) => n,
        None => String::from_str(path.as_str()),
    }
}

/// Builds the node for `path`. `metadata` tells whether the path is a
/// directory, or why that could not be learnt; `listing` holds, for a
/// directory, the outcome of reading it: one result per entry, a node or
/// the reason it could not be built. A failure at `path` itself is
/// returned; a failure of one entry only drops that entry.
pub fn build_tree(
    path: String,
    metadata: Result<bool, String>,
    listing: Result<Vec<Result<FileNode, String>>, String>,
) -> (r: Result<FileNode, String>)
    ensures
        match metadata {
            Err(why) => r == Err::<FileNode, String>(why),
            Ok(false) => r matches Ok(n) && n.name@ == display_name(path@) && n.path == path
                && !n.is_dir && n.children is None,
            Ok(true) => match listing {
                Err(why) => r == Err::<FileNode, String>(why),
                Ok(entries) => r matches Ok(n) && n.name@ == display_name(path@) && n.path == path
                    && n.is_dir && n.children == Some(children_of(n)) && children_of(n)@ == readable(
                    entries@,
                ),
            },
        },
        r matches Ok(n) ==> n.wf(),
{
    let is_dir = match metadata {
        Err(why) => {
            return Err(why);
        },
        Ok(d) => d,
    };
    let name = node_name(&path);
    if !is_dir {
        return Ok(FileNode { name, path, is_dir: false, children: None });
    }
    let mut entries = match listing {
        Err(why) => {
            return Err(why);
        },
        Ok(v) => v,
    };
    let ghost all = entries@;
    let mut children: Vec<FileNode> = Vec::new();
    while entries.len() > 0
        invariant
            children@ + readable(entries@) == readable(all),
        decreases entries@.len(),
    {
        let ghost before = entries@;
        let first = entries.remove(0);
        assert(entries@ =~= before.drop_first());
        match first {
            Ok(node) => {
                children.push(node);
                assert(children@ + readable(entries@) =~= readable(all));
            },
            Err(_) => {},
        }
    }
    assert(children@ =~= children@ + readable(entries@));
    Ok(FileNode { name, path, is_dir: true, children: Some(children) })
}

/// A snapshot of a directory lists a node exactly when its listing held
/// that node as an entry that could be read: an entry that failed is left
/// out, and an entry that is gone from the listing is gone from the tree.
pub proof fn readable_exactly_the_read_entries(entries: Seq<Result<FileNode, String>>, n: FileNode)
    ensures
        readable(entries).contains(n) <==> entries.contains(Ok(n)),
    decreases entries.len(),
{
    if entries.len() > 0 {
        let rest = entries.drop_first();
        readable_exactly_the_read_entries(rest, n);
        assert(entries =~= seq![entries[0]] + rest);
        if entries.contains(Ok(n)) && entries[0] != Ok::<FileNode, String>(n) {
            let i = choose|i: int| 0 <= i < entries.len() && entries[i] == Ok::<FileNode, String>(n);
            assert(rest[i - 1] == Ok::<FileNode, String>(n));
        }
        if rest.contains(Ok(n)) {
            let i = choose|i: int| 0 <= i < rest.len() && rest[i] == Ok::<FileNode, String>(n);
            assert(entries[i + 1] == Ok::<FileNode, String>(n));
        }
        match entries[0] {
            Ok(m) => {
                let rr = readable(rest);
                assert(readable(entries) == seq![m] + rr);
                if rr.contains(n) {
                    let j = choose|j: int| 0 <= j < rr.len() && rr[j] == n;
                    assert((seq![m] + rr)[j + 1] == n);
                }
                if (seq![m] + rr).contains(n) && m != n {
                    let j = choose|j: int| 0 <= j < rr.len() + 1 && (seq![m] + rr)[j] == n;
                    assert(rr[j - 1] == n);
                }
                assert((seq![m] + rr)[0] == m);
            },
            Err(_) => {},
        }
    }
}

/// Once a directory is removed, a snapshot of the directory that held it,
/// taken from a listing in which no entry that could be read stands at the
/// removed path any more, has no child at that path.
pub proof fn removed_entry_not_listed(
    removed: Seq<char>,
    path: String,
    listing: Seq<Result<FileNode, String>>,
    snapshot: FileNode,
)
    requires
        forall|i: int| 0 <= i < listing.len() && #[trigger] listing[i] is Ok ==> listing[i]->Ok_0.path@
            != removed,
        snapshot.children == Some(children_of(snapshot)),
        children_of(snapshot)@ == readable(listing),
    ensures
        forall|j: int| 0 <= j < children_of(snapshot)@.len() ==> #[trigger] children_of(snapshot)@[j].path@
            != removed,
{
    assert forall|j: int| 0 <= j < children_of(snapshot)@.len() implies #[trigger] children_of(
        snapshot,
    )@[j].path@ != removed by {
        let n = children_of(snapshot)@[j];
        assert(readable(listing).contains(n));
        readable_exactly_the_read_entries(listing, n);
        let i = choose|i: int| 0 <= i < listing.len() && listing[i] == Ok::<FileNode, String>(n);
        assert(listing[i] is Ok);
    }
}

} // verus!
