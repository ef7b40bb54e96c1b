//! Path strings as sequences of characters, with `/` as the separator.
use vstd::prelude::*;
use vstd::string::{StrSliceExecFns, StringExecFns};

verus! {

/// `p` without what ends it and names no entry: separators, and `.`
/// segments behind a separator (`/a/./` ends as `/a`).
pub open spec fn trim_tail(p: Seq<char>) -> Seq<char>
    decreases p.len(),
{
    if p.len() > 0 && p.last() == '/' {
        trim_tail(p.drop_last())
    } else if p.len() >= 2 && p.last() == '.' && p[p.len() - 2] == '/' {
        trim_tail(p.drop_last())
    } else {
        p
    }
}

/// Index of the last separator of `p`, if it has one.
pub open spec fn last_sep(p: Seq<char>) -> Option<int>
    decreases p.len(),
{
    if p.len() == 0 {
        None
    } else if p.last() == '/' {
        Some(p.len() - 1)
    } else {
        last_sep(p.drop_last())
    }
}

/// The directory that holds `p`: `None` for the empty path and for the
/// filesystem root, the empty path for a bare relative name.
pub open spec fn parent(p: Seq<char>) -> Option<Seq<char>> {
    let t = trim_tail(p);
    if t.len() == 0 {
        None
    } else {
        match last_sep(t) {
            None => Some(Seq::empty()),
            Some(i) => {
                let head = trim_tail(t.subrange(0, i));
                if head.len() == 0 {
                    Some(t.subrange(0, 1))
                } else {
                    Some(head)
                }
            },
        }
    }
}

/// `name` placed inside `dir`: one separator between them, none added
/// where `dir` is empty or already ends with one.
pub open spec fn join(dir: Seq<char>, name: Seq<char>) -> Seq<char> {
    if dir.len() == 0 || dir.last() == '/' {
        dir + name
    } else {
        dir + seq!['/'] + name
    }
}

/// The last segment of `p`, unless that is empty, `.` or `..`.
pub open spec fn file_name(p: Seq<char>) -> Option<Seq<char>> {
    let t = trim_tail(p);
    let seg = match last_sep(t) {
        None => t,
        Some(i) => t.subrange(i + 1, t.len() as int),
    };
    if seg.len() == 0 || seg == seq!['.'] || seg == seq!['.', '.'] {
        None
    } else {
        Some(seg)
    }
}

/// `target` is `root` or lies beneath it, compared at segment boundaries:
/// `/a/b` holds `/a/b` and `/a/b/c`, not `/a/b-other`.
pub open spec fn within(root: Seq<char>, target: Seq<char>) -> bool {
    &&& 0 < root.len() <= target.len()
    &&& target.subrange(0, root.len() as int) == root
    &&& (target.len() == root.len() || target[root.len() as int] == '/' || root.last() == '/')
}

/// `i` is where a segment of `s` begins: the start, or just after a separator.
pub open spec fn segment_start(s: Seq<char>, i: int) -> bool {
    0 <= i <= s.len() && (i == 0 || s[i - 1] == '/')
}

/// The segment of `s` that begins at `i` is `.` or `..`.
pub open spec fn dot_segment_at(s: Seq<char>, i: int) -> bool {
    &&& s[i] == '.'
    &&& (i + 1 == s.len() || s[i + 1] == '/' || (s[i + 1] == '.' && (i + 2 == s.len() || s[i + 2]
        == '/')))
}

/// The segment of `s` that begins at `i` is a plain name: not empty, and
/// neither `.` nor `..`.
pub open spec fn plain_at(s: Seq<char>, i: int) -> bool {
    i < s.len() && s[i] != '/' && !dot_segment_at(s, i)
}

/// `s` is a relative path of plain names: it is not empty, no segment is
/// empty (so no separator at either end or two in a row), and none is `.`
/// or `..`.
pub open spec fn plain_relative(s: Seq<char>) -> bool {
    forall|i: int| #[trigger] segment_start(s, i) ==> plain_at(s, i)
}

/// The segment of `s` that begins at `i` is `..`.
pub open spec fn up_segment_at(s: Seq<char>, i: int) -> bool {
    &&& i + 1 < s.len()
    &&& s[i] == '.'
    &&& s[i + 1] == '.'
    &&& (i + 2 == s.len() || s[i + 2] == '/')
}

/// `s` names a path beneath the directory it is joined under: it is not
/// empty, does not start at the filesystem root, and no segment of it is
/// `..`. Empty and `.` segments are allowed: they lead nowhere.
pub open spec fn relative_below(s: Seq<char>) -> bool {
    &&& s.len() > 0
    &&& s[0] != '/'
    &&& forall|i: int| #[trigger] segment_start(s, i) && i < s.len() ==> !up_segment_at(s, i)
}

/// `s` is one plain name: a plain relative path without separators.
pub open spec fn plain_name(s: Seq<char>) -> bool {
    plain_relative(s) && forall|i: int| 0 <= i < s.len() ==> s[i] != '/'
}

proof fn lemma_last_sep_prefix(p: Seq<char>, n: int)
    requires
        0 <= n <= p.len(),
        forall|k: int| n <= k < p.len() ==> p[k] != '/',
    ensures
        last_sep(p) == last_sep(p.subrange(0, n)),
    decreases p.len() - n,
{
    if n < p.len() {
        assert(p.drop_last().subrange(0, n) =~= p.subrange(0, n));
        lemma_last_sep_prefix(p.drop_last(), n);
    } else {
        assert(p.subrange(0, n) =~= p);
    }
}

/// Length of the first `n` characters of `s` once `trim_tail` has cut them.
fn trimmed_len(s: &str, n: usize) -> (r: usize)
    requires
        n <= s@.len(),
    ensures
        r <= n,
        trim_tail(s@.subrange(0, n as int)) == s@.subrange(0, r as int),
{
    let mut m: usize = n;
    while m > 0 && (s.get_char(m - 1) == '/' || (m >= 2 && s.get_char(m - 1) == '.' && s.get_char(
        m - 2,
    ) == '/'))
        invariant
            m <= n <= s@.len(),
            trim_tail(s@.subrange(0, n as int)) == trim_tail(s@.subrange(0, m as int)),
        decreases m,
    {
        assert(s@.subrange(0, m as int).drop_last() =~= s@.subrange(0, m - 1));
        m = m - 1;
    }
    m
}

/// Index of the last separator among the first `n` characters of `s`.
fn last_sep_before(s: &str, n: usize) -> (r: Option<usize>)
    requires
        n <= s@.len(),
    ensures
        match r {
            Some(i) => i < n && s@[i as int] == '/' && last_sep(s@.subrange(0, n as int)) == Some(
                i as int,
            ),
            None => last_sep(s@.subrange(0, n as int)) is None,
        },
{
    let mut m: usize = n;
    while m > 0 && s.get_char(m - 1) != '/'
        invariant
            m <= n <= s@.len(),
            forall|k: int| m <= k < n ==> s@[k] != '/',
        decreases m,
    {
        m = m - 1;
    }
    proof {
        let p = s@.subrange(0, n as int);
        lemma_last_sep_prefix(p, m as int);
        assert(p.subrange(0, m as int) =~= s@.subrange(0, m as int));
    }
    if m == 0 {
        None
    } else {
        Some(m - 1)
    }
}

/// The directory that holds `path`, or `None` where it has none.
pub fn parent_path(path: &str) -> (r: Option<String>)
    ensures
        match r {
            Some(d) => parent(path@) == Some(d@),
            None => parent(path@) is None,
        },
{
    let len = path.unicode_len();
    assert(path@.subrange(0, len as int) =~= path@);
    let t = trimmed_len(path, len);
    if t == 0 {
        return None;
    }
    let ghost ts = path@.subrange(0, t as int);
    match last_sep_before(path, t) {
        None => Some(String::new()),
        Some(i) => {
            assert(ts.subrange(0, i as int) =~= path@.subrange(0, i as int));
            let h = trimmed_len(path, i);
            if h == 0 {
                assert(ts.subrange(0, 1) =~= path@.subrange(0, 1));
                Some(String::from_str(path.substring_char(0, 1)))
            } else {
                Some(String::from_str(path.substring_char(0, h)))
            }
        },
    }
}

/// `name` placed inside `dir`.
pub fn join_path(dir: &str, name: &str) -> (r: String)
    ensures
        r@ == join(dir@, name@),
{
    let n = dir.unicode_len();
    if n == 0 || dir.get_char(n - 1) == '/' {
        String::from_str(dir).concat(name)
    } else {
        let sep = "/";
        proof {
            reveal_strlit("/");
        }
        String::from_str(dir).concat(sep).concat(name)
    }
}

/// The last segment of `path`, as `file_name` states.
pub fn final_segment(path: &str) -> (r: Option<String>)
    ensures
        match r {
            Some(n) => file_name(path@) == Some(n@),
            None => file_name(path@) is None,
        },
{
    let len = path.unicode_len();
    assert(path@.subrange(0, len as int) =~= path@);
    let t = trimmed_len(path, len);
    let ghost ts = path@.subrange(0, t as int);
    let start: usize = match last_sep_before(path, t) {
        None => 0,
        Some(i) => i + 1,
    };
    let seg = path.substring_char(start, t);
    assert(seg@ =~= ts.subrange(start as int, ts.len() as int));
    let k = seg.unicode_len();
    let dot_only = (k == 1 && seg.get_char(0) == '.') || (k == 2 && seg.get_char(0) == '.'
        && seg.get_char(1) == '.');
    proof {
        let one = seq!['.'];
        let two = seq!['.', '.'];
        assert(one.len() == 1 && one[0] == '.');
        assert(two.len() == 2 && two[0] == '.' && two[1] == '.');
        if k == 1 && seg@[0] == '.' {
            assert(seg@ =~= one);
        }
        if k == 2 && seg@[0] == '.' && seg@[1] == '.' {
            assert(seg@ =~= two);
        }
    }
    if k == 0 || dot_only {
        None
    } else {
        Some(String::from_str(seg))
    }
}

/// Whether `target` is `root` or lies beneath it, at segment boundaries.
pub fn is_within(root: &str, target: &str) -> (r: bool)
    ensures
        r == within(root@, target@),
{
    let n = root.unicode_len();
    let m = target.unicode_len();
    if n == 0 || n > m {
        return false;
    }
    let mut i: usize = 0;
    while i < n
        invariant
            i <= n <= m,
            n == root@.len(),
            m == target@.len(),
            forall|k: int| 0 <= k < i ==> target@[k] == root@[k],
        decreases n - i,
    {
        if root.get_char(i) != target.get_char(i) {
            assert(target@.subrange(0, n as int)[i as int] != root@[i as int]);
            return false;
        }
        i = i + 1;
    }
    assert(target@.subrange(0, n as int) =~= root@);
    n == m || target.get_char(n) == '/' || root.get_char(n - 1) == '/'
}

/// A name joined under a non-empty directory lies within that directory.
pub proof fn lemma_join_within(dir: Seq<char>, name: Seq<char>)
    requires
        dir.len() > 0,
    ensures
        within(dir, join(dir, name)),
{
    let j = join(dir, name);
    assert(j.subrange(0, dir.len() as int) =~= dir);
}

/// A path that only shares a name prefix with `root` (as `/a/b-other` does
/// with `/a/b`) does not lie within it.
pub proof fn lemma_name_prefix_not_within(root: Seq<char>, target: Seq<char>)
    requires
        root.len() > 0,
        root.last() != '/',
        target.len() > root.len(),
        target.subrange(0, root.len() as int) == root,
        target[root.len() as int] != '/',
    ensures
        !within(root, target),
{
}

/// Whether `name` is a relative path of plain names.
pub fn is_plain_relative(name: &str) -> (r: bool)
    ensures
        r == plain_relative(name@),
{
    let n = name.unicode_len();
    let mut i: usize = 0;
    while i < n
        invariant
            i <= n == name@.len(),
            forall|k: int| 0 <= k < i && #[trigger] segment_start(name@, k) ==> plain_at(name@, k),
        decreases n - i,
    {
        if i == 0 || name.get_char(i - 1) == '/' {
            assert(segment_start(name@, i as int));
            let c = name.get_char(i);
            if c == '/' {
                return false;
            }
            if c == '.' {
                let single = i + 1 == n || name.get_char(i + 1) == '/';
                let double = i + 1 < n && name.get_char(i + 1) == '.' && (i + 2 == n
                    || name.get_char(i + 2) == '/');
                if single || double {
                    return false;
                }
            }
        }
        i = i + 1;
    }
    if n == 0 || name.get_char(n - 1) == '/' {
        assert(segment_start(name@, n as int));
        return false;
    }
    assert forall|k: int| #[trigger] segment_start(name@, k) implies plain_at(name@, k) by {
        if k == n {
            assert(name@[k - 1] != '/');
        }
    }
    true
}

/// Whether `name` names a path beneath the directory it is joined under.
pub fn is_relative_below(name: &str) -> (r: bool)
    ensures
        r == relative_below(name@),
{
    let n = name.unicode_len();
    if n == 0 || name.get_char(0) == '/' {
        return false;
    }
    let mut i: usize = 0;
    while i < n
        invariant
            i <= n == name@.len(),
            forall|k: int| 0 <= k < i && #[trigger] segment_start(name@, k) ==> !up_segment_at(name@, k),
        decreases n - i,
    {
        if i == 0 || name.get_char(i - 1) == '/' {
            if i + 1 < n && name.get_char(i) == '.' && name.get_char(i + 1) == '.' && (i + 2 == n
                || name.get_char(i + 2) == '/') {
                assert(segment_start(name@, i as int));
                return false;
            }
        }
        i = i + 1;
    }
    true
}

/// Whether `name` is one plain name.
pub fn is_plain_name(name: &str) -> (r: bool)
    ensures
        r == plain_name(name@),
{
    if !is_plain_relative(name) {
        return false;
    }
    let n = name.unicode_len();
    let mut i: usize = 0;
    while i < n
        invariant
            i <= n == name@.len(),
            forall|k: int| 0 <= k < i ==> name@[k] != '/',
        decreases n - i,
    {
        if name.get_char(i) == '/' {
            return false;
        }
        i = i + 1;
    }
    true
}

proof fn lemma_trim_shape(x: Seq<char>)
    ensures
        trim_tail(x).len() <= x.len(),
        trim_tail(x) =~= x.subrange(0, trim_tail(x).len() as int),
        x.len() > 0 && trim_tail(x).len() == 0 ==> x[0] == '/',
        trim_tail(trim_tail(x)) == trim_tail(x),
    decreases x.len(),
{
    if (x.len() > 0 && x.last() == '/') || (x.len() >= 2 && x.last() == '.' && x[x.len() - 2]
        == '/') {
        let y = x.drop_last();
        lemma_trim_shape(y);
        assert(y.subrange(0, trim_tail(y).len() as int) =~= x.subrange(
            0,
            trim_tail(y).len() as int,
        ));
    } else {
        assert(x.subrange(0, x.len() as int) =~= x);
    }
}

proof fn lemma_last_sep_at(q: Seq<char>, j: int)
    requires
        0 <= j < q.len(),
        q[j] == '/',
        forall|k: int| j < k < q.len() ==> q[k] != '/',
    ensures
        last_sep(q) == Some(j),
    decreases q.len(),
{
    if q.last() != '/' {
        lemma_last_sep_at(q.drop_last(), j);
    }
}

proof fn lemma_last_sep_none(q: Seq<char>)
    requires
        forall|k: int| 0 <= k < q.len() ==> q[k] != '/',
    ensures
        last_sep(q) is None,
    decreases q.len(),
{
    if q.len() > 0 {
        lemma_last_sep_none(q.drop_last());
    }
}

proof fn lemma_last_sep_is_sep(q: Seq<char>)
    ensures
        last_sep(q) matches Some(i) ==> 0 <= i < q.len() && q[i] == '/',
    decreases q.len(),
{
    if q.len() > 0 && q.last() != '/' {
        lemma_last_sep_is_sep(q.drop_last());
    }
}

/// A directory that `parent` gives is empty, the root `/`, or ends in a
/// plain name.
proof fn lemma_parent_shape(p: Seq<char>)
    ensures
        parent(p) matches Some(d) ==> d.len() == 0 || d =~= seq!['/'] || (d.len() > 0 && trim_tail(
            d,
        ) == d),
{
    let t = trim_tail(p);
    lemma_last_sep_is_sep(t);
    if t.len() > 0 {
        if let Some(i) = last_sep(t) {
            let x = t.subrange(0, i);
            lemma_trim_shape(x);
            if trim_tail(x).len() == 0 {
                if i > 0 {
                    assert(x[0] == t[0]);
                }
                assert(t.subrange(0, 1) =~= seq!['/']);
            }
        }
    }
}

proof fn lemma_plain_name_end(n: Seq<char>)
    requires
        plain_name(n),
    ensures
        n.len() > 0,
        n.last() != '/',
        n.last() == '.' ==> n.len() >= 2 && n[n.len() - 2] != '/',
{
    assert(segment_start(n, 0));
}

/// The directory of a plain name joined under a directory that `parent`
/// can give is that directory again.
pub proof fn lemma_parent_of_join(d: Seq<char>, n: Seq<char>)
    requires
        plain_name(n),
        d.len() == 0 || d =~= seq!['/'] || (d.len() > 0 && trim_tail(d) == d),
    ensures
        parent(join(d, n)) == Some(d),
{
    lemma_plain_name_end(n);
    let q = join(d, n);
    assert(q.last() == n.last());
    if n.len() >= 2 {
        assert(q[q.len() - 2] == n[n.len() - 2]);
    }
    assert(trim_tail(q) == q);
    if d.len() == 0 {
        assert(q =~= n);
        lemma_last_sep_none(q);
    } else if d =~= seq!['/'] {
        lemma_last_sep_at(q, 0);
        assert(q.subrange(0, 0) =~= Seq::<char>::empty());
        assert(q.subrange(0, 1) =~= d);
    } else {
        lemma_trim_shape(d.drop_last());
        assert(d.last() != '/');
        lemma_last_sep_at(q, d.len() as int);
        assert(q.subrange(0, d.len() as int) =~= d);
    }
}

/// The parent of a path, with a plain name joined under it, has that same
/// parent.
pub proof fn lemma_parent_join_parent(p: Seq<char>, n: Seq<char>)
    requires
        plain_name(n),
        parent(p) is Some,
    ensures
        parent(join(parent(p)->Some_0, n)) == parent(p),
{
    lemma_parent_shape(p);
    lemma_parent_of_join(parent(p)->Some_0, n);
}

} // verus!
