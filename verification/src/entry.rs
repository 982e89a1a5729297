//! Names of archive entries: which of them may be extracted, and where under
//! the installation root each one lands.

use vstd::prelude::*;
use vstd::string::*;
use crate::path::{is_separator, join, join_of, Separator};

verus! {

/// Whether the component `..` starts at index `i` of `n`.
pub open spec fn parent_segment_at(n: Seq<char>, i: int) -> bool {
    &&& 0 <= i
    &&& i + 2 <= n.len()
    &&& n[i] == '.'
    &&& n[i + 1] == '.'
    &&& (i == 0 || is_separator(n[i - 1]))
    &&& (i + 2 == n.len() || is_separator(n[i + 2]))
}

/// Whether some component of `n` is `..`.
pub open spec fn has_parent_segment(n: Seq<char>) -> bool {
    exists|i: int| parent_segment_at(n, i)
}

/// An entry name that may be extracted: not empty, not absolute, without a
/// drive or stream marker, and without a `..` component.
pub open spec fn is_safe_entry_name(n: Seq<char>) -> bool {
    &&& n.len() > 0
    &&& !is_separator(n[0])
    &&& !n.contains(':')
    &&& !has_parent_segment(n)
}

/// Decides `is_safe_entry_name`.
pub fn check_entry_name(name: &str) -> (ok: bool)
    ensures
        ok == is_safe_entry_name(name@),
{
    let n: usize = name.unicode_len();
    if n == 0 {
        return false;
    }
    let first: char = name.get_char(0);
    if first == '/' || first == '\\' {
        return false;
    }
    let mut i: usize = 0;
    while i < n
        invariant
            i <= n,
            n == name@.len(),
            forall|j: int| 0 <= j < i ==> name@[j] != ':',
            forall|j: int| 0 <= j < i ==> !parent_segment_at(name@, j),
        decreases n - i,
    {
        let c: char = name.get_char(i);
        if c == ':' {
            assert(name@.contains(':'));
            return false;
        }
        if c == '.' && n - i >= 2 {
            let next: char = name.get_char(i + 1);
            let mut before: bool = true;
            if i > 0 {
                let p: char = name.get_char(i - 1);
                before = p == '/' || p == '\\';
            }
            let mut after: bool = true;
            if i + 2 < n {
                let q: char = name.get_char(i + 2);
                after = q == '/' || q == '\\';
            }
            if next == '.' && before && after {
                assert(parent_segment_at(name@, i as int));
                return false;
            }
        }
        i = i + 1;
    }
    proof {
        assert(!name@.contains(':'));
        assert(!has_parent_segment(name@));
    }
    true
}

/// `name` with every separator written as `sep`.
pub open spec fn normalized(name: Seq<char>, sep: Separator) -> Seq<char> {
    Seq::new(
        name.len(),
        |i: int|
            if is_separator(name[i]) {
                sep.as_char()
            } else {
                name[i]
            },
    )
}

/// Computes `normalized`.
pub fn normalize(name: &str, sep: Separator) -> (r: String)
    ensures
        r@ == normalized(name@, sep),
{
    let n: usize = name.unicode_len();
    let mut out: String = String::new();
    let mut i: usize = 0;
    while i < n
        invariant
            i <= n,
            n == name@.len(),
            out@ == normalized(name@, sep).subrange(0, i as int),
        decreases n - i,
    {
        let c: char = name.get_char(i);
        if c == '/' || c == '\\' {
            out.append(sep.as_str());
        } else {
            out.append(name.substring_char(i, i + 1));
            assert(name@.subrange(i as int, i + 1) =~= seq![name@[i as int]]);
        }
        assert(out@ =~= normalized(name@, sep).subrange(0, i + 1));
        i = i + 1;
    }
    assert(out@ =~= normalized(name@, sep));
    out
}

/// Where the entry called `name` lands under `root`.
pub open spec fn target_of(root: Seq<char>, sep: Separator, name: Seq<char>) -> Seq<char> {
    join_of(root, sep, normalized(name, sep))
}

/// Computes `target_of`.
pub fn entry_target(root: &str, sep: Separator, name: &str) -> (r: String)
    ensures
        r@ == target_of(root@, sep, name@),
{
    let tail: String = normalize(name, sep);
    join(root, sep, tail.as_str())
}

/// `path` lies under `root`: it begins with `root`, and what follows holds no
/// `..` component and no drive marker; under the empty root it is relative.
pub open spec fn stays_within(root: Seq<char>, path: Seq<char>) -> bool {
    &&& root.len() <= path.len()
    &&& path.subrange(0, root.len() as int) == root
    &&& !has_parent_segment(path.subrange(root.len() as int, path.len() as int))
    &&& !path.subrange(root.len() as int, path.len() as int).contains(':')
    &&& (root.len() == 0 ==> path.len() > 0 && !is_separator(path[0]))
}

/// No safe entry name leads out of the installation root: its target begins
/// with the root and never climbs back through a `..` component.
pub proof fn lemma_target_stays_within(root: Seq<char>, sep: Separator, name: Seq<char>)
    requires
        is_safe_entry_name(name),
    ensures
        stays_within(root, target_of(root, sep, name)),
{
    let m = normalized(name, sep);
    let path = target_of(root, sep, name);
    let rest = path.subrange(root.len() as int, path.len() as int);
    assert(path.subrange(0, root.len() as int) =~= root);
    assert forall|i: int| !parent_segment_at(m, i) by {
        if parent_segment_at(m, i) {
            assert(parent_segment_at(name, i));
        }
    }
    assert forall|i: int| 0 <= i < m.len() implies m[i] != ':' by {
        assert(name.contains(name[i]));
    }
    if root.len() == 0 || is_separator(root.last()) {
        assert(rest =~= m);
    } else {
        assert(rest =~= seq![sep.as_char()] + m);
        assert forall|i: int| !parent_segment_at(rest, i) by {
            if parent_segment_at(rest, i) {
                assert(rest[i] == '.');
                assert(i >= 1);
                assert(parent_segment_at(m, i - 1));
            }
        }
    }
}

} // verus!
