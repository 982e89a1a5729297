//! Paths as sequences of characters. Both `/` and `\` separate components;
//! nothing is normalised and nothing touches the file system.

use vstd::prelude::*;
use vstd::string::*;

verus! {

/// The two characters that separate path components.
pub open spec fn is_separator(c: char) -> bool {
    c == '/' || c == '\\'
}

/// The separator a layout writes between a directory and a name.
#[derive(Clone, Copy, Debug, PartialEq, Eq, Structural)]
pub enum Separator {
    Slash,
    Backslash,
}

impl Separator {
    /// The character this separator stands for.
    pub open spec fn as_char(self) -> char {
        match self {
            Separator::Slash => '/',
            Separator::Backslash => '\\',
        }
    }

    /// The separator as a one-character string.
    pub fn as_str(self) -> (s: &'static str)
        ensures
            s@ == seq![self.as_char()],
    {
        match self {
            Separator::Slash => {
                proof {
                    reveal_strlit("/");
                    assert("/"@ =~= seq!['/']);
                }
                "/"
            },
            Separator::Backslash => {
                proof {
                    reveal_strlit("\\");
                    assert("\\"@ =~= seq!['\\']);
                }
                "\\"
            },
        }
    }
}

/// Index of the last separator in `p`, or -1 where `p` holds none.
pub open spec fn last_separator(p: Seq<char>) -> int
    decreases p.len(),
{
    if p.len() == 0 {
        -1
    } else if is_separator(p.last()) {
        p.len() - 1
    } else {
        last_separator(p.drop_last())
    }
}

/// `last_separator` names a separator, and none follows it.
pub proof fn lemma_last_separator(p: Seq<char>)
    ensures
        -1 <= last_separator(p) < p.len(),
        last_separator(p) >= 0 ==> is_separator(p[last_separator(p)]),
        forall|j: int| last_separator(p) < j < p.len() ==> !is_separator(#[trigger] p[j]),
    decreases p.len(),
{
    if p.len() > 0 && !is_separator(p.last()) {
        lemma_last_separator(p.drop_last());
        assert forall|j: int| last_separator(p) < j < p.len() implies !is_separator(
            #[trigger] p[j],
        ) by {
            if j < p.len() - 1 {
                assert(p[j] == p.drop_last()[j]);
            }
        }
    }
}

/// Finds the last separator of `p`.
pub fn find_last_separator(p: &str) -> (r: Option<usize>)
    ensures
        match r {
            Some(i) => i < p@.len() && i as int == last_separator(p@),
            None => last_separator(p@) == -1,
        },
{
    let n: usize = p.unicode_len();
    let mut i: usize = n;
    proof {
        assert(p@.subrange(0, n as int) =~= p@);
    }
    while i > 0
        invariant
            i <= n,
            n == p@.len(),
            last_separator(p@) == last_separator(p@.subrange(0, i as int)),
        decreases i,
    {
        let c: char = p.get_char(i - 1);
        proof {
            let s = p@.subrange(0, i as int);
            assert(s.last() == p@[i - 1]);
            assert(s.drop_last() =~= p@.subrange(0, i - 1));
        }
        if c == '/' || c == '\\' {
            return Some(i - 1);
        }
        i = i - 1;
    }
    None
}

/// Whether the separator at index `i` of `p` ends a root: it is the first
/// character, or it follows the colon of a drive.
pub open spec fn ends_root(p: Seq<char>, i: int) -> bool {
    i == 0 || p[i - 1] == ':'
}

/// The directory that holds `p`: what stands before the last separator,
/// and the separator too where it ends a root (`/` or `C:\`). A path without
/// a separator lies in the current directory, written as the empty path;
/// the empty path and a bare root have no parent.
pub open spec fn parent_of(p: Seq<char>) -> Option<Seq<char>> {
    let i = last_separator(p);
    if p.len() == 0 {
        None
    } else if i < 0 {
        Some(Seq::<char>::empty())
    } else if ends_root(p, i) {
        if p.len() == i + 1 {
            None
        } else {
            Some(p.subrange(0, i + 1))
        }
    } else {
        Some(p.subrange(0, i))
    }
}

/// Computes `parent_of`.
pub fn parent(p: &str) -> (r: Option<String>)
    ensures
        match r {
            Some(s) => parent_of(p@) == Some(s@),
            None => parent_of(p@) is None,
        },
{
    let n: usize = p.unicode_len();
    if n == 0 {
        return None;
    }
    match find_last_separator(p) {
        None => Some(String::new()),
        Some(i) => {
            let mut root: bool = true;
            if i > 0 {
                root = p.get_char(i - 1) == ':';
            }
            if root {
                if n == i + 1 {
                    None
                } else {
                    Some(String::from_str(p.substring_char(0, i + 1)))
                }
            } else {
                Some(String::from_str(p.substring_char(0, i)))
            }
        },
    }
}

/// `name` placed inside the directory `base`.
pub open spec fn join_of(base: Seq<char>, sep: Separator, name: Seq<char>) -> Seq<char> {
    if base.len() == 0 {
        name
    } else if is_separator(base.last()) {
        base + name
    } else {
        base + seq![sep.as_char()] + name
    }
}

/// Computes `join_of`.
pub fn join(base: &str, sep: Separator, name: &str) -> (r: String)
    ensures
        r@ == join_of(base@, sep, name@),
{
    let n: usize = base.unicode_len();
    if n == 0 {
        return String::from_str(name);
    }
    let last: char = base.get_char(n - 1);
    let mut out: String = String::from_str(base);
    if !(last == '/' || last == '\\') {
        out.append(sep.as_str());
    }
    out.append(name);
    out
}

/// Whether the file name of `p` has a non-empty stem followed by `.zip`.
pub open spec fn has_zip_extension(p: Seq<char>) -> bool {
    let n = p.len() as int;
    n >= 5 && p[n - 4] == '.' && p[n - 3] == 'z' && p[n - 2] == 'i' && p[n - 1] == 'p'
        && !is_separator(p[n - 5])
}

/// Computes `has_zip_extension`.
pub fn is_zip_path(p: &str) -> (b: bool)
    ensures
        b == has_zip_extension(p@),
{
    let n: usize = p.unicode_len();
    if n < 5 {
        return false;
    }
    let stem: char = p.get_char(n - 5);
    p.get_char(n - 4) == '.' && p.get_char(n - 3) == 'z' && p.get_char(n - 2) == 'i' && p.get_char(
        n - 1,
    ) == 'p' && !(stem == '/' || stem == '\\')
}

/// Whether the two strings hold the same characters.
pub fn same_text(a: &str, b: &str) -> (r: bool)
    ensures
        r == (a@ == b@),
{
    let x: String = String::from_str(a);
    let y: String = String::from_str(b);
    x == y
}

} // verus!
