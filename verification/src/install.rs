//! The installation that an update archive belongs to: where it lies, and
//! what a prune removes from it.

use vstd::prelude::*;
use vstd::string::*;
use crate::error::{ErrorKind, ErrorView, HostError};
use crate::path::{
    find_last_separator, has_zip_extension, is_zip_path, join, join_of, last_separator, parent,
    parent_of, same_text, Separator,
};

verus! {

/// The directories around an update archive: the staging directory that
/// holds it and, one level up, the installation root.
#[derive(Debug)]
pub struct InstallationLayout {
    pub staging: String,
    pub root: String,
    pub separator: Separator,
}

/// The separator that `p` itself uses last; `/` where it uses none.
pub open spec fn separator_of(p: Seq<char>) -> Separator {
    let i = last_separator(p);
    if i >= 0 && p[i] == '\\' {
        Separator::Backslash
    } else {
        Separator::Slash
    }
}

/// Staging directory and installation root of the archive at `p`, where
/// both can be derived.
pub open spec fn layout_of(p: Seq<char>) -> Option<(Seq<char>, Seq<char>)> {
    match parent_of(p) {
        Some(staging) => match parent_of(staging) {
            Some(root) => Some((staging, root)),
            None => None,
        },
        None => None,
    }
}

/// The failure reported where the archive is missing or is no zip file.
pub open spec fn invalid_archive() -> ErrorView {
    ErrorView {
        kind: ErrorKind::InvalidInput,
        message: "the archive is missing or is not a zip file"@,
    }
}

/// The failure reported where the installation root cannot be derived.
pub open spec fn unresolvable_root() -> ErrorView {
    ErrorView {
        kind: ErrorKind::Unresolvable,
        message: "the installation directory cannot be derived from the archive path"@,
    }
}

/// Derives the layout from the archive path; `present` says whether a file
/// is there. A missing file or a file that is no zip archive is invalid
/// input; a path too short to have a grandparent cannot be resolved.
pub fn resolve_layout(archive: &str, present: bool) -> (r: Result<InstallationLayout, HostError>)
    ensures
        match r {
            Ok(l) => present && has_zip_extension(archive@) && layout_of(archive@) == Some(
                (l.staging@, l.root@),
            ) && l.separator == separator_of(archive@),
            Err(e) => if !present || !has_zip_extension(archive@) {
                e@ == invalid_archive()
            } else {
                e@ == unresolvable_root() && layout_of(archive@) is None
            },
        },
{
    if !present || !is_zip_path(archive) {
        return Err(
            HostError::new(ErrorKind::InvalidInput, "the archive is missing or is not a zip file"),
        );
    }
    let separator: Separator = path_separator(archive);
    match parent(archive) {
        Some(staging) => match parent(staging.as_str()) {
            Some(root) => Ok(InstallationLayout { staging, root, separator }),
            None => Err(
                HostError::new(
                    ErrorKind::Unresolvable,
                    "the installation directory cannot be derived from the archive path",
                ),
            ),
        },
        None => Err(
            HostError::new(
                ErrorKind::Unresolvable,
                "the installation directory cannot be derived from the archive path",
            ),
        ),
    }
}

/// The executable that is started again after an update: `STranslate.exe`
/// in the installation root of the archive at `p`.
pub open spec fn executable_of(p: Seq<char>) -> Option<Seq<char>> {
    match layout_of(p) {
        Some(l) => Some(join_of(l.1, separator_of(p), "STranslate.exe"@)),
        None => None,
    }
}

/// Computes `executable_of`.
pub fn installed_executable(archive: &str) -> (r: Option<String>)
    ensures
        match r {
            Some(s) => executable_of(archive@) == Some(s@),
            None => executable_of(archive@) is None,
        },
{
    let separator: Separator = path_separator(archive);
    match parent(archive) {
        Some(staging) => match parent(staging.as_str()) {
            Some(root) => Some(join(root.as_str(), separator, "STranslate.exe")),
            None => None,
        },
        None => None,
    }
}

/// Computes `separator_of`.
pub fn path_separator(p: &str) -> (s: Separator)
    ensures
        s == separator_of(p@),
{
    match find_last_separator(p) {
        Some(i) => if p.get_char(i) == '\\' {
            Separator::Backslash
        } else {
            Separator::Slash
        },
        None => Separator::Slash,
    }
}

/// The names that a prune never removes.
pub open spec fn is_preserved(name: Seq<char>) -> bool {
    name == "log"@ || name == "portable_config"@ || name == "tmp"@
}

/// Decides `is_preserved`.
pub fn is_preserved_name(name: &str) -> (b: bool)
    ensures
        b == is_preserved(name@),
{
    same_text(name, "log") || same_text(name, "portable_config") || same_text(name, "tmp")
}

/// The views of a sequence of names.
pub open spec fn names_of(v: Seq<String>) -> Seq<Seq<char>> {
    v.map_values(|s: String| s@)
}

/// The children that a prune removes: those not preserved, in their order.
pub open spec fn removable(children: Seq<Seq<char>>) -> Seq<Seq<char>>
    decreases children.len(),
{
    if children.len() == 0 {
        Seq::<Seq<char>>::empty()
    } else if is_preserved(children.last()) {
        removable(children.drop_last())
    } else {
        removable(children.drop_last()).push(children.last())
    }
}

/// A prune removes exactly the children that are not preserved: every
/// preserved child stays, whatever it holds, and every other child goes.
pub proof fn lemma_prune_exact(children: Seq<Seq<char>>)
    ensures
        forall|name: Seq<char>|
            #[trigger] removable(children).contains(name) <==> children.contains(name)
                && !is_preserved(name),
    decreases children.len(),
{
    if children.len() > 0 {
        let head = children.drop_last();
        let x = children.last();
        lemma_prune_exact(head);
        let r = removable(children);
        let rh = removable(head);
        assert forall|name: Seq<char>|
            #[trigger] r.contains(name) <==> children.contains(name) && !is_preserved(
                name,
            ) by {
            assert(rh.contains(name) <==> head.contains(name) && !is_preserved(name));
            if head.contains(name) {
                let j = choose|j: int| 0 <= j < head.len() && head[j] == name;
                assert(children[j] == name);
            }
            if children.contains(name) && name != x {
                let j = choose|j: int| 0 <= j < children.len() && children[j] == name;
                assert(head[j] == name);
            }
            assert(children[children.len() - 1] == x);
            if is_preserved(x) {
                assert(r == rh);
            } else {
                assert(r == rh.push(x));
                assert(r[r.len() - 1] == x);
                if rh.contains(name) {
                    let i = choose|i: int| 0 <= i < rh.len() && rh[i] == name;
                    assert(r[i] == name);
                }
                if r.contains(name) && name != x {
                    let i = choose|i: int| 0 <= i < r.len() && r[i] == name;
                    assert(rh[i] == name);
                }
            }
        }
    }
}

/// Selects from the names of the installation root's children those that a
/// prune removes.
pub fn prune_targets(children: &Vec<String>) -> (targets: Vec<String>)
    ensures
        names_of(targets@) == removable(names_of(children@)),
{
    let ghost all = names_of(children@);
    let mut targets: Vec<String> = Vec::new();
    let mut i: usize = 0;
    assert(names_of(targets@) =~= removable(all.take(0)));
    while i < children.len()
        invariant
            i <= children.len(),
            all == names_of(children@),
            names_of(targets@) == removable(all.take(i as int)),
        decreases children.len() - i,
    {
        let ghost before = names_of(targets@);
        proof {
            assert(all.take(i + 1).drop_last() =~= all.take(i as int));
            assert(all.take(i + 1).last() == children@[i as int]@);
        }
        if !is_preserved_name(children[i].as_str()) {
            targets.push(children[i].clone());
            assert(names_of(targets@) =~= before.push(children@[i as int]@));
        }
        i = i + 1;
    }
    assert(all.take(children.len() as int) =~= all);
    targets
}

} // verus!
