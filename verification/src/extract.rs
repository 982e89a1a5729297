//! Extraction of an update archive, as a plan: which directories to create
//! and which files to write, in archive order. A small model of a file tree
//! says what carrying out a plan does.

use vstd::prelude::*;
use vstd::string::*;
use crate::entry::{
    check_entry_name, entry_target, is_safe_entry_name, lemma_target_stays_within, stays_within,
    target_of,
};
use crate::error::{ErrorKind, ErrorView, HostError};
use crate::path::{is_separator, parent, parent_of, Separator};

verus! {

/// One entry of an archive: its stored name and its decompressed bytes.
#[derive(Debug)]
pub struct ArchiveEntry {
    pub name: String,
    pub content: Vec<u8>,
}

/// An archive entry as plain sequences.
pub struct EntryView {
    pub name: Seq<char>,
    pub content: Seq<u8>,
}

impl View for ArchiveEntry {
    type V = EntryView;

    open spec fn view(&self) -> EntryView {
        EntryView { name: self.name@, content: self.content@ }
    }
}

/// One step of an extraction.
#[derive(Debug)]
pub enum FileOp {
    /// Make sure the directory and its ancestors exist.
    CreateDir { path: String },
    /// Create the file, or replace what it held.
    WriteFile { path: String, content: Vec<u8> },
}

/// A step of an extraction as plain sequences.
pub enum FileOpView {
    CreateDir { path: Seq<char> },
    WriteFile { path: Seq<char>, content: Seq<u8> },
}

impl View for FileOp {
    type V = FileOpView;

    open spec fn view(&self) -> FileOpView {
        match self {
            FileOp::CreateDir { path } => FileOpView::CreateDir { path: path@ },
            FileOp::WriteFile { path, content } => FileOpView::WriteFile {
                path: path@,
                content: content@,
            },
        }
    }
}

/// The views of a sequence of entries.
pub open spec fn entry_views(s: Seq<ArchiveEntry>) -> Seq<EntryView> {
    s.map_values(|e: ArchiveEntry| e@)
}

/// The views of a sequence of steps.
pub open spec fn op_views(s: Seq<FileOp>) -> Seq<FileOpView> {
    s.map_values(|o: FileOp| o@)
}

/// Every entry has a name that may be extracted.
pub open spec fn all_safe(entries: Seq<EntryView>) -> bool {
    forall|i: int| 0 <= i < entries.len() ==> is_safe_entry_name(#[trigger] entries[i].name)
}

/// Whether the entry marks a directory: its name ends in a separator.
pub open spec fn is_directory_entry(e: EntryView) -> bool {
    e.name.len() > 0 && is_separator(e.name.last())
}

/// The steps for one entry. A name that ends in a separator marks a
/// directory; any other entry is a file, written after its directory is made
/// sure of.
pub open spec fn entry_ops(e: EntryView, root: Seq<char>, sep: Separator) -> Seq<FileOpView> {
    let target = target_of(root, sep, e.name);
    if is_directory_entry(e) {
        seq![FileOpView::CreateDir { path: target }]
    } else {
        let write = FileOpView::WriteFile { path: target, content: e.content };
        match parent_of(target) {
            Some(dir) => if dir.len() > 0 {
                seq![FileOpView::CreateDir { path: dir }, write]
            } else {
                seq![write]
            },
            None => seq![write],
        }
    }
}

/// The steps for a whole archive: those of each entry, in archive order.
pub open spec fn plan_ops(entries: Seq<EntryView>, root: Seq<char>, sep: Separator) -> Seq<
    FileOpView,
>
    decreases entries.len(),
{
    if entries.len() == 0 {
        Seq::<FileOpView>::empty()
    } else {
        plan_ops(entries.drop_last(), root, sep) + entry_ops(entries.last(), root, sep)
    }
}

/// Copies a byte vector.
pub fn copy_bytes(v: &Vec<u8>) -> (r: Vec<u8>)
    ensures
        r@ == v@,
{
    let mut out: Vec<u8> = Vec::new();
    let mut i: usize = 0;
    while i < v.len()
        invariant
            i <= v.len(),
            out@ == v@.subrange(0, i as int),
        decreases v.len() - i,
    {
        out.push(v[i]);
        assert(out@ =~= v@.subrange(0, i + 1));
        i = i + 1;
    }
    assert(out@ =~= v@);
    out
}

/// The failure reported where an entry name would leave the root.
pub open spec fn unsafe_entry() -> ErrorView {
    ErrorView {
        kind: ErrorKind::InvalidInput,
        message: "archive entry leaves the installation root"@,
    }
}

/// Plans the extraction of `entries` under `root`. The whole archive is
/// refused, before any step is planned, where one entry name is unsafe.
pub fn plan_extraction(entries: &Vec<ArchiveEntry>, root: &str, sep: Separator) -> (r: Result<
    Vec<FileOp>,
    HostError,
>)
    ensures
        match r {
            Ok(ops) => all_safe(entry_views(entries@)) && op_views(ops@) == plan_ops(
                entry_views(entries@),
                root@,
                sep,
            ),
            Err(e) => !all_safe(entry_views(entries@)) && e@ == unsafe_entry(),
        },
{
    let ghost evs = entry_views(entries@);
    let mut k: usize = 0;
    while k < entries.len()
        invariant
            k <= entries.len(),
            evs == entry_views(entries@),
            forall|j: int| 0 <= j < k ==> is_safe_entry_name(#[trigger] evs[j].name),
        decreases entries.len() - k,
    {
        if !check_entry_name(entries[k].name.as_str()) {
            assert(!is_safe_entry_name(evs[k as int].name));
            return Err(
                HostError::new(ErrorKind::InvalidInput, "archive entry leaves the installation root"),
            );
        }
        k = k + 1;
    }
    let mut ops: Vec<FileOp> = Vec::new();
    let mut i: usize = 0;
    assert(op_views(ops@) =~= plan_ops(evs.take(0), root@, sep));
    while i < entries.len()
        invariant
            i <= entries.len(),
            evs == entry_views(entries@),
            all_safe(evs),
            op_views(ops@) == plan_ops(evs.take(i as int), root@, sep),
        decreases entries.len() - i,
    {
        let e: &ArchiveEntry = &entries[i];
        let ghost before = op_views(ops@);
        proof {
            assert(evs.take(i + 1).drop_last() =~= evs.take(i as int));
            assert(evs.take(i + 1).last() == e@);
            assert(is_safe_entry_name(evs[i as int].name));
        }
        let name: &str = e.name.as_str();
        let n: usize = name.unicode_len();
        let last: char = name.get_char(n - 1);
        let target: String = entry_target(root, sep, name);
        if last == '/' || last == '\\' {
            ops.push(FileOp::CreateDir { path: target });
        } else {
            match parent(target.as_str()) {
                Some(dir) => {
                    if dir.as_str().unicode_len() > 0 {
                        ops.push(FileOp::CreateDir { path: dir });
                    }
                },
                None => {},
            }
            ops.push(FileOp::WriteFile { path: target, content: copy_bytes(&e.content) });
        }
        assert(op_views(ops@) =~= before + entry_ops(e@, root@, sep));
        i = i + 1;
    }
    assert(evs.take(entries.len() as int) =~= evs);
    Ok(ops)
}

/// Where a step writes or creates.
pub open spec fn op_path(op: FileOpView) -> Seq<char> {
    match op {
        FileOpView::CreateDir { path } => path,
        FileOpView::WriteFile { path, .. } => path,
    }
}

/// A step that cannot leave `root`: it writes under `root`, or it creates a
/// directory under `root` or the directory that holds a path under `root`.
pub open spec fn confined(root: Seq<char>, op: FileOpView) -> bool {
    match op {
        FileOpView::WriteFile { path, .. } => stays_within(root, path),
        FileOpView::CreateDir { path } => stays_within(root, path) || exists|t: Seq<char>|
            stays_within(root, t) && #[trigger] parent_of(t) == Some(path),
    }
}

/// An archive whose entry names are all safe is extracted without one step
/// outside the installation root.
pub proof fn lemma_plan_confined(entries: Seq<EntryView>, root: Seq<char>, sep: Separator)
    requires
        all_safe(entries),
    ensures
        forall|k: int|
            0 <= k < plan_ops(entries, root, sep).len() ==> confined(
                root,
                #[trigger] plan_ops(entries, root, sep)[k],
            ),
    decreases entries.len(),
{
    if entries.len() > 0 {
        let head = entries.drop_last();
        let e = entries.last();
        assert forall|i: int| 0 <= i < head.len() implies is_safe_entry_name(
            #[trigger] head[i].name,
        ) by {
            assert(head[i] == entries[i]);
        }
        lemma_plan_confined(head, root, sep);
        assert(is_safe_entry_name(entries[entries.len() - 1].name));
        lemma_target_stays_within(root, sep, e.name);
        let target = target_of(root, sep, e.name);
        let first = plan_ops(head, root, sep);
        let tail = entry_ops(e, root, sep);
        assert forall|k: int| 0 <= k < tail.len() implies confined(root, #[trigger] tail[k]) by {
            if !is_directory_entry(e) {
                if parent_of(target) is Some {
                    assert(parent_of(target) == Some(parent_of(target).unwrap()));
                }
            }
        }
        assert forall|k: int| 0 <= k < (first + tail).len() implies confined(
            root,
            #[trigger] (first + tail)[k],
        ) by {
            if k >= first.len() {
                assert((first + tail)[k] == tail[k - first.len()]);
            }
        }
    }
}

/// A file tree as far as extraction is concerned: the directories that
/// exist and the bytes of each file.
pub struct FileTree {
    pub dirs: Set<Seq<char>>,
    pub files: Map<Seq<char>, Seq<u8>>,
}

/// The tree with nothing in it.
pub open spec fn empty_tree() -> FileTree {
    FileTree { dirs: Set::empty(), files: Map::empty() }
}

/// The tree after one step.
pub open spec fn apply_op(t: FileTree, op: FileOpView) -> FileTree {
    match op {
        FileOpView::CreateDir { path } => FileTree { dirs: t.dirs.insert(path), files: t.files },
        FileOpView::WriteFile { path, content } => FileTree {
            dirs: t.dirs,
            files: t.files.insert(path, content),
        },
    }
}

/// The tree after the steps of `ops`, first to last.
pub open spec fn apply_ops(t: FileTree, ops: Seq<FileOpView>) -> FileTree
    decreases ops.len(),
{
    if ops.len() == 0 {
        t
    } else {
        apply_op(apply_ops(t, ops.drop_last()), ops.last())
    }
}

/// Carrying out a plan lays what the plan alone would build over the tree
/// that was there.
pub proof fn lemma_apply_ops_overlay(t: FileTree, ops: Seq<FileOpView>)
    ensures
        apply_ops(t, ops).files == t.files.union_prefer_right(apply_ops(empty_tree(), ops).files),
        apply_ops(t, ops).dirs == t.dirs.union(apply_ops(empty_tree(), ops).dirs),
    decreases ops.len(),
{
    if ops.len() > 0 {
        lemma_apply_ops_overlay(t, ops.drop_last());
    }
    assert(apply_ops(t, ops).files =~= t.files.union_prefer_right(
        apply_ops(empty_tree(), ops).files,
    ));
    assert(apply_ops(t, ops).dirs =~= t.dirs.union(apply_ops(empty_tree(), ops).dirs));
}

/// Carrying out one plan after another is carrying out the two in a row.
pub proof fn lemma_apply_ops_concat(t: FileTree, a: Seq<FileOpView>, b: Seq<FileOpView>)
    ensures
        apply_ops(t, a + b) == apply_ops(apply_ops(t, a), b),
    decreases b.len(),
{
    if b.len() == 0 {
        assert(a + b =~= a);
    } else {
        assert((a + b).drop_last() =~= a + b.drop_last());
        assert((a + b).last() == b.last());
        lemma_apply_ops_concat(t, a, b.drop_last());
    }
}

/// Carrying out a plan of one step is that step.
pub proof fn lemma_apply_one(t: FileTree, op: FileOpView)
    ensures
        apply_ops(t, seq![op]) == apply_op(t, op),
{
    let ops = seq![op];
    assert(ops.drop_last() =~= Seq::<FileOpView>::empty());
    assert(apply_ops(t, Seq::<FileOpView>::empty()) == t);
    assert(ops.last() == op);
}

/// After an extraction every directory entry of the archive exists as a
/// directory under the root.
pub proof fn lemma_extracted_directory_exists(
    t: FileTree,
    entries: Seq<EntryView>,
    root: Seq<char>,
    sep: Separator,
    i: int,
)
    requires
        0 <= i < entries.len(),
        is_directory_entry(entries[i]),
    ensures
        apply_ops(t, plan_ops(entries, root, sep)).dirs.contains(
            target_of(root, sep, entries[i].name),
        ),
    decreases entries.len(),
{
    let head = entries.drop_last();
    let first = plan_ops(head, root, sep);
    let tail = entry_ops(entries.last(), root, sep);
    let mid = apply_ops(t, first);
    lemma_apply_ops_concat(t, first, tail);
    if i < entries.len() - 1 {
        assert(head[i] == entries[i]);
        lemma_extracted_directory_exists(t, head, root, sep, i);
        lemma_apply_ops_overlay(mid, tail);
    } else {
        lemma_apply_one(mid, tail[0]);
        assert(tail =~= seq![tail[0]]);
    }
}

/// After an extraction every file entry of the archive that no later file
/// entry replaces lies under the root with exactly its bytes.
pub proof fn lemma_extracted_file_holds_entry(
    t: FileTree,
    entries: Seq<EntryView>,
    root: Seq<char>,
    sep: Separator,
    i: int,
)
    requires
        0 <= i < entries.len(),
        !is_directory_entry(entries[i]),
        forall|j: int|
            i < j < entries.len() && !is_directory_entry(entries[j]) ==> target_of(
                root,
                sep,
                (#[trigger] entries[j]).name,
            ) != target_of(root, sep, entries[i].name),
    ensures
        apply_ops(t, plan_ops(entries, root, sep)).files.contains_key(
            target_of(root, sep, entries[i].name),
        ),
        apply_ops(t, plan_ops(entries, root, sep)).files[target_of(root, sep, entries[i].name)]
            == entries[i].content,
    decreases entries.len(),
{
    let head = entries.drop_last();
    let last = entries.last();
    let first = plan_ops(head, root, sep);
    let tail = entry_ops(last, root, sep);
    let mid = apply_ops(t, first);
    let target = target_of(root, sep, entries[i].name);
    lemma_apply_ops_concat(t, first, tail);
    if tail.len() == 2 {
        assert(tail =~= seq![tail[0]] + seq![tail[1]]);
        lemma_apply_ops_concat(mid, seq![tail[0]], seq![tail[1]]);
        lemma_apply_one(mid, tail[0]);
        lemma_apply_one(apply_op(mid, tail[0]), tail[1]);
    } else {
        assert(tail =~= seq![tail[0]]);
        lemma_apply_one(mid, tail[0]);
    }
    if i < entries.len() - 1 {
        assert(head[i] == entries[i]);
        assert forall|j: int| i < j < head.len() && !is_directory_entry(head[j]) implies target_of(
            root,
            sep,
            (#[trigger] head[j]).name,
        ) != target by {
            assert(head[j] == entries[j]);
        }
        lemma_extracted_file_holds_entry(t, head, root, sep, i);
        if !is_directory_entry(last) {
            assert(entries[entries.len() - 1] == last);
            assert(target_of(root, sep, last.name) != target);
        }
    }
}

/// Extracting twice is extracting once: a second run of the same plan leaves
/// every file with the same bytes and adds no directory.
pub proof fn lemma_extraction_idempotent(t: FileTree, ops: Seq<FileOpView>)
    ensures
        apply_ops(apply_ops(t, ops), ops) == apply_ops(t, ops),
{
    let once = apply_ops(t, ops);
    let twice = apply_ops(once, ops);
    lemma_apply_ops_overlay(t, ops);
    lemma_apply_ops_overlay(once, ops);
    assert(twice.files =~= once.files);
    assert(twice.dirs =~= once.dirs);
}

} // verus!
