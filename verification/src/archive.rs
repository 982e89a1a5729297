//! Reading a zip archive held in memory. The `zip` crate decodes; what it
//! hands back is named, and the loop over the entries is verified against
//! those names.

use vstd::prelude::*;
use crate::error::{ErrorKind, HostError};
use crate::extract::{entry_views, ArchiveEntry, EntryView};

verus! {

/// `std::io::Cursor`, the in-memory reader the archive is opened on.
#[verifier::external_type_specification]
#[verifier::external_body]
#[verifier::reject_recursive_types(T)]
pub struct ExCursor<T>(std::io::Cursor<T>);

/// `zip::ZipArchive`, an opened archive.
#[verifier::external_type_specification]
#[verifier::external_body]
#[verifier::reject_recursive_types(R)]
pub struct ExZipArchive<R>(zip::ZipArchive<R>);

/// `zip::result::ZipError`, the failure of any archive operation.
#[verifier::external_type_specification]
#[verifier::external_body]
pub struct ExZipError(zip::result::ZipError);

/// What `zip::ZipArchive::new` makes of a byte string: nothing where it
/// refuses the bytes, else what the opened archive holds.
pub uninterp spec fn parsed_archive(bytes: Seq<u8>) -> Option<Seq<Option<(Seq<char>, Seq<u8>)>>>;

/// What an opened archive holds, in stored order: for each entry its name
/// and decompressed bytes, or nothing where the entry cannot be read.
pub uninterp spec fn archive_entries(a: zip::ZipArchive<std::io::Cursor<Vec<u8>>>) -> Seq<
    Option<(Seq<char>, Seq<u8>)>,
>;

/// Calls `zip::ZipArchive::new` on a cursor over `bytes`. The contract only
/// ties the outcome to its names: the call fails exactly where
/// `parsed_archive` is nothing, and else the archive holds what it names.
#[verifier::external_body]
fn open_archive(bytes: Vec<u8>) -> (r: Result<
    zip::ZipArchive<std::io::Cursor<Vec<u8>>>,
    zip::result::ZipError,
>)
    ensures
        match r {
            Ok(a) => parsed_archive(bytes@) == Some(archive_entries(a)),
            Err(_) => parsed_archive(bytes@) is None,
        },
{
    zip::ZipArchive::new(std::io::Cursor::new(bytes))
}

/// Calls `zip::ZipArchive::len`: the number of entries the archive holds.
#[verifier::external_body]
fn archive_len(a: &zip::ZipArchive<std::io::Cursor<Vec<u8>>>) -> (n: usize)
    ensures
        n == archive_entries(*a).len(),
{
    a.len()
}

/// Calls `zip::ZipArchive::by_index`, then reads the entry's name and all of
/// its bytes. Reading leaves what the archive holds unchanged; for an index
/// in range the call succeeds exactly where the entry is readable, with the
/// name and bytes that `archive_entries` gives it.
#[verifier::external_body]
fn read_entry(a: &mut zip::ZipArchive<std::io::Cursor<Vec<u8>>>, i: usize) -> (r: Result<
    (String, Vec<u8>),
    zip::result::ZipError,
>)
    ensures
        archive_entries(*final(a)) == archive_entries(*old(a)),
        i < archive_entries(*old(a)).len() ==> match r {
            Ok(e) => archive_entries(*old(a))[i as int] == Some((e.0@, e.1@)),
            Err(_) => archive_entries(*old(a))[i as int] is None,
        },
{
    let mut file = a.by_index(i)?;
    let name = file.name()?.into_owned();
    let mut content = Vec::new();
    std::io::Read::read_to_end(&mut file, &mut content)?;
    Ok((name, content))
}

/// Renders a `zip::result::ZipError` through its `Display` impl. Nothing is
/// claimed of the text.
#[verifier::external_body]
fn zip_error_text(e: &zip::result::ZipError) -> (s: String) {
    format!("{}", e)
}

/// The entries as the library sees them, where every one is readable.
pub open spec fn readable_entries(es: Seq<Option<(Seq<char>, Seq<u8>)>>) -> Option<
    Seq<EntryView>,
> {
    if forall|i: int| 0 <= i < es.len() ==> (#[trigger] es[i]) is Some {
        Some(
            Seq::new(
                es.len(),
                |i: int| EntryView { name: es[i].unwrap().0, content: es[i].unwrap().1 },
            ),
        )
    } else {
        None
    }
}

/// The entries of the archive stored in `bytes`, where it opens and every
/// entry can be read.
pub open spec fn archive_contents(bytes: Seq<u8>) -> Option<Seq<EntryView>> {
    match parsed_archive(bytes) {
        Some(es) => readable_entries(es),
        None => None,
    }
}

/// Opens the archive stored in `bytes` and reads every entry, in stored
/// order. One entry that cannot be read fails the whole archive.
pub fn read_archive(bytes: Vec<u8>) -> (r: Result<Vec<ArchiveEntry>, HostError>)
    ensures
        match r {
            Ok(v) => archive_contents(bytes@) == Some(entry_views(v@)),
            Err(e) => archive_contents(bytes@) is None && e.kind == ErrorKind::OsOperationFailed,
        },
{
    let ghost stored = bytes@;
    let mut a = match open_archive(bytes) {
        Ok(a) => a,
        Err(e) => {
            return Err(
                HostError { kind: ErrorKind::OsOperationFailed, message: zip_error_text(&e) },
            );
        },
    };
    let ghost es = archive_entries(a);
    let n: usize = archive_len(&a);
    let mut out: Vec<ArchiveEntry> = Vec::new();
    let mut i: usize = 0;
    while i < n
        invariant
            i <= n,
            n == es.len(),
            archive_entries(a) == es,
            stored == bytes@,
            parsed_archive(stored) == Some(es),
            out@.len() == i,
            forall|j: int| 0 <= j < i ==> es[j] == Some((#[trigger] out@[j].name@, out@[j].content@)),
        decreases n - i,
    {
        match read_entry(&mut a, i) {
            Ok(e) => {
                let (name, content) = e;
                out.push(ArchiveEntry { name, content });
            },
            Err(e) => {
                assert(es[i as int] is None);
                return Err(
                    HostError { kind: ErrorKind::OsOperationFailed, message: zip_error_text(&e) },
                );
            },
        }
        i = i + 1;
    }
    proof {
        assert forall|j: int| 0 <= j < es.len() implies (#[trigger] es[j]) is Some by {
            assert(es[j] == Some((out@[j].name@, out@[j].content@)));
        }
        assert(entry_views(out@) =~= readable_entries(es).unwrap());
    }
    Ok(out)
}

} // verus!
