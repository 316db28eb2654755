//! The entries of a zip archive held in memory, read with the `zip` crate:
//! each entry's name and, when it can be decompressed, its bytes. Office and
//! Pages documents are zip archives; `document` reads their text from these
//! entries.
use vstd::prelude::*;
use crate::document::ZipEntry;

verus! {

#[verifier::external_type_specification]
#[verifier::external_body]
#[verifier::reject_recursive_types(T)]
pub struct ExCursor<T>(std::io::Cursor<T>);

#[verifier::external_type_specification]
#[verifier::external_body]
#[verifier::reject_recursive_types(R)]
pub struct ExZipArchive<R>(zip::ZipArchive<R>);

/// An archive entry by value: its name and bytes (none when they cannot be
/// read); none for an entry that cannot be opened.
pub type EntryView = Option<(Seq<char>, Option<Seq<u8>>)>;

/// An entry by value.
pub open spec fn entry_view(e: Option<ZipEntry>) -> EntryView {
    match e {
        Some(z) => Some((z.name@, match z.data {
            Some(d) => Some(d@),
            None => None,
        })),
        None => None,
    }
}

/// Entries by value.
pub open spec fn entry_views(v: Seq<Option<ZipEntry>>) -> Seq<EntryView> {
    Seq::new(v.len(), |i: int| entry_view(v[i]))
}

/// What an opened archive holds, entry by entry in archive order: what
/// `by_index` and reading the entry give for each index.
pub uninterp spec fn archive_entries(a: zip::ZipArchive<std::io::Cursor<Vec<u8>>>) -> Seq<EntryView>;

/// The entries of the archive whose bytes are `b`, when `ZipArchive::new`
/// can read its central directory. The name covers more than one function
/// of `zip`: `ZipArchive::new` on an in-memory cursor over `b`, and for each
/// index what `by_index`, `ZipFile::name` and `read_to_end` then give. All of
/// them read only `b`, so the result depends on the bytes alone.
pub uninterp spec fn archive_of(b: Seq<u8>) -> Option<Seq<EntryView>>;

/// Calls `zip::ZipArchive::new` on the bytes. Claims: an archive is returned
/// exactly when the bytes are one (`archive_of` is some), and it holds what
/// `archive_of` names. The entries themselves are not described.
#[verifier::external_body]
fn open_archive(bytes: Vec<u8>) -> (r: Option<zip::ZipArchive<std::io::Cursor<Vec<u8>>>>)
    ensures
        r is Some <==> archive_of(bytes@) is Some,
        r matches Some(a) ==> Some(archive_entries(a)) == archive_of(bytes@),
{
    zip::ZipArchive::new(std::io::Cursor::new(bytes)).ok()
}

/// Calls `ZipArchive::len`. Claims: the number of entries.
#[verifier::external_body]
fn archive_len(a: &zip::ZipArchive<std::io::Cursor<Vec<u8>>>) -> (n: usize)
    ensures
        n == archive_entries(*a).len(),
{
    a.len()
}

/// Calls `ZipArchive::by_index`, then reads the entry's name and all its
/// bytes. Claims: the result is the entry at `i` as `archive_entries` names
/// it, and reading leaves what the archive holds unchanged (each entry is
/// found again from the central directory).
#[verifier::external_body]
fn archive_entry(a: &mut zip::ZipArchive<std::io::Cursor<Vec<u8>>>, i: usize) -> (r: Option<ZipEntry>)
    requires
        i < archive_entries(*old(a)).len(),
    ensures
        archive_entries(*final(a)) == archive_entries(*old(a)),
        entry_view(r) == archive_entries(*old(a))[i as int],
{
    let mut f = a.by_index(i).ok()?;
    let name = f.name().to_string();
    let mut buf = Vec::new();
    let data = std::io::Read::read_to_end(&mut f, &mut buf).ok().map(|_| buf);
    Some(ZipEntry { name, data })
}

/// The entries of the zip archive `bytes`, in archive order; none when the
/// bytes are not a zip archive.
pub fn zip_entries(bytes: Vec<u8>) -> (r: Option<Vec<Option<ZipEntry>>>)
    ensures
        match r {
            Some(v) => archive_of(bytes@) == Some(entry_views(v@)),
            None => archive_of(bytes@) is None,
        },
{
    let ghost b = bytes@;
    let mut a = match open_archive(bytes) {
        Some(a) => a,
        None => {
            return None;
        },
    };
    let ghost all = archive_entries(a);
    let n = archive_len(&a);
    let mut v: Vec<Option<ZipEntry>> = Vec::new();
    let mut i: usize = 0;
    while i < n
        invariant
            i <= n,
            n == all.len(),
            archive_entries(a) == all,
            Some(all) == archive_of(b),
            entry_views(v@) == all.take(i as int),
        decreases n - i,
    {
        let e = archive_entry(&mut a, i);
        let ghost before = v@;
        v.push(e);
        proof {
            assert(entry_views(v@) =~= entry_views(before).push(entry_view(e)));
            assert(all.take(i + 1) =~= all.take(i as int).push(all[i as int]));
        }
        i = i + 1;
    }
    assert(all.take(n as int) =~= all);
    Some(v)
}

} // verus!
