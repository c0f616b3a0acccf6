//! The ZIP container of an ODB++ archive, read from memory.
use std::io::Cursor;
use vstd::prelude::*;
use zip::ZipArchive;

verus! {

/// `std::io::Cursor`, the in-memory reader under an archive.
#[verifier::external_type_specification]
#[verifier::external_body]
#[verifier::reject_recursive_types(T)]
pub struct ExCursor<T>(Cursor<T>);

/// `zip::ZipArchive`, an opened ZIP container.
#[verifier::external_type_specification]
#[verifier::external_body]
#[verifier::reject_recursive_types(R)]
pub struct ExZipArchive<R>(ZipArchive<R>);

/// For each entry of the archive, in central-directory order: `Ok` of its name
/// where `by_index` opens the entry and its name decodes, else `Err` of the
/// `Display` text of the error that came.
pub uninterp spec fn archive_listing(archive: ZipArchive<Cursor<&[u8]>>) -> Seq<Result<Seq<char>, Seq<char>>>;

/// The names under which `by_name` opens an entry.
pub uninterp spec fn archive_openable(archive: ZipArchive<Cursor<&[u8]>>) -> Set<Seq<char>>;

/// For each name under which `by_name` opens an entry whose content reads as
/// UTF-8 text: that text.
pub uninterp spec fn archive_texts(archive: ZipArchive<Cursor<&[u8]>>) -> Map<Seq<char>, Seq<char>>;

/// For each name under which `by_name` fails, or opens an entry whose content
/// does not read as UTF-8 text: the `Display` text of the error that came.
pub uninterp spec fn archive_read_errors(archive: ZipArchive<Cursor<&[u8]>>) -> Map<Seq<char>, Seq<char>>;

/// What an opened archive holds: its listing, the names it opens, its texts,
/// and the errors of reading the other names.
pub type ArchiveContents = (
    Seq<Result<Seq<char>, Seq<char>>>,
    Set<Seq<char>>,
    Map<Seq<char>, Seq<char>>,
    Map<Seq<char>, Seq<char>>,
);

/// The listing, the openable names, the texts and the read errors of an
/// archive together.
pub open spec fn archive_contents(archive: ZipArchive<Cursor<&[u8]>>) -> ArchiveContents {
    (archive_listing(archive), archive_openable(archive), archive_texts(archive), archive_read_errors(archive))
}

/// What `ZipArchive::new` makes of the given bytes: `Err` of the `Display`
/// text of its error where it refuses them, else what the archive it opens
/// holds.
pub uninterp spec fn zip_contents(data: Seq<u8>) -> Result<ArchiveContents, Seq<char>>;

/// Opens the bytes as a ZIP archive with `zip::ZipArchive::new` over a
/// `std::io::Cursor`. Claimed: it succeeds exactly where `zip_contents` is
/// `Ok`, and the archive then holds those contents; on failure the error is
/// rendered with its `Display`, which is the text `zip_contents` gives.
#[verifier::external_body]
pub fn open_archive<'a>(data: &'a [u8]) -> (res: Result<ZipArchive<Cursor<&'a [u8]>>, String>)
    ensures
        match res {
            Ok(a) => zip_contents(data@) == Ok::<ArchiveContents, Seq<char>>(archive_contents(a)),
            Err(e) => zip_contents(data@) == Err::<ArchiveContents, Seq<char>>(e@),
        },
{
    match ZipArchive::new(Cursor::new(data)) {
        Ok(a) => Ok(a),
        Err(e) => Err(e.to_string()),
    }
}

/// `zip::ZipArchive::len`: the number of entries, which is the length of the listing.
#[verifier::external_body]
pub fn archive_len(archive: &ZipArchive<Cursor<&[u8]>>) -> (n: usize)
    ensures
        n == archive_listing(*archive).len(),
{
    archive.len()
}

/// `zip::ZipArchive::by_index`, then the entry's `name`. Claimed: what the
/// archive holds stays as it was; past the last entry the call fails; on an
/// entry it gives what the listing holds for it: the name, or the `Display`
/// text of the error.
#[verifier::external_body]
pub fn entry_name(archive: &mut ZipArchive<Cursor<&[u8]>>, index: usize) -> (res: Result<String, String>)
    ensures
        archive_contents(*final(archive)) == archive_contents(*old(archive)),
        index >= archive_listing(*old(archive)).len() ==> res is Err,
        index < archive_listing(*old(archive)).len() ==> match res {
            Ok(n) => archive_listing(*old(archive))[index as int] == Ok::<Seq<char>, Seq<char>>(n@),
            Err(e) => archive_listing(*old(archive))[index as int] == Err::<Seq<char>, Seq<char>>(e@),
        },
{
    match archive.by_index(index) {
        Ok(file) => match file.name() {
            Ok(n) => Ok(n.into_owned()),
            Err(e) => Err(e.to_string()),
        },
        Err(e) => Err(e.to_string()),
    }
}

/// Why an entry named in the archive could not be had as text.
#[derive(Debug)]
pub enum EntryFailure {
    /// `by_name` failed (mostly: no such entry); its message.
    Missing(String),
    /// The entry opened, but reading it as UTF-8 text failed; the message.
    Unreadable(String),
}

/// `zip::ZipArchive::by_name`, then `std::io::Read::read_to_string` on the
/// entry. Claimed: what the archive holds stays as it was; `by_name` fails
/// exactly where the name is not openable; the call succeeds exactly where the
/// texts hold the name, and gives that text; either failure carries the
/// `Display` text of its error, which the read errors hold for the name.
#[verifier::external_body]
pub fn entry_text(archive: &mut ZipArchive<Cursor<&[u8]>>, name: &str) -> (res: Result<String, EntryFailure>)
    ensures
        archive_contents(*final(archive)) == archive_contents(*old(archive)),
        res matches Err(EntryFailure::Missing(_)) <==> !archive_openable(*old(archive)).contains(name@),
        res is Ok <==> archive_texts(*old(archive)).contains_key(name@),
        res matches Ok(t) ==> t@ == archive_texts(*old(archive))[name@],
        res matches Err(EntryFailure::Missing(m)) ==> archive_read_errors(*old(archive)).contains_key(
            name@,
        ) && m@ == archive_read_errors(*old(archive))[name@],
        res matches Err(EntryFailure::Unreadable(m)) ==> archive_read_errors(
            *old(archive),
        ).contains_key(name@) && m@ == archive_read_errors(*old(archive))[name@],
{
    let mut file = match archive.by_name(name) {
        Ok(f) => f,
        Err(e) => return Err(EntryFailure::Missing(e.to_string())),
    };
    let mut text = String::new();
    match std::io::Read::read_to_string(&mut file, &mut text) {
        Ok(_) => Ok(text),
        Err(e) => Err(EntryFailure::Unreadable(e.to_string())),
    }
}

} // verus!
