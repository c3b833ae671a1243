//! Reading a mod archive that is held in memory.
//!
//! The archive format is read by the `zip` crate. What is done with each
//! entry is decided here.

use std::io::Read;
use vstd::prelude::*;
use crate::assemble::{entry_action, plan_entry, EntryAction, EntryActionView};
use crate::error::{ErrorKind, InjectionError};
use crate::text::texts;

verus! {

/// `zip::ZipArchive`: an opened archive. Nothing inside it is seen here.
#[verifier::external_type_specification]
#[verifier::external_body]
#[verifier::reject_recursive_types(R)]
pub struct ExZipArchive<R>(zip::ZipArchive<R>);

/// `std::io::Cursor`: the reader over the bytes of an archive in memory.
#[verifier::external_type_specification]
#[verifier::external_body]
#[verifier::reject_recursive_types(T)]
pub struct ExCursor<T>(std::io::Cursor<T>);

/// `zip::result::ZipError`: why an archive or an entry cannot be opened.
#[verifier::external_type_specification]
#[verifier::external_body]
pub struct ExZipError(zip::result::ZipError);

/// `std::io::Error`: why the content of an entry cannot be read.
#[verifier::external_type_specification]
#[verifier::external_body]
pub struct ExIoError(std::io::Error);

/// The two names of an entry: its name, where it can be decoded, and its
/// path by its pieces, where it stays inside the directory that it is
/// extracted to.
pub type EntryNames = (Option<Seq<char>>, Option<Seq<Seq<char>>>);

/// The bytes that an archive reads: those that it was opened on.
pub uninterp spec fn archive_bytes(archive: zip::ZipArchive<std::io::Cursor<Vec<u8>>>) -> Seq<u8>;

/// Whether the bytes are an archive that can be opened: whether they end in
/// a central directory that can be read.
pub uninterp spec fn opens_as_archive(bytes: Seq<u8>) -> bool;

/// For each entry of the archive that the bytes are, in the order of its
/// central directory: the names of the entry; `None` for an entry that
/// cannot be opened.
pub uninterp spec fn names_in(bytes: Seq<u8>) -> Seq<Option<EntryNames>>;

/// For each entry of the archive that the bytes are, its content; `None`
/// for an entry that cannot be opened or cannot be read to its end.
pub uninterp spec fn contents_in(bytes: Seq<u8>) -> Seq<Option<Seq<u8>>>;

/// `zip::ZipArchive::new` on a cursor over the bytes: the archive, or why the
/// bytes are none. Whether the bytes open depends on the bytes alone, and
/// nothing is claimed of which do. An archive that is opened keeps the
/// reader that it was given, and with it the bytes.
#[verifier::external_body]
pub(crate) fn open_archive(bytes: Vec<u8>) -> (opened: Result<
    zip::ZipArchive<std::io::Cursor<Vec<u8>>>,
    zip::result::ZipError,
>)
    ensures
        (opened is Ok) == opens_as_archive(bytes@),
        opened matches Ok(archive) ==> archive_bytes(archive) == bytes@,
{
    zip::ZipArchive::new(std::io::Cursor::new(bytes))
}

/// `zip::ZipArchive::len`: the number of entries, which the bytes fix.
#[verifier::external_body]
pub(crate) fn archive_len(archive: &zip::ZipArchive<std::io::Cursor<Vec<u8>>>) -> (n: usize)
    ensures
        n == names_in(archive_bytes(*archive)).len(),
        n == contents_in(archive_bytes(*archive)).len(),
{
    archive.len()
}

/// `zip::ZipArchive::by_index`, then `name` and `enclosed_name` of the
/// entry: the two names of the entry with index `i`, or why the entry cannot
/// be opened. The enclosed path is handed out piece by piece. Whether the
/// entry opens, and its names, depend on the bytes of the archive alone,
/// and reading leaves these bytes as they were.
#[verifier::external_body]
pub(crate) fn entry_names(
    archive: &mut zip::ZipArchive<std::io::Cursor<Vec<u8>>>,
    i: usize,
) -> (names: Result<(Option<String>, Option<Vec<String>>), zip::result::ZipError>)
    ensures
        archive_bytes(*final(archive)) == archive_bytes(*old(archive)),
        i < names_in(archive_bytes(*old(archive))).len() ==> names_read(names) == names_in(
            archive_bytes(*old(archive)),
        )[i as int],
{
    let file = archive.by_index(i)?;
    let name = file.name().ok().map(|n| n.into_owned());
    let enclosed = file.enclosed_name().map(
        |p| p.iter().map(|piece| piece.to_string_lossy().into_owned()).collect(),
    );
    Ok((name, enclosed))
}

/// `zip::ZipArchive::by_index`, then `read_to_end` on the entry: the content
/// of the entry with index `i`, or why it cannot be read, or why the entry
/// cannot be opened. The entry opens here exactly when it opens for its
/// names. Whether the content can be read, and the content, depend on the
/// bytes of the archive alone, and reading leaves these bytes as they were.
#[verifier::external_body]
pub(crate) fn entry_contents(
    archive: &mut zip::ZipArchive<std::io::Cursor<Vec<u8>>>,
    i: usize,
) -> (contents: Result<Result<Vec<u8>, std::io::Error>, zip::result::ZipError>)
    ensures
        archive_bytes(*final(archive)) == archive_bytes(*old(archive)),
        i < names_in(archive_bytes(*old(archive))).len() ==> (contents is Err) == (names_in(
            archive_bytes(*old(archive)),
        )[i as int] is None),
        i < contents_in(archive_bytes(*old(archive))).len() ==> contents_read(contents)
            == contents_in(archive_bytes(*old(archive)))[i as int],
{
    let mut file = archive.by_index(i)?;
    let mut contents = Vec::new();
    match file.read_to_end(&mut contents) {
        Ok(_) => Ok(Ok(contents)),
        Err(e) => Ok(Err(e)),
    }
}

/// The `Display` text of a `zip::result::ZipError`.
#[verifier::external_body]
pub(crate) fn zip_error_text(e: &zip::result::ZipError) -> (text: String) {
    e.to_string()
}

/// The `Display` text of a `std::io::Error`.
#[verifier::external_body]
pub(crate) fn io_error_text(e: &std::io::Error) -> (text: String) {
    e.to_string()
}

/// What came of opening an entry: its names, or nothing.
pub open spec fn names_read(
    names: Result<(Option<String>, Option<Vec<String>>), zip::result::ZipError>,
) -> Option<EntryNames> {
    match names {
        Ok(pair) => Some(
            (
                match pair.0 {
                    Some(n) => Some(n@),
                    None => None,
                },
                match pair.1 {
                    Some(p) => Some(texts(p@)),
                    None => None,
                },
            ),
        ),
        Err(_) => None,
    }
}

/// What came of reading an entry: its content, or nothing.
pub open spec fn contents_read(
    contents: Result<Result<Vec<u8>, std::io::Error>, zip::result::ZipError>,
) -> Option<Seq<u8>> {
    match contents {
        Ok(Ok(c)) => Some(c@),
        _ => None,
    }
}

/// One entry that is written out: what is made, and the bytes of a file.
#[derive(Debug)]
pub struct Unpacked {
    pub action: EntryAction,
    pub contents: Vec<u8>,
}

impl View for Unpacked {
    type V = (EntryActionView, Seq<u8>);

    open spec fn view(&self) -> (EntryActionView, Seq<u8>) {
        (self.action@, self.contents@)
    }
}

/// The views of a list of unpacked entries.
pub open spec fn unpacked_views(list: Seq<Unpacked>) -> Seq<(EntryActionView, Seq<u8>)> {
    Seq::new(list.len(), |i: int| list[i]@)
}

/// The action for an entry with the two names given. An entry whose name
/// cannot be decoded counts as a file.
pub open spec fn action_for(names: EntryNames) -> EntryActionView {
    entry_action(
        match names.0 {
            Some(n) => n,
            None => Seq::empty(),
        },
        names.1,
    )
}

/// What the first `upto` entries of an archive unpack to: an entry whose
/// path would leave the destination is passed over, a directory is made
/// without content, and a file is written with the entry's content.
///
/// The first entry that cannot be opened ends the unpacking with the class
/// `Zip`, and the first file whose content cannot be read ends it with the
/// class `Io`.
pub open spec fn unpacking(
    names: Seq<Option<EntryNames>>,
    contents: Seq<Option<Seq<u8>>>,
    upto: int,
) -> Result<Seq<(EntryActionView, Seq<u8>)>, ErrorKind>
    decreases upto,
{
    if upto <= 0 {
        Ok(Seq::empty())
    } else {
        match unpacking(names, contents, upto - 1) {
            Err(kind) => Err(kind),
            Ok(before) => match names[upto - 1] {
                None => Err(ErrorKind::Zip),
                Some(pair) => match action_for(pair) {
                    EntryActionView::Skip => Ok(before),
                    EntryActionView::MakeDir(p) => Ok(
                        before.push((EntryActionView::MakeDir(p), Seq::empty())),
                    ),
                    EntryActionView::WriteFile(p) => match contents[upto - 1] {
                        Some(c) => Ok(before.push((EntryActionView::WriteFile(p), c))),
                        None => Err(ErrorKind::Io),
                    },
                },
            },
        }
    }
}

/// What the bytes unpack to: bytes that are no archive fail with the class
/// `Zip`, and an archive unpacks entry by entry.
pub open spec fn unpacked(bytes: Seq<u8>) -> Result<Seq<(EntryActionView, Seq<u8>)>, ErrorKind> {
    if opens_as_archive(bytes) {
        unpacking(names_in(bytes), contents_in(bytes), names_in(bytes).len() as int)
    } else {
        Err(ErrorKind::Zip)
    }
}

/// `result` is what `expected` asks for: the same list, or an error of the
/// same class.
pub open spec fn unpacks_as(
    result: Result<Vec<Unpacked>, InjectionError>,
    expected: Result<Seq<(EntryActionView, Seq<u8>)>, ErrorKind>,
) -> bool {
    match expected {
        Ok(list) => result matches Ok(got) && unpacked_views(got@) == list,
        Err(kind) => result matches Err(e) && e@.0 == kind,
    }
}

fn zip_failure(e: &zip::result::ZipError) -> (failure: InjectionError)
    ensures
        failure@.0 == ErrorKind::Zip,
{
    InjectionError::ZipError(zip_error_text(e))
}

fn read_failure(e: &std::io::Error) -> (failure: InjectionError)
    ensures
        failure@.0 == ErrorKind::Io,
{
    InjectionError::IoError(io_error_text(e))
}

/// Unpacks every entry of an archive, in order, as [`unpacking`] says of
/// what the bytes of the archive hold. An entry that cannot be opened ends
/// the unpacking with a `ZipError`, a file whose content cannot be read
/// with an `IoError`.
pub fn unpack_entries(archive: &mut zip::ZipArchive<std::io::Cursor<Vec<u8>>>) -> (result: Result<
    Vec<Unpacked>,
    InjectionError,
>)
    ensures
        archive_bytes(*final(archive)) == archive_bytes(*old(archive)),
        unpacks_as(
            result,
            unpacking(
                names_in(archive_bytes(*old(archive))),
                contents_in(archive_bytes(*old(archive))),
                names_in(archive_bytes(*old(archive))).len() as int,
            ),
        ),
{
    let n = archive_len(archive);
    let ghost names = names_in(archive_bytes(*archive));
    let ghost contents = contents_in(archive_bytes(*archive));
    let mut list: Vec<Unpacked> = Vec::new();
    let mut i: usize = 0;
    assert(unpacked_views(list@) =~= Seq::<(EntryActionView, Seq<u8>)>::empty());
    while i < n
        invariant
            i <= n,
            n == names.len(),
            n == contents.len(),
            archive_bytes(*archive) == archive_bytes(*old(archive)),
            names == names_in(archive_bytes(*old(archive))),
            contents == contents_in(archive_bytes(*old(archive))),
            unpacking(names, contents, i as int) == Ok::<_, ErrorKind>(unpacked_views(list@)),
        decreases n - i,
    {
        let ghost before = unpacked_views(list@);
        let (name, enclosed) = match entry_names(archive, i) {
            Ok(pair) => pair,
            Err(e) => {
                proof {
                    unpacking_stays_failed(names, contents, i + 1, n as int);
                }
                return Err(zip_failure(&e));
            },
        };
        let action = match &name {
            Some(n) => plan_entry(n.as_str(), enclosed),
            None => plan_entry("", enclosed),
        };
        proof {
            reveal_strlit("");
            assert(""@ =~= Seq::<char>::empty());
        }
        match action {
            EntryAction::Skip => {},
            EntryAction::MakeDir(path) => {
                list.push(Unpacked { action: EntryAction::MakeDir(path), contents: Vec::new() });
                assert(unpacked_views(list@) =~= before.push(
                    (EntryActionView::MakeDir(texts(path@)), Seq::empty()),
                ));
            },
            EntryAction::WriteFile(path) => {
                let bytes = match entry_contents(archive, i) {
                    Ok(Ok(c)) => c,
                    Ok(Err(e)) => {
                        proof {
                            unpacking_stays_failed(names, contents, i + 1, n as int);
                        }
                        return Err(read_failure(&e));
                    },
                    Err(e) => {
                        proof {
                            unpacking_stays_failed(names, contents, i + 1, n as int);
                        }
                        return Err(zip_failure(&e));
                    },
                };
                list.push(Unpacked { action: EntryAction::WriteFile(path), contents: bytes });
                assert(unpacked_views(list@) =~= before.push(
                    (EntryActionView::WriteFile(texts(path@)), bytes@),
                ));
            },
        }
        i += 1;
    }
    Ok(list)
}

proof fn unpacking_stays_failed(
    names: Seq<Option<EntryNames>>,
    contents: Seq<Option<Seq<u8>>>,
    failed: int,
    upto: int,
)
    requires
        failed <= upto,
        unpacking(names, contents, failed) is Err,
    ensures
        unpacking(names, contents, upto) == unpacking(names, contents, failed),
    decreases upto - failed,
{
    if failed < upto {
        unpacking_stays_failed(names, contents, failed, upto - 1);
    }
}

/// Unpacks the archive that the bytes hold, as [`unpacked`] says.
///
/// What comes back depends on the bytes alone: bytes that are no archive
/// fail with a `ZipError`; of an archive, every entry is unpacked in order,
/// those that would leave the destination passed over, and the first entry
/// that cannot be opened fails with a `ZipError`, the first file that cannot
/// be read with an `IoError`. Which bytes are an archive, and what its
/// entries hold, is for the archive reader to say.
pub fn unpack(bytes: Vec<u8>) -> (result: Result<Vec<Unpacked>, InjectionError>)
    ensures
        unpacks_as(result, unpacked(bytes@)),
        result matches Ok(list) ==> forall|i: int|
            0 <= i < list@.len() ==> !((#[trigger] list@[i]).action is Skip),
{
    let ghost held = bytes@;
    match open_archive(bytes) {
        Err(e) => Err(zip_failure(&e)),
        Ok(mut archive) => {
            let result = unpack_entries(&mut archive);
            proof {
                if result is Ok {
                    unpacking_skips_nothing(
                        names_in(held),
                        contents_in(held),
                        names_in(held).len() as int,
                    );
                    let list = result->Ok_0;
                    assert forall|i: int| 0 <= i < list@.len() implies !((
                    #[trigger] list@[i]).action is Skip) by {
                        assert(unpacked_views(list@)[i] == list@[i]@);
                    }
                }
            }
            result
        },
    }
}

proof fn unpacking_skips_nothing(
    names: Seq<Option<EntryNames>>,
    contents: Seq<Option<Seq<u8>>>,
    upto: int,
)
    ensures
        unpacking(names, contents, upto) matches Ok(list) ==> forall|i: int|
            0 <= i < list.len() ==> !((#[trigger] list[i]).0 is Skip),
    decreases upto,
{
    if upto > 0 {
        unpacking_skips_nothing(names, contents, upto - 1);
    }
}

/// Two readings of the same bytes unpack alike, however the bytes were
/// read from the disk: both succeed or both fail, with the same entries in
/// the same order or with an error of the same class.
pub proof fn same_bytes_unpack_alike(
    bytes: Seq<u8>,
    first: Result<Vec<Unpacked>, InjectionError>,
    second: Result<Vec<Unpacked>, InjectionError>,
)
    requires
        unpacks_as(first, unpacked(bytes)),
        unpacks_as(second, unpacked(bytes)),
    ensures
        first is Ok <==> second is Ok,
        first matches Ok(a) ==> second matches Ok(b) && unpacked_views(a@) == unpacked_views(b@),
        first matches Err(e) ==> second matches Err(f) && e@.0 == f@.0,
{
}

} // verus!
