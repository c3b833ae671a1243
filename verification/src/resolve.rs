//! Which archive serves a selection.
//!
//! The index is asked first. Where it has no answer, the search falls back
//! to the selection's hint and then to the names of the files under the
//! source root. The caller probes the disk and walks the tree; the functions
//! here decide on what it found.

use vstd::prelude::*;
use vstd::string::*;
use crate::error::{ErrorKind, InjectionError};
use crate::index::{hint_file_name, hint_name, is_archive, lookup, FileIndex, WalkItem};
use crate::text::{
    chars_of, decimal, decimal_string, has_number_token, has_word_token, token_is, token_writes,
};
use crate::types::{Skin, SkinView};

verus! {

/// How a scan of a listing ended.
#[derive(Debug)]
pub enum Scan {
    /// This path was found.
    Found(String),
    /// The listing broke off with this message before anything was found.
    Failed(String),
    /// The listing holds nothing that was looked for.
    Nothing,
}

/// The mathematical value of a [`Scan`].
pub enum ScanView {
    Found(Seq<char>),
    Failed(Seq<char>),
    Nothing,
}

impl View for Scan {
    type V = ScanView;

    open spec fn view(&self) -> ScanView {
        match self {
            Scan::Found(p) => ScanView::Found(p@),
            Scan::Failed(m) => ScanView::Failed(m@),
            Scan::Nothing => ScanView::Nothing,
        }
    }
}

/// The word that marks a chroma in a file name.
pub open spec fn chroma_mark() -> Seq<char> {
    "chroma"@
}

/// A file name is taken to name a skin when one of its tokens writes the
/// skin's number, and when it has the chroma mark and the chroma's number
/// among its tokens exactly when a chroma is asked for. Tokens are the
/// pieces between characters that are neither letters nor numbers.
pub open spec fn name_matches(file_name: Seq<char>, skin_id: u32, chroma_id: Option<u32>) -> bool {
    token_writes(file_name, skin_id, 0) && match chroma_id {
        Some(c) => token_is(file_name, chroma_mark(), 0) && token_writes(file_name, c, 0),
        None => !token_is(file_name, chroma_mark(), 0),
    }
}

/// `item` is a file with the name given.
pub open spec fn is_file_named(item: WalkItem, name: Seq<char>) -> bool {
    item matches WalkItem::Entry { path, file_name, extension, is_file } && is_file && file_name@
        == name
}

/// `item` is an archive whose name is taken to name the skin.
pub open spec fn serves_skin(item: WalkItem, skin_id: u32, chroma_id: Option<u32>) -> bool {
    is_archive(item) && name_matches(item->file_name@, skin_id, chroma_id)
}

/// The first file at or after `from` with the name given, unless the
/// listing breaks off before it.
pub open spec fn scan_by_name(items: Seq<WalkItem>, name: Seq<char>, from: int) -> ScanView
    decreases items.len() - from,
{
    if from < 0 || from >= items.len() {
        ScanView::Nothing
    } else if items[from] is Failed {
        ScanView::Failed(items[from]->Failed_0@)
    } else if is_file_named(items[from], name) {
        ScanView::Found(items[from]->path@)
    } else {
        scan_by_name(items, name, from + 1)
    }
}

/// The first archive at or after `from` whose name is taken to name the
/// skin, unless the listing breaks off before it.
pub open spec fn scan_by_skin(
    items: Seq<WalkItem>,
    skin_id: u32,
    chroma_id: Option<u32>,
    from: int,
) -> ScanView
    decreases items.len() - from,
{
    if from < 0 || from >= items.len() {
        ScanView::Nothing
    } else if items[from] is Failed {
        ScanView::Failed(items[from]->Failed_0@)
    } else if serves_skin(items[from], skin_id, chroma_id) {
        ScanView::Found(items[from]->path@)
    } else {
        scan_by_skin(items, skin_id, chroma_id, from + 1)
    }
}

/// Whether a file name is taken to name the skin.
pub fn file_name_matches(file_name: &str, skin_id: u32, chroma_id: Option<u32>) -> (matches: bool)
    ensures
        matches == name_matches(file_name@, skin_id, chroma_id),
{
    let name = chars_of(file_name);
    if !has_number_token(&name, skin_id) {
        return false;
    }
    let mark = chars_of("chroma");
    let marked = has_word_token(&name, &mark);
    match chroma_id {
        Some(c) => marked && has_number_token(&name, c),
        None => !marked,
    }
}

/// Looks through a listing for a file with the name given.
pub fn find_by_name(items: &Vec<WalkItem>, name: &String) -> (scan: Scan)
    ensures
        scan@ == scan_by_name(items@, name@, 0),
{
    let mut i: usize = 0;
    while i < items.len()
        invariant
            i <= items.len(),
            scan_by_name(items@, name@, 0) == scan_by_name(items@, name@, i as int),
        decreases items.len() - i,
    {
        match &items[i] {
            WalkItem::Failed(message) => {
                return Scan::Failed(message.clone());
            },
            WalkItem::Entry { path, file_name, extension, is_file } => {
                if *is_file && *file_name == *name {
                    return Scan::Found(path.clone());
                }
            },
        }
        i += 1;
    }
    Scan::Nothing
}

/// Looks through a listing for an archive whose name is taken to name the
/// skin.
pub fn find_by_skin(items: &Vec<WalkItem>, skin_id: u32, chroma_id: Option<u32>) -> (scan: Scan)
    ensures
        scan@ == scan_by_skin(items@, skin_id, chroma_id, 0),
{
    let wanted = String::from_str("fantome");
    let mut i: usize = 0;
    while i < items.len()
        invariant
            i <= items.len(),
            wanted@ == crate::index::archive_extension(),
            scan_by_skin(items@, skin_id, chroma_id, 0) == scan_by_skin(
                items@,
                skin_id,
                chroma_id,
                i as int,
            ),
        decreases items.len() - i,
    {
        match &items[i] {
            WalkItem::Failed(message) => {
                return Scan::Failed(message.clone());
            },
            WalkItem::Entry { path, file_name, extension, is_file } => {
                let is_archive = *is_file && match extension {
                    Some(e) => *e == wanted,
                    None => false,
                };
                if is_archive && file_name_matches(file_name.as_str(), skin_id, chroma_id) {
                    return Scan::Found(path.clone());
                }
            },
        }
        i += 1;
    }
    Scan::Nothing
}

/// What the caller found on the disk for one selection.
#[derive(Debug)]
pub struct Findings {
    /// The hint resolved against the source root, where that file exists.
    pub direct: Option<String>,
    /// The file that the hint names, under the directory of the champion,
    /// where that file exists.
    pub champion_file: Option<String>,
    /// The entries of the directory of the champion, where it exists.
    pub champion_dir: Option<Vec<WalkItem>>,
    /// The walk through the source root.
    pub walk: Vec<WalkItem>,
}

/// An optional text as a mathematical value.
pub open spec fn text_of(text: Option<String>) -> Option<Seq<char>> {
    match text {
        Some(t) => Some(t@),
        None => None,
    }
}

/// The search by the selection's hint: the hinted file itself, then the
/// file of that name under the champion's directory, then the first file of
/// that name in the walk.
pub open spec fn search_by_hint(skin: SkinView, found: Findings) -> ScanView {
    match skin.hint {
        None => ScanView::Nothing,
        Some(hint) => if found.direct is Some {
            ScanView::Found(found.direct->0@)
        } else if found.champion_file is Some {
            ScanView::Found(found.champion_file->0@)
        } else {
            scan_by_name(found.walk@, hint_file_name(hint), 0)
        },
    }
}

/// The search by the skin's number: the champion's directory first, then the
/// whole walk.
pub open spec fn search_by_skin(skin: SkinView, found: Findings) -> Result<
    Option<Seq<char>>,
    (ErrorKind, Seq<char>),
> {
    let in_champion = match found.champion_dir {
        Some(entries) => scan_by_skin(entries@, skin.skin_id, skin.chroma_id, 0),
        None => ScanView::Nothing,
    };
    match in_champion {
        ScanView::Found(p) => Ok(Some(p)),
        ScanView::Failed(m) => Err((ErrorKind::Io, m)),
        ScanView::Nothing => match scan_by_skin(found.walk@, skin.skin_id, skin.chroma_id, 0) {
            ScanView::Found(p) => Ok(Some(p)),
            ScanView::Failed(m) => Err((ErrorKind::Walkdir, m)),
            ScanView::Nothing => Ok(None),
        },
    }
}

/// The slow search: by the hint, then by the skin's number. A listing that
/// breaks off before a match ends the search with an error.
pub open spec fn fallback(skin: SkinView, found: Findings) -> Result<
    Option<Seq<char>>,
    (ErrorKind, Seq<char>),
> {
    match search_by_hint(skin, found) {
        ScanView::Found(p) => Ok(Some(p)),
        ScanView::Failed(m) => Err((ErrorKind::Walkdir, m)),
        ScanView::Nothing => search_by_skin(skin, found),
    }
}

/// The value of a search result.
pub open spec fn outcome_of(r: Result<Option<String>, InjectionError>) -> Result<
    Option<Seq<char>>,
    (ErrorKind, Seq<char>),
> {
    match r {
        Ok(Some(p)) => Ok(Some(p@)),
        Ok(None) => Ok(None),
        Err(e) => Err(e@),
    }
}

/// Searches for the archive of a selection without the index, as
/// [`fallback`] says.
pub fn find_fantome_fallback(skin: &Skin, found: &Findings) -> (r: Result<
    Option<String>,
    InjectionError,
>)
    ensures
        outcome_of(r) == fallback(skin@, *found),
{
    match &skin.fantome_path {
        None => {},
        Some(hint) => {
            match &found.direct {
                Some(p) => {
                    return Ok(Some(p.clone()));
                },
                None => {},
            }
            match &found.champion_file {
                Some(p) => {
                    return Ok(Some(p.clone()));
                },
                None => {},
            }
            let name = hint_name(hint.as_str());
            match find_by_name(&found.walk, &name) {
                Scan::Found(p) => {
                    return Ok(Some(p));
                },
                Scan::Failed(m) => {
                    return Err(InjectionError::WalkdirError(m));
                },
                Scan::Nothing => {},
            }
        },
    }
    match &found.champion_dir {
        Some(entries) => match find_by_skin(entries, skin.skin_id, skin.chroma_id) {
            Scan::Found(p) => {
                return Ok(Some(p));
            },
            Scan::Failed(m) => {
                return Err(InjectionError::IoError(m));
            },
            Scan::Nothing => {},
        },
        None => {},
    }
    match find_by_skin(&found.walk, skin.skin_id, skin.chroma_id) {
        Scan::Found(p) => Ok(Some(p)),
        Scan::Failed(m) => Err(InjectionError::WalkdirError(m)),
        Scan::Nothing => Ok(None),
    }
}

/// How an optional chroma is written in a message.
pub open spec fn chroma_text(chroma_id: Option<u32>) -> Seq<char> {
    match chroma_id {
        Some(c) => "Some("@ + decimal(c as nat) + ")"@,
        None => "None"@,
    }
}

/// The text of the error for a selection that no archive serves.
pub open spec fn missing_text(skin: SkinView) -> Seq<char> {
    "No fantome file found for skin: champion_id="@ + decimal(skin.champion_id as nat)
        + ", skin_id="@ + decimal(skin.skin_id as nat) + ", chroma_id="@ + chroma_text(
        skin.chroma_id,
    )
}

/// The error for a selection that no archive serves.
pub fn missing_archive(skin: &Skin) -> (e: InjectionError)
    ensures
        e@ == (ErrorKind::MissingFantomeFile, missing_text(skin@)),
{
    let chroma = match skin.chroma_id {
        Some(c) => String::from_str("Some(").concat(decimal_string(c).as_str()).concat(")"),
        None => String::from_str("None"),
    };
    let text = String::from_str("No fantome file found for skin: champion_id=").concat(
        decimal_string(skin.champion_id).as_str(),
    ).concat(", skin_id=").concat(decimal_string(skin.skin_id).as_str()).concat(
        ", chroma_id=",
    ).concat(chroma.as_str());
    InjectionError::MissingFantomeFile(text)
}

/// The archive for a selection: what the index answers, else what the slow
/// search finds. A selection that neither serves is an error of the class
/// `MissingFantomeFile`.
pub open spec fn resolution(index: FileIndex, skin: SkinView, found: Findings) -> Result<
    Seq<char>,
    (ErrorKind, Seq<char>),
> {
    match lookup(index.archive_views(), skin, text_of(found.direct)) {
        Some(p) => Ok(p),
        None => match fallback(skin, found) {
            Ok(Some(p)) => Ok(p),
            Ok(None) => Err((ErrorKind::MissingFantomeFile, missing_text(skin))),
            Err(e) => Err(e),
        },
    }
}

/// Resolves the archive of a selection, as [`resolution`] says.
pub fn resolve_archive(index: &FileIndex, skin: &Skin, found: &Findings) -> (r: Result<
    String,
    InjectionError,
>)
    ensures
        match resolution(*index, skin@, *found) {
            Ok(p) => r matches Ok(q) && q@ == p,
            Err(e) => r matches Err(f) && f@ == e,
        },
{
    let direct = match &found.direct {
        Some(p) => Some(p.clone()),
        None => None,
    };
    match index.find_fantome_for_skin(skin, direct) {
        Some(p) => Ok(p),
        None => match find_fantome_fallback(skin, found) {
            Ok(Some(p)) => Ok(p),
            Ok(None) => Err(missing_archive(skin)),
            Err(e) => Err(e),
        },
    }
}

proof fn nothing_by_name(items: Seq<WalkItem>, name: Seq<char>, from: int)
    requires
        forall|i: int| 0 <= i < items.len() ==> !(#[trigger] items[i] is Failed) && !is_file_named(
            items[i],
            name,
        ),
    ensures
        scan_by_name(items, name, from) == ScanView::Nothing,
    decreases items.len() - from,
{
    if 0 <= from < items.len() {
        assert(!(items[from] is Failed));
        nothing_by_name(items, name, from + 1);
    }
}

proof fn nothing_by_skin(items: Seq<WalkItem>, skin_id: u32, chroma_id: Option<u32>, from: int)
    requires
        forall|i: int| 0 <= i < items.len() ==> !(#[trigger] items[i] is Failed) && !serves_skin(
            items[i],
            skin_id,
            chroma_id,
        ),
    ensures
        scan_by_skin(items, skin_id, chroma_id, from) == ScanView::Nothing,
    decreases items.len() - from,
{
    if 0 <= from < items.len() {
        assert(!(items[from] is Failed));
        nothing_by_skin(items, skin_id, chroma_id, from + 1);
    }
}

/// A selection that nothing serves is missing: where the index has no
/// answer, the hinted file is nowhere, the listings are whole, and no file
/// under the source root or in the champion's directory has the hint's name
/// or is an archive that names the skin, the resolution is the error of the
/// class `MissingFantomeFile`.
pub proof fn unserved_selection_is_missing(index: FileIndex, skin: SkinView, found: Findings)
    requires
        lookup(index.archive_views(), skin, None) is None,
        found.direct is None,
        found.champion_file is None,
        found.champion_dir matches Some(entries) ==> forall|i: int|
            0 <= i < entries@.len() ==> !(#[trigger] entries@[i] is Failed) && !serves_skin(
                entries@[i],
                skin.skin_id,
                skin.chroma_id,
            ),
        forall|i: int|
            0 <= i < found.walk@.len() ==> !(#[trigger] found.walk@[i] is Failed) && !serves_skin(
                found.walk@[i],
                skin.skin_id,
                skin.chroma_id,
            ),
        skin.hint matches Some(hint) ==> forall|i: int|
            0 <= i < found.walk@.len() ==> !is_file_named(
                #[trigger] found.walk@[i],
                hint_file_name(hint),
            ),
    ensures
        resolution(index, skin, found) == Err::<Seq<char>, (ErrorKind, Seq<char>)>(
            (ErrorKind::MissingFantomeFile, missing_text(skin)),
        ),
{
    nothing_by_skin(found.walk@, skin.skin_id, skin.chroma_id, 0);
    if found.champion_dir is Some {
        nothing_by_skin(found.champion_dir->0@, skin.skin_id, skin.chroma_id, 0);
    }
    if skin.hint is Some {
        nothing_by_name(found.walk@, hint_file_name(skin.hint->0), 0);
    }
}

} // verus!
