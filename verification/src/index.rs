//! The file index: which champions are known and which archives were found,
//! kept between injections so that the directory tree is not walked each
//! time.
//!
//! The index is built from listings that the caller reads from the disk. A
//! build either succeeds and replaces what the index held, or fails and
//! leaves it as it was.

use std::collections::HashMap;
use vstd::prelude::*;
use vstd::string::*;
use crate::error::{ErrorKind, InjectionError};
use crate::text::{chars_of, first_id, first_id_from, parse_unsigned, trimmed, unsigned_of};
use crate::types::{Skin, SkinView};

verus! {

broadcast use vstd::std_specs::hash::group_hash_axioms;

/// After how many seconds an index is rebuilt.
pub const STALE_AFTER_SECS: u64 = 300;

/// One archive found under the source root.
#[derive(Debug)]
pub struct Archive {
    pub path: String,
    pub file_name: String,
    /// The champion that the file name is taken to name.
    pub champion_id: Option<u32>,
    pub chroma_id: Option<u32>,
    /// When it was found, in seconds.
    pub found_at: u64,
}

/// The mathematical value of an [`Archive`].
pub struct ArchiveView {
    pub path: Seq<char>,
    pub file_name: Seq<char>,
    pub champion_id: Option<u32>,
    pub chroma_id: Option<u32>,
    pub found_at: u64,
}

impl View for Archive {
    type V = ArchiveView;

    open spec fn view(&self) -> ArchiveView {
        ArchiveView {
            path: self.path@,
            file_name: self.file_name@,
            champion_id: self.champion_id,
            chroma_id: self.chroma_id,
            found_at: self.found_at,
        }
    }
}

/// One item of a walk through a directory tree, in the order of the walk.
#[derive(Debug)]
pub enum WalkItem {
    /// A file or a directory.
    Entry { path: String, file_name: String, extension: Option<String>, is_file: bool },
    /// The walk failed here, with this message.
    Failed(String),
}

/// One subdirectory of the champions directory: its name, and the content of
/// its identifier file where it has one that can be read.
#[derive(Debug)]
pub struct ChampionDir {
    pub name: String,
    pub marker: Option<String>,
}

/// The index.
#[derive(Debug)]
pub struct FileIndex {
    /// The name of each champion, by identifier.
    pub champion_names: HashMap<u32, String>,
    /// The identifier of each champion, by name. A later entry for a name
    /// replaces an earlier one.
    pub champion_ids: Vec<(String, u32)>,
    /// The archives, in the order in which they were found.
    pub archives: Vec<Archive>,
    /// When the archives were last indexed, in seconds.
    pub last_indexed: Option<u64>,
}

/// The extension of an archive.
pub open spec fn archive_extension() -> Seq<char> {
    "fantome"@
}

/// `item` is a file with the archive extension.
pub open spec fn is_archive(item: WalkItem) -> bool {
    item matches WalkItem::Entry { path, file_name, extension, is_file } && is_file && (
    extension matches Some(e) && e@ == archive_extension())
}

/// The record that the index keeps of an archive found at `now`. The first
/// positive number among the tokens of its file name is taken for the
/// champion; no chroma is ever read from a name.
pub open spec fn record_of(item: WalkItem, now: u64) -> ArchiveView {
    ArchiveView {
        path: item->path@,
        file_name: item->file_name@,
        champion_id: first_id_from(item->file_name@, 0),
        chroma_id: None,
        found_at: now,
    }
}

/// The records of the archives among the first `upto` items of a walk.
pub open spec fn records(items: Seq<WalkItem>, upto: int, now: u64) -> Seq<ArchiveView>
    decreases upto,
{
    if upto <= 0 {
        Seq::empty()
    } else if is_archive(items[upto - 1]) {
        records(items, upto - 1, now).push(record_of(items[upto - 1], now))
    } else {
        records(items, upto - 1, now)
    }
}

/// The position of the first failure of a walk at or after `from`.
pub open spec fn first_failure(items: Seq<WalkItem>, from: int) -> Option<int>
    decreases items.len() - from,
{
    if from < 0 || from >= items.len() {
        None
    } else if items[from] is Failed {
        Some(from)
    } else {
        first_failure(items, from + 1)
    }
}

/// The path of the first archive at or after `from` that was recorded for
/// the champion and chroma given.
pub open spec fn first_path(
    archives: Seq<ArchiveView>,
    champion_id: u32,
    chroma_id: Option<u32>,
    from: int,
) -> Option<Seq<char>>
    decreases archives.len() - from,
{
    if from < 0 || from >= archives.len() {
        None
    } else if archives[from].champion_id == Some(champion_id) && archives[from].chroma_id
        == chroma_id {
        Some(archives[from].path)
    } else {
        first_path(archives, champion_id, chroma_id, from + 1)
    }
}

/// The path of the last archive before `upto` with the file name given.
pub open spec fn path_by_name(archives: Seq<ArchiveView>, file_name: Seq<char>, upto: int)
    -> Option<Seq<char>>
    decreases upto,
{
    if upto <= 0 || upto > archives.len() {
        None
    } else if archives[upto - 1].file_name == file_name {
        Some(archives[upto - 1].path)
    } else {
        path_by_name(archives, file_name, upto - 1)
    }
}

/// Where the last piece of `hint` starts: behind its last `/`, or at zero.
pub open spec fn last_piece_start(hint: Seq<char>, upto: int) -> int
    decreases upto,
{
    if upto <= 0 || upto > hint.len() {
        0
    } else if hint[upto - 1] == '/' {
        upto
    } else {
        last_piece_start(hint, upto - 1)
    }
}

/// The file name that a hint ends in: what follows its last `/`.
pub open spec fn hint_file_name(hint: Seq<char>) -> Seq<char> {
    hint.subrange(last_piece_start(hint, hint.len() as int), hint.len() as int)
}

/// What the index answers for a selection. `direct` is the hint resolved
/// against the source root, where that file exists.
///
/// The archives recorded for the champion and chroma come first. Then, for a
/// selection with a hint, the hinted file itself, and then the archive that
/// has the hint's file name.
pub open spec fn lookup(archives: Seq<ArchiveView>, skin: SkinView, direct: Option<Seq<char>>)
    -> Option<Seq<char>> {
    let indexed = first_path(archives, skin.champion_id, skin.chroma_id, 0);
    if indexed is Some {
        indexed
    } else {
        match skin.hint {
            None => None,
            Some(hint) => if direct is Some {
                direct
            } else {
                path_by_name(archives, hint_file_name(hint), archives.len() as int)
            },
        }
    }
}

/// Whether an index last built at `last` is stale at `now`: it was never
/// built, or more than five minutes have passed.
pub open spec fn stale(last: Option<u64>, now: u64) -> bool {
    match last {
        None => true,
        Some(t) => now > t && now - t > STALE_AFTER_SECS,
    }
}

/// The champion that a directory is marked for: the number that its
/// identifier file holds, if it has such a file and the file holds one.
pub open spec fn champion_of(dir: ChampionDir) -> Option<u32> {
    match dir.marker {
        Some(m) => unsigned_of(trimmed(m@, 0, m@.len() as int)),
        None => None,
    }
}

/// The champion names after the first `upto` directories of a listing were
/// indexed on top of `names`. Directories without a champion are skipped.
pub open spec fn names_after(names: Map<u32, Seq<char>>, dirs: Seq<ChampionDir>, upto: int) -> Map<
    u32,
    Seq<char>,
>
    decreases upto,
{
    if upto <= 0 {
        names
    } else {
        match champion_of(dirs[upto - 1]) {
            Some(id) => names_after(names, dirs, upto - 1).insert(id, dirs[upto - 1].name@),
            None => names_after(names, dirs, upto - 1),
        }
    }
}

/// The champion identifiers by name after the first `upto` directories of a
/// listing were indexed on top of `ids`.
pub open spec fn ids_after(ids: Seq<(Seq<char>, u32)>, dirs: Seq<ChampionDir>, upto: int) -> Seq<
    (Seq<char>, u32),
>
    decreases upto,
{
    if upto <= 0 {
        ids
    } else {
        match champion_of(dirs[upto - 1]) {
            Some(id) => ids_after(ids, dirs, upto - 1).push((dirs[upto - 1].name@, id)),
            None => ids_after(ids, dirs, upto - 1),
        }
    }
}

/// The identifier recorded last for a champion name among the first `upto`
/// entries.
pub open spec fn id_by_name(ids: Seq<(Seq<char>, u32)>, name: Seq<char>, upto: int) -> Option<u32>
    decreases upto,
{
    if upto <= 0 || upto > ids.len() {
        None
    } else if ids[upto - 1].0 == name {
        Some(ids[upto - 1].1)
    } else {
        id_by_name(ids, name, upto - 1)
    }
}

/// The file name that a hint ends in.
pub fn hint_name(hint: &str) -> (name: String)
    ensures
        name@ == hint_file_name(hint@),
{
    let n = hint.unicode_len();
    let mut start: usize = n;
    while start > 0 && hint.get_char(start - 1) != '/'
        invariant
            n == hint@.len(),
            start <= n,
            last_piece_start(hint@, n as int) == last_piece_start(hint@, start as int),
        decreases start,
    {
        start -= 1;
    }
    String::from_str(hint.substring_char(start, n))
}

impl FileIndex {
    /// The views of the archives, in order.
    pub open spec fn archive_views(&self) -> Seq<ArchiveView> {
        Seq::new(self.archives@.len(), |i: int| self.archives@[i]@)
    }

    /// The champion names by identifier.
    pub open spec fn names(&self) -> Map<u32, Seq<char>> {
        Map::new(
            |id: u32| self.champion_names@.contains_key(id),
            |id: u32| self.champion_names@[id]@,
        )
    }

    /// An empty index, never built.
    pub fn new() -> (index: FileIndex)
        ensures
            index.archive_views() == Seq::<ArchiveView>::empty(),
            index.names() == Map::<u32, Seq<char>>::empty(),
            index.champion_ids@.len() == 0,
            index.last_indexed is None,
    {
        let index = FileIndex {
            champion_names: HashMap::new(),
            champion_ids: Vec::new(),
            archives: Vec::new(),
            last_indexed: None,
        };
        assert(index.archive_views() =~= Seq::<ArchiveView>::empty());
        assert(index.names() =~= Map::<u32, Seq<char>>::empty());
        index
    }

    /// The champion identifiers by name, in the order in which they were
    /// recorded.
    pub open spec fn id_views(&self) -> Seq<(Seq<char>, u32)> {
        Seq::new(
            self.champion_ids@.len(),
            |i: int| (self.champion_ids@[i].0@, self.champion_ids@[i].1),
        )
    }

    /// Indexes the champions of a listing of the champions directory on top
    /// of what the index holds. `listing` is `None` where the directory does
    /// not exist: that is an I/O error, and the index stays as it was.
    pub fn index_champions(
        &mut self,
        champions_dir: &str,
        listing: Option<&Vec<ChampionDir>>,
    ) -> (done: Result<(), InjectionError>)
        ensures
            final(self).archives == old(self).archives,
            final(self).last_indexed == old(self).last_indexed,
            match listing {
                None => done matches Err(e) && e@ == (
                    ErrorKind::Io,
                    "Champions directory not found: "@ + champions_dir@,
                ) && final(self).names() == old(self).names() && final(self).id_views() == old(
                    self,
                ).id_views(),
                Some(dirs) => done is Ok && final(self).names() == names_after(
                    old(self).names(),
                    dirs@,
                    dirs@.len() as int,
                ) && final(self).id_views() == ids_after(
                    old(self).id_views(),
                    dirs@,
                    dirs@.len() as int,
                ),
            },
    {
        let dirs = match listing {
            None => {
                return Err(
                    InjectionError::IoError(
                        String::from_str("Champions directory not found: ").concat(champions_dir),
                    ),
                );
            },
            Some(dirs) => dirs,
        };
        let mut i: usize = 0;
        while i < dirs.len()
            invariant
                i <= dirs.len(),
                self.archives == old(self).archives,
                self.last_indexed == old(self).last_indexed,
                self.names() == names_after(old(self).names(), dirs@, i as int),
                self.id_views() == ids_after(old(self).id_views(), dirs@, i as int),
            decreases dirs.len() - i,
        {
            let dir = &dirs[i];
            let champion = match &dir.marker {
                Some(m) => parse_unsigned(m.as_str()),
                None => None,
            };
            match champion {
                Some(id) => {
                    let ghost names_before = self.names();
                    let ghost ids_before = self.id_views();
                    self.champion_names.insert(id, dir.name.clone());
                    self.champion_ids.push((dir.name.clone(), id));
                    assert(self.names() =~= names_before.insert(id, dir.name@));
                    assert(self.id_views() =~= ids_before.push((dir.name@, id)));
                },
                None => {},
            }
            i += 1;
        }
        Ok(())
    }

    /// Indexes the archives of a walk through the source root, found at
    /// `now`. `walk` is `None` where the root does not exist.
    ///
    /// Where the root exists and the walk holds no failure, the archives of
    /// the walk replace those that the index held. Otherwise the first
    /// failure is returned and the index stays as it was.
    pub fn index_fantome_files(
        &mut self,
        base_dir: &str,
        walk: Option<&Vec<WalkItem>>,
        now: u64,
    ) -> (done: Result<(), InjectionError>)
        ensures
            final(self).champion_names == old(self).champion_names,
            final(self).champion_ids == old(self).champion_ids,
            match walk {
                None => done matches Err(e) && e@ == (
                    ErrorKind::Io,
                    "Base directory not found: "@ + base_dir@,
                ) && *final(self) == *old(self),
                Some(items) => match first_failure(items@, 0) {
                    Some(at) => done matches Err(e) && e@ == (
                        ErrorKind::Walkdir,
                        items@[at]->Failed_0@,
                    ) && *final(self) == *old(self),
                    None => done is Ok && final(self).archive_views() == records(
                        items@,
                        items@.len() as int,
                        now,
                    ) && final(self).last_indexed == Some(now),
                },
            },
    {
        let items = match walk {
            None => {
                return Err(
                    InjectionError::IoError(
                        String::from_str("Base directory not found: ").concat(base_dir),
                    ),
                );
            },
            Some(items) => items,
        };
        let wanted = String::from_str("fantome");
        let mut fresh: Vec<Archive> = Vec::new();
        let mut i: usize = 0;
        while i < items.len()
            invariant
                i <= items.len(),
                walk == Some(items),
                *self == *old(self),
                wanted@ == archive_extension(),
                first_failure(items@, 0) == first_failure(items@, i as int),
                Seq::new(fresh@.len(), |k: int| fresh@[k]@) == records(items@, i as int, now),
            decreases items.len() - i,
        {
            let ghost before = Seq::new(fresh@.len(), |k: int| fresh@[k]@);
            match &items[i] {
                WalkItem::Failed(message) => {
                    return Err(InjectionError::WalkdirError(message.clone()));
                },
                WalkItem::Entry { path, file_name, extension, is_file } => {
                    let is_archive = *is_file && match extension {
                        Some(e) => *e == wanted,
                        None => false,
                    };
                    if is_archive {
                        let name_chars = chars_of(file_name.as_str());
                        let archive = Archive {
                            path: path.clone(),
                            file_name: file_name.clone(),
                            champion_id: first_id(&name_chars),
                            chroma_id: None,
                            found_at: now,
                        };
                        fresh.push(archive);
                        assert(Seq::new(fresh@.len(), |k: int| fresh@[k]@) =~= before.push(
                            record_of(items@[i as int], now),
                        ));
                    }
                },
            }
            i += 1;
        }
        self.archives = fresh;
        self.last_indexed = Some(now);
        assert(self.archive_views() =~= records(items@, items@.len() as int, now));
        Ok(())
    }

    /// The identifier of the champion with the name given; the one recorded
    /// last where several were.
    pub fn get_champion_id(&self, name: &String) -> (id: Option<u32>)
        ensures
            id == id_by_name(self.id_views(), name@, self.champion_ids@.len() as int),
    {
        let ghost views = self.id_views();
        let mut upto: usize = self.champion_ids.len();
        while upto > 0
            invariant
                upto <= self.champion_ids.len(),
                views == self.id_views(),
                id_by_name(views, name@, self.champion_ids@.len() as int) == id_by_name(
                    views,
                    name@,
                    upto as int,
                ),
            decreases upto,
        {
            let entry = &self.champion_ids[upto - 1];
            assert(views[upto - 1] == (entry.0@, entry.1));
            if entry.0 == *name {
                return Some(entry.1);
            }
            upto -= 1;
        }
        None
    }

    /// The archive for a selection, as [`lookup`] says. `direct` is the
    /// selection's hint resolved against the source root, where that file
    /// exists. `None` sends the caller to the slower search.
    pub fn find_fantome_for_skin(&self, skin: &Skin, direct: Option<String>) -> (found: Option<
        String,
    >)
        ensures
            match lookup(
                self.archive_views(),
                skin@,
                match direct {
                    Some(p) => Some(p@),
                    None => None,
                },
            ) {
                Some(path) => found matches Some(p) && p@ == path,
                None => found is None,
            },
    {
        let ghost views = self.archive_views();
        let mut i: usize = 0;
        while i < self.archives.len()
            invariant
                i <= self.archives.len(),
                views == self.archive_views(),
                first_path(views, skin.champion_id, skin.chroma_id, 0) == first_path(
                    views,
                    skin.champion_id,
                    skin.chroma_id,
                    i as int,
                ),
            decreases self.archives.len() - i,
        {
            let archive = &self.archives[i];
            assert(views[i as int] == archive@);
            let champion_matches = match archive.champion_id {
                Some(id) => id == skin.champion_id,
                None => false,
            };
            let chroma_matches = match (archive.chroma_id, skin.chroma_id) {
                (Some(a), Some(b)) => a == b,
                (None, None) => true,
                _ => false,
            };
            if champion_matches && chroma_matches {
                return Some(archive.path.clone());
            }
            i += 1;
        }
        match &skin.fantome_path {
            None => None,
            Some(hint) => match direct {
                Some(p) => Some(p),
                None => {
                    let name = hint_name(hint.as_str());
                    self.archive_named(&name)
                },
            },
        }
    }

    /// The path of the archive with the file name given; the one found last
    /// where several have it.
    pub fn archive_named(&self, file_name: &String) -> (found: Option<String>)
        ensures
            match path_by_name(self.archive_views(), file_name@, self.archives@.len() as int) {
                Some(path) => found matches Some(p) && p@ == path,
                None => found is None,
            },
    {
        let ghost views = self.archive_views();
        let mut upto: usize = self.archives.len();
        while upto > 0
            invariant
                upto <= self.archives.len(),
                views == self.archive_views(),
                path_by_name(views, file_name@, self.archives@.len() as int) == path_by_name(
                    views,
                    file_name@,
                    upto as int,
                ),
            decreases upto,
        {
            let archive = &self.archives[upto - 1];
            assert(views[upto - 1] == archive@);
            if archive.file_name == *file_name {
                return Some(archive.path.clone());
            }
            upto -= 1;
        }
        None
    }

    /// The name of a champion, if the index knows it.
    pub fn get_champion_name(&self, champion_id: u32) -> (name: Option<String>)
        ensures
            match name {
                Some(n) => self.names().contains_key(champion_id) && n@ == self.names()[
                    champion_id
                ],
                None => !self.names().contains_key(champion_id),
            },
    {
        match self.champion_names.get(&champion_id) {
            Some(n) => Some(n.clone()),
            None => None,
        }
    }

    /// Whether the index is to be built before it is used at `now`: it
    /// knows no champion, or it is stale.
    pub fn needs_build(&self, now: u64) -> (build: bool)
        ensures
            build == (self.names() =~= Map::<u32, Seq<char>>::empty() || stale(
                self.last_indexed,
                now,
            )),
    {
        assert(self.champion_names@.len() == 0 <==> self.names() =~= Map::<
            u32,
            Seq<char>,
        >::empty()) by {
            if self.champion_names@.len() == 0 {
                assert(self.champion_names@ =~= Map::<u32, String>::empty());
            } else {
                let k = choose|k: u32| self.champion_names@.contains_key(k);
                assert(self.names().contains_key(k));
            }
        }
        self.champion_names.is_empty() || self.needs_refresh(now)
    }

    /// Whether the index is to be rebuilt at `now`, in seconds on the clock
    /// on which it was built.
    pub fn needs_refresh(&self, now: u64) -> (refresh: bool)
        ensures
            refresh == stale(self.last_indexed, now),
    {
        match self.last_indexed {
            Some(t) => now > t && now - t > STALE_AFTER_SECS,
            None => true,
        }
    }
}

impl Default for FileIndex {
    /// An empty index, never built.
    fn default() -> (index: FileIndex)
        ensures
            index.archive_views() == Seq::<ArchiveView>::empty(),
            index.names() == Map::<u32, Seq<char>>::empty(),
            index.champion_ids@.len() == 0,
            index.last_indexed is None,
    {
        FileIndex::new()
    }
}

/// The champion and skin that a file name is taken to name: the first
/// positive number among its tokens, and zero for the skin, which no name
/// is read for.
pub fn extract_skin_info_from_path(file_name: &str) -> (info: Option<(u32, u32)>)
    ensures
        info == match first_id_from(file_name@, 0) {
            Some(id) => Some((id, 0u32)),
            None => None,
        },
{
    let chars = chars_of(file_name);
    match first_id(&chars) {
        Some(id) => Some((id, 0)),
        None => None,
    }
}

proof fn records_agree(items: Seq<WalkItem>, upto: int, first: u64, second: u64)
    requires
        upto <= items.len(),
    ensures
        records(items, upto, first).len() == records(items, upto, second).len(),
        forall|k: int|
            0 <= k < records(items, upto, first).len() ==> same_archive(
                #[trigger] records(items, upto, first)[k],
                records(items, upto, second)[k],
            ),
    decreases upto,
{
    if upto > 0 {
        records_agree(items, upto - 1, first, second);
    }
}

/// Two records name the same archive: they differ at most in the time at
/// which it was found.
pub open spec fn same_archive(a: ArchiveView, b: ArchiveView) -> bool {
    a.path == b.path && a.file_name == b.file_name && a.champion_id == b.champion_id && a.chroma_id
        == b.chroma_id
}

proof fn first_path_agrees(
    a: Seq<ArchiveView>,
    b: Seq<ArchiveView>,
    champion_id: u32,
    chroma_id: Option<u32>,
    from: int,
)
    requires
        a.len() == b.len(),
        forall|k: int| 0 <= k < a.len() ==> same_archive(#[trigger] a[k], b[k]),
    ensures
        first_path(a, champion_id, chroma_id, from) == first_path(b, champion_id, chroma_id, from),
    decreases a.len() - from,
{
    if 0 <= from < a.len() {
        assert(same_archive(a[from], b[from]));
        first_path_agrees(a, b, champion_id, chroma_id, from + 1);
    }
}

proof fn path_by_name_agrees(a: Seq<ArchiveView>, b: Seq<ArchiveView>, name: Seq<char>, upto: int)
    requires
        a.len() == b.len(),
        forall|k: int| 0 <= k < a.len() ==> same_archive(#[trigger] a[k], b[k]),
    ensures
        path_by_name(a, name, upto) == path_by_name(b, name, upto),
    decreases upto,
{
    if 0 < upto <= a.len() {
        assert(same_archive(a[upto - 1], b[upto - 1]));
        path_by_name_agrees(a, b, name, upto - 1);
    }
}

/// An index built twice from the same walk answers every lookup alike,
/// whenever the two builds were made.
pub proof fn rebuild_answers_alike(
    items: Seq<WalkItem>,
    first: u64,
    second: u64,
    skin: SkinView,
    direct: Option<Seq<char>>,
)
    ensures
        lookup(records(items, items.len() as int, first), skin, direct) == lookup(
            records(items, items.len() as int, second),
            skin,
            direct,
        ),
{
    let a = records(items, items.len() as int, first);
    let b = records(items, items.len() as int, second);
    records_agree(items, items.len() as int, first, second);
    first_path_agrees(a, b, skin.champion_id, skin.chroma_id, 0);
    if skin.hint is Some {
        path_by_name_agrees(a, b, hint_file_name(skin.hint->0), a.len() as int);
    }
}

} // verus!
