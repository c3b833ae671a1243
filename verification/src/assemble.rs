//! From an archive to a mod directory.
//!
//! An archive is unpacked into a scratch directory, entry by entry, and the
//! content of the scratch directory is then brought into the shape that the
//! overlay tool expects: a descriptor under `META` and the payload under
//! `WAD`. The functions here decide what is written where; the caller
//! writes.

use vstd::prelude::*;
use vstd::string::*;
use crate::error::{ErrorKind, InjectionError};
use crate::text::{chars_of, ends_with, has_suffix, texts};

verus! {

/// Archives larger than this many bytes are mapped into memory before they
/// are read.
pub const MAP_THRESHOLD: u64 = 1_048_576;

/// How an archive is read.
#[derive(Debug, Clone, Copy, PartialEq, Eq, Structural)]
pub enum ReadStrategy {
    /// The file is mapped into memory, read-only.
    Mapped,
    /// The file is read through a buffer.
    Streamed,
}

/// The strategy for an archive of `size` bytes; `None` where the size is
/// not known.
pub open spec fn strategy_for(size: Option<u64>) -> ReadStrategy {
    match size {
        Some(n) => if n > MAP_THRESHOLD {
            ReadStrategy::Mapped
        } else {
            ReadStrategy::Streamed
        },
        None => ReadStrategy::Streamed,
    }
}

/// Chooses how an archive is read, by its size.
pub fn choose_strategy(size: Option<u64>) -> (strategy: ReadStrategy)
    ensures
        strategy == strategy_for(size),
{
    match size {
        Some(n) => if n > MAP_THRESHOLD {
            ReadStrategy::Mapped
        } else {
            ReadStrategy::Streamed
        },
        None => ReadStrategy::Streamed,
    }
}

/// What is done with one entry of an archive.
#[derive(Debug)]
pub enum EntryAction {
    /// The entry's path would leave the destination: it is passed over.
    Skip,
    /// A directory is made at this path under the destination. The path
    /// is given by its pieces.
    MakeDir(Vec<String>),
    /// The entry's content is written to this path under the destination,
    /// its parent directories made first.
    WriteFile(Vec<String>),
}

/// The mathematical value of an [`EntryAction`].
pub enum EntryActionView {
    Skip,
    MakeDir(Seq<Seq<char>>),
    WriteFile(Seq<Seq<char>>),
}

impl View for EntryAction {
    type V = EntryActionView;

    open spec fn view(&self) -> EntryActionView {
        match self {
            EntryAction::Skip => EntryActionView::Skip,
            EntryAction::MakeDir(p) => EntryActionView::MakeDir(texts(p@)),
            EntryAction::WriteFile(p) => EntryActionView::WriteFile(texts(p@)),
        }
    }
}

/// The action for an entry with the name `name`. `enclosed` is the entry's
/// path, by its pieces, where it stays inside the destination, and `None`
/// where it would leave it. A name that ends in `/` names a directory.
pub open spec fn entry_action(name: Seq<char>, enclosed: Option<Seq<Seq<char>>>) -> EntryActionView {
    match enclosed {
        None => EntryActionView::Skip,
        Some(path) => if has_suffix(name, "/"@) {
            EntryActionView::MakeDir(path)
        } else {
            EntryActionView::WriteFile(path)
        },
    }
}

/// Decides what is done with one entry of an archive.
pub fn plan_entry(name: &str, enclosed: Option<Vec<String>>) -> (action: EntryAction)
    ensures
        action@ == entry_action(
            name@,
            match enclosed {
                Some(p) => Some(texts(p@)),
                None => None,
            },
        ),
{
    match enclosed {
        None => EntryAction::Skip,
        Some(path) => {
            let name_chars = chars_of(name);
            let slash = chars_of("/");
            if ends_with(&name_chars, &slash) {
                EntryAction::MakeDir(path)
            } else {
                EntryAction::WriteFile(path)
            }
        },
    }
}

/// One item of a walk through a directory tree, its path given by its
/// pieces below the directory walked. The directory itself has no pieces.
#[derive(Debug)]
pub enum TreeItem {
    Entry { parts: Vec<String>, is_dir: bool, is_file: bool },
    /// The walk failed here, with this message.
    Failed(String),
}

/// What the scratch directory holds for the payload.
#[derive(Debug)]
pub enum Payload {
    /// It has a `WAD` directory: this is the walk through it.
    Subtree(Vec<TreeItem>),
    /// It has none: this is the walk through the scratch directory.
    Loose(Vec<TreeItem>),
}

/// One step of an assembly. Sources are given by their pieces below the
/// scratch directory, targets by their pieces below the mod directory.
#[derive(Debug)]
pub enum Action {
    MakeDir(Vec<String>),
    CopyFile { from: Vec<String>, to: Vec<String> },
    WriteFile { to: Vec<String>, text: String },
}

/// The mathematical value of an [`Action`].
pub enum ActionView {
    MakeDir(Seq<Seq<char>>),
    CopyFile { from: Seq<Seq<char>>, to: Seq<Seq<char>> },
    WriteFile { to: Seq<Seq<char>>, text: Seq<char> },
}

impl View for Action {
    type V = ActionView;

    open spec fn view(&self) -> ActionView {
        match self {
            Action::MakeDir(p) => ActionView::MakeDir(texts(p@)),
            Action::CopyFile { from, to } => ActionView::CopyFile {
                from: texts(from@),
                to: texts(to@),
            },
            Action::WriteFile { to, text } => ActionView::WriteFile { to: texts(to@), text: text@ },
        }
    }
}

/// The views of a list of actions.
pub open spec fn action_views(plan: Seq<Action>) -> Seq<ActionView> {
    Seq::new(plan.len(), |i: int| plan[i]@)
}

/// The name of the descriptor's directory.
pub open spec fn meta_dir() -> Seq<char> {
    "META"@
}

/// The name of the payload's directory.
pub open spec fn wad_dir() -> Seq<char> {
    "WAD"@
}

/// The name of the descriptor.
pub open spec fn info_file() -> Seq<char> {
    "info.json"@
}

/// The place of the descriptor in a mod directory.
pub open spec fn descriptor_place() -> Seq<Seq<char>> {
    seq![meta_dir(), info_file()]
}

/// The descriptor written for an archive that brings none. `stamp` is the
/// time of the assembly, as a text.
pub open spec fn synthesized_descriptor(stamp: Seq<char>) -> Seq<char> {
    "{\n                \"Name\": \"ExtractedMod\",\n                \"Version\": \"1.0.0\",\n                \"Author\": \"osskins\",\n                \"Description\": \"Extracted from fantome file at "@
        + stamp + "\"\n            }"@
}

/// A file name is that of a payload file: it ends in `.wad` behind at least
/// one other character, or in `.wad.client`.
pub open spec fn is_payload_name(name: Seq<char>) -> bool {
    (has_suffix(name, ".wad"@) && name.len() > 4) || has_suffix(name, ".wad.client"@)
}

/// The three steps that open every assembly: the two directories, and the
/// descriptor, copied where the archive brought one and written otherwise.
pub open spec fn opening(has_descriptor: bool, stamp: Seq<char>) -> Seq<ActionView> {
    seq![
        ActionView::MakeDir(seq![meta_dir()]),
        ActionView::MakeDir(seq![wad_dir()]),
        if has_descriptor {
            ActionView::CopyFile { from: descriptor_place(), to: descriptor_place() }
        } else {
            ActionView::WriteFile { to: descriptor_place(), text: synthesized_descriptor(stamp) }
        },
    ]
}

/// The step for one item of the walk through a `WAD` directory: the item is
/// brought to the same place under the mod's `WAD` directory.
pub open spec fn subtree_step(item: TreeItem) -> Option<ActionView> {
    let place = seq![wad_dir()] + texts(item->parts@);
    if item->is_dir {
        Some(ActionView::MakeDir(place))
    } else if item->is_file {
        Some(ActionView::CopyFile { from: place, to: place })
    } else {
        None
    }
}

/// The step for one item of the walk through a scratch directory without a
/// `WAD` directory: a payload file at its top is brought into the mod's
/// `WAD` directory. Everything else stays behind.
pub open spec fn loose_step(item: TreeItem) -> Option<ActionView> {
    let parts = texts(item->parts@);
    if item->is_file && parts.len() == 1 && is_payload_name(parts[0]) {
        Some(ActionView::CopyFile { from: parts, to: seq![wad_dir(), parts[0]] })
    } else {
        None
    }
}

/// The step for one item of the payload's walk.
pub open spec fn payload_step(canonical: bool, item: TreeItem) -> Option<ActionView> {
    if canonical {
        subtree_step(item)
    } else {
        loose_step(item)
    }
}

/// The steps for the first `upto` items of the payload's walk.
pub open spec fn payload_steps(canonical: bool, items: Seq<TreeItem>, upto: int) -> Seq<ActionView>
    decreases upto,
{
    if upto <= 0 {
        Seq::empty()
    } else {
        match payload_step(canonical, items[upto - 1]) {
            Some(step) => payload_steps(canonical, items, upto - 1).push(step),
            None => payload_steps(canonical, items, upto - 1),
        }
    }
}

/// The position of the first failure of a walk at or after `from`.
pub open spec fn first_broken(items: Seq<TreeItem>, from: int) -> Option<int>
    decreases items.len() - from,
{
    if from < 0 || from >= items.len() {
        None
    } else if items[from] is Failed {
        Some(from)
    } else {
        first_broken(items, from + 1)
    }
}

/// The walk of a payload.
pub open spec fn walk_of(payload: Payload) -> Seq<TreeItem> {
    match payload {
        Payload::Subtree(items) => items@,
        Payload::Loose(items) => items@,
    }
}

/// The whole assembly of a scratch directory whose walk holds no failure.
pub open spec fn assembly(has_descriptor: bool, payload: Payload, stamp: Seq<char>) -> Seq<
    ActionView,
> {
    opening(has_descriptor, stamp) + payload_steps(
        payload is Subtree,
        walk_of(payload),
        walk_of(payload).len() as int,
    )
}

/// A plan puts a file at `place`.
pub open spec fn puts_file(plan: Seq<ActionView>, place: Seq<Seq<char>>) -> bool {
    exists|i: int|
        0 <= i < plan.len() && match #[trigger] plan[i] {
            ActionView::CopyFile { from, to } => to == place,
            ActionView::WriteFile { to, text } => to == place,
            ActionView::MakeDir(_) => false,
        }
}

fn owned(text: &str) -> (s: String)
    ensures
        s@ == text@,
{
    String::from_str(text)
}

fn copy_parts(parts: &Vec<String>, lead: Option<&str>) -> (copy: Vec<String>)
    ensures
        texts(copy@) == match lead {
            Some(l) => seq![l@] + texts(parts@),
            None => texts(parts@),
        },
{
    let mut copy: Vec<String> = Vec::new();
    match lead {
        Some(l) => {
            copy.push(owned(l));
        },
        None => {},
    }
    let ghost head = texts(copy@);
    let mut i: usize = 0;
    while i < parts.len()
        invariant
            i <= parts.len(),
            texts(copy@) == head + texts(parts@.subrange(0, i as int)),
        decreases parts.len() - i,
    {
        let ghost before = texts(copy@);
        copy.push(parts[i].clone());
        assert(texts(copy@) =~= before.push(parts@[i as int]@));
        assert(texts(parts@.subrange(0, i + 1)) =~= texts(parts@.subrange(0, i as int)).push(
            parts@[i as int]@,
        ));
        assert(texts(copy@) =~= head + texts(parts@.subrange(0, i + 1)));
        i += 1;
    }
    assert(parts@.subrange(0, parts.len() as int) =~= parts@);
    assert(texts(copy@) =~= head + texts(parts@));
    proof {
        match lead {
            Some(l) => {
                assert(head =~= seq![l@]);
            },
            None => {
                assert(head =~= Seq::<Seq<char>>::empty());
                assert(head + texts(parts@) =~= texts(parts@));
            },
        }
    }
    copy
}

/// Whether a file name is that of a payload file.
pub fn payload_name(name: &str) -> (yes: bool)
    ensures
        yes == is_payload_name(name@),
{
    let chars = chars_of(name);
    let wad = chars_of(".wad");
    let client = chars_of(".wad.client");
    proof {
        reveal_strlit(".wad");
    }
    (ends_with(&chars, &wad) && chars.len() > 4) || ends_with(&chars, &client)
}

fn step_for(canonical: bool, item: &TreeItem) -> (step: Option<Action>)
    requires
        item is Entry,
    ensures
        match payload_step(canonical, *item) {
            Some(v) => step matches Some(a) && a@ == v,
            None => step is None,
        },
{
    match item {
        TreeItem::Failed(_) => None,
        TreeItem::Entry { parts, is_dir, is_file } => {
            if canonical {
                if *is_dir {
                    Some(Action::MakeDir(copy_parts(parts, Some("WAD"))))
                } else if *is_file {
                    Some(
                        Action::CopyFile {
                            from: copy_parts(parts, Some("WAD")),
                            to: copy_parts(parts, Some("WAD")),
                        },
                    )
                } else {
                    None
                }
            } else {
                if *is_file && parts.len() == 1 && payload_name(parts[0].as_str()) {
                    let mut to: Vec<String> = Vec::new();
                    to.push(owned("WAD"));
                    to.push(parts[0].clone());
                    let from = copy_parts(parts, None);
                    assert(texts(to@) =~= seq![wad_dir(), texts(parts@)[0]]);
                    Some(Action::CopyFile { from, to })
                } else {
                    None
                }
            }
        },
    }
}

/// Plans the assembly of a mod directory from a scratch directory.
///
/// `has_descriptor` says whether the scratch directory holds a descriptor,
/// `payload` what it holds for the payload, and `stamp` is the time, as a
/// text. The shape of the content never fails an assembly: only a walk that
/// broke off does, with the message of its first failure.
pub fn assemble(has_descriptor: bool, payload: &Payload, stamp: &str) -> (plan: Result<
    Vec<Action>,
    InjectionError,
>)
    ensures
        match first_broken(walk_of(*payload), 0) {
            Some(at) => plan matches Err(e) && e@ == (
                ErrorKind::Walkdir,
                walk_of(*payload)[at]->Failed_0@,
            ),
            None => plan matches Ok(actions) && action_views(actions@) == assembly(
                has_descriptor,
                *payload,
                stamp@,
            ) && puts_file(action_views(actions@), descriptor_place()),
        },
{
    let (canonical, items) = match payload {
        Payload::Subtree(items) => (true, items),
        Payload::Loose(items) => (false, items),
    };
    let mut plan: Vec<Action> = Vec::new();
    let mut meta: Vec<String> = Vec::new();
    meta.push(owned("META"));
    assert(texts(meta@) =~= seq![meta_dir()]);
    plan.push(Action::MakeDir(meta));
    let mut wad: Vec<String> = Vec::new();
    wad.push(owned("WAD"));
    assert(texts(wad@) =~= seq![wad_dir()]);
    plan.push(Action::MakeDir(wad));
    let mut place: Vec<String> = Vec::new();
    place.push(owned("META"));
    place.push(owned("info.json"));
    assert(texts(place@) =~= descriptor_place());
    if has_descriptor {
        let from = copy_parts(&place, None);
        plan.push(Action::CopyFile { from, to: place });
    } else {
        let text = owned(
            "{\n                \"Name\": \"ExtractedMod\",\n                \"Version\": \"1.0.0\",\n                \"Author\": \"osskins\",\n                \"Description\": \"Extracted from fantome file at ",
        ).concat(stamp).concat("\"\n            }");
        plan.push(Action::WriteFile { to: place, text });
    }
    assert(action_views(plan@) =~= opening(has_descriptor, stamp@));
    let mut i: usize = 0;
    while i < items.len()
        invariant
            i <= items.len(),
            items@ == walk_of(*payload),
            canonical == (*payload is Subtree),
            first_broken(items@, 0) == first_broken(items@, i as int),
            action_views(plan@) == opening(has_descriptor, stamp@) + payload_steps(
                canonical,
                items@,
                i as int,
            ),
        decreases items.len() - i,
    {
        let ghost before = action_views(plan@);
        match &items[i] {
            TreeItem::Failed(message) => {
                return Err(InjectionError::WalkdirError(message.clone()));
            },
            _ => {},
        }
        match step_for(canonical, &items[i]) {
            Some(action) => {
                plan.push(action);
                assert(action_views(plan@) =~= before.push(action@));
                assert(action_views(plan@) =~= opening(has_descriptor, stamp@) + payload_steps(
                    canonical,
                    items@,
                    i + 1,
                ));
            },
            None => {},
        }
        i += 1;
    }
    assert(action_views(plan@)[2] == opening(has_descriptor, stamp@)[2]);
    Ok(plan)
}

/// Every assembly puts the descriptor in its place: the mod directory that
/// it makes is valid, whatever shape the archive had.
pub proof fn assembly_is_valid(has_descriptor: bool, payload: Payload, stamp: Seq<char>)
    ensures
        puts_file(assembly(has_descriptor, payload, stamp), descriptor_place()),
{
    let plan = assembly(has_descriptor, payload, stamp);
    assert(plan[2] == opening(has_descriptor, stamp)[2]);
}

/// The step that brings one item of a walk to the same place in another
/// tree.
pub open spec fn mirror_step(item: TreeItem) -> Option<ActionView> {
    let place = texts(item->parts@);
    if item->is_dir {
        Some(ActionView::MakeDir(place))
    } else if item->is_file {
        Some(ActionView::CopyFile { from: place, to: place })
    } else {
        None
    }
}

/// The steps that bring the first `upto` items of a walk to another tree.
pub open spec fn mirror_steps(items: Seq<TreeItem>, upto: int) -> Seq<ActionView>
    decreases upto,
{
    if upto <= 0 {
        Seq::empty()
    } else {
        match mirror_step(items[upto - 1]) {
            Some(step) => mirror_steps(items, upto - 1).push(step),
            None => mirror_steps(items, upto - 1),
        }
    }
}

/// Plans the copy of a whole tree to another place: of a mod directory to
/// the game's mods directory, or of the staging overlay to the final one.
/// Directories are made and files copied in the order of the walk; a walk
/// that broke off fails the copy with the message of its first failure.
pub fn mirror_tree(items: &Vec<TreeItem>) -> (plan: Result<Vec<Action>, InjectionError>)
    ensures
        match first_broken(items@, 0) {
            Some(at) => plan matches Err(e) && e@ == (ErrorKind::Walkdir, items@[at]->Failed_0@),
            None => plan matches Ok(actions) && action_views(actions@) == mirror_steps(
                items@,
                items@.len() as int,
            ),
        },
{
    let mut plan: Vec<Action> = Vec::new();
    let mut i: usize = 0;
    assert(action_views(plan@) =~= Seq::<ActionView>::empty());
    while i < items.len()
        invariant
            i <= items.len(),
            first_broken(items@, 0) == first_broken(items@, i as int),
            action_views(plan@) == mirror_steps(items@, i as int),
        decreases items.len() - i,
    {
        let ghost before = action_views(plan@);
        match &items[i] {
            TreeItem::Failed(message) => {
                return Err(InjectionError::WalkdirError(message.clone()));
            },
            TreeItem::Entry { parts, is_dir, is_file } => {
                if *is_dir {
                    let action = Action::MakeDir(copy_parts(parts, None));
                    plan.push(action);
                    assert(action_views(plan@) =~= before.push(action@));
                } else if *is_file {
                    let action = Action::CopyFile {
                        from: copy_parts(parts, None),
                        to: copy_parts(parts, None),
                    };
                    plan.push(action);
                    assert(action_views(plan@) =~= before.push(action@));
                }
            },
        }
        i += 1;
    }
    Ok(plan)
}

/// Where the extension of a file name starts: at its last `.`, unless that
/// is its first character or it has none.
pub open spec fn stem_end(name: Seq<char>, upto: int) -> int
    decreases upto,
{
    if upto <= 1 || upto > name.len() {
        name.len() as int
    } else if name[upto - 1] == '.' {
        upto - 1
    } else {
        stem_end(name, upto - 1)
    }
}

/// The name of the mod made from an archive: the archive's file name without
/// its extension.
pub open spec fn mod_name(file_name: Seq<char>) -> Seq<char> {
    file_name.subrange(0, stem_end(file_name, file_name.len() as int))
}

/// The name of the mod directory for an archive with the file name given.
pub fn mod_name_of(file_name: &str) -> (name: String)
    ensures
        name@ == mod_name(file_name@),
{
    let n = file_name.unicode_len();
    let mut upto: usize = n;
    while upto > 1 && file_name.get_char(upto - 1) != '.'
        invariant
            n == file_name@.len(),
            upto <= n,
            stem_end(file_name@, n as int) == stem_end(file_name@, upto as int),
        decreases upto,
    {
        upto -= 1;
    }
    if upto <= 1 {
        String::from_str(file_name)
    } else {
        String::from_str(file_name.substring_char(0, upto - 1))
    }
}

} // verus!
