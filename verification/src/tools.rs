//! Around the overlay tool: where it is looked for, which of its processes
//! are still alive, and which staged mods it is given.

use vstd::prelude::*;
use vstd::string::*;
use crate::error::{ErrorKind, InjectionError};
use crate::text::{all_digits, chars_of, is_digit, texts, trim_bounds, trimmed};

verus! {

/// The name of the overlay tool's executable.
pub open spec fn tool_file() -> Seq<char> {
    "mod-tools.exe"@
}

/// The directory that a candidate location is relative to.
#[derive(Debug, Clone, Copy, PartialEq, Eq, Structural)]
pub enum Base {
    /// The application's resource directory.
    Resources,
    /// The application's local data directory.
    LocalData,
    /// The directory of the running executable.
    Executable,
}

/// One place where the overlay tool is looked for. The places of one round
/// are probed together.
#[derive(Debug)]
pub struct Location {
    pub round: u32,
    pub base: Base,
    /// The path below the base, its pieces joined by `/`.
    pub tail: &'static str,
}

/// The values of a list of locations.
pub open spec fn location_views(list: Seq<Location>) -> Seq<(u32, Base, Seq<char>)> {
    Seq::new(list.len(), |i: int| (list[i].round, list[i].base, list[i].tail@))
}

/// The places where the overlay tool is looked for, in order.
pub open spec fn locations() -> Seq<(u32, Base, Seq<char>)> {
    seq![
        (0u32, Base::Resources, "mod-tools.exe"@),
        (0u32, Base::Resources, "cslol-tools/mod-tools.exe"@),
        (1u32, Base::LocalData, "mod-tools.exe"@),
        (2u32, Base::LocalData, "cslol-tools/mod-tools.exe"@),
        (
            2u32,
            Base::LocalData,
            "../cslol-manager-2024-10-27-401067d-prerelease/cslol-tools/mod-tools.exe"@,
        ),
        (3u32, Base::Executable, "cslol-tools/mod-tools.exe"@),
        (3u32, Base::Executable, "resources/cslol-tools/mod-tools.exe"@),
        (3u32, Base::Executable, "mod-tools.exe"@),
    ]
}

/// The places where the overlay tool is looked for, in order.
pub fn candidate_locations() -> (list: Vec<Location>)
    ensures
        location_views(list@) == locations(),
{
    let mut list: Vec<Location> = Vec::new();
    list.push(Location { round: 0, base: Base::Resources, tail: "mod-tools.exe" });
    list.push(Location { round: 0, base: Base::Resources, tail: "cslol-tools/mod-tools.exe" });
    list.push(Location { round: 1, base: Base::LocalData, tail: "mod-tools.exe" });
    list.push(Location { round: 2, base: Base::LocalData, tail: "cslol-tools/mod-tools.exe" });
    list.push(
        Location {
            round: 2,
            base: Base::LocalData,
            tail: "../cslol-manager-2024-10-27-401067d-prerelease/cslol-tools/mod-tools.exe",
        },
    );
    list.push(Location { round: 3, base: Base::Executable, tail: "cslol-tools/mod-tools.exe" });
    list.push(
        Location { round: 3, base: Base::Executable, tail: "resources/cslol-tools/mod-tools.exe" },
    );
    list.push(Location { round: 3, base: Base::Executable, tail: "mod-tools.exe" });
    assert(location_views(list@) =~= locations());
    list
}

/// What was found at one location: the round of the location, and the path
/// of the tool where it is there.
#[derive(Debug)]
pub struct Probe {
    pub round: u32,
    pub found: Option<String>,
}

/// The tool chosen among the first `upto` probes, with its round: the
/// first round in which the tool was found decides, and within that round
/// the last place at which it was found.
pub open spec fn chosen(probes: Seq<Probe>, upto: int) -> Option<(u32, Seq<char>)>
    decreases upto,
{
    if upto <= 0 {
        None
    } else {
        let before = chosen(probes, upto - 1);
        let probe = probes[upto - 1];
        match probe.found {
            None => before,
            Some(path) => match before {
                Some(earlier) => if earlier.0 == probe.round {
                    Some((probe.round, path@))
                } else {
                    before
                },
                None => Some((probe.round, path@)),
            },
        }
    }
}

/// Chooses the overlay tool among what the probes found, as [`chosen`]
/// says. `None` where no place holds the tool.
pub fn choose_tool(probes: &Vec<Probe>) -> (tool: Option<String>)
    ensures
        match chosen(probes@, probes@.len() as int) {
            Some(pick) => tool matches Some(t) && t@ == pick.1,
            None => tool is None,
        },
{
    let mut pick: Option<(u32, String)> = None;
    let mut i: usize = 0;
    while i < probes.len()
        invariant
            i <= probes.len(),
            match chosen(probes@, i as int) {
                Some(expected) => pick matches Some(p) && p.0 == expected.0 && p.1@ == expected.1,
                None => pick is None,
            },
        decreases probes.len() - i,
    {
        let probe = &probes[i];
        match &probe.found {
            None => {},
            Some(path) => {
                let take = match &pick {
                    Some(earlier) => earlier.0 == probe.round,
                    None => true,
                };
                if take {
                    pick = Some((probe.round, path.clone()));
                }
            },
        }
        i += 1;
    }
    match pick {
        Some(p) => Some(p.1),
        None => None,
    }
}

/// Where the line that starts at `from` ends: at the next line feed, or at
/// the end of the text.
pub open spec fn line_end(text: Seq<char>, from: int) -> int
    decreases text.len() - from,
{
    if from < 0 || from >= text.len() || text[from] == '\n' {
        from
    } else {
        line_end(text, from + 1)
    }
}

/// The process identifiers in a process listing, from the line that starts
/// at `from` on: each line that, without the white space at its ends, is
/// made of digits only and holds at least one.
pub open spec fn process_ids(listing: Seq<char>, from: int) -> Seq<Seq<char>>
    decreases listing.len() - from,
{
    if from < 0 || from > listing.len() {
        Seq::empty()
    } else {
        let end = line_end(listing, from);
        let line = trimmed(listing, from, end);
        let rest = if end < from || end >= listing.len() {
            Seq::empty()
        } else {
            process_ids(listing, end + 1)
        };
        if line.len() > 0 && all_digits(line) {
            seq![line] + rest
        } else {
            rest
        }
    }
}

fn digits_only(chars: &Vec<char>, from: usize, to: usize) -> (yes: bool)
    requires
        from <= to <= chars.len(),
    ensures
        yes == all_digits(chars@.subrange(from as int, to as int)),
{
    let ghost piece = chars@.subrange(from as int, to as int);
    let mut i: usize = from;
    while i < to
        invariant
            from <= i <= to <= chars.len(),
            piece == chars@.subrange(from as int, to as int),
            forall|j: int| 0 <= j < i - from ==> is_digit(#[trigger] piece[j]),
        decreases to - i,
    {
        let code: u32 = chars[i] as u32;
        if code < 48 || code > 57 {
            assert(!is_digit(piece[i - from]));
            return false;
        }
        i += 1;
    }
    true
}

/// Reads the identifiers of the tool's processes that are still alive from
/// a process listing, one identifier to a line. Headings and empty lines
/// are passed over.
pub fn stray_process_ids(listing: &str) -> (ids: Vec<String>)
    ensures
        texts(ids@) == process_ids(listing@, 0),
{
    let chars = chars_of(listing);
    let n = chars.len();
    let mut ids: Vec<String> = Vec::new();
    let mut from: usize = 0;
    assert(texts(ids@) + process_ids(chars@, 0) =~= process_ids(chars@, 0));
    loop
        invariant
            n == chars.len(),
            chars@ == listing@,
            from <= n,
            process_ids(chars@, 0) == texts(ids@) + process_ids(chars@, from as int),
        decreases n - from,
    {
        let mut end: usize = from;
        while end < n && chars[end] != '\n'
            invariant
                from <= end <= n,
                n == chars.len(),
                line_end(chars@, from as int) == line_end(chars@, end as int),
            decreases n - end,
        {
            end += 1;
        }
        let (a, b) = trim_bounds(&chars, from, end);
        let ghost before = texts(ids@);
        let ghost rest = if end >= n {
            Seq::<Seq<char>>::empty()
        } else {
            process_ids(chars@, end + 1)
        };
        if a < b && digits_only(&chars, a, b) {
            ids.push(String::from_str(listing.substring_char(a, b)));
            assert(texts(ids@) =~= before.push(chars@.subrange(a as int, b as int)));
            assert(texts(ids@) + rest =~= before + (seq![chars@.subrange(a as int, b as int)]
                + rest));
        }
        if end >= n {
            assert(texts(ids@) + rest =~= texts(ids@));
            return ids;
        }
        from = end + 1;
    }
}

/// One entry of the destination mods directory.
#[derive(Debug)]
pub struct StagedEntry {
    /// The entry's name, where it is valid Unicode.
    pub name: Option<String>,
    pub is_dir: bool,
    /// Whether it holds a descriptor.
    pub has_descriptor: bool,
}

/// The names of the valid mods among the first `upto` entries: the
/// directories that hold a descriptor and have a name.
pub open spec fn valid_mods(entries: Seq<StagedEntry>, upto: int) -> Seq<Seq<char>>
    decreases upto,
{
    if upto <= 0 {
        Seq::empty()
    } else {
        let entry = entries[upto - 1];
        if entry.is_dir && entry.has_descriptor && entry.name is Some {
            valid_mods(entries, upto - 1).push(entry.name->0@)
        } else {
            valid_mods(entries, upto - 1)
        }
    }
}

/// The names of the valid mods in the destination mods directory, in the
/// order of the listing. None at all is no error: the overlay is then built
/// empty.
pub fn valid_mod_names(entries: &Vec<StagedEntry>) -> (names: Vec<String>)
    ensures
        texts(names@) == valid_mods(entries@, entries@.len() as int),
{
    let mut names: Vec<String> = Vec::new();
    let mut i: usize = 0;
    assert(texts(names@) =~= Seq::<Seq<char>>::empty());
    while i < entries.len()
        invariant
            i <= entries.len(),
            texts(names@) == valid_mods(entries@, i as int),
        decreases entries.len() - i,
    {
        let entry = &entries[i];
        let ghost before = texts(names@);
        if entry.is_dir && entry.has_descriptor {
            match &entry.name {
                Some(name) => {
                    names.push(name.clone());
                    assert(texts(names@) =~= before.push(name@));
                },
                None => {},
            }
        }
        i += 1;
    }
    names
}

/// The text of the error for a staged mod without a descriptor.
pub open spec fn invalid_mod() -> Seq<char> {
    "Mod structure invalid"@
}

/// Checks a staged mod: it is valid exactly when it holds its descriptor.
pub fn check_staged_mod(has_descriptor: bool) -> (checked: Result<(), InjectionError>)
    ensures
        has_descriptor ==> checked is Ok,
        !has_descriptor ==> (checked matches Err(e) && e@ == (
            ErrorKind::MissingFantomeFile,
            invalid_mod(),
        )),
{
    if has_descriptor {
        Ok(())
    } else {
        Err(InjectionError::MissingFantomeFile(String::from_str("Mod structure invalid")))
    }
}

} // verus!
