//! The names of the champions, as their descriptors give them.
//!
//! Each champion has a descriptor, a JSON text with the champion's number
//! under `id` and its name under `name`. The directory of a champion is
//! named by the champion's name in lower case and without spaces.

use vstd::prelude::*;
use vstd::string::*;

verus! {

/// The non-negative whole number that the JSON text `text` holds under
/// `key`; `None` where the text is no JSON or holds no such number there.
pub uninterp spec fn json_number_at(text: Seq<char>, key: Seq<char>) -> Option<u64>;

/// The string that the JSON text `text` holds under `key`; `None` where the
/// text is no JSON or holds no string there.
pub uninterp spec fn json_text_at(text: Seq<char>, key: Seq<char>) -> Option<Seq<char>>;

/// `text` in lower case, as Unicode defines it.
pub uninterp spec fn lowercased(text: Seq<char>) -> Seq<char>;

/// `serde_json::from_str` to a `serde_json::Value`, then `Value::get` and
/// `Value::as_u64`: the number under `key`, which depends on the two texts
/// alone.
#[verifier::external_body]
pub(crate) fn json_member_number(text: &str, key: &str) -> (number: Option<u64>)
    ensures
        number == json_number_at(text@, key@),
{
    serde_json::from_str::<serde_json::Value>(text).ok()?.get(key)?.as_u64()
}

/// `serde_json::from_str` to a `serde_json::Value`, then `Value::get` and
/// `Value::as_str`: the string under `key`, which depends on the two texts
/// alone.
#[verifier::external_body]
pub(crate) fn json_member_text(text: &str, key: &str) -> (member: Option<String>)
    ensures
        match member {
            Some(m) => json_text_at(text@, key@) == Some(m@),
            None => json_text_at(text@, key@) is None,
        },
{
    Some(serde_json::from_str::<serde_json::Value>(text).ok()?.get(key)?.as_str()?.to_owned())
}

/// `str::to_lowercase`: the text in lower case, which depends on the text
/// alone.
#[verifier::external_body]
pub(crate) fn lowercase(text: &str) -> (lower: String)
    ensures
        lower@ == lowercased(text@),
{
    text.to_lowercase()
}

/// The text from `from` on without its spaces.
pub open spec fn without_spaces(text: Seq<char>, from: int) -> Seq<char>
    decreases text.len() - from,
{
    if from < 0 || from >= text.len() {
        Seq::empty()
    } else if text[from] == ' ' {
        without_spaces(text, from + 1)
    } else {
        seq![text[from]] + without_spaces(text, from + 1)
    }
}

/// Takes the spaces out of a text.
pub fn strip_spaces(text: &str) -> (out: String)
    ensures
        out@ == without_spaces(text@, 0),
{
    let n = text.unicode_len();
    let mut out = String::new();
    let mut copied: usize = 0;
    let mut at: usize = 0;
    assert(out@ + text@.subrange(0, 0) + without_spaces(text@, 0) =~= without_spaces(text@, 0));
    while at < n
        invariant
            n == text@.len(),
            copied <= at <= n,
            without_spaces(text@, 0) == out@ + text@.subrange(copied as int, at as int)
                + without_spaces(text@, at as int),
        decreases n - at,
    {
        let ghost kept = text@.subrange(copied as int, at as int);
        if text.get_char(at) == ' ' {
            let ghost before = out@;
            out.append(text.substring_char(copied, at));
            assert(out@ + text@.subrange(at + 1, at + 1) + without_spaces(text@, at + 1) =~= before
                + kept + without_spaces(text@, at as int));
            at += 1;
            copied = at;
        } else {
            assert(out@ + text@.subrange(copied as int, at + 1) + without_spaces(text@, at + 1)
                =~= out@ + kept + (seq![text@[at as int]] + without_spaces(text@, at + 1)));
            at += 1;
        }
    }
    let ghost kept = text@.subrange(copied as int, at as int);
    let ghost before = out@;
    out.append(text.substring_char(copied, n));
    assert(out@ =~= before + kept + without_spaces(text@, at as int));
    out
}

/// The name of a champion's directory: the champion's name in lower case
/// and without spaces.
pub open spec fn directory_name(name: Seq<char>) -> Seq<char> {
    without_spaces(lowercased(name), 0)
}

/// A descriptor's number names the champion: its low 32 bits are the
/// champion's number.
pub open spec fn names_champion(id: u64, champion_id: u32) -> bool {
    id % 0x1_0000_0000 == champion_id as u64
}

/// The directory name that a descriptor with the number and name given
/// yields for the champion: one, where the number names the champion and
/// the descriptor has a name.
pub open spec fn name_from(id: Option<u64>, name: Option<Seq<char>>, champion_id: u32) -> Option<
    Seq<char>,
> {
    match (id, name) {
        (Some(i), Some(n)) => if names_champion(i, champion_id) {
            Some(directory_name(n))
        } else {
            None
        },
        _ => None,
    }
}

/// The directory name for a champion from the number and the name of a
/// descriptor, as [`name_from`] says.
pub fn champion_name_from(id: Option<u64>, name: Option<&str>, champion_id: u32) -> (found: Option<
    String,
>)
    ensures
        match name_from(
            id,
            match name {
                Some(n) => Some(n@),
                None => None,
            },
            champion_id,
        ) {
            Some(expected) => found matches Some(f) && f@ == expected,
            None => found is None,
        },
{
    match (id, name) {
        (Some(i), Some(n)) => {
            if i % 0x1_0000_0000 == champion_id as u64 {
                let lower = lowercase(n);
                Some(strip_spaces(lower.as_str()))
            } else {
                None
            }
        },
        _ => None,
    }
}

/// The directory name for a champion from the first of the descriptors at
/// or after `from` that yields one.
pub open spec fn first_name(descriptors: Seq<String>, champion_id: u32, from: int) -> Option<
    Seq<char>,
>
    decreases descriptors.len() - from,
{
    if from < 0 || from >= descriptors.len() {
        None
    } else {
        let text = descriptors[from]@;
        let here = name_from(
            json_number_at(text, "id"@),
            json_text_at(text, "name"@),
            champion_id,
        );
        if here is Some {
            here
        } else {
            first_name(descriptors, champion_id, from + 1)
        }
    }
}

/// Looks through the descriptors, in order, for the champion with the number
/// given, and returns the name of its directory.
pub fn find_champion_name(descriptors: &Vec<String>, champion_id: u32) -> (found: Option<String>)
    ensures
        match first_name(descriptors@, champion_id, 0) {
            Some(expected) => found matches Some(f) && f@ == expected,
            None => found is None,
        },
{
    let mut i: usize = 0;
    while i < descriptors.len()
        invariant
            i <= descriptors.len(),
            first_name(descriptors@, champion_id, 0) == first_name(
                descriptors@,
                champion_id,
                i as int,
            ),
        decreases descriptors.len() - i,
    {
        let text = descriptors[i].as_str();
        let id = json_member_number(text, "id");
        let name = json_member_text(text, "name");
        let here = match &name {
            Some(n) => champion_name_from(id, Some(n.as_str()), champion_id),
            None => champion_name_from(id, None, champion_id),
        };
        match here {
            Some(found) => {
                return Some(found);
            },
            None => {},
        }
        i += 1;
    }
    None
}

} // verus!
