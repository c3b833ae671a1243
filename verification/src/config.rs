//! The patch of the game configuration that enables mods.

use vstd::prelude::*;
use vstd::string::*;
use crate::text::{chars_of, contains, find_from, next_at, next_at_is_first, occurs, occurs_at};

verus! {

/// The flag that enables mods.
pub open spec fn flag_on() -> Seq<char> {
    "EnableMods=1"@
}

/// The flag that disables mods.
pub open spec fn flag_off() -> Seq<char> {
    "EnableMods=0"@
}

/// The header of the section that holds the flag.
pub open spec fn section() -> Seq<char> {
    "[General]"@
}

/// The line that is put behind the section's header.
pub open spec fn flag_line() -> Seq<char> {
    "\nEnableMods=1"@
}

/// The section that is put at the end of a configuration without one.
pub open spec fn section_stub() -> Seq<char> {
    "\n[General]\nEnableMods=1\n"@
}

/// The configuration that is written where there is none.
pub open spec fn fresh_config() -> Seq<char> {
    "[General]\nEnableMods=1\n"@
}

/// The text from `from` on with every disabling flag turned into the
/// enabling one, from left to right.
pub open spec fn flipped(content: Seq<char>, from: int) -> Seq<char>
    decreases content.len() - from,
{
    if from < 0 || from >= content.len() {
        Seq::empty()
    } else if occurs_at(content, flag_off(), from) && flag_off().len() > 0 {
        flag_on() + flipped(content, from + flag_off().len())
    } else {
        seq![content[from]] + flipped(content, from + 1)
    }
}

/// The text with the enabling flag put behind the first header of the
/// section. Nothing else of the text changes.
pub open spec fn flagged_section(content: Seq<char>) -> Seq<char> {
    let body = next_at(content, section(), 0) + section().len();
    content.subrange(0, body) + flag_line() + content.subrange(body, content.len() as int)
}

/// What is written to the configuration file, if anything. `content` is
/// what the file holds, `None` where there is no file.
///
/// A file that holds the enabling flag is left alone. Else every disabling
/// flag is turned; without one, the flag is put behind the section's
/// header; without a section, a section with the flag is put at the end.
pub open spec fn patched(content: Option<Seq<char>>) -> Option<Seq<char>> {
    match content {
        None => Some(fresh_config()),
        Some(text) => if occurs(text, flag_on()) {
            None
        } else if occurs(text, flag_off()) {
            Some(flipped(text, 0))
        } else if occurs(text, section()) {
            Some(flagged_section(text))
        } else {
            Some(text + section_stub())
        },
    }
}

fn flip_flags(content: &str, chars: &Vec<char>) -> (out: String)
    requires
        chars@ == content@,
    ensures
        out@ == flipped(content@, 0),
{
    let off = chars_of("EnableMods=0");
    proof {
        reveal_strlit("EnableMods=0");
    }
    let n = chars.len();
    let mut out = String::new();
    let mut copied: usize = 0;
    let mut at: usize = 0;
    assert(out@ + chars@.subrange(0, 0) + flipped(chars@, 0) =~= flipped(chars@, 0));
    while at < n
        invariant
            n == chars.len(),
            chars@ == content@,
            off@ == flag_off(),
            off@.len() == 12,
            copied <= at <= n,
            flipped(chars@, 0) == out@ + chars@.subrange(copied as int, at as int) + flipped(
                chars@,
                at as int,
            ),
        decreases n - at,
    {
        let ghost kept = chars@.subrange(copied as int, at as int);
        if crate::text::matches_at(chars, &off, at) {
            let ghost before = out@;
            out.append(content.substring_char(copied, at));
            out.append("EnableMods=1");
            assert(out@ + chars@.subrange(at + 12, at + 12) + flipped(chars@, at + 12) =~= before
                + kept + (flag_on() + flipped(chars@, at + 12)));
            at += 12;
            copied = at;
        } else {
            assert(out@ + chars@.subrange(copied as int, at + 1) + flipped(chars@, at + 1) =~= out@
                + kept + (seq![chars@[at as int]] + flipped(chars@, at + 1)));
            at += 1;
        }
    }
    let ghost kept = chars@.subrange(copied as int, at as int);
    let ghost before = out@;
    out.append(content.substring_char(copied, n));
    assert(out@ =~= before + kept + flipped(chars@, at as int));
    out
}

/// Patches the game configuration so that mods are enabled, as [`patched`]
/// says. Returns what is to be written to the file, and `None` where the
/// file is right as it is.
pub fn enable_mods_in_game_cfg(content: Option<&str>) -> (written: Option<String>)
    ensures
        match patched(
            match content {
                Some(text) => Some(text@),
                None => None,
            },
        ) {
            Some(text) => written matches Some(w) && w@ == text,
            None => written is None,
        },
{
    let text = match content {
        None => {
            return Some(String::from_str("[General]\nEnableMods=1\n"));
        },
        Some(text) => text,
    };
    let chars = chars_of(text);
    let on = chars_of("EnableMods=1");
    if contains(&chars, &on) {
        return None;
    }
    let off = chars_of("EnableMods=0");
    if contains(&chars, &off) {
        return Some(flip_flags(text, &chars));
    }
    let header_text = chars_of("[General]");
    proof {
        reveal_strlit("[General]");
    }
    if contains(&chars, &header_text) {
        let header = find_from(&chars, &header_text, 0);
        proof {
            next_at_is_first(chars@, header_text@, 0);
            let k = choose|k: int| occurs_at(chars@, header_text@, k);
            assert(header <= k);
        }
        let body = header + 9;
        let out = String::from_str(text.substring_char(0, body)).concat("\nEnableMods=1").concat(
            text.substring_char(body, chars.len()),
        );
        return Some(out);
    }
    Some(String::from_str(text).concat("\n[General]\nEnableMods=1\n"))
}

proof fn shifted_occurrence(head: Seq<char>, tail: Seq<char>, needle: Seq<char>, at: int)
    requires
        occurs_at(tail, needle, at),
    ensures
        occurs_at(head + tail, needle, head.len() + at),
{
    assert((head + tail).subrange(head.len() + at, head.len() + at + needle.len()) =~= tail.subrange(
        at,
        at + needle.len(),
    ));
}

proof fn leading_occurrence(head: Seq<char>, tail: Seq<char>, needle: Seq<char>, at: int)
    requires
        occurs_at(head, needle, at),
    ensures
        occurs_at(head + tail, needle, at),
{
    assert((head + tail).subrange(at, at + needle.len()) =~= head.subrange(at, at + needle.len()));
}

proof fn flipped_holds_flag(content: Seq<char>, from: int, at: int)
    requires
        0 <= from <= at,
        occurs_at(content, flag_off(), at),
    ensures
        occurs(flipped(content, from), flag_on()),
    decreases content.len() - from,
{
    reveal_strlit("EnableMods=0");
    reveal_strlit("EnableMods=1");
    if occurs_at(content, flag_off(), from) {
        let rest = flipped(content, from + flag_off().len());
        assert(occurs_at(flag_on(), flag_on(), 0)) by {
            assert(flag_on().subrange(0, flag_on().len() as int) =~= flag_on());
        }
        leading_occurrence(flag_on(), rest, flag_on(), 0);
    } else {
        flipped_holds_flag(content, from + 1, at);
        let rest = flipped(content, from + 1);
        let k = choose|k: int| occurs_at(rest, flag_on(), k);
        shifted_occurrence(seq![content[from]], rest, flag_on(), k);
    }
}

/// Whatever is written holds the enabling flag. So a second patch finds the
/// file right and writes nothing: the patch is idempotent.
pub proof fn patch_enables(content: Option<Seq<char>>)
    requires
        patched(content) is Some,
    ensures
        occurs(patched(content)->0, flag_on()),
        patched(Some(patched(content)->0)) is None,
{
    reveal_strlit("EnableMods=1");
    reveal_strlit("\nEnableMods=1");
    reveal_strlit("\n[General]\nEnableMods=1\n");
    reveal_strlit("[General]\nEnableMods=1\n");
    reveal_strlit("[General]");
    match content {
        None => {
            assert(fresh_config().subrange(10, 22) =~= flag_on());
            assert(occurs_at(fresh_config(), flag_on(), 10));
        },
        Some(text) => {
            if occurs(text, flag_off()) {
                let k = choose|k: int| occurs_at(text, flag_off(), k);
                flipped_holds_flag(text, 0, k);
            } else if occurs(text, section()) {
                let header = next_at(text, section(), 0);
                let body = header + section().len();
                let k = choose|k: int| occurs_at(text, section(), k);
                next_at_is_first(text, section(), 0);
                assert(header <= k);
                let head = text.subrange(0, body);
                let tail = text.subrange(body, text.len() as int);
                assert(flag_line().subrange(1, 13) =~= flag_on());
                assert(occurs_at(flag_line(), flag_on(), 1));
                leading_occurrence(flag_line(), tail, flag_on(), 1);
                shifted_occurrence(head, flag_line() + tail, flag_on(), 1);
                assert(head + (flag_line() + tail) =~= flagged_section(text));
            } else {
                assert(section_stub().subrange(11, 23) =~= flag_on());
                assert(occurs_at(section_stub(), flag_on(), 11));
                shifted_occurrence(text, section_stub(), flag_on(), 11);
            }
        },
    }
}

/// In a text without a flag the patch only puts something in: the flag's
/// line behind the section's header, or a section with the flag at the end.
/// Everything that the text held is kept, in its order.
pub proof fn patch_only_inserts(content: Seq<char>)
    requires
        !occurs(content, flag_on()),
        !occurs(content, flag_off()),
    ensures
        patched(Some(content)) is Some,
        exists|at: int, added: Seq<char>|
            0 <= at <= content.len() && (added == flag_line() || added == section_stub())
                && #[trigger] inserted(content, at, added) == patched(Some(content))->0,
{
    reveal_strlit("[General]");
    if occurs(content, section()) {
        let k = choose|k: int| occurs_at(content, section(), k);
        next_at_is_first(content, section(), 0);
        let body = next_at(content, section(), 0) + section().len();
        assert(next_at(content, section(), 0) <= k);
        assert(inserted(content, body, flag_line()) == flagged_section(content));
    } else {
        let n = content.len() as int;
        assert(inserted(content, n, section_stub()) =~= content + section_stub());
    }
}

/// `text` with `added` put in at position `at`.
pub open spec fn inserted(text: Seq<char>, at: int, added: Seq<char>) -> Seq<char> {
    text.subrange(0, at) + added + text.subrange(at, text.len() as int)
}

/// Turning the disabling flags keeps the length of the text: the two flags
/// are equally long, and nothing else changes.
pub proof fn flipping_keeps_length(content: Seq<char>, from: int)
    requires
        0 <= from <= content.len(),
    ensures
        flipped(content, from).len() == content.len() - from,
    decreases content.len() - from,
{
    reveal_strlit("EnableMods=0");
    reveal_strlit("EnableMods=1");
    if from < content.len() {
        if occurs_at(content, flag_off(), from) {
            flipping_keeps_length(content, from + flag_off().len());
        } else {
            flipping_keeps_length(content, from + 1);
        }
    }
}

} // verus!
