//! Text helpers: substring search, decimal numbers and filename tokens.

use vstd::prelude::*;
use vstd::string::*;

verus! {

/// The characters of `s`, in order.
pub fn chars_of(s: &str) -> (v: Vec<char>)
    ensures
        v@ == s@,
{
    let n = s.unicode_len();
    let mut v: Vec<char> = Vec::new();
    let mut i: usize = 0;
    while i < n
        invariant
            n == s@.len(),
            i <= n,
            v@ == s@.subrange(0, i as int),
        decreases n - i,
    {
        v.push(s.get_char(i));
        assert(v@ =~= s@.subrange(0, i + 1));
        i += 1;
    }
    assert(s@.subrange(0, n as int) =~= s@);
    v
}

/// The texts of a list of strings.
pub open spec fn texts(args: Seq<String>) -> Seq<Seq<char>> {
    Seq::new(args.len(), |i: int| args[i]@)
}

/// `needle` stands in `hay` at position `at`.
pub open spec fn occurs_at(hay: Seq<char>, needle: Seq<char>, at: int) -> bool {
    0 <= at && at + needle.len() <= hay.len() && hay.subrange(at, at + needle.len()) == needle
}

/// `needle` stands somewhere in `hay`.
pub open spec fn occurs(hay: Seq<char>, needle: Seq<char>) -> bool {
    exists|at: int| occurs_at(hay, needle, at)
}

/// `at` is the first position of `needle` in `hay`.
pub open spec fn first_at(hay: Seq<char>, needle: Seq<char>, at: int) -> bool {
    occurs_at(hay, needle, at) && forall|j: int| 0 <= j < at ==> !occurs_at(hay, needle, j)
}

/// `hay` ends with `suffix`.
pub open spec fn has_suffix(hay: Seq<char>, suffix: Seq<char>) -> bool {
    suffix.len() <= hay.len() && occurs_at(hay, suffix, hay.len() - suffix.len())
}

pub fn matches_at(hay: &Vec<char>, needle: &Vec<char>, at: usize) -> (found: bool)
    ensures
        found == occurs_at(hay@, needle@, at as int),
{
    if at > hay.len() || needle.len() > hay.len() - at {
        return false;
    }
    let mut k: usize = 0;
    while k < needle.len()
        invariant
            at + needle.len() <= hay.len(),
            k <= needle.len(),
            forall|j: int| 0 <= j < k ==> hay[at + j] == needle[j],
        decreases needle.len() - k,
    {
        if hay[at + k] != needle[k] {
            proof {
                let sub = hay@.subrange(at as int, at + needle.len());
                assert(sub[k as int] == hay[at + k]);
            }
            return false;
        }
        k += 1;
    }
    assert(hay@.subrange(at as int, at + needle.len()) =~= needle@);
    true
}

/// The first position of `needle` in `hay`, if there is one.
pub fn find(hay: &Vec<char>, needle: &Vec<char>) -> (place: Option<usize>)
    ensures
        match place {
            Some(at) => first_at(hay@, needle@, at as int),
            None => !occurs(hay@, needle@),
        },
{
    if needle.len() > hay.len() {
        return None;
    }
    let last: usize = hay.len() - needle.len();
    let mut at: usize = 0;
    loop
        invariant
            last == hay.len() - needle.len(),
            at <= last,
            forall|j: int| 0 <= j < at ==> !occurs_at(hay@, needle@, j),
        decreases last - at,
    {
        if matches_at(hay, needle, at) {
            return Some(at);
        }
        if at == last {
            return None;
        }
        at += 1;
    }
}

/// The first position at or after `from`, and before the end of `hay`,
/// at which `needle` stands; the length of `hay` if there is none.
pub open spec fn next_at(hay: Seq<char>, needle: Seq<char>, from: int) -> int
    decreases hay.len() - from,
{
    if from < 0 || from >= hay.len() {
        hay.len() as int
    } else if occurs_at(hay, needle, from) {
        from
    } else {
        next_at(hay, needle, from + 1)
    }
}

/// What `next_at` finds is the first occurrence at or after `from`.
pub proof fn next_at_is_first(hay: Seq<char>, needle: Seq<char>, from: int)
    requires
        0 <= from <= hay.len(),
    ensures
        from <= next_at(hay, needle, from) <= hay.len(),
        next_at(hay, needle, from) < hay.len() ==> occurs_at(
            hay,
            needle,
            next_at(hay, needle, from),
        ),
        forall|j: int| from <= j < next_at(hay, needle, from) ==> !occurs_at(hay, needle, j),
    decreases hay.len() - from,
{
    if from < hay.len() && !occurs_at(hay, needle, from) {
        next_at_is_first(hay, needle, from + 1);
    }
}

/// The first position of `needle` in `hay` at or after `from`; the length
/// of `hay` if there is none.
pub fn find_from(hay: &Vec<char>, needle: &Vec<char>, from: usize) -> (at: usize)
    requires
        from <= hay.len(),
    ensures
        at == next_at(hay@, needle@, from as int),
        from <= at <= hay.len(),
{
    let mut at: usize = from;
    while at < hay.len()
        invariant
            from <= at <= hay.len(),
            next_at(hay@, needle@, from as int) == next_at(hay@, needle@, at as int),
        decreases hay.len() - at,
    {
        if matches_at(hay, needle, at) {
            return at;
        }
        at += 1;
    }
    at
}

/// Whether `needle` stands somewhere in `hay`.
pub fn contains(hay: &Vec<char>, needle: &Vec<char>) -> (found: bool)
    ensures
        found == occurs(hay@, needle@),
{
    find(hay, needle).is_some()
}

/// Whether `hay` ends with `suffix`.
pub fn ends_with(hay: &Vec<char>, suffix: &Vec<char>) -> (found: bool)
    ensures
        found == has_suffix(hay@, suffix@),
{
    if suffix.len() > hay.len() {
        return false;
    }
    matches_at(hay, suffix, hay.len() - suffix.len())
}

/// `c` is one of the ten ASCII digits.
pub open spec fn is_digit(c: char) -> bool {
    48 <= c as u32 <= 57
}

/// The number that a sequence of digits writes in base ten.
pub open spec fn digits_value(s: Seq<char>) -> nat
    decreases s.len(),
{
    if s.len() == 0 {
        0
    } else {
        digits_value(s.drop_last()) * 10 + (s.last() as u32 - 48) as nat
    }
}

/// Every character of `s` is a digit.
pub open spec fn all_digits(s: Seq<char>) -> bool {
    forall|i: int| 0 <= i < s.len() ==> is_digit(#[trigger] s[i])
}

/// The 32-bit number that `token` writes: it is made of digits only, holds
/// at least one, and its value fits.
pub open spec fn number_of(token: Seq<char>) -> Option<u32> {
    if token.len() > 0 && all_digits(token) && digits_value(token) <= u32::MAX {
        Some(digits_value(token) as u32)
    } else {
        None
    }
}

/// Reads the characters from `from` up to `to` as a 32-bit number.
pub fn parse_number(chars: &Vec<char>, from: usize, to: usize) -> (number: Option<u32>)
    requires
        from <= to <= chars.len(),
    ensures
        number == number_of(chars@.subrange(from as int, to as int)),
{
    let ghost token = chars@.subrange(from as int, to as int);
    if from == to {
        return None;
    }
    let mut value: u64 = 0;
    let mut over: bool = false;
    let mut i: usize = from;
    while i < to
        invariant
            from <= i <= to <= chars.len(),
            token == chars@.subrange(from as int, to as int),
            all_digits(token.subrange(0, i - from)),
            !over ==> value == digits_value(token.subrange(0, i - from)) && value <= u32::MAX,
            over ==> digits_value(token.subrange(0, i - from)) > u32::MAX,
        decreases to - i,
    {
        let c = chars[i];
        let code: u32 = c as u32;
        let ghost before = token.subrange(0, i - from);
        let ghost after = token.subrange(0, i - from + 1);
        proof {
            assert(after.drop_last() =~= before);
            assert(after.last() == c);
        }
        if code < 48 || code > 57 {
            assert(!is_digit(token[i - from]));
            return None;
        }
        assert forall|j: int| 0 <= j < after.len() implies is_digit(#[trigger] after[j]) by {
            if j < before.len() {
                assert(after[j] == before[j]);
            }
        }
        if !over {
            value = value * 10 + (code - 48) as u64;
            if value > 0xffff_ffff {
                over = true;
            }
        }
        i += 1;
    }
    assert(token.subrange(0, to - from) =~= token);
    if over {
        None
    } else {
        Some(value as u32)
    }
}

/// The character that writes the digit `d`.
pub open spec fn digit_char(d: nat) -> char {
    if d == 0 {
        '0'
    } else if d == 1 {
        '1'
    } else if d == 2 {
        '2'
    } else if d == 3 {
        '3'
    } else if d == 4 {
        '4'
    } else if d == 5 {
        '5'
    } else if d == 6 {
        '6'
    } else if d == 7 {
        '7'
    } else if d == 8 {
        '8'
    } else {
        '9'
    }
}

/// `n` written in base ten, without leading zeros.
pub open spec fn decimal(n: nat) -> Seq<char>
    decreases n,
{
    if n < 10 {
        seq![digit_char(n)]
    } else {
        decimal(n / 10).push(digit_char(n % 10))
    }
}

fn digit_text(d: u32) -> (text: &'static str)
    requires
        d < 10,
    ensures
        text@ == seq![digit_char(d as nat)],
{
    proof {
        reveal_strlit("0");
        reveal_strlit("1");
        reveal_strlit("2");
        reveal_strlit("3");
        reveal_strlit("4");
        reveal_strlit("5");
        reveal_strlit("6");
        reveal_strlit("7");
        reveal_strlit("8");
        reveal_strlit("9");
    }
    let text = if d == 0 {
        "0"
    } else if d == 1 {
        "1"
    } else if d == 2 {
        "2"
    } else if d == 3 {
        "3"
    } else if d == 4 {
        "4"
    } else if d == 5 {
        "5"
    } else if d == 6 {
        "6"
    } else if d == 7 {
        "7"
    } else if d == 8 {
        "8"
    } else {
        "9"
    };
    assert(text@ =~= seq![digit_char(d as nat)]);
    text
}

/// Writes `n` in base ten.
pub fn decimal_string(n: u32) -> (text: String)
    ensures
        text@ == decimal(n as nat),
    decreases n,
{
    if n < 10 {
        String::from_str(digit_text(n))
    } else {
        let head = decimal_string(n / 10);
        let text = head.concat(digit_text(n % 10));
        assert(text@ =~= decimal(n as nat));
        text
    }
}

/// Whether Unicode counts a character beyond ASCII as a letter or a number.
pub uninterp spec fn unicode_alphanumeric(c: char) -> bool;

/// `c` is an ASCII letter or digit.
pub open spec fn ascii_alphanumeric(c: char) -> bool {
    (48 <= c as u32 <= 57) || (65 <= c as u32 <= 90) || (97 <= c as u32 <= 122)
}

/// Whether `c` counts as a letter or a number: within ASCII the letters
/// and the ten digits, beyond it what Unicode counts as alphabetic or
/// numeric.
pub open spec fn alphanumeric(c: char) -> bool {
    if (c as u32) < 128 {
        ascii_alphanumeric(c)
    } else {
        unicode_alphanumeric(c)
    }
}

/// `char::is_alphanumeric`: the answer is a fixed property of the character,
/// and within ASCII it holds of the letters and the digits and of nothing
/// else.
#[verifier::external_body]
pub(crate) fn is_alphanumeric(c: char) -> (yes: bool)
    ensures
        yes == alphanumeric(c),
        (c as u32) >= 128 ==> yes == unicode_alphanumeric(c),
{
    c.is_alphanumeric()
}

/// Whether `c` is white space: one of the characters with the Unicode
/// property White_Space.
pub open spec fn whitespace(c: char) -> bool {
    let code = c as u32;
    (0x09 <= code <= 0x0d) || code == 0x20 || code == 0x85 || code == 0xa0 || code == 0x1680 || (
    0x2000 <= code <= 0x200a) || code == 0x2028 || code == 0x2029 || code == 0x202f || code
        == 0x205f || code == 0x3000
}

/// `char::is_whitespace`: whether the character has the Unicode property
/// White_Space, which are the characters that [`whitespace`] lists.
#[verifier::external_body]
pub(crate) fn is_whitespace(c: char) -> (yes: bool)
    ensures
        yes == whitespace(c),
{
    c.is_whitespace()
}

/// The first position at or after `from`, and before `upto`, that holds no
/// white space; `upto` if there is none.
pub open spec fn skip_space(s: Seq<char>, from: int, upto: int) -> int
    decreases upto - from,
{
    if from < 0 || from >= upto || upto > s.len() || !whitespace(s[from]) {
        from
    } else {
        skip_space(s, from + 1, upto)
    }
}

/// The end of the text between `from` and `upto` once the white space at its
/// end is cut off.
pub open spec fn cut_space(s: Seq<char>, from: int, upto: int) -> int
    decreases upto,
{
    if from < 0 || upto <= from || upto > s.len() || !whitespace(s[upto - 1]) {
        upto
    } else {
        cut_space(s, from, upto - 1)
    }
}

/// The piece of `s` between `from` and `upto` without the white space at
/// its two ends.
pub open spec fn trimmed(s: Seq<char>, from: int, upto: int) -> Seq<char> {
    let start = skip_space(s, from, upto);
    s.subrange(start, cut_space(s, start, upto))
}

/// The 32-bit number that `token` writes, with or without a `+` in front.
pub open spec fn unsigned_of(token: Seq<char>) -> Option<u32> {
    if token.len() > 0 && token[0] == '+' {
        number_of(token.subrange(1, token.len() as int))
    } else {
        number_of(token)
    }
}

/// The bounds of the piece between `from` and `upto` without the white
/// space at its two ends.
pub fn trim_bounds(chars: &Vec<char>, from: usize, upto: usize) -> (bounds: (usize, usize))
    requires
        from <= upto <= chars.len(),
    ensures
        from <= bounds.0 <= bounds.1 <= upto,
        bounds.0 == skip_space(chars@, from as int, upto as int),
        bounds.1 == cut_space(chars@, bounds.0 as int, upto as int),
        chars@.subrange(bounds.0 as int, bounds.1 as int) == trimmed(
            chars@,
            from as int,
            upto as int,
        ),
{
    let mut start: usize = from;
    while start < upto && is_whitespace(chars[start])
        invariant
            from <= start <= upto <= chars.len(),
            skip_space(chars@, from as int, upto as int) == skip_space(
                chars@,
                start as int,
                upto as int,
            ),
        decreases upto - start,
    {
        start += 1;
    }
    let mut end: usize = upto;
    while end > start && is_whitespace(chars[end - 1])
        invariant
            start <= end <= upto <= chars.len(),
            cut_space(chars@, start as int, upto as int) == cut_space(
                chars@,
                start as int,
                end as int,
            ),
        decreases end,
    {
        end -= 1;
    }
    (start, end)
}

/// Reads a text as a 32-bit number: white space at its ends is ignored, and
/// a `+` may stand before the digits.
pub fn parse_unsigned(text: &str) -> (number: Option<u32>)
    ensures
        number == unsigned_of(trimmed(text@, 0, text@.len() as int)),
{
    let chars = chars_of(text);
    let (start, end) = trim_bounds(&chars, 0, chars.len());
    let ghost token = chars@.subrange(start as int, end as int);
    if start < end && chars[start] == '+' {
        assert(token[0] == chars@[start as int]);
        assert(token.subrange(1, token.len() as int) =~= chars@.subrange(start + 1, end as int));
        parse_number(&chars, start + 1, end)
    } else {
        if start < end {
            assert(token[0] == chars@[start as int]);
        }
        parse_number(&chars, start, end)
    }
}

/// Where the run of letters and numbers that starts at `from` ends.
pub open spec fn token_end(s: Seq<char>, from: int) -> int
    decreases s.len() - from,
{
    if from < 0 || from >= s.len() || !alphanumeric(s[from]) {
        from
    } else {
        token_end(s, from + 1)
    }
}

/// The first token at or after `from` that writes a positive 32-bit number.
/// Tokens are the pieces between characters that are neither letters nor
/// numbers.
pub open spec fn first_id_from(s: Seq<char>, from: int) -> Option<u32>
    decreases s.len() - from,
{
    if from < 0 || from > s.len() {
        None
    } else {
        let end = token_end(s, from);
        let number = number_of(s.subrange(from, end));
        if number is Some && number->0 > 0 {
            number
        } else if end < from || end >= s.len() {
            None
        } else {
            first_id_from(s, end + 1)
        }
    }
}

/// Some token of `s` that starts at or after `from` writes the number `n`.
pub open spec fn token_writes(s: Seq<char>, n: u32, from: int) -> bool
    decreases s.len() - from,
{
    if from < 0 || from > s.len() {
        false
    } else {
        let end = token_end(s, from);
        number_of(s.subrange(from, end)) == Some(n) || (from <= end && end < s.len()
            && token_writes(s, n, end + 1))
    }
}

/// Some token of `s` that starts at or after `from` is the word `word`.
pub open spec fn token_is(s: Seq<char>, word: Seq<char>, from: int) -> bool
    decreases s.len() - from,
{
    if from < 0 || from > s.len() {
        false
    } else {
        let end = token_end(s, from);
        s.subrange(from, end) == word || (from <= end && end < s.len() && token_is(
            s,
            word,
            end + 1,
        ))
    }
}

/// Where the token that starts at `from` ends.
pub fn end_of_token(name: &Vec<char>, from: usize) -> (end: usize)
    requires
        from <= name.len(),
    ensures
        from <= end <= name.len(),
        end == token_end(name@, from as int),
{
    let mut end: usize = from;
    while end < name.len() && is_alphanumeric(name[end])
        invariant
            from <= end <= name.len(),
            token_end(name@, from as int) == token_end(name@, end as int),
        decreases name.len() - end,
    {
        end += 1;
    }
    end
}

/// Whether some token of `name` writes the number `n`.
pub fn has_number_token(name: &Vec<char>, n: u32) -> (found: bool)
    ensures
        found == token_writes(name@, n, 0),
{
    let mut from: usize = 0;
    loop
        invariant
            from <= name.len(),
            token_writes(name@, n, 0) == token_writes(name@, n, from as int),
        decreases name.len() - from,
    {
        let end = end_of_token(name, from);
        match parse_number(name, from, end) {
            Some(value) => {
                if value == n {
                    return true;
                }
            },
            None => {},
        }
        if end >= name.len() {
            return false;
        }
        from = end + 1;
    }
}

/// Whether some token of `name` is the word `word`.
pub fn has_word_token(name: &Vec<char>, word: &Vec<char>) -> (found: bool)
    ensures
        found == token_is(name@, word@, 0),
{
    let mut from: usize = 0;
    loop
        invariant
            from <= name.len(),
            token_is(name@, word@, 0) == token_is(name@, word@, from as int),
        decreases name.len() - from,
    {
        let end = end_of_token(name, from);
        if end - from == word.len() && matches_at(name, word, from) {
            return true;
        }
        assert(name@.subrange(from as int, end as int) != word@) by {
            if name@.subrange(from as int, end as int) == word@ {
                assert(name@.subrange(from as int, end as int).len() == end - from);
            }
        }
        if end >= name.len() {
            return false;
        }
        from = end + 1;
    }
}

/// The first positive number among the tokens of `name`.
pub fn first_id(name: &Vec<char>) -> (id: Option<u32>)
    ensures
        id == first_id_from(name@, 0),
{
    let mut from: usize = 0;
    loop
        invariant
            from <= name.len(),
            first_id_from(name@, 0) == first_id_from(name@, from as int),
        decreases name.len() - from,
    {
        let end = end_of_token(name, from);
        let number = parse_number(name, from, end);
        match number {
            Some(id) => {
                if id > 0 {
                    return Some(id);
                }
            },
            None => {},
        }
        if end >= name.len() {
            return None;
        }
        from = end + 1;
    }
}

} // verus!
