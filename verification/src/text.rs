//! Text as the native interfaces carry it: UTF-16 code units, with a
//! terminating zero where the interface writes one.

use vstd::prelude::*;
use vstd::string::StringExecFns;

verus! {

/// The scalar values of a text as a vector.
pub fn chars_of(text: &str) -> (chars: Vec<char>)
    ensures
        chars@ == text@,
{
    let mut chars: Vec<char> = Vec::new();
    for c in it: text.chars()
        invariant
            it.seq() == text@,
            chars@ == it.seq().take(it.index() as int),
    {
        chars.push(c);
    }
    chars
}

/// `needle` stands in `hay` from position `at` on.
pub open spec fn occurs_at(needle: Seq<char>, hay: Seq<char>, at: int) -> bool {
    &&& 0 <= at
    &&& at + needle.len() <= hay.len()
    &&& hay.subrange(at, at + needle.len()) == needle
}

/// `needle` is a contiguous part of `hay`, scalar value for scalar value.
pub open spec fn is_substring(needle: Seq<char>, hay: Seq<char>) -> bool {
    exists|at: int| occurs_at(needle, hay, at)
}

fn matches_at(needle: &Vec<char>, hay: &Vec<char>, at: usize) -> (found: bool)
    requires
        at + needle.len() <= hay.len(),
    ensures
        found == occurs_at(needle@, hay@, at as int),
{
    let mut k: usize = 0;
    while k < needle.len()
        invariant
            k <= needle.len(),
            at + needle.len() <= hay.len(),
            forall|j: int| 0 <= j < k ==> hay@[at + j] == needle@[j],
        decreases needle.len() - k,
    {
        if hay[at + k] != needle[k] {
            assert(hay@.subrange(at as int, at + needle.len())[k as int] != needle@[k as int]);
            return false;
        }
        k += 1;
    }
    assert(hay@.subrange(at as int, at + needle.len()) =~= needle@);
    true
}

/// Whether `hay` contains `needle` as a literal, case-sensitive substring.
pub fn contains_text(hay: &str, needle: &str) -> (found: bool)
    ensures
        found == is_substring(needle@, hay@),
{
    let text = chars_of(hay);
    let part = chars_of(needle);
    if part.len() > text.len() {
        return false;
    }
    let last: usize = text.len() - part.len();
    let mut at: usize = 0;
    while at < last
        invariant
            at <= last,
            last == text.len() - part.len(),
            text@ == hay@,
            part@ == needle@,
            forall|k: int| 0 <= k < at ==> !occurs_at(needle@, hay@, k),
        decreases last - at,
    {
        if matches_at(&part, &text, at) {
            return true;
        }
        at += 1;
    }
    matches_at(&part, &text, last)
}

/// Whether two texts hold the same scalar values.
pub fn same_text(a: &str, b: &str) -> (same: bool)
    ensures
        same == (a@ == b@),
{
    String::from_str(a) == String::from_str(b)
}

/// The UTF-16 code units of one scalar value: itself below the supplementary
/// planes, a surrogate pair above.
pub open spec fn utf16_of_char(c: char) -> Seq<u16> {
    let v = c as int;
    if v < 0x10000 {
        seq![v as u16]
    } else {
        seq![(0xD800 + (v - 0x10000) / 0x400) as u16, (0xDC00 + (v - 0x10000) % 0x400) as u16]
    }
}

/// The UTF-16 encoding of a text.
pub open spec fn utf16_of(text: Seq<char>) -> Seq<u16>
    decreases text.len(),
{
    if text.len() == 0 {
        Seq::empty()
    } else {
        utf16_of_char(text[0]) + utf16_of(text.drop_first())
    }
}

/// Encoding a text with one more scalar value appends that value's units.
pub proof fn lemma_utf16_of_push(text: Seq<char>, c: char)
    ensures
        utf16_of(text.push(c)) == utf16_of(text) + utf16_of_char(c),
    decreases text.len(),
{
    if text.len() == 0 {
        assert(text.push(c).drop_first() =~= Seq::<char>::empty());
        assert(utf16_of(text.push(c).drop_first()) =~= Seq::<u16>::empty());
        assert(utf16_of(text) =~= Seq::<u16>::empty());
        assert(utf16_of(text.push(c)) =~= utf16_of(text) + utf16_of_char(c));
    } else {
        assert(text.push(c).drop_first() =~= text.drop_first().push(c));
        lemma_utf16_of_push(text.drop_first(), c);
        assert(utf16_of(text.push(c)) =~= utf16_of(text) + utf16_of_char(c));
    }
}

fn push_wide(units: &mut Vec<u16>, c: char)
    ensures
        final(units)@ == old(units)@ + utf16_of_char(c),
{
    let v: u32 = c as u32;
    if v < 0x10000 {
        units.push(v as u16);
    } else {
        let w: u32 = v - 0x10000;
        let high: u32 = 0xD800 + w / 0x400;
        let low: u32 = 0xDC00 + w % 0x400;
        units.push(high as u16);
        units.push(low as u16);
    }
    assert(units@ =~= old(units)@ + utf16_of_char(c));
}

/// Encodes a text as UTF-16 code units, without a terminator.
pub fn encode_wide(text: &str) -> (units: Vec<u16>)
    ensures
        units@ == utf16_of(text@),
{
    let mut units: Vec<u16> = Vec::new();
    for c in it: text.chars()
        invariant
            it.seq() == text@,
            units@ == utf16_of(it.seq().take(it.index() as int)),
    {
        proof {
            let done = it.seq().take(it.index() as int);
            assert(it.seq().take(it.index() + 1) =~= done.push(c));
            lemma_utf16_of_push(done, c);
        }
        push_wide(&mut units, c);
    }
    assert(text@.take(text@.len() as int) =~= text@);
    units
}

/// A code unit that opens a surrogate pair.
pub open spec fn is_high_surrogate(unit: u16) -> bool {
    0xD800 <= unit <= 0xDBFF
}

/// A code unit that closes a surrogate pair.
pub open spec fn is_low_surrogate(unit: u16) -> bool {
    0xDC00 <= unit <= 0xDFFF
}

/// The scalar value that a surrogate pair stands for.
pub open spec fn surrogate_pair(high: u16, low: u16) -> char {
    (0x10000 + (high - 0xD800) * 0x400 + (low - 0xDC00)) as char
}

/// The text that UTF-16 code units stand for, with U+FFFD in place of each
/// surrogate that has no partner.
pub open spec fn utf16_lossy(units: Seq<u16>) -> Seq<char>
    decreases units.len(),
{
    if units.len() == 0 {
        Seq::empty()
    } else if is_high_surrogate(units[0]) && units.len() >= 2 && is_low_surrogate(units[1]) {
        seq![surrogate_pair(units[0], units[1])] + utf16_lossy(units.skip(2))
    } else if is_high_surrogate(units[0]) || is_low_surrogate(units[0]) {
        seq!['\u{FFFD}'] + utf16_lossy(units.drop_first())
    } else {
        seq![units[0] as char] + utf16_lossy(units.drop_first())
    }
}

/// The units of one scalar value decode to that value, whatever follows them.
proof fn lemma_utf16_lossy_first(c: char, rest: Seq<u16>)
    ensures
        utf16_lossy(utf16_of_char(c) + rest) == seq![c] + utf16_lossy(rest),
{
    let units = utf16_of_char(c) + rest;
    if (c as int) < 0x10000 {
        assert(units.drop_first() =~= rest);
        assert(units[0] as char == c);
    } else {
        assert(units.skip(2) =~= rest);
        assert(surrogate_pair(units[0], units[1]) == c);
    }
}

/// Decoding what `utf16_of` encoded gives the text back.
pub proof fn lemma_utf16_round_trip(text: Seq<char>)
    ensures
        utf16_lossy(utf16_of(text)) == text,
    decreases text.len(),
{
    if text.len() == 0 {
        assert(utf16_lossy(utf16_of(text)) =~= text);
    } else {
        lemma_utf16_round_trip(text.drop_first());
        lemma_utf16_lossy_first(text[0], utf16_of(text.drop_first()));
        assert(seq![text[0]] + text.drop_first() =~= text);
    }
}

/// Decodes UTF-16 code units into a text.
///
/// Trusted: this is `String::from_utf16_lossy`, which decodes the units and
/// puts U+FFFD in place of every surrogate that has no partner.
#[verifier::external_body]
pub(crate) fn decode_wide(units: &[u16]) -> (text: String)
    ensures
        text@ == utf16_lossy(units@),
{
    String::from_utf16_lossy(units)
}

} // verus!
