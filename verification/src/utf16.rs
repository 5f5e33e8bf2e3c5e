use vstd::prelude::*;
use vstd::utf8::is_scalar;
use crate::text::push_char;

verus! {

broadcast use {vstd::utf8::char_is_scalar, vstd::utf8::char_u32_cast};

/// Whether a unit is the first half of a pair that stands for one character.
pub open spec fn is_high(unit: u16) -> bool {
    0xD800 <= unit <= 0xDBFF
}

/// Whether a unit is the second half of a pair that stands for one
/// character.
pub open spec fn is_low(unit: u16) -> bool {
    0xDC00 <= unit <= 0xDFFF
}

/// The one or two units that stand for a character in UTF-16.
pub open spec fn units_of(c: char) -> Seq<u16> {
    let code = c as u32;
    if code < 0x10000 {
        seq![code as u16]
    } else {
        seq![
            (0xD800 + (code - 0x10000) / 0x400) as u16,
            (0xDC00 + (code - 0x10000) % 0x400) as u16,
        ]
    }
}

/// A text in UTF-16.
pub open spec fn utf16(text: Seq<char>) -> Seq<u16>
    decreases text.len(),
{
    if text.len() == 0 {
        Seq::empty()
    } else {
        units_of(text[0]) + utf16(text.drop_first())
    }
}

/// The character that a pair of units stands for.
pub open spec fn paired(high: u16, low: u16) -> char {
    ((0x10000 + (high - 0xD800) * 0x400 + (low - 0xDC00)) as u32) as char
}

/// The character that takes the place of a unit that stands for none.
pub open spec fn replacement() -> char {
    '\u{FFFD}'
}

/// The text that units in UTF-16 stand for. A unit that is half of a pair
/// and stands without its other half gives the replacement character.
pub open spec fn utf16_lossy(units: Seq<u16>) -> Seq<char>
    decreases units.len(),
{
    if units.len() == 0 {
        Seq::empty()
    } else if !is_high(units[0]) && !is_low(units[0]) {
        seq![(units[0] as u32) as char] + utf16_lossy(units.drop_first())
    } else if is_high(units[0]) && units.len() >= 2 && is_low(units[1]) {
        seq![paired(units[0], units[1])] + utf16_lossy(units.skip(2))
    } else {
        seq![replacement()] + utf16_lossy(units.drop_first())
    }
}

/// Calls `char::from_u32` on the code of a character and takes the character
/// out of the result.
#[verifier::external_body]
fn char_of(code: u32) -> (c: char)
    requires
        is_scalar(code),
    ensures
        c == code as char,
{
    char::from_u32(code).unwrap_or(char::REPLACEMENT_CHARACTER)
}

/// The encoding of a text with one more character is the encoding of the
/// text with the units of the character after it.
pub proof fn utf16_push(text: Seq<char>, c: char)
    ensures
        utf16(text.push(c)) == utf16(text) + units_of(c),
    decreases text.len(),
{
    if text.len() == 0 {
        assert(text.push(c).drop_first() =~= Seq::<char>::empty());
        assert(text.push(c)[0] == c);
        assert(utf16(Seq::<char>::empty()) =~= Seq::<u16>::empty());
        assert(utf16(text) =~= Seq::<u16>::empty());
        assert(utf16(text.push(c)) =~= units_of(c) + utf16(text.push(c).drop_first()));
        assert(utf16(text.push(c)) =~= utf16(text) + units_of(c));
    } else {
        utf16_push(text.drop_first(), c);
        assert(text.push(c).drop_first() =~= text.drop_first().push(c));
        assert(text.push(c)[0] == text[0]);
        assert(utf16(text.push(c)) =~= units_of(text[0]) + utf16(text.drop_first().push(c)));
        assert(utf16(text.push(c)) =~= utf16(text) + units_of(c));
    }
}

/// Writes a text in UTF-16.
pub fn encode(text: &str) -> (units: Vec<u16>)
    ensures
        units@ == utf16(text@),
{
    let mut units: Vec<u16> = Vec::new();
    for c in it: text.chars()
        invariant
            it.seq() == text@,
            units@ == utf16(text@.take(it.index())),
    {
        proof {
            utf16_push(text@.take(it.index()), c);
            assert(text@.take(it.index() + 1) =~= text@.take(it.index()).push(c));
        }
        let code: u32 = c as u32;
        if code < 0x10000 {
            units.push(code as u16);
        } else {
            units.push((0xD800 + (code - 0x10000) / 0x400) as u16);
            units.push((0xDC00 + (code - 0x10000) % 0x400) as u16);
        }
        assert(units@ =~= utf16(text@.take(it.index())) + units_of(c));
    }
    assert(text@.take(text@.len() as int) =~= text@);
    units
}

/// Reads the text that units in UTF-16 stand for.
pub fn decode_lossy(units: &Vec<u16>) -> (text: String)
    ensures
        text@ == utf16_lossy(units@),
{
    let mut text = String::new();
    let mut i: usize = 0;
    assert(units@.skip(0) =~= units@);
    assert(text@ + utf16_lossy(units@) =~= utf16_lossy(units@));
    while i < units.len()
        invariant
            i <= units.len(),
            text@ + utf16_lossy(units@.skip(i as int)) == utf16_lossy(units@),
        decreases units.len() - i,
    {
        let unit = units[i];
        let ghost rest = units@.skip(i as int);
        assert(rest[0] == unit);
        assert(rest.drop_first() =~= units@.skip(i + 1));
        if unit < 0xD800 || unit > 0xDFFF {
            push_char(&mut text, char_of(unit as u32));
            i = i + 1;
        } else if unit <= 0xDBFF && i + 1 < units.len() && units[i + 1] >= 0xDC00 && units[i + 1]
            <= 0xDFFF {
            let low = units[i + 1];
            assert(rest[1] == low);
            assert(rest.skip(2) =~= units@.skip(i + 2));
            let code: u32 = 0x10000 + (unit as u32 - 0xD800) * 0x400 + (low as u32 - 0xDC00);
            push_char(&mut text, char_of(code));
            i = i + 2;
        } else {
            push_char(&mut text, '\u{FFFD}');
            i = i + 1;
        }
        assert(text@ + utf16_lossy(units@.skip(i as int)) =~= utf16_lossy(units@));
    }
    assert(units@.skip(units.len() as int) =~= Seq::<u16>::empty());
    assert(text@ + Seq::<char>::empty() =~= text@);
    text
}

/// Reading the units written for a character, with whatever follows them,
/// gives the character, with whatever the rest gives.
pub proof fn lossy_of_units(c: char, rest: Seq<u16>)
    ensures
        utf16_lossy(units_of(c) + rest) == seq![c] + utf16_lossy(rest),
{
    let code = c as u32;
    let all = units_of(c) + rest;
    assert(is_scalar(code));
    if code < 0x10000 {
        assert(all[0] == code as u16);
        assert(all.drop_first() =~= rest);
        assert((all[0] as u32) as char == c);
    } else {
        let high = (0xD800 + (code - 0x10000) / 0x400) as u16;
        let low = (0xDC00 + (code - 0x10000) % 0x400) as u16;
        assert(all[0] == high && all[1] == low);
        assert(all.skip(2) =~= rest);
        assert(is_high(high) && is_low(low));
        assert(0x10000 + (high - 0xD800) * 0x400 + (low - 0xDC00) == code);
        assert(paired(high, low) == c);
    }
}

/// A text that is written in UTF-16 and read back is the same text.
pub proof fn lossy_inverts_utf16(text: Seq<char>)
    ensures
        utf16_lossy(utf16(text)) == text,
    decreases text.len(),
{
    if text.len() > 0 {
        lossy_inverts_utf16(text.drop_first());
        lossy_of_units(text[0], utf16(text.drop_first()));
        assert(seq![text[0]] + text.drop_first() =~= text);
    }
}

/// The code of a character.
pub open spec fn code_of(c: char) -> u32 {
    c as u32
}

/// A character of another code than zero has no unit zero in UTF-16.
pub proof fn units_without_zero(c: char)
    requires
        code_of(c) != 0,
    ensures
        forall|j: int| 0 <= j < units_of(c).len() ==> #[trigger] units_of(c)[j] != 0,
{
    let code = c as u32;
    assert(is_scalar(code));
    if code >= 0x10000 {
        assert(code <= 0x10FFFF);
    }
}

/// A text without the character of code zero has no unit zero in UTF-16.
pub proof fn utf16_without_zero(text: Seq<char>)
    requires
        forall|i: int| 0 <= i < text.len() ==> code_of(#[trigger] text[i]) != 0,
    ensures
        forall|j: int| 0 <= j < utf16(text).len() ==> #[trigger] utf16(text)[j] != 0,
    decreases text.len(),
{
    if text.len() > 0 {
        let rest = text.drop_first();
        assert forall|i: int| 0 <= i < rest.len() implies code_of(#[trigger] rest[i]) != 0 by {
            assert(rest[i] == text[i + 1]);
        }
        utf16_without_zero(rest);
        let head = units_of(text[0]);
        assert(code_of(text[0]) != 0);
        units_without_zero(text[0]);
        assert(utf16(text) == head + utf16(rest));
        assert forall|j: int| 0 <= j < utf16(text).len() implies #[trigger] utf16(text)[j]
            != 0 by {
            if j < head.len() {
                assert(utf16(text)[j] == head[j]);
            } else {
                assert(utf16(text)[j] == utf16(rest)[j - head.len()]);
            }
        }
    }
}

} // verus!
