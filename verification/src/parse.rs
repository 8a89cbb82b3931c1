//! Reading what the user typed: unsigned decimal numbers, surrounding white
//! space, and image dimensions written as `WxH`.

use vstd::prelude::*;

verus! {

/// `c` is one of the ten ASCII digits.
pub open spec fn is_digit(c: char) -> bool {
    '0' <= c <= '9'
}

/// The number that the ASCII digit `c` stands for; 0 for any other character.
pub open spec fn digit_value(c: char) -> nat {
    if is_digit(c) {
        (c as int - '0' as int) as nat
    } else {
        0
    }
}

/// Every character of `text` is an ASCII digit.
pub open spec fn all_digits(text: Seq<char>) -> bool {
    forall|i: int| 0 <= i < text.len() ==> is_digit(#[trigger] text[i])
}

/// The number that `digits` writes in base ten; 0 for no digits at all.
pub open spec fn decimal(digits: Seq<char>) -> nat
    decreases digits.len(),
{
    if digits.len() == 0 {
        0
    } else {
        10 * decimal(digits.drop_last()) + digit_value(digits.last())
    }
}

/// `text` without the one plus sign that may lead an unsigned number.
pub open spec fn after_sign(text: Seq<char>) -> Seq<char> {
    if text.len() > 0 && text[0] == '+' {
        text.drop_first()
    } else {
        text
    }
}

/// The number that `text` writes, if `text` is an unsigned decimal number: an
/// optional plus sign followed by one or more ASCII digits and nothing else.
/// Leading zeros are allowed; white space, other signs and separators are not.
pub open spec fn unsigned(text: Seq<char>) -> Option<nat> {
    let digits = after_sign(text);
    if digits.len() > 0 && all_digits(digits) {
        Some(decimal(digits))
    } else {
        None
    }
}

/// The number that `text` writes, if it is an unsigned decimal number no larger
/// than `u32::MAX`.
pub open spec fn unsigned_u32(text: Seq<char>) -> Option<u32> {
    match unsigned(text) {
        Some(value) => if value <= u32::MAX {
            Some(value as u32)
        } else {
            None
        },
        None => None,
    }
}

/// `c` is a white-space character: one of the code points with the Unicode
/// property `White_Space`.
pub open spec fn is_space(c: char) -> bool {
    let code = c as u32;
    ||| 0x09 <= code <= 0x0D
    ||| code == 0x20
    ||| code == 0x85
    ||| code == 0xA0
    ||| code == 0x1680
    ||| 0x2000 <= code <= 0x200A
    ||| code == 0x2028
    ||| code == 0x2029
    ||| code == 0x202F
    ||| code == 0x205F
    ||| code == 0x3000
}

/// `text` without the white space at its start.
pub open spec fn trim_start(text: Seq<char>) -> Seq<char>
    decreases text.len(),
{
    if text.len() > 0 && is_space(text[0]) {
        trim_start(text.drop_first())
    } else {
        text
    }
}

/// `text` without the white space at its end.
pub open spec fn trim_end(text: Seq<char>) -> Seq<char>
    decreases text.len(),
{
    if text.len() > 0 && is_space(text.last()) {
        trim_end(text.drop_last())
    } else {
        text
    }
}

/// `text` without the white space at its start and at its end.
pub open spec fn trim(text: Seq<char>) -> Seq<char> {
    trim_end(trim_start(text))
}

/// The index of the first `x` in `text`; the length of `text` if it holds none.
pub open spec fn first_x(text: Seq<char>) -> int
    decreases text.len(),
{
    if text.len() == 0 || text[0] == 'x' {
        0
    } else {
        1 + first_x(text.drop_first())
    }
}

/// The width and height that `text` gives in the form `WxH`: an unsigned
/// decimal number, the letter `x`, and a second unsigned decimal number, each
/// no larger than `u32::MAX`, with nothing before, between or after them.
pub open spec fn dimensions(text: Seq<char>) -> Option<(u32, u32)> {
    let at = first_x(text);
    if at < text.len() {
        match (unsigned_u32(text.take(at)), unsigned_u32(text.skip(at + 1))) {
            (Some(width), Some(height)) => Some((width, height)),
            _ => None,
        }
    } else {
        None
    }
}

/// The number that a text writes is at least the number that any leading part
/// of it writes.
pub proof fn lemma_decimal_prefix(digits: Seq<char>, count: int)
    requires
        0 <= count <= digits.len(),
    ensures
        decimal(digits.take(count)) <= decimal(digits),
    decreases digits.len(),
{
    if count == digits.len() {
        assert(digits.take(count) == digits);
    } else {
        lemma_decimal_prefix(digits.drop_last(), count);
        assert(digits.drop_last().take(count) == digits.take(count));
    }
}

/// The first `x` of a text is the one place that holds an `x` and has none
/// before it.
pub proof fn lemma_first_x(text: Seq<char>, at: int)
    requires
        0 <= at <= text.len(),
        forall|i: int| 0 <= i < at ==> text[i] != 'x',
        at < text.len() ==> text[at] == 'x',
    ensures
        first_x(text) == at,
    decreases text.len(),
{
    if at > 0 {
        let rest = text.drop_first();
        assert forall|i: int| 0 <= i < at - 1 implies rest[i] != 'x' by {
            assert(rest[i] == text[i + 1]);
        }
        lemma_first_x(rest, at - 1);
    }
}

/// What is left of a text without the white space at its start is the text
/// from some place on; all before that place is white space, and what stands
/// there, if anything, is not.
pub proof fn lemma_trim_start(text: Seq<char>) -> (from: int)
    ensures
        0 <= from <= text.len(),
        trim_start(text) == text.skip(from),
        forall|i: int| 0 <= i < from ==> is_space(#[trigger] text[i]),
        from < text.len() ==> !is_space(text[from]),
    decreases text.len(),
{
    if text.len() > 0 && is_space(text[0]) {
        let rest = text.drop_first();
        let from = lemma_trim_start(rest);
        assert(rest.skip(from) == text.skip(from + 1));
        assert forall|i: int| 0 <= i < from + 1 implies is_space(#[trigger] text[i]) by {
            if i > 0 {
                assert(text[i] == rest[i - 1]);
            }
        }
        from + 1
    } else {
        assert(text.skip(0) == text);
        0
    }
}

/// What is left of a text without the white space at its end is the text up
/// to some place; all from that place on is white space, and what stands
/// before it, if anything, is not.
pub proof fn lemma_trim_end(text: Seq<char>) -> (to: int)
    ensures
        0 <= to <= text.len(),
        trim_end(text) == text.take(to),
        forall|i: int| to <= i < text.len() ==> is_space(#[trigger] text[i]),
        0 < to ==> !is_space(text[to - 1]),
    decreases text.len(),
{
    if text.len() > 0 && is_space(text.last()) {
        let rest = text.drop_last();
        let to = lemma_trim_end(rest);
        assert(rest.take(to) == text.take(to));
        assert forall|i: int| to <= i < text.len() implies is_space(#[trigger] text[i]) by {
            if i < rest.len() {
                assert(text[i] == rest[i]);
            }
        }
        to
    } else {
        assert(text.take(text.len() as int) == text);
        text.len() as int
    }
}

/// Trimmed text is the part of the text between two places: all before the
/// first and all from the second on is white space, and the part neither
/// starts nor ends with white space.
pub proof fn lemma_trim(text: Seq<char>) -> (bounds: (int, int))
    ensures
        0 <= bounds.0 <= bounds.1 <= text.len(),
        trim(text) == text.subrange(bounds.0, bounds.1),
        forall|i: int| 0 <= i < bounds.0 ==> is_space(#[trigger] text[i]),
        forall|i: int| bounds.1 <= i < text.len() ==> is_space(#[trigger] text[i]),
        bounds.0 < bounds.1 ==> !is_space(text[bounds.0]) && !is_space(text[bounds.1 - 1]),
{
    let from = lemma_trim_start(text);
    let inner = text.skip(from);
    let kept = lemma_trim_end(inner);
    let to = from + kept;
    assert(inner.take(kept) == text.subrange(from, to));
    assert forall|i: int| to <= i < text.len() implies is_space(#[trigger] text[i]) by {
        assert(text[i] == inner[i - from]);
    }
    if kept > 0 {
        assert(inner[kept - 1] == text[to - 1]);
    }
    (from, to)
}

/// An unsigned decimal number holds no `x`.
pub proof fn lemma_unsigned_holds_no_x(text: Seq<char>, at: int)
    requires
        unsigned(text) is Some,
        0 <= at < text.len(),
    ensures
        text[at] != 'x',
{
    let digits = after_sign(text);
    if text[0] == '+' {
        if at > 0 {
            assert(is_digit(digits[at - 1]));
        }
    } else {
        assert(is_digit(digits[at]));
    }
}

/// Two unsigned decimal numbers that fit `u32`, written with an `x` between
/// them, give those numbers as width and height.
pub proof fn lemma_dimensions_of_numbers(width: Seq<char>, height: Seq<char>)
    requires
        unsigned_u32(width) is Some,
        unsigned_u32(height) is Some,
    ensures
        dimensions(width + seq!['x'] + height) == Some(
            (unsigned_u32(width)->0, unsigned_u32(height)->0),
        ),
{
    let text = width + seq!['x'] + height;
    let at = width.len() as int;
    assert forall|i: int| 0 <= i < at implies text[i] != 'x' by {
        lemma_unsigned_holds_no_x(width, i);
    }
    lemma_first_x(text, at);
    assert(text.take(at) == width);
    assert(text.skip(at + 1) == height);
}

/// Text that gives dimensions is made of two unsigned decimal numbers with an
/// `x` between them.
pub proof fn lemma_dimensions_are_two_numbers(text: Seq<char>)
    requires
        dimensions(text) is Some,
    ensures
        0 <= first_x(text) < text.len(),
        text == text.take(first_x(text)) + seq!['x'] + text.skip(first_x(text) + 1),
        dimensions(text) matches Some(size) && unsigned_u32(text.take(first_x(text))) == Some(
            size.0,
        ) && unsigned_u32(text.skip(first_x(text) + 1)) == Some(size.1),
{
    lemma_first_x_is_an_x(text);
    let at = first_x(text);
    assert(text =~= text.take(at) + seq!['x'] + text.skip(at + 1));
}

/// The first `x` of a text lies within the text or at its end, and where it
/// lies within, an `x` stands there.
pub proof fn lemma_first_x_is_an_x(text: Seq<char>)
    ensures
        0 <= first_x(text) <= text.len(),
        first_x(text) < text.len() ==> text[first_x(text)] == 'x',
    decreases text.len(),
{
    if text.len() > 0 && text[0] != 'x' {
        lemma_first_x_is_an_x(text.drop_first());
    }
}

/// The characters of `text`, one for one.
pub fn chars_of(text: &str) -> (chars: Vec<char>)
    ensures
        chars@ == text@,
{
    let mut chars: Vec<char> = Vec::new();
    for ch in walk: text.chars()
        invariant
            chars@ == walk.seq().take(walk.index() as int),
            walk.seq() == text@,
    {
        chars.push(ch);
    }
    chars
}

/// Whether `c` is a white-space character.
pub fn is_white_space(c: char) -> (yes: bool)
    ensures
        yes == is_space(c),
{
    let code: u32 = c as u32;
    (0x09 <= code && code <= 0x0D) || code == 0x20 || code == 0x85 || code == 0xA0 || code
        == 0x1680 || (0x2000 <= code && code <= 0x200A) || code == 0x2028 || code == 0x2029
        || code == 0x202F || code == 0x205F || code == 0x3000
}

/// The bounds of `text` without the white space at its start and end.
pub(crate) fn trimmed_bounds(text: &Vec<char>) -> (bounds: (usize, usize))
    ensures
        bounds.0 <= bounds.1 <= text.len(),
        text@.subrange(bounds.0 as int, bounds.1 as int) == trim(text@),
{
    let mut from: usize = 0;
    assert(text@.skip(0) == text@);
    while from < text.len() && is_white_space(text[from])
        invariant
            from <= text.len(),
            trim_start(text@) == trim_start(text@.skip(from as int)),
        decreases text.len() - from,
    {
        assert(text@.skip(from as int).drop_first() == text@.skip(from + 1));
        from = from + 1;
    }
    assert(trim_start(text@) == text@.skip(from as int));
    let mut to: usize = text.len();
    assert(text@.subrange(from as int, to as int) == text@.skip(from as int));
    while to > from && is_white_space(text[to - 1])
        invariant
            from <= to <= text.len(),
            trim(text@) == trim_end(text@.subrange(from as int, to as int)),
        decreases to - from,
    {
        assert(text@.subrange(from as int, to as int).drop_last() == text@.subrange(
            from as int,
            to - 1,
        ));
        to = to - 1;
    }
    (from, to)
}

/// Reads the characters of `text` from `from` up to `to` as an unsigned
/// decimal number.
pub(crate) fn parse_unsigned_within(text: &Vec<char>, from: usize, to: usize) -> (value: Option<
    u32,
>)
    requires
        from <= to <= text.len(),
    ensures
        value == unsigned_u32(text@.subrange(from as int, to as int)),
{
    let ghost part = text@.subrange(from as int, to as int);
    let start: usize = if from < to && text[from] == '+' { from + 1 } else { from };
    let ghost digits = after_sign(part);
    assert(digits == text@.subrange(start as int, to as int));
    if start == to {
        return None;
    }
    let mut value: u32 = 0;
    let mut at: usize = start;
    while at < to
        invariant
            from <= start <= at <= to <= text.len(),
            digits == text@.subrange(start as int, to as int),
            digits == after_sign(text@.subrange(from as int, to as int)),
            all_digits(digits.take(at - start)),
            value == decimal(digits.take(at - start)),
        decreases to - at,
    {
        let ch: char = text[at];
        let ghost seen = digits.take(at - start + 1);
        assert(seen.drop_last() == digits.take(at - start));
        assert(seen.last() == ch);
        if ch < '0' || ch > '9' {
            assert(!is_digit(digits[at - start]));
            return None;
        }
        let digit: u32 = ch as u32 - '0' as u32;
        let next: u64 = (value as u64) * 10 + digit as u64;
        assert(next == decimal(seen));
        if next > 0xFFFF_FFFF {
            proof {
                lemma_decimal_prefix(digits, at - start + 1);
            }
            return None;
        }
        assert forall|i: int| 0 <= i < seen.len() implies is_digit(#[trigger] seen[i]) by {
            if i < at - start {
                assert(seen[i] == digits.take(at - start)[i]);
            }
        }
        value = next as u32;
        at = at + 1;
    }
    assert(digits.take(at - start) == digits);
    Some(value)
}

/// Reads `text` as an unsigned decimal number: an optional plus sign, then one
/// or more ASCII digits. Anything else, and any number above `u32::MAX`, gives
/// `None`.
pub fn parse_unsigned(text: &str) -> (value: Option<u32>)
    ensures
        value == unsigned_u32(text@),
{
    let chars = chars_of(text);
    assert(chars@.subrange(0, chars@.len() as int) == chars@);
    parse_unsigned_within(&chars, 0, chars.len())
}

/// Reads `text` as image dimensions in the form `WxH`, such as `600x777`.
/// Anything that is not of this form gives `None`: a missing `x`, a missing or
/// malformed number, white space, or more after the height.
pub fn parse_dimensions(text: &str) -> (size: Option<(u32, u32)>)
    ensures
        size == dimensions(text@),
{
    let chars = chars_of(text);
    let mut at: usize = 0;
    while at < chars.len() && chars[at] != 'x'
        invariant
            at <= chars.len(),
            forall|i: int| 0 <= i < at ==> chars@[i] != 'x',
        decreases chars.len() - at,
    {
        at = at + 1;
    }
    proof {
        lemma_first_x(chars@, at as int);
    }
    if at == chars.len() {
        return None;
    }
    assert(chars@.take(at as int) == chars@.subrange(0, at as int));
    assert(chars@.skip(at + 1) == chars@.subrange(at + 1, chars@.len() as int));
    let width = parse_unsigned_within(&chars, 0, at);
    let height = parse_unsigned_within(&chars, at + 1, chars.len());
    match (width, height) {
        (Some(width), Some(height)) => Some((width, height)),
        _ => None,
    }
}

} // verus!
