//! Texts as sequences of characters: searching, trimming, case, numerals and
//! the decoding of UTF-8.

use vstd::prelude::*;
use vstd::utf8::*;

verus! {

/// `String::push` appends one character.
pub assume_specification[ String::push ](target: &mut String, c: char)
    ensures
        final(target)@ == old(target)@.push(c),
;

/// `needle` stands in `text` at position `at`.
pub open spec fn occurs_at<T>(text: Seq<T>, needle: Seq<T>, at: int) -> bool {
    0 <= at && at + needle.len() <= text.len() && text.subrange(at, at + needle.len()) == needle
}

/// `needle` stands somewhere in `text`.
pub open spec fn mentions<T>(text: Seq<T>, needle: Seq<T>) -> bool {
    exists|at: int| occurs_at(text, needle, at)
}

/// An ASCII capital becomes its small letter; every other character stays.
pub open spec fn ascii_lower_char(c: char) -> char {
    if 'A' <= c <= 'Z' {
        (c as u32 + 32) as char
    } else {
        c
    }
}

/// The text with its ASCII capitals made small.
pub open spec fn ascii_lower(text: Seq<char>) -> Seq<char> {
    text.map_values(|c: char| ascii_lower_char(c))
}

/// The characters with Unicode's `White_Space` property.
pub open spec fn is_white(c: char) -> bool {
    let n = c as u32;
    ||| 9 <= n <= 13
    ||| n == 0x20
    ||| n == 0x85
    ||| n == 0xa0
    ||| n == 0x1680
    ||| 0x2000 <= n <= 0x200a
    ||| n == 0x2028
    ||| n == 0x2029
    ||| n == 0x202f
    ||| n == 0x205f
    ||| n == 0x3000
}

/// Nothing but white space.
pub open spec fn is_blank(text: Seq<char>) -> bool {
    forall|i: int| 0 <= i < text.len() ==> is_white(#[trigger] text[i])
}

/// The text without the white space at its start.
pub open spec fn without_leading_white(text: Seq<char>) -> Seq<char>
    decreases text.len(),
{
    if text.len() > 0 && is_white(text[0]) {
        without_leading_white(text.skip(1))
    } else {
        text
    }
}

/// The text without the white space at its end.
pub open spec fn without_trailing_white(text: Seq<char>) -> Seq<char>
    decreases text.len(),
{
    if text.len() > 0 && is_white(text.last()) {
        without_trailing_white(text.drop_last())
    } else {
        text
    }
}

/// The text without the white space at its two ends.
pub open spec fn trimmed(text: Seq<char>) -> Seq<char> {
    without_trailing_white(without_leading_white(text))
}

/// The text without the `c`s at its end.
pub open spec fn without_trailing(text: Seq<char>, c: char) -> Seq<char>
    decreases text.len(),
{
    if text.len() > 0 && text.last() == c {
        without_trailing(text.drop_last(), c)
    } else {
        text
    }
}

/// The text without the `c`s at its start.
pub open spec fn without_leading(text: Seq<char>, c: char) -> Seq<char>
    decreases text.len(),
{
    if text.len() > 0 && text[0] == c {
        without_leading(text.skip(1), c)
    } else {
        text
    }
}

/// The first position at which a character stands in a text; the length of the
/// text where it stands nowhere.
pub open spec fn char_index(text: Seq<char>, c: char) -> nat
    decreases text.len(),
{
    if text.len() == 0 || text[0] == c {
        0
    } else {
        1 + char_index(text.skip(1), c)
    }
}

/// The characters of a text.
pub fn chars_of(text: &str) -> (chars: Vec<char>)
    ensures
        chars@ == text@,
{
    let mut chars: Vec<char> = Vec::new();
    for c in iter: text.chars()
        invariant
            chars@ == iter.seq().take(iter.index() as int),
            iter.seq() == text@,
    {
        chars.push(c);
    }
    chars
}

/// The text that the characters from `from` up to `to` spell.
pub fn text_of(chars: &Vec<char>, from: usize, to: usize) -> (text: String)
    requires
        from <= to <= chars@.len(),
    ensures
        text@ == chars@.subrange(from as int, to as int),
{
    let mut text: String = String::new();
    let mut i: usize = from;
    while i < to
        invariant
            from <= i <= to <= chars@.len(),
            text@ == chars@.subrange(from as int, i as int),
        decreases to - i,
    {
        text.push(chars[i]);
        i = i + 1;
        assert(chars@.subrange(from as int, i as int) =~= chars@.subrange(
            from as int,
            i - 1,
        ).push(chars@[i - 1]));
    }
    text
}

/// Whether `needle` stands in `chars` at position `at`.
pub fn matches_at(chars: &Vec<char>, needle: &Vec<char>, at: usize) -> (found: bool)
    requires
        at + needle@.len() <= chars@.len(),
    ensures
        found == occurs_at(chars@, needle@, at as int),
{
    let end: usize = chars.len();
    let mut i: usize = 0;
    while i < needle.len()
        invariant
            i <= needle@.len(),
            at + needle@.len() <= chars@.len() == end,
            forall|k: int| 0 <= k < i ==> chars@[at + k] == #[trigger] needle@[k],
        decreases needle@.len() - i,
    {
        if chars[at + i] != needle[i] {
            assert(chars@.subrange(at as int, at + needle@.len())[i as int] != needle@[i as int]);
            return false;
        }
        i = i + 1;
    }
    assert(chars@.subrange(at as int, at + needle@.len()) =~= needle@);
    true
}

/// Whether `needle` stands somewhere in `chars`.
pub fn has(chars: &Vec<char>, needle: &str) -> (found: bool)
    ensures
        found == mentions(chars@, needle@),
{
    let wanted = chars_of(needle);
    if wanted.len() > chars.len() {
        return false;
    }
    let last: usize = chars.len() - wanted.len();
    let mut at: usize = 0;
    while at < last
        invariant
            wanted@ == needle@,
            last + wanted@.len() == chars@.len(),
            at <= last,
            forall|k: int| 0 <= k < at ==> !occurs_at(chars@, needle@, k),
        decreases last - at,
    {
        if matches_at(chars, &wanted, at) {
            return true;
        }
        at = at + 1;
    }
    matches_at(chars, &wanted, last)
}

/// The characters of a text, its ASCII capitals made small.
pub fn ascii_lower_chars(text: &str) -> (chars: Vec<char>)
    ensures
        chars@ == ascii_lower(text@),
{
    let source = chars_of(text);
    let mut chars: Vec<char> = Vec::new();
    let mut i: usize = 0;
    while i < source.len()
        invariant
            i <= source@.len(),
            source@ == text@,
            chars@ == ascii_lower(text@).take(i as int),
        decreases source@.len() - i,
    {
        let c: char = source[i];
        if 'A' <= c && c <= 'Z' {
            chars.push(((c as u8) + 32) as char);
        } else {
            chars.push(c);
        }
        i = i + 1;
        assert(ascii_lower(text@).take(i as int) =~= ascii_lower(text@).take(i - 1).push(
            ascii_lower_char(text@[i - 1]),
        ));
    }
    assert(ascii_lower(text@).take(i as int) =~= ascii_lower(text@));
    chars
}

/// Whether a character has Unicode's `White_Space` property.
pub fn white(c: char) -> (yes: bool)
    ensures
        yes == is_white(c),
{
    let n: u32 = c as u32;
    (9 <= n && n <= 13) || n == 0x20 || n == 0x85 || n == 0xa0 || n == 0x1680 || (0x2000 <= n && n
        <= 0x200a) || n == 0x2028 || n == 0x2029 || n == 0x202f || n == 0x205f || n == 0x3000
}

/// Whether a text is nothing but white space.
pub fn blank(text: &str) -> (yes: bool)
    ensures
        yes == is_blank(text@),
{
    let chars = chars_of(text);
    let mut i: usize = 0;
    while i < chars.len()
        invariant
            i <= chars@.len(),
            chars@ == text@,
            forall|k: int| 0 <= k < i ==> is_white(#[trigger] text@[k]),
        decreases chars@.len() - i,
    {
        if !white(chars[i]) {
            assert(!is_white(text@[i as int]));
            return false;
        }
        i = i + 1;
    }
    true
}

/// A text without the `c`s at its end.
pub fn trim_end(text: &str, c: char) -> (trimmed: String)
    ensures
        trimmed@ == without_trailing(text@, c),
{
    let chars = chars_of(text);
    let mut to: usize = chars.len();
    assert(chars@.take(to as int) =~= chars@);
    while to > 0
        invariant
            to <= chars@.len(),
            chars@ == text@,
            without_trailing(chars@.take(to as int), c) == without_trailing(text@, c),
        ensures
            to <= chars@.len(),
            chars@.take(to as int) == without_trailing(text@, c),
        decreases to,
    {
        if chars[to - 1] != c {
            break;
        }
        assert(chars@.take(to as int).drop_last() =~= chars@.take(to - 1));
        to = to - 1;
    }
    text_of(&chars, 0, to)
}

/// The first position from `from` on at which `c` stands among the characters;
/// their number where it stands nowhere.
pub fn find_char(chars: &Vec<char>, from: usize, c: char) -> (at: usize)
    requires
        from <= chars@.len(),
    ensures
        from <= at <= chars@.len(),
        at == from + char_index(chars@.skip(from as int), c),
        at < chars@.len() ==> chars@[at as int] == c,
{
    let mut at: usize = from;
    while at < chars.len() && chars[at] != c
        invariant
            from <= at <= chars@.len(),
            char_index(chars@.skip(from as int), c) == (at - from) + char_index(
                chars@.skip(at as int),
                c,
            ),
        decreases chars@.len() - at,
    {
        assert(chars@.skip(at as int).skip(1) =~= chars@.skip(at + 1));
        at = at + 1;
    }
    at
}

/// Whether a text, without the white space at its two ends, is `core`.
pub fn trims_to(text: &str, core: &str) -> (yes: bool)
    ensures
        yes == (trimmed(text@) == core@),
{
    let chars = chars_of(text);
    let mut from: usize = 0;
    assert(chars@.skip(0) =~= chars@);
    while from < chars.len() && white(chars[from])
        invariant
            from <= chars@.len(),
            chars@ == text@,
            without_leading_white(chars@.skip(from as int)) == without_leading_white(text@),
        decreases chars@.len() - from,
    {
        assert(chars@.skip(from as int).skip(1) =~= chars@.skip(from + 1));
        from = from + 1;
    }
    let ghost rest = without_leading_white(text@);
    assert(rest == chars@.skip(from as int));
    let mut to: usize = chars.len();
    assert(chars@.subrange(from as int, to as int) =~= rest);
    while from < to && white(chars[to - 1])
        invariant
            from <= to <= chars@.len(),
            without_trailing_white(chars@.subrange(from as int, to as int))
                == without_trailing_white(rest),
        decreases to,
    {
        assert(chars@.subrange(from as int, to as int).drop_last() =~= chars@.subrange(
            from as int,
            to - 1,
        ));
        to = to - 1;
    }
    assert(trimmed(text@) == chars@.subrange(from as int, to as int));
    same(text_of(&chars, from, to).as_str(), core)
}

/// The digit of a number below ten.
pub open spec fn digit_char(d: int) -> char {
    (48 + d) as char
}

/// The decimal numeral of a number, without leading zeros.
pub open spec fn decimal(n: nat) -> Seq<char>
    decreases n,
{
    if n < 10 {
        seq![digit_char(n as int)]
    } else {
        decimal(n / 10).push(digit_char((n % 10) as int))
    }
}

/// The decimal numeral of a number.
pub fn numeral(n: u128) -> (text: String)
    ensures
        text@ == decimal(n as nat),
    decreases n,
{
    if n < 10 {
        let mut text: String = String::new();
        text.push((48 + n as u8) as char);
        assert(text@ =~= decimal(n as nat));
        text
    } else {
        let mut text = numeral(n / 10);
        text.push((48 + (n % 10) as u8) as char);
        text
    }
}

/// The value of a string of ASCII digits, the empty string counting as zero;
/// `None` where another character stands in it.
pub open spec fn digits_value(text: Seq<char>) -> Option<nat>
    decreases text.len(),
{
    if text.len() == 0 {
        Some(0)
    } else {
        match digits_value(text.drop_last()) {
            Some(n) => if '0' <= text.last() <= '9' {
                Some(10 * n + (text.last() as nat - 48) as nat)
            } else {
                None
            },
            None => None,
        }
    }
}

/// The text without a plus sign at its start, where it has one.
pub open spec fn without_sign(text: Seq<char>) -> Seq<char> {
    if text.len() > 0 && text[0] == '+' {
        text.skip(1)
    } else {
        text
    }
}

/// The number that a numeral stands for: an optional plus sign and one or more
/// ASCII digits, of a value that fits in 32 bits.
pub open spec fn u32_value(text: Seq<char>) -> Option<u32> {
    let digits = without_sign(text);
    match digits_value(digits) {
        Some(n) => if digits.len() > 0 && n <= u32::MAX {
            Some(n as u32)
        } else {
            None
        },
        None => None,
    }
}

/// A string of digits is worth at least each of its beginnings.
proof fn lemma_digits_grow(text: Seq<char>, i: int)
    requires
        0 <= i <= text.len(),
    ensures
        digits_value(text.take(i)) is None ==> digits_value(text) is None,
        digits_value(text) matches Some(n) ==> digits_value(text.take(i))->0 <= n,
    decreases text.len() - i,
{
    if i < text.len() {
        assert(text.take(i + 1).drop_last() =~= text.take(i));
        lemma_digits_grow(text, i + 1);
    } else {
        assert(text.take(i) =~= text);
    }
}

/// A numeral reads back as the number that it was made of.
pub proof fn lemma_decimal_value(n: nat)
    ensures
        digits_value(decimal(n)) == Some(n),
    decreases n,
{
    if n < 10 {
        assert(decimal(n).drop_last() =~= Seq::<char>::empty());
        assert(digits_value(decimal(n).drop_last()) == Some(0nat));
    } else {
        lemma_decimal_value(n / 10);
        assert(decimal(n).drop_last() =~= decimal(n / 10));
    }
}

/// The number that the characters from `from` up to `to` stand for.
pub fn parse_u32(chars: &Vec<char>, from: usize, to: usize) -> (number: Option<u32>)
    requires
        from <= to <= chars@.len(),
    ensures
        number == u32_value(chars@.subrange(from as int, to as int)),
{
    let start: usize = if from < to && chars[from] == '+' {
        from + 1
    } else {
        from
    };
    let ghost digits = without_sign(chars@.subrange(from as int, to as int));
    assert(digits =~= chars@.subrange(start as int, to as int));
    if start == to {
        return None;
    }
    let mut value: u64 = 0;
    let mut i: usize = start;
    assert(digits.take(0) =~= Seq::<char>::empty());
    while i < to
        invariant
            from <= start <= i <= to <= chars@.len(),
            digits == chars@.subrange(start as int, to as int),
            digits == without_sign(chars@.subrange(from as int, to as int)),
            digits_value(digits.take(i - start)) == Some(value as nat),
            value <= u32::MAX,
        decreases to - i,
    {
        let c: char = chars[i];
        assert(c == digits[i - start]);
        assert(digits.take(i + 1 - start).drop_last() =~= digits.take(i - start));
        proof {
            lemma_digits_grow(digits, i + 1 - start);
        }
        if c < '0' || '9' < c {
            return None;
        }
        value = 10 * value + (c as u64 - 48);
        if value > 0xffff_ffff {
            return None;
        }
        i = i + 1;
    }
    assert(digits.take(i - start) =~= digits);
    Some(value as u32)
}

/// The texts one after the other, `sep` between each two.
pub open spec fn joined(texts: Seq<Seq<char>>, sep: Seq<char>) -> Seq<char>
    decreases texts.len(),
{
    if texts.len() == 0 {
        Seq::empty()
    } else if texts.len() == 1 {
        texts[0]
    } else {
        joined(texts.drop_last(), sep) + sep + texts.last()
    }
}

/// Whether two texts are the same.
pub fn same(a: &str, b: &str) -> (yes: bool)
    ensures
        yes == (a@ == b@),
{
    a.to_owned() == b.to_owned()
}

/// Three texts one after the other.
pub fn concat3(a: &str, b: &str, c: &str) -> (text: String)
    ensures
        text@ == a@ + b@ + c@,
{
    let mut text: String = a.to_owned();
    text.append(b);
    text.append(c);
    text
}

/// What `String::from_utf8_lossy` makes of a byte string.
pub uninterp spec fn utf8_lossy(bytes: Seq<u8>) -> Seq<char>;

/// Calls `String::from_utf8_lossy`. Its result depends on the bytes alone, and
/// is what they spell where they are valid UTF-8; what stands in for invalid
/// bytes is left unsaid.
#[verifier::external_body]
pub(crate) fn text_from_utf8_lossy(bytes: &[u8]) -> (text: String)
    ensures
        text@ == utf8_lossy(bytes@),
        valid_utf8(bytes@) ==> text@ == decode_utf8(bytes@),
{
    String::from_utf8_lossy(bytes).into_owned()
}

/// Calls `std::str::from_utf8`: the text that the bytes spell, where they are
/// valid UTF-8.
#[verifier::external_body]
pub(crate) fn text_from_utf8(bytes: &[u8]) -> (text: Option<&str>)
    ensures
        match text {
            Some(s) => valid_utf8(bytes@) && s@ == decode_utf8(bytes@),
            None => !valid_utf8(bytes@),
        },
{
    std::str::from_utf8(bytes).ok()
}

/// What `str::to_lowercase` makes of a text.
pub uninterp spec fn unicode_lower(text: Seq<char>) -> Seq<char>;

/// Calls `str::to_lowercase`. Its result depends on the text alone; on ASCII
/// text it makes the capitals small.
#[verifier::external_body]
pub(crate) fn text_lowercase(text: &str) -> (lower: String)
    ensures
        lower@ == unicode_lower(text@),
        is_ascii_chars(text@) ==> lower@ == ascii_lower(text@),
{
    text.to_lowercase()
}

} // verus!
