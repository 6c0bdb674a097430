//! Texts: what it means to occur, to be trimmed, to be a numeral.

use crate::counter::Counter;
use crate::text;
use vstd::prelude::*;

verus! {

/// What stands between two texts stands in the whole, and at that place.
pub proof fn law_what_stands_inside_is_mentioned<T>(
    before: Seq<T>,
    needle: Seq<T>,
    after: Seq<T>,
)
    ensures
        text::occurs_at(before + needle + after, needle, before.len() as int),
        text::mentions(before + needle + after, needle),
{
    let whole = before + needle + after;
    assert(whole.subrange(before.len() as int, (before.len() + needle.len()) as int) =~= needle);
    assert(text::occurs_at(whole, needle, before.len() as int));
}

/// What is mentioned stands inside: there is something before it and something
/// after it, empty or not.
pub proof fn law_what_is_mentioned_stands_inside<T>(whole: Seq<T>, needle: Seq<T>)
    requires
        text::mentions(whole, needle),
    ensures
        exists|before: Seq<T>, after: Seq<T>| whole == #[trigger] (before + needle + after),
{
    let at = choose|at: int| text::occurs_at(whole, needle, at);
    let before = whole.take(at);
    let after = whole.skip(at + needle.len());
    assert(whole =~= before + needle + after);
}

/// The ASCII letters are made small, and every other character stays as it is
/// and where it is.
pub proof fn law_ascii_letters_are_made_small(said: Seq<char>, i: int)
    requires
        0 <= i < said.len(),
    ensures
        text::ascii_lower(said).len() == said.len(),
        'A' <= said[i] <= 'Z' ==> text::ascii_lower(said)[i] as int - 'a' as int == said[i] as int
            - 'A' as int,
        !('A' <= said[i] <= 'Z') ==> text::ascii_lower(said)[i] == said[i],
{
}

/// White space is what Unicode calls so: among the characters of ASCII the
/// blank and the five from the tab to the carriage return.
pub proof fn law_white_space(c: char)
    ensures
        (c as u32) < 128 ==> (text::is_white(c) <==> c == ' ' || c == '\t' || c == '\n' || c
            == '\u{b}' || c == '\u{c}' || c == '\r'),
        (c as u32) >= 128 ==> (text::is_white(c) <==> c == '\u{85}' || c == '\u{a0}' || c
            == '\u{1680}' || '\u{2000}' <= c <= '\u{200a}' || c == '\u{2028}' || c == '\u{2029}' || c
            == '\u{202f}' || c == '\u{205f}' || c == '\u{3000}'),
{
}

/// A text is blank if and only if no character of it is anything but white
/// space.
pub proof fn law_blank_texts(said: Seq<char>, i: int)
    ensures
        said.len() == 0 ==> text::is_blank(said),
        0 <= i < said.len() && !text::is_white(said[i]) ==> !text::is_blank(said),
        !text::is_blank(said) ==> exists|k: int|
            0 <= k < said.len() && !text::is_white(#[trigger] said[k]),
{
}

/// Trimming takes away the white space around a text and nothing else.
pub proof fn law_trimming_takes_the_white_space_around(
    before: Seq<char>,
    core: Seq<char>,
    after: Seq<char>,
)
    requires
        text::is_blank(before),
        text::is_blank(after),
        core.len() > 0,
        !text::is_white(core[0]),
        !text::is_white(core.last()),
    ensures
        text::trimmed(before + core + after) == core,
{
    lemma_leading_white(before, core + after);
    assert(before + core + after =~= before + (core + after));
    assert((core + after)[0] == core[0]);
    lemma_trailing_white(core, after);
}

proof fn lemma_leading_white(white: Seq<char>, rest: Seq<char>)
    requires
        text::is_blank(white),
        rest.len() > 0,
        !text::is_white(rest[0]),
    ensures
        text::without_leading_white(white + rest) == rest,
    decreases white.len(),
{
    let whole = white + rest;
    if white.len() == 0 {
        assert(whole =~= rest);
    } else {
        assert(whole[0] == white[0]);
        assert(whole.skip(1) =~= white.skip(1) + rest);
        assert forall|i: int| 0 <= i < white.skip(1).len() implies text::is_white(
            #[trigger] white.skip(1)[i],
        ) by {
            assert(white.skip(1)[i] == white[i + 1]);
        }
        lemma_leading_white(white.skip(1), rest);
    }
}

proof fn lemma_trailing_white(rest: Seq<char>, white: Seq<char>)
    requires
        text::is_blank(white),
        rest.len() > 0,
        !text::is_white(rest.last()),
    ensures
        text::without_trailing_white(rest + white) == rest,
    decreases white.len(),
{
    let whole = rest + white;
    if white.len() == 0 {
        assert(whole =~= rest);
    } else {
        assert(whole.last() == white[white.len() - 1]);
        assert(whole.drop_last() =~= rest + white.drop_last());
        assert forall|i: int| 0 <= i < white.drop_last().len() implies text::is_white(
            #[trigger] white.drop_last()[i],
        ) by {
            assert(white.drop_last()[i] == white[i]);
        }
        lemma_trailing_white(rest, white.drop_last());
    }
}

/// A text of nothing but white space is trimmed to nothing.
pub proof fn law_blank_texts_are_trimmed_to_nothing(said: Seq<char>)
    requires
        text::is_blank(said),
    ensures
        text::trimmed(said).len() == 0,
    decreases said.len(),
{
    if said.len() > 0 {
        assert(text::is_white(said[0]));
        assert forall|i: int| 0 <= i < said.skip(1).len() implies text::is_white(
            #[trigger] said.skip(1)[i],
        ) by {
            assert(said.skip(1)[i] == said[i + 1]);
        }
        law_blank_texts_are_trimmed_to_nothing(said.skip(1));
    }
}

/// To drop a character at the end takes away all of a run of it, and nothing
/// else.
pub proof fn law_trailing_runs_are_dropped(said: Seq<char>, run: Seq<char>, c: char)
    requires
        forall|i: int| 0 <= i < run.len() ==> #[trigger] run[i] == c,
        said.len() == 0 || said.last() != c,
    ensures
        text::without_trailing(said + run, c) == said,
    decreases run.len(),
{
    let whole = said + run;
    if run.len() == 0 {
        assert(whole =~= said);
    } else {
        assert(whole.last() == run[run.len() - 1]);
        assert(whole.drop_last() =~= said + run.drop_last());
        law_trailing_runs_are_dropped(said, run.drop_last(), c);
    }
}

/// To drop a character at the start takes away all of a run of it, and nothing
/// else.
pub proof fn law_leading_runs_are_dropped(run: Seq<char>, said: Seq<char>, c: char)
    requires
        forall|i: int| 0 <= i < run.len() ==> #[trigger] run[i] == c,
        said.len() == 0 || said[0] != c,
    ensures
        text::without_leading(run + said, c) == said,
    decreases run.len(),
{
    let whole = run + said;
    if run.len() == 0 {
        assert(whole =~= said);
    } else {
        assert(whole[0] == run[0]);
        assert(whole.skip(1) =~= run.skip(1) + said);
        assert forall|i: int| 0 <= i < run.skip(1).len() implies #[trigger] run.skip(1)[i] == c by {
            assert(run.skip(1)[i] == run[i + 1]);
        }
        law_leading_runs_are_dropped(run.skip(1), said, c);
    }
}

/// A number below ten is written as its digit; any other as the numeral of what
/// its last digit leaves, and then that digit.
pub proof fn law_numerals_are_decimal(n: nat, digit: nat)
    requires
        digit < 10,
    ensures
        text::decimal(digit).len() == 1,
        text::decimal(digit)[0] as int - '0' as int == digit,
        n > 0 ==> text::decimal(10 * n + digit) == text::decimal(n) + text::decimal(digit),
{
    if n > 0 {
        assert((10 * n + digit) / 10 == n);
        assert((10 * n + digit) % 10 == digit);
        assert(text::decimal(10 * n + digit) =~= text::decimal(n) + text::decimal(digit));
    }
}

/// A numeral is read by its digits, with or without a plus sign, as long as it
/// fits in 32 bits; a text with anything else in it is no numeral, nor is one
/// without digits.
pub proof fn law_numerals_are_read_by_their_digits(n: nat, odd: Seq<char>, at: int)
    ensures
        n <= u32::MAX ==> text::u32_value(text::decimal(n)) == Some(n as u32) && text::u32_value(
            seq!['+'] + text::decimal(n),
        ) == Some(n as u32),
        n > u32::MAX ==> text::u32_value(text::decimal(n)) is None,
        text::u32_value(Seq::empty()) is None,
        text::u32_value(seq!['+']) is None,
        0 <= at < odd.len() && !('0' <= odd[at] <= '9') && (at > 0 || odd[at] != '+')
            ==> text::u32_value(odd) is None,
{
    text::lemma_decimal_value(n);
    lemma_first_digit(n);
    assert((seq!['+'] + text::decimal(n)).skip(1) =~= text::decimal(n));
    assert(seq!['+'].skip(1) =~= Seq::<char>::empty());
    if 0 <= at < odd.len() && !('0' <= odd[at] <= '9') && (at > 0 || odd[at] != '+') {
        let digits = text::without_sign(odd);
        let there: int = if odd[0] == '+' {
            at - 1
        } else {
            at
        };
        assert(digits[there] == odd[at]);
        lemma_odd_character(digits, there);
    }
}

proof fn lemma_first_digit(n: nat)
    ensures
        text::decimal(n).len() > 0,
        '0' <= text::decimal(n)[0] <= '9',
    decreases n,
{
    if n >= 10 {
        lemma_first_digit(n / 10);
    }
}

proof fn lemma_odd_character(digits: Seq<char>, at: int)
    requires
        0 <= at < digits.len(),
        !('0' <= digits[at] <= '9'),
    ensures
        text::digits_value(digits) is None,
    decreases digits.len(),
{
    if at < digits.len() - 1 {
        lemma_odd_character(digits.drop_last(), at);
    }
}

/// Zeros before a numeral make no difference.
pub proof fn law_leading_zeros_make_no_difference(digits: Seq<char>)
    ensures
        text::digits_value(seq!['0'] + digits) == text::digits_value(digits),
    decreases digits.len(),
{
    let whole = seq!['0'] + digits;
    if digits.len() == 0 {
        assert(whole.drop_last() =~= Seq::<char>::empty());
        assert(text::digits_value(whole.drop_last()) == Some(0nat));
    } else {
        law_leading_zeros_make_no_difference(digits.drop_last());
        assert(whole.drop_last() =~= seq!['0'] + digits.drop_last());
        assert(whole.last() == digits.last());
    }
}

/// A character is first found where it stands and does not stand before.
pub proof fn law_first_position(said: Seq<char>, c: char, i: int)
    ensures
        text::char_index(said, c) <= said.len(),
        text::char_index(said, c) < said.len() ==> said[text::char_index(said, c) as int] == c,
        0 <= i < text::char_index(said, c) ==> said[i] != c,
    decreases said.len(),
{
    if said.len() > 0 && said[0] != c {
        law_first_position(said.skip(1), c, i - 1);
        if 0 < i < text::char_index(said, c) {
            assert(said[i] == said.skip(1)[i - 1]);
        }
    }
}

/// A text stands at a place if and only if it fits there and each of its
/// characters is there, one after the other.
pub proof fn law_what_it_is_to_stand_at_a_place<T>(whole: Seq<T>, needle: Seq<T>, at: int)
    ensures
        text::occurs_at(whole, needle, at) <==> 0 <= at && at + needle.len() <= whole.len()
            && forall|k: int| 0 <= k < needle.len() ==> whole[at + k] == #[trigger] needle[k],
{
    if 0 <= at && at + needle.len() <= whole.len() {
        let there = whole.subrange(at, at + needle.len());
        if forall|k: int| 0 <= k < needle.len() ==> whole[at + k] == #[trigger] needle[k] {
            assert(there =~= needle);
        }
        if there == needle {
            assert forall|k: int| 0 <= k < needle.len() implies whole[at + k]
                == #[trigger] needle[k] by {
                assert(there[k] == needle[k]);
            }
        }
    }
}

/// A zero before the digits of a numeral makes no difference to its value.
pub proof fn law_numerals_may_start_with_zeros(digits: Seq<char>)
    requires
        digits.len() > 0,
        digits[0] != '+',
    ensures
        text::u32_value(seq!['0'] + digits) == text::u32_value(digits),
        text::u32_value(seq!['+'] + digits) == text::u32_value(digits),
{
    law_leading_zeros_make_no_difference(digits);
    let signed = seq!['+'] + digits;
    assert(signed.skip(1) =~= digits);
}

/// Texts are joined with the separator between each two.
pub proof fn law_texts_are_joined(texts: Seq<Seq<char>>, next: Seq<char>, sep: Seq<char>)
    ensures
        text::joined(Seq::empty(), sep).len() == 0,
        texts.len() == 0 ==> text::joined(texts.push(next), sep) == next,
        texts.len() > 0 ==> text::joined(texts.push(next), sep) == text::joined(texts, sep) + sep
            + next,
{
    assert(texts.push(next).drop_last() =~= texts);
}

// ---------------------------------------------------------------------------
// What the operations return
// ---------------------------------------------------------------------------

/// The characters of a text are its characters; a stretch of them spells just
/// that stretch; and two texts are the same where their characters are.
pub proof fn law_texts_are_their_characters(
    said: &str,
    other: &str,
    third: &str,
    chars: Vec<char>,
    from: usize,
    to: usize,
    stretch: String,
    alike: bool,
    three: String,
)
    requires
        call_ensures(text::chars_of, (said,), chars),
        call_ensures(text::text_of, (&chars, from, to), stretch),
        call_ensures(text::same, (said, other), alike),
        call_ensures(text::concat3, (said, other, third), three),
    ensures
        chars@ == said@,
        stretch@ == said@.subrange(from as int, to as int),
        alike <==> said@ == other@,
        three@ == said@ + other@ + third@,
{
}

/// A search finds what stands in a text, and nothing else.
pub proof fn law_searches_find_what_stands_there(
    chars: Vec<char>,
    needle: &str,
    wanted: Vec<char>,
    at: usize,
    there: bool,
    somewhere: bool,
    from: usize,
    c: char,
    first: usize,
    i: int,
)
    requires
        call_ensures(text::matches_at, (&chars, &wanted, at), there),
        call_ensures(text::has, (&chars, needle), somewhere),
        from <= chars@.len(),
        call_ensures(text::find_char, (&chars, from, c), first),
    ensures
        there <==> text::occurs_at(chars@, wanted@, at as int),
        somewhere <==> text::mentions(chars@, needle@),
        from <= first <= chars@.len(),
        first < chars@.len() ==> chars@[first as int] == c,
        from <= i < first ==> chars@[i] != c,
{
    let rest = chars@.skip(from as int);
    law_first_position(rest, c, i - from);
    if from <= i < first {
        assert(rest[i - from] == chars@[i]);
    }
}

/// Case, white space and trimming are judged as the laws on them say.
pub proof fn law_characters_are_judged(
    said: &str,
    core: &str,
    c: char,
    lower: Vec<char>,
    white: bool,
    blank: bool,
    cut: String,
    trims: bool,
)
    requires
        call_ensures(text::ascii_lower_chars, (said,), lower),
        call_ensures(text::white, (c,), white),
        call_ensures(text::blank, (said,), blank),
        call_ensures(text::trim_end, (said, c), cut),
        call_ensures(text::trims_to, (said, core), trims),
    ensures
        lower@ == text::ascii_lower(said@),
        white <==> text::is_white(c),
        blank <==> text::is_blank(said@),
        cut@ == text::without_trailing(said@, c),
        trims <==> text::trimmed(said@) == core@,
{
}

/// Numbers are written as their numerals, and numerals are read back as the
/// numbers that they stand for.
pub proof fn law_numbers_are_written_and_read(
    n: u128,
    written: String,
    chars: Vec<char>,
    from: usize,
    to: usize,
    read: Option<u32>,
)
    requires
        call_ensures(text::numeral, (n,), written),
        call_ensures(text::parse_u32, (&chars, from, to), read),
    ensures
        written@ == text::decimal(n as nat),
        read == text::u32_value(chars@.subrange(from as int, to as int)),
{
}

/// A counter starts at zero, goes up by one, tells whether it is zero, and is
/// written as its numeral.
pub proof fn law_counters_count(
    start: Counter,
    counter: &mut Counter,
    other: Counter,
    zero: bool,
    written: String,
)
    requires
        call_ensures(Counter::new, (), start),
        call_ensures(Counter::increment, (counter,), ()),
        call_ensures(Counter::is_zero, (&other,), zero),
        call_ensures(Counter::numeral, (&other,), written),
    ensures
        start@ == 0,
        final(counter)@ == old(counter)@ + 1,
        zero <==> other@ == 0,
        written@ == text::decimal(other@),
{
}

} // verus!
