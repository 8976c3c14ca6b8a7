//! What is relied on in texts.

use vstd::prelude::*;

use crate::text::{
    all_digits, contains_text, decimal, decimal_text, digits_value, hex, hex_digit, is_blank,
    is_digit, is_white,
    lemma_line_end, line_end, lines, lower_text, lowered, occurs_at, parse_u64,
    to_hex, trim, trimmed, trimmed_end, trimmed_start, unsigned_part, white,
};

verus! {

/// Whether a character is white space, by its code point.
pub open spec fn is_space(c: char) -> bool {
    let code = c as u32;
    9 <= code <= 13 || code == 32 || code == 0x85 || code == 0xa0 || code == 0x1680 || 0x2000
        <= code <= 0x200a || code == 0x2028 || code == 0x2029 || code == 0x202f || code == 0x205f
        || code == 0x3000
}

/// White space is what Unicode counts as such: tabs and line ends, the space,
/// and the spaces beyond ASCII.
pub proof fn white_space_goes_by_code_point(c: char, res: bool)
    requires
        call_ensures(is_white, (c,), res),
    ensures
        res == is_space(c),
        white(c) == is_space(c),
{
}

proof fn lemma_space(c: char)
    ensures
        white(c) == is_space(c),
{
}

/// A text is blank exactly where no character in it is more than white space.
pub proof fn blank_text_is_white_space(text: &str, res: bool)
    requires
        call_ensures(is_blank, (text,), res),
    ensures
        res <==> forall|i: int| 0 <= i < text@.len() ==> is_space(#[trigger] text@[i]),
{
    if res {
        assert forall|i: int| 0 <= i < text@.len() implies is_space(#[trigger] text@[i]) by {
            assert(white(text@[i]));
        }
    } else {
        let i = choose|i: int| 0 <= i < text@.len() && !white(#[trigger] text@[i]);
        lemma_space(text@[i]);
    }
}

/// Whether `core` is what is left of `whole` without the first `lead`
/// characters and those from `tail` on, which are white space, and neither
/// begins nor ends with white space.
pub open spec fn is_core(whole: Seq<char>, core: Seq<char>, lead: int, tail: int) -> bool {
    &&& 0 <= lead <= tail <= whole.len()
    &&& core == whole.subrange(lead, tail)
    &&& forall|i: int| 0 <= i < lead ==> is_space(#[trigger] whole[i])
    &&& forall|i: int| tail <= i < whole.len() ==> is_space(#[trigger] whole[i])
    &&& core.len() > 0 ==> !is_space(core[0]) && !is_space(core.last())
}

proof fn lemma_start(s: Seq<char>) -> (lead: int)
    ensures
        0 <= lead <= s.len(),
        trimmed_start(s) == s.skip(lead),
        forall|i: int| 0 <= i < lead ==> is_space(#[trigger] s[i]),
        lead < s.len() ==> !is_space(s[lead]),
    decreases s.len(),
{
    if s.len() > 0 {
        lemma_space(s[0]);
    }
    if s.len() > 0 && white(s[0]) {
        let rest = s.drop_first();
        let inner = lemma_start(rest);
        assert(rest.skip(inner) =~= s.skip(inner + 1));
        assert forall|i: int| 0 <= i < inner + 1 implies is_space(#[trigger] s[i]) by {
            if i > 0 {
                assert(rest[i - 1] == s[i]);
            }
        }
        if inner < rest.len() {
            assert(rest[inner] == s[inner + 1]);
        }
        inner + 1
    } else {
        assert(s.skip(0) =~= s);
        0
    }
}

proof fn lemma_end(s: Seq<char>) -> (tail: int)
    ensures
        0 <= tail <= s.len(),
        trimmed_end(s) == s.take(tail),
        forall|i: int| tail <= i < s.len() ==> is_space(#[trigger] s[i]),
        tail > 0 ==> !is_space(s[tail - 1]),
    decreases s.len(),
{
    if s.len() > 0 {
        lemma_space(s.last());
    }
    if s.len() > 0 && white(s.last()) {
        let rest = s.drop_last();
        let inner = lemma_end(rest);
        assert(rest.take(inner) =~= s.take(inner));
        assert forall|i: int| inner <= i < s.len() implies is_space(#[trigger] s[i]) by {
            if i < rest.len() {
                assert(rest[i] == s[i]);
            }
        }
        if inner > 0 {
            assert(rest[inner - 1] == s[inner - 1]);
        }
        inner
    } else {
        assert(s.take(s.len() as int) =~= s);
        s.len() as int
    }
}

/// Trimming takes white space off both ends, all of it and nothing else.
pub proof fn trimming_leaves_the_core(s: Seq<char>)
    ensures
        exists|lead: int, tail: int| is_core(s, trimmed(s), lead, tail),
{
    let lead = lemma_start(s);
    let body = s.skip(lead);
    let length = lemma_end(body);
    let tail = lead + length;
    assert(body.take(length) =~= s.subrange(lead, tail));
    assert forall|i: int| tail <= i < s.len() implies is_space(#[trigger] s[i]) by {
        assert(body[i - lead] == s[i]);
    }
    let core = trimmed(s);
    if core.len() > 0 {
        assert(core[0] == s[lead]);
        assert(core.last() == body[length - 1]);
    }
    assert(is_core(s, core, lead, tail));
}

/// What trimming leaves is found by what is taken off: there is one core only.
pub proof fn core_is_unique(
    whole: Seq<char>,
    one: Seq<char>,
    one_lead: int,
    one_tail: int,
    two: Seq<char>,
    two_lead: int,
    two_tail: int,
)
    requires
        is_core(whole, one, one_lead, one_tail),
        is_core(whole, two, two_lead, two_tail),
    ensures
        one == two,
{
    if one.len() > 0 {
        assert(one[0] == whole[one_lead] && one.last() == whole[one_tail - 1]);
    }
    if two.len() > 0 {
        assert(two[0] == whole[two_lead] && two.last() == whole[two_tail - 1]);
    }
    if one.len() == 0 && two.len() > 0 {
        assert(is_space(whole[two_lead]));
    } else if two.len() == 0 && one.len() > 0 {
        assert(is_space(whole[one_lead]));
    } else if one.len() == 0 {
        assert(one =~= two);
    } else {
        if one_lead < two_lead {
            assert(is_space(whole[one_lead]));
        } else if two_lead < one_lead {
            assert(is_space(whole[two_lead]));
        }
        if one_tail < two_tail {
            assert(is_space(whole[two_tail - 1]));
        } else if two_tail < one_tail {
            assert(is_space(whole[one_tail - 1]));
        }
    }
}

/// The function that trims does so.
pub proof fn trim_leaves_the_core(s: Vec<char>, res: Vec<char>)
    requires
        call_ensures(trim, (&s,), res),
    ensures
        exists|lead: int, tail: int| is_core(s@, res@, lead, tail),
{
    trimming_leaves_the_core(s@);
}

/// Folding a text to lower case changes the letters `A` to `Z` to the letters
/// that stand 32 places after them and nothing else.
pub proof fn lower_case_changes_capitals_only(text: &str, res: String)
    requires
        call_ensures(lower_text, (text,), res),
    ensures
        res@ == lowered(text@),
        res@.len() == text@.len(),
        forall|i: int|
            0 <= i < text@.len() ==> (#[trigger] res@[i]) as u32 == (if 65 <= text@[i] as u32 <= 90 {
                text@[i] as u32 + 32
            } else {
                text@[i] as u32 as int
            }),
{
}

/// A text is found in another exactly where the other is that text with
/// something before and something behind it.
pub proof fn found_text_stands_between(hay: &str, needle: &str, res: bool)
    requires
        call_ensures(contains_text, (hay, needle), res),
    ensures
        res <==> exists|before: Seq<char>, after: Seq<char>|
            hay@ == #[trigger] (before + needle@ + after),
{
    if res {
        let at = choose|at: int| occurs_at(hay@, needle@, at);
        let before = hay@.take(at);
        let after = hay@.skip(at + needle@.len());
        assert(hay@ =~= before + needle@ + after);
    }
    if exists|before: Seq<char>, after: Seq<char>| hay@ == #[trigger] (before + needle@ + after) {
        let (before, after) = choose|before: Seq<char>, after: Seq<char>|
            hay@ == #[trigger] (before + needle@ + after);
        let at = before.len() as int;
        assert(hay@.subrange(at, at + needle@.len()) =~= needle@);
        assert(occurs_at(hay@, needle@, at));
    }
}

/// A number in decimal is the number of its tens with the digit of its ones
/// behind it, and below ten that digit alone.
pub proof fn decimal_goes_by_tens(n: u64, res: String, tens: String)
    requires
        call_ensures(decimal_text, (n,), res),
        call_ensures(decimal_text, (n / 10,), tens),
    ensures
        res@ == decimal(n as nat),
        n < 10 ==> res@.len() == 1 && res@[0] as u32 == 48 + n,
        n >= 10 ==> res@.len() == tens@.len() + 1 && res@.drop_last() == tens@ && res@.last() as u32
            == 48 + n % 10,
{
    if n >= 10 {
        assert(res@.drop_last() =~= tens@);
    }
}

/// Whether a character is a digit, by its code point.
pub open spec fn is_numeral(c: char) -> bool {
    48 <= c as u32 <= 57
}

proof fn lemma_numeral(c: char)
    ensures
        is_digit(c) == is_numeral(c),
        is_numeral(c) ==> c as u8 == c as u32,
{
}

/// No number is read from an empty text, nor from one with a character that is
/// no digit, but for a plus sign before the first digit, which changes nothing.
pub proof fn only_digits_are_read(s: Vec<char>, res: Option<u64>, signed: Vec<char>, same: Option<u64>)
    requires
        call_ensures(parse_u64, (&s,), res),
        call_ensures(parse_u64, (&signed,), same),
        signed@ == seq!['+'] + s@,
    ensures
        s@.len() == 0 ==> res is None && same is None,
        s@.len() > 0 && s@[0] != '+' ==> res == same,
        s@.len() > 0 && s@[0] == '+' ==> same is None,
        forall|i: int| 0 < i < s@.len() && !is_numeral(#[trigger] s@[i]) ==> res is None,
        s@.len() > 0 && !is_numeral(s@[0]) && s@[0] != '+' ==> res is None,
{
    let digits = unsigned_part(s@);
    assert(signed@.drop_first() =~= s@);
    if s@.len() > 0 && s@[0] == '+' {
        assert(signed@.drop_first()[0] == '+');
    }
    assert forall|i: int| 0 < i < s@.len() && !is_numeral(#[trigger] s@[i]) implies res is None by {
        if s@[0] == '+' {
            assert(digits[i - 1] == s@[i]);
        } else {
            assert(digits[i] == s@[i]);
        }
    }
    if s@.len() > 0 && !is_numeral(s@[0]) && s@[0] != '+' {
        assert(digits[0] == s@[0]);
    }
}

/// One digit is read as its value, and each digit behind a number makes it ten
/// times as much and adds its own value, as long as that fits.
pub proof fn digits_are_read_by_tens(s: Vec<char>, res: Option<u64>, longer: Vec<char>, more: Option<u64>)
    requires
        call_ensures(parse_u64, (&s,), res),
        call_ensures(parse_u64, (&longer,), more),
        longer@.len() == s@.len() + 1,
        longer@.drop_last() == s@,
        is_numeral(longer@.last()),
    ensures
        s@.len() == 0 ==> more == Some((longer@.last() as u32 - 48) as u64),
        res matches Some(n) ==> {
            let next: int = 10 * n + (longer@.last() as u32 - 48);
            if next <= u64::MAX {
                more == Some(next as u64)
            } else {
                more is None
            }
        },
        res is None && s@.len() > 0 && is_numeral(s@.last()) ==> more is None,
{
    let c = longer@.last();
    lemma_numeral(c);
    let before = unsigned_part(s@);
    let after = unsigned_part(longer@);
    if s@.len() == 0 {
        assert(longer@[0] == c);
        assert(after =~= seq![c]);
        assert(after.drop_last() =~= Seq::<char>::empty());
        assert(digits_value(after.drop_last()) == 0);
        assert(digits_value(after) == c as u8 - 48);
        assert(all_digits(after));
    } else {
        assert(longer@[0] == s@[0]);
        assert(longer@ =~= s@.push(c));
        assert(after =~= before.push(c));
        assert(after.drop_last() =~= before);
        lemma_numeral(s@.last());
        if res is None && is_numeral(s@.last()) {
            assert(before.last() == s@.last());
            if all_digits(before) {
                assert(digits_value(after) == digits_value(before) * 10 + (c as u8 - 48) as nat);
            } else {
                let i = choose|i: int| 0 <= i < before.len() && !is_digit(#[trigger] before[i]);
                assert(after[i] == before[i]);
            }
        }
        if res is Some {
            assert forall|i: int| 0 <= i < after.len() implies is_digit(
                #[trigger] after[i],
            ) by {
                if i < before.len() {
                    assert(after[i] == before[i]);
                }
            }
            assert(digits_value(after) == digits_value(before) * 10 + (c as u8 - 48) as nat);
        }
    }
}

/// A line ends at the first line feed; a carriage return before the line feed
/// belongs to the ending. What follows the line feed is divided in the same way.
pub proof fn lines_end_at_line_feeds(first: Seq<char>, rest: Seq<char>)
    requires
        forall|i: int| 0 <= i < first.len() ==> first[i] != '\n',
    ensures
        lines(Seq::<char>::empty()).len() == 0,
        first.len() > 0 ==> lines(first) == seq![first],
        first.len() == 0 || first.last() != '\r' ==> lines(first + seq!['\n'] + rest) == seq![first]
            + lines(rest),
        first.len() > 0 && first.last() == '\r' ==> lines(first + seq!['\n'] + rest) == seq![
            first.drop_last(),
        ] + lines(rest),
{
    let whole = first + seq!['\n'] + rest;
    lemma_line_end(first);
    lemma_line_end(whole);
    assert(whole[first.len() as int] == '\n');
    assert(line_end(whole) == first.len()) by {
        if line_end(whole) < first.len() {
            assert(whole[line_end(whole) as int] == first[line_end(whole) as int]);
        }
    }
    assert(whole.take(first.len() as int) =~= first);
    assert(whole.skip(first.len() as int + 1) =~= rest);
}

/// The digits of hexadecimal numbers.
pub open spec fn hex_numeral(value: int) -> char {
    "0123456789abcdef"@[value]
}

/// Bytes in hexadecimal are two digits each, that of the sixteens before that
/// of the ones.
pub proof fn hexadecimal_is_two_digits_a_byte(bytes: Vec<u8>, res: String)
    requires
        call_ensures(to_hex, (&bytes,), res),
    ensures
        res@ == hex(bytes@),
        res@.len() == 2 * bytes@.len(),
        forall|i: int|
            0 <= i < bytes@.len() ==> {
                &&& res@[2 * i] == hex_numeral(#[trigger] bytes@[i] as int / 16)
                &&& res@[2 * i + 1] == hex_numeral(bytes@[i] as int % 16)
            },
{
    reveal_strlit("0123456789abcdef");
    assert forall|value: int| 0 <= value < 16 implies hex_digit(value)
        == hex_numeral(value) by {
        let c = hex_numeral(value);
        if value < 10 {
            assert(c as u32 == 48 + value);
        } else {
            assert(c as u32 == 87 + value);
        }
    }
    assert forall|i: int| 0 <= i < bytes@.len() implies {
        &&& res@[2 * i] == hex_numeral(#[trigger] bytes@[i] as int / 16)
        &&& res@[2 * i + 1] == hex_numeral(bytes@[i] as int % 16)
    } by {
        assert((2 * i) / 2 == i && (2 * i + 1) / 2 == i);
        assert((2 * i) % 2 == 0 && (2 * i + 1) % 2 == 1);
    }
}

} // verus!
