//! Laws of texts: their order, their parts, and how numbers and names are read from them.
use vstd::prelude::*;

use crate::ordered_set;
use crate::text;
use crate::text_map;

verus! {

/// Texts are ordered by the first character in which they differ, and a text comes before its
/// continuations. `k` is how many characters the two have in common at their start.
pub proof fn law_text_order_is_lexicographic(a: Seq<char>, b: Seq<char>, k: int)
    requires
        0 <= k <= a.len(),
        k <= b.len(),
        forall|i: int| 0 <= i < k ==> a[i] == b[i],
        k < a.len() && k < b.len() ==> a[k] != b[k],
    ensures
        text::text_lt(a, b) <==> k < b.len() && (k == a.len() || a[k] < b[k]),
        text::text_le(a, b) <==> !(k < a.len() && (k == b.len() || b[k] < a[k])),
    decreases k,
{
    if k == 0 {
        if a.len() == 0 && b.len() == 0 {
            assert(a =~= b);
        }
        text::law_text_lt_irreflexive(a);
    } else {
        law_text_order_is_lexicographic(a.drop_first(), b.drop_first(), k - 1);
        if k == a.len() && k == b.len() {
            assert(a =~= b);
        }
        text::law_text_lt_irreflexive(a);
        text::law_text_lt_total(a, b);
        if a == b {
            assert(k == a.len());
        }
    }
}

/// Of texts that follow the same text, the order is that of what follows.
pub proof fn law_order_is_kept_behind_a_prefix(prefix: Seq<char>, a: Seq<char>, b: Seq<char>)
    ensures
        text::text_lt(prefix + a, prefix + b) <==> text::text_lt(a, b),
    decreases prefix.len(),
{
    if prefix.len() == 0 {
        assert(prefix + a =~= a);
        assert(prefix + b =~= b);
    } else {
        assert((prefix + a).drop_first() =~= prefix.drop_first() + a);
        assert((prefix + b).drop_first() =~= prefix.drop_first() + b);
        law_order_is_kept_behind_a_prefix(prefix.drop_first(), a, b);
    }
}

/// Timestamps of one length are ordered as the numbers that their digits stand for.
pub proof fn law_timestamps_are_ordered_as_numbers(a: Seq<char>, b: Seq<char>)
    requires
        a.len() == b.len(),
        text::digits_value(a) is Some,
        text::digits_value(b) is Some,
    ensures
        text::text_lt(a, b) <==> text::digits_value(a)->0 < text::digits_value(b)->0,
    decreases a.len(),
{
    let a0 = a.drop_last();
    let b0 = b.drop_last();
    assert(a =~= a0 + seq![a.last()]);
    assert(b =~= b0 + seq![b.last()]);
    if a.len() == 1 {
        assert(a[0] == a.last() && b[0] == b.last());
        let k: int = if a[0] == b[0] {
            1
        } else {
            0
        };
        law_text_order_is_lexicographic(a, b, k);
    } else {
        law_timestamps_are_ordered_as_numbers(a0, b0);
        if a0 == b0 {
            law_order_is_kept_behind_a_prefix(a0, seq![a.last()], seq![b.last()]);
            let k: int = if a.last() == b.last() {
                1
            } else {
                0
            };
            law_text_order_is_lexicographic(seq![a.last()], seq![b.last()], k);
        } else {
            let k = lemma_first_difference(a0, b0);
            law_text_order_is_lexicographic(a0, b0, k);
            law_text_order_is_lexicographic(a, b, k);
            text::law_text_lt_total(a0, b0);
            law_timestamps_are_ordered_as_numbers(b0, a0);
        }
    }
}

/// Two different texts of one length differ somewhere first.
proof fn lemma_first_difference(a: Seq<char>, b: Seq<char>) -> (k: int)
    requires
        a.len() == b.len(),
        a != b,
    ensures
        0 <= k < a.len(),
        forall|i: int| 0 <= i < k ==> a[i] == b[i],
        a[k] != b[k],
    decreases a.len(),
{
    if a.len() == 0 {
        assert(a =~= b);
        0
    } else if a[0] != b[0] {
        0
    } else {
        assert(a.drop_first() != b.drop_first()) by {
            if a.drop_first() == b.drop_first() {
                assert(a =~= seq![a[0]] + a.drop_first());
                assert(b =~= seq![b[0]] + b.drop_first());
            }
        }
        let k = lemma_first_difference(a.drop_first(), b.drop_first());
        assert forall|i: int| 0 <= i < k + 1 implies a[i] == b[i] by {
            if i > 0 {
                assert(a.drop_first()[i - 1] == b.drop_first()[i - 1]);
            }
        }
        assert(a.drop_first()[k] != b.drop_first()[k]);
        k + 1
    }
}

/// A text ends with a suffix exactly where it is some text with the suffix behind it.
pub proof fn law_suffix(text: Seq<char>, head: Seq<char>, suffix: Seq<char>)
    ensures
        text::has_suffix(head + suffix, suffix),
        text::has_suffix(text, suffix) ==> suffix.len() <= text.len() && text == text.take(
            text.len() - suffix.len(),
        ) + suffix,
{
    assert((head + suffix).skip(head.len() as int) =~= suffix);
    if text::has_suffix(text, suffix) {
        assert(text =~= text.take(text.len() - suffix.len()) + suffix);
    }
}

/// A text holds a part exactly where it is some text, then the part, then some text.
pub proof fn law_part(text: Seq<char>, head: Seq<char>, part: Seq<char>, tail: Seq<char>)
    ensures
        text::has_part(head + part + tail, part),
        text::has_part(text, part) ==> exists|before: Seq<char>, after: Seq<char>|
            text == #[trigger] (before + part + after),
{
    assert((head + part + tail).subrange(
        head.len() as int,
        (head.len() + part.len()) as int,
    ) =~= part);
    assert(text::stands_at(head + part + tail, part, head.len() as int));
    if text::has_part(text, part) {
        let at = choose|at: int| text::stands_at(text, part, at);
        let before = text.take(at);
        let after = text.skip(at + part.len());
        assert(text =~= before + part + after);
    }
}

/// A text leads with a digit exactly where its first character is one of `0` to `9`.
pub proof fn law_leading_digit(text: Seq<char>)
    ensures
        text::leads_with_digit(text) <==> text.len() > 0 && '0' <= text[0] && text[0] <= '9',
{
}

/// A number that is written in decimal reads back as itself, with or without a plus sign.
pub proof fn law_decimal_round_trip(n: nat)
    ensures
        text::digits_value(text::decimal(n)) == Some(n),
        n <= usize::MAX ==> text::count_value(text::decimal(n)) == Some(n as usize),
        n <= usize::MAX ==> text::count_value(seq!['+'] + text::decimal(n)) == Some(n as usize),
        n > usize::MAX ==> text::count_value(text::decimal(n)) is None,
{
    lemma_decimal(n);
    let d = text::decimal(n);
    assert((seq!['+'] + d).drop_first() =~= d);
    assert(d[0] != '+');
}

/// A number in decimal is a run of digits with the number's value.
proof fn lemma_decimal(n: nat)
    ensures
        text::decimal(n).len() > 0,
        '0' <= text::decimal(n)[0] <= '9',
        text::digits_value(text::decimal(n)) == Some(n),
    decreases n,
{
    reveal_with_fuel(text::digits_value, 2);
    if n >= 10 {
        lemma_decimal(n / 10);
        let d = text::decimal(n);
        assert(d.drop_last() =~= text::decimal(n / 10));
        assert(d.last() == text::digit_char(n % 10));
        assert(d[0] == text::decimal(n / 10)[0]);
    }
}

/// What reads as a count is digits, with at most a plus sign before them, and the last digit is worth
/// its value.
pub proof fn law_count_is_made_of_digits(text: Seq<char>)
    requires
        text::count_value(text) is Some,
    ensures
        ({
            let digits = if text.len() > 0 && text[0] == '+' {
                text.drop_first()
            } else {
                text
            };
            &&& digits.len() > 0
            &&& forall|i: int| 0 <= i < digits.len() ==> '0' <= #[trigger] digits[i] <= '9'
            &&& text::count_value(text)->0 % 10 == digits.last() as int - '0' as int
        }),
{
    let digits = if text.len() > 0 && text[0] == '+' {
        text.drop_first()
    } else {
        text
    };
    lemma_digits(digits);
}

/// What has a value is made of digits.
proof fn lemma_digits(digits: Seq<char>)
    requires
        text::digits_value(digits) is Some,
    ensures
        digits.len() > 0,
        forall|i: int| 0 <= i < digits.len() ==> '0' <= #[trigger] digits[i] <= '9',
        text::digits_value(digits)->0 % 10 == digits.last() as int - '0' as int,
    decreases digits.len(),
{
    if digits.len() > 1 {
        lemma_digits(digits.drop_last());
        assert forall|i: int| 0 <= i < digits.len() implies '0' <= #[trigger] digits[i] <= '9' by {
            if i < digits.len() - 1 {
                assert(digits.drop_last()[i] == digits[i]);
            }
        }
    }
}

/// White space around a text does not matter once it is trimmed.
pub proof fn law_trimming_removes_the_white_space_around(
    before: Seq<char>,
    text: Seq<char>,
    after: Seq<char>,
)
    requires
        forall|i: int| 0 <= i < before.len() ==> text::is_white_space(#[trigger] before[i]),
        forall|i: int| 0 <= i < after.len() ==> text::is_white_space(#[trigger] after[i]),
        text.len() > 0,
        !text::is_white_space(text.first()),
        !text::is_white_space(text.last()),
    ensures
        text::trimmed(before + text + after) == text,
{
    lemma_trim_start(before, text + after);
    assert(before + text + after =~= before + (text + after));
    assert((text + after).first() == text.first());
    lemma_trim_end(text, after);
}

/// Leading white space goes.
proof fn lemma_trim_start(before: Seq<char>, text: Seq<char>)
    requires
        forall|i: int| 0 <= i < before.len() ==> text::is_white_space(#[trigger] before[i]),
    ensures
        text::trim_start(before + text) == text::trim_start(text),
    decreases before.len(),
{
    if before.len() == 0 {
        assert(before + text =~= text);
    } else {
        assert((before + text).drop_first() =~= before.drop_first() + text);
        assert forall|i: int| 0 <= i < before.drop_first().len() implies text::is_white_space(
            #[trigger] before.drop_first()[i],
        ) by {
            assert(before.drop_first()[i] == before[i + 1]);
        }
        lemma_trim_start(before.drop_first(), text);
    }
}

/// Trailing white space goes.
proof fn lemma_trim_end(text: Seq<char>, after: Seq<char>)
    requires
        forall|i: int| 0 <= i < after.len() ==> text::is_white_space(#[trigger] after[i]),
        text.len() > 0,
        !text::is_white_space(text.last()),
    ensures
        text::trim_end(text + after) == text,
    decreases after.len(),
{
    if after.len() == 0 {
        assert(text + after =~= text);
    } else {
        assert((text + after).drop_last() =~= text + after.drop_last());
        assert((text + after).last() == after[after.len() - 1]);
        lemma_trim_end(text, after.drop_last());
    }
}

/// Lower case keeps the length and changes the letters `A` to `Z` alone.
pub proof fn law_lower_case_is_letter_by_letter(text: Seq<char>, i: int)
    requires
        0 <= i < text.len(),
    ensures
        text::lowered(text).len() == text.len(),
        'A' <= text[i] <= 'Z' ==> text::lowered(text)[i] as int == text[i] as int + 32,
        !('A' <= text[i] <= 'Z') ==> text::lowered(text)[i] == text[i],
{
}

/// Lists are joined by a comma and a space, whatever the two lists are.
pub proof fn law_lists_are_joined(a: Seq<Seq<char>>, b: Seq<Seq<char>>)
    requires
        a.len() > 0,
        b.len() > 0,
    ensures
        text::listed(a + b) == text::listed(a) + ", "@ + text::listed(b),
        a.len() == 1 ==> text::listed(a) == a[0],
    decreases b.len(),
{
    assert((a + b).drop_last() =~= a + b.drop_last());
    assert((a + b).last() == b.last());
    if b.len() == 1 {
        assert(a + b.drop_last() =~= a);
        assert(b.last() == b[0]);
    } else {
        law_lists_are_joined(a, b.drop_last());
        assert(text::listed(a) + ", "@ + text::listed(b.drop_last()) + ", "@ + b.last()
            =~= text::listed(a) + ", "@ + (text::listed(b.drop_last()) + ", "@ + b.last()));
    }
}

/// The model of a text that may be missing is the text.
pub proof fn law_optional_text(value: Option<String>)
    ensures
        value is None <==> text::text_model(value) is None,
        value matches Some(content) ==> text::text_model(value) == Some(content@),
{
}

/// Pairs are ordered by the first text, and by the second where the first is the same.
pub proof fn law_pair_order(a: (Seq<char>, Seq<char>), b: (Seq<char>, Seq<char>))
    ensures
        a.0 == b.0 ==> (ordered_set::pair_lt(a, b) <==> text::text_lt(a.1, b.1)),
        a.0 != b.0 ==> (ordered_set::pair_lt(a, b) <==> text::text_lt(a.0, b.0)),
{
    text::law_text_lt_irreflexive(a.0);
}

/// A list of options stands for the last value of each key.
pub proof fn law_last_entry_counts(
    before: Seq<(String, String)>,
    entry: (String, String),
    after: Seq<(String, String)>,
)
    requires
        forall|i: int| 0 <= i < after.len() ==> (#[trigger] after[i]).0@ != entry.0@,
    ensures
        text_map::entries_map(before + seq![entry] + after).contains_pair(entry.0@, entry.1@),
    decreases after.len(),
{
    let all = before + seq![entry] + after;
    if after.len() == 0 {
        assert(all.last() == entry);
    } else {
        assert(all.drop_last() =~= before + seq![entry] + after.drop_last());
        assert(all.last() == after[after.len() - 1]);
        assert forall|i: int| 0 <= i < after.drop_last().len() implies (
        #[trigger] after.drop_last()[i]).0@ != entry.0@ by {
            assert(after.drop_last()[i] == after[i]);
        }
        law_last_entry_counts(before, entry, after.drop_last());
    }
}

/// A list of options gives no value to a key that it does not hold.
pub proof fn law_absent_key_has_no_value(entries: Seq<(String, String)>, key: Seq<char>)
    requires
        forall|i: int| 0 <= i < entries.len() ==> (#[trigger] entries[i]).0@ != key,
    ensures
        !text_map::entries_map(entries).contains_key(key),
    decreases entries.len(),
{
    if entries.len() > 0 {
        assert(entries.last() == entries[entries.len() - 1]);
        assert forall|i: int| 0 <= i < entries.drop_last().len() implies (
        #[trigger] entries.drop_last()[i]).0@ != key by {
            assert(entries.drop_last()[i] == entries[i]);
        }
        law_absent_key_has_no_value(entries.drop_last(), key);
    }
}

} // verus!
