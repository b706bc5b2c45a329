//! Text handling: trimming, ASCII case folding, ordering and small formatting helpers.
//!
//! A string is modelled by its sequence of characters.
use vstd::prelude::*;

verus! {

/// The characters with the Unicode property `White_Space`.
pub open spec fn is_white_space(c: char) -> bool {
    let code = c as u32;
    ||| 0x09 <= code <= 0x0d
    ||| code == 0x20
    ||| code == 0x85
    ||| code == 0xa0
    ||| code == 0x1680
    ||| 0x2000 <= code <= 0x200a
    ||| code == 0x2028
    ||| code == 0x2029
    ||| code == 0x202f
    ||| code == 0x205f
    ||| code == 0x3000
}

/// `text` without its leading white space.
pub open spec fn trim_start(text: Seq<char>) -> Seq<char>
    decreases text.len(),
{
    if text.len() > 0 && is_white_space(text.first()) {
        trim_start(text.drop_first())
    } else {
        text
    }
}

/// `text` without its trailing white space.
pub open spec fn trim_end(text: Seq<char>) -> Seq<char>
    decreases text.len(),
{
    if text.len() > 0 && is_white_space(text.last()) {
        trim_end(text.drop_last())
    } else {
        text
    }
}

/// `text` without the white space at its two ends.
pub open spec fn trimmed(text: Seq<char>) -> Seq<char> {
    trim_end(trim_start(text))
}

/// An ASCII capital letter in lower case, every other character as it is.
pub open spec fn ascii_lower(c: char) -> char {
    if 'A' <= c <= 'Z' {
        (c as u32 + 32) as char
    } else {
        c
    }
}

/// `text` with its ASCII letters in lower case.
pub open spec fn lowered(text: Seq<char>) -> Seq<char> {
    text.map_values(|c: char| ascii_lower(c))
}

/// `str::trim` removes the leading and trailing characters that have the Unicode property
/// `White_Space`.
pub assume_specification[ str::trim ](s: &str) -> (r: &str)
    ensures
        r@ == trimmed(s@),
;

/// `str::to_ascii_lowercase` maps the ASCII letters `A` to `Z` to `a` to `z` and leaves every other
/// character unchanged.
pub assume_specification[ str::to_ascii_lowercase ](s: &str) -> (r: String)
    ensures
        r@ == lowered(s@),
;

/// `str::eq_ignore_ascii_case` compares two strings by what `str::to_ascii_lowercase` makes of them.
pub assume_specification[ str::eq_ignore_ascii_case ](s: &str, other: &str) -> (r: bool)
    ensures
        r == (lowered(s@) == lowered(other@)),
;

/// A text, where there is one.
pub open spec fn text_model(value: Option<String>) -> Option<Seq<char>> {
    match value {
        Some(content) => Some(content@),
        None => None,
    }
}

/// Whether two strings hold the same characters.
pub fn same_text(a: &str, b: &str) -> (r: bool)
    ensures
        r == (a@ == b@),
{
    a.to_owned() == b.to_owned()
}

/// The characters of a string.
pub fn characters(text: &str) -> (r: Vec<char>)
    ensures
        r@ == text@,
{
    let mut out: Vec<char> = Vec::new();
    for c in iter: text.chars()
        invariant
            out@ == iter.seq().take(iter.index()),
            iter.seq() == text@,
    {
        proof {
            assert(iter.seq().take(iter.index() + 1) == iter.seq().take(iter.index()).push(c));
        }
        out.push(c);
    }
    proof {
        assert(text@.take(text@.len() as int) == text@);
    }
    out
}

/// Lexicographic order of strings by code point, the order of `str`.
pub open spec fn text_lt(a: Seq<char>, b: Seq<char>) -> bool
    decreases a.len(),
{
    if b.len() == 0 {
        false
    } else if a.len() == 0 {
        true
    } else if a[0] == b[0] {
        text_lt(a.drop_first(), b.drop_first())
    } else {
        a[0] < b[0]
    }
}

/// `a` comes before `b` or is the same text.
pub open spec fn text_le(a: Seq<char>, b: Seq<char>) -> bool {
    a == b || text_lt(a, b)
}

/// No string comes before itself.
pub proof fn law_text_lt_irreflexive(a: Seq<char>)
    ensures
        !text_lt(a, a),
    decreases a.len(),
{
    if a.len() > 0 {
        law_text_lt_irreflexive(a.drop_first());
    }
}

/// The order of strings is transitive.
pub proof fn law_text_lt_transitive(a: Seq<char>, b: Seq<char>, c: Seq<char>)
    requires
        text_lt(a, b),
        text_lt(b, c),
    ensures
        text_lt(a, c),
    decreases a.len(),
{
    if a.len() > 0 && a[0] == b[0] && b[0] == c[0] {
        law_text_lt_transitive(a.drop_first(), b.drop_first(), c.drop_first());
    }
}

/// Of two different strings exactly one comes before the other.
pub proof fn law_text_lt_total(a: Seq<char>, b: Seq<char>)
    ensures
        a != b ==> (text_lt(a, b) <==> !text_lt(b, a)),
    decreases a.len(),
{
    if a.len() > 0 && b.len() > 0 {
        if a[0] == b[0] {
            law_text_lt_total(a.drop_first(), b.drop_first());
            if a.drop_first() == b.drop_first() {
                assert(a == seq![a[0]] + a.drop_first());
                assert(b == seq![b[0]] + b.drop_first());
            }
        }
    } else if a.len() == 0 && b.len() == 0 {
        assert(a == b);
    }
}

/// What is at most one string is at most any later one.
pub proof fn law_text_le_transitive(a: Seq<char>, b: Seq<char>, c: Seq<char>)
    requires
        text_le(a, b),
        text_le(b, c),
    ensures
        text_le(a, c),
{
    if text_lt(a, b) && text_lt(b, c) {
        law_text_lt_transitive(a, b, c);
    }
}

/// Whether `a` comes before `b`.
pub fn text_less(a: &str, b: &str) -> (r: bool)
    ensures
        r == text_lt(a@, b@),
{
    let left: Vec<char> = characters(a);
    let right: Vec<char> = characters(b);
    let mut i: usize = 0;
    proof {
        assert(a@.skip(0) == a@);
        assert(b@.skip(0) == b@);
    }
    while i < left.len() && i < right.len()
        invariant
            left@ == a@,
            right@ == b@,
            i <= left.len(),
            i <= right.len(),
            text_lt(a@, b@) == text_lt(a@.skip(i as int), b@.skip(i as int)),
        decreases left.len() - i,
    {
        proof {
            assert(a@.skip(i as int).drop_first() == a@.skip(i + 1));
            assert(b@.skip(i as int).drop_first() == b@.skip(i + 1));
        }
        if left[i] != right[i] {
            return left[i] < right[i];
        }
        i = i + 1;
    }
    i < right.len()
}

/// Whether `a` comes before `b` or is the same text.
pub fn text_at_most(a: &str, b: &str) -> (r: bool)
    ensures
        r == text_le(a@, b@),
{
    proof {
        law_text_lt_irreflexive(a@);
        law_text_lt_total(a@, b@);
    }
    !text_less(b, a)
}

/// `suffix` ends `text`.
pub open spec fn has_suffix(text: Seq<char>, suffix: Seq<char>) -> bool {
    suffix.len() <= text.len() && text.skip(text.len() - suffix.len()) == suffix
}

/// `part` stands at position `at` of `text`.
pub open spec fn stands_at(text: Seq<char>, part: Seq<char>, at: int) -> bool {
    0 <= at && at + part.len() <= text.len() && text.subrange(at, at + part.len()) == part
}

/// `part` stands somewhere in `text`.
pub open spec fn has_part(text: Seq<char>, part: Seq<char>) -> bool {
    exists|at: int| stands_at(text, part, at)
}

/// Whether `part` stands at position `at` of `text`.
fn matches_at(text: &Vec<char>, part: &Vec<char>, at: usize) -> (r: bool)
    requires
        at + part.len() <= text.len(),
    ensures
        r == stands_at(text@, part@, at as int),
{
    let mut i: usize = 0;
    while i < part.len()
        invariant
            at + part.len() <= text.len(),
            i <= part.len(),
            forall|j: int| 0 <= j < i ==> text[at + j] == #[trigger] part[j],
        decreases part.len() - i,
    {
        if text[at + i] != part[i] {
            proof {
                assert(text@.subrange(at as int, at + part.len())[i as int] != part@[i as int]);
            }
            return false;
        }
        i = i + 1;
    }
    proof {
        assert(text@.subrange(at as int, at + part.len()) =~= part@);
    }
    true
}

/// Whether `text` ends with `suffix`.
pub fn ends_with(text: &str, suffix: &str) -> (r: bool)
    ensures
        r == has_suffix(text@, suffix@),
{
    let whole: Vec<char> = characters(text);
    let tail: Vec<char> = characters(suffix);
    if tail.len() > whole.len() {
        return false;
    }
    let at: usize = whole.len() - tail.len();
    proof {
        assert(text@.skip(at as int) =~= text@.subrange(at as int, at + suffix@.len()));
    }
    matches_at(&whole, &tail, at)
}

/// Whether `part` stands somewhere in `text`.
pub fn contains(text: &str, part: &str) -> (r: bool)
    ensures
        r == has_part(text@, part@),
{
    let whole: Vec<char> = characters(text);
    let piece: Vec<char> = characters(part);
    if piece.len() > whole.len() {
        return false;
    }
    let mut at: usize = 0;
    while at <= whole.len() - piece.len()
        invariant
            whole@ == text@,
            piece@ == part@,
            piece.len() <= whole.len(),
            at <= whole.len() - piece.len() + 1,
            forall|i: int| 0 <= i < at ==> !stands_at(text@, part@, i),
        decreases whole.len() - piece.len() + 1 - at,
    {
        if matches_at(&whole, &piece, at) {
            return true;
        }
        if at == whole.len() - piece.len() {
            return false;
        }
        at = at + 1;
    }
    false
}

/// `text` starts with an ASCII digit.
pub open spec fn leads_with_digit(text: Seq<char>) -> bool {
    text.len() > 0 && '0' <= text[0] <= '9'
}

/// Whether `text` starts with an ASCII digit.
pub fn starts_with_digit(text: &str) -> (r: bool)
    ensures
        r == leads_with_digit(text@),
{
    let all: Vec<char> = characters(text);
    all.len() > 0 && '0' <= all[0] && all[0] <= '9'
}

/// The character of a decimal digit.
pub open spec fn digit_char(digit: nat) -> char {
    (('0' as u32) + digit) as char
}

/// A number in decimal digits.
pub open spec fn decimal(n: nat) -> Seq<char>
    decreases n,
{
    if n < 10 {
        seq![digit_char(n)]
    } else {
        decimal(n / 10).push(digit_char(n % 10))
    }
}

/// One digit as text.
fn digit_text(digit: u128) -> (r: &'static str)
    requires
        digit < 10,
    ensures
        r@ == seq![digit_char(digit as nat)],
{
    proof {
        reveal_strlit("0");
        reveal_strlit("1");
        reveal_strlit("2");
        reveal_strlit("3");
        reveal_strlit("4");
        reveal_strlit("5");
        reveal_strlit("6");
        reveal_strlit("7");
        reveal_strlit("8");
        reveal_strlit("9");
    }
    if digit == 0 {
        "0"
    } else if digit == 1 {
        "1"
    } else if digit == 2 {
        "2"
    } else if digit == 3 {
        "3"
    } else if digit == 4 {
        "4"
    } else if digit == 5 {
        "5"
    } else if digit == 6 {
        "6"
    } else if digit == 7 {
        "7"
    } else if digit == 8 {
        "8"
    } else {
        "9"
    }
}

/// A number in decimal digits.
pub fn decimal_text(n: u128) -> (r: String)
    ensures
        r@ == decimal(n as nat),
    decreases n,
{
    if n < 10 {
        digit_text(n).to_owned()
    } else {
        decimal_text(n / 10).concat(digit_text(n % 10))
    }
}

/// The value of a non-empty run of decimal digits, `None` for any other text.
pub open spec fn digits_value(text: Seq<char>) -> Option<nat>
    decreases text.len(),
{
    if text.len() == 0 || !('0' <= text.last() <= '9') {
        None
    } else {
        let digit = (text.last() as u32 - '0' as u32) as nat;
        if text.len() == 1 {
            Some(digit)
        } else {
            match digits_value(text.drop_last()) {
                Some(high) => Some(high * 10 + digit),
                None => None,
            }
        }
    }
}

/// The value of a count: decimal digits with an optional plus sign before them, at most
/// `usize::MAX`. `None` for any other text.
pub open spec fn count_value(text: Seq<char>) -> Option<usize> {
    let digits = if text.len() > 0 && text[0] == '+' {
        text.drop_first()
    } else {
        text
    };
    match digits_value(digits) {
        Some(value) => if value <= usize::MAX {
            Some(value as usize)
        } else {
            None
        },
        None => None,
    }
}

/// Why a text is no integer, as `std` reports it.
#[verifier::external_type_specification]
#[verifier::external_body]
pub struct ExParseIntError(std::num::ParseIntError);

/// The error that `std` reports for a text that is no count.
pub uninterp spec fn parse_error(text: Seq<char>) -> std::num::ParseIntError;

/// `usize::from_str`, reached through `str::parse`: it accepts an optional `+` followed by one or
/// more decimal digits whose value fits in `usize`, and refuses any other text. The error that it
/// reports depends on the text alone. It is named by `parse_error` and not described further.
#[verifier::external_body]
pub(crate) fn parse_count(text: &str) -> (r: Result<usize, std::num::ParseIntError>)
    ensures
        match r {
            Ok(value) => count_value(text@) == Some(value),
            Err(error) => count_value(text@) is None && error == parse_error(text@),
        },
{
    text.parse::<usize>()
}

/// What `Debug` writes for a string: the text in double quotes, with escapes.
pub uninterp spec fn debug_text(text: Seq<char>) -> Seq<char>;

/// The `Debug` form of a `str`, written by `format!("{:?}")`. The escapes that it chooses are named
/// by `debug_text` and not described further.
#[verifier::external_body]
pub(crate) fn quoted(text: &str) -> (r: String)
    ensures
        r@ == debug_text(text@),
{
    format!("{:?}", text)
}

/// The texts in order, with a comma and a space between each two.
pub open spec fn listed(items: Seq<Seq<char>>) -> Seq<char>
    decreases items.len(),
{
    if items.len() == 0 {
        Seq::empty()
    } else if items.len() == 1 {
        items[0]
    } else {
        listed(items.drop_last()) + ", "@ + items.last()
    }
}

/// The texts in order, with a comma and a space between each two.
pub fn list_text(items: &Vec<String>) -> (r: String)
    ensures
        r@ == listed(items@.map_values(|item: String| item@)),
{
    let ghost all = items@.map_values(|item: String| item@);
    let mut out: String = String::new();
    proof {
        assert(all.take(0) =~= Seq::empty());
    }
    for i in 0..items.len()
        invariant
            all == items@.map_values(|item: String| item@),
            out@ == listed(all.take(i as int)),
    {
        proof {
            assert(all.take(i + 1).drop_last() =~= all.take(i as int));
            assert(all.take(i + 1).last() == items@[i as int]@);
        }
        if i > 0 {
            out.append(", ");
            out.append(&items[i]);
        } else {
            out = items[i].clone();
        }
    }
    proof {
        assert(all.take(all.len() as int) =~= all);
    }
    out
}

} // verus!
