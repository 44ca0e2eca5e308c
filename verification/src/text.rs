//! Text of the values that are written as CMake definitions.

use vstd::prelude::*;

verus! {

/// The text of a value that may be missing.
pub open spec fn text_of(value: Option<String>) -> Option<Seq<char>> {
    match value {
        Some(text) => Some(text@),
        None => None,
    }
}

/// The text that stands for a boolean option.
pub open spec fn bool_text(b: bool) -> Seq<char> {
    if b {
        "true"@
    } else {
        "false"@
    }
}

/// The text of a boolean option: `"true"` or `"false"`.
pub fn bool_to_str(b: bool) -> (text: &'static str)
    ensures
        text@ == bool_text(b),
{
    if b {
        "true"
    } else {
        "false"
    }
}

/// A boolean option is written as one of two texts, letter for letter, and
/// the two differ, so the option can be read back from its text.
pub proof fn lemma_bool_text(b: bool)
    ensures
        bool_text(b) == "true"@ || bool_text(b) == "false"@,
        bool_text(b) == "true"@ <==> b,
        bool_text(b) == "false"@ <==> !b,
        "true"@ == seq!['t', 'r', 'u', 'e'],
        "false"@ == seq!['f', 'a', 'l', 's', 'e'],
{
    reveal_strlit("true");
    reveal_strlit("false");
    assert("true"@.len() == 4);
    assert("false"@.len() == 5);
    assert("true"@ =~= seq!['t', 'r', 'u', 'e']);
    assert("false"@ =~= seq!['f', 'a', 'l', 's', 'e']);
}

/// Whether two texts are the same, character by character.
pub fn same_text(a: &str, b: &str) -> (same: bool)
    ensures
        same == (a@ == b@),
{
    let left = String::from_str(a);
    let right = String::from_str(b);
    left == right
}

/// The character of one decimal digit.
pub open spec fn digit_char(d: nat) -> char
    recommends
        d < 10,
{
    if d == 0 {
        '0'
    } else if d == 1 {
        '1'
    } else if d == 2 {
        '2'
    } else if d == 3 {
        '3'
    } else if d == 4 {
        '4'
    } else if d == 5 {
        '5'
    } else if d == 6 {
        '6'
    } else if d == 7 {
        '7'
    } else if d == 8 {
        '8'
    } else {
        '9'
    }
}

/// A number in decimal: no sign, no leading zero, `"0"` for zero.
pub open spec fn decimal_text(n: nat) -> Seq<char>
    decreases n,
{
    if n < 10 {
        seq![digit_char(n)]
    } else {
        decimal_text(n / 10).push(digit_char(n % 10))
    }
}

fn digit_str(d: usize) -> (text: &'static str)
    requires
        d < 10,
    ensures
        text@ == seq![digit_char(d as nat)],
{
    proof {
        reveal_strlit("0");
        reveal_strlit("1");
        reveal_strlit("2");
        reveal_strlit("3");
        reveal_strlit("4");
        reveal_strlit("5");
        reveal_strlit("6");
        reveal_strlit("7");
        reveal_strlit("8");
        reveal_strlit("9");
    }
    let text = if d == 0 {
        "0"
    } else if d == 1 {
        "1"
    } else if d == 2 {
        "2"
    } else if d == 3 {
        "3"
    } else if d == 4 {
        "4"
    } else if d == 5 {
        "5"
    } else if d == 6 {
        "6"
    } else if d == 7 {
        "7"
    } else if d == 8 {
        "8"
    } else {
        "9"
    };
    assert(text@ =~= seq![digit_char(d as nat)]);
    text
}

/// Writes a number in decimal.
pub fn usize_to_string(n: usize) -> (text: String)
    ensures
        text@ == decimal_text(n as nat),
    decreases n,
{
    if n < 10 {
        String::from_str(digit_str(n))
    } else {
        let head = usize_to_string(n / 10);
        let text = head.concat(digit_str(n % 10));
        assert(text@ =~= decimal_text(n as nat));
        text
    }
}

/// A number with its sign in decimal: `-` before a negative number, nothing
/// before any other.
pub open spec fn signed_decimal_text(i: int) -> Seq<char> {
    if i < 0 {
        seq!['-'] + decimal_text((-i) as nat)
    } else {
        decimal_text(i as nat)
    }
}

/// Writes a number with its sign in decimal.
pub fn i32_to_string(i: i32) -> (text: String)
    ensures
        text@ == signed_decimal_text(i as int),
{
    if i < 0 {
        proof {
            reveal_strlit("-");
            assert("-"@ =~= seq!['-']);
        }
        let magnitude: i64 = -(i as i64);
        let digits = usize_to_string(magnitude as usize);
        let mut text = String::from_str("-");
        text.append(digits.as_str());
        text
    } else {
        usize_to_string(i as usize)
    }
}

/// The digit that a character stands for; zero for a character that is no
/// digit.
pub open spec fn digit_value(c: char) -> nat {
    if c == '1' {
        1
    } else if c == '2' {
        2
    } else if c == '3' {
        3
    } else if c == '4' {
        4
    } else if c == '5' {
        5
    } else if c == '6' {
        6
    } else if c == '7' {
        7
    } else if c == '8' {
        8
    } else if c == '9' {
        9
    } else {
        0
    }
}

/// The number that a decimal text stands for.
pub open spec fn decimal_value(text: Seq<char>) -> nat
    decreases text.len(),
{
    if text.len() == 0 {
        0
    } else {
        decimal_value(text.drop_last()) * 10 + digit_value(text.last())
    }
}

/// A number can be read back from its decimal text, so two numbers with the
/// same text are the same number.
pub proof fn lemma_decimal_round_trip(n: nat)
    ensures
        decimal_value(decimal_text(n)) == n,
    decreases n,
{
    if n < 10 {
        assert(decimal_text(n).drop_last() =~= Seq::<char>::empty());
        assert(decimal_value(decimal_text(n).drop_last()) == 0);
    } else {
        lemma_decimal_round_trip(n / 10);
        assert(decimal_text(n).drop_last() =~= decimal_text(n / 10));
    }
}

/// A decimal text is never empty and holds digits only.
pub proof fn lemma_decimal_text_digits(n: nat)
    ensures
        decimal_text(n).len() >= 1,
        forall|i: int|
            0 <= i < decimal_text(n).len() ==> '0' <= #[trigger] decimal_text(n)[i] <= '9',
        n > 0 ==> decimal_text(n)[0] != '0',
    decreases n,
{
    if n >= 10 {
        lemma_decimal_text_digits(n / 10);
    }
}

/// The parts of a list written one after the other, with `separator` between
/// each two neighbours and nowhere else.
pub open spec fn joined(parts: Seq<Seq<char>>, separator: Seq<char>) -> Seq<char>
    decreases parts.len(),
{
    if parts.len() == 0 {
        Seq::empty()
    } else if parts.len() == 1 {
        parts[0]
    } else {
        joined(parts.drop_last(), separator) + separator + parts.last()
    }
}

/// Joining nothing gives the empty text; joining three parts gives them in
/// their order with two separators, whether or not parts repeat.
pub proof fn lemma_joined_small(a: Seq<char>, b: Seq<char>, c: Seq<char>, separator: Seq<char>)
    ensures
        joined(Seq::empty(), separator) == Seq::<char>::empty(),
        joined(seq![a], separator) == a,
        joined(seq![a, b], separator) == a + separator + b,
        joined(seq![a, b, c], separator) == a + separator + b + separator + c,
{
    assert(joined(seq![a], separator) == a);
    assert(seq![a, b].drop_last() =~= seq![a]);
    assert(seq![a, b].last() == b);
    assert(joined(seq![a, b], separator) == a + separator + b);
    assert(seq![a, b, c].drop_last() =~= seq![a, b]);
    assert(seq![a, b, c].last() == c);
}

/// Joining a list that grew by one part: the separator and the new part
/// follow what was joined before; the first part stands alone.
pub proof fn lemma_joined_push(parts: Seq<Seq<char>>, part: Seq<char>, separator: Seq<char>)
    ensures
        joined(parts.push(part), separator) == if parts.len() == 0 {
            part
        } else {
            joined(parts, separator) + separator + part
        },
{
    assert(parts.push(part).drop_last() =~= parts);
}

/// The parts of a text that stand between the occurrences of a separator,
/// in their order. A text without the separator is one part, the empty text
/// too.
pub open spec fn split(text: Seq<char>, separator: char) -> Seq<Seq<char>>
    decreases text.len(),
{
    if text.len() == 0 {
        seq![Seq::empty()]
    } else {
        let before = split(text.drop_last(), separator);
        if text.last() == separator {
            before.push(Seq::empty())
        } else {
            before.drop_last().push(before.last().push(text.last()))
        }
    }
}

/// Whether a text is not empty and holds no separator.
pub open spec fn is_part(part: Seq<char>, separator: char) -> bool {
    &&& part.len() > 0
    &&& forall|i: int| 0 <= i < part.len() ==> part[i] != separator
}

proof fn lemma_split_has_parts(text: Seq<char>, separator: char)
    ensures
        split(text, separator).len() >= 1,
    decreases text.len(),
{
    if text.len() > 0 {
        lemma_split_has_parts(text.drop_last(), separator);
    }
}

proof fn lemma_split_grows(text: Seq<char>, part: Seq<char>, separator: char)
    requires
        forall|i: int| 0 <= i < part.len() ==> part[i] != separator,
    ensures
        split(text + part, separator) == split(text, separator).drop_last().push(
            split(text, separator).last() + part,
        ),
    decreases part.len(),
{
    let parts = split(text, separator);
    lemma_split_has_parts(text, separator);
    if part.len() == 0 {
        assert(text + part =~= text);
        assert(parts.last() + part =~= parts.last());
        assert(parts.drop_last().push(parts.last()) =~= parts);
    } else {
        let shorter = part.drop_last();
        lemma_split_grows(text, shorter, separator);
        assert((text + part).drop_last() =~= text + shorter);
        assert((text + part).last() == part.last());
        let before = parts.drop_last().push(parts.last() + shorter);
        assert(before.drop_last() =~= parts.drop_last());
        assert((parts.last() + shorter).push(part.last()) =~= parts.last() + part);
    }
}

/// A list of parts can be read back from its joined text: the text splits
/// into the parts, in their order.
pub proof fn lemma_split_joined(parts: Seq<Seq<char>>, separator: char)
    requires
        parts.len() >= 1,
        forall|i: int| 0 <= i < parts.len() ==> is_part(#[trigger] parts[i], separator),
    ensures
        split(joined(parts, seq![separator]), separator) == parts,
        joined(parts, seq![separator]).len() >= 1,
    decreases parts.len(),
{
    let none = Seq::<char>::empty();
    if parts.len() == 1 {
        lemma_split_grows(none, parts[0], separator);
        assert(none + parts[0] =~= parts[0]);
        assert(split(none, separator).drop_last().push(none + parts[0]) =~= parts);
    } else {
        let rest = parts.drop_last();
        assert forall|i: int| 0 <= i < rest.len() implies is_part(
            #[trigger] rest[i],
            separator,
        ) by {
            assert(rest[i] == parts[i]);
        }
        lemma_split_joined(rest, separator);
        let text = joined(rest, seq![separator]);
        let with_separator = text + seq![separator];
        assert(with_separator.drop_last() =~= text);
        assert(split(with_separator, separator) == rest.push(none));
        lemma_split_grows(with_separator, parts.last(), separator);
        assert(rest.push(none).drop_last().push(none + parts.last()) =~= parts);
    }
}

/// Two lists of parts that join to the same text are the same list.
pub proof fn lemma_joined_injective(
    first: Seq<Seq<char>>,
    second: Seq<Seq<char>>,
    separator: char,
)
    requires
        forall|i: int| 0 <= i < first.len() ==> is_part(#[trigger] first[i], separator),
        forall|i: int| 0 <= i < second.len() ==> is_part(#[trigger] second[i], separator),
        joined(first, seq![separator]) == joined(second, seq![separator]),
    ensures
        first == second,
{
    if first.len() >= 1 {
        lemma_split_joined(first, separator);
    }
    if second.len() >= 1 {
        lemma_split_joined(second, separator);
    }
    if first.len() == 0 || second.len() == 0 {
        assert(first =~= second);
    }
}

} // verus!
