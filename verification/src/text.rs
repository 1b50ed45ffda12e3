//! Small text functions.
use vstd::prelude::*;
use vstd::string::{StrSliceExecFns, StringExecFns};

verus! {

/// Whether two texts are the same.
pub fn same_text(a: &str, b: &str) -> (same: bool)
    ensures
        same == (a@ == b@),
{
    a.to_string() == b.to_string()
}

/// `text` begins with `prefix`.
pub open spec fn begins_with(text: Seq<char>, prefix: Seq<char>) -> bool {
    prefix.len() <= text.len() && text.take(prefix.len() as int) == prefix
}

/// Whether `text` begins with `prefix`.
pub fn starts_with(text: &str, prefix: &str) -> (starts: bool)
    ensures
        starts == begins_with(text@, prefix@),
{
    let len: usize = prefix.unicode_len();
    if len > text.unicode_len() {
        false
    } else {
        assert(text@.take(len as int) =~= text@.subrange(0, len as int));
        same_text(text.substring_char(0, len), prefix)
    }
}

/// The decimal digits of a number, without leading zeros.
pub open spec fn decimal_digits(value: nat) -> Seq<char>
    decreases value,
{
    if value < 10 {
        seq![digit(value)]
    } else {
        decimal_digits(value / 10).push(digit(value % 10))
    }
}

/// A decimal digit.
pub open spec fn digit(value: nat) -> char {
    (48 + value) as char
}

/// Writes a number in decimal.
pub fn decimal(value: u64) -> (text: String)
    ensures
        text@ == decimal_digits(value as nat),
    decreases value,
{
    let last: usize = (value % 10) as usize;
    proof {
        reveal_strlit("0123456789");
    }
    let digit_text = "0123456789".substring_char(last, last + 1);
    assert(digit_text@ =~= seq![digit(last as nat)]);
    let mut text: String = if value < 10 {
        String::new()
    } else {
        decimal(value / 10)
    };
    text.append(digit_text);
    assert(text@ =~= decimal_digits(value as nat));
    text
}

/// The number that a sequence of decimal digits stands for.
pub open spec fn digits_value(digits: Seq<char>) -> nat
    decreases digits.len(),
{
    if digits.len() == 0 {
        0
    } else {
        10 * digits_value(digits.drop_last()) + (digits.last() as nat - 48) as nat
    }
}

/// A text of decimal digits and nothing else.
pub open spec fn all_digits(text: Seq<char>) -> bool {
    forall|i: int| 0 <= i < text.len() ==> '0' <= #[trigger] text[i] <= '9'
}

/// Reading a number back gives what was written.
pub proof fn law_decimal_reads_back(value: nat)
    ensures
        decimal_digits(value).len() > 0,
        all_digits(decimal_digits(value)),
        digits_value(decimal_digits(value)) == value,
    decreases value,
{
    if value < 10 {
        assert(seq![digit(value)].drop_last() =~= Seq::empty());
        reveal_with_fuel(digits_value, 2);
    } else {
        law_decimal_reads_back(value / 10);
        let digits = decimal_digits(value / 10).push(digit(value % 10));
        assert(digits.drop_last() =~= decimal_digits(value / 10));
    }
}

/// A text begins with what is before the rest of it.
pub proof fn law_prefixes_are_what_is_before_the_rest(text: Seq<char>, prefix: Seq<char>)
    ensures
        begins_with(text, prefix) <==> exists|rest: Seq<char>| text == #[trigger] (prefix + rest),
{
    if begins_with(text, prefix) {
        assert(text =~= prefix + text.skip(prefix.len() as int));
    }
    if exists|rest: Seq<char>| text == #[trigger] (prefix + rest) {
        let rest = choose|rest: Seq<char>| text == #[trigger] (prefix + rest);
        assert(text.take(prefix.len() as int) =~= prefix);
    }
}

/// A number is written in the shortest way: without leading zeros.
pub proof fn law_decimal_is_shortest(value: nat)
    ensures
        value > 0 ==> decimal_digits(value)[0] != '0',
        value == 0 ==> decimal_digits(value) == seq!['0'],
    decreases value,
{
    if value >= 10 {
        law_decimal_is_shortest(value / 10);
        law_decimal_reads_back(value / 10);
    }
}

} // verus!
