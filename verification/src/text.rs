//! Text helpers: decimal numerals, comparison and trimming.

use vstd::prelude::*;
use vstd::string::StringExecFns;

verus! {

/// The character of one decimal digit.
pub open spec fn digit(d: nat) -> char {
    if d == 0 {
        '0'
    } else if d == 1 {
        '1'
    } else if d == 2 {
        '2'
    } else if d == 3 {
        '3'
    } else if d == 4 {
        '4'
    } else if d == 5 {
        '5'
    } else if d == 6 {
        '6'
    } else if d == 7 {
        '7'
    } else if d == 8 {
        '8'
    } else {
        '9'
    }
}

/// The decimal numeral of a natural number, without leading zeros.
pub open spec fn decimal(n: nat) -> Seq<char>
    decreases n,
{
    if n < 10 {
        seq![digit(n)]
    } else {
        decimal(n / 10).push(digit(n % 10))
    }
}

/// The decimal numeral of an integer, with a minus sign where it is negative.
pub open spec fn signed_decimal(i: int) -> Seq<char> {
    if i < 0 {
        seq!['-'] + decimal((-i) as nat)
    } else {
        decimal(i as nat)
    }
}

/// Whether a text holds no line break, so that it can travel as one line.
pub open spec fn single_line(text: Seq<char>) -> bool {
    !text.contains('\n')
}

/// A text made of two single lines is a single line.
pub proof fn lemma_single_line_concat(left: Seq<char>, right: Seq<char>)
    requires
        single_line(left),
        single_line(right),
    ensures
        single_line(left + right),
{
    if (left + right).contains('\n') {
        let i = choose|i: int| 0 <= i < (left + right).len() && (left + right)[i] == '\n';
        if i < left.len() {
            assert(left[i] == '\n');
        } else {
            assert(right[i - left.len()] == '\n');
        }
    }
}

/// A decimal numeral is a single line.
pub proof fn lemma_decimal_single_line(n: nat)
    ensures
        single_line(decimal(n)),
    decreases n,
{
    if n < 10 {
        assert(decimal(n)[0] == digit(n));
        if decimal(n).contains('\n') {
            let i = choose|i: int| 0 <= i < decimal(n).len() && decimal(n)[i] == '\n';
        }
    } else {
        lemma_decimal_single_line(n / 10);
        assert(single_line(seq![digit(n % 10)])) by {
            let last = seq![digit(n % 10)];
            if last.contains('\n') {
                let i = choose|i: int| 0 <= i < last.len() && last[i] == '\n';
            }
        }
        lemma_single_line_concat(decimal(n / 10), seq![digit(n % 10)]);
        assert(decimal(n) =~= decimal(n / 10) + seq![digit(n % 10)]);
    }
}

/// Whether a text is a stretch of another.
pub open spec fn part_of(part: Seq<char>, whole: Seq<char>) -> bool {
    exists|from: int, to: int|
        0 <= from <= to <= whole.len() && part == #[trigger] whole.subrange(from, to)
}

/// What `str::trim` leaves of a text: the text without its leading and
/// trailing whitespace.
pub uninterp spec fn trimmed(text: Seq<char>) -> Seq<char>;

/// `str::trim`: removes leading and trailing whitespace. The result is named
/// by [`trimmed`], and is a part of the text.
#[verifier::external_body]
pub(crate) fn trim(text: &str) -> (rest: &str)
    ensures
        rest@ == trimmed(text@),
        part_of(rest@, text@),
{
    text.trim()
}

fn digit_text(d: u64) -> (text: &'static str)
    requires
        d < 10,
    ensures
        text@ == seq![digit(d as nat)],
{
    proof {
        reveal_strlit("0");
        reveal_strlit("1");
        reveal_strlit("2");
        reveal_strlit("3");
        reveal_strlit("4");
        reveal_strlit("5");
        reveal_strlit("6");
        reveal_strlit("7");
        reveal_strlit("8");
        reveal_strlit("9");
    }
    let text = if d == 0 {
        "0"
    } else if d == 1 {
        "1"
    } else if d == 2 {
        "2"
    } else if d == 3 {
        "3"
    } else if d == 4 {
        "4"
    } else if d == 5 {
        "5"
    } else if d == 6 {
        "6"
    } else if d == 7 {
        "7"
    } else if d == 8 {
        "8"
    } else {
        "9"
    };
    assert(text@ =~= seq![digit(d as nat)]);
    text
}

/// Writes a number as its decimal numeral.
pub fn decimal_string(n: u64) -> (text: String)
    ensures
        text@ == decimal(n as nat),
    decreases n,
{
    if n < 10 {
        String::from_str(digit_text(n))
    } else {
        let mut text = decimal_string(n / 10);
        text.append(digit_text(n % 10));
        assert(text@ =~= decimal((n / 10) as nat).push(digit((n % 10) as nat)));
        text
    }
}

/// Writes a signed number as its decimal numeral.
pub fn signed_decimal_string(n: i64) -> (text: String)
    ensures
        text@ == signed_decimal(n as int),
{
    if n >= 0 {
        decimal_string(n as u64)
    } else {
        let magnitude: u64 = (-(n + 1)) as u64 + 1;
        let digits = decimal_string(magnitude);
        let mut text = String::from_str("-");
        proof {
            reveal_strlit("-");
        }
        text.append(digits.as_str());
        assert(text@ =~= seq!['-'] + decimal((-(n as int)) as nat));
        text
    }
}

/// Whether a line holds nothing but whitespace. An empty line does.
pub fn is_blank(line: &str) -> (blank: bool)
    ensures
        blank == (trimmed(line@).len() == 0),
        trimmed(line@).len() <= line@.len(),
{
    trim(line).is_empty()
}

} // verus!
