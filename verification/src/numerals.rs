//! Decimal numerals for the cache file format: printing an integer as its
//! digit sequence, parsing a digit run back, and the facts tying the two
//! together that the codec's round trip rests on.
use vstd::prelude::*;

verus! {

/// The digit character for a value below ten.
pub open spec fn digit_char(d: int) -> char {
    if d == 0 {
        '0'
    } else if d == 1 {
        '1'
    } else if d == 2 {
        '2'
    } else if d == 3 {
        '3'
    } else if d == 4 {
        '4'
    } else if d == 5 {
        '5'
    } else if d == 6 {
        '6'
    } else if d == 7 {
        '7'
    } else if d == 8 {
        '8'
    } else {
        '9'
    }
}

/// The value of a digit character, or a negative answer for any other char.
pub open spec fn digit_val(c: char) -> int {
    if c == '0' {
        0
    } else if c == '1' {
        1
    } else if c == '2' {
        2
    } else if c == '3' {
        3
    } else if c == '4' {
        4
    } else if c == '5' {
        5
    } else if c == '6' {
        6
    } else if c == '7' {
        7
    } else if c == '8' {
        8
    } else if c == '9' {
        9
    } else {
        -1
    }
}

pub open spec fn is_digit(c: char) -> bool {
    digit_val(c) >= 0
}

pub open spec fn all_digits(s: Seq<char>) -> bool {
    forall|i: int| 0 <= i < s.len() ==> is_digit(#[trigger] s[i])
}

/// The canonical decimal digit sequence of a natural number: no sign, no
/// leading zeros (except for zero itself, written as one digit).
pub open spec fn dec_digits(n: nat) -> Seq<char>
    decreases n,
{
    if n < 10 {
        seq![digit_char(n as int)]
    } else {
        dec_digits(n / 10).push(digit_char((n % 10) as int))
    }
}

/// The decimal digit sequence of an integer: a minus sign before the
/// magnitude when negative.
pub open spec fn dec_int(v: int) -> Seq<char> {
    if v < 0 {
        seq!['-'] + dec_digits((-v) as nat)
    } else {
        dec_digits(v as nat)
    }
}

/// The numeric value of a digit sequence, most significant digit first.
pub open spec fn dec_val(s: Seq<char>) -> int
    decreases s.len(),
{
    if s.len() == 0 {
        0
    } else {
        dec_val(s.drop_last()) * 10 + digit_val(s.last())
    }
}

/// The length of the digit run a sequence starts with.
pub open spec fn digit_run_len(s: Seq<char>) -> nat
    decreases s.len(),
{
    if s.len() == 0 || !is_digit(s[0]) {
        0
    } else {
        1 + digit_run_len(s.skip(1))
    }
}

/// Reading a number: the leading digit run, its value, and how many
/// characters it spans; nothing when the text starts with no digit or the
/// run's value does not fit an unsigned machine word.
pub open spec fn spec_parse_u64(t: Seq<char>) -> Option<(int, int)> {
    let run = digit_run_len(t) as int;
    if run == 0 {
        None
    } else {
        let v = dec_val(t.take(run));
        if v <= u64::MAX {
            Some((v, run))
        } else {
            None
        }
    }
}

/// Reading a signed number: an optional minus sign, then a digit run, with
/// the result held to the signed machine-word range.
pub open spec fn spec_parse_i64(t: Seq<char>) -> Option<(int, int)> {
    if t.len() > 0 && t[0] == '-' {
        match spec_parse_u64(t.skip(1)) {
            Some((v, k)) => if -v >= i64::MIN {
                Some((-v, k + 1))
            } else {
                None
            },
            None => None,
        }
    } else {
        match spec_parse_u64(t) {
            Some((v, k)) => if v <= i64::MAX {
                Some((v, k))
            } else {
                None
            },
            None => None,
        }
    }
}

/// A canonical digit sequence is made of digits and is never empty.
pub proof fn lemma_dec_digits_shape(n: nat)
    ensures
        all_digits(dec_digits(n)),
        dec_digits(n).len() >= 1,
    decreases n,
{
    if n >= 10 {
        lemma_dec_digits_shape(n / 10);
        assert forall|i: int| 0 <= i < dec_digits(n).len() implies is_digit(
            #[trigger] dec_digits(n)[i],
        ) by {
            if i < dec_digits(n).len() - 1 {
                assert(dec_digits(n)[i] == dec_digits(n / 10)[i]);
            }
        }
    }
}

/// A digit survives the trip through its character.
pub proof fn lemma_digit_roundtrip(d: int)
    requires
        0 <= d < 10,
    ensures
        digit_val(digit_char(d)) == d,
{
}

/// Printing then valuing gives the number back.
pub proof fn lemma_dec_digits_val(n: nat)
    ensures
        dec_val(dec_digits(n)) == n,
    decreases n,
{
    if n < 10 {
        let s = dec_digits(n);
        assert(s == seq![digit_char(n as int)]);
        assert(s.len() == 1);
        assert(s.drop_last() =~= Seq::<char>::empty());
        assert(dec_val(Seq::<char>::empty()) == 0);
        lemma_digit_roundtrip(n as int);
        assert(s.last() == digit_char(n as int));
        assert(dec_val(s) == dec_val(s.drop_last()) * 10 + digit_val(s.last()));
    } else {
        let s = dec_digits(n);
        assert(s == dec_digits(n / 10).push(digit_char((n % 10) as int)));
        lemma_dec_digits_val(n / 10);
        assert(s.drop_last() =~= dec_digits(n / 10));
        lemma_digit_roundtrip((n % 10) as int);
        assert(s.last() == digit_char((n % 10) as int));
        assert(dec_val(s) == dec_val(s.drop_last()) * 10 + digit_val(s.last()));
        assert(n == (n / 10) * 10 + n % 10) by (nonlinear_arith);
    }
}

/// The value of a digit sequence is never negative.
pub proof fn lemma_dec_val_nonneg(s: Seq<char>)
    requires
        all_digits(s),
    ensures
        dec_val(s) >= 0,
    decreases s.len(),
{
    if s.len() > 0 {
        assert(all_digits(s.drop_last()));
        lemma_dec_val_nonneg(s.drop_last());
    }
}

/// Extending a digit sequence with more digits never lowers its value.
pub proof fn lemma_dec_val_extend(s: Seq<char>, t: Seq<char>)
    requires
        all_digits(s),
        all_digits(t),
    ensures
        dec_val(s + t) >= dec_val(s),
    decreases t.len(),
{
    if t.len() == 0 {
        assert(s + t =~= s);
    } else {
        assert(all_digits(t.drop_last()));
        lemma_dec_val_extend(s, t.drop_last());
        assert((s + t).drop_last() =~= s + t.drop_last());
        assert(all_digits(s + t.drop_last()));
        lemma_dec_val_nonneg(s + t.drop_last());
        assert(dec_val(s + t) == dec_val(s + t.drop_last()) * 10 + digit_val((s + t).last()));
    }
}

/// The digit run of a digit sequence followed by anything that does not
/// start with a digit spans exactly that digit sequence.
pub proof fn lemma_digit_run_of_digits(d: Seq<char>, rest: Seq<char>)
    requires
        all_digits(d),
        rest.len() == 0 || !is_digit(rest[0]),
    ensures
        digit_run_len(d + rest) == d.len(),
    decreases d.len(),
{
    if d.len() == 0 {
        assert(d + rest =~= rest);
    } else {
        assert(is_digit((d + rest)[0]));
        assert((d + rest).skip(1) =~= d.skip(1) + rest);
        assert(all_digits(d.skip(1)));
        lemma_digit_run_of_digits(d.skip(1), rest);
    }
}

/// A digit run is exactly characterized: `k` leading digits and then either
/// the end of the text or a character that is no digit.
pub proof fn lemma_digit_run_exact(t: Seq<char>, k: int)
    requires
        0 <= k <= t.len(),
        forall|j: int| 0 <= j < k ==> is_digit(#[trigger] t[j]),
        k == t.len() || !is_digit(t[k]),
    ensures
        digit_run_len(t) == k,
    decreases k,
{
    if k == 0 {
    } else {
        assert(is_digit(t[0]));
        lemma_digit_run_exact(t.skip(1), k - 1);
    }
}

/// A digit run never reaches past the end of the text.
pub proof fn lemma_digit_run_le(t: Seq<char>)
    ensures
        digit_run_len(t) <= t.len(),
    decreases t.len(),
{
    if t.len() > 0 && is_digit(t[0]) {
        lemma_digit_run_le(t.skip(1));
    }
}

/// Every character within a digit run is a digit.
pub proof fn lemma_digit_run_digits(t: Seq<char>)
    ensures
        forall|j: int| 0 <= j < digit_run_len(t) ==> is_digit(#[trigger] t[j]),
    decreases t.len(),
{
    if t.len() > 0 && is_digit(t[0]) {
        lemma_digit_run_le(t);
        lemma_digit_run_le(t.skip(1));
        lemma_digit_run_digits(t.skip(1));
        assert forall|j: int| 0 <= j < digit_run_len(t) implies is_digit(#[trigger] t[j]) by {
            if j > 0 {
                assert(0 <= j - 1 < digit_run_len(t.skip(1)));
                assert(is_digit(t.skip(1)[j - 1]));
                assert(t[j] == t.skip(1)[j - 1]);
            }
        }
    }
}

/// A digit run reaches at least past any all-digit prefix.
pub proof fn lemma_digit_run_at_least(t: Seq<char>, m: int)
    requires
        0 <= m <= t.len(),
        forall|j: int| 0 <= j < m ==> is_digit(#[trigger] t[j]),
    ensures
        digit_run_len(t) >= m,
    decreases m,
{
    if m > 0 {
        assert(is_digit(t[0]));
        assert forall|j: int| 0 <= j < m - 1 implies is_digit(#[trigger] t.skip(1)[j]) by {
            assert(t.skip(1)[j] == t[j + 1]);
        }
        lemma_digit_run_at_least(t.skip(1), m - 1);
    }
}

/// A successful number read consumes at least one character, stays within
/// the text, and yields a value within the unsigned machine-word range.
pub proof fn lemma_parse_u64_bounds(t: Seq<char>)
    ensures
        spec_parse_u64(t) matches Some(p) ==> 1 <= p.1 <= t.len() && 0 <= p.0 <= u64::MAX,
{
    if spec_parse_u64(t) is Some {
        let run = digit_run_len(t) as int;
        lemma_digit_run_le(t);
        lemma_digit_run_digits(t);
        assert(all_digits(t.take(run)));
        lemma_dec_val_nonneg(t.take(run));
    }
}

/// Reading the printed form of a number gives the number and consumes
/// exactly its digits, whatever follows them, provided it is no digit.
pub proof fn lemma_parse_u64_of_digits(n: nat, rest: Seq<char>)
    requires
        n <= u64::MAX,
        rest.len() == 0 || !is_digit(rest[0]),
    ensures
        spec_parse_u64(dec_digits(n) + rest) == Some((n as int, dec_digits(n).len() as int)),
{
    let t = dec_digits(n) + rest;
    lemma_dec_digits_shape(n);
    lemma_digit_run_of_digits(dec_digits(n), rest);
    assert(t.take(dec_digits(n).len() as int) =~= dec_digits(n));
    lemma_dec_digits_val(n);
}

/// The signed analogue: reading the printed form of a signed number gives it
/// back, whatever follows it, provided it is no digit.
pub proof fn lemma_parse_i64_of_dec(v: int, rest: Seq<char>)
    requires
        i64::MIN <= v <= i64::MAX,
        rest.len() == 0 || !is_digit(rest[0]),
    ensures
        spec_parse_i64(dec_int(v) + rest) == Some((v, dec_int(v).len() as int)),
{
    if v < 0 {
        let t = dec_int(v) + rest;
        assert(t[0] == '-');
        assert(t.skip(1) =~= dec_digits((-v) as nat) + rest);
        lemma_parse_u64_of_digits((-v) as nat, rest);
    } else {
        lemma_dec_digits_shape(v as nat);
        let t = dec_int(v) + rest;
        assert(t[0] == dec_digits(v as nat)[0]);
        assert(is_digit(t[0]));
        assert(t[0] != '-');
        assert(t =~= dec_digits(v as nat) + rest);
        lemma_parse_u64_of_digits(v as nat, rest);
    }
}

/// The digit string of a value below ten.
fn digit_to_str(d: u64) -> (s: &'static str)
    requires
        d < 10,
    ensures
        s@ == seq![digit_char(d as int)],
{
    if d == 0 {
        proof {
            reveal_strlit("0");
        }
        assert("0"@ =~= seq![digit_char(0)]);
        "0"
    } else if d == 1 {
        proof {
            reveal_strlit("1");
        }
        assert("1"@ =~= seq![digit_char(1)]);
        "1"
    } else if d == 2 {
        proof {
            reveal_strlit("2");
        }
        assert("2"@ =~= seq![digit_char(2)]);
        "2"
    } else if d == 3 {
        proof {
            reveal_strlit("3");
        }
        assert("3"@ =~= seq![digit_char(3)]);
        "3"
    } else if d == 4 {
        proof {
            reveal_strlit("4");
        }
        assert("4"@ =~= seq![digit_char(4)]);
        "4"
    } else if d == 5 {
        proof {
            reveal_strlit("5");
        }
        assert("5"@ =~= seq![digit_char(5)]);
        "5"
    } else if d == 6 {
        proof {
            reveal_strlit("6");
        }
        assert("6"@ =~= seq![digit_char(6)]);
        "6"
    } else if d == 7 {
        proof {
            reveal_strlit("7");
        }
        assert("7"@ =~= seq![digit_char(7)]);
        "7"
    } else if d == 8 {
        proof {
            reveal_strlit("8");
        }
        assert("8"@ =~= seq![digit_char(8)]);
        "8"
    } else {
        proof {
            reveal_strlit("9");
        }
        assert("9"@ =~= seq![digit_char(9)]);
        "9"
    }
}

/// Prints a natural number as its canonical decimal digits.
pub fn u64_to_dec(n: u64) -> (s: String)
    ensures
        s@ == dec_digits(n as nat),
    decreases n,
{
    if n < 10 {
        digit_to_str(n).to_owned()
    } else {
        let mut s = u64_to_dec(n / 10);
        s.append(digit_to_str(n % 10));
        s
    }
}

/// Prints a signed number: a minus sign before the magnitude when negative.
pub fn i64_to_dec(v: i64) -> (s: String)
    ensures
        s@ == dec_int(v as int),
{
    if v >= 0 {
        u64_to_dec(v as u64)
    } else {
        // The magnitude is computed in a wider type so the most negative
        // value does not overflow.
        let magnitude: u64 = (-(v as i128)) as u64;
        let mut s = String::new();
        proof {
            reveal_strlit("-");
        }
        s.append("-");
        let digits = u64_to_dec(magnitude);
        s.append(digits.as_str());
        proof {
            assert("-"@ =~= seq!['-']);
            assert(s@ =~= dec_int(v as int));
        }
        s
    }
}

/// The digit value of a character, if it is one.
pub fn char_digit(c: char) -> (r: Option<u64>)
    ensures
        match r {
            Some(d) => d as int == digit_val(c) && d < 10,
            None => !is_digit(c),
        },
{
    if c == '0' {
        Some(0)
    } else if c == '1' {
        Some(1)
    } else if c == '2' {
        Some(2)
    } else if c == '3' {
        Some(3)
    } else if c == '4' {
        Some(4)
    } else if c == '5' {
        Some(5)
    } else if c == '6' {
        Some(6)
    } else if c == '7' {
        Some(7)
    } else if c == '8' {
        Some(8)
    } else if c == '9' {
        Some(9)
    } else {
        None
    }
}

} // verus!
