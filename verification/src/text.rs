//! Small verified string utilities shared by the codec, the path parser and
//! the validator: character classification, decimal rendering of integers and
//! string-slice equality.

use vstd::prelude::*;

verus! {

/// The canonical decimal digit for `d` (meaningful for `0 <= d < 10`).
pub open spec fn dec_digit(d: int) -> char {
    if d == 0 { '0' }
    else if d == 1 { '1' }
    else if d == 2 { '2' }
    else if d == 3 { '3' }
    else if d == 4 { '4' }
    else if d == 5 { '5' }
    else if d == 6 { '6' }
    else if d == 7 { '7' }
    else if d == 8 { '8' }
    else { '9' }
}

/// Whether `c` is one of the ten decimal digits.
pub open spec fn is_digit_char(c: char) -> bool {
    c == '0' || c == '1' || c == '2' || c == '3' || c == '4'
    || c == '5' || c == '6' || c == '7' || c == '8' || c == '9'
}

/// The numeric value of a decimal digit character (meaningful when
/// `is_digit_char(c)` holds).
pub open spec fn digit_val(c: char) -> int {
    if c == '0' { 0 }
    else if c == '1' { 1 }
    else if c == '2' { 2 }
    else if c == '3' { 3 }
    else if c == '4' { 4 }
    else if c == '5' { 5 }
    else if c == '6' { 6 }
    else if c == '7' { 7 }
    else if c == '8' { 8 }
    else { 9 }
}

/// The canonical decimal form of a natural number, most significant digit
/// first, with no leading zero except for the number zero itself.
pub open spec fn spec_dec_nat(n: nat) -> Seq<char>
    decreases n,
{
    if n < 10 {
        seq![dec_digit(n as int)]
    } else {
        spec_dec_nat(n / 10).push(dec_digit((n % 10) as int))
    }
}

/// The canonical decimal form of an integer: a leading `-` for negative
/// numbers, then the decimal form of the magnitude.
pub open spec fn spec_dec_int(i: int) -> Seq<char> {
    if i < 0 {
        seq!['-'] + spec_dec_nat((-i) as nat)
    } else {
        spec_dec_nat(i as nat)
    }
}

/// The digit character of the numeric value `d`.
fn digit_str(d: u64) -> (r: &'static str)
    requires
        d < 10,
    ensures
        r@ == seq![dec_digit(d as int)],
{
    let s: &'static str = match d {
        0 => "0",
        1 => "1",
        2 => "2",
        3 => "3",
        4 => "4",
        5 => "5",
        6 => "6",
        7 => "7",
        8 => "8",
        _ => "9",
    };
    proof {
        reveal_strlit("0");
        reveal_strlit("1");
        reveal_strlit("2");
        reveal_strlit("3");
        reveal_strlit("4");
        reveal_strlit("5");
        reveal_strlit("6");
        reveal_strlit("7");
        reveal_strlit("8");
        reveal_strlit("9");
        assert(s@ =~= seq![dec_digit(d as int)]);
    }
    s
}

/// Appends the decimal form of `n` to `s`.
fn push_dec_u64(s: &mut String, n: u64)
    ensures
        final(s)@ == old(s)@ + spec_dec_nat(n as nat),
    decreases n,
{
    if n >= 10 {
        proof {
            assert(n / 10 < n) by (nonlinear_arith)
                requires n >= 10;
        }
        push_dec_u64(s, n / 10);
    }
    let d = digit_str(n % 10);
    s.append(d);
    proof {
        assert(s@ =~= old(s)@ + spec_dec_nat(n as nat));
    }
}

/// Renders `i` in its canonical decimal form.
pub fn number_to_string(i: i64) -> (r: String)
    ensures
        r@ == spec_dec_int(i as int),
{
    let mut s = String::new();
    if i < 0 {
        s.append("-");
        proof {
            reveal_strlit("-");
            assert(s@ =~= seq!['-']);
        }
        let m: u64 = (-(i as i128)) as u64;
        push_dec_u64(&mut s, m);
        proof {
            assert(s@ =~= spec_dec_int(i as int));
        }
    } else {
        let m: u64 = i as u64;
        push_dec_u64(&mut s, m);
    }
    s
}

/// Renders `n` in its canonical decimal form.
pub fn usize_to_string(n: usize) -> (r: String)
    ensures
        r@ == spec_dec_nat(n as nat),
{
    let mut s = String::new();
    push_dec_u64(&mut s, n as u64);
    s
}

/// Character-wise equality of two string slices, equivalent to equality of
/// their views.
pub fn str_eq(a: &str, b: &str) -> (r: bool)
    ensures
        r == (a@ == b@),
{
    let na = a.unicode_len();
    let nb = b.unicode_len();
    if na != nb {
        return false;
    }
    let mut i: usize = 0;
    while i < na
        invariant
            0 <= i <= na,
            na == a@.len(),
            na == b@.len(),
            forall|j: int| 0 <= j < i ==> a@[j] == b@[j],
        decreases na - i,
    {
        if a.get_char(i) != b.get_char(i) {
            return false;
        }
        i += 1;
    }
    proof {
        assert(a@ =~= b@);
    }
    true
}

} // verus!
