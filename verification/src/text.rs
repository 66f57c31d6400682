//! Decimal rendering and parsing of integers as character sequences.

use vstd::prelude::*;

verus! {

/// The decimal digit character for `d` (0..=9).
pub open spec fn spec_dec_digit(d: nat) -> char
    recommends
        d < 10,
{
    ((48 + d) as u8) as char
}

/// The decimal rendering of a natural number, most significant digit first.
pub open spec fn spec_u64_chars(n: nat) -> Seq<char>
    decreases n,
{
    if n < 10 {
        seq![spec_dec_digit(n)]
    } else {
        spec_u64_chars(n / 10).push(spec_dec_digit(n % 10))
    }
}

/// The decimal rendering of a signed number: a leading '-' for negatives.
pub open spec fn spec_i64_chars(n: int) -> Seq<char> {
    if n >= 0 {
        spec_u64_chars(n as nat)
    } else {
        seq!['-'] + spec_u64_chars((-n) as nat)
    }
}

fn dec_digit_str(d: u64) -> (r: &'static str)
    requires
        d < 10,
    ensures
        r@ =~= seq![spec_dec_digit(d as nat)],
{
    if d == 0 {
        proof { reveal_strlit("0"); }
        "0"
    } else if d == 1 {
        proof { reveal_strlit("1"); }
        "1"
    } else if d == 2 {
        proof { reveal_strlit("2"); }
        "2"
    } else if d == 3 {
        proof { reveal_strlit("3"); }
        "3"
    } else if d == 4 {
        proof { reveal_strlit("4"); }
        "4"
    } else if d == 5 {
        proof { reveal_strlit("5"); }
        "5"
    } else if d == 6 {
        proof { reveal_strlit("6"); }
        "6"
    } else if d == 7 {
        proof { reveal_strlit("7"); }
        "7"
    } else if d == 8 {
        proof { reveal_strlit("8"); }
        "8"
    } else {
        proof { reveal_strlit("9"); }
        "9"
    }
}

/// The digits of `ds`, least significant first, read back in rendering order.
spec fn spec_rev_digit_chars(ds: Seq<u64>) -> Seq<char> {
    Seq::new(ds.len(), |i: int| spec_dec_digit(ds[ds.len() - 1 - i] as nat))
}

/// Renders `n` in decimal.
pub fn u64_to_string(n: u64) -> (r: String)
    ensures
        r@ == spec_u64_chars(n as nat),
{
    let mut digits: Vec<u64> = Vec::new();
    if n == 0 {
        digits.push(0);
        assert(spec_rev_digit_chars(digits@) =~= spec_u64_chars(n as nat));
    } else {
        let mut m: u64 = n;
        while m > 0
            invariant
                forall|j: int| 0 <= j < digits@.len() ==> #[trigger] digits@[j] < 10,
                m > 0 ==> spec_u64_chars(n as nat) =~= spec_u64_chars(m as nat)
                    + spec_rev_digit_chars(digits@),
                m == 0 ==> spec_u64_chars(n as nat) =~= spec_rev_digit_chars(digits@),
            decreases m,
        {
            let ghost old_digits = digits@;
            let d: u64 = m % 10;
            digits.push(d);
            proof {
                assert(spec_rev_digit_chars(digits@) =~= seq![spec_dec_digit(d as nat)]
                    + spec_rev_digit_chars(old_digits));
            }
            let next: u64 = m / 10;
            proof {
                if m >= 10 {
                    assert(spec_u64_chars(m as nat) == spec_u64_chars((m / 10) as nat).push(
                        spec_dec_digit((m % 10) as nat)));
                    assert(spec_u64_chars((m / 10) as nat) + spec_rev_digit_chars(digits@)
                        =~= spec_u64_chars(m as nat) + spec_rev_digit_chars(old_digits));
                } else {
                    assert(spec_u64_chars(m as nat) =~= seq![spec_dec_digit(d as nat)]);
                    assert(spec_rev_digit_chars(digits@) =~= spec_u64_chars(m as nat)
                        + spec_rev_digit_chars(old_digits));
                }
            }
            m = next;
        }
    }
    let ghost all = spec_rev_digit_chars(digits@);
    let mut r: String = String::new();
    let mut i: usize = digits.len();
    while i > 0
        invariant
            i <= digits.len(),
            forall|j: int| 0 <= j < digits@.len() ==> #[trigger] digits@[j] < 10,
            all == spec_rev_digit_chars(digits@),
            r@ =~= all.take(digits.len() - i),
        decreases i,
    {
        i = i - 1;
        let d: u64 = digits[i];
        r.append(dec_digit_str(d));
        proof {
            let k = digits@.len() - i;
            assert(all[k - 1] == spec_dec_digit(d as nat));
            assert(r@ =~= all.take(k));
        }
    }
    proof {
        assert(r@ =~= all);
    }
    r
}

/// Renders `n` in decimal, with a leading '-' when negative.
pub fn i64_to_string(n: i64) -> (r: String)
    ensures
        r@ == spec_i64_chars(n as int),
{
    if n >= 0 {
        u64_to_string(n as u64)
    } else {
        let wide: i128 = -(n as i128);
        assert(0 < wide <= 0x8000_0000_0000_0000);
        let mag: u64 = wide as u64;
        let mut r = String::from_str("-");
        proof { reveal_strlit("-"); }
        assert(r@ =~= seq!['-']);
        let rest = u64_to_string(mag);
        r.append(rest.as_str());
        r
    }
}

/// Whether every character of `s` is a decimal digit, and there is at least one.
pub open spec fn spec_all_digits(s: Seq<char>) -> bool {
    s.len() > 0 && forall|i: int| 0 <= i < s.len() ==> 48 <= #[trigger] (s[i] as u32) <= 57
}

/// The numeric value of a digit sequence, most significant digit first.
pub open spec fn spec_dec_value(s: Seq<char>) -> nat
    decreases s.len(),
{
    if s.len() == 0 {
        0
    } else {
        spec_dec_value(s.drop_last()) * 10 + ((s.last() as u32 - 48) as nat)
    }
}

} // verus!
