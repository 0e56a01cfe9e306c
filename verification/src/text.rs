//! Verified text helpers: suffix testing and decimal rendering.

use vstd::prelude::*;
use vstd::string::StrSliceExecFns;
use vstd::string::StringExecFns;

verus! {

/// True when `suffix` is the final run of characters of `s`.
pub open spec fn is_suffix_of(suffix: Seq<char>, s: Seq<char>) -> bool {
    suffix.len() <= s.len() && s.subrange(s.len() - suffix.len(), s.len() as int) == suffix
}

/// Character-for-character suffix test, proved against `is_suffix_of`.
pub fn str_ends_with(s: &str, suffix: &str) -> (r: bool)
    ensures
        r == is_suffix_of(suffix@, s@),
{
    let n: usize = s.unicode_len();
    let m: usize = suffix.unicode_len();
    if m > n {
        return false;
    }
    let mut i: usize = 0;
    while i < m
        invariant
            i <= m <= n,
            n == s@.len(),
            m == suffix@.len(),
            forall|j: int| 0 <= j < i ==> s@[n - m + j] == suffix@[j],
        decreases m - i,
    {
        if s.get_char(n - m + i) != suffix.get_char(i) {
            proof {
                assert(!is_suffix_of(suffix@, s@)) by {
                    if is_suffix_of(suffix@, s@) {
                        assert(s@.subrange(n - m, n as int)[i as int] == s@[n - m + i]);
                    }
                }
            }
            return false;
        }
        i += 1;
    }
    proof {
        assert(s@.subrange(n - m, n as int) =~= suffix@);
    }
    true
}

/// The character standing for one decimal digit.
pub open spec fn digit_char(d: int) -> char {
    if d == 0 {
        '0'
    } else if d == 1 {
        '1'
    } else if d == 2 {
        '2'
    } else if d == 3 {
        '3'
    } else if d == 4 {
        '4'
    } else if d == 5 {
        '5'
    } else if d == 6 {
        '6'
    } else if d == 7 {
        '7'
    } else if d == 8 {
        '8'
    } else {
        '9'
    }
}

/// The decimal rendering of `n`, most significant digit first, no leading zeros.
pub open spec fn dec_digits_of(n: nat) -> Seq<char>
    decreases n,
{
    if n < 10 {
        seq![digit_char(n as int)]
    } else {
        dec_digits_of(n / 10) + seq![digit_char((n % 10) as int)]
    }
}

/// The digits of `ds` read back to front, as characters.
pub open spec fn rev_digit_chars(ds: Seq<u8>) -> Seq<char> {
    Seq::new(ds.len(), |i: int| digit_char(ds[ds.len() - 1 - i] as int))
}

proof fn lemma_rev_digit_chars_push(ds: Seq<u8>, d: u8)
    ensures
        rev_digit_chars(ds.push(d)) == seq![digit_char(d as int)] + rev_digit_chars(ds),
{
    let lhs = rev_digit_chars(ds.push(d));
    let rhs = seq![digit_char(d as int)] + rev_digit_chars(ds);
    assert forall|i: int| 0 <= i < lhs.len() implies lhs[i] == rhs[i] by {
        if i == 0 {
            assert(ds.push(d)[ds.len() as int] == d);
        } else {
            assert(ds.push(d)[ds.len() - i] == ds[ds.len() - i]);
        }
    }
    assert(lhs =~= rhs);
}

/// A one-character string slice for the decimal digit `d`.
fn digit_str(d: u8) -> (r: &'static str)
    requires
        d < 10,
    ensures
        r@ == seq![digit_char(d as int)],
{
    proof {
        reveal_strlit("0");
        reveal_strlit("1");
        reveal_strlit("2");
        reveal_strlit("3");
        reveal_strlit("4");
        reveal_strlit("5");
        reveal_strlit("6");
        reveal_strlit("7");
        reveal_strlit("8");
        reveal_strlit("9");
    }
    if d == 0 {
        proof { assert("0"@ =~= seq![digit_char(0)]); }
        "0"
    } else if d == 1 {
        proof { assert("1"@ =~= seq![digit_char(1)]); }
        "1"
    } else if d == 2 {
        proof { assert("2"@ =~= seq![digit_char(2)]); }
        "2"
    } else if d == 3 {
        proof { assert("3"@ =~= seq![digit_char(3)]); }
        "3"
    } else if d == 4 {
        proof { assert("4"@ =~= seq![digit_char(4)]); }
        "4"
    } else if d == 5 {
        proof { assert("5"@ =~= seq![digit_char(5)]); }
        "5"
    } else if d == 6 {
        proof { assert("6"@ =~= seq![digit_char(6)]); }
        "6"
    } else if d == 7 {
        proof { assert("7"@ =~= seq![digit_char(7)]); }
        "7"
    } else if d == 8 {
        proof { assert("8"@ =~= seq![digit_char(8)]); }
        "8"
    } else {
        proof { assert("9"@ =~= seq![digit_char(9)]); }
        "9"
    }
}

/// Renders `n` in decimal, proved equal to `dec_digits_of`.
pub fn u64_to_dec(n: u64) -> (r: String)
    ensures
        r@ == dec_digits_of(n as nat),
{
    let mut m: u64 = n;
    let mut digits: Vec<u8> = Vec::new();
    while m >= 10
        invariant
            dec_digits_of(n as nat) == dec_digits_of(m as nat) + rev_digit_chars(digits@),
            forall|j: int| 0 <= j < digits@.len() ==> digits@[j] < 10,
        decreases m,
    {
        let ghost pre = digits@;
        let d: u8 = (m % 10) as u8;
        digits.push(d);
        proof {
            lemma_rev_digit_chars_push(pre, d);
            assert(dec_digits_of(m as nat) + rev_digit_chars(pre) =~= dec_digits_of(
                (m / 10) as nat,
            ) + rev_digit_chars(digits@));
        }
        m = m / 10;
    }
    let ghost pre = digits@;
    digits.push(m as u8);
    proof {
        lemma_rev_digit_chars_push(pre, m as u8);
        assert(dec_digits_of(m as nat) =~= seq![digit_char(m as int)]);
        assert(dec_digits_of(n as nat) =~= rev_digit_chars(digits@));
    }
    let k: usize = digits.len();
    let mut r = String::new();
    let mut i: usize = 0;
    while i < k
        invariant
            i <= k,
            k == digits@.len(),
            forall|j: int| 0 <= j < digits@.len() ==> digits@[j] < 10,
            dec_digits_of(n as nat) == rev_digit_chars(digits@),
            r@ == rev_digit_chars(digits@).subrange(0, i as int),
        decreases k - i,
    {
        let d: u8 = digits[k - 1 - i];
        r.append(digit_str(d));
        proof {
            assert(rev_digit_chars(digits@)[i as int] == digit_char(d as int));
            assert(rev_digit_chars(digits@).subrange(0, i + 1) =~= rev_digit_chars(
                digits@,
            ).subrange(0, i as int) + seq![digit_char(d as int)]);
        }
        i += 1;
    }
    proof {
        assert(rev_digit_chars(digits@).subrange(0, k as int) =~= rev_digit_chars(digits@));
    }
    r
}

} // verus!
