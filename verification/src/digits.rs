//! Decimal form of ticket counters.
//!
//! A ticket travels as the decimal string of its counter value, so the
//! library fixes that form here: `dec_of` is the canonical digit string of a
//! number, `dec_value` the number a digit string denotes, and the two
//! executable functions realise them exactly.

use vstd::prelude::*;

verus! {

/// The canonical decimal digit string of `n`: no sign, no leading zeros
/// (except for `n == 0`, which is the single digit `0`).
pub open spec fn dec_of(n: nat) -> Seq<u8>
    decreases n,
{
    if n < 10 {
        seq![(48 + n) as u8]
    } else {
        dec_of(n / 10).push((48 + n % 10) as u8)
    }
}

/// Whether `s` is a non-empty string of ASCII decimal digits.
pub open spec fn is_dec_digits(s: Seq<u8>) -> bool {
    s.len() > 0 && forall|i: int| 0 <= i < s.len() ==> 48 <= #[trigger] s[i] <= 57
}

/// The number denoted by the digit string `s` (most significant digit first).
pub open spec fn dec_value(s: Seq<u8>) -> nat
    decreases s.len(),
{
    if s.len() == 0 {
        0
    } else {
        (dec_value(s.drop_last()) * 10 + (s.last() - 48)) as nat
    }
}

/// The decimal digit string of `n`, as bytes.
pub fn dec_string(n: u64) -> (r: Vec<u8>)
    ensures
        r@ == dec_of(n as nat),
    decreases n,
{
    if n < 10 {
        let mut v: Vec<u8> = Vec::new();
        v.push(48 + n as u8);
        proof {
            assert(v@ =~= dec_of(n as nat));
        }
        v
    } else {
        let mut v = dec_string(n / 10);
        v.push(48 + (n % 10) as u8);
        proof {
            assert(v@ =~= dec_of(n as nat));
        }
        v
    }
}

/// Parses a decimal digit string. Returns the denoted value exactly when `s`
/// is all digits, non-empty, and the value fits in a `u64`; `None` otherwise.
pub fn parse_dec(s: &[u8]) -> (r: Option<u64>)
    ensures
        r matches Some(v) ==> is_dec_digits(s@) && dec_value(s@) <= u64::MAX && v == dec_value(
            s@,
        ),
        r is None ==> !(is_dec_digits(s@) && dec_value(s@) <= u64::MAX),
{
    if s.len() == 0 {
        return None;
    }
    let mut acc: u64 = 0;
    let mut i: usize = 0;
    while i < s.len()
        invariant
            0 <= i <= s@.len(),
            s@.len() > 0,
            forall|j: int| 0 <= j < i ==> 48 <= #[trigger] s@[j] <= 57,
            acc == dec_value(s@.take(i as int)),
        decreases s@.len() - i,
    {
        let b = s[i];
        if b < 48 || b > 57 {
            return None;
        }
        let d = (b - 48) as u64;
        proof {
            assert(s@.take(i + 1).drop_last() =~= s@.take(i as int));
            assert(s@.take(i + 1).last() == s@[i as int]);
        }
        let wide = match acc.checked_mul(10) {
            Some(w) => w,
            None => {
                proof {
                    if is_dec_digits(s@) {
                        lemma_dec_value_grows(s@, i + 1);
                    }
                }
                return None;
            },
        };
        acc = match wide.checked_add(d) {
            Some(a) => a,
            None => {
                proof {
                    if is_dec_digits(s@) {
                        lemma_dec_value_grows(s@, i + 1);
                    }
                }
                return None;
            },
        };
        i = i + 1;
    }
    proof {
        assert(s@.take(s@.len() as int) =~= s@);
    }
    Some(acc)
}

/// A digit string denotes at least as much as any of its prefixes, provided
/// the bytes past the prefix are digits.
proof fn lemma_dec_value_grows(s: Seq<u8>, j: int)
    requires
        0 <= j <= s.len(),
        forall|i: int| j <= i < s.len() ==> 48 <= #[trigger] s[i] <= 57,
    ensures
        dec_value(s.take(j)) <= dec_value(s),
    decreases s.len() - j,
{
    if j == s.len() {
        assert(s.take(j) =~= s);
    } else {
        assert(s.take(j + 1).drop_last() =~= s.take(j));
        assert(s.take(j + 1).last() == s[j]);
        assert(dec_value(s.take(j)) <= dec_value(s.take(j + 1)));
        lemma_dec_value_grows(s, j + 1);
    }
}

/// The `k`-th power of ten.
pub open spec fn pow10(k: nat) -> nat
    decreases k,
{
    if k == 0 {
        1
    } else {
        10 * pow10((k - 1) as nat)
    }
}

/// A number below the `k`-th power of ten has at most `k` decimal digits.
pub proof fn lemma_dec_of_len(n: nat, k: nat)
    requires
        n < pow10(k),
        1 <= k,
    ensures
        dec_of(n).len() <= k,
    decreases n,
{
    if n >= 10 {
        vstd::arithmetic::div_mod::lemma_fundamental_div_mod(n as int, 10);
        if n / 10 >= pow10((k - 1) as nat) {
            assert(n >= 10 * pow10((k - 1) as nat));
            assert(false);
        }
        lemma_dec_of_len(n / 10, (k - 1) as nat);
    }
}

/// The decimal form is faithful: the digit string of `n` is a proper digit
/// string and denotes `n` itself.
pub proof fn lemma_dec_round_trip(n: nat)
    ensures
        is_dec_digits(dec_of(n)),
        dec_value(dec_of(n)) == n,
    decreases n,
{
    if n < 10 {
        assert(dec_of(n).drop_last() =~= Seq::<u8>::empty());
        assert((48 + n) as u8 == 48 + n);
        assert(dec_value(dec_of(n)) == (dec_value(Seq::<u8>::empty()) * 10 + (dec_of(n).last()
            - 48)) as nat);
    } else {
        lemma_dec_round_trip(n / 10);
        assert(dec_of(n).drop_last() =~= dec_of(n / 10));
        assert(0 <= n % 10 < 10);
        assert(dec_of(n).last() == (48 + n % 10) as u8);
        assert((48 + n % 10) as u8 == 48 + n % 10);
        assert(dec_value(dec_of(n)) == (dec_value(dec_of(n / 10)) * 10 + (dec_of(n).last()
            - 48)) as nat);
        vstd::arithmetic::div_mod::lemma_fundamental_div_mod(n as int, 10);
    }
}

} // verus!
