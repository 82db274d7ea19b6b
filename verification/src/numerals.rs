//! A conservative textual bound on decimal numerals in source text.
//!
//! The engine's grammar reads one class of numeral token (an expression's
//! projection index) into a machine word and aborts on overflow instead of
//! reporting a syntax error.  Text within the bound checked here can never
//! reach that abort: every run of numeral characters it holds fits in a
//! machine word.  The bound is conservative: it does not distinguish the
//! positions the grammar reads into a machine word from those it reads as
//! arbitrary-precision literals, so text with an oversized literal is
//! rejected before it reaches the engine.

use vstd::prelude::*;
use vstd::arithmetic::div_mod::lemma_fundamental_div_mod;

verus! {

/// An ASCII decimal digit.
pub open spec fn is_decimal_digit(c: char) -> bool {
    48 <= c as u32 && c as u32 <= 57
}

/// A character the engine's grammar admits inside a numeral token: a
/// decimal digit or the `_` separator.
pub open spec fn is_numeral_char(c: char) -> bool {
    is_decimal_digit(c) || c as u32 == 95
}

/// The numeric value of the digits of `s[a..b)`, `_` separators skipped:
/// what the engine's grammar reads such a range as.
pub open spec fn numeral_value(s: Seq<char>, a: int, b: int) -> int
    decreases b - a,
{
    if a >= b {
        0
    } else if is_decimal_digit(s[b - 1]) {
        numeral_value(s, a, b - 1) * 10 + (s[b - 1] as u32 - 48)
    } else {
        numeral_value(s, a, b - 1)
    }
}

/// Every run of numeral characters in the text has a numeric value that
/// fits in a machine word.
pub open spec fn numerals_fit(s: Seq<char>) -> bool {
    forall|a: int, b: int|
        (0 <= a <= b <= s.len() && (forall|k: int| a <= k < b ==> is_numeral_char(s[k])))
            ==> #[trigger] numeral_value(s, a, b) <= usize::MAX as int
}

proof fn lemma_numeral_value_nonneg(s: Seq<char>, a: int, b: int)
    requires
        a <= b,
    ensures
        0 <= numeral_value(s, a, b),
    decreases b - a,
{
    if a < b {
        lemma_numeral_value_nonneg(s, a, b - 1);
    }
}

/// Widening a digit range to the left never lowers its value.
proof fn lemma_numeral_value_left_mono(s: Seq<char>, a2: int, a1: int, b: int)
    requires
        a2 <= a1 <= b,
    ensures
        numeral_value(s, a1, b) <= numeral_value(s, a2, b),
    decreases b - a1,
{
    if a1 == b {
        lemma_numeral_value_nonneg(s, a2, b);
    } else {
        lemma_numeral_value_left_mono(s, a2, a1, b - 1);
    }
}

/// Whether [`numerals_fit`] holds of the text: a single scan that tracks
/// the value of the current run of numeral characters.
pub fn numerals_fit_check(s: &str) -> (r: bool)
    ensures
        r == numerals_fit(s@),
{
    let n = s.unicode_len();
    let mut i: usize = 0;
    let mut run_start: usize = 0;
    let mut value: usize = 0;
    while i < n
        invariant
            n == s@.len(),
            i <= n,
            run_start <= i,
            forall|k: int| run_start <= k < i ==> is_numeral_char(s@[k]),
            run_start > 0 ==> !is_numeral_char(s@[run_start - 1]),
            value == numeral_value(s@, run_start as int, i as int),
            forall|a: int, b: int|
                (0 <= a <= b <= i && (forall|k: int| a <= k < b ==> is_numeral_char(s@[k])))
                    ==> #[trigger] numeral_value(s@, a, b) <= usize::MAX as int,
        decreases n - i,
    {
        let c = s.get_char(i);
        let cu: u32 = c as u32;
        if 48 <= cu && cu <= 57 {
            let d: usize = (cu - 48) as usize;
            if value > (usize::MAX - d) / 10 {
                proof {
                    let m = usize::MAX as int;
                    lemma_fundamental_div_mod(m - d, 10);
                    assert(10 * (value as int) + d > m);
                    assert(numeral_value(s@, run_start as int, i + 1) > m);
                    assert(run_start + 1 <= i + 1 <= s@.len());
                    assert(forall|k: int| run_start <= k < i + 1 ==> is_numeral_char(s@[k]));
                    assert(!numerals_fit(s@));
                }
                return false;
            }
            proof {
                let m = usize::MAX as int;
                lemma_fundamental_div_mod(m - d, 10);
                assert(10 * (value as int) + d <= m);
            }
            value = value * 10 + d;
        } else if cu == 95 {
            // a `_` separator: the run continues, its value is unchanged
        } else {
            run_start = i + 1;
            value = 0;
        }
        proof {
            let ii = i as int;
            let rs = run_start as int;
            assert forall|a: int, b: int|
                (0 <= a <= b <= ii + 1 && (forall|k: int| a <= k < b ==> is_numeral_char(s@[k])))
                    implies #[trigger] numeral_value(s@, a, b) <= usize::MAX as int by {
                if b == ii + 1 {
                    if a == b {
                        assert(numeral_value(s@, a, b) == 0);
                    } else if is_numeral_char(s@[ii]) {
                        if a < rs {
                            assert(is_numeral_char(s@[rs - 1]));
                            assert(false);
                        }
                        lemma_numeral_value_left_mono(s@, rs, a, b);
                    } else {
                        assert(is_numeral_char(s@[ii]));
                        assert(false);
                    }
                }
            }
        }
        i = i + 1;
    }
    true
}

} // verus!
