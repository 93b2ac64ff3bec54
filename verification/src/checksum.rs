//! The Code 128 weighted checksum.
//!
//! The checksum of a Code-Set-B data string starts from the Start-Set-B
//! symbol value (104) and adds, for each character at 1-based position `i`,
//! `i` times the character's symbol value.  The checksum symbol value is the
//! running sum modulo 103, so it always lies in [0, 102] and never collides
//! with the Start or Stop codes.

use vstd::arithmetic::div_mod::{
    lemma_add_mod_noop, lemma_add_mod_noop_right, lemma_mod_twice, lemma_mul_mod_noop_left,
};
use vstd::prelude::*;

use crate::symbols::{char_value, code_b_char};

verus! {

/// The weighted running sum over a data string: 104 for Start-Set-B, plus
/// each character's symbol value times its 1-based position.
pub open spec fn weighted_sum(s: Seq<char>) -> int
    decreases s.len(),
{
    if s.len() == 0 {
        104
    } else {
        weighted_sum(s.drop_last()) + s.len() * char_value(s.last())
    }
}

/// The checksum symbol value of a data string.
pub open spec fn checksum_spec(s: Seq<char>) -> int {
    weighted_sum(s) % 103
}

/// Computes the Code 128 checksum symbol value of a Code-Set-B data string.
///
/// The sum is reduced modulo 103 at every step, so the computation cannot
/// overflow whatever the string's length; reducing each weight modulo 103
/// as well keeps every intermediate product small.
pub fn calculate_checksum(s: &str) -> (r: usize)
    requires
        forall|i: int| 0 <= i < s@.len() ==> code_b_char(#[trigger] s@[i]),
    ensures
        r == checksum_spec(s@),
        r <= 102,
{
    let n: usize = s.unicode_len();
    let mut sum: usize = 1;
    proof {
        assert(s@.take(0) =~= Seq::<char>::empty());
    }
    let mut i: usize = 0;
    while i < n
        invariant
            i <= n,
            n == s@.len(),
            forall|j: int| 0 <= j < s@.len() ==> code_b_char(#[trigger] s@[j]),
            sum < 103,
            sum == weighted_sum(s@.take(i as int)) % 103,
        decreases n - i,
    {
        let c: char = s.get_char(i);
        proof {
            assert(code_b_char(s@[i as int]));
        }
        let v: usize = (c as u32 as usize) - 32;
        let w: usize = (i % 103) + 1;
        proof {
            assert(v <= 94);
            assert(w <= 103);
            assert(w * v <= 103 * 94) by (nonlinear_arith)
                requires
                    v <= 94,
                    w <= 103,
            ;
        }
        let next: usize = (sum + w * v) % 103;
        proof {
            let ghost a = weighted_sum(s@.take(i as int));
            let ghost wi = i as int + 1;
            let ghost vi = v as int;
            // The exec weight `w` agrees with the true weight `i + 1` modulo 103.
            lemma_add_mod_noop(i as int, 1, 103);
            lemma_mod_twice(i as int, 103);
            assert((w as int) % 103 == wi % 103) by {
                if (i as int) % 103 == 102 {
                    assert((w as int) % 103 == 103int % 103);
                }
            }
            // Folding one term into the running sum commutes with the reduction.
            lemma_mul_mod_noop_left(w as int, vi, 103);
            lemma_mul_mod_noop_left(wi, vi, 103);
            lemma_add_mod_noop_right(a, (w as int) * vi, 103);
            lemma_add_mod_noop_right(a, wi * vi, 103);
            lemma_add_mod_noop(a, (w as int) * vi, 103);
            lemma_mod_twice(a, 103);
            assert((a % 103 + (w as int) * vi) % 103 == (a + wi * vi) % 103) by {
                assert((a % 103 + (w as int) * vi) % 103 == (a % 103 % 103 + ((w as int) * vi) % 103)
                    % 103) by {
                    lemma_add_mod_noop(a % 103, (w as int) * vi, 103);
                }
                assert((a % 103 % 103 + ((w as int) * vi) % 103) % 103 == (a + (w as int) * vi)
                    % 103) by {
                    lemma_add_mod_noop(a, (w as int) * vi, 103);
                }
            }
            // One more character extends the weighted sum by its weighted value.
            assert(s@.take(i + 1).drop_last() =~= s@.take(i as int));
            assert(s@.take(i + 1).last() == s@[i as int]);
            assert(weighted_sum(s@.take(i + 1)) == a + wi * vi);
            assert(vi == char_value(s@[i as int]));
        }
        sum = next;
        i = i + 1;
    }
    proof {
        assert(s@.take(n as int) =~= s@);
    }
    sum
}

} // verus!
