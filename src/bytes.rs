//! Facts about byte sequences shared by the decoders and the input cursor.
use vstd::prelude::*;

verus! {

/// The number of leading bytes of `s` that satisfy `p`.
pub open spec fn prefix_len(s: Seq<u8>, p: spec_fn(u8) -> bool) -> nat
    decreases s.len(),
{
    if s.len() > 0 && p(s[0]) {
        1 + prefix_len(s.drop_first(), p)
    } else {
        0
    }
}

/// A run of `i` bytes satisfying `p`, followed by the end or by a byte that
/// does not, is exactly the prefix that `prefix_len` counts.
pub proof fn lemma_prefix_len(s: Seq<u8>, p: spec_fn(u8) -> bool, i: int)
    requires
        0 <= i <= s.len(),
        forall|k: int| 0 <= k < i ==> p(#[trigger] s[k]),
        i == s.len() || !p(s[i]),
    ensures
        prefix_len(s, p) == i,
    decreases i,
{
    if i > 0 {
        let t = s.drop_first();
        assert forall|k: int| 0 <= k < i - 1 implies p(#[trigger] t[k]) by {
            assert(t[k] == s[k + 1]);
        }
        if i - 1 < t.len() {
            assert(t[i - 1] == s[i]);
        }
        lemma_prefix_len(t, p, i - 1);
    }
}

/// Every byte that `prefix_len` counts satisfies `p`, and the byte after
/// them, if any, does not.
pub proof fn lemma_prefix_len_bounds(s: Seq<u8>, p: spec_fn(u8) -> bool)
    ensures
        prefix_len(s, p) <= s.len(),
        forall|k: int| 0 <= k < prefix_len(s, p) ==> p(#[trigger] s[k]),
        prefix_len(s, p) < s.len() ==> !p(s[prefix_len(s, p) as int]),
    decreases s.len(),
{
    if s.len() > 0 && p(s[0]) {
        let t = s.drop_first();
        lemma_prefix_len_bounds(t, p);
        assert forall|k: int| 0 <= k < prefix_len(s, p) implies p(#[trigger] s[k]) by {
            if k > 0 {
                assert(s[k] == t[k - 1]);
            }
        }
        if prefix_len(s, p) < s.len() {
            assert(s[prefix_len(s, p) as int] == t[prefix_len(t, p) as int]);
        }
    }
}

/// Space, tab, line feed or carriage return.
pub open spec fn is_space(b: u8) -> bool {
    b == 32 || b == 9 || b == 10 || b == 13
}

pub open spec fn is_alpha(b: u8) -> bool {
    (65 <= b <= 90) || (97 <= b <= 122)
}

pub open spec fn is_digit(b: u8) -> bool {
    48 <= b <= 57
}

pub open spec fn is_alnum(b: u8) -> bool {
    is_alpha(b) || is_digit(b)
}

pub open spec fn space_pred() -> spec_fn(u8) -> bool {
    |b: u8| is_space(b)
}

pub open spec fn alnum_pred() -> spec_fn(u8) -> bool {
    |b: u8| is_alnum(b)
}

/// Holds of every byte but `x`.
pub open spec fn other_than(x: u8) -> spec_fn(u8) -> bool {
    |b: u8| b != x
}

/// The position of the first `x` in `s`, or `s.len()` where there is none.
pub open spec fn index_of(s: Seq<u8>, x: u8) -> nat {
    prefix_len(s, other_than(x))
}

/// `s` with its leading whitespace dropped.
pub open spec fn skip_space(s: Seq<u8>) -> Seq<u8> {
    s.skip(prefix_len(s, space_pred()) as int)
}

pub open spec fn starts_with(s: Seq<u8>, lit: Seq<u8>) -> bool {
    lit.len() <= s.len() && s.take(lit.len() as int) == lit
}

/// The value of `s` read as a little-endian unsigned integer.
pub open spec fn le_value(s: Seq<u8>) -> nat
    decreases s.len(),
{
    if s.len() == 0 {
        0
    } else {
        s[0] as nat + 256 * le_value(s.drop_first())
    }
}

/// 256 to the power `n`.
pub open spec fn pow256(n: nat) -> nat
    decreases n,
{
    if n == 0 {
        1
    } else {
        256 * pow256((n - 1) as nat)
    }
}

pub proof fn lemma_pow256_le(a: nat, b: nat)
    requires
        a <= b,
    ensures
        pow256(a) <= pow256(b),
    decreases b,
{
    if a < b {
        lemma_pow256_le(a, (b - 1) as nat);
    }
}

} // verus!
