//! Helpers for adapters of the two-level enumeration variant.
//!
//! That variant reports no netmask structure but an on-link prefix
//! length, and reports names as wide-character buffers with an embedded
//! terminator.  The netmask is derived by left-filling the prefix's
//! count of one bits into a value of the address's bit width; the name
//! is truncated at its first zero unit and decoded.

use vstd::arithmetic::power2::{
    lemma2_to64, lemma2_to64_rest, lemma_pow2_adds, lemma_pow2_pos,
    lemma_pow2_strictly_increases, lemma_pow2_unfold, pow2,
};
use vstd::prelude::*;

use crate::addr::IpAddr;
use crate::iface::{ones, prefix_len_of};

verus! {

/// The IPv4 mask whose `p` highest bits are one, all 32 of them from
/// `p == 32` up.
pub open spec fn mask_v4_of(p: nat) -> u32 {
    if p >= 32 {
        0xffff_ffffu32
    } else {
        (0xffff_ffffu32 - (pow2((32 - p) as nat) - 1)) as u32
    }
}

/// The IPv6 mask whose `p` highest bits are one, all 128 of them from
/// `p == 128` up.
pub open spec fn mask_v6_of(p: nat) -> u128 {
    if p >= 128 {
        u128::MAX
    } else {
        (u128::MAX - (pow2((128 - p) as nat) - 1)) as u128
    }
}

/// Doubling a number leaves its count of one bits unchanged.
proof fn lemma_ones_shift(n: nat, k: nat)
    ensures
        ones(n * pow2(k)) == ones(n),
    decreases k,
{
    if k == 0 {
        lemma2_to64();
    } else {
        lemma_pow2_unfold(k);
        assert(n * pow2(k) == 2 * (n * pow2((k - 1) as nat))) by (nonlinear_arith)
            requires
                pow2(k) == 2 * pow2((k - 1) as nat),
        ;
        lemma_ones_shift(n, (k - 1) as nat);
    }
}

/// A number of the form `pow2(b) - 1` has exactly `b` one bits.
proof fn lemma_ones_saturated(b: nat)
    ensures
        ones((pow2(b) - 1) as nat) == b,
    decreases b,
{
    lemma2_to64();
    if b > 0 {
        lemma_pow2_unfold(b);
        lemma_pow2_pos(b);
        lemma_pow2_pos((b - 1) as nat);
        lemma_ones_saturated((b - 1) as nat);
        let n = (pow2(b) - 1) as nat;
        let m = (pow2((b - 1) as nat) - 1) as nat;
        assert(n == 2 * m + 1);
        assert(n % 2 == 1);
        assert(n / 2 == m);
        assert(ones(n) == 1 + ones(m));
    }
}

/// A left-filled mask of `p` one bits in a `w`-bit value has exactly
/// `p` one bits.
proof fn lemma_ones_mask(p: nat, w: nat)
    requires
        p <= w,
    ensures
        ones((pow2(w) - pow2((w - p) as nat)) as nat) == p,
{
    lemma_pow2_adds(p, (w - p) as nat);
    lemma_pow2_pos(p);
    lemma_pow2_pos(w);
    lemma_pow2_pos((w - p) as nat);
    assert((pow2(p) - 1) * pow2((w - p) as nat) == pow2(p) * pow2((w - p) as nat) - pow2(
        (w - p) as nat,
    )) by (nonlinear_arith);
    lemma_ones_shift((pow2(p) - 1) as nat, (w - p) as nat);
    lemma_ones_saturated(p);
    assert(((pow2(p) - 1) as nat) * pow2((w - p) as nat) == (pow2(w) - pow2(
        (w - p) as nat,
    )) as nat);
}

/// Computes `pow2(k)` for exponents a `u128` can hold.
#[verifier::loop_isolation(false)]
fn pow2_u128(k: u8) -> (r: u128)
    requires
        k <= 127,
    ensures
        r == pow2(k as nat),
        r >= 1,
{
    proof {
        lemma2_to64();
        lemma2_to64_rest();
        lemma_pow2_adds(64, 63);
    }
    let mut j: u8 = 0;
    let mut v: u128 = 1;
    while j < k
        invariant
            0 <= j <= k,
            v == pow2(j as nat),
            v >= 1,
        decreases k - j,
    {
        proof {
            lemma_pow2_unfold((j + 1) as nat);
            if ((j + 1) as nat) < 127 {
                lemma_pow2_strictly_increases((j + 1) as nat, 127);
            }
        }
        v = v * 2;
        j += 1;
    }
    v
}

/// Derives the netmask for an on-link prefix length: the mask of the
/// address family's bit width whose `prefix` highest bits are one.  The
/// mask's own CIDR prefix length is `prefix`, clamped to the width.
#[verifier::loop_isolation(false)]
pub fn netmask_from_prefix(prefix: u8, v6: bool) -> (m: IpAddr)
    ensures
        !v6 ==> m == IpAddr::V4(mask_v4_of(prefix as nat)),
        v6 ==> m == IpAddr::V6(mask_v6_of(prefix as nat)),
        !v6 ==> prefix_len_of(m) == (if prefix <= 32 {
            prefix as nat
        } else {
            32nat
        }),
        v6 ==> prefix_len_of(m) == (if prefix <= 128 {
            prefix as nat
        } else {
            128nat
        }),
{
    proof {
        lemma2_to64();
        lemma_pow2_adds(64, 64);
    }
    if v6 {
        let p: u8 = if prefix >= 128 {
            128
        } else {
            prefix
        };
        proof {
            lemma_ones_mask(p as nat, 128);
        }
        if p == 128 {
            IpAddr::V6(u128::MAX)
        } else if p == 0 {
            IpAddr::V6(0)
        } else {
            let pw: u128 = pow2_u128(128 - p);
            proof {
                if ((128 - p) as nat) < 127 {
                    lemma_pow2_strictly_increases((128 - p) as nat, 127);
                }
                lemma_pow2_adds(64, 63);
                lemma2_to64_rest();
            }
            IpAddr::V6(u128::MAX - (pw - 1))
        }
    } else {
        let p: u8 = if prefix >= 32 {
            32
        } else {
            prefix
        };
        proof {
            lemma_ones_mask(p as nat, 32);
        }
        if p == 32 {
            IpAddr::V4(u32::MAX)
        } else if p == 0 {
            IpAddr::V4(0)
        } else {
            let pw: u128 = pow2_u128(32 - p);
            proof {
                if ((32 - p) as nat) < 32 {
                    lemma_pow2_strictly_increases((32 - p) as nat, 32);
                }
            }
            IpAddr::V4(u32::MAX - ((pw - 1) as u32))
        }
    }
}

/// The characters that lossy UTF-16 decoding yields for a sequence of
/// code units.
pub uninterp spec fn utf16_lossy_of(units: Seq<u16>) -> Seq<char>;

/// Relies on `String::from_utf16_lossy`: the characters depend on the
/// code units alone.
#[verifier::external_body]
fn utf16_lossy(units: &Vec<u16>) -> (r: String)
    ensures
        r@ == utf16_lossy_of(units@),
        units@.len() == 0 ==> r@.len() == 0,
{
    String::from_utf16_lossy(units.as_slice())
}

/// The count of code units before the first zero unit, or all of them
/// where no zero unit occurs.
pub open spec fn nul_prefix_len(s: Seq<u16>) -> nat
    decreases s.len(),
{
    if s.len() == 0 {
        0
    } else if s[0] == 0 {
        0
    } else {
        (1 + nul_prefix_len(s.drop_first())) as nat
    }
}

/// A scan that stops at index `i` on a zero unit, or at the end, found
/// the length of the unterminated prefix.
proof fn lemma_nul_prefix(s: Seq<u16>, i: int)
    requires
        0 <= i <= s.len(),
        forall|j: int| 0 <= j < i ==> s[j] != 0,
        i == s.len() || s[i] == 0,
    ensures
        nul_prefix_len(s) == i,
    decreases i,
{
    if i > 0 {
        lemma_nul_prefix(s.drop_first(), i - 1);
    }
}

/// Decodes a wide-character name buffer: the units before the first
/// zero unit, lossily decoded.
pub fn wide_name(units: &Vec<u16>) -> (r: String)
    ensures
        r@ == utf16_lossy_of(units@.take(nul_prefix_len(units@) as int)),
{
    let n = units.len();
    let mut end: usize = 0;
    while end < n && units[end] != 0
        invariant
            0 <= end <= n,
            n == units@.len(),
            forall|j: int| 0 <= j < end ==> units@[j] != 0,
        decreases n - end,
    {
        end += 1;
    }
    proof {
        lemma_nul_prefix(units@, end as int);
    }
    let mut prefix: Vec<u16> = Vec::new();
    let mut k: usize = 0;
    while k < end
        invariant
            0 <= k <= end <= n,
            n == units@.len(),
            prefix@ == units@.take(k as int),
        decreases end - k,
    {
        prefix.push(units[k]);
        proof {
            assert(prefix@ =~= units@.take(k + 1));
        }
        k += 1;
    }
    utf16_lossy(&prefix)
}

} // verus!
