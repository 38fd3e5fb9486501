//! Powers of ten for moving between a token's native precision and the
//! common unit of account.

use vstd::prelude::*;

verus! {

/// `10^e` as a mathematical natural.
pub open spec fn pow10(e: nat) -> nat
    decreases e,
{
    if e == 0 {
        1
    } else {
        10 * pow10((e - 1) as nat)
    }
}

/// The magnitude of an oracle exponent.
pub open spec fn abs_expo(e: i32) -> nat {
    if e < 0 {
        (-(e as int)) as nat
    } else {
        e as nat
    }
}

pub proof fn lemma_pow10_positive(e: nat)
    ensures
        pow10(e) >= 1,
    decreases e,
{
    if e > 0 {
        lemma_pow10_positive((e - 1) as nat);
    }
}

pub proof fn lemma_pow10_monotone(a: nat, b: nat)
    requires
        a <= b,
    ensures
        pow10(a) <= pow10(b),
    decreases b,
{
    if a < b {
        lemma_pow10_monotone(a, (b - 1) as nat);
        lemma_pow10_positive((b - 1) as nat);
    }
}

/// `10^e` when it fits the oracle's signed 64-bit price range, `None` when it
/// does not.
pub fn pow10_checked(e: u32) -> (r: Option<u64>)
    ensures
        match r {
            Some(v) => pow10(e as nat) <= i64::MAX && v == pow10(e as nat),
            None => pow10(e as nat) > i64::MAX,
        },
{
    let mut acc: u64 = 1;
    let mut i: u32 = 0;
    while i < e
        invariant
            i <= e,
            acc == pow10(i as nat),
            acc <= i64::MAX as u64,
        decreases e - i,
    {
        if acc > (i64::MAX as u64) / 10 {
            proof {
                assert(pow10((i + 1) as nat) == 10 * pow10(i as nat));
                lemma_pow10_monotone((i + 1) as nat, e as nat);
            }
            return None;
        }
        acc = acc * 10;
        i = i + 1;
    }
    Some(acc)
}

/// The magnitude of an oracle exponent, as the exec counterpart of
/// [`abs_expo`].
pub fn abs_expo_exec(e: i32) -> (r: u32)
    ensures
        r as nat == abs_expo(e),
{
    if e >= 0 {
        e as u32
    } else {
        (-(e as i64)) as u32
    }
}

} // verus!
