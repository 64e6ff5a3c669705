//! The outcome and payout calculator: derives the roll from the verified
//! signature's digest, decides the win, and computes the payout with a fixed
//! house edge using overflow-safe arithmetic.

use vstd::prelude::*;
use crate::bytes::u128_le_spec;
use crate::bytes::read_u128_le;

verus! {

/// House edge in hundred-thousandths: one and a half percent.
pub const HOUSE_EDGE: u16 = 150;

/// Scale of the house-edge constant.
pub const EDGE_SCALE: u32 = 100000;

/// A failure of the payout computation.
#[derive(Debug, Clone, Copy, PartialEq, Eq, Structural)]
pub enum ArithmeticError {
    /// The computation overflowed the payout width or divided by zero.
    Overflow,
}

/// The outcome of one resolved bet.
#[derive(Debug, Clone, Copy, PartialEq, Eq, Structural)]
pub struct ResolutionOutcome {
    /// The derived roll, always between one and one hundred.
    pub roll: u8,
    /// Whether the roll stayed strictly under the bet's target.
    pub won: bool,
    /// The amount owed to the player: zero on a loss.
    pub payout: u64,
}

/// The SHA-256 digest of a byte string: thirty-two bytes depending on the
/// input bytes alone.
pub uninterp spec fn sha256_of(s: Seq<u8>) -> Seq<u8>;

/// Relies on solana_program::hash::hash: the SHA-256 digest of the input,
/// a pure function of the input bytes.
#[verifier::external_body]
fn sha256_digest(bytes: &[u8]) -> (r: [u8; 32])
    ensures
        r@ == sha256_of(bytes@),
{
    solana_program::hash::hash(bytes).to_bytes()
}

/// Two to the hundred-twenty-eighth power: the modulus of wrapping
/// hundred-twenty-eight-bit addition.
pub open spec fn pow2_128() -> int {
    u128::MAX + 1
}

/// The roll a digest yields: its two sixteen-byte halves, read little
/// endian, added with wraparound, reduced modulo one hundred, plus one.
pub open spec fn spec_roll(digest: Seq<u8>) -> int
    recommends
        digest.len() == 32,
{
    (u128_le_spec(digest.subrange(0, 16)) + u128_le_spec(digest.subrange(16, 32))) % pow2_128()
        % 100 + 1
}

/// Derives the roll from a thirty-two-byte digest.
pub fn roll_from_digest(digest: &[u8; 32]) -> (roll: u8)
    ensures
        roll == spec_roll(digest@),
        1 <= roll <= 100,
{
    let s = digest.as_slice();
    let lower = read_u128_le(s, 0);
    let upper = read_u128_le(s, 16);
    let folded = lower.wrapping_add(upper);
    proof {
        let sum = lower + upper;
        if sum > u128::MAX {
            assert(sum % pow2_128() == (sum - pow2_128()) % pow2_128()) by {
                vstd::arithmetic::div_mod::lemma_mod_sub_multiples_vanish(sum, pow2_128());
            }
            assert((sum - pow2_128()) % pow2_128() == sum - pow2_128()) by {
                vstd::arithmetic::div_mod::lemma_small_mod((sum - pow2_128()) as nat, pow2_128() as nat);
            }
        } else {
            assert(sum % pow2_128() == sum) by {
                vstd::arithmetic::div_mod::lemma_small_mod(sum as nat, pow2_128() as nat);
            }
        }
        assert(folded == sum % pow2_128());
    }
    (folded % 100) as u8 + 1
}

/// The payout formula: the wager times the retained fraction of the edge
/// scale, divided by one less than the target, divided by one hundred, each
/// division rounding down, in that order.
pub open spec fn spec_payout(amount: u64, target: u8) -> int
    recommends
        target >= 2,
{
    amount * (EDGE_SCALE - HOUSE_EDGE) / (target - 1) / 100
}

/// Computes the payout owed on a won bet. Fails with `Overflow` exactly when
/// the target leaves no room under it (so the fair-odds divisor would be zero
/// or negative) or the payout exceeds the transferable width.
pub fn compute_payout(amount: u64, target: u8) -> (r: Result<u64, ArithmeticError>)
    ensures
        r is Ok <==> target >= 2 && spec_payout(amount, target) <= u64::MAX,
        r matches Ok(p) ==> p == spec_payout(amount, target),
        target < 2 ==> r == Err::<u64, ArithmeticError>(ArithmeticError::Overflow),
{
    if target < 2 {
        return Err(ArithmeticError::Overflow);
    }
    let factor: u128 = (EDGE_SCALE - HOUSE_EDGE as u32) as u128;
    assert(factor == 99850);
    let edged: u128 = (amount as u128) * factor;
    let fair: u128 = edged / ((target - 1) as u128);
    let scaled: u128 = fair / 100;
    if scaled > u64::MAX as u128 {
        return Err(ArithmeticError::Overflow);
    }
    Ok(scaled as u64)
}

/// Resolves a verified bet: rolls from the signature's digest, decides the
/// win, and computes the payout. The roll and the win verdict are always
/// those of `spec_roll` on the signature's digest; a lost bet pays zero; a
/// won bet pays the exact house-edged amount or fails with `Overflow` when
/// that amount cannot be computed in range.
pub fn resolve_outcome(amount: u64, target: u8, sig: &[u8]) -> (r: Result<
    ResolutionOutcome,
    ArithmeticError,
>)
    ensures
        ({
            let roll = spec_roll(sha256_of(sig@));
            let won = target > roll;
            &&& r matches Ok(o) ==> o.roll == roll && o.won == won && (if won {
                o.payout == spec_payout(amount, target)
            } else {
                o.payout == 0
            })
            &&& r is Ok <==> (!won || (target >= 2 && spec_payout(amount, target) <= u64::MAX))
            &&& r is Err ==> r == Err::<ResolutionOutcome, ArithmeticError>(
                ArithmeticError::Overflow,
            )
        }),
{
    let digest = sha256_digest(sig);
    let roll = roll_from_digest(&digest);
    let won = target > roll;
    if won {
        let payout = compute_payout(amount, target)?;
        Ok(ResolutionOutcome { roll, won, payout })
    } else {
        Ok(ResolutionOutcome { roll, won, payout: 0 })
    }
}

} // verus!
