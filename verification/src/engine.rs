//! The resolution engine: the authority's key and the bet under resolution,
//! with signature verification and outcome computation run in strict
//! sequence.

use vstd::prelude::*;
use crate::commitment::BetCommitment;
use crate::record::VerificationRecord;
use crate::sigcheck::VerificationError;
use crate::sigcheck::spec_verify;
use crate::sigcheck::record_value;
use crate::sigcheck::verify_record;
use crate::outcome::ArithmeticError;
use crate::outcome::ResolutionOutcome;
use crate::outcome::sha256_of;
use crate::outcome::spec_roll;
use crate::outcome::spec_payout;
use crate::outcome::resolve_outcome;

verus! {

/// Why a full resolution attempt failed.
#[derive(Debug, Clone, Copy, PartialEq, Eq, Structural)]
pub enum ResolveError {
    /// A verification check failed; the outcome was never computed.
    Verification(VerificationError),
    /// The payout computation failed.
    Arithmetic(ArithmeticError),
}

/// One bet resolution: the authority (house) whose signature unlocks the
/// randomness, and the commitment being resolved.
pub struct ResolveBet {
    /// The authority's public key.
    pub house: [u8; 32],
    /// The bet commitment under resolution.
    pub bet: BetCommitment,
}

impl ResolveBet {
    /// Checks that the verification record attests that the native facility
    /// verified exactly `sig`, under the house key, over the canonical
    /// serialization of the bet.
    pub fn verify_ed25519_signature(&self, sig: &[u8], record: Option<&VerificationRecord>) -> (r:
        Result<(), VerificationError>)
        ensures
            r == spec_verify(self.house@, self.bet, sig@, record_value(record)),
    {
        verify_record(&self.house, &self.bet, sig, record)
    }

    /// Resolves the bet against an already verified signature: derives the
    /// roll from the signature's digest, decides the win, and computes the
    /// payout owed to the player.
    pub fn resolve_bet(&self, sig: &[u8]) -> (r: Result<ResolutionOutcome, ArithmeticError>)
        ensures
            ({
                let roll = spec_roll(sha256_of(sig@));
                let won = self.bet.target > roll;
                &&& r matches Ok(o) ==> o.roll == roll && o.won == won && (if won {
                    o.payout == spec_payout(self.bet.amount, self.bet.target)
                } else {
                    o.payout == 0
                })
                &&& r is Ok <==> (!won || (self.bet.target >= 2 && spec_payout(
                    self.bet.amount,
                    self.bet.target,
                ) <= u64::MAX))
                &&& r is Err ==> r == Err::<ResolutionOutcome, ArithmeticError>(
                    ArithmeticError::Overflow,
                )
            }),
    {
        resolve_outcome(self.bet.amount, self.bet.target, sig)
    }

    /// Runs the whole engine: verification first, and the outcome calculator
    /// only if every verification check passed.
    pub fn resolve(&self, sig: &[u8], record: Option<&VerificationRecord>) -> (r: Result<
        ResolutionOutcome,
        ResolveError,
    >)
        ensures
            ({
                let verdict = spec_verify(self.house@, self.bet, sig@, record_value(record));
                let roll = spec_roll(sha256_of(sig@));
                let won = self.bet.target > roll;
                &&& verdict matches Err(e) ==> r == Err::<ResolutionOutcome, ResolveError>(
                    ResolveError::Verification(e),
                )
                &&& verdict is Ok ==> {
                    &&& r matches Ok(o) ==> o.roll == roll && o.won == won && (if won {
                        o.payout == spec_payout(self.bet.amount, self.bet.target)
                    } else {
                        o.payout == 0
                    })
                    &&& r is Ok <==> (!won || (self.bet.target >= 2 && spec_payout(
                        self.bet.amount,
                        self.bet.target,
                    ) <= u64::MAX))
                    &&& r is Err ==> r == Err::<ResolutionOutcome, ResolveError>(
                        ResolveError::Arithmetic(ArithmeticError::Overflow),
                    )
                }
            }),
    {
        match self.verify_ed25519_signature(sig, record) {
            Ok(()) => {},
            Err(e) => {
                return Err(ResolveError::Verification(e));
            },
        }
        match self.resolve_bet(sig) {
            Ok(o) => Ok(o),
            Err(e) => Err(ResolveError::Arithmetic(e)),
        }
    }
}

} // verus!
