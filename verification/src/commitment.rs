//! The bet commitment: the fixed, pre-agreed bet parameters that the
//! authority signs, together with their canonical byte serialization.

use vstd::prelude::*;
use crate::bytes::u64_le_bytes;
use crate::bytes::push_u64_le;

verus! {

/// A recorded wager. The surrounding ledger creates it and closes it; the
/// resolution engine only reads it.
pub struct BetCommitment {
    /// Unique numeric seed distinguishing this bet instance.
    pub seed: u64,
    /// Identity of the party who placed the wager.
    pub player: [u8; 32],
    /// Wagered value in the smallest currency unit.
    pub amount: u64,
    /// Threshold the derived roll must stay under for a win.
    pub target: u8,
    /// Address-derivation metadata kept by the ledger; part of the signed
    /// message but otherwise opaque to the engine.
    pub bump: u8,
}

impl BetCommitment {
    /// A well-formed commitment keeps its target inside the playable range.
    pub open spec fn wf(self) -> bool {
        2 <= self.target <= 100
    }

    /// The canonical serialization: player, then seed, amount (little
    /// endian), target and bump — fixed order, fixed width.
    pub open spec fn serialized_spec(self) -> Seq<u8> {
        self.player@ + u64_le_bytes(self.seed) + u64_le_bytes(self.amount) + seq![
            self.target,
            self.bump,
        ]
    }

    /// Serializes the commitment into the exact byte string the authority is
    /// expected to have signed.
    pub fn to_slice(&self) -> (r: Vec<u8>)
        ensures
            r@ == self.serialized_spec(),
    {
        let mut out: Vec<u8> = Vec::new();
        let mut i: usize = 0;
        while i < 32
            invariant
                i <= 32,
                out@ == self.player@.subrange(0, i as int),
            decreases 32 - i,
        {
            out.push(self.player[i]);
            proof {
                assert(out@ =~= self.player@.subrange(0, i + 1));
            }
            i = i + 1;
        }
        proof {
            assert(out@ =~= self.player@);
        }
        push_u64_le(&mut out, self.seed);
        push_u64_le(&mut out, self.amount);
        out.push(self.target);
        out.push(self.bump);
        proof {
            assert(out@ =~= self.serialized_spec());
        }
        out
    }
}

} // verus!
