use vstd::prelude::*;

use crate::error::StakingError;
use crate::pubkey::Pubkey;

verus! {

/// What a whitelist record authorizes its address for: staking an asset of
/// that mint, or attaching assets of that creator as associated objects.
#[derive(Clone, Copy, Debug, PartialEq, Eq, Structural)]
pub enum WhitelistType {
    /// The address is a mint whose assets may be staked.
    StakeableMint,
    /// The address is a creator whose assets may be attached as objects.
    AssociatedObject,
}

/// An authorization record: within one farm, the given address is approved
/// for the given purpose, and — for associated objects — grants the given
/// reward-rate contribution to any object it authorizes.
///
/// Read-only to the staking core; issued and revoked by an external
/// administrative flow, which guarantees a positive `reward_rate`.
#[derive(Clone, Copy, Debug, PartialEq, Eq, Structural)]
pub struct WhitelistProof {
    /// The farm this record is scoped to.
    pub farm: Pubkey,
    /// The approved address: a stakeable mint, or an object creator.
    pub whitelisted_address: Pubkey,
    /// What the address is approved for.
    pub ty: WhitelistType,
    /// For associated objects, the rate granted to each authorized object.
    pub reward_rate: u64,
}

impl WhitelistProof {
    /// This record authorizes, within `farm`, attaching objects whose
    /// creator is `creator`.
    pub open spec fn authorizes_object(self, farm: Pubkey, creator: Pubkey) -> bool {
        &&& self.farm == farm
        &&& self.whitelisted_address == creator
        &&& self.ty == WhitelistType::AssociatedObject
    }

    /// Check that this record authorizes attaching an object of the given
    /// `creator` within `farm`, and hand back the rate it grants.
    ///
    /// A record of another farm, or for another address, fails with
    /// `AddressNotWhitelisted`; one of the right address but the wrong type
    /// tag fails with `InvalidWhitelistType`.
    pub fn validate_for_object(&self, farm: Pubkey, creator: Pubkey) -> (r: Result<
        u64,
        StakingError,
    >)
        ensures
            r is Ok <==> self.authorizes_object(farm, creator),
            r is Ok ==> r == Ok::<u64, StakingError>(self.reward_rate),
            r == Err::<u64, StakingError>(StakingError::AddressNotWhitelisted)
                <==> self.farm != farm || self.whitelisted_address != creator,
            r == Err::<u64, StakingError>(StakingError::InvalidWhitelistType)
                <==> self.farm == farm && self.whitelisted_address == creator
                    && self.ty != WhitelistType::AssociatedObject,
    {
        if self.farm != farm || self.whitelisted_address != creator {
            return Err(StakingError::AddressNotWhitelisted);
        }
        match self.ty {
            WhitelistType::AssociatedObject => Ok(self.reward_rate),
            WhitelistType::StakeableMint => Err(StakingError::InvalidWhitelistType),
        }
    }
}

} // verus!
