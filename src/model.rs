//! Mathematical form of the chain state, shared by its owning and its borrowing
//! representations, and the coherence rules stated over it.

use vstd::prelude::*;

use crate::chain_information::{BabeValidityError, ValidityError};
use crate::header::{AuraAuthority, BabeAllowedSlots, BabeAuthority, GrandpaAuthority, HeaderModel};

verus! {

/// A Babe epoch.
pub struct EpochModel {
    pub epoch_index: u64,
    pub start_slot_number: Option<u64>,
    pub authorities: Seq<BabeAuthority>,
    pub randomness: Seq<u8>,
    pub c: (u64, u64),
    pub allowed_slots: BabeAllowedSlots,
}

/// The consensus engine and what it keeps.
pub enum ConsensusModel {
    Unknown,
    Aura { authorities: Seq<AuraAuthority>, slot_duration: u64 },
    Babe { slots_per_epoch: u64, current_epoch: Option<EpochModel>, next_epoch: EpochModel },
}

/// The finality engine and what it keeps.
pub enum FinalityModel {
    Outsourced,
    Grandpa {
        authorities_set_id: u64,
        triggered_authorities: Seq<GrandpaAuthority>,
        scheduled_change: Option<(u64, Seq<GrandpaAuthority>)>,
    },
}

/// A chain state: finalized header, consensus and finality.
pub struct ChainModel {
    pub header: HeaderModel,
    pub consensus: ConsensusModel,
    pub finality: FinalityModel,
}

/// The fraction `c` of an epoch is at most one.
pub open spec fn constant_in_range(e: EpochModel) -> bool {
    e.c.0 <= e.c.1
}

/// What is wrong with an epoch taken alone, if anything.
pub open spec fn epoch_violation(e: EpochModel) -> Option<BabeValidityError> {
    if constant_in_range(e) {
        None
    } else {
        Some(BabeValidityError::InvalidConstant)
    }
}

/// First rule broken by the epoch that the finalized block belongs to, `next` being the epoch
/// that follows it.
pub open spec fn current_epoch_violation(
    h: HeaderModel,
    current: EpochModel,
    next: EpochModel,
) -> Option<ValidityError> {
    if !constant_in_range(current) {
        Some(ValidityError::InvalidBabe(BabeValidityError::InvalidConstant))
    } else if h.number == 0 {
        Some(ValidityError::UnexpectedBabeFinalizedEpoch)
    } else {
        match current.start_slot_number {
            None => Some(ValidityError::MissingBabeSlotStartNumber),
            Some(start) => match h.digest.babe_pre_runtime {
                None => Some(ValidityError::ConsensusAlgorithmMismatch),
                Some(slot) => if slot < start {
                    Some(ValidityError::HeaderBabeSlotInferiorToEpochStartSlot)
                } else if !h.digest.babe_seal || h.digest.has_any_aura() {
                    Some(ValidityError::ConsensusAlgorithmMismatch)
                } else {
                    match h.digest.babe_epoch_change {
                        Some(change) => if change.authorities != next.authorities
                            || change.randomness != next.randomness {
                            Some(ValidityError::BabeEpochInfoMismatch)
                        } else {
                            None
                        },
                        None => None,
                    }
                },
            },
        }
    }
}

/// First Babe rule broken, if any.
pub open spec fn babe_violation(
    h: HeaderModel,
    current: Option<EpochModel>,
    next: EpochModel,
) -> Option<ValidityError> {
    if !constant_in_range(next) {
        Some(ValidityError::InvalidBabe(BabeValidityError::InvalidConstant))
    } else if next.start_slot_number is Some && next.epoch_index == 0 {
        Some(ValidityError::UnexpectedBabeSlotStartNumber)
    } else if next.start_slot_number is None && next.epoch_index != 0 {
        Some(ValidityError::MissingBabeSlotStartNumber)
    } else {
        match current {
            Some(e) => current_epoch_violation(h, e, next),
            None => if h.number != 0 {
                Some(ValidityError::NoBabeFinalizedEpoch)
            } else {
                None
            },
        }
    }
}

/// The Aura items of a digest agree with the block's height, and there is no Babe item.
pub open spec fn aura_digest_coherent(h: HeaderModel) -> bool {
    &&& (h.digest.aura_pre_runtime is Some) == (h.number != 0)
    &&& h.digest.aura_seal == (h.number != 0)
    &&& !h.digest.has_any_babe()
}

/// First consensus rule broken, if any.
pub open spec fn consensus_violation(h: HeaderModel, c: ConsensusModel) -> Option<ValidityError> {
    match c {
        ConsensusModel::Unknown => None,
        ConsensusModel::Aura { .. } => if aura_digest_coherent(h) {
            None
        } else {
            Some(ValidityError::ConsensusAlgorithmMismatch)
        },
        ConsensusModel::Babe { current_epoch, next_epoch, .. } => babe_violation(
            h,
            current_epoch,
            next_epoch,
        ),
    }
}

/// First finality rule broken, if any.
pub open spec fn finality_violation(h: HeaderModel, f: FinalityModel) -> Option<ValidityError> {
    match f {
        FinalityModel::Outsourced => None,
        FinalityModel::Grandpa { authorities_set_id, scheduled_change, .. } => {
            if scheduled_change matches Some(change) && change.0 <= h.number {
                Some(ValidityError::ScheduledGrandPaChangeBeforeFinalized)
            } else if h.number == 0 && authorities_set_id != 0 {
                Some(ValidityError::FinalizedZeroButNonZeroAuthoritiesSetId)
            } else {
                None
            }
        },
    }
}

/// The rule that a chain state breaks first, taking the consensus rules before the finality
/// rules; `None` when it breaks none.
pub open spec fn first_violation(m: ChainModel) -> Option<ValidityError> {
    match consensus_violation(m.header, m.consensus) {
        Some(e) => Some(e),
        None => finality_violation(m.header, m.finality),
    }
}

/// The header carries what a non-genesis Babe block carries, in a slot of the epoch `current`,
/// and its announcement of an epoch change, if any, matches `next`.
pub open spec fn babe_header_coherent(h: HeaderModel, current: EpochModel, next: EpochModel) -> bool {
    &&& h.digest.babe_pre_runtime is Some
    &&& current.start_slot_number is Some
    &&& h.digest.babe_pre_runtime->0 >= current.start_slot_number->0
    &&& h.digest.babe_seal
    &&& !h.digest.has_any_aura()
    &&& (h.digest.babe_epoch_change matches Some(change) ==> change.authorities
        == next.authorities && change.randomness == next.randomness)
}

/// The Babe part of a chain state is coherent.
pub open spec fn babe_coherent(h: HeaderModel, current: Option<EpochModel>, next: EpochModel) -> bool {
    &&& constant_in_range(next)
    &&& (next.start_slot_number is Some <==> next.epoch_index != 0)
    &&& (current is Some <==> h.number != 0)
    &&& (current matches Some(e) ==> constant_in_range(e) && babe_header_coherent(h, e, next))
}

/// The Grandpa part of a chain state is coherent.
pub open spec fn grandpa_coherent(
    h: HeaderModel,
    authorities_set_id: u64,
    scheduled_change: Option<(u64, Seq<GrandpaAuthority>)>,
) -> bool {
    &&& (scheduled_change matches Some(change) ==> change.0 > h.number)
    &&& (h.number == 0 ==> authorities_set_id == 0)
}

/// A chain state is coherent: its header agrees with its consensus engine, and its epochs and
/// its finality data agree with each other and with the header.
pub open spec fn coherent(m: ChainModel) -> bool {
    &&& match m.consensus {
        ConsensusModel::Unknown => true,
        ConsensusModel::Aura { .. } => aura_digest_coherent(m.header),
        ConsensusModel::Babe { current_epoch, next_epoch, .. } => babe_coherent(
            m.header,
            current_epoch,
            next_epoch,
        ),
    }
    &&& match m.finality {
        FinalityModel::Outsourced => true,
        FinalityModel::Grandpa { authorities_set_id, scheduled_change, .. } => grandpa_coherent(
            m.header,
            authorities_set_id,
            scheduled_change,
        ),
    }
}

/// A chain state breaks none of the rules exactly when it is coherent.
pub proof fn lemma_no_violation_iff_coherent(m: ChainModel)
    ensures
        first_violation(m) is None <==> coherent(m),
{
}

} // verus!
