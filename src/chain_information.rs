//! Data structures holding the finalized state of a chain, other than its storage.
//!
//! They hold what is needed to check the authenticity (not the correctness) of the blocks that
//! descend from the finalized block. A [`ChainInformation`] may come from anywhere, for example
//! from a file that a user edited, so its content is not trusted as it is: only a
//! [`ValidChainInformation`], which [`ValidChainInformation::try_validate`] alone produces, is
//! known to be coherent.
//!
//! Each type has an owning form and a borrowing form (`...Ref`), which is cheap to copy. Both
//! have the same mathematical form (see [`crate::model`]), and the conversions between them
//! keep it.

use vstd::prelude::*;

use crate::header::{
    babe_authorities_equal, bytes32_equal, AuraAuthority, BabeAllowedSlots, BabeAuthority,
    GrandpaAuthority, Header, PositiveU64,
};
use crate::model::{
    coherent, epoch_violation, first_violation, lemma_no_violation_iff_coherent, ChainModel,
    ConsensusModel, EpochModel, FinalityModel,
};

verus! {

/// Error when turning a [`ChainInformation`] into a [`ValidChainInformation`].
#[derive(Debug, Clone, Copy, PartialEq, Eq, Structural)]
pub enum ValidityError {
    /// The finalized block doesn't use the same consensus algorithm as the one in the chain
    /// information.
    ConsensusAlgorithmMismatch,
    /// Found a Babe slot start number for future Babe epoch number 0. A future Babe epoch 0 has
    /// no known starting slot.
    UnexpectedBabeSlotStartNumber,
    /// Missing Babe slot start number for Babe epoch number other than future epoch 0.
    MissingBabeSlotStartNumber,
    /// Finalized block is block number 0, and a Babe epoch information has been provided. This
    /// would imply the existence of a block -1 and below.
    UnexpectedBabeFinalizedEpoch,
    /// Finalized block is not number 0, but no Babe epoch information has been provided.
    NoBabeFinalizedEpoch,
    /// The slot of the finalized block is inferior to the start slot of the epoch it belongs to.
    HeaderBabeSlotInferiorToEpochStartSlot,
    /// Mismatch between the finalized block header digest and the Babe next epoch information.
    BabeEpochInfoMismatch,
    /// Scheduled GrandPa authorities change is before finalized block.
    ScheduledGrandPaChangeBeforeFinalized,
    /// The finalized block is block number 0, but the GrandPa authorities set id is not 0.
    FinalizedZeroButNonZeroAuthoritiesSetId,
    /// Error in a Babe epoch information.
    InvalidBabe(BabeValidityError),
}

/// Error when checking the validity of a Babe epoch.
#[derive(Debug, Clone, Copy, PartialEq, Eq, Structural)]
pub enum BabeValidityError {
    /// Babe constant should be a fraction where the numerator is inferior or equal to the
    /// denominator.
    InvalidConstant,
}

/// Text that describes an error of a Babe epoch.
pub open spec fn babe_validity_error_text(e: BabeValidityError) -> Seq<char> {
    match e {
        BabeValidityError::InvalidConstant => "InvalidConstant"@,
    }
}

/// Text that describes a validity error: the name of its kind.
pub open spec fn validity_error_text(e: ValidityError) -> Seq<char> {
    match e {
        ValidityError::ConsensusAlgorithmMismatch => "ConsensusAlgorithmMismatch"@,
        ValidityError::UnexpectedBabeSlotStartNumber => "UnexpectedBabeSlotStartNumber"@,
        ValidityError::MissingBabeSlotStartNumber => "MissingBabeSlotStartNumber"@,
        ValidityError::UnexpectedBabeFinalizedEpoch => "UnexpectedBabeFinalizedEpoch"@,
        ValidityError::NoBabeFinalizedEpoch => "NoBabeFinalizedEpoch"@,
        ValidityError::HeaderBabeSlotInferiorToEpochStartSlot => "HeaderBabeSlotInferiorToEpochStartSlot"@,
        ValidityError::BabeEpochInfoMismatch => "BabeEpochInfoMismatch"@,
        ValidityError::ScheduledGrandPaChangeBeforeFinalized => "ScheduledGrandPaChangeBeforeFinalized"@,
        ValidityError::FinalizedZeroButNonZeroAuthoritiesSetId => "FinalizedZeroButNonZeroAuthoritiesSetId"@,
        ValidityError::InvalidBabe(BabeValidityError::InvalidConstant) => "Error in a Babe epoch information: InvalidConstant"@,
    }
}

impl BabeValidityError {
    /// Human-readable description of the error.
    pub fn description(&self) -> (r: &'static str)
        ensures
            r@ == babe_validity_error_text(*self),
    {
        match self {
            BabeValidityError::InvalidConstant => "InvalidConstant",
        }
    }
}

impl ValidityError {
    /// Human-readable description of the error.
    pub fn description(&self) -> (r: &'static str)
        ensures
            r@ == validity_error_text(*self),
    {
        match self {
            ValidityError::ConsensusAlgorithmMismatch => "ConsensusAlgorithmMismatch",
            ValidityError::UnexpectedBabeSlotStartNumber => "UnexpectedBabeSlotStartNumber",
            ValidityError::MissingBabeSlotStartNumber => "MissingBabeSlotStartNumber",
            ValidityError::UnexpectedBabeFinalizedEpoch => "UnexpectedBabeFinalizedEpoch",
            ValidityError::NoBabeFinalizedEpoch => "NoBabeFinalizedEpoch",
            ValidityError::HeaderBabeSlotInferiorToEpochStartSlot => "HeaderBabeSlotInferiorToEpochStartSlot",
            ValidityError::BabeEpochInfoMismatch => "BabeEpochInfoMismatch",
            ValidityError::ScheduledGrandPaChangeBeforeFinalized => "ScheduledGrandPaChangeBeforeFinalized",
            ValidityError::FinalizedZeroButNonZeroAuthoritiesSetId => "FinalizedZeroButNonZeroAuthoritiesSetId",
            ValidityError::InvalidBabe(BabeValidityError::InvalidConstant) => "Error in a Babe epoch information: InvalidConstant",
        }
    }
}

/// The result of a check that finds the rule `v`, if any, broken.
pub open spec fn outcome<E>(v: Option<E>) -> Result<(), E> {
    match v {
        Some(e) => Err(e),
        None => Ok(()),
    }
}

/// Information about a Babe epoch.
#[derive(Debug)]
pub struct BabeEpochInformation {
    /// Index of the epoch.
    ///
    /// Epoch number 0 starts at the slot number of block 1. Epoch indices increase one by one.
    pub epoch_index: u64,
    /// Slot at which the epoch starts.
    ///
    /// Must be `None` if and only if the epoch is the one that follows the finalized block's
    /// and its index is 0.
    pub start_slot_number: Option<u64>,
    /// List of authorities allowed to author blocks during this epoch.
    pub authorities: Vec<BabeAuthority>,
    /// Randomness value for this epoch.
    pub randomness: [u8; 32],
    /// Fraction (numerator, denominator) that gives the chance that a slot has a primary block
    /// author. Should be at most one.
    pub c: (u64, u64),
    /// Types of blocks allowed for this epoch.
    pub allowed_slots: BabeAllowedSlots,
}

/// Information about a Babe epoch, borrowing its lists. See [`BabeEpochInformation`].
#[derive(Debug, Clone, Copy)]
pub struct BabeEpochInformationRef<'a> {
    pub epoch_index: u64,
    pub start_slot_number: Option<u64>,
    pub authorities: &'a [BabeAuthority],
    pub randomness: &'a [u8; 32],
    pub c: (u64, u64),
    pub allowed_slots: BabeAllowedSlots,
}

impl View for BabeEpochInformation {
    type V = EpochModel;

    open spec fn view(&self) -> EpochModel {
        EpochModel {
            epoch_index: self.epoch_index,
            start_slot_number: self.start_slot_number,
            authorities: self.authorities@,
            randomness: self.randomness@,
            c: self.c,
            allowed_slots: self.allowed_slots,
        }
    }
}

impl<'a> View for BabeEpochInformationRef<'a> {
    type V = EpochModel;

    open spec fn view(&self) -> EpochModel {
        EpochModel {
            epoch_index: self.epoch_index,
            start_slot_number: self.start_slot_number,
            authorities: self.authorities@,
            randomness: self.randomness@,
            c: self.c,
            allowed_slots: self.allowed_slots,
        }
    }
}

impl BabeEpochInformation {
    /// Checks whether the fields in this struct make sense.
    pub fn validate(&self) -> (r: Result<(), BabeValidityError>)
        ensures
            r == outcome(epoch_violation(self@)),
    {
        self.as_ref().validate()
    }

    /// Borrowing form of this epoch.
    pub fn as_ref(&self) -> (r: BabeEpochInformationRef<'_>)
        ensures
            r@ == self@,
    {
        BabeEpochInformationRef {
            epoch_index: self.epoch_index,
            start_slot_number: self.start_slot_number,
            authorities: self.authorities.as_slice(),
            randomness: &self.randomness,
            c: self.c,
            allowed_slots: self.allowed_slots,
        }
    }
}

impl Clone for BabeEpochInformation {
    fn clone(&self) -> (r: BabeEpochInformation) {
        self.as_ref().into_owned()
    }
}

impl<'a> BabeEpochInformationRef<'a> {
    /// Checks whether the fields in this struct make sense.
    pub fn validate(&self) -> (r: Result<(), BabeValidityError>)
        ensures
            r == outcome(epoch_violation(self@)),
    {
        if self.c.0 > self.c.1 {
            return Err(BabeValidityError::InvalidConstant);
        }
        Ok(())
    }

    /// Owning copy of this epoch.
    pub fn into_owned(&self) -> (r: BabeEpochInformation)
        ensures
            r@ == self@,
    {
        BabeEpochInformation {
            epoch_index: self.epoch_index,
            start_slot_number: self.start_slot_number,
            authorities: vstd::slice::slice_to_vec(self.authorities),
            randomness: *self.randomness,
            c: self.c,
            allowed_slots: self.allowed_slots,
        }
    }
}

/// Extra items that depend on the consensus engine.
#[derive(Debug, Clone)]
pub enum ChainInformationConsensus {
    /// Any node on the chain is allowed to produce blocks.
    ///
    /// > **Note**: This makes it possible for a huge number of blocks to be produced. Users of
    /// >           this variant should limit, by other means, the number of blocks they accept.
    Unknown,
    /// Chain is using the Aura consensus engine.
    Aura {
        /// Authorities that must validate the children of the finalized block.
        finalized_authorities_list: Vec<AuraAuthority>,
        /// Duration, in milliseconds, of an Aura slot.
        slot_duration: PositiveU64,
    },
    /// Chain is using the Babe consensus engine.
    Babe {
        /// Number of slots per epoch. Configured at the genesis block and never touched later.
        slots_per_epoch: PositiveU64,
        /// Epoch that the finalized block belongs to.
        ///
        /// Must be `None` if and only if the finalized block is block #0. If the finalized
        /// block belongs to epoch #0, which starts at block #1, this is epoch #0.
        finalized_block_epoch_information: Option<Box<BabeEpochInformation>>,
        /// Epoch that follows the one the finalized block belongs to. If the finalized block is
        /// block #0, this is epoch #0.
        finalized_next_epoch_transition: Box<BabeEpochInformation>,
    },
}

/// Extra items that depend on the consensus engine, borrowing their lists.
#[derive(Debug, Clone, Copy)]
pub enum ChainInformationConsensusRef<'a> {
    /// See [`ChainInformationConsensus::Unknown`].
    Unknown,
    /// See [`ChainInformationConsensus::Aura`].
    Aura { finalized_authorities_list: &'a [AuraAuthority], slot_duration: PositiveU64 },
    /// See [`ChainInformationConsensus::Babe`].
    Babe {
        slots_per_epoch: PositiveU64,
        finalized_block_epoch_information: Option<BabeEpochInformationRef<'a>>,
        finalized_next_epoch_transition: BabeEpochInformationRef<'a>,
    },
}

/// Extra items that depend on the finality engine.
#[derive(Debug)]
pub enum ChainInformationFinality {
    /// Blocks themselves don't contain any information concerning finality. Finality is
    /// provided by a mechanism that is entirely external to the chain, as for a parachain.
    Outsourced,
    /// Chain uses the Grandpa finality algorithm.
    Grandpa {
        /// Grandpa authorities set ID of the block right after the finalized block. Is 0 when
        /// the finalized block is the genesis block.
        after_finalized_block_authorities_set_id: u64,
        /// Grandpa authorities that need to finalize the block right after the finalized block.
        finalized_triggered_authorities: Vec<GrandpaAuthority>,
        /// Change of the authorities scheduled by a finalized block but not triggered yet: the
        /// height of the block that triggers it, strictly above the finalized block's, and the
        /// new list. The block at that height is still finalized by the current authorities.
        finalized_scheduled_change: Option<(u64, Vec<GrandpaAuthority>)>,
    },
}

/// Extra items that depend on the finality engine, borrowing their lists.
#[derive(Debug, Clone, Copy)]
pub enum ChainInformationFinalityRef<'a> {
    /// See [`ChainInformationFinality::Outsourced`].
    Outsourced,
    /// See [`ChainInformationFinality::Grandpa`].
    Grandpa {
        after_finalized_block_authorities_set_id: u64,
        finalized_triggered_authorities: &'a [GrandpaAuthority],
        finalized_scheduled_change: Option<(u64, &'a [GrandpaAuthority])>,
    },
}

/// Information about the latest finalized block and state found in its ancestors.
#[derive(Debug, Clone)]
pub struct ChainInformation {
    /// Header of the highest known finalized block.
    pub finalized_block_header: Box<Header>,
    /// Extra items that depend on the consensus engine.
    pub consensus: ChainInformationConsensus,
    /// Extra items that depend on the finality engine.
    pub finality: ChainInformationFinality,
}

/// Equivalent to a [`ChainInformation`], but borrowing an existing one. Cheap to copy.
#[derive(Debug, Clone, Copy)]
pub struct ChainInformationRef<'a> {
    /// See [`ChainInformation::finalized_block_header`].
    pub finalized_block_header: &'a Header,
    /// Extra items that depend on the consensus engine.
    pub consensus: ChainInformationConsensusRef<'a>,
    /// Extra items that depend on the finality engine.
    pub finality: ChainInformationFinalityRef<'a>,
}

impl View for ChainInformationConsensus {
    type V = ConsensusModel;

    open spec fn view(&self) -> ConsensusModel {
        match self {
            ChainInformationConsensus::Unknown => ConsensusModel::Unknown,
            ChainInformationConsensus::Aura { finalized_authorities_list, slot_duration } => {
                ConsensusModel::Aura {
                    authorities: finalized_authorities_list@,
                    slot_duration: slot_duration@,
                }
            },
            ChainInformationConsensus::Babe {
                slots_per_epoch,
                finalized_block_epoch_information,
                finalized_next_epoch_transition,
            } => ConsensusModel::Babe {
                slots_per_epoch: slots_per_epoch@,
                current_epoch: match finalized_block_epoch_information {
                    Some(e) => Some(e@),
                    None => None,
                },
                next_epoch: finalized_next_epoch_transition@,
            },
        }
    }
}

impl<'a> View for ChainInformationConsensusRef<'a> {
    type V = ConsensusModel;

    open spec fn view(&self) -> ConsensusModel {
        match self {
            ChainInformationConsensusRef::Unknown => ConsensusModel::Unknown,
            ChainInformationConsensusRef::Aura { finalized_authorities_list, slot_duration } => {
                ConsensusModel::Aura {
                    authorities: finalized_authorities_list@,
                    slot_duration: slot_duration@,
                }
            },
            ChainInformationConsensusRef::Babe {
                slots_per_epoch,
                finalized_block_epoch_information,
                finalized_next_epoch_transition,
            } => ConsensusModel::Babe {
                slots_per_epoch: slots_per_epoch@,
                current_epoch: match finalized_block_epoch_information {
                    Some(e) => Some(e@),
                    None => None,
                },
                next_epoch: finalized_next_epoch_transition@,
            },
        }
    }
}

impl View for ChainInformationFinality {
    type V = FinalityModel;

    open spec fn view(&self) -> FinalityModel {
        match self {
            ChainInformationFinality::Outsourced => FinalityModel::Outsourced,
            ChainInformationFinality::Grandpa {
                after_finalized_block_authorities_set_id,
                finalized_triggered_authorities,
                finalized_scheduled_change,
            } => FinalityModel::Grandpa {
                authorities_set_id: *after_finalized_block_authorities_set_id,
                triggered_authorities: finalized_triggered_authorities@,
                scheduled_change: match finalized_scheduled_change {
                    Some(change) => Some((change.0, change.1@)),
                    None => None,
                },
            },
        }
    }
}

impl<'a> View for ChainInformationFinalityRef<'a> {
    type V = FinalityModel;

    open spec fn view(&self) -> FinalityModel {
        match self {
            ChainInformationFinalityRef::Outsourced => FinalityModel::Outsourced,
            ChainInformationFinalityRef::Grandpa {
                after_finalized_block_authorities_set_id,
                finalized_triggered_authorities,
                finalized_scheduled_change,
            } => FinalityModel::Grandpa {
                authorities_set_id: *after_finalized_block_authorities_set_id,
                triggered_authorities: finalized_triggered_authorities@,
                scheduled_change: match finalized_scheduled_change {
                    Some(change) => Some((change.0, change.1@)),
                    None => None,
                },
            },
        }
    }
}

impl View for ChainInformation {
    type V = ChainModel;

    open spec fn view(&self) -> ChainModel {
        ChainModel {
            header: self.finalized_block_header@,
            consensus: self.consensus@,
            finality: self.finality@,
        }
    }
}

impl<'a> View for ChainInformationRef<'a> {
    type V = ChainModel;

    open spec fn view(&self) -> ChainModel {
        ChainModel {
            header: self.finalized_block_header@,
            consensus: self.consensus@,
            finality: self.finality@,
        }
    }
}

impl ChainInformationConsensus {
    /// Borrowing form of these items.
    pub fn as_ref(&self) -> (r: ChainInformationConsensusRef<'_>)
        ensures
            r@ == self@,
    {
        match self {
            ChainInformationConsensus::Unknown => ChainInformationConsensusRef::Unknown,
            ChainInformationConsensus::Aura { finalized_authorities_list, slot_duration } => {
                ChainInformationConsensusRef::Aura {
                    finalized_authorities_list: finalized_authorities_list.as_slice(),
                    slot_duration: *slot_duration,
                }
            },
            ChainInformationConsensus::Babe {
                slots_per_epoch,
                finalized_block_epoch_information,
                finalized_next_epoch_transition,
            } => ChainInformationConsensusRef::Babe {
                slots_per_epoch: *slots_per_epoch,
                finalized_block_epoch_information: match finalized_block_epoch_information {
                    Some(e) => Some((**e).as_ref()),
                    None => None,
                },
                finalized_next_epoch_transition: (**finalized_next_epoch_transition).as_ref(),
            },
        }
    }
}

impl<'a> ChainInformationConsensusRef<'a> {
    /// Owning copy of these items.
    pub fn into_owned(&self) -> (r: ChainInformationConsensus)
        ensures
            r@ == self@,
    {
        match self {
            ChainInformationConsensusRef::Unknown => ChainInformationConsensus::Unknown,
            ChainInformationConsensusRef::Aura { finalized_authorities_list, slot_duration } => {
                ChainInformationConsensus::Aura {
                    finalized_authorities_list: vstd::slice::slice_to_vec(
                        finalized_authorities_list,
                    ),
                    slot_duration: *slot_duration,
                }
            },
            ChainInformationConsensusRef::Babe {
                slots_per_epoch,
                finalized_block_epoch_information,
                finalized_next_epoch_transition,
            } => ChainInformationConsensus::Babe {
                slots_per_epoch: *slots_per_epoch,
                finalized_block_epoch_information: match finalized_block_epoch_information {
                    Some(e) => Some(Box::new(e.into_owned())),
                    None => None,
                },
                finalized_next_epoch_transition: Box::new(
                    finalized_next_epoch_transition.into_owned(),
                ),
            },
        }
    }
}

impl ChainInformationFinality {
    /// Borrowing form of these items.
    pub fn as_ref(&self) -> (r: ChainInformationFinalityRef<'_>)
        ensures
            r@ == self@,
    {
        match self {
            ChainInformationFinality::Outsourced => ChainInformationFinalityRef::Outsourced,
            ChainInformationFinality::Grandpa {
                after_finalized_block_authorities_set_id,
                finalized_triggered_authorities,
                finalized_scheduled_change,
            } => ChainInformationFinalityRef::Grandpa {
                after_finalized_block_authorities_set_id: *after_finalized_block_authorities_set_id,
                finalized_triggered_authorities: finalized_triggered_authorities.as_slice(),
                finalized_scheduled_change: match finalized_scheduled_change {
                    Some(change) => Some((change.0, change.1.as_slice())),
                    None => None,
                },
            },
        }
    }
}

impl Clone for ChainInformationFinality {
    fn clone(&self) -> (r: ChainInformationFinality) {
        self.as_ref().into_owned()
    }
}

impl<'a> ChainInformationFinalityRef<'a> {
    /// Owning copy of these items.
    pub fn into_owned(&self) -> (r: ChainInformationFinality)
        ensures
            r@ == self@,
    {
        match self {
            ChainInformationFinalityRef::Outsourced => ChainInformationFinality::Outsourced,
            ChainInformationFinalityRef::Grandpa {
                after_finalized_block_authorities_set_id,
                finalized_triggered_authorities,
                finalized_scheduled_change,
            } => ChainInformationFinality::Grandpa {
                after_finalized_block_authorities_set_id: *after_finalized_block_authorities_set_id,
                finalized_triggered_authorities: vstd::slice::slice_to_vec(
                    finalized_triggered_authorities,
                ),
                finalized_scheduled_change: match finalized_scheduled_change {
                    Some(change) => Some((change.0, vstd::slice::slice_to_vec(change.1))),
                    None => None,
                },
            },
        }
    }
}

impl ChainInformation {
    /// Borrowing form of this information.
    pub fn as_ref(&self) -> (r: ChainInformationRef<'_>)
        ensures
            r@ == self@,
    {
        ChainInformationRef {
            finalized_block_header: &self.finalized_block_header,
            consensus: self.consensus.as_ref(),
            finality: self.finality.as_ref(),
        }
    }
}

impl<'a> ChainInformationRef<'a> {
    /// Checks whether the information is coherent. On failure, gives the first rule broken,
    /// the consensus rules coming before the finality rules.
    pub fn validate(&self) -> (r: Result<(), ValidityError>)
        ensures
            r == outcome(first_violation(self@)),
    {
        let header = self.finalized_block_header;
        if let ChainInformationConsensusRef::Babe {
            finalized_next_epoch_transition: next,
            finalized_block_epoch_information: current,
            ..
        } = &self.consensus {
            if let Err(err) = next.validate() {
                return Err(ValidityError::InvalidBabe(err));
            }
            if next.start_slot_number.is_some() && next.epoch_index == 0 {
                return Err(ValidityError::UnexpectedBabeSlotStartNumber);
            }
            if next.start_slot_number.is_none() && next.epoch_index != 0 {
                return Err(ValidityError::MissingBabeSlotStartNumber);
            }
            if let Some(current) = current {
                if let Err(err) = current.validate() {
                    return Err(ValidityError::InvalidBabe(err));
                }
                if header.number == 0 {
                    return Err(ValidityError::UnexpectedBabeFinalizedEpoch);
                }
                let start = match current.start_slot_number {
                    Some(start) => start,
                    None => {
                        return Err(ValidityError::MissingBabeSlotStartNumber);
                    },
                };
                match header.digest.babe_pre_runtime {
                    Some(slot) => {
                        if slot < start {
                            return Err(ValidityError::HeaderBabeSlotInferiorToEpochStartSlot);
                        }
                    },
                    None => {
                        return Err(ValidityError::ConsensusAlgorithmMismatch);
                    },
                }
                if !header.digest.babe_seal || header.digest.has_any_aura() {
                    return Err(ValidityError::ConsensusAlgorithmMismatch);
                }
                if let Some(change) = &header.digest.babe_epoch_change {
                    if !babe_authorities_equal(change.authorities.as_slice(), next.authorities)
                        || !bytes32_equal(&change.randomness, next.randomness) {
                        return Err(ValidityError::BabeEpochInfoMismatch);
                    }
                }
            } else if header.number != 0 {
                return Err(ValidityError::NoBabeFinalizedEpoch);
            }
        }
        if let ChainInformationConsensusRef::Aura { .. } = &self.consensus {
            let non_genesis = header.number != 0;
            if header.digest.aura_pre_runtime.is_some() != non_genesis || header.digest.aura_seal
                != non_genesis || header.digest.has_any_babe() {
                return Err(ValidityError::ConsensusAlgorithmMismatch);
            }
        }
        if let ChainInformationFinalityRef::Grandpa {
            after_finalized_block_authorities_set_id,
            finalized_scheduled_change,
            ..
        } = &self.finality {
            if let Some(change) = finalized_scheduled_change {
                if change.0 <= header.number {
                    return Err(ValidityError::ScheduledGrandPaChangeBeforeFinalized);
                }
            }
            if header.number == 0 && *after_finalized_block_authorities_set_id != 0 {
                return Err(ValidityError::FinalizedZeroButNonZeroAuthoritiesSetId);
            }
        }
        Ok(())
    }

    /// Owning copy of this information.
    pub fn into_owned(&self) -> (r: ChainInformation)
        ensures
            r@ == self@,
    {
        ChainInformation {
            finalized_block_header: Box::new(self.finalized_block_header.duplicate()),
            consensus: self.consensus.into_owned(),
            finality: self.finality.into_owned(),
        }
    }
}

/// Information about the latest finalized block and state found in its ancestors.
///
/// Similar to [`ChainInformation`], but guaranteed to be coherent: the only way to obtain one
/// is [`ValidChainInformation::try_validate`], or a [`ValidChainInformationRef`], which has
/// the same guarantee.
#[derive(Debug)]
pub struct ValidChainInformation {
    inner: ChainInformation,
}

/// Similar to [`ChainInformationRef`], but guaranteed to be coherent.
#[derive(Debug, Clone, Copy)]
pub struct ValidChainInformationRef<'a> {
    inner: ChainInformationRef<'a>,
}

impl View for ValidChainInformation {
    type V = ChainModel;

    closed spec fn view(&self) -> ChainModel {
        self.inner@
    }
}

impl<'a> View for ValidChainInformationRef<'a> {
    type V = ChainModel;

    closed spec fn view(&self) -> ChainModel {
        self.inner@
    }
}

impl ValidChainInformation {
    #[verifier::type_invariant]
    spec fn inv(self) -> bool {
        coherent(self.inner@)
    }

    /// Checks that `info` is coherent, and wraps it if it is. On failure, gives the first
    /// rule broken, as [`ChainInformationRef::validate`] does.
    pub fn try_validate(info: ChainInformation) -> (r: Result<ValidChainInformation, ValidityError>)
        ensures
            match r {
                Ok(v) => v@ == info@ && first_violation(info@) is None,
                Err(e) => first_violation(info@) == Some(e),
            },
    {
        let checked = info.as_ref().validate();
        match checked {
            Ok(()) => {
                proof {
                    lemma_no_violation_iff_coherent(info@);
                }
                Ok(ValidChainInformation { inner: info })
            },
            Err(e) => Err(e),
        }
    }

    /// Gives access to the information.
    pub fn as_ref(&self) -> (r: ChainInformationRef<'_>)
        ensures
            r@ == self@,
            coherent(r@),
    {
        proof {
            use_type_invariant(self);
        }
        self.inner.as_ref()
    }

    /// Borrowing form of this information, with the same guarantee.
    pub fn as_valid_ref(&self) -> (r: ValidChainInformationRef<'_>)
        ensures
            r@ == self@,
            coherent(r@),
    {
        proof {
            use_type_invariant(self);
        }
        ValidChainInformationRef { inner: self.inner.as_ref() }
    }

    /// Owning copy of a coherent information, which needs no new check.
    pub fn from_valid_ref(info: ValidChainInformationRef<'_>) -> (r: ValidChainInformation)
        ensures
            r@ == info@,
            coherent(r@),
    {
        proof {
            use_type_invariant(&info);
        }
        ValidChainInformation { inner: info.inner.into_owned() }
    }

    /// Gives back the information, coherent.
    pub fn into_inner(self) -> (r: ChainInformation)
        ensures
            r@ == self@,
            coherent(r@),
    {
        proof {
            use_type_invariant(&self);
        }
        self.inner
    }
}

impl Clone for ValidChainInformation {
    fn clone(&self) -> (r: ValidChainInformation) {
        ValidChainInformation::from_valid_ref(self.as_valid_ref())
    }
}

impl<'a> ValidChainInformationRef<'a> {
    #[verifier::type_invariant]
    spec fn inv(self) -> bool {
        coherent(self.inner@)
    }

    /// Checks that `info` is coherent, and wraps it if it is. On failure, gives the first
    /// rule broken, as [`ChainInformationRef::validate`] does.
    pub fn try_validate(info: ChainInformationRef<'a>) -> (r: Result<
        ValidChainInformationRef<'a>,
        ValidityError,
    >)
        ensures
            match r {
                Ok(v) => v@ == info@ && first_violation(info@) is None,
                Err(e) => first_violation(info@) == Some(e),
            },
    {
        match info.validate() {
            Ok(()) => {
                proof {
                    lemma_no_violation_iff_coherent(info@);
                }
                Ok(ValidChainInformationRef { inner: info })
            },
            Err(e) => Err(e),
        }
    }

    /// Gives access to the information.
    pub fn as_ref(&self) -> (r: ChainInformationRef<'a>)
        ensures
            r@ == self@,
            coherent(r@),
    {
        proof {
            use_type_invariant(self);
        }
        self.inner
    }
}

/// Validation depends on nothing but the content of the information: two informations with the
/// same content, owning or borrowing, get the same result.
pub proof fn lemma_validate_deterministic(a: ChainInformationRef, b: ChainInformationRef)
    requires
        a@ == b@,
    ensures
        outcome(first_violation(a@)) == outcome(first_violation(b@)),
{
}

/// Borrowing an information and taking an owning copy of what was borrowed gives back the
/// same content: `as_ref` ensures `v@ == x@`, `into_owned` ensures `y@ == v@`.
pub proof fn lemma_round_trip(x: &ChainInformation, v: ChainInformationRef, y: &ChainInformation)
    requires
        v@ == x@,
        y@ == v@,
    ensures
        y@ == x@,
        outcome(first_violation(y@)) == outcome(first_violation(x@)),
{
}

} // verus!
