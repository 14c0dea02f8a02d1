//! The parts of a block header that the chain state reads: its number and what its digest
//! holds, as answers to the digest queries of the consensus engines.

use vstd::prelude::*;

verus! {

/// A `u64` that is never zero.
#[derive(Debug, Clone, Copy)]
pub struct PositiveU64 {
    value: u64,
}

impl PositiveU64 {
    #[verifier::type_invariant]
    spec fn inv(self) -> bool {
        self.value > 0
    }


    /// Holds `value` when it is not zero.
    pub fn new(value: u64) -> (r: Option<PositiveU64>)
        ensures
            r is Some <==> value != 0,
            r matches Some(p) ==> p@ == value,
    {
        if value == 0 {
            None
        } else {
            Some(PositiveU64 { value })
        }
    }

    /// The value held.
    pub fn get(&self) -> (r: u64)
        ensures
            r == self@,
            r > 0,
    {
        proof {
            use_type_invariant(self);
        }
        self.value
    }
}

impl View for PositiveU64 {
    type V = u64;

    closed spec fn view(&self) -> u64 {
        self.value
    }
}

/// An Aura authority: its public key.
#[derive(Debug, Clone, Copy)]
pub struct AuraAuthority {
    pub public_key: [u8; 32],
}

/// A Babe authority: its public key and its weight.
#[derive(Debug, Clone, Copy)]
pub struct BabeAuthority {
    pub public_key: [u8; 32],
    pub weight: u64,
}

/// A Grandpa authority: its public key and its voting weight.
#[derive(Debug, Clone, Copy)]
pub struct GrandpaAuthority {
    pub public_key: [u8; 32],
    pub weight: PositiveU64,
}

/// Types of blocks allowed during a Babe epoch.
#[derive(Debug, Clone, Copy, PartialEq, Eq, Structural)]
pub enum BabeAllowedSlots {
    /// Only primary slots are allowed.
    PrimarySlots,
    /// Primary and secondary plain slots are allowed.
    PrimaryAndSecondaryPlainSlots,
    /// Primary and secondary VRF slots are allowed.
    PrimaryAndSecondaryVrfSlots,
}

/// A Babe epoch-change announcement found in a header's digest.
#[derive(Debug, Clone)]
pub struct BabeEpochChange {
    /// Authorities of the announced epoch.
    pub authorities: Vec<BabeAuthority>,
    /// Randomness of the announced epoch.
    pub randomness: [u8; 32],
}

/// What a header's digest holds, as seen by the consensus engines.
#[derive(Debug, Clone)]
pub struct Digest {
    /// Slot number of the Aura pre-runtime item, if there is one.
    pub aura_pre_runtime: Option<u64>,
    /// Whether there is an Aura seal.
    pub aura_seal: bool,
    /// Whether there is an Aura consensus item (such as an authorities change).
    pub aura_consensus: bool,
    /// Slot number of the Babe pre-runtime item, if there is one.
    pub babe_pre_runtime: Option<u64>,
    /// Whether there is a Babe seal.
    pub babe_seal: bool,
    /// The Babe epoch-change announcement, if there is one.
    pub babe_epoch_change: Option<BabeEpochChange>,
    /// Whether there is a Babe configuration-change announcement.
    pub babe_config_change: bool,
}

/// A block header, reduced to what the chain state reads of it.
#[derive(Debug, Clone)]
pub struct Header {
    /// Height of the block.
    pub number: u64,
    /// Its digest.
    pub digest: Digest,
}

/// Mathematical form of a Babe epoch-change announcement: authorities and randomness.
pub struct EpochChangeModel {
    pub authorities: Seq<BabeAuthority>,
    pub randomness: Seq<u8>,
}

/// Mathematical form of a digest.
pub struct DigestModel {
    pub aura_pre_runtime: Option<u64>,
    pub aura_seal: bool,
    pub aura_consensus: bool,
    pub babe_pre_runtime: Option<u64>,
    pub babe_seal: bool,
    pub babe_epoch_change: Option<EpochChangeModel>,
    pub babe_config_change: bool,
}

/// Mathematical form of a header.
pub struct HeaderModel {
    pub number: u64,
    pub digest: DigestModel,
}

impl DigestModel {
    /// The digest holds some Aura item.
    pub open spec fn has_any_aura(self) -> bool {
        self.aura_pre_runtime is Some || self.aura_seal || self.aura_consensus
    }

    /// The digest holds some Babe item.
    pub open spec fn has_any_babe(self) -> bool {
        self.babe_pre_runtime is Some || self.babe_seal || self.babe_epoch_change is Some
            || self.babe_config_change
    }
}

impl View for BabeEpochChange {
    type V = EpochChangeModel;

    open spec fn view(&self) -> EpochChangeModel {
        EpochChangeModel { authorities: self.authorities@, randomness: self.randomness@ }
    }
}

impl View for Digest {
    type V = DigestModel;

    open spec fn view(&self) -> DigestModel {
        DigestModel {
            aura_pre_runtime: self.aura_pre_runtime,
            aura_seal: self.aura_seal,
            aura_consensus: self.aura_consensus,
            babe_pre_runtime: self.babe_pre_runtime,
            babe_seal: self.babe_seal,
            babe_epoch_change: match self.babe_epoch_change {
                Some(c) => Some(c@),
                None => None,
            },
            babe_config_change: self.babe_config_change,
        }
    }
}

impl Digest {
    /// Whether the digest holds any Aura item.
    pub fn has_any_aura(&self) -> (r: bool)
        ensures
            r == self@.has_any_aura(),
    {
        self.aura_pre_runtime.is_some() || self.aura_seal || self.aura_consensus
    }

    /// Whether the digest holds any Babe item.
    pub fn has_any_babe(&self) -> (r: bool)
        ensures
            r == self@.has_any_babe(),
    {
        self.babe_pre_runtime.is_some() || self.babe_seal || self.babe_epoch_change.is_some()
            || self.babe_config_change
    }
}

impl View for Header {
    type V = HeaderModel;

    open spec fn view(&self) -> HeaderModel {
        HeaderModel { number: self.number, digest: self.digest@ }
    }
}

impl BabeEpochChange {
    /// A copy of this announcement.
    pub fn duplicate(&self) -> (r: BabeEpochChange)
        ensures
            r@ == self@,
    {
        BabeEpochChange {
            authorities: vstd::slice::slice_to_vec(self.authorities.as_slice()),
            randomness: self.randomness,
        }
    }
}

impl Header {
    /// A copy of this header.
    pub fn duplicate(&self) -> (r: Header)
        ensures
            r@ == self@,
    {
        let babe_epoch_change = match &self.digest.babe_epoch_change {
            Some(change) => Some(change.duplicate()),
            None => None,
        };
        Header {
            number: self.number,
            digest: Digest {
                aura_pre_runtime: self.digest.aura_pre_runtime,
                aura_seal: self.digest.aura_seal,
                aura_consensus: self.digest.aura_consensus,
                babe_pre_runtime: self.digest.babe_pre_runtime,
                babe_seal: self.digest.babe_seal,
                babe_epoch_change,
                babe_config_change: self.digest.babe_config_change,
            },
        }
    }
}

/// Whether two 32-byte values are equal.
pub fn bytes32_equal(a: &[u8; 32], b: &[u8; 32]) -> (r: bool)
    ensures
        r == (a@ == b@),
{
    let mut i: usize = 0;
    while i < 32
        invariant
            0 <= i <= 32,
            a@.len() == 32,
            b@.len() == 32,
            forall|j: int| 0 <= j < i ==> a@[j] == b@[j],
        decreases 32 - i,
    {
        if a[i] != b[i] {
            assert(a@[i as int] != b@[i as int]);
            return false;
        }
        i = i + 1;
    }
    assert(a@ =~= b@);
    true
}

/// Whether two lists of Babe authorities are equal, item by item.
pub fn babe_authorities_equal(a: &[BabeAuthority], b: &[BabeAuthority]) -> (r: bool)
    ensures
        r == (a@ == b@),
{
    if a.len() != b.len() {
        return false;
    }
    let mut i: usize = 0;
    while i < a.len()
        invariant
            0 <= i <= a@.len(),
            a@.len() == b@.len(),
            forall|j: int| 0 <= j < i ==> a@[j] == b@[j],
        decreases a@.len() - i,
    {
        let same_key = bytes32_equal(&a[i].public_key, &b[i].public_key);
        if !same_key || a[i].weight != b[i].weight {
            assert(a@[i as int] != b@[i as int]);
            return false;
        }
        proof {
            assert(a@[i as int].public_key =~= b@[i as int].public_key);
        }
        i = i + 1;
    }
    assert(a@ =~= b@);
    true
}

} // verus!
