use chain_state::chain_information::{
    BabeEpochInformation, BabeValidityError, ChainInformation, ChainInformationConsensus,
    ChainInformationFinality, ValidChainInformation, ValidChainInformationRef, ValidityError,
};
use chain_state::header::{
    BabeAllowedSlots, BabeAuthority, BabeEpochChange, Digest, GrandpaAuthority, Header,
    PositiveU64,
};

fn empty_digest() -> Digest {
    Digest {
        aura_pre_runtime: None,
        aura_seal: false,
        aura_consensus: false,
        babe_pre_runtime: None,
        babe_seal: false,
        babe_epoch_change: None,
        babe_config_change: false,
    }
}

fn babe_digest(slot: u64) -> Digest {
    Digest { babe_pre_runtime: Some(slot), babe_seal: true, ..empty_digest() }
}

fn aura_digest(slot: u64) -> Digest {
    Digest { aura_pre_runtime: Some(slot), aura_seal: true, ..empty_digest() }
}

fn header(number: u64, digest: Digest) -> Box<Header> {
    Box::new(Header { number, digest })
}

fn authorities() -> Vec<BabeAuthority> {
    vec![
        BabeAuthority { public_key: [1; 32], weight: 1 },
        BabeAuthority { public_key: [2; 32], weight: 1 },
    ]
}

fn epoch(epoch_index: u64, start_slot_number: Option<u64>) -> BabeEpochInformation {
    BabeEpochInformation {
        epoch_index,
        start_slot_number,
        authorities: authorities(),
        randomness: [7; 32],
        c: (1, 4),
        allowed_slots: BabeAllowedSlots::PrimaryAndSecondaryPlainSlots,
    }
}

fn positive(v: u64) -> PositiveU64 {
    PositiveU64::new(v).unwrap()
}

fn babe(
    current: Option<BabeEpochInformation>,
    next: BabeEpochInformation,
) -> ChainInformationConsensus {
    ChainInformationConsensus::Babe {
        slots_per_epoch: positive(600),
        finalized_block_epoch_information: current.map(Box::new),
        finalized_next_epoch_transition: Box::new(next),
    }
}

fn genesis_babe() -> ChainInformation {
    ChainInformation {
        finalized_block_header: header(0, empty_digest()),
        consensus: babe(None, epoch(0, None)),
        finality: ChainInformationFinality::Outsourced,
    }
}

fn non_genesis_babe() -> ChainInformation {
    ChainInformation {
        finalized_block_header: header(5, babe_digest(105)),
        consensus: babe(Some(epoch(0, Some(100))), epoch(1, Some(700))),
        finality: ChainInformationFinality::Outsourced,
    }
}

fn grandpa(set_id: u64, scheduled: Option<u64>) -> ChainInformationFinality {
    let voters = vec![GrandpaAuthority { public_key: [3; 32], weight: positive(1) }];
    ChainInformationFinality::Grandpa {
        after_finalized_block_authorities_set_id: set_id,
        finalized_triggered_authorities: voters.clone(),
        finalized_scheduled_change: scheduled.map(|n| (n, voters.clone())),
    }
}

fn with_unknown_consensus(number: u64, finality: ChainInformationFinality) -> ChainInformation {
    ChainInformation {
        finalized_block_header: header(number, empty_digest()),
        consensus: ChainInformationConsensus::Unknown,
        finality,
    }
}

fn check(info: &ChainInformation) -> Result<(), ValidityError> {
    info.as_ref().validate()
}

#[test]
fn genesis_babe_validates() {
    assert_eq!(check(&genesis_babe()), Ok(()));
    assert!(ValidChainInformation::try_validate(genesis_babe()).is_ok());
}

#[test]
fn genesis_babe_with_current_epoch_is_rejected() {
    let mut info = genesis_babe();
    info.consensus = babe(Some(epoch(0, Some(100))), epoch(0, None));
    assert_eq!(check(&info), Err(ValidityError::UnexpectedBabeFinalizedEpoch));
}

#[test]
fn non_genesis_babe_without_current_epoch_is_rejected() {
    let mut info = genesis_babe();
    info.finalized_block_header = header(5, babe_digest(105));
    assert_eq!(check(&info), Err(ValidityError::NoBabeFinalizedEpoch));
}

#[test]
fn babe_fraction_above_one_is_rejected() {
    let mut next = epoch(0, None);
    next.c = (3, 2);
    assert_eq!(next.validate(), Err(BabeValidityError::InvalidConstant));
    assert_eq!(next.as_ref().validate(), Err(BabeValidityError::InvalidConstant));
    let mut info = genesis_babe();
    info.consensus = babe(None, next);
    assert_eq!(
        check(&info),
        Err(ValidityError::InvalidBabe(BabeValidityError::InvalidConstant))
    );

    let mut current = epoch(0, Some(100));
    current.c = (3, 2);
    let mut info = non_genesis_babe();
    info.consensus = babe(Some(current), epoch(1, Some(700)));
    assert_eq!(
        check(&info),
        Err(ValidityError::InvalidBabe(BabeValidityError::InvalidConstant))
    );
}

#[test]
fn babe_fraction_equal_to_one_is_accepted() {
    let mut next = epoch(0, None);
    next.c = (2, 2);
    assert_eq!(next.validate(), Ok(()));
}

#[test]
fn grandpa_genesis_with_nonzero_set_id_is_rejected() {
    let info = with_unknown_consensus(0, grandpa(1, None));
    assert_eq!(check(&info), Err(ValidityError::FinalizedZeroButNonZeroAuthoritiesSetId));
    let info = with_unknown_consensus(0, grandpa(0, None));
    assert_eq!(check(&info), Ok(()));
    let info = with_unknown_consensus(3, grandpa(1, None));
    assert_eq!(check(&info), Ok(()));
}

#[test]
fn grandpa_scheduled_change_must_come_after_finalized_block() {
    let info = with_unknown_consensus(10, grandpa(2, Some(10)));
    assert_eq!(check(&info), Err(ValidityError::ScheduledGrandPaChangeBeforeFinalized));
    let info = with_unknown_consensus(10, grandpa(2, Some(9)));
    assert_eq!(check(&info), Err(ValidityError::ScheduledGrandPaChangeBeforeFinalized));
    let info = with_unknown_consensus(10, grandpa(2, Some(11)));
    assert_eq!(check(&info), Ok(()));
}

#[test]
fn scheduled_change_is_checked_before_set_id() {
    let info = with_unknown_consensus(0, grandpa(1, Some(0)));
    assert_eq!(check(&info), Err(ValidityError::ScheduledGrandPaChangeBeforeFinalized));
}

#[test]
fn validation_gives_the_same_result_each_time() {
    let good = non_genesis_babe();
    let mut bad = genesis_babe();
    bad.finalized_block_header = header(5, babe_digest(105));
    for info in [good, bad] {
        let first = check(&info);
        assert_eq!(check(&info), first);
        assert_eq!(check(&info.as_ref().into_owned()), first);
        assert_eq!(check(&info.clone()), first);
    }
}

#[test]
fn owned_to_view_and_back_keeps_everything() {
    let mut info = non_genesis_babe();
    info.finality = grandpa(4, Some(20));
    let mut digest = babe_digest(105);
    digest.babe_epoch_change =
        Some(BabeEpochChange { authorities: authorities(), randomness: [7; 32] });
    digest.babe_config_change = true;
    info.finalized_block_header = header(5, digest);
    let back = info.as_ref().into_owned();
    assert_eq!(format!("{:?}", back), format!("{:?}", info));

    let aura = ChainInformation {
        finalized_block_header: header(3, aura_digest(8)),
        consensus: ChainInformationConsensus::Aura {
            finalized_authorities_list: vec![],
            slot_duration: positive(6000),
        },
        finality: ChainInformationFinality::Outsourced,
    };
    let back = aura.as_ref().into_owned();
    assert_eq!(format!("{:?}", back), format!("{:?}", aura));

    let e = epoch(3, Some(1800));
    assert_eq!(format!("{:?}", e.as_ref().into_owned()), format!("{:?}", e));
}

#[test]
fn valid_information_comes_only_from_coherent_input() {
    let mut bad = genesis_babe();
    bad.finalized_block_header = header(5, babe_digest(105));
    assert_eq!(
        ValidChainInformation::try_validate(bad).err(),
        Some(ValidityError::NoBabeFinalizedEpoch)
    );

    let good = non_genesis_babe();
    let expected = format!("{:?}", good);
    let valid = ValidChainInformation::try_validate(good).unwrap();
    assert_eq!(format!("{:?}", valid.as_ref()), format!("{:?}", non_genesis_babe().as_ref()));
    let view = valid.as_valid_ref();
    assert_eq!(check(&view.as_ref().into_owned()), Ok(()));
    let copy = ValidChainInformation::from_valid_ref(view);
    assert_eq!(format!("{:?}", copy.clone().into_inner()), expected);
    assert_eq!(format!("{:?}", valid.into_inner()), expected);
}

#[test]
fn valid_reference_comes_only_from_coherent_input() {
    let good = non_genesis_babe();
    let valid = ValidChainInformationRef::try_validate(good.as_ref()).unwrap();
    assert_eq!(format!("{:?}", valid.as_ref()), format!("{:?}", good.as_ref()));
    assert_eq!(
        format!("{:?}", ValidChainInformation::from_valid_ref(valid).into_inner()),
        format!("{:?}", good)
    );

    let bad = with_unknown_consensus(0, grandpa(1, None));
    assert_eq!(
        ValidChainInformationRef::try_validate(bad.as_ref()).err(),
        Some(ValidityError::FinalizedZeroButNonZeroAuthoritiesSetId)
    );
}

#[test]
fn non_genesis_babe_validates() {
    assert_eq!(check(&non_genesis_babe()), Ok(()));
    let mut info = non_genesis_babe();
    info.finalized_block_header = header(5, babe_digest(100));
    assert_eq!(check(&info), Ok(()));
}

#[test]
fn next_epoch_zero_with_start_slot_is_rejected() {
    let mut info = genesis_babe();
    info.consensus = babe(None, epoch(0, Some(1)));
    assert_eq!(check(&info), Err(ValidityError::UnexpectedBabeSlotStartNumber));
}

#[test]
fn missing_start_slots_are_rejected() {
    let mut info = genesis_babe();
    info.consensus = babe(None, epoch(1, None));
    assert_eq!(check(&info), Err(ValidityError::MissingBabeSlotStartNumber));

    let mut info = non_genesis_babe();
    info.consensus = babe(Some(epoch(0, None)), epoch(1, Some(700)));
    assert_eq!(check(&info), Err(ValidityError::MissingBabeSlotStartNumber));
}

#[test]
fn header_slot_before_epoch_start_is_rejected() {
    let mut info = non_genesis_babe();
    info.finalized_block_header = header(5, babe_digest(99));
    assert_eq!(check(&info), Err(ValidityError::HeaderBabeSlotInferiorToEpochStartSlot));
}

#[test]
fn babe_digest_must_match_engine() {
    let mut info = non_genesis_babe();
    info.finalized_block_header = header(5, empty_digest());
    assert_eq!(check(&info), Err(ValidityError::ConsensusAlgorithmMismatch));

    let mut info = non_genesis_babe();
    info.finalized_block_header = header(5, Digest { babe_seal: false, ..babe_digest(105) });
    assert_eq!(check(&info), Err(ValidityError::ConsensusAlgorithmMismatch));

    let mut info = non_genesis_babe();
    info.finalized_block_header = header(5, Digest { aura_consensus: true, ..babe_digest(105) });
    assert_eq!(check(&info), Err(ValidityError::ConsensusAlgorithmMismatch));

    let mut info = non_genesis_babe();
    info.finalized_block_header = header(5, aura_digest(105));
    assert_eq!(check(&info), Err(ValidityError::ConsensusAlgorithmMismatch));
}

#[test]
fn header_epoch_change_must_match_next_epoch() {
    let with_change = |authorities: Vec<BabeAuthority>, randomness: [u8; 32]| {
        let mut info = non_genesis_babe();
        let mut digest = babe_digest(105);
        digest.babe_epoch_change = Some(BabeEpochChange { authorities, randomness });
        info.finalized_block_header = header(5, digest);
        check(&info)
    };
    assert_eq!(with_change(authorities(), [7; 32]), Ok(()));
    assert_eq!(with_change(authorities(), [8; 32]), Err(ValidityError::BabeEpochInfoMismatch));
    let mut other = authorities();
    other[1].weight = 2;
    assert_eq!(with_change(other, [7; 32]), Err(ValidityError::BabeEpochInfoMismatch));
    let mut other = authorities();
    other[0].public_key[31] = 9;
    assert_eq!(with_change(other, [7; 32]), Err(ValidityError::BabeEpochInfoMismatch));
    assert_eq!(
        with_change(authorities()[..1].to_vec(), [7; 32]),
        Err(ValidityError::BabeEpochInfoMismatch)
    );
}

#[test]
fn aura_digest_must_match_height() {
    let aura = |number: u64, digest: Digest| ChainInformation {
        finalized_block_header: header(number, digest),
        consensus: ChainInformationConsensus::Aura {
            finalized_authorities_list: vec![],
            slot_duration: positive(6000),
        },
        finality: ChainInformationFinality::Outsourced,
    };
    assert_eq!(check(&aura(0, empty_digest())), Ok(()));
    assert_eq!(check(&aura(4, aura_digest(9))), Ok(()));
    assert_eq!(check(&aura(0, aura_digest(9))), Err(ValidityError::ConsensusAlgorithmMismatch));
    assert_eq!(check(&aura(4, empty_digest())), Err(ValidityError::ConsensusAlgorithmMismatch));
    assert_eq!(
        check(&aura(4, Digest { aura_seal: false, ..aura_digest(9) })),
        Err(ValidityError::ConsensusAlgorithmMismatch)
    );
    assert_eq!(
        check(&aura(4, Digest { babe_config_change: true, ..aura_digest(9) })),
        Err(ValidityError::ConsensusAlgorithmMismatch)
    );
}

#[test]
fn consensus_rules_come_before_finality_rules() {
    let mut info = genesis_babe();
    info.consensus = babe(None, epoch(1, None));
    info.finality = grandpa(1, None);
    assert_eq!(check(&info), Err(ValidityError::MissingBabeSlotStartNumber));
}

#[test]
fn unknown_and_outsourced_impose_nothing() {
    let mut info = with_unknown_consensus(9, ChainInformationFinality::Outsourced);
    info.finalized_block_header = header(9, babe_digest(3));
    assert_eq!(check(&info), Ok(()));
}

#[test]
fn errors_have_descriptions() {
    assert_eq!(ValidityError::NoBabeFinalizedEpoch.description(), "NoBabeFinalizedEpoch");
    assert_eq!(
        ValidityError::InvalidBabe(BabeValidityError::InvalidConstant).description(),
        "Error in a Babe epoch information: InvalidConstant"
    );
    assert_eq!(BabeValidityError::InvalidConstant.description(), "InvalidConstant");
}

#[test]
fn positive_rejects_zero() {
    assert!(PositiveU64::new(0).is_none());
    assert_eq!(PositiveU64::new(6).unwrap().get(), 6);
}
