use deresearcher::error::DeResearcherError;
use deresearcher::instruction::DeResearcherInstruction;
use deresearcher::state::{
    checked_string_convt_to_64_bytes, unpack_64_bytes, PaperState, PeerReview,
    ResearchMintCollection, ResearchPaper, ResearcherProfile, ResearcherProfileState, Review,
};

fn sample_profile() -> ResearcherProfile {
    ResearcherProfile {
        address: [1; 32],
        researcher_pubkey: [2; 32],
        name: checked_string_convt_to_64_bytes("Ada Lovelace").unwrap(),
        state: ResearcherProfileState::Approved,
        total_papers_published: 3,
        total_citations: 0x0102_0304_0506_0708,
        total_reviews: u64::MAX,
        reputation: 80,
        meta_data_merkle_root: [9; 64],
        bump: 254,
    }
}

fn sample_paper() -> ResearchPaper {
    ResearchPaper {
        address: [3; 32],
        creator_pubkey: [4; 32],
        state: PaperState::InPeerReview,
        access_fee: 100_000,
        version: 2,
        paper_content_hash: [5; 64],
        total_approvals: 7,
        total_citations: 11,
        total_mints: 13,
        meta_data_merkle_root: [6; 64],
        bump: 250,
    }
}

#[test]
fn pack_short_name_pads_with_zeros() {
    let packed = checked_string_convt_to_64_bytes("bob").unwrap();
    assert_eq!(&packed[..3], b"bob");
    assert!(packed[3..].iter().all(|b| *b == 0));
}

#[test]
fn pack_exactly_capacity_is_accepted() {
    let name = "x".repeat(64);
    let packed = checked_string_convt_to_64_bytes(&name).unwrap();
    assert_eq!(&packed[..], name.as_bytes());
}

#[test]
fn pack_over_capacity_is_size_overflow() {
    let name = "y".repeat(65);
    assert_eq!(checked_string_convt_to_64_bytes(&name), Err(DeResearcherError::SizeOverflow));
}

#[test]
fn pack_counts_bytes_not_characters() {
    // 33 two-byte characters: 66 bytes.
    let name = "é".repeat(33);
    assert_eq!(checked_string_convt_to_64_bytes(&name), Err(DeResearcherError::SizeOverflow));
    let fits = "é".repeat(32);
    assert!(checked_string_convt_to_64_bytes(&fits).is_ok());
}

#[test]
fn pack_then_unpack_round_trips() {
    for name in ["", "a", "Grace Hopper", "日本語の名前", &"z".repeat(64)] {
        let packed = checked_string_convt_to_64_bytes(name).unwrap();
        assert_eq!(unpack_64_bytes(&packed).as_deref(), Some(name));
    }
}

#[test]
fn unpack_rejects_invalid_utf8() {
    let mut field = [0u8; 64];
    field[0] = 0xff;
    field[1] = b'a';
    assert_eq!(unpack_64_bytes(&field), None);
}

#[test]
fn average_of_full_scores_is_one_hundred() {
    let r = Review {
        quality_of_research: 100,
        potential_for_real_world_use_case: 100,
        domain_knowledge: 100,
        practicality_of_result_obtained: 100,
    };
    assert_eq!(r.average_score(), 100);
    assert!(r.is_approval());
    assert!(r.is_in_range());
}

#[test]
fn average_truncates_toward_zero() {
    let r = Review {
        quality_of_research: 0,
        potential_for_real_world_use_case: 0,
        domain_knowledge: 0,
        practicality_of_result_obtained: 203,
    };
    assert_eq!(r.average_score(), 50);
    assert!(!r.is_approval());
    assert!(!r.is_in_range());
}

#[test]
fn average_just_above_threshold_approves() {
    let r = Review {
        quality_of_research: 51,
        potential_for_real_world_use_case: 51,
        domain_knowledge: 51,
        practicality_of_result_obtained: 52,
    };
    assert_eq!(r.average_score(), 51);
    assert!(r.is_approval());
    let s = Review {
        quality_of_research: 50,
        potential_for_real_world_use_case: 50,
        domain_knowledge: 50,
        practicality_of_result_obtained: 53,
    };
    assert_eq!(s.average_score(), 50);
    assert!(!s.is_approval());
}

#[test]
fn average_of_largest_scores_does_not_overflow() {
    let r = Review {
        quality_of_research: 255,
        potential_for_real_world_use_case: 255,
        domain_knowledge: 255,
        practicality_of_result_obtained: 255,
    };
    assert_eq!(r.average_score(), 255);
}

#[test]
fn record_sizes() {
    assert_eq!(ResearcherProfile::size(), 219);
    assert_eq!(ResearchPaper::size(), 216);
    assert_eq!(PeerReview::size(), 165);
    assert_eq!(ResearchMintCollection::size(), 97);
}

#[test]
fn profile_layout_matches_borsh() {
    let p = sample_profile();
    let expected = borsh::to_vec(&(
        p.address,
        p.researcher_pubkey,
        p.name,
        1u8,
        p.total_papers_published,
        p.total_citations,
        p.total_reviews,
        p.reputation,
        p.meta_data_merkle_root,
        p.bump,
    ))
    .unwrap();
    assert_eq!(p.serialize(), expected);
    assert_eq!(p.serialize().len(), ResearcherProfile::size());
}

#[test]
fn profile_round_trips() {
    let p = sample_profile();
    let back = ResearcherProfile::try_from_slice(&p.serialize()).unwrap();
    assert_eq!(back.serialize(), p.serialize());
    assert_eq!(back.total_citations, 0x0102_0304_0506_0708);
    assert_eq!(back.state, ResearcherProfileState::Approved);
}

#[test]
fn truncated_profile_is_serialization_error() {
    let bytes = sample_profile().serialize();
    assert_eq!(
        ResearcherProfile::try_from_slice(&bytes[..bytes.len() - 1]).err(),
        Some(DeResearcherError::SerializationError)
    );
    assert_eq!(ResearcherProfile::try_from_slice(&[]).err(), Some(DeResearcherError::SerializationError));
}

#[test]
fn unknown_profile_state_is_serialization_error() {
    let mut bytes = sample_profile().serialize();
    bytes[128] = 3;
    assert_eq!(
        ResearcherProfile::try_from_slice(&bytes).err(),
        Some(DeResearcherError::SerializationError)
    );
}

#[test]
fn paper_layout_matches_borsh() {
    let p = sample_paper();
    let expected = borsh::to_vec(&(
        p.address,
        p.creator_pubkey,
        1u8,
        p.access_fee,
        p.version,
        p.paper_content_hash,
        p.total_approvals,
        p.total_citations,
        p.total_mints,
        p.meta_data_merkle_root,
        p.bump,
    ))
    .unwrap();
    assert_eq!(p.serialize(), expected);
}

#[test]
fn paper_round_trips() {
    let p = sample_paper();
    let back = ResearchPaper::try_from_slice(&p.serialize()).unwrap();
    assert_eq!(back.serialize(), p.serialize());
    assert_eq!(back.access_fee, 100_000);
    assert_eq!(back.state, PaperState::InPeerReview);
}

#[test]
fn unknown_paper_state_is_serialization_error() {
    let mut bytes = sample_paper().serialize();
    bytes[64] = 6;
    assert_eq!(ResearchPaper::try_from_slice(&bytes).err(), Some(DeResearcherError::SerializationError));
}

#[test]
fn peer_review_layout_and_round_trip() {
    let r = PeerReview {
        address: [1; 32],
        reviewer_pubkey: [2; 32],
        paper_pubkey: [3; 32],
        review: Review {
            quality_of_research: 10,
            potential_for_real_world_use_case: 20,
            domain_knowledge: 30,
            practicality_of_result_obtained: 40,
        },
        meta_data_merkle_root: [4; 64],
        bump: 9,
    };
    let expected = borsh::to_vec(&(
        r.address,
        r.reviewer_pubkey,
        r.paper_pubkey,
        (10u8, 20u8, 30u8, 40u8),
        r.meta_data_merkle_root,
        r.bump,
    ))
    .unwrap();
    assert_eq!(r.serialize(), expected);
    let back = PeerReview::try_from_slice(&expected).unwrap();
    assert_eq!(back.review, r.review);
    assert_eq!(back.bump, 9);
}

#[test]
fn mint_collection_layout_and_round_trip() {
    let m = ResearchMintCollection { reader_pubkey: [8; 32], data_merkle_root: [7; 64], bump: 3 };
    let expected = borsh::to_vec(&(m.reader_pubkey, m.data_merkle_root, m.bump)).unwrap();
    assert_eq!(m.serialize(), expected);
    let back = ResearchMintCollection::try_from_slice(&expected).unwrap();
    assert_eq!(back.reader_pubkey, [8; 32]);
    assert!(ResearchMintCollection::try_from_slice(&expected[1..]).is_err());
}

#[test]
fn decode_profile_instruction() {
    let bytes = borsh::to_vec(&(0u8, "Ada".to_string(), "root".to_string(), 254u8)).unwrap();
    match DeResearcherInstruction::try_from_slice(&bytes).unwrap() {
        DeResearcherInstruction::CreateResearcherProfile(d) => {
            assert_eq!(d.name, "Ada");
            assert_eq!(d.meta_data_merkle_root, "root");
            assert_eq!(d.pda_bump, 254);
        }
        _ => panic!("wrong instruction"),
    }
}

#[test]
fn decode_paper_instruction() {
    let bytes =
        borsh::to_vec(&(1u8, 100u32, "hash".to_string(), "root".to_string(), 7u8)).unwrap();
    match DeResearcherInstruction::try_from_slice(&bytes).unwrap() {
        DeResearcherInstruction::CreateResearchePaper(d) => {
            assert_eq!(d.access_fee, 100);
            assert_eq!(d.paper_content_hash, "hash");
            assert_eq!(d.meta_data_merkle_root, "root");
            assert_eq!(d.pda_bump, 7);
        }
        _ => panic!("wrong instruction"),
    }
}

#[test]
fn decode_remaining_instructions() {
    let publish = DeResearcherInstruction::try_from_slice(&[2, 9]).unwrap();
    assert!(matches!(publish, DeResearcherInstruction::PublishPaper(d) if d.pda_bump == 9));
    let review =
        borsh::to_vec(&(3u8, 80u8, 70u8, 60u8, 50u8, "r".to_string(), 5u8)).unwrap();
    match DeResearcherInstruction::try_from_slice(&review).unwrap() {
        DeResearcherInstruction::AddPeerReview(d) => {
            assert_eq!(
                (d.quality_of_research, d.potential_for_real_world_use_case),
                (80, 70)
            );
            assert_eq!((d.domain_knowledge, d.practicality_of_result_obtained), (60, 50));
            assert_eq!(d.meta_data_merkle_root, "r");
            assert_eq!(d.pda_bump, 5);
        }
        _ => panic!("wrong instruction"),
    }
    let mint = borsh::to_vec(&(4u8, "m".to_string(), 4u8)).unwrap();
    assert!(matches!(
        DeResearcherInstruction::try_from_slice(&mint).unwrap(),
        DeResearcherInstruction::MintResearchPaper(d) if d.meta_data_merkle_root == "m" && d.pda_bump == 4
    ));
    assert!(matches!(
        DeResearcherInstruction::try_from_slice(&[5, 80]).unwrap(),
        DeResearcherInstruction::CheckAndAssignReputation(d) if d.reputation == 80
    ));
}

#[test]
fn malformed_instructions_are_invalid() {
    let invalid = Some(DeResearcherError::InvalidInstruction);
    assert_eq!(DeResearcherInstruction::try_from_slice(&[]).err(), invalid);
    assert_eq!(DeResearcherInstruction::try_from_slice(&[6, 0]).err(), invalid);
    assert_eq!(DeResearcherInstruction::try_from_slice(&[2]).err(), invalid);
    assert_eq!(DeResearcherInstruction::try_from_slice(&[2, 1, 0]).err(), invalid);
    let mut trailing = borsh::to_vec(&(4u8, "m".to_string(), 4u8)).unwrap();
    trailing.push(0);
    assert_eq!(DeResearcherInstruction::try_from_slice(&trailing).err(), invalid);
    // A text field whose declared length runs past the end.
    assert_eq!(DeResearcherInstruction::try_from_slice(&[4, 9, 0, 0, 0, b'a', 1]).err(), invalid);
    // A text field that is not UTF-8.
    assert_eq!(DeResearcherInstruction::try_from_slice(&[4, 1, 0, 0, 0, 0xff, 1]).err(), invalid);
}

#[test]
fn error_codes_follow_declaration_order() {
    assert_eq!(DeResearcherError::InvalidInstruction.code(), 0);
    assert_eq!(DeResearcherError::SerializationError.code(), 12);
    assert_eq!(DeResearcherError::InvalidReputationChecker.code(), 17);
    assert_eq!(DeResearcherError::NotEnoughAccountKeys.code(), 18);
}
