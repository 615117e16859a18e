use deresearcher::error::DeResearcherError;
use deresearcher::pda::{
    derive_address, peer_review_pda_seeds, research_paper_seeds, researcher_profile_seeds,
    validate_canonical_pda, validate_pda,
};
use solana_program::pubkey::Pubkey;

/// An address and bump below the canonical one that still derive.
fn lower_bump(seeds: &[Vec<u8>], canonical: u8) -> ([u8; 32], u8) {
    let id = Pubkey::new_from_array(PROGRAM_ID);
    (1..canonical)
        .rev()
        .find_map(|b| {
            let mut with: Vec<&[u8]> = seeds.iter().map(|s| s.as_slice()).collect();
            let bump = [b];
            with.push(&bump);
            Pubkey::create_program_address(&with, &id).ok().map(|k| (k.to_bytes(), b))
        })
        .unwrap()
}

const PROGRAM_ID: [u8; 32] = [42; 32];

#[test]
fn derived_address_validates() {
    let owner = [10u8; 32];
    let seeds = researcher_profile_seeds(&owner);
    let (address, bump) = derive_address(&seeds, &PROGRAM_ID).unwrap();
    assert!(bump >= 1);
    assert_eq!(validate_pda(seeds, &address, bump, &PROGRAM_ID), Ok(()));
}

#[test]
fn derivation_is_deterministic_and_separates_owners() {
    let a = derive_address(&researcher_profile_seeds(&[10; 32]), &PROGRAM_ID).unwrap();
    let again = derive_address(&researcher_profile_seeds(&[10; 32]), &PROGRAM_ID).unwrap();
    let b = derive_address(&researcher_profile_seeds(&[11; 32]), &PROGRAM_ID).unwrap();
    assert_eq!(a, again);
    assert_ne!(a.0, b.0);
    assert_ne!(a.0, [10; 32]);
}

#[test]
fn derivation_depends_on_the_program() {
    let seeds = researcher_profile_seeds(&[10; 32]);
    let a = derive_address(&seeds, &PROGRAM_ID).unwrap();
    let b = derive_address(&seeds, &[43; 32]).unwrap();
    assert_ne!(a.0, b.0);
}

#[test]
fn any_changed_address_byte_fails_validation() {
    let seeds = researcher_profile_seeds(&[10; 32]);
    let (address, bump) = derive_address(&seeds, &PROGRAM_ID).unwrap();
    for i in 0..32 {
        let mut other = address;
        other[i] ^= 1;
        assert_eq!(
            validate_pda(researcher_profile_seeds(&[10; 32]), &other, bump, &PROGRAM_ID),
            Err(DeResearcherError::PdaPubekyMismatch)
        );
    }
}

#[test]
fn changed_bump_fails_validation() {
    let seeds = research_paper_seeds(&[7; 64], &[10; 32]);
    let (address, bump) = derive_address(&seeds, &PROGRAM_ID).unwrap();
    for other in [bump.wrapping_add(1), bump.wrapping_sub(1), 0] {
        if other != bump {
            assert_eq!(
                validate_pda(research_paper_seeds(&[7; 64], &[10; 32]), &address, other, &PROGRAM_ID),
                Err(DeResearcherError::PdaPubekyMismatch)
            );
        }
    }
}

#[test]
fn review_address_depends_on_paper_and_reviewer() {
    let a = derive_address(&peer_review_pda_seeds(&[1; 32], &[2; 32]), &PROGRAM_ID).unwrap();
    let b = derive_address(&peer_review_pda_seeds(&[2; 32], &[1; 32]), &PROGRAM_ID).unwrap();
    let c = derive_address(&peer_review_pda_seeds(&[1; 32], &[3; 32]), &PROGRAM_ID).unwrap();
    assert_ne!(a.0, b.0);
    assert_ne!(a.0, c.0);
}

#[test]
fn seeds_over_limits_derive_nothing() {
    let long_seed = vec![vec![1u8; 33]];
    assert_eq!(derive_address(&long_seed, &PROGRAM_ID), None);
    assert_eq!(
        validate_pda(long_seed, &[0; 32], 255, &PROGRAM_ID),
        Err(DeResearcherError::PdaPubekyMismatch)
    );
    let many = vec![vec![1u8]; 16];
    assert_eq!(derive_address(&many, &PROGRAM_ID), None);
    let fifteen = vec![vec![1u8]; 15];
    assert!(derive_address(&fifteen, &PROGRAM_ID).is_some());
}

#[test]
fn canonical_validation_accepts_only_the_canonical_bump() {
    let seeds = researcher_profile_seeds(&[10; 32]);
    let (address, bump) = derive_address(&seeds, &PROGRAM_ID).unwrap();
    assert_eq!(validate_canonical_pda(seeds.clone(), &address, bump, &PROGRAM_ID), Ok(()));
    let (other, other_bump) = lower_bump(&seeds, bump);
    assert_eq!(validate_pda(seeds.clone(), &other, other_bump, &PROGRAM_ID), Ok(()));
    assert_eq!(
        validate_canonical_pda(seeds.clone(), &other, other_bump, &PROGRAM_ID),
        Err(DeResearcherError::PdaPubekyMismatch)
    );
    assert_eq!(
        validate_canonical_pda(seeds, &address, other_bump, &PROGRAM_ID),
        Err(DeResearcherError::PdaPubekyMismatch)
    );
}
