use std::collections::HashMap;

use deresearcher::error::DeResearcherError;
use deresearcher::pda::{
    derive_address, peer_review_pda_seeds, research_mint_collection_seeds, research_paper_seeds,
    researcher_profile_seeds,
};
use deresearcher::processor::{AccountAction, AccountView, Processor, REPUTATION_CHECKER_ADDR};
use deresearcher::state::{
    checked_string_convt_to_64_bytes, PaperState, ResearchMintCollection, ResearchPaper,
    ResearcherProfile, ResearcherProfileState,
};

const PROGRAM_ID: [u8; 32] = [42; 32];
const SYSTEM: [u8; 32] = [0; 32];
const ALICE: [u8; 32] = [10; 32];
const BOB: [u8; 32] = [11; 32];
const CAROL: [u8; 32] = [12; 32];
const HASH: &str = "bafybeigdyrzt5sfp7udm7hu76uh7y26nf3efuylqabf3oclgtqy55fbzdi";

#[derive(Default)]
struct Ledger {
    data: HashMap<[u8; 32], Vec<u8>>,
    lamports: HashMap<[u8; 32], i128>,
}

impl Ledger {
    fn run(&mut self, metas: &[([u8; 32], bool, bool)], ix: Vec<u8>) -> Result<(), DeResearcherError> {
        let views: Vec<AccountView> = metas
            .iter()
            .map(|(key, is_signer, is_writable)| AccountView {
                key: *key,
                is_signer: *is_signer,
                is_writable: *is_writable,
                data: self.data.get(key).cloned().unwrap_or_default(),
            })
            .collect();
        let actions = Processor::process_ix(&PROGRAM_ID, &views, &ix)?;
        for action in actions {
            match action {
                AccountAction::CreateAccount { account, space, .. } => {
                    self.data.insert(metas[account].0, vec![0; space]);
                }
                AccountAction::Transfer { from, to, lamports } => {
                    *self.lamports.entry(metas[from].0).or_default() -= lamports as i128;
                    *self.lamports.entry(metas[to].0).or_default() += lamports as i128;
                }
                AccountAction::WriteData { account, data } => {
                    self.data.insert(metas[account].0, data);
                }
            }
        }
        Ok(())
    }

    fn profile(&self, key: &[u8; 32]) -> ResearcherProfile {
        ResearcherProfile::try_from_slice(&self.data[key]).unwrap()
    }

    fn paper(&self, key: &[u8; 32]) -> ResearchPaper {
        ResearchPaper::try_from_slice(&self.data[key]).unwrap()
    }
}

fn profile_pda(owner: &[u8; 32]) -> ([u8; 32], u8) {
    derive_address(&researcher_profile_seeds(owner), &PROGRAM_ID).unwrap()
}

fn paper_pda(creator: &[u8; 32]) -> ([u8; 32], u8) {
    let hash = checked_string_convt_to_64_bytes(HASH).unwrap();
    derive_address(&research_paper_seeds(&hash, creator), &PROGRAM_ID).unwrap()
}

fn review_pda(paper: &[u8; 32], reviewer: &[u8; 32]) -> ([u8; 32], u8) {
    derive_address(&peer_review_pda_seeds(paper, reviewer), &PROGRAM_ID).unwrap()
}

fn mint_pda(reader: &[u8; 32]) -> ([u8; 32], u8) {
    derive_address(&research_mint_collection_seeds(reader), &PROGRAM_ID).unwrap()
}

fn create_profile(l: &mut Ledger, owner: [u8; 32], name: &str) -> Result<(), DeResearcherError> {
    let (pda, bump) = profile_pda(&owner);
    l.run(
        &[(owner, true, true), (pda, false, true), (SYSTEM, false, false)],
        borsh::to_vec(&(0u8, name.to_string(), String::new(), bump)).unwrap(),
    )
}

fn assign(l: &mut Ledger, owner: [u8; 32], reputation: u8) -> Result<(), DeResearcherError> {
    let (pda, _) = profile_pda(&owner);
    l.run(&[(REPUTATION_CHECKER_ADDR, true, true), (pda, false, true)], vec![5, reputation])
}

fn create_paper(l: &mut Ledger, creator: [u8; 32], fee: u32) -> Result<(), DeResearcherError> {
    let (profile, _) = profile_pda(&creator);
    let (paper, bump) = paper_pda(&creator);
    l.run(
        &[(creator, true, true), (profile, false, true), (paper, false, true), (SYSTEM, false, false)],
        borsh::to_vec(&(1u8, fee, HASH.to_string(), "meta".to_string(), bump)).unwrap(),
    )
}

fn review(
    l: &mut Ledger,
    reviewer: [u8; 32],
    creator: [u8; 32],
    score: u8,
) -> Result<(), DeResearcherError> {
    let (profile, _) = profile_pda(&reviewer);
    let (paper, _) = paper_pda(&creator);
    let (review, bump) = review_pda(&paper, &reviewer);
    l.run(
        &[
            (reviewer, true, true),
            (profile, false, true),
            (paper, false, true),
            (review, false, true),
            (SYSTEM, false, false),
        ],
        borsh::to_vec(&(3u8, score, score, score, score, "notes".to_string(), bump)).unwrap(),
    )
}

fn publish(l: &mut Ledger, publisher: [u8; 32], creator: [u8; 32]) -> Result<(), DeResearcherError> {
    let (paper, bump) = paper_pda(&creator);
    l.run(&[(publisher, true, true), (paper, false, true)], vec![2, bump])
}

fn access(
    l: &mut Ledger,
    reader: [u8; 32],
    creator: [u8; 32],
    fee_receiver: [u8; 32],
) -> Result<(), DeResearcherError> {
    let (profile, _) = profile_pda(&reader);
    let (mint, bump) = mint_pda(&reader);
    let (paper, _) = paper_pda(&creator);
    l.run(
        &[
            (reader, true, true),
            (profile, false, true),
            (mint, false, true),
            (paper, false, true),
            (fee_receiver, false, true),
            (SYSTEM, false, false),
        ],
        borsh::to_vec(&(4u8, "access".to_string(), bump)).unwrap(),
    )
}

/// Alice has a paper with an access fee of 100; Bob is an approved referee.
fn setup() -> Ledger {
    let mut l = Ledger::default();
    create_profile(&mut l, ALICE, "Alice").unwrap();
    assign(&mut l, ALICE, 80).unwrap();
    create_paper(&mut l, ALICE, 100).unwrap();
    create_profile(&mut l, BOB, "Bob").unwrap();
    assign(&mut l, BOB, 70).unwrap();
    l
}

#[test]
fn end_to_end_publication() {
    let mut l = Ledger::default();
    create_profile(&mut l, ALICE, "Alice").unwrap();
    let alice = l.profile(&profile_pda(&ALICE).0);
    assert_eq!(alice.state, ResearcherProfileState::AwaitingApproval);
    assert_eq!((alice.total_papers_published, alice.reputation), (0, 0));

    assign(&mut l, ALICE, 80).unwrap();
    assert_eq!(l.profile(&profile_pda(&ALICE).0).state, ResearcherProfileState::Approved);

    create_paper(&mut l, ALICE, 100).unwrap();
    let paper_key = paper_pda(&ALICE).0;
    let paper = l.paper(&paper_key);
    assert_eq!(paper.state, PaperState::AwaitingPeerReview);
    assert_eq!(paper.access_fee, 100);
    assert_eq!(paper.creator_pubkey, ALICE);
    assert_eq!(l.profile(&profile_pda(&ALICE).0).total_papers_published, 1);

    assert_eq!(publish(&mut l, ALICE, ALICE), Err(DeResearcherError::NotEnoughApprovals));

    create_profile(&mut l, BOB, "Bob").unwrap();
    assign(&mut l, BOB, 70).unwrap();
    review(&mut l, BOB, ALICE, 80).unwrap();
    let paper = l.paper(&paper_key);
    assert_eq!(paper.total_approvals, 1);
    assert_eq!(paper.total_citations, 1);
    assert_eq!(paper.state, PaperState::ApprovedToPublish);
    assert_eq!(l.profile(&profile_pda(&BOB).0).total_reviews, 1);

    publish(&mut l, ALICE, ALICE).unwrap();
    assert_eq!(l.paper(&paper_key).state, PaperState::Published);
}

#[test]
fn low_score_review_enters_review_without_approval() {
    let mut l = setup();
    review(&mut l, BOB, ALICE, 50).unwrap();
    let paper = l.paper(&paper_pda(&ALICE).0);
    assert_eq!(paper.total_approvals, 0);
    assert_eq!(paper.total_citations, 1);
    assert_eq!(paper.state, PaperState::InPeerReview);
    assert_eq!(publish(&mut l, ALICE, ALICE), Err(DeResearcherError::NotEnoughApprovals));
}

#[test]
fn second_review_by_same_reviewer_is_refused() {
    let mut l = setup();
    review(&mut l, BOB, ALICE, 80).unwrap();
    let before = l.paper(&paper_pda(&ALICE).0).serialize();
    assert_eq!(review(&mut l, BOB, ALICE, 90), Err(DeResearcherError::PeerReviewAlreadyExists));
    assert_eq!(l.paper(&paper_pda(&ALICE).0).serialize(), before);
    assert_eq!(l.profile(&profile_pda(&BOB).0).total_reviews, 1);
}

#[test]
fn second_review_under_another_bump_is_refused() {
    let mut l = setup();
    review(&mut l, BOB, ALICE, 80).unwrap();
    let (profile, _) = profile_pda(&BOB);
    let (paper, _) = paper_pda(&ALICE);
    let seeds = peer_review_pda_seeds(&paper, &BOB);
    let (_, canonical) = review_pda(&paper, &BOB);
    let id = solana_program::pubkey::Pubkey::new_from_array(PROGRAM_ID);
    let (other, other_bump) = (1..canonical)
        .rev()
        .find_map(|b| {
            let mut with: Vec<&[u8]> = seeds.iter().map(|s| s.as_slice()).collect();
            let bump = [b];
            with.push(&bump);
            solana_program::pubkey::Pubkey::create_program_address(&with, &id)
                .ok()
                .map(|k| (k.to_bytes(), b))
        })
        .unwrap();
    let result = l.run(
        &[
            (BOB, true, true),
            (profile, false, true),
            (paper, false, true),
            (other, false, true),
            (SYSTEM, false, false),
        ],
        borsh::to_vec(&(3u8, 90u8, 90u8, 90u8, 90u8, "again".to_string(), other_bump)).unwrap(),
    );
    assert_eq!(result, Err(DeResearcherError::PdaPubekyMismatch));
    assert_eq!(l.paper(&paper).total_approvals, 1);
    assert!(!l.data.contains_key(&other));
}

#[test]
fn creator_cannot_review_own_paper() {
    let mut l = setup();
    assert_eq!(review(&mut l, ALICE, ALICE, 100), Err(DeResearcherError::PublisherCannotAddPeerReview));
    assert_eq!(l.paper(&paper_pda(&ALICE).0).total_approvals, 0);
}

#[test]
fn rejected_researcher_cannot_review() {
    let mut l = setup();
    create_profile(&mut l, CAROL, "Carol").unwrap();
    assert_eq!(review(&mut l, CAROL, ALICE, 80), Err(DeResearcherError::NotAllowedForPeerReview));
    assign(&mut l, CAROL, 50).unwrap();
    assert_eq!(l.profile(&profile_pda(&CAROL).0).state, ResearcherProfileState::Rejected);
    assert_eq!(review(&mut l, CAROL, ALICE, 80), Err(DeResearcherError::NotAllowedForPeerReview));
    assign(&mut l, CAROL, 51).unwrap();
    review(&mut l, CAROL, ALICE, 80).unwrap();
}

#[test]
fn review_scores_above_one_hundred_are_refused() {
    let mut l = setup();
    assert_eq!(review(&mut l, BOB, ALICE, 101), Err(DeResearcherError::SizeOverflow));
}

#[test]
fn access_pays_creator_and_counts_citations() {
    let mut l = setup();
    review(&mut l, BOB, ALICE, 80).unwrap();
    publish(&mut l, ALICE, ALICE).unwrap();
    create_profile(&mut l, CAROL, "Carol").unwrap();
    access(&mut l, CAROL, ALICE, ALICE).unwrap();
    let paper = l.paper(&paper_pda(&ALICE).0);
    assert_eq!((paper.total_citations, paper.total_mints), (2, 1));
    assert_eq!(l.profile(&profile_pda(&CAROL).0).total_citations, 1);
    assert_eq!(l.lamports[&ALICE], 100);
    assert_eq!(l.lamports[&CAROL], -100);
    let record = ResearchMintCollection::try_from_slice(&l.data[&mint_pda(&CAROL).0]).unwrap();
    assert_eq!(record.reader_pubkey, CAROL);
    // A second access refreshes the existing record and pays again.
    access(&mut l, CAROL, ALICE, ALICE).unwrap();
    assert_eq!(l.paper(&paper_pda(&ALICE).0).total_mints, 2);
    assert_eq!(l.lamports[&ALICE], 200);
}

#[test]
fn wrong_fee_receiver_is_refused() {
    let mut l = setup();
    review(&mut l, BOB, ALICE, 80).unwrap();
    publish(&mut l, ALICE, ALICE).unwrap();
    create_profile(&mut l, CAROL, "Carol").unwrap();
    assert_eq!(access(&mut l, CAROL, ALICE, BOB), Err(DeResearcherError::InvalidFeeReceiver));
    let paper = l.paper(&paper_pda(&ALICE).0);
    assert_eq!((paper.total_citations, paper.total_mints), (1, 0));
    assert_eq!(l.profile(&profile_pda(&CAROL).0).total_citations, 0);
    assert!(l.lamports.is_empty());
    assert!(!l.data.contains_key(&mint_pda(&CAROL).0));
}

#[test]
fn access_to_unpublished_paper_is_invalid_state() {
    let mut l = setup();
    create_profile(&mut l, CAROL, "Carol").unwrap();
    assert_eq!(access(&mut l, CAROL, ALICE, ALICE), Err(DeResearcherError::InvalidState));
}

#[test]
fn publish_twice_is_invalid_state() {
    let mut l = setup();
    review(&mut l, BOB, ALICE, 80).unwrap();
    publish(&mut l, ALICE, ALICE).unwrap();
    assert_eq!(publish(&mut l, ALICE, ALICE), Err(DeResearcherError::InvalidState));
}

#[test]
fn publish_by_other_researcher_is_pubkey_mismatch() {
    let mut l = setup();
    review(&mut l, BOB, ALICE, 80).unwrap();
    assert_eq!(publish(&mut l, BOB, ALICE), Err(DeResearcherError::PubkeyMismatch));
}

#[test]
fn duplicate_profile_is_refused() {
    let mut l = setup();
    assert_eq!(
        create_profile(&mut l, ALICE, "Again"),
        Err(DeResearcherError::ResearcherProfileAlreadyExists)
    );
}

#[test]
fn duplicate_paper_is_refused() {
    let mut l = setup();
    assert_eq!(create_paper(&mut l, ALICE, 5), Err(DeResearcherError::PaperAlreadyExists));
}

#[test]
fn paper_without_profile_is_refused() {
    let mut l = Ledger::default();
    assert_eq!(create_paper(&mut l, CAROL, 5), Err(DeResearcherError::ResearcherProfileNotFound));
}

#[test]
fn long_name_is_size_overflow() {
    let mut l = Ledger::default();
    assert_eq!(create_profile(&mut l, ALICE, &"n".repeat(65)), Err(DeResearcherError::SizeOverflow));
    assert!(l.data.is_empty());
    create_profile(&mut l, ALICE, &"n".repeat(64)).unwrap();
}

#[test]
fn reputation_above_one_hundred_is_size_overflow() {
    let mut l = setup();
    assert_eq!(assign(&mut l, BOB, 101), Err(DeResearcherError::SizeOverflow));
    assert_eq!(l.profile(&profile_pda(&BOB).0).reputation, 70);
    assign(&mut l, BOB, 100).unwrap();
    assert_eq!(l.profile(&profile_pda(&BOB).0).reputation, 100);
}

#[test]
fn only_the_oracle_assigns_reputation() {
    let mut l = setup();
    let (pda, _) = profile_pda(&BOB);
    assert_eq!(
        l.run(&[(BOB, true, true), (pda, false, true)], vec![5, 90]),
        Err(DeResearcherError::InvalidReputationChecker)
    );
    assert_eq!(
        l.run(&[(REPUTATION_CHECKER_ADDR, false, true), (pda, false, true)], vec![5, 90]),
        Err(DeResearcherError::InvalidSigner)
    );
    assert_eq!(
        l.run(&[(REPUTATION_CHECKER_ADDR, true, true), (pda, false, false)], vec![5, 90]),
        Err(DeResearcherError::ImmutableAccount)
    );
    let (missing, _) = profile_pda(&CAROL);
    assert_eq!(
        l.run(&[(REPUTATION_CHECKER_ADDR, true, true), (missing, false, true)], vec![5, 90]),
        Err(DeResearcherError::ResearcherProfileNotFound)
    );
}

#[test]
fn unsigned_profile_creation_is_invalid_signer() {
    let mut l = Ledger::default();
    let (pda, bump) = profile_pda(&ALICE);
    let ix = borsh::to_vec(&(0u8, "Alice".to_string(), String::new(), bump)).unwrap();
    assert_eq!(
        l.run(&[(ALICE, false, true), (pda, false, true), (SYSTEM, false, false)], ix),
        Err(DeResearcherError::InvalidSigner)
    );
}

#[test]
fn wrong_profile_address_is_pda_mismatch() {
    let mut l = Ledger::default();
    let (pda, bump) = profile_pda(&ALICE);
    let ix = borsh::to_vec(&(0u8, "Alice".to_string(), String::new(), bump)).unwrap();
    let (other, _) = profile_pda(&BOB);
    assert_eq!(
        l.run(&[(ALICE, true, true), (other, false, true), (SYSTEM, false, false)], ix.clone()),
        Err(DeResearcherError::PdaPubekyMismatch)
    );
    let wrong_bump =
        borsh::to_vec(&(0u8, "Alice".to_string(), String::new(), bump.wrapping_sub(1))).unwrap();
    assert_eq!(
        l.run(&[(ALICE, true, true), (pda, false, true), (SYSTEM, false, false)], wrong_bump),
        Err(DeResearcherError::PdaPubekyMismatch)
    );
}

#[test]
fn read_only_profile_account_is_immutable() {
    let mut l = Ledger::default();
    let (pda, bump) = profile_pda(&ALICE);
    let ix = borsh::to_vec(&(0u8, "Alice".to_string(), String::new(), bump)).unwrap();
    assert_eq!(
        l.run(&[(ALICE, true, true), (pda, false, false), (SYSTEM, false, false)], ix),
        Err(DeResearcherError::ImmutableAccount)
    );
}

#[test]
fn review_of_missing_paper_is_paper_not_found() {
    let mut l = Ledger::default();
    create_profile(&mut l, BOB, "Bob").unwrap();
    assign(&mut l, BOB, 70).unwrap();
    assert_eq!(review(&mut l, BOB, ALICE, 80), Err(DeResearcherError::PaperNotFound));
}

#[test]
fn corrupt_paper_is_serialization_error() {
    let mut l = setup();
    let paper = paper_pda(&ALICE).0;
    l.data.get_mut(&paper).unwrap()[64] = 9;
    assert_eq!(review(&mut l, BOB, ALICE, 80), Err(DeResearcherError::SerializationError));
}

#[test]
fn missing_accounts_are_reported() {
    let mut l = setup();
    assert_eq!(
        l.run(&[(REPUTATION_CHECKER_ADDR, true, true)], vec![5, 90]),
        Err(DeResearcherError::NotEnoughAccountKeys)
    );
    let (_, bump) = paper_pda(&ALICE);
    assert_eq!(
        l.run(&[(ALICE, true, true)], vec![2, bump]),
        Err(DeResearcherError::NotEnoughAccountKeys)
    );
}

#[test]
fn unknown_instruction_is_invalid() {
    let mut l = setup();
    assert_eq!(l.run(&[(ALICE, true, true)], vec![9]), Err(DeResearcherError::InvalidInstruction));
}
