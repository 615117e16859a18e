use vstd::prelude::*;
use vstd::utf8::encode_utf8;

use crate::bytes::keys_equal;
use crate::error::{fails_with, DeResearcherError};
use crate::instruction::{
    encode_instruction, fields_fit, instruction_parses, lemma_encoded_instruction_parses,
    lemma_instruction_encoding_injective,
    same_payload, AddPeerReview, CheckAndAssignReputation,
    CreateResearchePaper, CreateResearcherProfile, DeResearcherInstruction, MintResearchPaper,
    PublishPaper,
};
use crate::lifecycle::{
    access_outcome, after_access, after_review, publish_outcome, review_of, review_outcome,
    with_citation, with_paper_published, with_reputation, with_review_written,
};
use crate::pda::{
    derives_to, lemma_canonical_address_unique, mint_collection_seeds, paper_seeds, pda_matches,
    peer_review_pda_seeds, peer_review_seeds,
    profile_seeds, research_mint_collection_seeds, research_paper_seeds,
    researcher_profile_seeds, validate_canonical_pda, validate_pda, with_bump,
};
use crate::state::{
    Review,
    checked_string_convt_to_64_bytes, encode_paper, encode_profile, is_paper_bytes,
    is_profile_bytes, lemma_stored_paper, lemma_stored_profile, mint_collection_bytes, packed,
    paper_bytes, peer_review_bytes, profile_bytes, stored_paper, stored_profile, zeros, Address,
    PaperState, PeerReview, ResearchMintCollection, ResearchPaper, ResearcherProfile,
    ResearcherProfileState, MAX_REPUTATION, MAX_STRING_SIZE, MINT_COLLECTION_SIZE, PAPER_SIZE,
    PEER_REVIEW_SIZE, PROFILE_SIZE,
};

verus! {

/// What an instruction sees of one of its accounts.
pub struct AccountView {
    pub key: Address,
    pub is_signer: bool,
    pub is_writable: bool,
    pub data: Vec<u8>,
}

/// The mathematical value of an account as an instruction sees it.
pub struct AccountModel {
    pub key: Seq<u8>,
    pub is_signer: bool,
    pub is_writable: bool,
    pub data: Seq<u8>,
}

impl View for AccountView {
    type V = AccountModel;

    open spec fn view(&self) -> AccountModel {
        AccountModel {
            key: self.key@,
            is_signer: self.is_signer,
            is_writable: self.is_writable,
            data: self.data@,
        }
    }
}

/// An effect that the host carries out, in order, once an instruction
/// succeeds. Accounts are named by their position in the instruction's list.
pub enum AccountAction {
    /// Create `account`, owned by the program, with `space` zero bytes, funded
    /// by `payer` and signed for with `seeds` (the bump included).
    CreateAccount { payer: usize, account: usize, space: usize, seeds: Vec<Vec<u8>> },
    /// Move `lamports` from `from` to `to`.
    Transfer { from: usize, to: usize, lamports: u64 },
    /// Store `data` as the whole contents of `account`.
    WriteData { account: usize, data: Vec<u8> },
}

/// The mathematical value of an effect.
pub enum ActionModel {
    CreateAccount { payer: usize, account: usize, space: usize, seeds: Seq<Seq<u8>> },
    Transfer { from: usize, to: usize, lamports: u64 },
    WriteData { account: usize, data: Seq<u8> },
}

impl View for AccountAction {
    type V = ActionModel;

    open spec fn view(&self) -> ActionModel {
        match self {
            AccountAction::CreateAccount { payer, account, space, seeds } => {
                ActionModel::CreateAccount {
                    payer: *payer,
                    account: *account,
                    space: *space,
                    seeds: seeds.deep_view(),
                }
            },
            AccountAction::Transfer { from, to, lamports } => ActionModel::Transfer {
                from: *from,
                to: *to,
                lamports: *lamports,
            },
            AccountAction::WriteData { account, data } => ActionModel::WriteData {
                account: *account,
                data: data@,
            },
        }
    }
}

/// The accounts of an instruction as values.
pub open spec fn accounts_view(accounts: Seq<AccountView>) -> Seq<AccountModel> {
    accounts.map_values(|a: AccountView| a@)
}

/// The effects of an instruction as values.
pub open spec fn actions_view(actions: Seq<AccountAction>) -> Seq<ActionModel> {
    actions.map_values(|a: AccountAction| a@)
}

/// The outcome of an instruction as a value.
pub open spec fn outcome_view(r: Result<Vec<AccountAction>, DeResearcherError>) -> Result<
    Seq<ActionModel>,
    DeResearcherError,
> {
    match r {
        Ok(v) => Ok(actions_view(v@)),
        Err(e) => Err(e),
    }
}

/// The accounts after the host carries out `actions`: a created account holds
/// zeros, a written one the bytes written; a transfer leaves data alone.
pub open spec fn apply_actions(accounts: Seq<AccountModel>, actions: Seq<ActionModel>) -> Seq<
    AccountModel,
>
    decreases actions.len(),
{
    if actions.len() == 0 {
        accounts
    } else {
        let rest = apply_actions(accounts, actions.drop_last());
        match actions.last() {
            ActionModel::CreateAccount { account, space, .. } => if account < rest.len() {
                let created = AccountModel { data: zeros(space as nat), ..rest[account as int] };
                rest.update(account as int, created)
            } else {
                rest
            },
            ActionModel::Transfer { .. } => rest,
            ActionModel::WriteData { account, data } => if account < rest.len() {
                rest.update(account as int, AccountModel { data, ..rest[account as int] })
            } else {
                rest
            },
        }
    }
}

// ---------------------------------------------------------------------------
// Profile creation
// ---------------------------------------------------------------------------

/// Profile creation. Accounts: the researcher (signer), the profile's derived
/// address (empty, writable), the system program.
pub open spec fn create_profile_outcome(
    program_id: Seq<u8>,
    accounts: Seq<AccountModel>,
    data: CreateResearcherProfile,
) -> Result<Seq<ActionModel>, DeResearcherError> {
    profile_creation(program_id, accounts, data.name@, data.pda_bump)
}

/// Profile creation with the payload's name and bump.
pub open spec fn profile_creation(
    program_id: Seq<u8>,
    accounts: Seq<AccountModel>,
    name: Seq<char>,
    pda_bump: u8,
) -> Result<Seq<ActionModel>, DeResearcherError> {
    if accounts.len() < 3 {
        Err(DeResearcherError::NotEnoughAccountKeys)
    } else {
        let researcher = accounts[0];
        let profile = accounts[1];
        let seeds = profile_seeds(researcher.key);
        let name_bytes = encode_utf8(name);
        if !derives_to(seeds, program_id, profile.key, pda_bump) {
            Err(DeResearcherError::PdaPubekyMismatch)
        } else if !researcher.is_signer {
            Err(DeResearcherError::InvalidSigner)
        } else if profile.data.len() != 0 {
            Err(DeResearcherError::ResearcherProfileAlreadyExists)
        } else if !profile.is_writable {
            Err(DeResearcherError::ImmutableAccount)
        } else if name_bytes.len() > MAX_STRING_SIZE {
            Err(DeResearcherError::SizeOverflow)
        } else {
            Ok(
                seq![
                    ActionModel::CreateAccount {
                        payer: 0,
                        account: 1,
                        space: PROFILE_SIZE,
                        seeds: seeds.push(seq![pda_bump]),
                    },
                    ActionModel::WriteData {
                        account: 1,
                        data: profile_bytes(
                            profile.key,
                            researcher.key,
                            packed(name_bytes),
                            ResearcherProfileState::AwaitingApproval,
                            0,
                            0,
                            0,
                            0,
                            zeros(64),
                            pda_bump,
                        ),
                    },
                ],
            )
        }
    }
}

/// Creates the researcher's profile at its derived address.
pub fn create_researcher_profile_ix(
    program_id: &Address,
    accounts: &Vec<AccountView>,
    data: CreateResearcherProfile,
) -> (r: Result<Vec<AccountAction>, DeResearcherError>)
    ensures
        outcome_view(r) == create_profile_outcome(program_id@, accounts_view(accounts@), data),
{
    if accounts.len() < 3 {
        return Err(DeResearcherError::NotEnoughAccountKeys);
    }
    let researcher_acc = &accounts[0];
    let researcher_profile_pda_acc = &accounts[1];
    assert(accounts_view(accounts@)[0] == researcher_acc@);
    assert(accounts_view(accounts@)[1] == researcher_profile_pda_acc@);
    validate_canonical_pda(
        researcher_profile_seeds(&researcher_acc.key),
        &researcher_profile_pda_acc.key,
        data.pda_bump,
        program_id,
    )?;
    if !researcher_acc.is_signer {
        return Err(DeResearcherError::InvalidSigner);
    }
    if researcher_profile_pda_acc.data.len() != 0 {
        return Err(DeResearcherError::ResearcherProfileAlreadyExists);
    }
    if !researcher_profile_pda_acc.is_writable {
        return Err(DeResearcherError::ImmutableAccount);
    }
    let profile = ResearcherProfile::create_new(
        &researcher_profile_pda_acc.key,
        &researcher_acc.key,
        &data,
    )?;
    let mut actions: Vec<AccountAction> = Vec::new();
    actions.push(
        AccountAction::CreateAccount {
            payer: 0,
            account: 1,
            space: ResearcherProfile::size(),
            seeds: with_bump(researcher_profile_seeds(&researcher_acc.key), data.pda_bump),
        },
    );
    actions.push(AccountAction::WriteData { account: 1, data: profile.serialize() });
    proof {
        let expected = create_profile_outcome(program_id@, accounts_view(accounts@), data);
        assert(actions_view(actions@) =~= expected->Ok_0);
    }
    Ok(actions)
}

// ---------------------------------------------------------------------------
// Paper creation
// ---------------------------------------------------------------------------

/// Paper creation. Accounts: the publisher (signer), the publisher's profile
/// (writable), the paper's derived address (empty, writable), the system
/// program.
pub open spec fn create_paper_outcome(
    program_id: Seq<u8>,
    accounts: Seq<AccountModel>,
    data: CreateResearchePaper,
) -> Result<Seq<ActionModel>, DeResearcherError> {
    paper_creation(program_id,
        accounts,
        data.paper_content_hash@,
        data.meta_data_merkle_root@,
        data.access_fee,
        data.pda_bump,
    )
}

/// Paper creation with the payload's content hash, digest, fee and bump.
pub open spec fn paper_creation(
    program_id: Seq<u8>,
    accounts: Seq<AccountModel>,
    paper_content_hash: Seq<char>,
    meta_data_merkle_root: Seq<char>,
    access_fee: u32,
    pda_bump: u8,
) -> Result<Seq<ActionModel>, DeResearcherError> {
    if accounts.len() < 4 {
        Err(DeResearcherError::NotEnoughAccountKeys)
    } else {
        let publisher = accounts[0];
        let profile = accounts[1];
        let paper = accounts[2];
        let stored = stored_profile(profile.data);
        let content_hash = encode_utf8(paper_content_hash);
        let merkle_root = encode_utf8(meta_data_merkle_root);
        let seeds = paper_seeds(packed(content_hash), publisher.key);
        if !publisher.is_signer {
            Err(DeResearcherError::InvalidSigner)
        } else if profile.data.len() == 0 {
            Err(DeResearcherError::ResearcherProfileNotFound)
        } else if !is_profile_bytes(profile.data) {
            Err(DeResearcherError::SerializationError)
        } else if !pda_matches(profile_seeds(publisher.key), stored.bump, program_id, profile.key) {
            Err(DeResearcherError::PdaPubekyMismatch)
        } else if paper.data.len() != 0 {
            Err(DeResearcherError::PaperAlreadyExists)
        } else if content_hash.len() > MAX_STRING_SIZE {
            Err(DeResearcherError::SizeOverflow)
        } else if !derives_to(seeds, program_id, paper.key, pda_bump) {
            Err(DeResearcherError::PdaPubekyMismatch)
        } else if !paper.is_writable || !profile.is_writable {
            Err(DeResearcherError::ImmutableAccount)
        } else if merkle_root.len() > MAX_STRING_SIZE || stored.total_papers_published == u64::MAX {
            Err(DeResearcherError::SizeOverflow)
        } else {
            Ok(
                seq![
                    ActionModel::CreateAccount {
                        payer: 0,
                        account: 2,
                        space: PAPER_SIZE,
                        seeds: seeds.push(seq![pda_bump]),
                    },
                    ActionModel::WriteData {
                        account: 2,
                        data: paper_bytes(
                            paper.key,
                            publisher.key,
                            PaperState::AwaitingPeerReview,
                            access_fee,
                            0,
                            packed(content_hash),
                            0,
                            0,
                            0,
                            packed(merkle_root),
                            pda_bump,
                        ),
                    },
                    ActionModel::WriteData {
                        account: 1,
                        data: encode_profile(with_paper_published(stored)),
                    },
                ],
            )
        }
    }
}

/// Creates a paper at the address derived from its content hash and its
/// creator, and counts it on the creator's profile.
pub fn create_research_paper_ix(
    program_id: &Address,
    accounts: &Vec<AccountView>,
    data: CreateResearchePaper,
) -> (r: Result<Vec<AccountAction>, DeResearcherError>)
    ensures
        outcome_view(r) == create_paper_outcome(program_id@, accounts_view(accounts@), data),
{
    if accounts.len() < 4 {
        return Err(DeResearcherError::NotEnoughAccountKeys);
    }
    let publisher_acc = &accounts[0];
    let researcher_profile_pda_acc = &accounts[1];
    let paper_pda_acc = &accounts[2];
    assert(accounts_view(accounts@)[0] == publisher_acc@);
    assert(accounts_view(accounts@)[1] == researcher_profile_pda_acc@);
    assert(accounts_view(accounts@)[2] == paper_pda_acc@);
    if !publisher_acc.is_signer {
        return Err(DeResearcherError::InvalidSigner);
    }
    if researcher_profile_pda_acc.data.len() == 0 {
        return Err(DeResearcherError::ResearcherProfileNotFound);
    }
    let mut researcher_profile = ResearcherProfile::try_from_slice(
        researcher_profile_pda_acc.data.as_slice(),
    )?;
    proof {
        lemma_stored_profile(researcher_profile);
    }
    validate_pda(
        researcher_profile_seeds(&publisher_acc.key),
        &researcher_profile_pda_acc.key,
        researcher_profile.bump,
        program_id,
    )?;
    if paper_pda_acc.data.len() != 0 {
        return Err(DeResearcherError::PaperAlreadyExists);
    }
    let content_hash = checked_string_convt_to_64_bytes(data.paper_content_hash.as_str())?;
    let paper_seeds_vec = research_paper_seeds(&content_hash, &publisher_acc.key);
    validate_canonical_pda(paper_seeds_vec, &paper_pda_acc.key, data.pda_bump, program_id)?;
    if !paper_pda_acc.is_writable || !researcher_profile_pda_acc.is_writable {
        return Err(DeResearcherError::ImmutableAccount);
    }
    let paper = ResearchPaper::create_new(
        &paper_pda_acc.key,
        &publisher_acc.key,
        &data,
        &mut researcher_profile,
    )?;
    let mut actions: Vec<AccountAction> = Vec::new();
    actions.push(
        AccountAction::CreateAccount {
            payer: 0,
            account: 2,
            space: ResearchPaper::size(),
            seeds: with_bump(research_paper_seeds(&content_hash, &publisher_acc.key), data.pda_bump),
        },
    );
    actions.push(AccountAction::WriteData { account: 2, data: paper.serialize() });
    actions.push(AccountAction::WriteData { account: 1, data: researcher_profile.serialize() });
    proof {
        let expected = create_paper_outcome(program_id@, accounts_view(accounts@), data);
        assert(actions_view(actions@) =~= expected->Ok_0);
    }
    Ok(actions)
}

// ---------------------------------------------------------------------------
// Publication
// ---------------------------------------------------------------------------

/// Publication. Accounts: the publisher (signer), the paper (writable).
pub open spec fn publish_outcome_of(
    program_id: Seq<u8>,
    accounts: Seq<AccountModel>,
    data: PublishPaper,
) -> Result<Seq<ActionModel>, DeResearcherError> {
    if accounts.len() < 2 {
        Err(DeResearcherError::NotEnoughAccountKeys)
    } else {
        let publisher = accounts[0];
        let paper = accounts[1];
        let stored = stored_paper(paper.data);
        if !publisher.is_signer {
            Err(DeResearcherError::InvalidSigner)
        } else if paper.data.len() == 0 {
            Err(DeResearcherError::PaperNotFound)
        } else if !is_paper_bytes(paper.data) {
            Err(DeResearcherError::SerializationError)
        } else if stored.creator_pubkey@ != publisher.key {
            Err(DeResearcherError::PubkeyMismatch)
        } else if !derives_to(
            paper_seeds(stored.paper_content_hash@, publisher.key),
            program_id,
            paper.key,
            data.pda_bump,
        ) {
            Err(DeResearcherError::PdaPubekyMismatch)
        } else if !paper.is_writable {
            Err(DeResearcherError::ImmutableAccount)
        } else if publish_outcome(stored, publisher.key) is Err {
            Err(publish_outcome(stored, publisher.key)->Err_0)
        } else {
            Ok(
                seq![
                    ActionModel::WriteData {
                        account: 1,
                        data: encode_paper(
                            (ResearchPaper { state: PaperState::Published, ..stored }),
                        ),
                    },
                ],
            )
        }
    }
}

/// Publishes a paper that is ready to publish, on its creator's signature.
pub fn publish_paper_ix(
    program_id: &Address,
    accounts: &Vec<AccountView>,
    data: PublishPaper,
) -> (r: Result<Vec<AccountAction>, DeResearcherError>)
    ensures
        outcome_view(r) == publish_outcome_of(program_id@, accounts_view(accounts@), data),
{
    if accounts.len() < 2 {
        return Err(DeResearcherError::NotEnoughAccountKeys);
    }
    let publisher_acc = &accounts[0];
    let paper_pda_acc = &accounts[1];
    assert(accounts_view(accounts@)[0] == publisher_acc@);
    assert(accounts_view(accounts@)[1] == paper_pda_acc@);
    if !publisher_acc.is_signer {
        return Err(DeResearcherError::InvalidSigner);
    }
    if paper_pda_acc.data.len() == 0 {
        return Err(DeResearcherError::PaperNotFound);
    }
    let mut paper = ResearchPaper::try_from_slice(paper_pda_acc.data.as_slice())?;
    proof {
        lemma_stored_paper(paper);
    }
    if !keys_equal(&paper.creator_pubkey, &publisher_acc.key) {
        return Err(DeResearcherError::PubkeyMismatch);
    }
    validate_canonical_pda(
        research_paper_seeds(&paper.paper_content_hash, &publisher_acc.key),
        &paper_pda_acc.key,
        data.pda_bump,
        program_id,
    )?;
    if !paper_pda_acc.is_writable {
        return Err(DeResearcherError::ImmutableAccount);
    }
    paper.publish_paper(&publisher_acc.key)?;
    let mut actions: Vec<AccountAction> = Vec::new();
    actions.push(AccountAction::WriteData { account: 1, data: paper.serialize() });
    proof {
        let expected = publish_outcome_of(program_id@, accounts_view(accounts@), data);
        assert(actions_view(actions@) =~= expected->Ok_0);
    }
    Ok(actions)
}

// ---------------------------------------------------------------------------
// Peer review
// ---------------------------------------------------------------------------

/// Peer review. Accounts: the referee (signer), the referee's profile
/// (writable), the paper (writable), the review's derived address (empty,
/// writable), the system program.
pub open spec fn add_review_outcome(
    program_id: Seq<u8>,
    accounts: Seq<AccountModel>,
    data: AddPeerReview,
) -> Result<Seq<ActionModel>, DeResearcherError> {
    review_creation(program_id, accounts, review_of(data), data.meta_data_merkle_root@, data.pda_bump)
}

/// Peer review with the payload's scores, digest and bump.
pub open spec fn review_creation(
    program_id: Seq<u8>,
    accounts: Seq<AccountModel>,
    review: Review,
    meta_data_merkle_root: Seq<char>,
    pda_bump: u8,
) -> Result<Seq<ActionModel>, DeResearcherError> {
    if accounts.len() < 5 {
        Err(DeResearcherError::NotEnoughAccountKeys)
    } else {
        let reviewer = accounts[0];
        let profile = accounts[1];
        let paper = accounts[2];
        let record = accounts[3];
        let stored_pp = stored_paper(paper.data);
        let stored_pr = stored_profile(profile.data);
        let seeds = peer_review_seeds(paper.key, reviewer.key);
        let merkle_root = encode_utf8(meta_data_merkle_root);
        if paper.data.len() == 0 {
            Err(DeResearcherError::PaperNotFound)
        } else if !is_paper_bytes(paper.data) {
            Err(DeResearcherError::SerializationError)
        } else if stored_pp.creator_pubkey@ == reviewer.key {
            Err(DeResearcherError::PublisherCannotAddPeerReview)
        } else if !reviewer.is_signer {
            Err(DeResearcherError::InvalidSigner)
        } else if profile.data.len() == 0 {
            Err(DeResearcherError::ResearcherProfileNotFound)
        } else if !is_profile_bytes(profile.data) {
            Err(DeResearcherError::SerializationError)
        } else if !pda_matches(profile_seeds(reviewer.key), stored_pr.bump, program_id, profile.key) {
            Err(DeResearcherError::PdaPubekyMismatch)
        } else if stored_pr.state != ResearcherProfileState::Approved {
            Err(DeResearcherError::NotAllowedForPeerReview)
        } else if !pda_matches(
            paper_seeds(stored_pp.paper_content_hash@, stored_pp.creator_pubkey@),
            stored_pp.bump,
            program_id,
            paper.key,
        ) {
            Err(DeResearcherError::PdaPubekyMismatch)
        } else if record.data.len() != 0 {
            Err(DeResearcherError::PeerReviewAlreadyExists)
        } else if !derives_to(seeds, program_id, record.key, pda_bump) {
            Err(DeResearcherError::PdaPubekyMismatch)
        } else if !record.is_writable || !paper.is_writable || !profile.is_writable {
            Err(DeResearcherError::ImmutableAccount)
        } else if review_outcome(stored_pp, stored_pr, reviewer.key, review, merkle_root) is Err {
            Err(review_outcome(stored_pp, stored_pr, reviewer.key, review, merkle_root)->Err_0)
        } else {
            Ok(
                seq![
                    ActionModel::CreateAccount {
                        payer: 0,
                        account: 3,
                        space: PEER_REVIEW_SIZE,
                        seeds: seeds.push(seq![pda_bump]),
                    },
                    ActionModel::WriteData {
                        account: 2,
                        data: encode_paper(after_review(stored_pp, review)),
                    },
                    ActionModel::WriteData {
                        account: 3,
                        data: peer_review_bytes(
                            record.key,
                            reviewer.key,
                            paper.key,
                            review,
                            packed(merkle_root),
                            pda_bump,
                        ),
                    },
                    ActionModel::WriteData {
                        account: 1,
                        data: encode_profile(with_review_written(stored_pr)),
                    },
                ],
            )
        }
    }
}

/// Records a peer review of a paper by an approved researcher other than its
/// creator, and updates the paper and the referee's profile with it.
pub fn add_peer_review_ix(
    program_id: &Address,
    accounts: &Vec<AccountView>,
    data: AddPeerReview,
) -> (r: Result<Vec<AccountAction>, DeResearcherError>)
    ensures
        outcome_view(r) == add_review_outcome(program_id@, accounts_view(accounts@), data),
{
    if accounts.len() < 5 {
        return Err(DeResearcherError::NotEnoughAccountKeys);
    }
    let reviewer_acc = &accounts[0];
    let researcher_profile_pda_acc = &accounts[1];
    let paper_pda_acc = &accounts[2];
    let peer_review_pda_acc = &accounts[3];
    assert(accounts_view(accounts@)[0] == reviewer_acc@);
    assert(accounts_view(accounts@)[1] == researcher_profile_pda_acc@);
    assert(accounts_view(accounts@)[2] == paper_pda_acc@);
    assert(accounts_view(accounts@)[3] == peer_review_pda_acc@);
    if paper_pda_acc.data.len() == 0 {
        return Err(DeResearcherError::PaperNotFound);
    }
    let mut paper = ResearchPaper::try_from_slice(paper_pda_acc.data.as_slice())?;
    proof {
        lemma_stored_paper(paper);
    }
    if keys_equal(&paper.creator_pubkey, &reviewer_acc.key) {
        return Err(DeResearcherError::PublisherCannotAddPeerReview);
    }
    if !reviewer_acc.is_signer {
        return Err(DeResearcherError::InvalidSigner);
    }
    if researcher_profile_pda_acc.data.len() == 0 {
        return Err(DeResearcherError::ResearcherProfileNotFound);
    }
    let mut researcher_profile = ResearcherProfile::try_from_slice(
        researcher_profile_pda_acc.data.as_slice(),
    )?;
    proof {
        lemma_stored_profile(researcher_profile);
    }
    validate_pda(
        researcher_profile_seeds(&reviewer_acc.key),
        &researcher_profile_pda_acc.key,
        researcher_profile.bump,
        program_id,
    )?;
    if researcher_profile.state != ResearcherProfileState::Approved {
        return Err(DeResearcherError::NotAllowedForPeerReview);
    }
    validate_pda(
        research_paper_seeds(&paper.paper_content_hash, &paper.creator_pubkey),
        &paper_pda_acc.key,
        paper.bump,
        program_id,
    )?;
    if peer_review_pda_acc.data.len() != 0 {
        return Err(DeResearcherError::PeerReviewAlreadyExists);
    }
    validate_canonical_pda(
        peer_review_pda_seeds(&paper_pda_acc.key, &reviewer_acc.key),
        &peer_review_pda_acc.key,
        data.pda_bump,
        program_id,
    )?;
    if !peer_review_pda_acc.is_writable || !paper_pda_acc.is_writable
        || !researcher_profile_pda_acc.is_writable {
        return Err(DeResearcherError::ImmutableAccount);
    }
    let peer_review = PeerReview::create_new(
        &peer_review_pda_acc.key,
        &reviewer_acc.key,
        &paper_pda_acc.key,
        &data,
        &mut paper,
        &mut researcher_profile,
    )?;
    let mut actions: Vec<AccountAction> = Vec::new();
    actions.push(
        AccountAction::CreateAccount {
            payer: 0,
            account: 3,
            space: PeerReview::size(),
            seeds: with_bump(
                peer_review_pda_seeds(&paper_pda_acc.key, &reviewer_acc.key),
                data.pda_bump,
            ),
        },
    );
    actions.push(AccountAction::WriteData { account: 2, data: paper.serialize() });
    actions.push(AccountAction::WriteData { account: 3, data: peer_review.serialize() });
    actions.push(AccountAction::WriteData { account: 1, data: researcher_profile.serialize() });
    proof {
        let expected = add_review_outcome(program_id@, accounts_view(accounts@), data);
        assert(actions_view(actions@) =~= expected->Ok_0);
    }
    Ok(actions)
}

// ---------------------------------------------------------------------------
// Paid access
// ---------------------------------------------------------------------------

/// The effects of granting access once every check passed: create the access
/// record if there is none, pay the fee if there is one, then store the
/// record, the paper and the reader's profile.
pub open spec fn access_actions(
    accounts: Seq<AccountModel>,
    meta_data_merkle_root: Seq<char>,
    pda_bump: u8,
    paper: ResearchPaper,
    profile: ResearcherProfile,
) -> Seq<ActionModel> {
    let reader = accounts[0];
    let record = accounts[2];
    let create = if record.data.len() == 0 {
        seq![
            ActionModel::CreateAccount {
                payer: 0,
                account: 2,
                space: MINT_COLLECTION_SIZE,
                seeds: mint_collection_seeds(reader.key).push(seq![pda_bump]),
            },
        ]
    } else {
        Seq::empty()
    };
    let pay = if paper.access_fee > 0 {
        seq![ActionModel::Transfer { from: 0, to: 4, lamports: paper.access_fee as u64 }]
    } else {
        Seq::empty()
    };
    create + pay + seq![
        ActionModel::WriteData {
            account: 2,
            data: mint_collection_bytes(
                reader.key,
                packed(encode_utf8(meta_data_merkle_root)),
                pda_bump,
            ),
        },
        ActionModel::WriteData { account: 3, data: encode_paper(after_access(paper)) },
        ActionModel::WriteData { account: 1, data: encode_profile(with_citation(profile)) },
    ]
}

/// Paid access. Accounts: the reader (signer), the reader's profile
/// (writable), the reader's access record address (writable), the paper
/// (writable), the fee receiver, and the system program when the access
/// record is still to be created.
pub open spec fn access_outcome_of(
    program_id: Seq<u8>,
    accounts: Seq<AccountModel>,
    data: MintResearchPaper,
) -> Result<Seq<ActionModel>, DeResearcherError> {
    access_grant(program_id, accounts, data.meta_data_merkle_root@, data.pda_bump)
}

/// Paid access with the payload's digest and bump.
pub open spec fn access_grant(
    program_id: Seq<u8>,
    accounts: Seq<AccountModel>,
    meta_data_merkle_root: Seq<char>,
    pda_bump: u8,
) -> Result<Seq<ActionModel>, DeResearcherError> {
    if accounts.len() < 5 {
        Err(DeResearcherError::NotEnoughAccountKeys)
    } else {
        let reader = accounts[0];
        let profile = accounts[1];
        let record = accounts[2];
        let paper = accounts[3];
        let fee_receiver = accounts[4];
        let stored_pp = stored_paper(paper.data);
        let stored_pr = stored_profile(profile.data);
        let merkle_root = encode_utf8(meta_data_merkle_root);
        if paper.data.len() == 0 {
            Err(DeResearcherError::PaperNotFound)
        } else if !is_paper_bytes(paper.data) {
            Err(DeResearcherError::SerializationError)
        } else if fee_receiver.key != stored_pp.creator_pubkey@ {
            Err(DeResearcherError::InvalidFeeReceiver)
        } else if !derives_to(mint_collection_seeds(reader.key), program_id, record.key, pda_bump) {
            Err(DeResearcherError::PdaPubekyMismatch)
        } else if !reader.is_signer {
            Err(DeResearcherError::InvalidSigner)
        } else if profile.data.len() == 0 {
            Err(DeResearcherError::ResearcherProfileNotFound)
        } else if !is_profile_bytes(profile.data) {
            Err(DeResearcherError::SerializationError)
        } else if !pda_matches(profile_seeds(reader.key), stored_pr.bump, program_id, profile.key) {
            Err(DeResearcherError::PdaPubekyMismatch)
        } else if !pda_matches(
            paper_seeds(stored_pp.paper_content_hash@, stored_pp.creator_pubkey@),
            stored_pp.bump,
            program_id,
            paper.key,
        ) {
            Err(DeResearcherError::PdaPubekyMismatch)
        } else if record.data.len() != 0 && record.data.len() != MINT_COLLECTION_SIZE {
            Err(DeResearcherError::SerializationError)
        } else if record.data.len() == 0 && accounts.len() < 6 {
            Err(DeResearcherError::NotEnoughAccountKeys)
        } else if !record.is_writable || !paper.is_writable || !profile.is_writable {
            Err(DeResearcherError::ImmutableAccount)
        } else if access_outcome(stored_pp, stored_pr, merkle_root) is Err {
            Err(access_outcome(stored_pp, stored_pr, merkle_root)->Err_0)
        } else {
            Ok(access_actions(accounts, meta_data_merkle_root, pda_bump, stored_pp, stored_pr))
        }
    }
}

/// Grants a reader access to a published paper: pays the creator the access
/// fee, creates or refreshes the reader's access record, and counts the
/// citation on the paper and on the reader's profile.
pub fn mint_res_paper_ix(
    program_id: &Address,
    accounts: &Vec<AccountView>,
    data: MintResearchPaper,
) -> (r: Result<Vec<AccountAction>, DeResearcherError>)
    ensures
        outcome_view(r) == access_outcome_of(program_id@, accounts_view(accounts@), data),
{
    if accounts.len() < 5 {
        return Err(DeResearcherError::NotEnoughAccountKeys);
    }
    let reader_acc = &accounts[0];
    let researcher_profile_pda_acc = &accounts[1];
    let research_mint_collection_pda_acc = &accounts[2];
    let paper_pda_acc = &accounts[3];
    let fee_receiver_acc = &accounts[4];
    assert(accounts_view(accounts@)[0] == reader_acc@);
    assert(accounts_view(accounts@)[1] == researcher_profile_pda_acc@);
    assert(accounts_view(accounts@)[2] == research_mint_collection_pda_acc@);
    assert(accounts_view(accounts@)[3] == paper_pda_acc@);
    assert(accounts_view(accounts@)[4] == fee_receiver_acc@);
    if paper_pda_acc.data.len() == 0 {
        return Err(DeResearcherError::PaperNotFound);
    }
    let mut paper = ResearchPaper::try_from_slice(paper_pda_acc.data.as_slice())?;
    proof {
        lemma_stored_paper(paper);
    }
    if !keys_equal(&fee_receiver_acc.key, &paper.creator_pubkey) {
        return Err(DeResearcherError::InvalidFeeReceiver);
    }
    validate_canonical_pda(
        research_mint_collection_seeds(&reader_acc.key),
        &research_mint_collection_pda_acc.key,
        data.pda_bump,
        program_id,
    )?;
    if !reader_acc.is_signer {
        return Err(DeResearcherError::InvalidSigner);
    }
    if researcher_profile_pda_acc.data.len() == 0 {
        return Err(DeResearcherError::ResearcherProfileNotFound);
    }
    let mut researcher_profile = ResearcherProfile::try_from_slice(
        researcher_profile_pda_acc.data.as_slice(),
    )?;
    proof {
        lemma_stored_profile(researcher_profile);
    }
    validate_pda(
        researcher_profile_seeds(&reader_acc.key),
        &researcher_profile_pda_acc.key,
        researcher_profile.bump,
        program_id,
    )?;
    validate_pda(
        research_paper_seeds(&paper.paper_content_hash, &paper.creator_pubkey),
        &paper_pda_acc.key,
        paper.bump,
        program_id,
    )?;
    let record_len = research_mint_collection_pda_acc.data.len();
    if record_len != 0 && record_len != ResearchMintCollection::size() {
        return Err(DeResearcherError::SerializationError);
    }
    if record_len == 0 && accounts.len() < 6 {
        return Err(DeResearcherError::NotEnoughAccountKeys);
    }
    if !research_mint_collection_pda_acc.is_writable || !paper_pda_acc.is_writable
        || !researcher_profile_pda_acc.is_writable {
        return Err(DeResearcherError::ImmutableAccount);
    }
    let ghost paper_before = paper;
    let ghost profile_before = researcher_profile;
    let access_fee = paper.access_fee;
    let record = ResearchMintCollection::mint_paper(
        &reader_acc.key,
        &data,
        &mut paper,
        &mut researcher_profile,
    )?;
    let mut actions: Vec<AccountAction> = Vec::new();
    if record_len == 0 {
        actions.push(
            AccountAction::CreateAccount {
                payer: 0,
                account: 2,
                space: ResearchMintCollection::size(),
                seeds: with_bump(research_mint_collection_seeds(&reader_acc.key), data.pda_bump),
            },
        );
    }
    if access_fee > 0 {
        actions.push(AccountAction::Transfer { from: 0, to: 4, lamports: access_fee as u64 });
    }
    actions.push(AccountAction::WriteData { account: 2, data: record.serialize() });
    actions.push(AccountAction::WriteData { account: 3, data: paper.serialize() });
    actions.push(AccountAction::WriteData { account: 1, data: researcher_profile.serialize() });
    proof {
        let expected = access_actions(
            accounts_view(accounts@),
            data.meta_data_merkle_root@,
            data.pda_bump,
            paper_before,
            profile_before,
        );
        assert(actions_view(actions@) =~= expected);
    }
    Ok(actions)
}

// ---------------------------------------------------------------------------
// Reputation
// ---------------------------------------------------------------------------

/// The reputation oracle's key: the only account allowed to assign
/// reputation.
pub const REPUTATION_CHECKER_ADDR: [u8; 32] = [
    169, 0, 98, 218, 109, 191, 169, 52, 91, 62, 13, 120, 87, 111, 105, 218, 157, 129, 43, 117,
    250, 6, 176, 236, 145, 237, 44, 88, 60, 29, 189, 169,
];

/// Reputation assignment. Accounts: the reputation oracle (signer), the
/// researcher's profile (writable).
pub open spec fn reputation_outcome(
    accounts: Seq<AccountModel>,
    data: CheckAndAssignReputation,
) -> Result<Seq<ActionModel>, DeResearcherError> {
    if accounts.len() < 2 {
        Err(DeResearcherError::NotEnoughAccountKeys)
    } else {
        let checker = accounts[0];
        let profile = accounts[1];
        if profile.data.len() == 0 {
            Err(DeResearcherError::ResearcherProfileNotFound)
        } else if !profile.is_writable {
            Err(DeResearcherError::ImmutableAccount)
        } else if checker.key != REPUTATION_CHECKER_ADDR@ {
            Err(DeResearcherError::InvalidReputationChecker)
        } else if !checker.is_signer {
            Err(DeResearcherError::InvalidSigner)
        } else if !is_profile_bytes(profile.data) {
            Err(DeResearcherError::SerializationError)
        } else if data.reputation > MAX_REPUTATION {
            Err(DeResearcherError::SizeOverflow)
        } else {
            Ok(
                seq![
                    ActionModel::WriteData {
                        account: 1,
                        data: encode_profile(
                            with_reputation(stored_profile(profile.data), data.reputation),
                        ),
                    },
                ],
            )
        }
    }
}

/// Lets the reputation oracle set a researcher's reputation, which approves
/// or rejects them for peer review.
pub fn check_and_assign_reputation_ix(
    accounts: &Vec<AccountView>,
    data: CheckAndAssignReputation,
) -> (r: Result<Vec<AccountAction>, DeResearcherError>)
    ensures
        outcome_view(r) == reputation_outcome(accounts_view(accounts@), data),
{
    if accounts.len() < 2 {
        return Err(DeResearcherError::NotEnoughAccountKeys);
    }
    let reputation_checker_acc = &accounts[0];
    let researcher_profile_pda_acc = &accounts[1];
    assert(accounts_view(accounts@)[0] == reputation_checker_acc@);
    assert(accounts_view(accounts@)[1] == researcher_profile_pda_acc@);
    validate_check_and_assign_reputation_accounts(
        reputation_checker_acc,
        researcher_profile_pda_acc,
    )?;
    let mut researcher_profile = ResearcherProfile::try_from_slice(
        researcher_profile_pda_acc.data.as_slice(),
    )?;
    proof {
        lemma_stored_profile(researcher_profile);
    }
    researcher_profile.assign_reputation(&data)?;
    let mut actions: Vec<AccountAction> = Vec::new();
    actions.push(AccountAction::WriteData { account: 1, data: researcher_profile.serialize() });
    proof {
        let expected = reputation_outcome(accounts_view(accounts@), data);
        assert(actions_view(actions@) =~= expected->Ok_0);
    }
    Ok(actions)
}

/// Checks that the profile exists and is writable, and that the oracle
/// itself signed.
pub fn validate_check_and_assign_reputation_accounts(
    reputation_checker_acc: &AccountView,
    researcher_profile_acc: &AccountView,
) -> (r: Result<(), DeResearcherError>)
    ensures
        r == (if researcher_profile_acc.data@.len() == 0 {
            Err(DeResearcherError::ResearcherProfileNotFound)
        } else if !researcher_profile_acc.is_writable {
            Err(DeResearcherError::ImmutableAccount)
        } else if reputation_checker_acc.key@ != REPUTATION_CHECKER_ADDR@ {
            Err(DeResearcherError::InvalidReputationChecker)
        } else if !reputation_checker_acc.is_signer {
            Err(DeResearcherError::InvalidSigner)
        } else {
            Ok(())
        }),
{
    if researcher_profile_acc.data.len() == 0 {
        return Err(DeResearcherError::ResearcherProfileNotFound);
    }
    if !researcher_profile_acc.is_writable {
        return Err(DeResearcherError::ImmutableAccount);
    }
    let checker = REPUTATION_CHECKER_ADDR;
    if !keys_equal(&reputation_checker_acc.key, &checker) {
        return Err(DeResearcherError::InvalidReputationChecker);
    }
    if !reputation_checker_acc.is_signer {
        return Err(DeResearcherError::InvalidSigner);
    }
    Ok(())
}

// ---------------------------------------------------------------------------
// Properties of the handlers
// ---------------------------------------------------------------------------

/// What the host holds after a successful review: the paper and the
/// referee's profile as updated, and a review record that is not empty.
proof fn lemma_review_effects(program_id: Seq<u8>, accounts: Seq<AccountModel>, first: AddPeerReview)
    requires
        add_review_outcome(program_id, accounts, first) is Ok,
    ensures
        ({
            let after = apply_actions(accounts, add_review_outcome(program_id, accounts, first)->Ok_0);
            let new_paper = after_review(stored_paper(accounts[2].data), review_of(first));
            let new_profile = with_review_written(stored_profile(accounts[1].data));
            &&& after.len() == accounts.len()
            &&& after[0] == accounts[0]
            &&& after[1] == (AccountModel { data: encode_profile(new_profile), ..accounts[1] })
            &&& after[2] == (AccountModel { data: encode_paper(new_paper), ..accounts[2] })
            &&& after[3].key == accounts[3].key
            &&& after[3].data.len() > 0
        }),
{
    let actions = add_review_outcome(program_id, accounts, first)->Ok_0;
    let stored_pp = stored_paper(accounts[2].data);
    let stored_pr = stored_profile(accounts[1].data);
    let new_paper = after_review(stored_pp, review_of(first));
    let new_profile = with_review_written(stored_pr);
    let p0 = actions.subrange(0, 0);
    let p1 = actions.subrange(0, 1);
    let p2 = actions.subrange(0, 2);
    let p3 = actions.subrange(0, 3);
    assert(p1.drop_last() =~= p0);
    assert(p2.drop_last() =~= p1);
    assert(p3.drop_last() =~= p2);
    assert(actions.drop_last() =~= p3);
    assert(apply_actions(accounts, p0) == accounts);
    let s1 = apply_actions(accounts, p1);
    let created = AccountModel { data: zeros(PEER_REVIEW_SIZE as nat), ..accounts[3] };
    assert(s1 == accounts.update(3, created));
    let s2 = apply_actions(accounts, p2);
    assert(s2 == s1.update(2, AccountModel { data: encode_paper(new_paper), ..s1[2] }));
    let s3 = apply_actions(accounts, p3);
    assert(s3 == s2.update(3, AccountModel { data: actions[2]->WriteData_data, ..s2[3] }));
    let after = apply_actions(accounts, actions);
    assert(after == s3.update(1, AccountModel { data: encode_profile(new_profile), ..s3[1] }));
    assert(after[1] == (AccountModel { data: encode_profile(new_profile), ..accounts[1] }));
    assert(after[2] == (AccountModel { data: encode_paper(new_paper), ..accounts[2] }));
}

/// Once a review of a paper by a referee has been stored, a second review
/// naming the same accounts is refused as already existing.
pub proof fn lemma_second_review_refused(
    program_id: Seq<u8>,
    accounts: Seq<AccountModel>,
    first: AddPeerReview,
    second: AddPeerReview,
)
    requires
        add_review_outcome(program_id, accounts, first) is Ok,
    ensures
        add_review_outcome(
            program_id,
            apply_actions(accounts, add_review_outcome(program_id, accounts, first)->Ok_0),
            second,
        ) == Err::<Seq<ActionModel>, DeResearcherError>(DeResearcherError::PeerReviewAlreadyExists),
{
    lemma_review_effects(program_id, accounts, first);
    lemma_stored_paper(after_review(stored_paper(accounts[2].data), review_of(first)));
    lemma_stored_profile(with_review_written(stored_profile(accounts[1].data)));
}

/// At most one review per paper and referee: once a review of a paper by a
/// referee has been stored, every later review of that paper by that
/// referee is refused, whatever bump and review account it names, as long as
/// the account it names holds what the host stored there. Its refusal
/// writes nothing.
pub proof fn lemma_one_review_per_paper_and_referee(
    program_id: Seq<u8>,
    accounts: Seq<AccountModel>,
    first: AddPeerReview,
    later: Seq<AccountModel>,
    second: AddPeerReview,
)
    requires
        add_review_outcome(program_id, accounts, first) is Ok,
        later.len() >= 4,
        later[0].key == accounts[0].key,
        later[2].key == accounts[2].key,
        later[3].key == accounts[3].key ==> later[3].data == apply_actions(
            accounts,
            add_review_outcome(program_id, accounts, first)->Ok_0,
        )[3].data,
    ensures
        add_review_outcome(program_id, later, second) is Err,
{
    lemma_review_effects(program_id, accounts, first);
    if add_review_outcome(program_id, later, second) is Ok {
        let seeds = peer_review_seeds(accounts[2].key, accounts[0].key);
        assert(derives_to(seeds, program_id, accounts[3].key, first.pda_bump));
        assert(derives_to(seeds, program_id, later[3].key, second.pda_bump));
        lemma_canonical_address_unique(
            seeds,
            program_id,
            accounts[3].key,
            first.pda_bump,
            later[3].key,
            second.pda_bump,
        );
        assert(later[3].data.len() == 0);
    }
}

/// At most one profile per owner: once a profile has been created for an
/// owner, every later creation for that owner is refused, whatever bump and
/// profile account it names, as long as the account it names holds what the
/// host stored there.
pub proof fn lemma_one_profile_per_owner(
    program_id: Seq<u8>,
    accounts: Seq<AccountModel>,
    first: CreateResearcherProfile,
    later: Seq<AccountModel>,
    second: CreateResearcherProfile,
)
    requires
        create_profile_outcome(program_id, accounts, first) is Ok,
        later.len() >= 2,
        later[0].key == accounts[0].key,
        later[1].key == accounts[1].key ==> later[1].data == apply_actions(
            accounts,
            create_profile_outcome(program_id, accounts, first)->Ok_0,
        )[1].data,
    ensures
        create_profile_outcome(program_id, later, second) is Err,
{
    let actions = create_profile_outcome(program_id, accounts, first)->Ok_0;
    let p1 = actions.subrange(0, 1);
    let p0 = actions.subrange(0, 0);
    assert(p1.drop_last() =~= p0);
    assert(actions.drop_last() =~= p1);
    assert(apply_actions(accounts, p0) == accounts);
    let s1 = apply_actions(accounts, p1);
    let created = AccountModel { data: zeros(PROFILE_SIZE as nat), ..accounts[1] };
    assert(s1 == accounts.update(1, created));
    let after = apply_actions(accounts, actions);
    assert(after == s1.update(1, AccountModel { data: actions[1]->WriteData_data, ..s1[1] }));
    assert(after[1].data == actions[1]->WriteData_data);
    if create_profile_outcome(program_id, later, second) is Ok {
        let seeds = profile_seeds(accounts[0].key);
        lemma_canonical_address_unique(
            seeds,
            program_id,
            accounts[1].key,
            first.pda_bump,
            later[1].key,
            second.pda_bump,
        );
        assert(later[1].data.len() == 0);
    }
}

/// At most one paper per creator and content hash: once a paper has been
/// created, every later creation by the same creator with the same content
/// hash is refused, whatever bump and paper account it names, as long as the
/// account it names holds what the host stored there.
pub proof fn lemma_one_paper_per_creator_and_hash(
    program_id: Seq<u8>,
    accounts: Seq<AccountModel>,
    first: CreateResearchePaper,
    later: Seq<AccountModel>,
    second: CreateResearchePaper,
)
    requires
        create_paper_outcome(program_id, accounts, first) is Ok,
        later.len() >= 3,
        later[0].key == accounts[0].key,
        second.paper_content_hash@ == first.paper_content_hash@,
        later[2].key == accounts[2].key ==> later[2].data == apply_actions(
            accounts,
            create_paper_outcome(program_id, accounts, first)->Ok_0,
        )[2].data,
    ensures
        create_paper_outcome(program_id, later, second) is Err,
{
    let actions = create_paper_outcome(program_id, accounts, first)->Ok_0;
    let p1 = actions.subrange(0, 1);
    let p2 = actions.subrange(0, 2);
    let p0 = actions.subrange(0, 0);
    assert(p1.drop_last() =~= p0);
    assert(p2.drop_last() =~= p1);
    assert(actions.drop_last() =~= p2);
    assert(apply_actions(accounts, p0) == accounts);
    let s1 = apply_actions(accounts, p1);
    let created = AccountModel { data: zeros(PAPER_SIZE as nat), ..accounts[2] };
    assert(s1 == accounts.update(2, created));
    let s2 = apply_actions(accounts, p2);
    assert(s2 == s1.update(2, AccountModel { data: actions[1]->WriteData_data, ..s1[2] }));
    let after = apply_actions(accounts, actions);
    assert(after == s2.update(1, AccountModel { data: actions[2]->WriteData_data, ..s2[1] }));
    assert(after[2].data == actions[1]->WriteData_data);
    if create_paper_outcome(program_id, later, second) is Ok {
        let seeds = paper_seeds(packed(encode_utf8(first.paper_content_hash@)), accounts[0].key);
        lemma_canonical_address_unique(
            seeds,
            program_id,
            accounts[2].key,
            first.pda_bump,
            later[2].key,
            second.pda_bump,
        );
        assert(later[2].data.len() == 0);
    }
}

/// A referee who created the paper is refused whatever the scores, once the
/// paper itself can be read.
pub proof fn lemma_self_review_refused(
    program_id: Seq<u8>,
    accounts: Seq<AccountModel>,
    data: AddPeerReview,
)
    requires
        accounts.len() >= 5,
        is_paper_bytes(accounts[2].data),
        stored_paper(accounts[2].data).creator_pubkey@ == accounts[0].key,
    ensures
        add_review_outcome(program_id, accounts, data) == Err::<Seq<ActionModel>, DeResearcherError>(
            DeResearcherError::PublisherCannotAddPeerReview,
        ),
{
}

/// Access with a fee receiver other than the paper's creator is refused, and
/// then nothing is written, once the paper itself can be read.
pub proof fn lemma_wrong_fee_receiver_refused(
    program_id: Seq<u8>,
    accounts: Seq<AccountModel>,
    data: MintResearchPaper,
)
    requires
        accounts.len() >= 5,
        is_paper_bytes(accounts[3].data),
        accounts[4].key != stored_paper(accounts[3].data).creator_pubkey@,
    ensures
        access_outcome_of(program_id, accounts, data) == Err::<Seq<ActionModel>, DeResearcherError>(
            DeResearcherError::InvalidFeeReceiver,
        ),
{
}

// ---------------------------------------------------------------------------
// Dispatch
// ---------------------------------------------------------------------------

/// The outcome of an instruction that was read from its bytes.
#[verifier::opaque]
pub open spec fn instruction_outcome(
    program_id: Seq<u8>,
    accounts: Seq<AccountModel>,
    ix: DeResearcherInstruction,
) -> Result<Seq<ActionModel>, DeResearcherError> {
    match ix {
        DeResearcherInstruction::CreateResearcherProfile(d) => create_profile_outcome(
            program_id,
            accounts,
            d,
        ),
        DeResearcherInstruction::CreateResearchePaper(d) => create_paper_outcome(
            program_id,
            accounts,
            d,
        ),
        DeResearcherInstruction::PublishPaper(d) => publish_outcome_of(program_id, accounts, d),
        DeResearcherInstruction::AddPeerReview(d) => add_review_outcome(program_id, accounts, d),
        DeResearcherInstruction::MintResearchPaper(d) => access_outcome_of(program_id, accounts, d),
        DeResearcherInstruction::CheckAndAssignReputation(d) => reputation_outcome(accounts, d),
    }
}

/// Instructions with the same operation, texts and numbers have the same
/// outcome.
proof fn lemma_same_payload_same_outcome(
    program_id: Seq<u8>,
    accounts: Seq<AccountModel>,
    x: DeResearcherInstruction,
    y: DeResearcherInstruction,
)
    requires
        same_payload(x, y),
    ensures
        instruction_outcome(program_id, accounts, x) == instruction_outcome(program_id, accounts, y),
{
    reveal(instruction_outcome);
    match (x, y) {
        (DeResearcherInstruction::AddPeerReview(a), DeResearcherInstruction::AddPeerReview(b)) => {
            assert(review_of(a) == review_of(b));
        },
        _ => {},
    }
}

/// Every instruction with the bytes of `decoded` has its outcome.
proof fn lemma_outcome_determined_by_bytes(
    program_id: Seq<u8>,
    accounts: Seq<AccountModel>,
    decoded: DeResearcherInstruction,
)
    requires
        fields_fit(decoded),
    ensures
        forall|ix: DeResearcherInstruction|
            #[trigger] encode_instruction(ix) == encode_instruction(decoded) && fields_fit(ix)
                ==> instruction_outcome(program_id, accounts, ix) == instruction_outcome(
                program_id,
                accounts,
                decoded,
            ),
{
    assert forall|ix: DeResearcherInstruction|
        #[trigger] encode_instruction(ix) == encode_instruction(decoded) && fields_fit(
            ix,
        ) implies instruction_outcome(program_id, accounts, ix) == instruction_outcome(
        program_id,
        accounts,
        decoded,
    ) by {
        lemma_instruction_encoding_injective(decoded, ix);
        lemma_same_payload_same_outcome(program_id, accounts, decoded, ix);
    }
}

/// The program's entry: reads the instruction and runs its handler.
pub struct Processor {}

impl Processor {
    /// Reads the instruction from `instruction_data` and runs exactly one
    /// handler on `accounts`, passing its outcome on unchanged; bytes that are
    /// not an instruction are refused.
    pub fn process_ix(
        program_id: &Address,
        accounts: &Vec<AccountView>,
        instruction_data: &[u8],
    ) -> (r: Result<Vec<AccountAction>, DeResearcherError>)
        ensures
            !instruction_parses(instruction_data@) ==> fails_with(
                r,
                DeResearcherError::InvalidInstruction,
            ),
            instruction_parses(instruction_data@) ==> exists|ix: DeResearcherInstruction|
                #[trigger] encode_instruction(ix) == instruction_data@ && fields_fit(ix),
            forall|ix: DeResearcherInstruction|
                #[trigger] encode_instruction(ix) == instruction_data@ && fields_fit(ix)
                    ==> outcome_view(r) == instruction_outcome(
                    program_id@,
                    accounts_view(accounts@),
                    ix,
                ),
    {
        let instruction = match DeResearcherInstruction::try_from_slice(instruction_data) {
            Ok(ix) => ix,
            Err(e) => {
                proof {
                    assert forall|ix: DeResearcherInstruction|
                        #[trigger] encode_instruction(ix) == instruction_data@ implies !fields_fit(
                        ix,
                    ) by {
                        if fields_fit(ix) {
                            lemma_encoded_instruction_parses(ix);
                        }
                    }
                }
                return Err(e);
            },
        };
        let ghost decoded = instruction;
        let r = Self::run(program_id, accounts, instruction);
        proof {
            lemma_outcome_determined_by_bytes(program_id@, accounts_view(accounts@), decoded);
        }
        r
    }

    /// Runs the handler of `instruction`.
    fn run(
        program_id: &Address,
        accounts: &Vec<AccountView>,
        instruction: DeResearcherInstruction,
    ) -> (r: Result<Vec<AccountAction>, DeResearcherError>)
        ensures
            outcome_view(r) == instruction_outcome(program_id@, accounts_view(accounts@), instruction),
    {
        reveal(instruction_outcome);
        match instruction {
            DeResearcherInstruction::CreateResearcherProfile(data) => {
                create_researcher_profile_ix(program_id, accounts, data)
            },
            DeResearcherInstruction::CreateResearchePaper(data) => {
                create_research_paper_ix(program_id, accounts, data)
            },
            DeResearcherInstruction::PublishPaper(data) => {
                publish_paper_ix(program_id, accounts, data)
            },
            DeResearcherInstruction::AddPeerReview(data) => {
                add_peer_review_ix(program_id, accounts, data)
            },
            DeResearcherInstruction::MintResearchPaper(data) => {
                mint_res_paper_ix(program_id, accounts, data)
            },
            DeResearcherInstruction::CheckAndAssignReputation(data) => {
                check_and_assign_reputation_ix(accounts, data)
            },
        }
    }
}

} // verus!
