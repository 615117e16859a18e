use vstd::prelude::*;
use vstd::utf8::encode_utf8;

use crate::error::{fails_with, DeResearcherError};
use crate::instruction::{
    AddPeerReview, CheckAndAssignReputation, CreateResearchePaper, CreateResearcherProfile,
    MintResearchPaper,
};
use crate::state::{
    approves, average_of, checked_string_convt_to_64_bytes, packed, paper_state_tag,
    scores_in_range, zeros,
    Address, PaperState, PeerReview, ResearchMintCollection, ResearchPaper, ResearcherProfile,
    ResearcherProfileState, Review, MAX_REPUTATION, MAX_STRING_SIZE, MIN_APPROVALS_FOR_PUBLISH,
    MIN_REPUTATION_FOR_PEER_REVIEW,
};

verus! {

// ---------------------------------------------------------------------------
// Transitions of a profile
// ---------------------------------------------------------------------------

/// The profile after the oracle assigns `reputation`: above 50 approves the
/// researcher for peer review, anything else rejects them.
pub open spec fn with_reputation(p: ResearcherProfile, reputation: u8) -> ResearcherProfile {
    ResearcherProfile {
        reputation,
        state: if reputation > MIN_REPUTATION_FOR_PEER_REVIEW {
            ResearcherProfileState::Approved
        } else {
            ResearcherProfileState::Rejected
        },
        ..p
    }
}

/// The profile after its owner creates one more paper.
pub open spec fn with_paper_published(p: ResearcherProfile) -> ResearcherProfile {
    ResearcherProfile { total_papers_published: (p.total_papers_published + 1) as u64, ..p }
}

/// The profile after its owner writes one more review.
pub open spec fn with_review_written(p: ResearcherProfile) -> ResearcherProfile {
    ResearcherProfile { total_reviews: (p.total_reviews + 1) as u64, ..p }
}

/// The profile after its owner gains access to one more paper.
pub open spec fn with_citation(p: ResearcherProfile) -> ResearcherProfile {
    ResearcherProfile { total_citations: (p.total_citations + 1) as u64, ..p }
}

/// Whether `p` was created for `owner` at `address` with this name and bump:
/// awaiting approval, every counter and the reputation zero.
pub open spec fn is_fresh_profile(
    p: ResearcherProfile,
    address: Seq<u8>,
    owner: Seq<u8>,
    name: Seq<u8>,
    bump: u8,
) -> bool {
    &&& p.address@ == address
    &&& p.researcher_pubkey@ == owner
    &&& p.name@ == packed(name)
    &&& p.state == ResearcherProfileState::AwaitingApproval
    &&& p.total_papers_published == 0
    &&& p.total_citations == 0
    &&& p.total_reviews == 0
    &&& p.reputation == 0
    &&& p.meta_data_merkle_root@ == zeros(64)
    &&& p.bump == bump
}

// ---------------------------------------------------------------------------
// Transitions of a paper
// ---------------------------------------------------------------------------

/// The state of a paper after a review that leaves it with `approvals`
/// approvals: a paper awaiting review enters review, and one that has not yet
/// been approved becomes ready to publish once it has enough approvals.
/// States never move backward.
pub open spec fn reviewed_state(state: PaperState, approvals: int) -> PaperState {
    let s = if state == PaperState::AwaitingPeerReview {
        PaperState::InPeerReview
    } else {
        state
    };
    if approvals >= MIN_APPROVALS_FOR_PUBLISH && paper_state_tag(s) < paper_state_tag(
        PaperState::ApprovedToPublish,
    ) {
        PaperState::ApprovedToPublish
    } else {
        s
    }
}

/// The paper after `review`: one more approval when the review approves, the
/// state moved on, one more citation.
pub open spec fn after_review(p: ResearchPaper, review: Review) -> ResearchPaper {
    let approvals: int = if approves(review) {
        p.total_approvals + 1
    } else {
        p.total_approvals as int
    };
    ResearchPaper {
        total_approvals: approvals as u8,
        state: reviewed_state(p.state, approvals),
        total_citations: (p.total_citations + 1) as u64,
        ..p
    }
}

/// The paper after a reader gains access: one more citation and one more mint.
pub open spec fn after_access(p: ResearchPaper) -> ResearchPaper {
    ResearchPaper {
        total_citations: (p.total_citations + 1) as u64,
        total_mints: (p.total_mints + 1) as u64,
        ..p
    }
}

/// Whether `p` was created by `creator` at `address` with this content hash,
/// digest, fee and bump: awaiting review, version and every counter zero.
pub open spec fn is_fresh_paper(
    p: ResearchPaper,
    address: Seq<u8>,
    creator: Seq<u8>,
    content_hash: Seq<u8>,
    merkle_root: Seq<u8>,
    access_fee: u32,
    bump: u8,
) -> bool {
    &&& p.address@ == address
    &&& p.creator_pubkey@ == creator
    &&& p.state == PaperState::AwaitingPeerReview
    &&& p.access_fee == access_fee
    &&& p.version == 0
    &&& p.paper_content_hash@ == packed(content_hash)
    &&& p.total_approvals == 0
    &&& p.total_citations == 0
    &&& p.total_mints == 0
    &&& p.meta_data_merkle_root@ == packed(merkle_root)
    &&& p.bump == bump
}

/// Whether publication by `publisher` is refused, and with which error: only
/// the creator may publish, and only a paper that is ready to publish; one
/// still short of approvals is told so.
pub open spec fn publish_outcome(p: ResearchPaper, publisher: Seq<u8>) -> Result<(), DeResearcherError> {
    if p.creator_pubkey@ != publisher {
        Err(DeResearcherError::PubkeyMismatch)
    } else if p.state == PaperState::ApprovedToPublish {
        Ok(())
    } else if paper_state_tag(p.state) < paper_state_tag(PaperState::ApprovedToPublish) {
        Err(DeResearcherError::NotEnoughApprovals)
    } else {
        Err(DeResearcherError::InvalidState)
    }
}

/// Whether a review is refused, and with which error: no one reviews their own
/// paper, only approved researchers review, every score is within 0..=100, the
/// digest fits its field, and no counter may overflow.
pub open spec fn review_outcome(
    paper: ResearchPaper,
    profile: ResearcherProfile,
    reviewer: Seq<u8>,
    review: Review,
    merkle_root: Seq<u8>,
) -> Result<(), DeResearcherError> {
    if paper.creator_pubkey@ == reviewer {
        Err(DeResearcherError::PublisherCannotAddPeerReview)
    } else if profile.state != ResearcherProfileState::Approved {
        Err(DeResearcherError::NotAllowedForPeerReview)
    } else if !scores_in_range(review) || merkle_root.len() > MAX_STRING_SIZE {
        Err(DeResearcherError::SizeOverflow)
    } else if (approves(review) && paper.total_approvals == u8::MAX) || paper.total_citations
        == u64::MAX || profile.total_reviews == u64::MAX {
        Err(DeResearcherError::SizeOverflow)
    } else {
        Ok(())
    }
}

/// Whether access is refused, and with which error: only a published paper
/// may be accessed, the digest fits its field, and no counter may overflow.
pub open spec fn access_outcome(
    paper: ResearchPaper,
    profile: ResearcherProfile,
    merkle_root: Seq<u8>,
) -> Result<(), DeResearcherError> {
    if paper.state != PaperState::Published {
        Err(DeResearcherError::InvalidState)
    } else if merkle_root.len() > MAX_STRING_SIZE {
        Err(DeResearcherError::SizeOverflow)
    } else if paper.total_citations == u64::MAX || paper.total_mints == u64::MAX
        || profile.total_citations == u64::MAX {
        Err(DeResearcherError::SizeOverflow)
    } else {
        Ok(())
    }
}

/// The review that a payload carries.
pub open spec fn review_of(data: AddPeerReview) -> Review {
    Review {
        quality_of_research: data.quality_of_research,
        potential_for_real_world_use_case: data.potential_for_real_world_use_case,
        domain_knowledge: data.domain_knowledge,
        practicality_of_result_obtained: data.practicality_of_result_obtained,
    }
}

impl AddPeerReview {
    /// The review that this payload carries.
    pub fn review(&self) -> (r: Review)
        ensures
            r == review_of(*self),
    {
        Review {
            quality_of_research: self.quality_of_research,
            potential_for_real_world_use_case: self.potential_for_real_world_use_case,
            domain_knowledge: self.domain_knowledge,
            practicality_of_result_obtained: self.practicality_of_result_obtained,
        }
    }
}

impl ResearcherProfile {
    /// A new profile for `researcher_pubkey` at `address`, awaiting approval
    /// with every counter at zero; a name longer than 64 bytes is refused.
    /// The payload's digest is not stored: a new profile's digest is zero.
    pub fn create_new(
        address: &Address,
        researcher_pubkey: &Address,
        data: &CreateResearcherProfile,
    ) -> (r: Result<ResearcherProfile, DeResearcherError>)
        ensures
            r is Err <==> encode_utf8(data.name@).len() > MAX_STRING_SIZE,
            r is Err ==> fails_with(r, DeResearcherError::SizeOverflow),
            r is Ok ==> is_fresh_profile(
                r->Ok_0,
                address@,
                researcher_pubkey@,
                encode_utf8(data.name@),
                data.pda_bump,
            ),
    {
        let name_bytes = checked_string_convt_to_64_bytes(data.name.as_str())?;
        let researcher_profile = ResearcherProfile {
            address: *address,
            researcher_pubkey: *researcher_pubkey,
            name: name_bytes,
            state: ResearcherProfileState::AwaitingApproval,
            total_papers_published: 0,
            total_citations: 0,
            total_reviews: 0,
            reputation: 0,
            meta_data_merkle_root: [0u8; 64],
            bump: data.pda_bump,
        };
        assert(researcher_profile.meta_data_merkle_root@ =~= zeros(64));
        Ok(researcher_profile)
    }

    /// Sets the reputation the oracle assigned and approves or rejects the
    /// researcher by it; a reputation above 100 is refused.
    pub fn assign_reputation(&mut self, data: &CheckAndAssignReputation) -> (r: Result<
        (),
        DeResearcherError,
    >)
        ensures
            data.reputation > MAX_REPUTATION ==> fails_with(r, DeResearcherError::SizeOverflow)
                && *final(self) == *old(self),
            data.reputation <= MAX_REPUTATION ==> r is Ok && *final(self) == with_reputation(
                *old(self),
                data.reputation,
            ),
    {
        if data.reputation > MAX_REPUTATION {
            return Err(DeResearcherError::SizeOverflow);
        }
        self.reputation = data.reputation;
        if data.reputation > MIN_REPUTATION_FOR_PEER_REVIEW {
            self.state = ResearcherProfileState::Approved;
        } else {
            self.state = ResearcherProfileState::Rejected;
        }
        Ok(())
    }
}

impl ResearchPaper {
    /// A new paper by `creator` at `address`, awaiting review with every
    /// counter at zero, and one more paper on the creator's profile. A content
    /// hash or digest longer than 64 bytes, or a full counter, is refused and
    /// leaves the profile as it was.
    pub fn create_new(
        address: &Address,
        creator: &Address,
        data: &CreateResearchePaper,
        profile: &mut ResearcherProfile,
    ) -> (r: Result<ResearchPaper, DeResearcherError>)
        ensures
            r is Err <==> encode_utf8(data.paper_content_hash@).len() > MAX_STRING_SIZE
                || encode_utf8(data.meta_data_merkle_root@).len() > MAX_STRING_SIZE
                || old(profile).total_papers_published == u64::MAX,
            r is Err ==> fails_with(r, DeResearcherError::SizeOverflow) && *final(profile) == *old(
                profile,
            ),
            r is Ok ==> is_fresh_paper(
                r->Ok_0,
                address@,
                creator@,
                encode_utf8(data.paper_content_hash@),
                encode_utf8(data.meta_data_merkle_root@),
                data.access_fee,
                data.pda_bump,
            ) && *final(profile) == with_paper_published(*old(profile)),
    {
        let content_hash_bytes = checked_string_convt_to_64_bytes(
            data.paper_content_hash.as_str(),
        )?;
        let merkle_root_bytes = checked_string_convt_to_64_bytes(
            data.meta_data_merkle_root.as_str(),
        )?;
        if profile.total_papers_published == u64::MAX {
            return Err(DeResearcherError::SizeOverflow);
        }
        let research_paper = ResearchPaper {
            address: *address,
            creator_pubkey: *creator,
            state: PaperState::AwaitingPeerReview,
            access_fee: data.access_fee,
            version: 0,
            paper_content_hash: content_hash_bytes,
            total_approvals: 0,
            total_citations: 0,
            total_mints: 0,
            meta_data_merkle_root: merkle_root_bytes,
            bump: data.pda_bump,
        };
        profile.total_papers_published = profile.total_papers_published + 1;
        Ok(research_paper)
    }

    /// Publishes the paper on behalf of `publisher`: only its creator may, and
    /// only once it is ready to publish. A refusal leaves it as it was.
    pub fn publish_paper(&mut self, publisher: &Address) -> (r: Result<(), DeResearcherError>)
        ensures
            r == publish_outcome(*old(self), publisher@),
            r is Ok ==> *final(self) == (ResearchPaper { state: PaperState::Published, ..*old(self) }),
            r is Err ==> *final(self) == *old(self),
    {
        if !crate::bytes::keys_equal(&self.creator_pubkey, publisher) {
            return Err(DeResearcherError::PubkeyMismatch);
        }
        match self.state {
            PaperState::ApprovedToPublish => {
                self.state = PaperState::Published;
                Ok(())
            },
            PaperState::AwaitingPeerReview | PaperState::InPeerReview => Err(
                DeResearcherError::NotEnoughApprovals,
            ),
            _ => Err(DeResearcherError::InvalidState),
        }
    }
}

impl PeerReview {
    /// Records a review of the paper at `paper_address`: the paper
    /// gains a citation, and an approval when the average score is above 50,
    /// and moves on in its lifecycle; the referee's profile gains a review.
    /// A refusal, for the reasons `review_outcome` gives, changes nothing.
    pub fn create_new(
        address: &Address,
        reviewer: &Address,
        paper_address: &Address,
        data: &AddPeerReview,
        paper: &mut ResearchPaper,
        profile: &mut ResearcherProfile,
    ) -> (r: Result<PeerReview, DeResearcherError>)
        ensures
            r is Err <==> review_outcome(
                *old(paper),
                *old(profile),
                reviewer@,
                review_of(*data),
                encode_utf8(data.meta_data_merkle_root@),
            ) is Err,
            r is Err ==> r->Err_0 == review_outcome(
                *old(paper),
                *old(profile),
                reviewer@,
                review_of(*data),
                encode_utf8(data.meta_data_merkle_root@),
            )->Err_0 && *final(paper) == *old(paper) && *final(profile) == *old(profile),
            r is Ok ==> {
                &&& *final(paper) == after_review(*old(paper), review_of(*data))
                &&& *final(profile) == with_review_written(*old(profile))
                &&& r->Ok_0.address == *address
                &&& r->Ok_0.reviewer_pubkey == *reviewer
                &&& r->Ok_0.paper_pubkey == *paper_address
                &&& r->Ok_0.review == review_of(*data)
                &&& r->Ok_0.meta_data_merkle_root@ == packed(
                    encode_utf8(data.meta_data_merkle_root@),
                )
                &&& r->Ok_0.bump == data.pda_bump
            },
    {
        if crate::bytes::keys_equal(&paper.creator_pubkey, reviewer) {
            return Err(DeResearcherError::PublisherCannotAddPeerReview);
        }
        if profile.state != ResearcherProfileState::Approved {
            return Err(DeResearcherError::NotAllowedForPeerReview);
        }
        let review = data.review();
        if !review.is_in_range() {
            return Err(DeResearcherError::SizeOverflow);
        }
        let merkle_root_bytes = checked_string_convt_to_64_bytes(
            data.meta_data_merkle_root.as_str(),
        )?;
        let approval = review.is_approval();
        if (approval && paper.total_approvals == u8::MAX) || paper.total_citations == u64::MAX
            || profile.total_reviews == u64::MAX {
            return Err(DeResearcherError::SizeOverflow);
        }
        let peer_review = PeerReview {
            address: *address,
            reviewer_pubkey: *reviewer,
            paper_pubkey: *paper_address,
            review,
            meta_data_merkle_root: merkle_root_bytes,
            bump: data.pda_bump,
        };
        if paper.state == PaperState::AwaitingPeerReview {
            paper.state = PaperState::InPeerReview;
        }
        if approval {
            paper.total_approvals = paper.total_approvals + 1;
        }
        if paper.total_approvals >= MIN_APPROVALS_FOR_PUBLISH && (paper.state
            == PaperState::AwaitingPeerReview || paper.state == PaperState::InPeerReview) {
            paper.state = PaperState::ApprovedToPublish;
        }
        paper.total_citations = paper.total_citations + 1;
        profile.total_reviews = profile.total_reviews + 1;
        Ok(peer_review)
    }
}

impl ResearchMintCollection {
    /// Grants `reader` access to a published paper: the access record holds
    /// the reader and the digest, the paper gains a citation and a mint, and
    /// the reader's profile a citation. A refusal, for the reasons
    /// `access_outcome` gives, changes nothing.
    pub fn mint_paper(
        reader: &Address,
        data: &MintResearchPaper,
        paper: &mut ResearchPaper,
        profile: &mut ResearcherProfile,
    ) -> (r: Result<ResearchMintCollection, DeResearcherError>)
        ensures
            r is Err <==> access_outcome(
                *old(paper),
                *old(profile),
                encode_utf8(data.meta_data_merkle_root@),
            ) is Err,
            r is Err ==> r->Err_0 == access_outcome(
                *old(paper),
                *old(profile),
                encode_utf8(data.meta_data_merkle_root@),
            )->Err_0 && *final(paper) == *old(paper) && *final(profile) == *old(profile),
            r is Ok ==> {
                &&& *final(paper) == after_access(*old(paper))
                &&& *final(profile) == with_citation(*old(profile))
                &&& r->Ok_0.reader_pubkey == *reader
                &&& r->Ok_0.data_merkle_root@ == packed(encode_utf8(data.meta_data_merkle_root@))
                &&& r->Ok_0.bump == data.pda_bump
            },
    {
        if paper.state != PaperState::Published {
            return Err(DeResearcherError::InvalidState);
        }
        let merkle_root_bytes = checked_string_convt_to_64_bytes(
            data.meta_data_merkle_root.as_str(),
        )?;
        if paper.total_citations == u64::MAX || paper.total_mints == u64::MAX
            || profile.total_citations == u64::MAX {
            return Err(DeResearcherError::SizeOverflow);
        }
        paper.total_citations = paper.total_citations + 1;
        paper.total_mints = paper.total_mints + 1;
        profile.total_citations = profile.total_citations + 1;
        Ok(
            ResearchMintCollection {
                reader_pubkey: *reader,
                data_merkle_root: merkle_root_bytes,
                bump: data.pda_bump,
            },
        )
    }
}

// ---------------------------------------------------------------------------
// Counters only grow
// ---------------------------------------------------------------------------

/// Whether every counter of profile `b` is at least that of profile `a`.
pub open spec fn profile_counters_le(a: ResearcherProfile, b: ResearcherProfile) -> bool {
    &&& a.total_papers_published <= b.total_papers_published
    &&& a.total_citations <= b.total_citations
    &&& a.total_reviews <= b.total_reviews
}

/// Whether every counter of paper `b` is at least that of paper `a`, and its
/// state no earlier in the lifecycle.
pub open spec fn paper_progress_le(a: ResearchPaper, b: ResearchPaper) -> bool {
    &&& paper_state_tag(a.state) <= paper_state_tag(b.state)
    &&& a.total_approvals <= b.total_approvals
    &&& a.total_citations <= b.total_citations
    &&& a.total_mints <= b.total_mints
}

/// Whether `b` is what one successful operation makes of profile `a`.
pub open spec fn profile_step(a: ResearcherProfile, b: ResearcherProfile) -> bool {
    ||| exists|rep: u8| rep <= MAX_REPUTATION && b == #[trigger] with_reputation(a, rep)
    ||| a.total_papers_published < u64::MAX && b == with_paper_published(a)
    ||| a.total_reviews < u64::MAX && b == with_review_written(a)
    ||| a.total_citations < u64::MAX && b == with_citation(a)
}

/// Whether `b` is what one successful operation makes of paper `a`.
pub open spec fn paper_step(a: ResearchPaper, b: ResearchPaper) -> bool {
    ||| exists|r: Review|
        (!approves(r) || a.total_approvals < u8::MAX) && a.total_citations < u64::MAX && b
            == #[trigger] after_review(a, r)
    ||| a.state == PaperState::ApprovedToPublish && b == (ResearchPaper {
        state: PaperState::Published,
        ..a
    })
    ||| a.total_citations < u64::MAX && a.total_mints < u64::MAX && b == after_access(a)
}

/// Over any sequence of successful operations, no counter of a profile ever
/// decreases.
pub proof fn lemma_profile_counters_never_decrease(trace: Seq<ResearcherProfile>)
    requires
        forall|i: int| 0 <= i < trace.len() - 1 ==> profile_step(#[trigger] trace[i], trace[i + 1]),
    ensures
        forall|i: int, j: int|
            0 <= i <= j < trace.len() ==> profile_counters_le(#[trigger] trace[i], #[trigger] trace[j]),
    decreases trace.len(),
{
    if trace.len() > 1 {
        let front = trace.drop_last();
        assert forall|i: int| 0 <= i < front.len() - 1 implies profile_step(
            #[trigger] front[i],
            front[i + 1],
        ) by {
            assert(front[i] == trace[i] && front[i + 1] == trace[i + 1]);
        }
        lemma_profile_counters_never_decrease(front);
        let n = trace.len() - 1;
        assert(profile_step(trace[n - 1], trace[n]));
        assert forall|i: int, j: int| 0 <= i <= j < trace.len() implies profile_counters_le(
            #[trigger] trace[i],
            #[trigger] trace[j],
        ) by {
            if j < n {
                assert(front[i] == trace[i] && front[j] == trace[j]);
            } else if i < n {
                assert(front[i] == trace[i] && front[n - 1] == trace[n - 1]);
                assert(profile_counters_le(trace[i], trace[n - 1]));
            }
        }
    }
}

/// Over any sequence of successful operations, no counter of a paper ever
/// decreases and its state never moves backward.
pub proof fn lemma_paper_counters_never_decrease(trace: Seq<ResearchPaper>)
    requires
        forall|i: int| 0 <= i < trace.len() - 1 ==> paper_step(#[trigger] trace[i], trace[i + 1]),
    ensures
        forall|i: int, j: int|
            0 <= i <= j < trace.len() ==> paper_progress_le(#[trigger] trace[i], #[trigger] trace[j]),
    decreases trace.len(),
{
    if trace.len() > 1 {
        let front = trace.drop_last();
        assert forall|i: int| 0 <= i < front.len() - 1 implies paper_step(
            #[trigger] front[i],
            front[i + 1],
        ) by {
            assert(front[i] == trace[i] && front[i + 1] == trace[i + 1]);
        }
        lemma_paper_counters_never_decrease(front);
        let n = trace.len() - 1;
        assert(paper_step(trace[n - 1], trace[n]));
        assert forall|i: int, j: int| 0 <= i <= j < trace.len() implies paper_progress_le(
            #[trigger] trace[i],
            #[trigger] trace[j],
        ) by {
            if j < n {
                assert(front[i] == trace[i] && front[j] == trace[j]);
            } else if i < n {
                assert(front[i] == trace[i] && front[n - 1] == trace[n - 1]);
                assert(paper_progress_le(trace[i], trace[n - 1]));
            }
        }
    }
}

/// Whether a profile's reputation is within the oracle's scale.
pub open spec fn profile_wf(p: ResearcherProfile) -> bool {
    p.reputation <= MAX_REPUTATION
}

/// A new profile is well formed, and every successful operation keeps it so.
pub proof fn lemma_profile_wf_preserved(
    a: ResearcherProfile,
    b: ResearcherProfile,
    address: Seq<u8>,
    owner: Seq<u8>,
    name: Seq<u8>,
    bump: u8,
)
    ensures
        is_fresh_profile(a, address, owner, name, bump) ==> profile_wf(a),
        profile_wf(a) && profile_step(a, b) ==> profile_wf(b),
{
}

/// A review adds an approval exactly when its truncated average is above 50,
/// and adds one citation whatever its scores.
pub proof fn lemma_approval_only_above_threshold(p: ResearchPaper, r: Review)
    requires
        p.total_approvals < u8::MAX,
        p.total_citations < u64::MAX,
    ensures
        after_review(p, r).total_approvals == p.total_approvals + 1 <==> average_of(r) > 50,
        after_review(p, r).total_approvals == p.total_approvals <==> average_of(r) <= 50,
        after_review(p, r).total_citations == p.total_citations + 1,
{
}

/// A review is accepted when the referee is not the creator, the referee is
/// approved, the scores are within 0..=100, the digest fits, and no counter
/// is at its maximum.
pub proof fn lemma_review_accepted(
    paper: ResearchPaper,
    profile: ResearcherProfile,
    reviewer: Seq<u8>,
    review: Review,
    merkle_root: Seq<u8>,
)
    requires
        paper.creator_pubkey@ != reviewer,
        profile.state == ResearcherProfileState::Approved,
        scores_in_range(review),
        merkle_root.len() <= MAX_STRING_SIZE,
        paper.total_approvals < u8::MAX,
        paper.total_citations < u64::MAX,
        profile.total_reviews < u64::MAX,
    ensures
        review_outcome(paper, profile, reviewer, review, merkle_root) is Ok,
{
}

/// A new paper's first review: an approving one leaves it with one approval
/// and one citation, ready to publish, and its creator may publish it; any
/// other leaves it in review, and publication is refused for want of
/// approvals.
pub proof fn lemma_first_review_of_new_paper(p: ResearchPaper, r: Review)
    requires
        p.state == PaperState::AwaitingPeerReview,
        p.total_approvals == 0,
        p.total_citations == 0,
    ensures
        after_review(p, r).total_citations == 1,
        approves(r) ==> after_review(p, r).total_approvals == 1 && after_review(p, r).state
            == PaperState::ApprovedToPublish && publish_outcome(
            after_review(p, r),
            p.creator_pubkey@,
        ) is Ok,
        !approves(r) ==> after_review(p, r).total_approvals == 0 && after_review(p, r).state
            == PaperState::InPeerReview && publish_outcome(after_review(p, r), p.creator_pubkey@)
            == Err::<(), DeResearcherError>(DeResearcherError::NotEnoughApprovals),
{
}

} // verus!
