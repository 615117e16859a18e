use vstd::bytes::{
    lemma_auto_spec_u32_to_from_le_bytes, lemma_auto_spec_u64_to_from_le_bytes,
    spec_u32_to_le_bytes, spec_u64_to_le_bytes, u32_from_le_bytes, u32_to_le_bytes,
    u64_from_le_bytes, u64_to_le_bytes,
};
use vstd::prelude::*;
use vstd::slice::slice_subrange;
use vstd::utf8::{
    decode_utf8, encode_utf8, encode_utf8_decode_utf8, encode_utf8_valid_utf8, valid_utf8,
};

use crate::bytes::{append_bytes, read_array};
use crate::error::DeResearcherError;

verus! {

/// A 32-byte public key or account address.
pub type Address = [u8; 32];

/// Capacity in bytes of every bounded text field of a record.
pub const MAX_STRING_SIZE: usize = 64;

/// Highest reputation the oracle may assign.
pub const MAX_REPUTATION: u8 = 100;

/// A reputation above this approves a researcher for peer review.
pub const MIN_REPUTATION_FOR_PEER_REVIEW: u8 = 50;

/// Approvals a paper needs before it becomes ready to publish.
pub const MIN_APPROVALS_FOR_PUBLISH: u8 = 1;

/// A review whose average score is above this counts as an approval.
pub const APPROVAL_SCORE_THRESHOLD: u16 = 50;

/// Highest value of each review sub-score.
pub const MAX_SCORE: u8 = 100;

// ---------------------------------------------------------------------------
// Bounded text
// ---------------------------------------------------------------------------

/// `s` followed by zero bytes up to the 64-byte capacity.
pub open spec fn packed(s: Seq<u8>) -> Seq<u8> {
    s + zeros((64 - s.len()) as nat)
}

/// `s` without its trailing zero bytes.
pub open spec fn trim_zeros(s: Seq<u8>) -> Seq<u8>
    decreases s.len(),
{
    if s.len() > 0 && s.last() == 0 {
        trim_zeros(s.drop_last())
    } else {
        s
    }
}

/// Copies the UTF-8 bytes of `data` into a zero-padded 64-byte field; text
/// longer than the field is refused.
pub fn checked_string_convt_to_64_bytes(data: &str) -> (r: Result<[u8; 64], DeResearcherError>)
    ensures
        r is Err <==> encode_utf8(data@).len() > MAX_STRING_SIZE,
        r is Err ==> r == Err::<[u8; 64], DeResearcherError>(DeResearcherError::SizeOverflow),
        r is Ok ==> r->Ok_0@ == packed(encode_utf8(data@)),
{
    if data.len() > MAX_STRING_SIZE {
        return Err(DeResearcherError::SizeOverflow);
    }
    let src = data.as_bytes();
    let end = src.len();
    let mut data_bytes: [u8; 64] = [0u8; 64];
    let mut i: usize = 0;
    while i < end
        invariant
            i <= end,
            end == src@.len(),
            end <= 64,
            data_bytes@.len() == 64,
            forall|j: int| 0 <= j < i ==> data_bytes@[j] == src@[j],
            forall|j: int| end <= j < 64 ==> data_bytes@[j] == 0,
        decreases end - i,
    {
        data_bytes[i] = src[i];
        i = i + 1;
    }
    assert(data_bytes@ =~= packed(src@));
    Ok(data_bytes)
}

/// Relies on `String::from_utf8`: it accepts exactly the valid UTF-8 byte
/// sequences, and the text it returns has those bytes.
#[verifier::external_body]
pub(crate) fn utf8_string(bytes: Vec<u8>) -> (r: Option<String>)
    ensures
        r is Some <==> valid_utf8(bytes@),
        r is Some ==> encode_utf8(r->Some_0@) == bytes@,
{
    String::from_utf8(bytes).ok()
}

/// Reads back the text of a zero-padded field: the bytes before the trailing
/// zeros, when they are valid UTF-8.
pub fn unpack_64_bytes(field: &[u8; 64]) -> (r: Option<String>)
    ensures
        r is Some <==> valid_utf8(trim_zeros(field@)),
        r is Some ==> encode_utf8(r->Some_0@) == trim_zeros(field@),
{
    let mut end: usize = 64;
    proof {
        assert(field@.subrange(0, 64) =~= field@);
    }
    while end > 0 && field[end - 1] == 0
        invariant
            end <= 64,
            field@.len() == 64,
            trim_zeros(field@.subrange(0, end as int)) == trim_zeros(field@),
        decreases end,
    {
        assert(field@.subrange(0, end as int).drop_last() =~= field@.subrange(0, end - 1));
        end = end - 1;
    }
    let mut out: Vec<u8> = Vec::new();
    append_bytes(&mut out, slice_subrange(field.as_slice(), 0, end));
    utf8_string(out)
}

/// Packing text that fits and reading the field back gives the same text,
/// provided the text does not itself end in a zero byte.
pub proof fn lemma_pack_round_trip(text: Seq<char>)
    requires
        encode_utf8(text).len() <= 64,
        encode_utf8(text).len() == 0 || encode_utf8(text).last() != 0,
    ensures
        trim_zeros(packed(encode_utf8(text))) == encode_utf8(text),
        valid_utf8(trim_zeros(packed(encode_utf8(text)))),
        forall|back: Seq<char>|
            encode_utf8(back) == trim_zeros(packed(encode_utf8(text))) ==> back == text,
{
    let b = encode_utf8(text);
    lemma_trim_padding(b, 64 - b.len());
    broadcast use encode_utf8_valid_utf8, encode_utf8_decode_utf8;

    assert forall|back: Seq<char>| encode_utf8(back) == trim_zeros(packed(b)) implies back
        == text by {
        assert(decode_utf8(encode_utf8(back)) == back);
    }
}

proof fn lemma_trim_padding(b: Seq<u8>, k: int)
    requires
        0 <= k,
        b.len() == 0 || b.last() != 0,
    ensures
        trim_zeros(b + Seq::new(k as nat, |i: int| 0u8)) == b,
    decreases k,
{
    let s = b + Seq::new(k as nat, |i: int| 0u8);
    if k == 0 {
        assert(s =~= b);
        if b.len() > 0 {
        }
    } else {
        assert(s.drop_last() =~= b + Seq::new((k - 1) as nat, |i: int| 0u8));
        lemma_trim_padding(b, k - 1);
    }
}

// ---------------------------------------------------------------------------
// Researcher profile
// ---------------------------------------------------------------------------

/// Whether the reputation oracle has approved a researcher for peer review.
#[derive(Clone, Copy, Debug, PartialEq, Eq, Structural)]
pub enum ResearcherProfileState {
    AwaitingApproval,
    Approved,
    Rejected,
}

/// The stored byte of a profile state.
pub open spec fn profile_state_tag(s: ResearcherProfileState) -> u8 {
    match s {
        ResearcherProfileState::AwaitingApproval => 0,
        ResearcherProfileState::Approved => 1,
        ResearcherProfileState::Rejected => 2,
    }
}

/// The profile state stored as `b`, for `b < 3`.
pub open spec fn profile_state_of_tag(b: u8) -> ResearcherProfileState {
    if b == 0 {
        ResearcherProfileState::AwaitingApproval
    } else if b == 1 {
        ResearcherProfileState::Approved
    } else {
        ResearcherProfileState::Rejected
    }
}

/// A researcher's profile, stored at the address derived from the owner's key.
#[derive(Clone, Copy, Debug)]
pub struct ResearcherProfile {
    pub address: Address,
    pub researcher_pubkey: Address,
    pub name: [u8; 64],
    pub state: ResearcherProfileState,
    pub total_papers_published: u64,
    pub total_citations: u64,
    pub total_reviews: u64,
    pub reputation: u8,
    pub meta_data_merkle_root: [u8; 64],
    pub bump: u8,
}

/// Stored size of a profile in bytes.
pub const PROFILE_SIZE: usize = 219;

/// `n` zero bytes.
pub open spec fn zeros(n: nat) -> Seq<u8> {
    Seq::new(n, |i: int| 0u8)
}

/// The stored bytes of a profile with these fields: the fields in order,
/// integers little-endian.
pub open spec fn profile_bytes(
    address: Seq<u8>,
    researcher_pubkey: Seq<u8>,
    name: Seq<u8>,
    state: ResearcherProfileState,
    total_papers_published: u64,
    total_citations: u64,
    total_reviews: u64,
    reputation: u8,
    meta_data_merkle_root: Seq<u8>,
    bump: u8,
) -> Seq<u8> {
    address + researcher_pubkey + name + seq![profile_state_tag(state)] + spec_u64_to_le_bytes(
        total_papers_published,
    ) + spec_u64_to_le_bytes(total_citations) + spec_u64_to_le_bytes(total_reviews) + seq![
        reputation,
    ] + meta_data_merkle_root + seq![bump]
}

/// The stored bytes of a profile.
pub open spec fn encode_profile(p: ResearcherProfile) -> Seq<u8> {
    profile_bytes(
        p.address@,
        p.researcher_pubkey@,
        p.name@,
        p.state,
        p.total_papers_published,
        p.total_citations,
        p.total_reviews,
        p.reputation,
        p.meta_data_merkle_root@,
        p.bump,
    )
}

/// Whether `s` holds a stored profile: the exact size and a known state byte.
pub open spec fn is_profile_bytes(s: Seq<u8>) -> bool {
    s.len() == PROFILE_SIZE && s[128] < 3
}

/// A stored profile is read back as the profile that was stored, and no two
/// profiles are stored alike.
pub proof fn lemma_profile_codec(p: ResearcherProfile)
    ensures
        is_profile_bytes(encode_profile(p)),
        forall|q: ResearcherProfile| #[trigger] encode_profile(q) == encode_profile(p) ==> q == p,
{
    lemma_auto_spec_u64_to_from_le_bytes();
    let s = encode_profile(p);
    assert(s.len() == PROFILE_SIZE);
    assert(s[128] == profile_state_tag(p.state));
    assert forall|q: ResearcherProfile| #[trigger] encode_profile(q) == encode_profile(p) implies q
        == p by {
        let t = encode_profile(q);
        assert(q.address@ =~= t.subrange(0, 32));
        assert(p.address@ =~= s.subrange(0, 32));
        assert(q.researcher_pubkey@ =~= t.subrange(32, 64));
        assert(p.researcher_pubkey@ =~= s.subrange(32, 64));
        assert(q.name@ =~= t.subrange(64, 128));
        assert(p.name@ =~= s.subrange(64, 128));
        assert(t[128] == profile_state_tag(q.state));
        assert(spec_u64_to_le_bytes(q.total_papers_published) =~= t.subrange(129, 137));
        assert(spec_u64_to_le_bytes(p.total_papers_published) =~= s.subrange(129, 137));
        assert(spec_u64_to_le_bytes(q.total_citations) =~= t.subrange(137, 145));
        assert(spec_u64_to_le_bytes(p.total_citations) =~= s.subrange(137, 145));
        assert(spec_u64_to_le_bytes(q.total_reviews) =~= t.subrange(145, 153));
        assert(spec_u64_to_le_bytes(p.total_reviews) =~= s.subrange(145, 153));
        assert(t[153] == q.reputation);
        assert(q.meta_data_merkle_root@ =~= t.subrange(154, 218));
        assert(p.meta_data_merkle_root@ =~= s.subrange(154, 218));
        assert(t[218] == q.bump);
        assert(q.address == p.address);
        assert(q.researcher_pubkey == p.researcher_pubkey);
        assert(q.name == p.name);
        assert(q.meta_data_merkle_root == p.meta_data_merkle_root);
    }
}

/// The profile that `s` holds, where it holds one.
pub open spec fn stored_profile(s: Seq<u8>) -> ResearcherProfile {
    choose|p: ResearcherProfile| encode_profile(p) == s
}

/// The profile read from the stored bytes of `p` is `p`.
pub proof fn lemma_stored_profile(p: ResearcherProfile)
    ensures
        stored_profile(encode_profile(p)) == p,
        is_profile_bytes(encode_profile(p)),
{
    lemma_profile_codec(p);
    let q = stored_profile(encode_profile(p));
    assert(encode_profile(q) == encode_profile(p));
}

impl ResearcherProfile {
    /// Stored size of a profile in bytes.
    pub fn size() -> (r: usize)
        ensures
            r == PROFILE_SIZE,
    {
        PROFILE_SIZE
    }

    /// The stored bytes of this profile.
    pub fn serialize(&self) -> (r: Vec<u8>)
        ensures
            r@ == encode_profile(*self),
    {
        let mut out: Vec<u8> = Vec::new();
        append_bytes(&mut out, self.address.as_slice());
        append_bytes(&mut out, self.researcher_pubkey.as_slice());
        append_bytes(&mut out, self.name.as_slice());
        let tag: u8 = match self.state {
            ResearcherProfileState::AwaitingApproval => 0,
            ResearcherProfileState::Approved => 1,
            ResearcherProfileState::Rejected => 2,
        };
        out.push(tag);
        append_bytes(&mut out, u64_to_le_bytes(self.total_papers_published).as_slice());
        append_bytes(&mut out, u64_to_le_bytes(self.total_citations).as_slice());
        append_bytes(&mut out, u64_to_le_bytes(self.total_reviews).as_slice());
        out.push(self.reputation);
        append_bytes(&mut out, self.meta_data_merkle_root.as_slice());
        out.push(self.bump);
        out
    }

    /// Reads a stored profile; anything but a whole, well-formed profile is
    /// refused.
    pub fn try_from_slice(data: &[u8]) -> (r: Result<ResearcherProfile, DeResearcherError>)
        ensures
            r is Ok <==> is_profile_bytes(data@),
            r is Ok ==> encode_profile(r->Ok_0) == data@,
            r is Err ==> r == Err::<ResearcherProfile, DeResearcherError>(
                DeResearcherError::SerializationError,
            ),
    {
        if data.len() != PROFILE_SIZE || data[128] >= 3 {
            return Err(DeResearcherError::SerializationError);
        }
        let state = if data[128] == 0 {
            ResearcherProfileState::AwaitingApproval
        } else if data[128] == 1 {
            ResearcherProfileState::Approved
        } else {
            ResearcherProfileState::Rejected
        };
        let p = ResearcherProfile {
            address: read_array::<32>(data, 0),
            researcher_pubkey: read_array::<32>(data, 32),
            name: read_array::<64>(data, 64),
            state,
            total_papers_published: u64_from_le_bytes(slice_subrange(data, 129, 137)),
            total_citations: u64_from_le_bytes(slice_subrange(data, 137, 145)),
            total_reviews: u64_from_le_bytes(slice_subrange(data, 145, 153)),
            reputation: data[153],
            meta_data_merkle_root: read_array::<64>(data, 154),
            bump: data[218],
        };
        proof {
            lemma_auto_spec_u64_to_from_le_bytes();
            assert(spec_u64_to_le_bytes(p.total_papers_published) == data@.subrange(129, 137));
            assert(spec_u64_to_le_bytes(p.total_citations) == data@.subrange(137, 145));
            assert(spec_u64_to_le_bytes(p.total_reviews) == data@.subrange(145, 153));
            assert(encode_profile(p) =~= data@);
        }
        Ok(p)
    }
}

// ---------------------------------------------------------------------------
// Research paper
// ---------------------------------------------------------------------------

/// Lifecycle of a paper. Transitions only move forward through this list.
#[derive(Clone, Copy, Debug, PartialEq, Eq, Structural)]
pub enum PaperState {
    AwaitingPeerReview,
    InPeerReview,
    ApprovedToPublish,
    RequiresRevision,
    Published,
    Minted,
}

/// The stored byte of a paper state, which is also its place in the lifecycle.
pub open spec fn paper_state_tag(s: PaperState) -> u8 {
    match s {
        PaperState::AwaitingPeerReview => 0,
        PaperState::InPeerReview => 1,
        PaperState::ApprovedToPublish => 2,
        PaperState::RequiresRevision => 3,
        PaperState::Published => 4,
        PaperState::Minted => 5,
    }
}

/// A research paper, stored at the address derived from a prefix of its
/// content hash and its creator's key.
#[derive(Clone, Copy, Debug)]
pub struct ResearchPaper {
    pub address: Address,
    pub creator_pubkey: Address,
    pub state: PaperState,
    pub access_fee: u32,
    pub version: u8,
    pub paper_content_hash: [u8; 64],
    pub total_approvals: u8,
    pub total_citations: u64,
    pub total_mints: u64,
    pub meta_data_merkle_root: [u8; 64],
    pub bump: u8,
}

/// Stored size of a paper in bytes.
pub const PAPER_SIZE: usize = 216;

/// The stored bytes of a paper with these fields: the fields in order,
/// integers little-endian.
pub open spec fn paper_bytes(
    address: Seq<u8>,
    creator_pubkey: Seq<u8>,
    state: PaperState,
    access_fee: u32,
    version: u8,
    paper_content_hash: Seq<u8>,
    total_approvals: u8,
    total_citations: u64,
    total_mints: u64,
    meta_data_merkle_root: Seq<u8>,
    bump: u8,
) -> Seq<u8> {
    address + creator_pubkey + seq![paper_state_tag(state)] + spec_u32_to_le_bytes(access_fee)
        + seq![version] + paper_content_hash + seq![total_approvals] + spec_u64_to_le_bytes(
        total_citations,
    ) + spec_u64_to_le_bytes(total_mints) + meta_data_merkle_root + seq![bump]
}

/// The stored bytes of a paper.
pub open spec fn encode_paper(p: ResearchPaper) -> Seq<u8> {
    paper_bytes(
        p.address@,
        p.creator_pubkey@,
        p.state,
        p.access_fee,
        p.version,
        p.paper_content_hash@,
        p.total_approvals,
        p.total_citations,
        p.total_mints,
        p.meta_data_merkle_root@,
        p.bump,
    )
}

/// Whether `s` holds a stored paper: the exact size and a known state byte.
pub open spec fn is_paper_bytes(s: Seq<u8>) -> bool {
    s.len() == PAPER_SIZE && s[64] < 6
}

/// A stored paper is read back as the paper that was stored, and no two
/// papers are stored alike.
pub proof fn lemma_paper_codec(p: ResearchPaper)
    ensures
        is_paper_bytes(encode_paper(p)),
        forall|q: ResearchPaper| #[trigger] encode_paper(q) == encode_paper(p) ==> q == p,
{
    lemma_auto_spec_u64_to_from_le_bytes();
    lemma_auto_spec_u32_to_from_le_bytes();
    let s = encode_paper(p);
    assert(s.len() == PAPER_SIZE);
    assert(s[64] == paper_state_tag(p.state));
    assert forall|q: ResearchPaper| #[trigger] encode_paper(q) == encode_paper(p) implies q
        == p by {
        let t = encode_paper(q);
        assert(q.address@ =~= t.subrange(0, 32));
        assert(p.address@ =~= s.subrange(0, 32));
        assert(q.creator_pubkey@ =~= t.subrange(32, 64));
        assert(p.creator_pubkey@ =~= s.subrange(32, 64));
        assert(t[64] == paper_state_tag(q.state));
        assert(spec_u32_to_le_bytes(q.access_fee) =~= t.subrange(65, 69));
        assert(spec_u32_to_le_bytes(p.access_fee) =~= s.subrange(65, 69));
        assert(t[69] == q.version);
        assert(q.paper_content_hash@ =~= t.subrange(70, 134));
        assert(p.paper_content_hash@ =~= s.subrange(70, 134));
        assert(t[134] == q.total_approvals);
        assert(spec_u64_to_le_bytes(q.total_citations) =~= t.subrange(135, 143));
        assert(spec_u64_to_le_bytes(p.total_citations) =~= s.subrange(135, 143));
        assert(spec_u64_to_le_bytes(q.total_mints) =~= t.subrange(143, 151));
        assert(spec_u64_to_le_bytes(p.total_mints) =~= s.subrange(143, 151));
        assert(q.meta_data_merkle_root@ =~= t.subrange(151, 215));
        assert(p.meta_data_merkle_root@ =~= s.subrange(151, 215));
        assert(t[215] == q.bump);
        assert(q.address == p.address);
        assert(q.creator_pubkey == p.creator_pubkey);
        assert(q.paper_content_hash == p.paper_content_hash);
        assert(q.meta_data_merkle_root == p.meta_data_merkle_root);
    }
}

/// The paper that `s` holds, where it holds one.
pub open spec fn stored_paper(s: Seq<u8>) -> ResearchPaper {
    choose|p: ResearchPaper| encode_paper(p) == s
}

/// The paper read from the stored bytes of `p` is `p`.
pub proof fn lemma_stored_paper(p: ResearchPaper)
    ensures
        stored_paper(encode_paper(p)) == p,
        is_paper_bytes(encode_paper(p)),
{
    lemma_paper_codec(p);
    let q = stored_paper(encode_paper(p));
    assert(encode_paper(q) == encode_paper(p));
}

impl ResearchPaper {
    /// Stored size of a paper in bytes.
    pub fn size() -> (r: usize)
        ensures
            r == PAPER_SIZE,
    {
        PAPER_SIZE
    }

    /// The stored bytes of this paper.
    pub fn serialize(&self) -> (r: Vec<u8>)
        ensures
            r@ == encode_paper(*self),
    {
        let mut out: Vec<u8> = Vec::new();
        append_bytes(&mut out, self.address.as_slice());
        append_bytes(&mut out, self.creator_pubkey.as_slice());
        let tag: u8 = match self.state {
            PaperState::AwaitingPeerReview => 0,
            PaperState::InPeerReview => 1,
            PaperState::ApprovedToPublish => 2,
            PaperState::RequiresRevision => 3,
            PaperState::Published => 4,
            PaperState::Minted => 5,
        };
        out.push(tag);
        append_bytes(&mut out, u32_to_le_bytes(self.access_fee).as_slice());
        out.push(self.version);
        append_bytes(&mut out, self.paper_content_hash.as_slice());
        out.push(self.total_approvals);
        append_bytes(&mut out, u64_to_le_bytes(self.total_citations).as_slice());
        append_bytes(&mut out, u64_to_le_bytes(self.total_mints).as_slice());
        append_bytes(&mut out, self.meta_data_merkle_root.as_slice());
        out.push(self.bump);
        out
    }

    /// Reads a stored paper; anything but a whole, well-formed paper is
    /// refused.
    pub fn try_from_slice(data: &[u8]) -> (r: Result<ResearchPaper, DeResearcherError>)
        ensures
            r is Ok <==> is_paper_bytes(data@),
            r is Ok ==> encode_paper(r->Ok_0) == data@,
            r is Err ==> r == Err::<ResearchPaper, DeResearcherError>(
                DeResearcherError::SerializationError,
            ),
    {
        if data.len() != PAPER_SIZE || data[64] >= 6 {
            return Err(DeResearcherError::SerializationError);
        }
        let b = data[64];
        let state = if b == 0 {
            PaperState::AwaitingPeerReview
        } else if b == 1 {
            PaperState::InPeerReview
        } else if b == 2 {
            PaperState::ApprovedToPublish
        } else if b == 3 {
            PaperState::RequiresRevision
        } else if b == 4 {
            PaperState::Published
        } else {
            PaperState::Minted
        };
        let p = ResearchPaper {
            address: read_array::<32>(data, 0),
            creator_pubkey: read_array::<32>(data, 32),
            state,
            access_fee: u32_from_le_bytes(slice_subrange(data, 65, 69)),
            version: data[69],
            paper_content_hash: read_array::<64>(data, 70),
            total_approvals: data[134],
            total_citations: u64_from_le_bytes(slice_subrange(data, 135, 143)),
            total_mints: u64_from_le_bytes(slice_subrange(data, 143, 151)),
            meta_data_merkle_root: read_array::<64>(data, 151),
            bump: data[215],
        };
        proof {
            lemma_auto_spec_u64_to_from_le_bytes();
            lemma_auto_spec_u32_to_from_le_bytes();
            assert(spec_u32_to_le_bytes(p.access_fee) == data@.subrange(65, 69));
            assert(spec_u64_to_le_bytes(p.total_citations) == data@.subrange(135, 143));
            assert(spec_u64_to_le_bytes(p.total_mints) == data@.subrange(143, 151));
            assert(encode_paper(p) =~= data@);
        }
        Ok(p)
    }
}

// ---------------------------------------------------------------------------
// Peer review
// ---------------------------------------------------------------------------

/// The four sub-scores of a review, each out of 100.
#[derive(Clone, Copy, Debug, PartialEq, Eq, Structural)]
pub struct Review {
    pub quality_of_research: u8,
    pub potential_for_real_world_use_case: u8,
    pub domain_knowledge: u8,
    pub practicality_of_result_obtained: u8,
}

/// The mean of the four sub-scores, truncated toward zero.
pub open spec fn average_of(r: Review) -> int {
    (r.quality_of_research + r.potential_for_real_world_use_case + r.domain_knowledge
        + r.practicality_of_result_obtained) / 4
}

/// Whether every sub-score is within 0..=100.
pub open spec fn scores_in_range(r: Review) -> bool {
    r.quality_of_research <= MAX_SCORE && r.potential_for_real_world_use_case <= MAX_SCORE
        && r.domain_knowledge <= MAX_SCORE && r.practicality_of_result_obtained <= MAX_SCORE
}

/// Whether a review counts as an approval of the paper.
pub open spec fn approves(r: Review) -> bool {
    average_of(r) > APPROVAL_SCORE_THRESHOLD
}

impl Review {
    /// The mean of the four sub-scores, summed without overflow and truncated.
    pub fn average_score(&self) -> (r: u16)
        ensures
            r == average_of(*self),
    {
        let cumulative_score: u16 = self.quality_of_research as u16
            + self.potential_for_real_world_use_case as u16 + self.domain_knowledge as u16
            + self.practicality_of_result_obtained as u16;
        cumulative_score / 4
    }

    /// Whether this review counts as an approval: its average is above 50.
    pub fn is_approval(&self) -> (r: bool)
        ensures
            r == approves(*self),
    {
        self.average_score() > APPROVAL_SCORE_THRESHOLD
    }

    /// Whether every sub-score is within 0..=100.
    pub fn is_in_range(&self) -> (r: bool)
        ensures
            r == scores_in_range(*self),
    {
        self.quality_of_research <= MAX_SCORE && self.potential_for_real_world_use_case
            <= MAX_SCORE && self.domain_knowledge <= MAX_SCORE
            && self.practicality_of_result_obtained <= MAX_SCORE
    }
}

/// A peer review, stored at the address derived from the paper and the
/// referee; written once and never changed.
#[derive(Clone, Copy, Debug)]
pub struct PeerReview {
    pub address: Address,
    pub reviewer_pubkey: Address,
    pub paper_pubkey: Address,
    pub review: Review,
    pub meta_data_merkle_root: [u8; 64],
    pub bump: u8,
}

/// Stored size of a peer review in bytes.
pub const PEER_REVIEW_SIZE: usize = 165;

/// The stored bytes of a peer review with these fields: the fields in order.
pub open spec fn peer_review_bytes(
    address: Seq<u8>,
    reviewer_pubkey: Seq<u8>,
    paper_pubkey: Seq<u8>,
    review: Review,
    meta_data_merkle_root: Seq<u8>,
    bump: u8,
) -> Seq<u8> {
    address + reviewer_pubkey + paper_pubkey + seq![
        review.quality_of_research,
        review.potential_for_real_world_use_case,
        review.domain_knowledge,
        review.practicality_of_result_obtained,
    ] + meta_data_merkle_root + seq![bump]
}

/// The stored bytes of a peer review.
pub open spec fn encode_peer_review(p: PeerReview) -> Seq<u8> {
    peer_review_bytes(
        p.address@,
        p.reviewer_pubkey@,
        p.paper_pubkey@,
        p.review,
        p.meta_data_merkle_root@,
        p.bump,
    )
}

impl PeerReview {
    /// Stored size of a peer review in bytes.
    pub fn size() -> (r: usize)
        ensures
            r == PEER_REVIEW_SIZE,
    {
        PEER_REVIEW_SIZE
    }

    /// The stored bytes of this review.
    pub fn serialize(&self) -> (r: Vec<u8>)
        ensures
            r@ == encode_peer_review(*self),
    {
        let mut out: Vec<u8> = Vec::new();
        append_bytes(&mut out, self.address.as_slice());
        append_bytes(&mut out, self.reviewer_pubkey.as_slice());
        append_bytes(&mut out, self.paper_pubkey.as_slice());
        out.push(self.review.quality_of_research);
        out.push(self.review.potential_for_real_world_use_case);
        out.push(self.review.domain_knowledge);
        out.push(self.review.practicality_of_result_obtained);
        append_bytes(&mut out, self.meta_data_merkle_root.as_slice());
        out.push(self.bump);
        proof {
            assert(out@ =~= encode_peer_review(*self));
        }
        out
    }

    /// Reads a stored review; anything but exactly its size is refused.
    pub fn try_from_slice(data: &[u8]) -> (r: Result<PeerReview, DeResearcherError>)
        ensures
            r is Ok <==> data@.len() == PEER_REVIEW_SIZE,
            r is Ok ==> encode_peer_review(r->Ok_0) == data@,
            r is Err ==> r == Err::<PeerReview, DeResearcherError>(
                DeResearcherError::SerializationError,
            ),
    {
        if data.len() != PEER_REVIEW_SIZE {
            return Err(DeResearcherError::SerializationError);
        }
        let p = PeerReview {
            address: read_array::<32>(data, 0),
            reviewer_pubkey: read_array::<32>(data, 32),
            paper_pubkey: read_array::<32>(data, 64),
            review: Review {
                quality_of_research: data[96],
                potential_for_real_world_use_case: data[97],
                domain_knowledge: data[98],
                practicality_of_result_obtained: data[99],
            },
            meta_data_merkle_root: read_array::<64>(data, 100),
            bump: data[164],
        };
        proof {
            assert(encode_peer_review(p) =~= data@);
        }
        Ok(p)
    }
}

// ---------------------------------------------------------------------------
// Access (mint) record
// ---------------------------------------------------------------------------

/// A reader's access record, one per reader, stored at the address derived
/// from the reader's key.
#[derive(Clone, Copy, Debug)]
pub struct ResearchMintCollection {
    pub reader_pubkey: Address,
    pub data_merkle_root: [u8; 64],
    pub bump: u8,
}

/// Stored size of an access record in bytes.
pub const MINT_COLLECTION_SIZE: usize = 97;

/// The stored bytes of an access record with these fields, in order.
pub open spec fn mint_collection_bytes(
    reader_pubkey: Seq<u8>,
    data_merkle_root: Seq<u8>,
    bump: u8,
) -> Seq<u8> {
    reader_pubkey + data_merkle_root + seq![bump]
}

/// The stored bytes of an access record.
pub open spec fn encode_mint_collection(m: ResearchMintCollection) -> Seq<u8> {
    mint_collection_bytes(m.reader_pubkey@, m.data_merkle_root@, m.bump)
}

impl ResearchMintCollection {
    /// Stored size of an access record in bytes.
    pub fn size() -> (r: usize)
        ensures
            r == MINT_COLLECTION_SIZE,
    {
        MINT_COLLECTION_SIZE
    }

    /// The stored bytes of this record.
    pub fn serialize(&self) -> (r: Vec<u8>)
        ensures
            r@ == encode_mint_collection(*self),
    {
        let mut out: Vec<u8> = Vec::new();
        append_bytes(&mut out, self.reader_pubkey.as_slice());
        append_bytes(&mut out, self.data_merkle_root.as_slice());
        out.push(self.bump);
        out
    }

    /// Reads a stored record; anything but exactly its size is refused.
    pub fn try_from_slice(data: &[u8]) -> (r: Result<ResearchMintCollection, DeResearcherError>)
        ensures
            r is Ok <==> data@.len() == MINT_COLLECTION_SIZE,
            r is Ok ==> encode_mint_collection(r->Ok_0) == data@,
            r is Err ==> r == Err::<ResearchMintCollection, DeResearcherError>(
                DeResearcherError::SerializationError,
            ),
    {
        if data.len() != MINT_COLLECTION_SIZE {
            return Err(DeResearcherError::SerializationError);
        }
        let m = ResearchMintCollection {
            reader_pubkey: read_array::<32>(data, 0),
            data_merkle_root: read_array::<64>(data, 32),
            bump: data[96],
        };
        proof {
            assert(encode_mint_collection(m) =~= data@);
        }
        Ok(m)
    }
}

} // verus!
