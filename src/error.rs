use vstd::prelude::*;

verus! {

/// Every failure the program reports. The numeric code of a variant is its
/// position in this list.
#[derive(Clone, Copy, Debug, PartialEq, Eq, Structural)]
pub enum DeResearcherError {
    InvalidInstruction,
    InvalidSigner,
    PaperAlreadyExists,
    PubkeyMismatch,
    InvalidState,
    NotEnoughApprovals,
    PeerReviewAlreadyExists,
    InvalidFeeReceiver,
    ResearcherProfileAlreadyExists,
    ResearcherProfileNotFound,
    NotAllowedForPeerReview,
    PaperNotFound,
    SerializationError,
    SizeOverflow,
    ImmutableAccount,
    PdaPubekyMismatch,
    PublisherCannotAddPeerReview,
    InvalidReputationChecker,
    /// Fewer accounts were supplied than the instruction's account list needs.
    NotEnoughAccountKeys,
}

/// Whether `r` is the failure `e`.
pub open spec fn fails_with<T>(r: Result<T, DeResearcherError>, e: DeResearcherError) -> bool {
    r is Err && r->Err_0 == e
}

/// The numeric code of an error: its position in the declaration.
pub open spec fn error_code(e: DeResearcherError) -> u32 {
    match e {
        DeResearcherError::InvalidInstruction => 0,
        DeResearcherError::InvalidSigner => 1,
        DeResearcherError::PaperAlreadyExists => 2,
        DeResearcherError::PubkeyMismatch => 3,
        DeResearcherError::InvalidState => 4,
        DeResearcherError::NotEnoughApprovals => 5,
        DeResearcherError::PeerReviewAlreadyExists => 6,
        DeResearcherError::InvalidFeeReceiver => 7,
        DeResearcherError::ResearcherProfileAlreadyExists => 8,
        DeResearcherError::ResearcherProfileNotFound => 9,
        DeResearcherError::NotAllowedForPeerReview => 10,
        DeResearcherError::PaperNotFound => 11,
        DeResearcherError::SerializationError => 12,
        DeResearcherError::SizeOverflow => 13,
        DeResearcherError::ImmutableAccount => 14,
        DeResearcherError::PdaPubekyMismatch => 15,
        DeResearcherError::PublisherCannotAddPeerReview => 16,
        DeResearcherError::InvalidReputationChecker => 17,
        DeResearcherError::NotEnoughAccountKeys => 18,
    }
}

impl DeResearcherError {
    /// The code under which the host reports this error.
    pub fn code(&self) -> (r: u32)
        ensures
            r == error_code(*self),
    {
        match self {
            DeResearcherError::InvalidInstruction => 0,
            DeResearcherError::InvalidSigner => 1,
            DeResearcherError::PaperAlreadyExists => 2,
            DeResearcherError::PubkeyMismatch => 3,
            DeResearcherError::InvalidState => 4,
            DeResearcherError::NotEnoughApprovals => 5,
            DeResearcherError::PeerReviewAlreadyExists => 6,
            DeResearcherError::InvalidFeeReceiver => 7,
            DeResearcherError::ResearcherProfileAlreadyExists => 8,
            DeResearcherError::ResearcherProfileNotFound => 9,
            DeResearcherError::NotAllowedForPeerReview => 10,
            DeResearcherError::PaperNotFound => 11,
            DeResearcherError::SerializationError => 12,
            DeResearcherError::SizeOverflow => 13,
            DeResearcherError::ImmutableAccount => 14,
            DeResearcherError::PdaPubekyMismatch => 15,
            DeResearcherError::PublisherCannotAddPeerReview => 16,
            DeResearcherError::InvalidReputationChecker => 17,
            DeResearcherError::NotEnoughAccountKeys => 18,
        }
    }
}

} // verus!
