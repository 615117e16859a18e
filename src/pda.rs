use vstd::prelude::*;
use vstd::utf8::encode_utf8;

use crate::bytes::append_bytes;
use crate::error::DeResearcherError;
use crate::state::Address;

verus! {

/// Most seeds an address derivation accepts.
pub const MAX_SEEDS: usize = 16;

/// Longest seed an address derivation accepts, in bytes.
pub const MAX_SEED_LEN: usize = 32;

/// Tag seed of researcher profile addresses.
pub const RESEARCHER_PROFILE_PDA_SEED: &'static str = "deres_researcher_profile";

/// Tag seed of paper addresses.
pub const RESEARCH_PAPER_PDA_SEED: &'static str = "deres_research_paper";

/// Tag seed of peer review addresses.
pub const PEER_REVIEW_PDA_SEED: &'static str = "deres_peer_review";

/// Tag seed of access record addresses.
pub const RESEARCH_MINT_COLLECTION_PDA_SEED: &'static str = "deres_mint_collection";

/// The address that the host's derivation computes from in-limit seeds and a
/// program id, or none where the hash it takes is a valid signing key.
pub uninterp spec fn program_address_of(seeds: Seq<Seq<u8>>, program_id: Seq<u8>) -> Option<
    Seq<u8>,
>;

/// Whether the seeds are few and short enough to derive from.
pub open spec fn seeds_within_limits(seeds: Seq<Seq<u8>>) -> bool {
    seeds.len() <= MAX_SEEDS && forall|i: int| 0 <= i < seeds.len() ==> seeds[i].len()
        <= MAX_SEED_LEN
}

/// The derived address of `seeds` under `program_id`, if there is one.
pub open spec fn derived_address(seeds: Seq<Seq<u8>>, program_id: Seq<u8>) -> Option<Seq<u8>> {
    if seeds_within_limits(seeds) {
        program_address_of(seeds, program_id)
    } else {
        None
    }
}

/// Whether `address` is the address derived from `seeds` with `bump` appended.
pub open spec fn pda_matches(
    seeds: Seq<Seq<u8>>,
    bump: u8,
    program_id: Seq<u8>,
    address: Seq<u8>,
) -> bool {
    derived_address(seeds.push(seq![bump]), program_id) == Some(address)
}

/// Whether `(address, bump)` is what the bump search finds for `seeds`: the
/// highest bump from 255 down to 1 that yields an address.
pub open spec fn derives_to(
    seeds: Seq<Seq<u8>>,
    program_id: Seq<u8>,
    address: Seq<u8>,
    bump: u8,
) -> bool {
    &&& 1 <= bump
    &&& pda_matches(seeds, bump, program_id, address)
    &&& forall|b: u8| bump < b ==> derived_address(#[trigger] seeds.push(seq![b]), program_id) is None
}

/// Relies on solana_program's `Pubkey::create_program_address`: more than 16
/// seeds or a seed over 32 bytes is refused; otherwise the result is the
/// address that the seeds and program id determine, or an error where that
/// hash lies on the curve.
#[verifier::external_body]
fn create_program_address(seeds: &Vec<Vec<u8>>, program_id: &Address) -> (r: Option<Address>)
    ensures
        !seeds_within_limits(seeds.deep_view()) ==> r is None,
        seeds_within_limits(seeds.deep_view()) ==> match r {
            Some(a) => program_address_of(seeds.deep_view(), program_id@) == Some(a@),
            None => program_address_of(seeds.deep_view(), program_id@) is None,
        },
{
    let refs: Vec<&[u8]> = seeds.iter().map(|s| s.as_slice()).collect();
    let id = solana_program::pubkey::Pubkey::new_from_array(*program_id);
    solana_program::pubkey::Pubkey::create_program_address(&refs, &id).ok().map(|k| k.to_bytes())
}

/// Relies on solana_program's `Pubkey::try_find_program_address`: it tries
/// the bumps 255 down to 1, each appended as a one-byte seed, with
/// `create_program_address`, and returns the first address found with its
/// bump, or nothing.
#[verifier::external_body]
fn try_find_program_address(seeds: &Vec<Vec<u8>>, program_id: &Address) -> (r: Option<(Address, u8)>)
    ensures
        match r {
            Some((a, b)) => derives_to(seeds.deep_view(), program_id@, a@, b),
            None => forall|b: u8|
                1 <= b ==> derived_address(
                    #[trigger] seeds.deep_view().push(seq![b]),
                    program_id@,
                ) is None,
        },
{
    let refs: Vec<&[u8]> = seeds.iter().map(|s| s.as_slice()).collect();
    let id = solana_program::pubkey::Pubkey::new_from_array(*program_id);
    solana_program::pubkey::Pubkey::try_find_program_address(&refs, &id).map(|(k, b)| (k.to_bytes(), b))
}

/// Checks that `pda` is the address derived from `seeds` with `bump`.
pub fn validate_pda(
    seeds: Vec<Vec<u8>>,
    pda: &Address,
    bump: u8,
    program_id: &Address,
) -> (r: Result<(), DeResearcherError>)
    ensures
        r is Ok <==> pda_matches(seeds.deep_view(), bump, program_id@, pda@),
        r is Err ==> r == Err::<(), DeResearcherError>(DeResearcherError::PdaPubekyMismatch),
{
    let seeds_with_bump = with_bump(seeds, bump);
    match create_program_address(&seeds_with_bump, program_id) {
        Some(actual) => {
            if crate::bytes::keys_equal(&actual, pda) {
                Ok(())
            } else {
                Err(DeResearcherError::PdaPubekyMismatch)
            }
        },
        None => Err(DeResearcherError::PdaPubekyMismatch),
    }
}

/// Checks that `pda` is the canonical address of `seeds` and `bump` its
/// bump: the highest bump from 255 down to 1 that yields an address. Any
/// other bump is refused, even one that yields an address of its own, so
/// that each set of seeds has exactly one record.
pub fn validate_canonical_pda(
    seeds: Vec<Vec<u8>>,
    pda: &Address,
    bump: u8,
    program_id: &Address,
) -> (r: Result<(), DeResearcherError>)
    ensures
        r is Ok <==> derives_to(seeds.deep_view(), program_id@, pda@, bump),
        r is Err ==> r == Err::<(), DeResearcherError>(DeResearcherError::PdaPubekyMismatch),
{
    match derive_address(&seeds, program_id) {
        Some((address, found)) => {
            proof {
                if derives_to(seeds.deep_view(), program_id@, pda@, bump) {
                    lemma_canonical_address_unique(
                        seeds.deep_view(),
                        program_id@,
                        address@,
                        found,
                        pda@,
                        bump,
                    );
                }
            }
            if found == bump && crate::bytes::keys_equal(&address, pda) {
                Ok(())
            } else {
                Err(DeResearcherError::PdaPubekyMismatch)
            }
        },
        None => {
            proof {
                if derives_to(seeds.deep_view(), program_id@, pda@, bump) {
                    assert(derived_address(seeds.deep_view().push(seq![bump]), program_id@) is None);
                }
            }
            Err(DeResearcherError::PdaPubekyMismatch)
        },
    }
}

/// Seeds have at most one canonical address and bump.
pub proof fn lemma_canonical_address_unique(
    seeds: Seq<Seq<u8>>,
    program_id: Seq<u8>,
    a1: Seq<u8>,
    b1: u8,
    a2: Seq<u8>,
    b2: u8,
)
    requires
        derives_to(seeds, program_id, a1, b1),
        derives_to(seeds, program_id, a2, b2),
    ensures
        a1 == a2,
        b1 == b2,
{
    if b1 < b2 {
        assert(derived_address(seeds.push(seq![b2]), program_id) is None);
    } else if b2 < b1 {
        assert(derived_address(seeds.push(seq![b1]), program_id) is None);
    }
}

/// `seeds` with the one-byte seed `bump` appended.
pub fn with_bump(seeds: Vec<Vec<u8>>, bump: u8) -> (r: Vec<Vec<u8>>)
    ensures
        r.deep_view() == seeds.deep_view().push(seq![bump]),
{
    let mut seeds_with_bump = seeds;
    let ghost before = seeds_with_bump.deep_view();
    let ghost before_vec = seeds_with_bump@;
    let mut bump_seed: Vec<u8> = Vec::new();
    bump_seed.push(bump);
    assert(bump_seed@ =~= seq![bump]);
    seeds_with_bump.push(bump_seed);
    proof {
        assert forall|i: int| 0 <= i < before.len() implies seeds_with_bump.deep_view()[i]
            == before[i] by {
            assert(seeds_with_bump@[i] == before_vec[i]);
        }
        assert(seeds_with_bump.deep_view()[before.len() as int] == seq![bump]);
        assert(seeds_with_bump.deep_view() =~= before.push(seq![bump]));
    }
    seeds_with_bump
}

/// Finds the address and bump for `seeds`: the highest bump from 255 down to
/// 1 that yields an address, or nothing when none does.
pub fn derive_address(seeds: &Vec<Vec<u8>>, program_id: &Address) -> (r: Option<(Address, u8)>)
    ensures
        match r {
            Some((a, b)) => derives_to(seeds.deep_view(), program_id@, a@, b),
            None => forall|b: u8|
                1 <= b ==> derived_address(
                    #[trigger] seeds.deep_view().push(seq![b]),
                    program_id@,
                ) is None,
        },
{
    try_find_program_address(seeds, program_id)
}

/// An address found by the bump search validates with the bump found, while
/// any other address, or any higher bump, fails validation.
pub proof fn lemma_derived_address_validates(
    seeds: Seq<Seq<u8>>,
    program_id: Seq<u8>,
    address: Seq<u8>,
    bump: u8,
)
    requires
        derives_to(seeds, program_id, address, bump),
    ensures
        pda_matches(seeds, bump, program_id, address),
        forall|other: Seq<u8>| other != address ==> !pda_matches(seeds, bump, program_id, other),
        forall|b: u8, other: Seq<u8>| bump < b ==> !pda_matches(seeds, b, program_id, other),
{
    assert forall|b: u8, other: Seq<u8>| bump < b implies !pda_matches(
        seeds,
        b,
        program_id,
        other,
    ) by {
        assert(derived_address(seeds.push(seq![b]), program_id) is None);
    }
}

/// The seeds of a researcher profile's address: the tag and the owner's key.
pub open spec fn profile_seeds(owner: Seq<u8>) -> Seq<Seq<u8>> {
    seq![encode_utf8(RESEARCHER_PROFILE_PDA_SEED@), owner]
}

/// The seeds of a paper's address: the tag, the first 32 bytes of the stored
/// content hash, and the creator's key.
pub open spec fn paper_seeds(content_hash: Seq<u8>, creator: Seq<u8>) -> Seq<Seq<u8>> {
    seq![encode_utf8(RESEARCH_PAPER_PDA_SEED@), content_hash.subrange(0, 32), creator]
}

/// The seeds of a peer review's address: the tag, the paper's address and the
/// referee's key.
pub open spec fn peer_review_seeds(paper: Seq<u8>, reviewer: Seq<u8>) -> Seq<Seq<u8>> {
    seq![encode_utf8(PEER_REVIEW_PDA_SEED@), paper, reviewer]
}

/// The seeds of a reader's access record address: the tag and the reader's key.
pub open spec fn mint_collection_seeds(reader: Seq<u8>) -> Seq<Seq<u8>> {
    seq![encode_utf8(RESEARCH_MINT_COLLECTION_PDA_SEED@), reader]
}

fn seed_of(b: &[u8]) -> (r: Vec<u8>)
    ensures
        r.deep_view() == b@,
{
    let mut r: Vec<u8> = Vec::new();
    append_bytes(&mut r, b);
    assert(r.deep_view() =~= b@);
    r
}

fn seed_pair(a: Vec<u8>, b: Vec<u8>) -> (r: Vec<Vec<u8>>)
    ensures
        r.deep_view() == seq![a.deep_view(), b.deep_view()],
{
    let ghost (ga, gb) = (a, b);
    let mut r: Vec<Vec<u8>> = Vec::new();
    r.push(a);
    r.push(b);
    assert(r@[0] == ga && r@[1] == gb);
    assert(r.deep_view() =~= seq![ga.deep_view(), gb.deep_view()]);
    r
}

fn seed_triple(a: Vec<u8>, b: Vec<u8>, c: Vec<u8>) -> (r: Vec<Vec<u8>>)
    ensures
        r.deep_view() == seq![a.deep_view(), b.deep_view(), c.deep_view()],
{
    let ghost (ga, gb, gc) = (a, b, c);
    let mut r: Vec<Vec<u8>> = Vec::new();
    r.push(a);
    r.push(b);
    r.push(c);
    assert(r@[0] == ga && r@[1] == gb && r@[2] == gc);
    assert(r.deep_view() =~= seq![ga.deep_view(), gb.deep_view(), gc.deep_view()]);
    r
}

/// The seeds of the profile address of `owner`.
pub fn researcher_profile_seeds(owner: &Address) -> (r: Vec<Vec<u8>>)
    ensures
        r.deep_view() == profile_seeds(owner@),
{
    seed_pair(seed_of(RESEARCHER_PROFILE_PDA_SEED.as_bytes()), seed_of(owner.as_slice()))
}

/// The seeds of the address of the paper with `content_hash` by `creator`.
pub fn research_paper_seeds(content_hash: &[u8; 64], creator: &Address) -> (r: Vec<Vec<u8>>)
    ensures
        r.deep_view() == paper_seeds(content_hash@, creator@),
{
    seed_triple(
        seed_of(RESEARCH_PAPER_PDA_SEED.as_bytes()),
        seed_of(vstd::slice::slice_subrange(content_hash.as_slice(), 0, 32)),
        seed_of(creator.as_slice()),
    )
}

/// The seeds of the address of a review of `paper`.
pub fn peer_review_pda_seeds(paper: &Address, reviewer: &Address) -> (r: Vec<Vec<u8>>)
    ensures
        r.deep_view() == peer_review_seeds(paper@, reviewer@),
{
    seed_triple(
        seed_of(PEER_REVIEW_PDA_SEED.as_bytes()),
        seed_of(paper.as_slice()),
        seed_of(reviewer.as_slice()),
    )
}

/// The seeds of the access record address of `reader`.
pub fn research_mint_collection_seeds(reader: &Address) -> (r: Vec<Vec<u8>>)
    ensures
        r.deep_view() == mint_collection_seeds(reader@),
{
    seed_pair(seed_of(RESEARCH_MINT_COLLECTION_PDA_SEED.as_bytes()), seed_of(reader.as_slice()))
}

} // verus!
