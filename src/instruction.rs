use vstd::bytes::{
    lemma_auto_spec_u32_to_from_le_bytes, spec_u32_from_le_bytes, spec_u32_to_le_bytes,
    u32_from_le_bytes,
};
use vstd::prelude::*;
use vstd::slice::slice_subrange;
use vstd::utf8::{
    decode_utf8, encode_utf8, encode_utf8_decode_utf8, encode_utf8_valid_utf8, valid_utf8,
};

use crate::bytes::append_bytes;
use crate::error::DeResearcherError;
use crate::state::utf8_string;

verus! {

/// Payload of profile creation.
pub struct CreateResearcherProfile {
    pub name: String,
    pub meta_data_merkle_root: String,
    pub pda_bump: u8,
}

/// Payload of paper creation.
pub struct CreateResearchePaper {
    pub access_fee: u32,
    pub paper_content_hash: String,
    pub meta_data_merkle_root: String,
    pub pda_bump: u8,
}

/// Payload of publication: the bump of the paper's address.
pub struct PublishPaper {
    pub pda_bump: u8,
}

/// Payload of a peer review: the four sub-scores, the review's metadata digest
/// and the bump of its address.
pub struct AddPeerReview {
    pub quality_of_research: u8,
    pub potential_for_real_world_use_case: u8,
    pub domain_knowledge: u8,
    pub practicality_of_result_obtained: u8,
    pub meta_data_merkle_root: String,
    pub pda_bump: u8,
}

/// Payload of paid access to a paper.
pub struct MintResearchPaper {
    pub meta_data_merkle_root: String,
    pub pda_bump: u8,
}

/// Payload of a reputation assignment by the oracle.
pub struct CheckAndAssignReputation {
    pub reputation: u8,
}

/// Every operation the program offers, with its payload.
pub enum DeResearcherInstruction {
    CreateResearcherProfile(CreateResearcherProfile),
    CreateResearchePaper(CreateResearchePaper),
    PublishPaper(PublishPaper),
    AddPeerReview(AddPeerReview),
    MintResearchPaper(MintResearchPaper),
    CheckAndAssignReputation(CheckAndAssignReputation),
}

/// The text field that starts at `off` of `s`: a four-byte little-endian
/// length, then that many bytes of valid UTF-8. Gives the text's bytes and
/// where the field ends.
pub open spec fn string_at(s: Seq<u8>, off: int) -> Option<(Seq<u8>, int)> {
    if 0 <= off && off + 4 <= s.len() {
        let n = spec_u32_from_le_bytes(s.subrange(off, off + 4)) as int;
        if off + 4 + n <= s.len() && valid_utf8(s.subrange(off + 4, off + 4 + n)) {
            Some((s.subrange(off + 4, off + 4 + n), off + 4 + n))
        } else {
            None
        }
    } else {
        None
    }
}

/// Whether a text field starts at `off` of `s` and one more byte ends `s`
/// right after it.
pub open spec fn string_then_byte_at(s: Seq<u8>, off: int) -> bool {
    string_at(s, off) is Some && string_at(s, off)->Some_0.1 + 1 == s.len()
}

/// Whether `s` is a whole instruction: an operation byte, then that
/// operation's payload, and nothing after it.
pub open spec fn instruction_parses(s: Seq<u8>) -> bool {
    &&& s.len() >= 1
    &&& if s[0] == 0 {
        string_at(s, 1) is Some && string_then_byte_at(s, string_at(s, 1)->Some_0.1)
    } else if s[0] == 1 {
        string_at(s, 5) is Some && string_then_byte_at(s, string_at(s, 5)->Some_0.1)
    } else if s[0] == 2 {
        s.len() == 2
    } else if s[0] == 3 {
        string_then_byte_at(s, 5)
    } else if s[0] == 4 {
        string_then_byte_at(s, 1)
    } else if s[0] == 5 {
        s.len() == 2
    } else {
        false
    }
}

/// The bytes of a text field: its length in four little-endian bytes, then
/// its UTF-8 bytes.
pub open spec fn encode_string(s: Seq<char>) -> Seq<u8> {
    spec_u32_to_le_bytes(encode_utf8(s).len() as u32) + encode_utf8(s)
}

/// The bytes of an instruction: the operation byte, then the payload's fields
/// in order.
pub open spec fn encode_instruction(ix: DeResearcherInstruction) -> Seq<u8> {
    match ix {
        DeResearcherInstruction::CreateResearcherProfile(d) => seq![0u8] + encode_string(d.name@)
            + encode_string(d.meta_data_merkle_root@) + seq![d.pda_bump],
        DeResearcherInstruction::CreateResearchePaper(d) => seq![1u8] + spec_u32_to_le_bytes(
            d.access_fee,
        ) + encode_string(d.paper_content_hash@) + encode_string(d.meta_data_merkle_root@)
            + seq![d.pda_bump],
        DeResearcherInstruction::PublishPaper(d) => seq![2u8, d.pda_bump],
        DeResearcherInstruction::AddPeerReview(d) => seq![
            3u8,
            d.quality_of_research,
            d.potential_for_real_world_use_case,
            d.domain_knowledge,
            d.practicality_of_result_obtained,
        ] + encode_string(d.meta_data_merkle_root@) + seq![d.pda_bump],
        DeResearcherInstruction::MintResearchPaper(d) => seq![4u8] + encode_string(
            d.meta_data_merkle_root@,
        ) + seq![d.pda_bump],
        DeResearcherInstruction::CheckAndAssignReputation(d) => seq![5u8, d.reputation],
    }
}

/// Whether every text field of `ix` is short enough for its four-byte length.
pub open spec fn fields_fit(ix: DeResearcherInstruction) -> bool {
    match ix {
        DeResearcherInstruction::CreateResearcherProfile(d) => encode_utf8(d.name@).len()
            <= u32::MAX && encode_utf8(d.meta_data_merkle_root@).len() <= u32::MAX,
        DeResearcherInstruction::CreateResearchePaper(d) => encode_utf8(d.paper_content_hash@).len()
            <= u32::MAX && encode_utf8(d.meta_data_merkle_root@).len() <= u32::MAX,
        DeResearcherInstruction::AddPeerReview(d) => encode_utf8(d.meta_data_merkle_root@).len()
            <= u32::MAX,
        DeResearcherInstruction::MintResearchPaper(d) => encode_utf8(d.meta_data_merkle_root@).len()
            <= u32::MAX,
        _ => true,
    }
}

/// Two text fields that start equal byte sequences are the same text, and
/// what follows them is the same.
pub proof fn lemma_string_field_injective(a: Seq<char>, b: Seq<char>, ra: Seq<u8>, rb: Seq<u8>)
    requires
        encode_utf8(a).len() <= u32::MAX,
        encode_utf8(b).len() <= u32::MAX,
        encode_string(a) + ra == encode_string(b) + rb,
    ensures
        a == b,
        ra == rb,
{
    lemma_auto_spec_u32_to_from_le_bytes();
    let s = encode_string(a) + ra;
    let la = encode_utf8(a).len();
    let lb = encode_utf8(b).len();
    assert(s.subrange(0, 4) =~= spec_u32_to_le_bytes(la as u32));
    assert(s.subrange(0, 4) =~= spec_u32_to_le_bytes(lb as u32));
    assert(la == lb);
    assert(s.subrange(4, 4 + la as int) =~= encode_utf8(a));
    assert(s.subrange(4, 4 + la as int) =~= encode_utf8(b));
    encode_utf8_decode_utf8(a);
    encode_utf8_decode_utf8(b);
    assert(decode_utf8(encode_utf8(a)) == decode_utf8(encode_utf8(b)));
    assert(ra =~= s.subrange(4 + la as int, s.len() as int));
    assert(rb =~= s.subrange(4 + la as int, s.len() as int));
}

/// Instructions with the same bytes carry the same operation, the same texts
/// and the same numbers.
pub proof fn lemma_instruction_encoding_injective(x: DeResearcherInstruction, y: DeResearcherInstruction)
    requires
        fields_fit(x),
        fields_fit(y),
        encode_instruction(x) == encode_instruction(y),
    ensures
        same_payload(x, y),
{
    let s = encode_instruction(x);
    lemma_instruction_tag(x);
    lemma_instruction_tag(y);
    match (x, y) {
        (
            DeResearcherInstruction::CreateResearcherProfile(a),
            DeResearcherInstruction::CreateResearcherProfile(b),
        ) => {
            let ta = encode_string(a.meta_data_merkle_root@) + seq![a.pda_bump];
            let tb = encode_string(b.meta_data_merkle_root@) + seq![b.pda_bump];
            assert(s.subrange(1, s.len() as int) =~= encode_string(a.name@) + ta);
            assert(s.subrange(1, s.len() as int) =~= encode_string(b.name@) + tb);
            lemma_string_field_injective(a.name@, b.name@, ta, tb);
            lemma_string_field_injective(
                a.meta_data_merkle_root@,
                b.meta_data_merkle_root@,
                seq![a.pda_bump],
                seq![b.pda_bump],
            );
            assert(seq![a.pda_bump][0] == seq![b.pda_bump][0]);
        },
        (
            DeResearcherInstruction::CreateResearchePaper(a),
            DeResearcherInstruction::CreateResearchePaper(b),
        ) => {
            lemma_auto_spec_u32_to_from_le_bytes();
            assert(s.subrange(1, 5) =~= spec_u32_to_le_bytes(a.access_fee));
            assert(s.subrange(1, 5) =~= spec_u32_to_le_bytes(b.access_fee));
            let ta = encode_string(a.meta_data_merkle_root@) + seq![a.pda_bump];
            let tb = encode_string(b.meta_data_merkle_root@) + seq![b.pda_bump];
            assert(s.subrange(5, s.len() as int) =~= encode_string(a.paper_content_hash@) + ta);
            assert(s.subrange(5, s.len() as int) =~= encode_string(b.paper_content_hash@) + tb);
            lemma_string_field_injective(a.paper_content_hash@, b.paper_content_hash@, ta, tb);
            lemma_string_field_injective(
                a.meta_data_merkle_root@,
                b.meta_data_merkle_root@,
                seq![a.pda_bump],
                seq![b.pda_bump],
            );
            assert(seq![a.pda_bump][0] == seq![b.pda_bump][0]);
        },
        (DeResearcherInstruction::PublishPaper(a), DeResearcherInstruction::PublishPaper(b)) => {
            assert(s[1] == a.pda_bump && encode_instruction(y)[1] == b.pda_bump);
        },
        (DeResearcherInstruction::AddPeerReview(a), DeResearcherInstruction::AddPeerReview(b)) => {
            assert(s[1] == a.quality_of_research && encode_instruction(y)[1]
                == b.quality_of_research);
            assert(s[2] == a.potential_for_real_world_use_case && encode_instruction(y)[2]
                == b.potential_for_real_world_use_case);
            assert(s[3] == a.domain_knowledge && encode_instruction(y)[3] == b.domain_knowledge);
            assert(s[4] == a.practicality_of_result_obtained && encode_instruction(y)[4]
                == b.practicality_of_result_obtained);
            assert(s.subrange(5, s.len() as int) =~= encode_string(a.meta_data_merkle_root@)
                + seq![a.pda_bump]);
            assert(s.subrange(5, s.len() as int) =~= encode_string(b.meta_data_merkle_root@)
                + seq![b.pda_bump]);
            lemma_string_field_injective(
                a.meta_data_merkle_root@,
                b.meta_data_merkle_root@,
                seq![a.pda_bump],
                seq![b.pda_bump],
            );
            assert(seq![a.pda_bump][0] == seq![b.pda_bump][0]);
        },
        (
            DeResearcherInstruction::MintResearchPaper(a),
            DeResearcherInstruction::MintResearchPaper(b),
        ) => {
            assert(s.subrange(1, s.len() as int) =~= encode_string(a.meta_data_merkle_root@)
                + seq![a.pda_bump]);
            assert(s.subrange(1, s.len() as int) =~= encode_string(b.meta_data_merkle_root@)
                + seq![b.pda_bump]);
            lemma_string_field_injective(
                a.meta_data_merkle_root@,
                b.meta_data_merkle_root@,
                seq![a.pda_bump],
                seq![b.pda_bump],
            );
            assert(seq![a.pda_bump][0] == seq![b.pda_bump][0]);
        },
        (
            DeResearcherInstruction::CheckAndAssignReputation(a),
            DeResearcherInstruction::CheckAndAssignReputation(b),
        ) => {
            assert(s[1] == a.reputation && encode_instruction(y)[1] == b.reputation);
        },
        _ => {},
    }
}

/// The operation byte of an instruction.
pub open spec fn instruction_tag(ix: DeResearcherInstruction) -> u8 {
    match ix {
        DeResearcherInstruction::CreateResearcherProfile(_) => 0,
        DeResearcherInstruction::CreateResearchePaper(_) => 1,
        DeResearcherInstruction::PublishPaper(_) => 2,
        DeResearcherInstruction::AddPeerReview(_) => 3,
        DeResearcherInstruction::MintResearchPaper(_) => 4,
        DeResearcherInstruction::CheckAndAssignReputation(_) => 5,
    }
}

/// An instruction's bytes start with its operation byte.
proof fn lemma_instruction_tag(ix: DeResearcherInstruction)
    ensures
        encode_instruction(ix).len() >= 1,
        encode_instruction(ix)[0] == instruction_tag(ix),
{
}

/// Whether two instructions are the same operation with the same texts and
/// numbers.
pub open spec fn same_payload(x: DeResearcherInstruction, y: DeResearcherInstruction) -> bool {
    match (x, y) {
        (
            DeResearcherInstruction::CreateResearcherProfile(a),
            DeResearcherInstruction::CreateResearcherProfile(b),
        ) => a.name@ == b.name@ && a.meta_data_merkle_root@ == b.meta_data_merkle_root@
            && a.pda_bump == b.pda_bump,
        (
            DeResearcherInstruction::CreateResearchePaper(a),
            DeResearcherInstruction::CreateResearchePaper(b),
        ) => a.access_fee == b.access_fee && a.paper_content_hash@ == b.paper_content_hash@
            && a.meta_data_merkle_root@ == b.meta_data_merkle_root@ && a.pda_bump == b.pda_bump,
        (DeResearcherInstruction::PublishPaper(a), DeResearcherInstruction::PublishPaper(b)) => a
            == b,
        (DeResearcherInstruction::AddPeerReview(a), DeResearcherInstruction::AddPeerReview(b)) => {
            &&& a.quality_of_research == b.quality_of_research
            &&& a.potential_for_real_world_use_case == b.potential_for_real_world_use_case
            &&& a.domain_knowledge == b.domain_knowledge
            &&& a.practicality_of_result_obtained == b.practicality_of_result_obtained
            &&& a.meta_data_merkle_root@ == b.meta_data_merkle_root@
            &&& a.pda_bump == b.pda_bump
        },
        (
            DeResearcherInstruction::MintResearchPaper(a),
            DeResearcherInstruction::MintResearchPaper(b),
        ) => a.meta_data_merkle_root@ == b.meta_data_merkle_root@ && a.pda_bump == b.pda_bump,
        (
            DeResearcherInstruction::CheckAndAssignReputation(a),
            DeResearcherInstruction::CheckAndAssignReputation(b),
        ) => a == b,
        _ => false,
    }
}

/// A text field placed after `prefix` is read back from there.
proof fn lemma_string_at_encoding(prefix: Seq<u8>, a: Seq<char>, rest: Seq<u8>)
    requires
        encode_utf8(a).len() <= u32::MAX,
    ensures
        string_at(prefix + encode_string(a) + rest, prefix.len() as int) == Some(
            (encode_utf8(a), (prefix.len() + 4 + encode_utf8(a).len()) as int),
        ),
{
    lemma_auto_spec_u32_to_from_le_bytes();
    encode_utf8_valid_utf8(a);
    let s = prefix + encode_string(a) + rest;
    let off = prefix.len() as int;
    let n = encode_utf8(a).len();
    assert(s.subrange(off, off + 4) =~= spec_u32_to_le_bytes(n as u32));
    assert(s.subrange(off + 4, off + 4 + n) =~= encode_utf8(a));
}

/// The bytes of every instruction whose texts fit parse as an instruction.
pub proof fn lemma_encoded_instruction_parses(ix: DeResearcherInstruction)
    requires
        fields_fit(ix),
    ensures
        instruction_parses(encode_instruction(ix)),
{
    lemma_auto_spec_u32_to_from_le_bytes();
    let s = encode_instruction(ix);
    match ix {
        DeResearcherInstruction::CreateResearcherProfile(d) => {
            let p0 = seq![0u8];
            let p1 = p0 + encode_string(d.name@);
            let tail = encode_string(d.meta_data_merkle_root@) + seq![d.pda_bump];
            lemma_string_at_encoding(p0, d.name@, tail);
            assert(s =~= p0 + encode_string(d.name@) + tail);
            lemma_string_at_encoding(p1, d.meta_data_merkle_root@, seq![d.pda_bump]);
            assert(s =~= p1 + encode_string(d.meta_data_merkle_root@) + seq![d.pda_bump]);
        },
        DeResearcherInstruction::CreateResearchePaper(d) => {
            let p0 = seq![1u8] + spec_u32_to_le_bytes(d.access_fee);
            let p1 = p0 + encode_string(d.paper_content_hash@);
            let tail = encode_string(d.meta_data_merkle_root@) + seq![d.pda_bump];
            lemma_string_at_encoding(p0, d.paper_content_hash@, tail);
            assert(s =~= p0 + encode_string(d.paper_content_hash@) + tail);
            lemma_string_at_encoding(p1, d.meta_data_merkle_root@, seq![d.pda_bump]);
            assert(s =~= p1 + encode_string(d.meta_data_merkle_root@) + seq![d.pda_bump]);
        },
        DeResearcherInstruction::AddPeerReview(d) => {
            let p0 = seq![
                3u8,
                d.quality_of_research,
                d.potential_for_real_world_use_case,
                d.domain_knowledge,
                d.practicality_of_result_obtained,
            ];
            lemma_string_at_encoding(p0, d.meta_data_merkle_root@, seq![d.pda_bump]);
        },
        DeResearcherInstruction::MintResearchPaper(d) => {
            lemma_string_at_encoding(seq![4u8], d.meta_data_merkle_root@, seq![d.pda_bump]);
        },
        _ => {},
    }
}

/// Reads the text field that starts at `off`.
fn read_string(data: &[u8], off: usize) -> (r: Option<(String, usize)>)
    ensures
        match r {
            Some((s, end)) => string_at(data@, off as int) == Some((encode_utf8(s@), end as int)),
            None => string_at(data@, off as int) is None,
        },
{
    let len = data.len();
    if off > len || len - off < 4 {
        return None;
    }
    let n = u32_from_le_bytes(slice_subrange(data, off, off + 4)) as usize;
    if len - (off + 4) < n {
        return None;
    }
    let mut bytes: Vec<u8> = Vec::new();
    append_bytes(&mut bytes, slice_subrange(data, off + 4, off + 4 + n));
    assert(bytes@ =~= data@.subrange(off + 4, off + 4 + n));
    match utf8_string(bytes) {
        Some(s) => Some((s, off + 4 + n)),
        None => None,
    }
}

/// Whether a text field read from `s` at `off` encodes as those bytes again.
proof fn lemma_string_at_encodes(s: Seq<u8>, off: int, text: Seq<char>)
    requires
        string_at(s, off) is Some,
        string_at(s, off)->Some_0.0 == encode_utf8(text),
    ensures
        s.subrange(off, string_at(s, off)->Some_0.1) == encode_string(text),
{
    lemma_auto_spec_u32_to_from_le_bytes();
    let n = spec_u32_from_le_bytes(s.subrange(off, off + 4));
    assert(encode_utf8(text).len() == n as int);
    assert(spec_u32_to_le_bytes(n) == s.subrange(off, off + 4));
    assert(s.subrange(off, off + 4 + n) =~= s.subrange(off, off + 4) + s.subrange(
        off + 4,
        off + 4 + n,
    ));
}

impl DeResearcherInstruction {
    /// Reads an instruction; bytes that are not exactly one whole instruction
    /// are refused.
    #[verifier::rlimit(40)]
    pub fn try_from_slice(data: &[u8]) -> (r: Result<DeResearcherInstruction, DeResearcherError>)
        ensures
            r is Ok <==> instruction_parses(data@),
            r is Ok ==> encode_instruction(r->Ok_0) == data@ && fields_fit(r->Ok_0),
            r is Err ==> r == Err::<DeResearcherInstruction, DeResearcherError>(
                DeResearcherError::InvalidInstruction,
            ),
    {
        let len = data.len();
        if len < 1 {
            return Err(DeResearcherError::InvalidInstruction);
        }
        let tag = data[0];
        if tag == 0 {
            let (name, e1) = match read_string(data, 1) {
                Some(v) => v,
                None => return Err(DeResearcherError::InvalidInstruction),
            };
            let (meta_data_merkle_root, e2) = match read_string(data, e1) {
                Some(v) => v,
                None => return Err(DeResearcherError::InvalidInstruction),
            };
            if len - e2 != 1 {
                return Err(DeResearcherError::InvalidInstruction);
            }
            let ix = DeResearcherInstruction::CreateResearcherProfile(
                CreateResearcherProfile { name, meta_data_merkle_root, pda_bump: data[e2] },
            );
            proof {
                lemma_string_at_encodes(data@, 1, name@);
                lemma_string_at_encodes(data@, e1 as int, meta_data_merkle_root@);
                assert(encode_instruction(ix) =~= data@.subrange(0, 1) + data@.subrange(1, e1 as int)
                    + data@.subrange(e1 as int, e2 as int) + data@.subrange(e2 as int, len as int));
                assert(encode_instruction(ix) =~= data@);
            }
            Ok(ix)
        } else if tag == 1 {
            if len < 5 {
                return Err(DeResearcherError::InvalidInstruction);
            }
            let access_fee = u32_from_le_bytes(slice_subrange(data, 1, 5));
            let (paper_content_hash, e1) = match read_string(data, 5) {
                Some(v) => v,
                None => return Err(DeResearcherError::InvalidInstruction),
            };
            let (meta_data_merkle_root, e2) = match read_string(data, e1) {
                Some(v) => v,
                None => return Err(DeResearcherError::InvalidInstruction),
            };
            if len - e2 != 1 {
                return Err(DeResearcherError::InvalidInstruction);
            }
            let ix = DeResearcherInstruction::CreateResearchePaper(
                CreateResearchePaper {
                    access_fee,
                    paper_content_hash,
                    meta_data_merkle_root,
                    pda_bump: data[e2],
                },
            );
            proof {
                lemma_auto_spec_u32_to_from_le_bytes();
                assert(spec_u32_to_le_bytes(access_fee) == data@.subrange(1, 5));
                lemma_string_at_encodes(data@, 5, paper_content_hash@);
                lemma_string_at_encodes(data@, e1 as int, meta_data_merkle_root@);
                assert(encode_instruction(ix) =~= data@.subrange(0, 1) + data@.subrange(1, 5)
                    + data@.subrange(5, e1 as int) + data@.subrange(e1 as int, e2 as int)
                    + data@.subrange(e2 as int, len as int));
                assert(encode_instruction(ix) =~= data@);
            }
            Ok(ix)
        } else if tag == 2 {
            if len != 2 {
                return Err(DeResearcherError::InvalidInstruction);
            }
            let ix = DeResearcherInstruction::PublishPaper(PublishPaper { pda_bump: data[1] });
            assert(encode_instruction(ix) =~= data@);
            Ok(ix)
        } else if tag == 3 {
            if len < 5 {
                return Err(DeResearcherError::InvalidInstruction);
            }
            let (meta_data_merkle_root, e1) = match read_string(data, 5) {
                Some(v) => v,
                None => return Err(DeResearcherError::InvalidInstruction),
            };
            if len - e1 != 1 {
                return Err(DeResearcherError::InvalidInstruction);
            }
            let ix = DeResearcherInstruction::AddPeerReview(
                AddPeerReview {
                    quality_of_research: data[1],
                    potential_for_real_world_use_case: data[2],
                    domain_knowledge: data[3],
                    practicality_of_result_obtained: data[4],
                    meta_data_merkle_root,
                    pda_bump: data[e1],
                },
            );
            proof {
                lemma_string_at_encodes(data@, 5, meta_data_merkle_root@);
                assert(encode_instruction(ix) =~= data@.subrange(0, 5) + data@.subrange(5, e1 as int)
                    + data@.subrange(e1 as int, len as int));
                assert(encode_instruction(ix) =~= data@);
            }
            Ok(ix)
        } else if tag == 4 {
            let (meta_data_merkle_root, e1) = match read_string(data, 1) {
                Some(v) => v,
                None => return Err(DeResearcherError::InvalidInstruction),
            };
            if len - e1 != 1 {
                return Err(DeResearcherError::InvalidInstruction);
            }
            let ix = DeResearcherInstruction::MintResearchPaper(
                MintResearchPaper { meta_data_merkle_root, pda_bump: data[e1] },
            );
            proof {
                lemma_string_at_encodes(data@, 1, meta_data_merkle_root@);
                assert(encode_instruction(ix) =~= data@.subrange(0, 1) + data@.subrange(1, e1 as int)
                    + data@.subrange(e1 as int, len as int));
                assert(encode_instruction(ix) =~= data@);
            }
            Ok(ix)
        } else if tag == 5 {
            if len != 2 {
                return Err(DeResearcherError::InvalidInstruction);
            }
            let ix = DeResearcherInstruction::CheckAndAssignReputation(
                CheckAndAssignReputation { reputation: data[1] },
            );
            assert(encode_instruction(ix) =~= data@);
            Ok(ix)
        } else {
            Err(DeResearcherError::InvalidInstruction)
        }
    }
}

} // verus!
