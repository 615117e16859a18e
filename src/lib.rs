//! Record management and authorization core of a decentralized research
//! publishing program: researcher profiles, papers, peer reviews and access
//! records, stored at derived addresses in fixed-width layouts, and the
//! lifecycle rules that gate publication, review and paid access.
//!
//! Modules:
//! - `state`: the records, their byte layouts, and bounded text fields;
//! - `pda`: derivation and validation of record addresses;
//! - `lifecycle`: what each operation does to the records;
//! - `instruction`: the operations' payloads and their byte format;
//! - `processor`: the handlers, from accounts and payload to the effects the
//!   host carries out, and the dispatch over all operations;
//! - `error`, `bytes`: error codes and byte helpers.
//!
//! Policy:
//! - a paper needs `MIN_APPROVALS_FOR_PUBLISH` (one) approving review to
//!   become ready to publish, and only a paper in that state is published;
//!   one that has not reached it is refused with `NotEnoughApprovals`;
//! - a paper's state only moves forward: a review never takes a paper that
//!   is ready to publish, or published, back;
//! - review sub-scores above 100 are refused with `SizeOverflow`;
//! - access is granted to published papers only, and the fee goes to the
//!   paper's creator, who must be the fee receiver supplied;
//! - a counter that would overflow refuses the operation with `SizeOverflow`;
//! - a paper's address is derived from the first 32 bytes of its zero-padded
//!   content hash and its creator's key; a review's from the paper's address
//!   and the referee's key;
//! - a bump supplied with an instruction must be the canonical one, the
//!   highest that yields an address, so each owner has one profile, each
//!   creator and content hash one paper, each paper and referee one review,
//!   and each reader one access record.

pub mod bytes;
pub mod error;
pub mod instruction;
pub mod lifecycle;
pub mod pda;
pub mod processor;
pub mod state;
