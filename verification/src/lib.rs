//! A registry of proofs of authorship.
//!
//! Whoever has an idea submits the hash of its content, with a kind, and a
//! title and a description if they like. The registry ties the hash to the
//! submitter and to the time of the request, at an address that is derived
//! from hash and submitter, and keeps the record for good: no request changes
//! or removes it, and the same submitter cannot record the same hash twice.
//!
//! - [`validator`] holds the rules for the fields of a request.
//! - [`address`] derives the address of a record.
//! - [`store`] keeps the records, one at an address.
//! - [`instructions`] are the requests that the registry serves.
//! - [`laws`] states what holds of every sequence of requests.

pub mod address;
pub mod error;
pub mod instructions;
pub mod laws;
pub mod state;
pub mod store;
pub mod validator;

pub use crate::error::IdeaProofError;
pub use crate::instructions::query::{get_idea_by_hash, get_ideas_by_user, GetIdeaByHash, GetIdeasByUser};
pub use crate::instructions::record::{record_idea, RecordIdea};
pub use crate::state::{FileType, IdeaRecord};
pub use crate::store::RecordStore;
