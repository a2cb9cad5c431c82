//! A per-account profile record: one owner, two scalar fields and eight
//! collections with set semantics, changed only through operations that
//! check the caller against the owner before they write.

pub mod account;
pub mod error;
pub mod laws;
pub mod profile;
pub mod record;
pub mod value;
pub mod value_set;

pub use crate::account::AccountId;
pub use crate::error::ProfileError;
pub use crate::profile::{Profile, ProfileParts};
pub use crate::record::{Comment, Education, Job, NFTInfo, Timestamp};
pub use crate::value::Value;
pub use crate::value_set::ValueSet;
