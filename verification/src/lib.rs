//! Topic keys for a publish/subscribe messaging system.
//!
//! A topic key is the canonical, fixed-form identifier derived from a
//! human-chosen topic name.  Two derivation strategies exist: a transparent
//! one, whose key is the name itself, and a cryptographic one, which hashes
//! a canonical encoding of the name and renders the digest in base64.  The
//! rest of the messaging system treats the key as an opaque, totally
//! ordered, string-projectable value.

pub mod encoding;
pub mod hashing;
pub mod topic;

pub use topic::Hasher;
pub use topic::IdentityHash;
pub use topic::Sha256Hash;
pub use topic::Topic;
pub use topic::TopicHash;
