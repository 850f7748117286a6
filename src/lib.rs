//! Minimal RFC4122 identifiers: a 16-byte value, its text forms, and the
//! time-based, random and name-based ways of generating one.

pub mod generate;
pub mod hex;
pub mod layout;
pub mod parse;
pub mod render;
pub mod timestamp;

pub use generate::RandomUnavailable;
pub use hex::byte_to_hex;
pub use layout::{Uuid, Version, NAMESPACE_DNS, NAMESPACE_OID, NAMESPACE_URL, NAMESPACE_X500};
pub use parse::ParseError;
pub use timestamp::Timestamp;
