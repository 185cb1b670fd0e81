//! Payment card number validation.
//!
//! A card number is classified into a network type by ordered pattern
//! matching over its characters, its length is checked against that
//! network's length rule, and its checksum is checked with the Luhn
//! algorithm. Every operation is a pure function over the input string:
//! malformed input is never an error, it simply yields an invalid result.

pub mod card_type;
pub mod validate;

pub use card_type::Type;
pub use validate::Validate;
