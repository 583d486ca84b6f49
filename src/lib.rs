//! Classification and mirroring of the bracket characters that the Unicode
//! bidirectional algorithm pairs (the `BidiBrackets.txt` data of Unicode 9.0.0).
//!
//! The pairs live in one table, `table::closing_partner`; both conversions
//! are proved to agree with it, and the classification is derived from them.
pub mod brackets;
pub mod table;

pub use brackets::{UnicodeBrackets, UNICODE_VERSION};
