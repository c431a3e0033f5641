//! Opaque bearer tokens for API access: issuing, verifying, revoking and
//! listing, with every rule stated as a contract and proved.
//!
//! A token is a secret string that is handed out once. The table keeps only
//! the SHA-256 digest of it, next to the owner, a label and the row's
//! timestamps; a presented secret is verified by digest.
//!
//! - [`secret`]: the text of a secret, its digest, and the comparison of
//!   digests.
//! - [`ident`]: identifiers, read from text by the `uuid` crate and written
//!   as text.
//! - [`models`]: the rows.
//! - [`db`]: the table, the four operations on it, their errors and the
//!   laws that hold between them.
//! - [`crypto`], [`strings`]: random numbers, SHA-256 and `String::push`,
//!   taken on trust with the contracts stated there.

pub mod crypto;
pub mod db;
mod filtering;
pub mod ident;
pub mod models;
pub mod secret;
pub mod strings;
