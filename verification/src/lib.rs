//! Client core for the Developers Italia catalog API.
//!
//! The crate decides everything about a conversation with the API except the
//! sending itself: which request a command makes ([`command`]), how a request
//! is put together and what a response body means ([`transport`]), and how a
//! collection is listed by following the links from page to page
//! ([`paginator`], with the proofs about a whole listing in [`walk`]). The
//! records of the catalog are in [`records`]. JSON values are those of
//! `serde_json`, reached through [`json`].
//!
//! Every function carries a contract. The contracts are proved, but for
//! those of the `serde_json` calls in [`json`], which are taken on trust.

pub mod command;
pub mod json;
pub mod paginator;
pub mod records;
pub mod text;
pub mod transport;
pub mod walk;
