//! A verified core for a partitioned document-store client.
//!
//! The crate models the client-side logic of a Cosmos-style document
//! database SDK: partition-key encoding and derivation, request
//! construction for the account / database / container hierarchy,
//! classification of service errors, and aggregation of paged query
//! results.  Network transport and host-language marshaling live
//! outside the library; the library hands them plain values and
//! receives plain values back.

pub mod client;
pub mod errors;
pub mod json;
pub mod keys;
pub mod pager;
pub mod requests;
pub mod sdk;
pub mod store;
