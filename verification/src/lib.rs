//! A verified model of a registry-and-routing layer for a network of
//! versioned actor contracts.
//!
//! The crate holds four components: an address resolver that classifies
//! logical recipient identifiers, a component registry that maps logical
//! component types and versions to deployable code ids, a message-routing
//! kernel that admits, authorizes and dispatches message packets, and a fee
//! ledger that settles per-action fees across layered payer balances.
//!
//! All keyed stores are modelled as explicit values owned by a single
//! component instance; every lookup takes the store as an explicit
//! parameter.

pub mod address;
pub mod adodb;
pub mod aos_querier;
pub mod economics;
pub mod error;
pub mod kernel;
pub mod kv;
pub mod strutil;
pub mod types;
pub mod version;
