//! Peer-identity and project-replication orchestration over a content-addressed store.
//!
//! The storage substrate, the signer and the gossip network are driven from the
//! outside; this crate holds the decisions that sit between their answers: which
//! branch is the default, which role a peer has, which projects are owned locally,
//! when the include file is regenerated and how a working copy is described.
use vstd::prelude::*;

pub mod id;
pub mod identity;
pub mod refs;
pub mod error;
pub mod branch;
pub mod peer;
pub mod tracking;
pub mod listing;
pub mod state;
pub mod checkout;
pub mod transport;

verus! {

} // verus!
