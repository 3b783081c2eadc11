//! A small authoritative record store for a proposal/voting workflow.
//!
//! Proposals are created with a fresh, strictly increasing identifier,
//! voted on by option index, edited by their owner while still active,
//! and closed permanently by their owner.  Every operation's effect on
//! the store is stated in its contract and proved.

pub mod caller;
pub mod engine;
pub mod id_alloc;
pub mod proposal;
pub mod store;
