//! Builds a human-reviewable overview of a decoded Cosmos transaction:
//! each recognized message in the transaction's ordered message list is
//! decoded and rendered into a fixed set of display fields, so that a user
//! can confirm exactly what they are signing.
//!
//! - [`value`] models the structured input records;
//! - [`msgs`] decodes each recognized kind's payload;
//! - [`fmt`] renders coin amounts, [`chain`] resolves chain context, and
//!   [`textdec`] decodes off-chain signing payloads for display;
//! - [`overview`] detects each record's kind, builds its display record,
//!   and aggregates the whole ordered overview, all-or-nothing.

use vstd::prelude::*;

pub mod chain;
pub mod fmt;
pub mod msgs;
pub mod overview;
pub mod textdec;
pub mod value;

verus! {

/// Errors that block signing: the overview is all-or-nothing, so any of
/// these aborts the whole construction.
#[derive(Debug, Clone, PartialEq, Eq)]
pub enum CosmosError {
    /// The top-level payload is not a message list.
    ParseTxError(String),
    /// A recognized message kind has a missing or mistyped required field.
    DecodeMsgError(String),
}

} // verus!
