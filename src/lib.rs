//! Polls a paginated feed of activities and users, screens each record against
//! keyword and score rules, and prepares a notification for every record not
//! yet reported by the current job.
use vstd::prelude::*;

pub mod anilist;
pub mod embeds;
pub mod ledger;
pub mod rules;
pub mod supervisor;
pub mod text;
pub mod webhooks;

verus! {

} // verus!
