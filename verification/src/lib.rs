//! A verified core for a headline-reading application: a typed client for a
//! news provider (endpoint construction, envelope validation, a closed error
//! taxonomy), the conversion of raw article records into display cards, and
//! the state machine of the background fetch worker.

use vstd::prelude::*;
use vstd::string::*;

pub mod cards;
pub mod channel;
pub mod headlines;
pub mod news;
pub mod poller;
pub mod worker;

verus! {

/// The placeholder shown when an article arrives without a description.
pub open spec fn placeholder_view() -> Seq<char> {
    "..."@
}

/// Returns the placeholder used for a missing article description.
pub fn description_placeholder() -> (r: String)
    ensures
        r@ == placeholder_view(),
{
    String::from_str("...")
}

} // verus!
