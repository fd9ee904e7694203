//! A verified client core for a fixed remote transit-data XML feed.
//!
//! The crate builds validated, parameterized requests for the feed's
//! eight commands and decodes their XML responses into structured
//! records.  The two load-bearing parts are the command/parameter
//! validity model (`request`) and the single-pass hierarchical
//! decoder over structural events (`events` and the per-command
//! modules); both carry exact contracts.  The network transport is
//! the caller's: the library only produces URLs and consumes response
//! text.

use vstd::prelude::*;

pub mod agency_list;
pub mod error;
pub mod events;
pub mod predictions;
pub mod request;
pub mod route_config;
pub mod route_list;
pub mod text;

pub use error::Error;

verus! {

/// The crate's entry point: hands out one builder per command.
pub struct NextBus;

impl NextBus {
    pub fn new() -> NextBus {
        NextBus
    }

    /// A builder for the agency-list command.
    pub fn agency_list(self) -> agency_list::AgencyListBuilder {
        agency_list::AgencyListBuilder::new()
    }

    /// A builder for the route-list command.
    pub fn route_list(self) -> (r: route_list::RouteListBuilder)
        ensures
            r.agency is None,
    {
        route_list::RouteListBuilder::new()
    }
}

} // verus!
