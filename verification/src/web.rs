//! The read contract of the log endpoint.
//!
//! One operation is exposed to HTTP clients: a paginated, optionally
//! type-filtered read of the persisted records. The query parameters are
//! all optional; an absent cursor starts at zero, an absent page size is
//! ten, and any requested page size above one hundred is silently clamped
//! to one hundred. The HTTP framing around this lives outside the
//! library: it hands the parsed parameters in and serializes the rows
//! that come back.

use vstd::prelude::*;

use crate::storage::model::{EthEventModel, EthEventTypeDiscriminants};
use crate::storage::repository::spec_fetch;
use crate::storage::service::StorageService;

verus! {

/// The largest number of records one read may return.
pub const MAX_PAGE: u32 = 100;

/// The default number of records a read returns.
pub const DEFAULT_PAGE: u32 = 10;

/// The parsed query parameters of the log endpoint.
#[derive(Clone, Copy, Debug)]
pub struct LogQuery {
    /// The discriminant to filter by; absent means no filter.
    pub event_type: Option<EthEventTypeDiscriminants>,
    /// The identifier of the first record to return; absent means zero.
    pub from_id: Option<u64>,
    /// The greatest number of records to return; absent means ten, and
    /// values above one hundred are clamped to one hundred.
    pub max: Option<u32>,
}

impl LogQuery {
    /// The cursor the query starts at.
    pub open spec fn spec_from_id(&self) -> u64 {
        match self.from_id {
            Some(v) => v,
            None => 0,
        }
    }

    /// The page size the query is answered with.
    pub open spec fn spec_max(&self) -> u32 {
        let asked = match self.max {
            Some(v) => v,
            None => DEFAULT_PAGE,
        };
        if asked > MAX_PAGE {
            MAX_PAGE
        } else {
            asked
        }
    }

    /// The cursor the query starts at: the given one, or zero.
    pub fn resolved_from_id(&self) -> (r: u64)
        ensures
            r == self.spec_from_id(),
    {
        match self.from_id {
            Some(v) => v,
            None => 0,
        }
    }

    /// The page size the query is answered with: the given one or the
    /// default of ten, clamped to one hundred.
    pub fn resolved_max(&self) -> (r: u32)
        ensures
            r == self.spec_max(),
            r <= MAX_PAGE,
    {
        let asked: u32 = match self.max {
            Some(v) => v,
            None => DEFAULT_PAGE,
        };
        if asked > MAX_PAGE {
            MAX_PAGE
        } else {
            asked
        }
    }
}

/// Answer one read of the log endpoint: up to `max` records with
/// identifier at least `from_id`, ascending by identifier, optionally
/// filtered by discriminant, with the defaults and the clamp of the
/// endpoint applied.
pub fn get_logs(service: &StorageService, query: &LogQuery) -> (r: Vec<EthEventModel>)
    ensures
        r@ == spec_fetch(service@, query.event_type, query.spec_from_id(), query.spec_max() as nat),
        r@.len() <= query.spec_max(),
        r@.len() <= MAX_PAGE,
        forall|j: int|
            0 <= j < r@.len() ==> (#[trigger] r@[j]).id >= query.spec_from_id() && (
            query.event_type matches Some(tag) ==> r@[j].data.event_type.tag() == tag),
{
    let from_id = query.resolved_from_id();
    let max = query.resolved_max();
    service.fetch_all_events(query.event_type, from_id, max)
}

} // verus!
