//! The storage service: the ingest step of the pipeline bound to the
//! event repository.
//!
//! The ingest worker of the pipeline is strictly serial: it maps each wire
//! event to its persisted document, appends it, and hands the stored row
//! on. `ingest_event` is that per-event step; `ingest_stream` is the drain
//! of a whole batch in arrival order, which is how the worker behaves
//! between the opening and the close of its inbound channel.

use vstd::prelude::*;

use crate::storage::model::{EthEventData, EthEventModel, EthEventTypeDiscriminants};
use crate::storage::repository::{
    lemma_fetch_fresh_row, lemma_spec_fetch_matches, rows_well_formed, spec_fetch,
    EthEventRepository,
};
use crate::subscriber::model::Event;

verus! {

/// Service for persisting Ethereum events and reading them back.
pub struct StorageService {
    repo: EthEventRepository,
}

impl View for StorageService {
    type V = Seq<EthEventModel>;

    closed spec fn view(&self) -> Seq<EthEventModel> {
        self.repo@
    }
}

impl StorageService {
    /// The service invariant: the rows it holds are well formed.
    pub open spec fn wf(&self) -> bool {
        rows_well_formed(self@)
    }

    /// Create a new service over an empty store.
    pub fn new() -> (r: Self)
        ensures
            r.wf(),
            r@ == Seq::<EthEventModel>::empty(),
    {
        StorageService { repo: EthEventRepository::new() }
    }

    /// Persist one event document and return the stored row.
    pub fn save_event(&mut self, data: EthEventData, now_millis: i64) -> (r: EthEventModel)
        requires
            old(self).wf(),
            old(self)@.len() < u64::MAX,
        ensures
            final(self).wf(),
            final(self)@ == old(self)@.push(r),
            r.id == old(self)@.len(),
            r.version == 0,
            r.create_epoch_millis == now_millis,
            r.update_epoch_millis == now_millis,
            r.data == data,
    {
        self.repo.save(data, now_millis)
    }

    /// Fetch up to `limit` rows with identifier at least `from_id`, in
    /// ascending identifier order, optionally restricted to rows whose
    /// document carries the given discriminant.
    pub fn fetch_all_events(
        &self,
        event_type: Option<EthEventTypeDiscriminants>,
        from_id: u64,
        limit: u32,
    ) -> (r: Vec<EthEventModel>)
        ensures
            r@ == spec_fetch(self@, event_type, from_id, limit as nat),
            r@.len() <= limit,
            forall|j: int|
                0 <= j < r@.len() ==> (#[trigger] r@[j]).id >= from_id && (event_type matches Some(
                    tag,
                ) ==> r@[j].data.event_type.tag() == tag),
    {
        let r = match event_type {
            Some(tag) => self.repo.fetch_all_by_type(tag, from_id, limit),
            None => self.repo.fetch_all(from_id, limit),
        };
        proof {
            lemma_spec_fetch_matches(self@, event_type, from_id, limit as nat);
        }
        r
    }

    /// The per-event step of the ingest worker: map the wire event to its
    /// persisted document and append it.
    pub fn ingest_event(&mut self, event: Event, now_millis: i64) -> (r: EthEventModel)
        requires
            old(self).wf(),
            old(self)@.len() < u64::MAX,
        ensures
            final(self).wf(),
            final(self)@ == old(self)@.push(r),
            r.id == old(self)@.len(),
            r.version == 0,
            r.create_epoch_millis == now_millis,
            r.update_epoch_millis == now_millis,
            r.data == EthEventData::spec_of_event(event),
    {
        let data = EthEventData::of_event(event);
        self.repo.save(data, now_millis)
    }

    /// Drain a batch of wire events in arrival order, persisting each and
    /// returning the stored rows in the same order.
    ///
    /// Each returned row carries the document its event maps to, and the
    /// rows' identifiers continue the store's sequence: the row of the
    /// k-th event is the k-th row appended.
    pub fn ingest_stream(&mut self, events: &Vec<Event>, now_millis: i64) -> (r: Vec<
        EthEventModel,
    >)
        requires
            old(self).wf(),
            old(self)@.len() + events@.len() <= u64::MAX,
        ensures
            final(self).wf(),
            r@.len() == events@.len(),
            final(self)@ == old(self)@ + r@,
            forall|k: int|
                0 <= k < events@.len() ==> {
                    &&& (#[trigger] r@[k]).data == EthEventData::spec_of_event(events@[k])
                    &&& r@[k].id == old(self)@.len() + k
                    &&& r@[k].version == 0
                    &&& r@[k].create_epoch_millis == now_millis
                    &&& r@[k].update_epoch_millis == now_millis
                },
            forall|i: int, j: int|
                0 <= i < j < r@.len() ==> (#[trigger] r@[i]).id < (#[trigger] r@[j]).id,
    {
        let n: usize = events.len();
        let mut out: Vec<EthEventModel> = Vec::new();
        let mut i: usize = 0;
        proof {
            assert(self@ + out@ =~= self@);
        }
        while i < n
            invariant
                n == events@.len(),
                i <= n,
                out@.len() == i,
                self.wf(),
                old(self)@.len() + events@.len() <= u64::MAX,
                self@ == old(self)@ + out@,
                forall|k: int|
                    0 <= k < i ==> {
                        &&& (#[trigger] out@[k]).data == EthEventData::spec_of_event(events@[k])
                        &&& out@[k].id == old(self)@.len() + k
                        &&& out@[k].version == 0
                        &&& out@[k].create_epoch_millis == now_millis
                        &&& out@[k].update_epoch_millis == now_millis
                    },
            decreases n - i,
        {
            let row = self.ingest_event(events[i], now_millis);
            out.push(row);
            proof {
                assert(self@ =~= old(self)@ + out@);
            }
            i = i + 1;
        }
        out
    }
}

/// Persisting one event and fetching one row at its cursor yields exactly
/// the stored row, whose document is the mapping of the event: what the
/// pipeline writes is what a reader at that cursor sees.
pub proof fn lemma_ingest_then_fetch(rows: Seq<EthEventModel>, row: EthEventModel, event: Event)
    requires
        rows_well_formed(rows),
        row.id == rows.len(),
        row.data == EthEventData::spec_of_event(event),
    ensures
        spec_fetch(rows.push(row), None, row.id, 1) =~= seq![row],
        spec_fetch(rows.push(row), None, row.id, 1)[0].data == EthEventData::spec_of_event(event),
{
    assert forall|i: int| 0 <= i < rows.len() implies (#[trigger] rows[i]).id < row.id by {}
    lemma_fetch_fresh_row(rows, row);
}

} // verus!
