//! The append-only event repository.
//!
//! The repository realizes the storage contract of the pipeline: `save`
//! appends a row under a fresh, strictly increasing identifier, and the
//! fetch operations return up to `limit` rows whose identifier is at least
//! `from_id`, in ascending identifier order, optionally restricted to one
//! discriminant tag. `spec_fetch` is the mathematical statement of that
//! read, and every fetch result equals it exactly.

use vstd::prelude::*;

use crate::storage::model::{EthEventData, EthEventModel, EthEventTypeDiscriminants};

verus! {

/// Whether a row is selected by a fetch with the given filter and cursor.
pub open spec fn matches_query(
    row: EthEventModel,
    filter: Option<EthEventTypeDiscriminants>,
    from_id: u64,
) -> bool {
    &&& row.id >= from_id
    &&& (filter matches Some(tag) ==> row.data.event_type.tag() == tag)
}

/// The first `limit` rows of `rows`, in order, that a fetch with the given
/// filter and cursor selects.
pub open spec fn spec_fetch(
    rows: Seq<EthEventModel>,
    filter: Option<EthEventTypeDiscriminants>,
    from_id: u64,
    limit: nat,
) -> Seq<EthEventModel>
    decreases rows.len(),
{
    if rows.len() == 0 || limit == 0 {
        Seq::empty()
    } else if matches_query(rows[0], filter, from_id) {
        seq![rows[0]] + spec_fetch(rows.drop_first(), filter, from_id, (limit - 1) as nat)
    } else {
        spec_fetch(rows.drop_first(), filter, from_id, limit)
    }
}

/// A fetch honors its limit: it returns at most `limit` rows.
pub proof fn lemma_spec_fetch_len(
    rows: Seq<EthEventModel>,
    filter: Option<EthEventTypeDiscriminants>,
    from_id: u64,
    limit: nat,
)
    ensures
        spec_fetch(rows, filter, from_id, limit).len() <= limit,
    decreases rows.len(),
{
    if rows.len() == 0 || limit == 0 {
    } else if matches_query(rows[0], filter, from_id) {
        lemma_spec_fetch_len(rows.drop_first(), filter, from_id, (limit - 1) as nat);
    } else {
        lemma_spec_fetch_len(rows.drop_first(), filter, from_id, limit);
    }
}

/// Every row a fetch returns is selected by its filter and cursor: its
/// identifier is at least `from_id`, and under a discriminant filter its
/// document carries that discriminant.
pub proof fn lemma_spec_fetch_matches(
    rows: Seq<EthEventModel>,
    filter: Option<EthEventTypeDiscriminants>,
    from_id: u64,
    limit: nat,
)
    ensures
        forall|j: int|
            0 <= j < spec_fetch(rows, filter, from_id, limit).len() ==> matches_query(
                #[trigger] spec_fetch(rows, filter, from_id, limit)[j],
                filter,
                from_id,
            ),
    decreases rows.len(),
{
    if rows.len() == 0 || limit == 0 {
    } else if matches_query(rows[0], filter, from_id) {
        lemma_spec_fetch_matches(rows.drop_first(), filter, from_id, (limit - 1) as nat);
        let res = spec_fetch(rows, filter, from_id, limit);
        let sub = spec_fetch(rows.drop_first(), filter, from_id, (limit - 1) as nat);
        assert forall|j: int| 0 <= j < res.len() implies matches_query(
            res[j],
            filter,
            from_id,
        ) by {
            if j > 0 {
                assert(res[j] == sub[j - 1]);
                assert(matches_query(sub[j - 1], filter, from_id));
            }
        }
    } else {
        lemma_spec_fetch_matches(rows.drop_first(), filter, from_id, limit);
        let res = spec_fetch(rows, filter, from_id, limit);
        let sub = spec_fetch(rows.drop_first(), filter, from_id, limit);
        assert forall|j: int| 0 <= j < res.len() implies matches_query(
            res[j],
            filter,
            from_id,
        ) by {
            assert(res[j] == sub[j]);
            assert(matches_query(sub[j], filter, from_id));
        }
    }
}

/// If every row of `rows` has an identifier above `bound`, so does every
/// row of a fetch from `rows`.
pub proof fn lemma_spec_fetch_ids_above(
    rows: Seq<EthEventModel>,
    filter: Option<EthEventTypeDiscriminants>,
    from_id: u64,
    limit: nat,
    bound: u64,
)
    requires
        forall|i: int| 0 <= i < rows.len() ==> (#[trigger] rows[i]).id > bound,
    ensures
        forall|j: int|
            0 <= j < spec_fetch(rows, filter, from_id, limit).len() ==> (#[trigger] spec_fetch(
                rows,
                filter,
                from_id,
                limit,
            )[j]).id > bound,
    decreases rows.len(),
{
    if rows.len() == 0 || limit == 0 {
    } else {
        let res = spec_fetch(rows, filter, from_id, limit);
        assert forall|i: int| 0 <= i < rows.drop_first().len() implies (#[trigger] rows.drop_first()[i]).id
            > bound by {
            assert(rows.drop_first()[i] == rows[i + 1]);
        }
        if matches_query(rows[0], filter, from_id) {
            lemma_spec_fetch_ids_above(
                rows.drop_first(),
                filter,
                from_id,
                (limit - 1) as nat,
                bound,
            );
            let sub = spec_fetch(rows.drop_first(), filter, from_id, (limit - 1) as nat);
            assert forall|j: int| 0 <= j < res.len() implies (res[j]).id > bound by {
                if j == 0 {
                    assert(rows[0].id > bound);
                } else {
                    assert(res[j] == sub[j - 1]);
                    assert(sub[j - 1].id > bound);
                }
            }
        } else {
            lemma_spec_fetch_ids_above(rows.drop_first(), filter, from_id, limit, bound);
            let sub = spec_fetch(rows.drop_first(), filter, from_id, limit);
            assert forall|j: int| 0 <= j < res.len() implies (res[j]).id > bound by {
                assert(res[j] == sub[j]);
                assert(sub[j].id > bound);
            }
        }
    }
}

/// A fetch from rows sorted strictly by identifier is itself sorted
/// strictly by identifier: append order is preserved.
pub proof fn lemma_spec_fetch_sorted(
    rows: Seq<EthEventModel>,
    filter: Option<EthEventTypeDiscriminants>,
    from_id: u64,
    limit: nat,
)
    requires
        forall|i: int, j: int|
            0 <= i < j < rows.len() ==> (#[trigger] rows[i]).id < (#[trigger] rows[j]).id,
    ensures
        forall|i: int, j: int|
            0 <= i < j < spec_fetch(rows, filter, from_id, limit).len() ==> (#[trigger] spec_fetch(
                rows,
                filter,
                from_id,
                limit,
            )[i]).id < (#[trigger] spec_fetch(rows, filter, from_id, limit)[j]).id,
    decreases rows.len(),
{
    if rows.len() == 0 || limit == 0 {
    } else {
        let rest = rows.drop_first();
        let res = spec_fetch(rows, filter, from_id, limit);
        assert forall|i: int, j: int| 0 <= i < j < rest.len() implies (#[trigger] rest[i]).id
            < (#[trigger] rest[j]).id by {
            assert(rest[i] == rows[i + 1]);
            assert(rest[j] == rows[j + 1]);
        }
        if matches_query(rows[0], filter, from_id) {
            assert forall|i: int| 0 <= i < rest.len() implies (#[trigger] rest[i]).id
                > rows[0].id by {
                assert(rest[i] == rows[i + 1]);
            }
            lemma_spec_fetch_ids_above(rest, filter, from_id, (limit - 1) as nat, rows[0].id);
            lemma_spec_fetch_sorted(rest, filter, from_id, (limit - 1) as nat);
            let sub = spec_fetch(rest, filter, from_id, (limit - 1) as nat);
            assert forall|i: int, j: int| 0 <= i < j < res.len() implies (res[i]).id
                < (res[j]).id by {
                assert(res[j] == sub[j - 1]);
                assert(sub[j - 1].id > rows[0].id);
                if i > 0 {
                    assert(res[i] == sub[i - 1]);
                    assert(sub[i - 1].id < sub[j - 1].id);
                }
            }
        } else {
            lemma_spec_fetch_sorted(rest, filter, from_id, limit);
            let sub = spec_fetch(rest, filter, from_id, limit);
            assert forall|i: int, j: int| 0 <= i < j < res.len() implies (res[i]).id
                < (res[j]).id by {
                assert(res[i] == sub[i]);
                assert(res[j] == sub[j]);
                assert(sub[i].id < sub[j].id);
            }
        }
    }
}

/// Fetching one row at the cursor of a freshly appended row returns
/// exactly that row: every earlier row has a smaller identifier, so the
/// scan passes them over and stops at the new row.
pub proof fn lemma_fetch_fresh_row(rows: Seq<EthEventModel>, row: EthEventModel)
    requires
        forall|i: int| 0 <= i < rows.len() ==> (#[trigger] rows[i]).id < row.id,
    ensures
        spec_fetch(rows.push(row), None, row.id, 1) =~= seq![row],
    decreases rows.len(),
{
    let whole = rows.push(row);
    if rows.len() == 0 {
        reveal_with_fuel(spec_fetch, 3);
        assert(whole[0] == row);
        assert(matches_query(row, None, row.id));
        assert(whole.drop_first() =~= Seq::empty());
        assert(seq![row] + Seq::<EthEventModel>::empty() =~= seq![row]);
    } else {
        assert(whole[0] == rows[0]);
        assert(!matches_query(rows[0], None, row.id));
        assert(whole.drop_first() =~= rows.drop_first().push(row));
        assert forall|i: int| 0 <= i < rows.drop_first().len() implies (#[trigger] rows.drop_first()[i]).id
            < row.id by {
            assert(rows.drop_first()[i] == rows[i + 1]);
        }
        lemma_fetch_fresh_row(rows.drop_first(), row);
    }
}

/// A cursor beyond every stored identifier selects nothing: the fetch
/// returns an empty answer, not an error.
pub proof fn lemma_fetch_past_the_end(
    rows: Seq<EthEventModel>,
    filter: Option<EthEventTypeDiscriminants>,
    from_id: u64,
    limit: nat,
)
    requires
        forall|i: int| 0 <= i < rows.len() ==> (#[trigger] rows[i]).id < from_id,
    ensures
        spec_fetch(rows, filter, from_id, limit) =~= Seq::<EthEventModel>::empty(),
    decreases rows.len(),
{
    if rows.len() == 0 || limit == 0 {
    } else {
        assert(!matches_query(rows[0], filter, from_id));
        assert forall|i: int| 0 <= i < rows.drop_first().len() implies (#[trigger] rows.drop_first()[i]).id
            < from_id by {
            assert(rows.drop_first()[i] == rows[i + 1]);
        }
        lemma_fetch_past_the_end(rows.drop_first(), filter, from_id, limit);
    }
}

/// A fetch is idempotent: it cannot change the store (it takes the rows as
/// they stand), and on equal stores with equal arguments it selects equal
/// rows, so repeating it returns the same result.
pub proof fn lemma_fetch_idempotent(
    rows1: Seq<EthEventModel>,
    rows2: Seq<EthEventModel>,
    filter: Option<EthEventTypeDiscriminants>,
    from_id: u64,
    limit: nat,
)
    requires
        rows1 == rows2,
    ensures
        spec_fetch(rows1, filter, from_id, limit) == spec_fetch(rows2, filter, from_id, limit),
{
}

/// Well-formedness of the stored rows: identifiers are assigned in the
/// order inserts commit, starting at zero; rows are append-only, so the
/// version is zero and the update stamp equals the creation stamp.
pub open spec fn rows_well_formed(rows: Seq<EthEventModel>) -> bool {
    forall|i: int|
        0 <= i < rows.len() ==> {
            &&& (#[trigger] rows[i]).id == i
            &&& rows[i].version == 0
            &&& rows[i].update_epoch_millis == rows[i].create_epoch_millis
        }
}

/// Among well-formed rows, identifier order is exactly insertion order:
/// the row inserted earlier is the row with the smaller identifier.
pub proof fn lemma_insertion_order(rows: Seq<EthEventModel>)
    requires
        rows_well_formed(rows),
    ensures
        forall|i: int, j: int|
            0 <= i < rows.len() && 0 <= j < rows.len() ==> ((#[trigger] rows[i]).id
                < (#[trigger] rows[j]).id <==> i < j),
{
}

/// An Ethereum event repository: the append-only table of persisted
/// events, keyed by a monotonic integer identifier.
pub struct EthEventRepository {
    records: Vec<EthEventModel>,
}

impl View for EthEventRepository {
    type V = Seq<EthEventModel>;

    closed spec fn view(&self) -> Seq<EthEventModel> {
        self.records@
    }
}

impl Default for EthEventRepository {
    /// An empty repository.
    fn default() -> (r: Self)
        ensures
            r.wf(),
            r@ == Seq::<EthEventModel>::empty(),
    {
        Self::new()
    }
}

impl EthEventRepository {
    /// The repository invariant.
    pub open spec fn wf(&self) -> bool {
        rows_well_formed(self@)
    }

    /// Create a new, empty repository.
    pub fn new() -> (r: Self)
        ensures
            r.wf(),
            r@ == Seq::<EthEventModel>::empty(),
    {
        EthEventRepository { records: Vec::new() }
    }

    /// Append an event document as a new row.
    ///
    /// The row returned is the row stored: it carries the fresh identifier
    /// (larger than every identifier already present), version zero, and
    /// both wall-clock stamps set to `now_millis`.
    pub fn save(&mut self, data: EthEventData, now_millis: i64) -> (r: EthEventModel)
        requires
            old(self).wf(),
            old(self)@.len() < u64::MAX,
        ensures
            final(self).wf(),
            final(self)@ == old(self)@.push(r),
            r.id == old(self)@.len(),
            r.version == 0,
            r.create_epoch_millis == now_millis,
            r.update_epoch_millis == now_millis,
            r.data == data,
            forall|i: int| 0 <= i < old(self)@.len() ==> (#[trigger] old(self)@[i]).id < r.id,
    {
        let id: u64 = self.records.len() as u64;
        let row = EthEventModel {
            id,
            version: 0,
            create_epoch_millis: now_millis,
            update_epoch_millis: now_millis,
            data,
        };
        self.records.push(row);
        row
    }

    /// Fetch up to `limit` rows with identifier at least `from_id`, in
    /// ascending identifier order.
    pub fn fetch_all(&self, from_id: u64, limit: u32) -> (r: Vec<EthEventModel>)
        ensures
            r@ == spec_fetch(self@, None, from_id, limit as nat),
            r@.len() <= limit,
    {
        self.fetch_filtered(None, from_id, limit)
    }

    /// Fetch up to `limit` rows of the given discriminant with identifier
    /// at least `from_id`, in ascending identifier order.
    pub fn fetch_all_by_type(
        &self,
        event_type: EthEventTypeDiscriminants,
        from_id: u64,
        limit: u32,
    ) -> (r: Vec<EthEventModel>)
        ensures
            r@ == spec_fetch(self@, Some(event_type), from_id, limit as nat),
            r@.len() <= limit,
            forall|j: int|
                0 <= j < r@.len() ==> (#[trigger] r@[j]).data.event_type.tag() == event_type,
    {
        let r = self.fetch_filtered(Some(event_type), from_id, limit);
        proof {
            lemma_spec_fetch_matches(self@, Some(event_type), from_id, limit as nat);
        }
        r
    }

    /// The shared scan behind both fetch operations.
    fn fetch_filtered(
        &self,
        filter: Option<EthEventTypeDiscriminants>,
        from_id: u64,
        limit: u32,
    ) -> (r: Vec<EthEventModel>)
        ensures
            r@ == spec_fetch(self@, filter, from_id, limit as nat),
            r@.len() <= limit,
    {
        let rows = &self.records;
        let n: usize = rows.len();
        let limit_usize: usize = limit as usize;
        let mut out: Vec<EthEventModel> = Vec::new();
        let mut i: usize = 0;
        proof {
            assert(self@.skip(0) =~= self@);
            assert(Seq::<EthEventModel>::empty() + spec_fetch(self@, filter, from_id, limit as nat)
                =~= spec_fetch(self@, filter, from_id, limit as nat));
        }
        while i < n && out.len() < limit_usize
            invariant
                n == rows@.len(),
                rows@ == self@,
                limit_usize == limit,
                i <= n,
                out@.len() <= limit,
                spec_fetch(self@, filter, from_id, limit as nat) == out@ + spec_fetch(
                    self@.skip(i as int),
                    filter,
                    from_id,
                    (limit - out@.len()) as nat,
                ),
            decreases n - i,
        {
            let row = rows[i];
            let selected: bool = row.id >= from_id && match filter {
                None => true,
                Some(tag) => row.data.event_type.discriminant() == tag,
            };
            proof {
                let pending = self@.skip(i as int);
                assert(pending[0] == self@[i as int]);
                assert(pending.drop_first() =~= self@.skip(i as int + 1));
                assert(selected == matches_query(row, filter, from_id));
            }
            if selected {
                out.push(row);
                proof {
                    let rest = spec_fetch(
                        self@.skip(i as int + 1),
                        filter,
                        from_id,
                        (limit - out@.len()) as nat,
                    );
                    assert(out@.drop_last() + (seq![row] + rest) =~= out@ + rest);
                }
            }
            i = i + 1;
        }
        proof {
            if i == n {
                assert(self@.skip(n as int) =~= Seq::empty());
            }
            assert(out@ + Seq::<EthEventModel>::empty() =~= out@);
        }
        out
    }
}

} // verus!
