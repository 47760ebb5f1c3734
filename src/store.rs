//! The metadata index of one record set (images or pastes): the sole
//! authority for identifiers and expiry.

use vstd::prelude::*;

verus! {

/// A metadata row: its identifier, its expiry in seconds since the epoch,
/// and the inline payload (empty for blobs, whose bytes live in files).
pub struct Record {
    pub id: i64,
    pub expires: i64,
    pub payload: Vec<u8>,
}

pub struct RecordView {
    pub id: int,
    pub expires: int,
    pub payload: Seq<u8>,
}

impl View for Record {
    type V = RecordView;

    open spec fn view(&self) -> RecordView {
        RecordView { id: self.id as int, expires: self.expires as int, payload: self.payload@ }
    }
}

/// What a record set is: the identifier the next insert receives, and the
/// rows in the order of their identifiers.
pub struct TableView {
    pub next: int,
    pub rows: Seq<RecordView>,
}

/// One record set, held in memory. Identifiers are handed out in
/// increasing order from one and never handed out twice, whatever is
/// deleted in between. This is the model of the metadata index that the
/// laws below are proved over; the server keeps its rows in SQLite, whose
/// `AUTOINCREMENT` tables allocate in the same way, and that allocation is
/// not proved here.
pub struct MetaTable {
    next_id: i64,
    rows: Vec<Record>,
}

/// A record set is well formed when its identifiers ascend strictly, and
/// every identifier lies in `1 .. next`.
pub open spec fn table_wf(v: TableView) -> bool {
    rows_wf(v.rows, v.next)
}

pub open spec fn rows_wf(rows: Seq<RecordView>, next: int) -> bool {
    &&& 1 <= next <= i64::MAX
    &&& forall|i: int| 0 <= i < rows.len() ==> 1 <= #[trigger] rows[i].id < next
    &&& forall|i: int, j: int| 0 <= i < j < rows.len() ==> #[trigger] rows[i].id < #[trigger] rows[j].id
}

/// The record set after an insert: the new row takes the next identifier.
/// An insert fails, changing nothing, once the identifiers are exhausted.
pub open spec fn allocate_view(v: TableView, expires: int, payload: Seq<u8>) -> (TableView, Option<int>) {
    if v.next < i64::MAX {
        (
            TableView {
                next: v.next + 1,
                rows: v.rows.push(RecordView { id: v.next, expires, payload }),
            },
            Some(v.next),
        )
    } else {
        (v, None)
    }
}

/// Identifiers as mathematical integers.
pub open spec fn ids_of(ids: Seq<i64>) -> Seq<int> {
    ids.map_values(|id: i64| id as int)
}

/// The rows of `rows` that are still live at `now`: those that expire later.
pub open spec fn live_rows(rows: Seq<RecordView>, now: int) -> Seq<RecordView>
    decreases rows.len(),
{
    if rows.len() == 0 {
        rows
    } else {
        let rest = live_rows(rows.drop_last(), now);
        if rows.last().expires > now {
            rest.push(rows.last())
        } else {
            rest
        }
    }
}

/// The identifiers of the rows of `rows` that have expired at `now`.
pub open spec fn expired_ids(rows: Seq<RecordView>, now: int) -> Set<int> {
    Set::new(|id: int| exists|i: int| 0 <= i < rows.len() && rows[i].id == id && rows[i].expires <= now)
}

/// The record set after a reap at `now`: every row with `expires <= now`
/// is gone, and the identifier counter is unchanged.
pub open spec fn reap_view(v: TableView, now: int) -> TableView {
    TableView { next: v.next, rows: live_rows(v.rows, now) }
}

/// The row with identifier `id`, if the set holds one.
pub open spec fn lookup(v: TableView, id: int) -> Option<RecordView> {
    if exists|i: int| 0 <= i < v.rows.len() && v.rows[i].id == id {
        let i = choose|i: int| 0 <= i < v.rows.len() && v.rows[i].id == id;
        Some(v.rows[i])
    } else {
        None
    }
}

proof fn lemma_live_rows_members(rows: Seq<RecordView>, now: int)
    ensures
        forall|j: int| 0 <= j < live_rows(rows, now).len() ==> (exists|i: int|
            0 <= i < rows.len() && rows[i] == #[trigger] live_rows(rows, now)[j]),
        forall|j: int| 0 <= j < live_rows(rows, now).len() ==> #[trigger] live_rows(rows, now)[j].expires > now,
        forall|i: int| 0 <= i < rows.len() && rows[i].expires > now ==> exists|j: int|
            0 <= j < live_rows(rows, now).len() && live_rows(rows, now)[j] == #[trigger] rows[i],
    decreases rows.len(),
{
    if rows.len() > 0 {
        let init = rows.drop_last();
        lemma_live_rows_members(init, now);
        let rest = live_rows(init, now);
        assert forall|j: int| 0 <= j < live_rows(rows, now).len() implies (exists|i: int|
            0 <= i < rows.len() && rows[i] == #[trigger] live_rows(rows, now)[j]) by {
            if j < rest.len() {
                let i = choose|i: int| 0 <= i < init.len() && init[i] == rest[j];
                assert(rows[i] == init[i]);
            } else {
                assert(rows[rows.len() - 1] == live_rows(rows, now)[j]);
            }
        }
        assert forall|i: int| 0 <= i < rows.len() && rows[i].expires > now implies exists|j: int|
            0 <= j < live_rows(rows, now).len() && live_rows(rows, now)[j] == #[trigger] rows[i] by {
            if i < rows.len() - 1 {
                assert(init[i] == rows[i]);
                let j = choose|j: int| 0 <= j < rest.len() && rest[j] == #[trigger] init[i];
                assert(live_rows(rows, now)[j] == rest[j]);
            } else {
                assert(live_rows(rows, now)[rest.len() as int] == rows[i]);
            }
        }
    }
}

proof fn lemma_wf_prefix(rows: Seq<RecordView>, next: int)
    requires
        rows_wf(rows, next),
        rows.len() > 0,
    ensures
        rows_wf(rows.drop_last(), next),
{
    let init = rows.drop_last();
    assert forall|i: int| 0 <= i < init.len() implies #[trigger] init[i] == rows[i] by {}
}

proof fn lemma_live_rows_order(rows: Seq<RecordView>, now: int, next: int)
    requires
        rows_wf(rows, next),
    ensures
        rows_wf(live_rows(rows, now), next),
    decreases rows.len(),
{
    if rows.len() > 0 {
        let init = rows.drop_last();
        lemma_wf_prefix(rows, next);
        lemma_live_rows_order(init, now, next);
        lemma_live_rows_members(init, now);
        let rest = live_rows(init, now);
        let last = rows.last();
        if last.expires > now {
            let out = rest.push(last);
            assert forall|i: int| 0 <= i < rest.len() implies #[trigger] rest[i].id < last.id by {
                let k = choose|k: int| 0 <= k < init.len() && init[k] == #[trigger] rest[i];
                assert(0 <= k < init.len());
                assert(init.len() == rows.len() - 1);
                assert(rows[k] == init[k]);
                assert(rows[k].id < rows[rows.len() - 1].id);
            }
            assert forall|i: int| 0 <= i < rest.len() implies #[trigger] out[i] == rest[i] by {}
        }
    }
}

impl View for MetaTable {
    type V = TableView;

    closed spec fn view(&self) -> TableView {
        TableView { next: self.next_id as int, rows: self.rows@.map_values(|r: Record| r@) }
    }
}

impl MetaTable {
    pub closed spec fn wf(&self) -> bool {
        table_wf(self.view())
    }

    /// An empty record set whose first identifier is one.
    pub fn new() -> (r: MetaTable)
        ensures
            r.wf(),
            r.view().next == 1,
            r.view().rows.len() == 0,
    {
        MetaTable { next_id: 1, rows: Vec::new() }
    }

    /// Inserts a row with the given expiry and inline payload, and returns
    /// the identifier it was given. Fails, changing nothing, once the
    /// identifiers are exhausted.
    pub fn allocate(&mut self, expires: i64, payload: Vec<u8>) -> (r: Option<i64>)
        requires
            old(self).wf(),
        ensures
            final(self).wf(),
            final(self).view() == allocate_view(old(self).view(), expires as int, payload@).0,
            r matches Some(id) ==> allocate_view(old(self).view(), expires as int, payload@).1 == Some(id as int),
            r is None ==> allocate_view(old(self).view(), expires as int, payload@).1 is None,
    {
        if self.next_id == i64::MAX {
            return None;
        }
        let id = self.next_id;
        self.rows.push(Record { id, expires, payload });
        self.next_id = id + 1;
        assert(self.rows@.map_values(|r: Record| r@) =~= old(self).rows@.map_values(|r: Record| r@).push(
            RecordView { id: id as int, expires: expires as int, payload: payload@ },
        ));
        Some(id)
    }

    /// The row with identifier `id`, if the set holds one.
    pub fn find(&self, id: i64) -> (r: Option<&Record>)
        requires
            self.wf(),
        ensures
            r matches Some(rec) ==> lookup(self.view(), id as int) == Some(rec@),
            r is None ==> lookup(self.view(), id as int) is None,
    {
        let ghost v = self.view();
        let mut i: usize = 0;
        while i < self.rows.len()
            invariant
                v == self.view(),
                table_wf(v),
                0 <= i <= self.rows@.len(),
                forall|k: int| 0 <= k < i ==> (#[trigger] v.rows[k]).id != id,
            decreases self.rows@.len() - i,
        {
            if self.rows[i].id == id {
                assert(v.rows[i as int] == self.rows@[i as int]@);
                proof {
                    let j = choose|j: int| 0 <= j < v.rows.len() && v.rows[j].id == id;
                    if j != i {
                        if j < i {
                            assert(v.rows[j].id < v.rows[i as int].id);
                        } else {
                            assert(v.rows[i as int].id < v.rows[j].id);
                        }
                    }
                }
                return Some(&self.rows[i]);
            }
            assert(v.rows[i as int] == self.rows@[i as int]@);
            i = i + 1;
        }
        None
    }

    /// Deletes every row with `expires <= now` and returns exactly the
    /// identifiers deleted, in increasing order.
    pub fn reap_expired(&mut self, now: i64) -> (r: Vec<i64>)
        requires
            old(self).wf(),
        ensures
            final(self).wf(),
            final(self).view() == reap_view(old(self).view(), now as int),
            ids_of(r@).to_set() == expired_ids(old(self).view().rows, now as int),
            forall|i: int, j: int| 0 <= i < j < r@.len() ==> r@[i] < r@[j],
    {
        let ghost rows = self.view().rows;
        let ghost next = self.next_id as int;
        let mut kept: Vec<Record> = Vec::new();
        let mut gone: Vec<i64> = Vec::new();
        let mut pending: Vec<Record> = Vec::new();
        std::mem::swap(&mut pending, &mut self.rows);
        let n = pending.len();
        let mut i: usize = 0;
        proof {
            lemma_live_rows_order(rows, now as int, next);
        }
        while i < n
            invariant
                n == pending@.len() == rows.len(),
                forall|k: int| i <= k < n ==> #[trigger] pending@[k]@ == rows[k],
                rows_wf(rows, next),
                0 <= i <= n,
                kept@.map_values(|r: Record| r@) == live_rows(rows.subrange(0, i as int), now as int),
                ids_of(gone@).to_set() == expired_ids(rows.subrange(0, i as int), now as int),
                forall|a: int, b: int| 0 <= a < b < gone@.len() ==> gone@[a] < gone@[b],
                forall|a: int, k: int| 0 <= a < gone@.len() && i <= k < n ==> #[trigger] gone@[a] < #[trigger] rows[k].id,
            decreases n - i,
        {
            let mut rec = Record { id: 0, expires: 0, payload: Vec::new() };
            pending.set_and_swap(i, &mut rec);
            let ghost prefix = rows.subrange(0, i as int);
            let ghost grown = rows.subrange(0, i + 1);
            assert(rec@ == rows[i as int]);
            assert(grown.drop_last() == prefix);
            assert(grown.last() == rows[i as int]);
            if rec.expires <= now {
                let ghost before = gone@;
                assert forall|a: int| 0 <= a < before.len() implies before[a] < rec.id by {
                    assert(before[a] < rows[i as int].id);
                }
                gone.push(rec.id);
                assert(ids_of(gone@) == ids_of(before).push(rec.id as int));
                assert(ids_of(gone@).to_set() =~= expired_ids(grown, now as int)) by {
                    assert forall|id: int| expired_ids(grown, now as int).contains(id) implies
                        ids_of(gone@).to_set().contains(id) by {
                        let k = choose|k: int| 0 <= k < grown.len() && #[trigger] grown[k].id == id && grown[k].expires <= now;
                        if k < i {
                            assert(prefix[k] == grown[k]);
                            assert(expired_ids(prefix, now as int).contains(id));
                            let m = choose|m: int| 0 <= m < before.len() && #[trigger] ids_of(before)[m] == id;
                            assert(ids_of(gone@)[m] == id);
                        } else {
                            assert(ids_of(gone@)[before.len() as int] == id);
                        }
                    }
                    assert forall|id: int| ids_of(gone@).to_set().contains(id) implies
                        expired_ids(grown, now as int).contains(id) by {
                        let m = choose|m: int| 0 <= m < gone@.len() && #[trigger] ids_of(gone@)[m] == id;
                        if m < before.len() {
                            assert(ids_of(before)[m] == id);
                            assert(expired_ids(prefix, now as int).contains(id));
                            let k = choose|k: int| 0 <= k < prefix.len() && #[trigger] prefix[k].id == id && prefix[k].expires <= now;
                            assert(grown[k] == prefix[k]);
                        } else {
                            assert(grown[i as int].id == id);
                        }
                    }
                }
                assert forall|a: int, k: int| 0 <= a < gone@.len() && i + 1 <= k < n implies #[trigger] gone@[a] < #[trigger] rows[k].id by {
                    if a < before.len() {
                        assert(gone@[a] == before[a]);
                    } else {
                        assert(rows[i as int].id < rows[k].id);
                    }
                }
            } else {
                let ghost before = kept@;
                kept.push(rec);
                assert(kept@.map_values(|r: Record| r@) =~= before.map_values(|r: Record| r@).push(rows[i as int]));
                assert(expired_ids(grown, now as int) =~= expired_ids(prefix, now as int)) by {
                    assert forall|id: int| expired_ids(grown, now as int).contains(id) implies
                        expired_ids(prefix, now as int).contains(id) by {
                        let k = choose|k: int| 0 <= k < grown.len() && #[trigger] grown[k].id == id && grown[k].expires <= now;
                        assert(prefix[k] == grown[k]);
                    }
                    assert forall|id: int| expired_ids(prefix, now as int).contains(id) implies
                        expired_ids(grown, now as int).contains(id) by {
                        let k = choose|k: int| 0 <= k < prefix.len() && #[trigger] prefix[k].id == id && prefix[k].expires <= now;
                        assert(prefix[k] == grown[k]);
                    }
                }
            }
            i = i + 1;
        }
        assert(rows.subrange(0, n as int) == rows);
        self.rows = kept;
        gone
    }
}

/// A step of a run against one record set: an insert with the given
/// expiry and payload, or a reap at the given time.
pub enum TableOp {
    Allocate { expires: int, payload: Seq<u8> },
    Reap { now: int },
}

/// The record set after a run of steps.
pub open spec fn run_view(v: TableView, ops: Seq<TableOp>) -> TableView
    decreases ops.len(),
{
    if ops.len() == 0 {
        v
    } else {
        let first = match ops[0] {
            TableOp::Allocate { expires, payload } => allocate_view(v, expires, payload).0,
            TableOp::Reap { now } => reap_view(v, now),
        };
        run_view(first, ops.drop_first())
    }
}

/// The identifiers that the inserts of a run receive, in the order given.
pub open spec fn run_ids(v: TableView, ops: Seq<TableOp>) -> Seq<int>
    decreases ops.len(),
{
    if ops.len() == 0 {
        Seq::empty()
    } else {
        match ops[0] {
            TableOp::Allocate { expires, payload } => {
                let (after, got) = allocate_view(v, expires, payload);
                match got {
                    Some(id) => seq![id] + run_ids(after, ops.drop_first()),
                    None => run_ids(after, ops.drop_first()),
                }
            },
            TableOp::Reap { now } => run_ids(reap_view(v, now), ops.drop_first()),
        }
    }
}

/// Identifiers are never reused: over any run of inserts and reaps, the
/// identifiers handed out strictly increase, so they are pairwise distinct,
/// and each lies at or above the counter the run started from, so none
/// equals an identifier handed out before the run.
pub proof fn lemma_ids_never_reused(v: TableView, ops: Seq<TableOp>)
    requires
        table_wf(v),
    ensures
        forall|i: int, j: int| 0 <= i < j < run_ids(v, ops).len() ==> run_ids(v, ops)[i] < run_ids(v, ops)[j],
        forall|i: int| 0 <= i < run_ids(v, ops).len() ==> v.next <= #[trigger] run_ids(v, ops)[i] < run_view(v, ops).next,
        v.next <= run_view(v, ops).next,
    decreases ops.len(),
{
    if ops.len() > 0 {
        let rest = ops.drop_first();
        match ops[0] {
            TableOp::Allocate { expires, payload } => {
                let (after, got) = allocate_view(v, expires, payload);
                if v.next < i64::MAX {
                    assert forall|i: int| 0 <= i < after.rows.len() implies 1 <= #[trigger] after.rows[i].id < after.next by {
                        if i < v.rows.len() {
                            assert(after.rows[i] == v.rows[i]);
                        }
                    }
                    assert forall|i: int, j: int| 0 <= i < j < after.rows.len() implies #[trigger] after.rows[i].id < #[trigger] after.rows[j].id by {
                        assert(after.rows[i] == v.rows[i]);
                        if j < v.rows.len() {
                            assert(after.rows[j] == v.rows[j]);
                        }
                    }
                }
                lemma_ids_never_reused(after, rest);
                let ids = run_ids(v, ops);
                let tail = run_ids(after, rest);
                if v.next < i64::MAX {
                    assert(ids == seq![v.next] + tail);
                    assert forall|i: int| 0 <= i < ids.len() implies v.next <= #[trigger] ids[i] < run_view(v, ops).next by {
                        if i > 0 {
                            assert(ids[i] == tail[i - 1]);
                        }
                    }
                    assert forall|i: int, j: int| 0 <= i < j < ids.len() implies ids[i] < ids[j] by {
                        assert(ids[j] == tail[j - 1]);
                        if i > 0 {
                            assert(ids[i] == tail[i - 1]);
                        }
                    }
                } else {
                    assert(ids == tail);
                }
            },
            TableOp::Reap { now } => {
                lemma_live_rows_order(v.rows, now, v.next);
                lemma_ids_never_reused(reap_view(v, now), rest);
                assert(run_ids(v, ops) == run_ids(reap_view(v, now), rest));
            },
        }
    }
}

/// A reap removes what has expired: a row whose expiry is at or before
/// `now` is among the identifiers the reap returns, and the set holds no
/// row with its identifier afterwards.
pub proof fn lemma_reap_removes_expired(v: TableView, now: int, id: int)
    requires
        table_wf(v),
        lookup(v, id) matches Some(rec) && rec.expires <= now,
    ensures
        expired_ids(v.rows, now).contains(id),
        lookup(reap_view(v, now), id) is None,
{
    let i = choose|i: int| 0 <= i < v.rows.len() && v.rows[i].id == id;
    lemma_unique_index(v, i);
    assert(v.rows[i].expires <= now);
    let live = live_rows(v.rows, now);
    assert forall|j: int| 0 <= j < live.len() implies #[trigger] live[j].id != id by {
        lemma_live_row_origin(v.rows, now, j);
        let k = choose|k: int| 0 <= k < v.rows.len() && v.rows[k] == live[j];
        if live[j].id == id {
            assert(v.rows[k].id == id);
            assert(k == i);
        }
    }
}

/// A reap keeps what is still live: a row that expires after `now` is
/// unchanged by the reap.
pub proof fn lemma_reap_keeps_live(v: TableView, now: int, id: int)
    requires
        table_wf(v),
        lookup(v, id) matches Some(rec) && rec.expires > now,
    ensures
        lookup(reap_view(v, now), id) == lookup(v, id),
{
    let i = choose|i: int| 0 <= i < v.rows.len() && v.rows[i].id == id;
    lemma_unique_index(v, i);
    let live = live_rows(v.rows, now);
    lemma_live_row_kept(v.rows, now, i);
    lemma_live_rows_order(v.rows, now, v.next);
    let w = TableView { next: v.next, rows: live };
    let j = choose|j: int| 0 <= j < live.len() && live[j] == v.rows[i];
    assert(w.rows[j].id == id);
    lemma_unique_index(w, j);
}

/// In a well-formed set, the row at index `i` is the row that a lookup of
/// its identifier finds.
proof fn lemma_unique_index(v: TableView, i: int)
    requires
        table_wf(v),
        0 <= i < v.rows.len(),
    ensures
        lookup(v, v.rows[i].id) == Some(v.rows[i]),
{
    let id = v.rows[i].id;
    assert(exists|k: int| 0 <= k < v.rows.len() && v.rows[k].id == id);
    let j = choose|j: int| 0 <= j < v.rows.len() && v.rows[j].id == id;
    if j < i {
        assert(v.rows[j].id < v.rows[i].id);
    } else if j > i {
        assert(v.rows[i].id < v.rows[j].id);
    }
}

proof fn lemma_live_row_origin(rows: Seq<RecordView>, now: int, j: int)
    requires
        0 <= j < live_rows(rows, now).len(),
    ensures
        exists|k: int| 0 <= k < rows.len() && rows[k] == live_rows(rows, now)[j],
        live_rows(rows, now)[j].expires > now,
{
    lemma_live_rows_members(rows, now);
}

proof fn lemma_live_row_kept(rows: Seq<RecordView>, now: int, i: int)
    requires
        0 <= i < rows.len(),
        rows[i].expires > now,
    ensures
        exists|j: int| 0 <= j < live_rows(rows, now).len() && live_rows(rows, now)[j] == rows[i],
{
    lemma_live_rows_members(rows, now);
}

} // verus!
