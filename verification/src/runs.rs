//! What each store operation does when it runs against the backend of
//! `model`: that it can run, how it ends, and what it leaves behind.

use vstd::prelude::*;
use crate::batch::{batch_of, encode_check, BatchView, ChunkView, MAX_DIMENSION};
use crate::error::ErrorKind;
use crate::model::{
    found_in, lemma_at_end, lemma_first_step, lemma_runs_at_end, lemma_runs_from, open_table,
    runs, selects, Backend, Outcome,
};
use crate::naming::table_name_spec;
use crate::protocol::{ActionView, EventView, ReplyView};
use crate::schema::{lemma_layout_width, table_layout};
use crate::search::{rows_of, DistanceView, HitView, ResultBatchView};
use crate::store::{clear_from, step, wrapped_count, SessionView};

verus! {

/// A run as the backend sees it: the answers it gave and the states it went
/// through.
pub type Trace = Seq<(EventView, Backend)>;

/// Whether an outcome is success with the given reply.
pub open spec fn succeeds_with(outcome: Outcome, reply: ReplyView) -> bool {
    outcome == Outcome::Ok(reply)
}

/// Whether an outcome is a failure of the given class.
pub open spec fn fails_with(outcome: Outcome, kind: ErrorKind) -> bool {
    outcome matches Err(error) && error.kind == kind
}

/// Writing chunks that can be encoded succeeds whatever the backend held:
/// it reports the number of chunks and leaves them as the table of that
/// name, with every other table untouched.
pub proof fn lemma_write(
    b: Backend,
    name: Seq<char>,
    chunks: Seq<ChunkView>,
    root: Seq<char>,
    trace: Trace,
    outcome: Outcome,
    end: Backend,
)
    requires
        encode_check(chunks) is None,
        runs(
            b,
            SessionView::AddConnecting { name, chunks },
            ActionView::Connect { root },
            trace,
            outcome,
            end,
        ),
    ensures
        succeeds_with(outcome, ReplyView::Added { rows: chunks.len() as usize, table: name }),
        end.tables == b.tables.insert(name, batch_of(chunks)),
{
    let batch = batch_of(chunks);
    let s0 = SessionView::AddConnecting { name, chunks };
    lemma_first_step(b, s0, ActionView::Connect { root }, trace, outcome, end);
    let t1 = trace.drop_first();
    let s1 = SessionView::AddDropping { name, batch };
    lemma_first_step(b, s1, ActionView::DropTable { name }, t1, outcome, end);
    let b2 = t1[0].1;
    let t2 = t1.drop_first();
    let s2 = SessionView::AddCreating { name, rows: chunks.len() as usize };
    assert(!b2.tables.contains_key(name));
    lemma_first_step(b2, s2, ActionView::CreateTable { name, batch }, t2, outcome, end);
    let b3 = t2[0].1;
    let t3 = t2.drop_first();
    lemma_at_end(b3, step(s2, t2[0].0).0, step(s2, t2[0].0).1, t3, outcome, end);
    assert(end.tables =~= b.tables.insert(name, batch));
}

/// Counting the rows of a table that exists gives its number of rows, and
/// changes no table; counting where there is no table of that name fails
/// with a not-found error.
pub proof fn lemma_count(
    b: Backend,
    name: Seq<char>,
    root: Seq<char>,
    trace: Trace,
    outcome: Outcome,
    end: Backend,
)
    requires
        runs(
            b,
            SessionView::CountConnecting { name },
            ActionView::Connect { root },
            trace,
            outcome,
            end,
        ),
    ensures
        end.tables == b.tables,
        b.tables.contains_key(name) ==> succeeds_with(
            outcome,
            ReplyView::Count(wrapped_count(b.tables[name].rows.len() as usize)),
        ),
        !b.tables.contains_key(name) ==> fails_with(outcome, ErrorKind::NotFound),
{
    let s0 = SessionView::CountConnecting { name };
    lemma_first_step(b, s0, ActionView::Connect { root }, trace, outcome, end);
    let t1 = trace.drop_first();
    let s1 = SessionView::CountOpening;
    lemma_first_step(b, s1, ActionView::OpenTable { name }, t1, outcome, end);
    let b2 = t1[0].1;
    let t2 = t1.drop_first();
    if b.tables.contains_key(name) {
        let s2 = SessionView::CountCounting;
        lemma_first_step(b2, s2, ActionView::CountRows, t2, outcome, end);
        let b3 = t2[0].1;
        let t3 = t2.drop_first();
        lemma_at_end(b3, step(s2, t2[0].0).0, step(s2, t2[0].0).1, t3, outcome, end);
    } else {
        lemma_at_end(b2, step(s1, t1[0].0).0, step(s1, t1[0].0).1, t2, outcome, end);
    }
}

/// Asking whether a document has a table tells whether the backend holds a
/// table of that name, and changes nothing.
pub proof fn lemma_has(
    b: Backend,
    name: Seq<char>,
    root: Seq<char>,
    trace: Trace,
    outcome: Outcome,
    end: Backend,
)
    requires
        runs(
            b,
            SessionView::HasConnecting { name },
            ActionView::Connect { root },
            trace,
            outcome,
            end,
        ),
    ensures
        end == b,
        succeeds_with(outcome, ReplyView::Has(b.tables.contains_key(name))),
{
    let s0 = SessionView::HasConnecting { name };
    lemma_first_step(b, s0, ActionView::Connect { root }, trace, outcome, end);
    let t1 = trace.drop_first();
    let s1 = SessionView::HasListing { name };
    lemma_first_step(b, s1, ActionView::ListTables, t1, outcome, end);
    let b2 = t1[0].1;
    let t2 = t1.drop_first();
    let names = t1[0].0->Tables_0;
    assert(names.to_set().contains(name) == names.contains(name));
    lemma_at_end(b2, step(s1, t1[0].0).0, step(s1, t1[0].0).1, t2, outcome, end);
}

/// Deleting a document that has a table drops that table and no other;
/// deleting where there is no table of that name fails with a not-found
/// error and changes nothing.
pub proof fn lemma_delete(
    b: Backend,
    name: Seq<char>,
    root: Seq<char>,
    trace: Trace,
    outcome: Outcome,
    end: Backend,
)
    requires
        runs(
            b,
            SessionView::DeleteConnecting { name },
            ActionView::Connect { root },
            trace,
            outcome,
            end,
        ),
    ensures
        b.tables.contains_key(name) ==> (succeeds_with(
            outcome,
            ReplyView::Deleted("Deleted table: "@ + name),
        ) && end.tables == b.tables.remove(name)),
        !b.tables.contains_key(name) ==> (fails_with(outcome, ErrorKind::NotFound) && end == b),
{
    let s0 = SessionView::DeleteConnecting { name };
    lemma_first_step(b, s0, ActionView::Connect { root }, trace, outcome, end);
    let t1 = trace.drop_first();
    let s1 = SessionView::DeleteDropping { name };
    lemma_first_step(b, s1, ActionView::DropTable { name }, t1, outcome, end);
    let b2 = t1[0].1;
    let t2 = t1.drop_first();
    lemma_at_end(b2, step(s1, t1[0].0).0, step(s1, t1[0].0).1, t2, outcome, end);
}

/// A search that has collected `hits` so far ends with them followed by all
/// that the backend has still to hand out, in that order.
pub proof fn lemma_collect(
    b: Backend,
    hits: Seq<HitView>,
    trace: Trace,
    outcome: Outcome,
    end: Backend,
)
    requires
        runs(
            b,
            SessionView::SearchCollecting { hits },
            ActionView::NextBatch,
            trace,
            outcome,
            end,
        ),
    ensures
        succeeds_with(outcome, ReplyView::Found(hits + b.stream)),
        end.tables == b.tables,
    decreases trace.len(),
{
    let s = SessionView::SearchCollecting { hits };
    lemma_first_step(b, s, ActionView::NextBatch, trace, outcome, end);
    let (e, after) = trace[0];
    let rest = trace.drop_first();
    if b.stream.len() == 0 {
        lemma_at_end(after, step(s, e).0, step(s, e).1, rest, outcome, end);
        assert(hits + b.stream =~= hits);
    } else {
        let rows = rows_of(e->Batch_0)->Ok_0;
        lemma_collect(after, hits + rows, rest, outcome, end);
        assert(hits + rows + after.stream =~= hits + b.stream);
    }
}

/// A search of a table that exists, with a query vector of the table's
/// width, finds as many distinct rows of the table as the limit allows and
/// changes no table.  The rows found are those that the backend lined up
/// when it started the search (its state after the fourth answer), in the
/// backend's order.  A search with a query vector of another width fails
/// with a query error, and a search where there is no table of that name
/// with a not-found error.
pub proof fn lemma_search(
    b: Backend,
    name: Seq<char>,
    query: Seq<u32>,
    top_k: usize,
    root: Seq<char>,
    trace: Trace,
    outcome: Outcome,
    end: Backend,
)
    requires
        runs(
            b,
            SessionView::SearchConnecting { name, query, top_k },
            ActionView::Connect { root },
            trace,
            outcome,
            end,
        ),
    ensures
        end.tables == b.tables,
        !b.tables.contains_key(name) ==> fails_with(outcome, ErrorKind::NotFound),
        b.tables.contains_key(name) && 0 < b.tables[name].dimension <= MAX_DIMENSION
            && query.len() != b.tables[name].dimension ==> fails_with(outcome, ErrorKind::Query),
        b.tables.contains_key(name) && 0 < b.tables[name].dimension <= MAX_DIMENSION
            && query.len() == b.tables[name].dimension ==> (outcome matches Ok(
            ReplyView::Found(hits),
        ) && found_in(b.tables[name].rows, top_k, hits) && trace.len() > 3 && hits
            == trace[3].1.stream),
{
    let s0 = SessionView::SearchConnecting { name, query, top_k };
    lemma_first_step(b, s0, ActionView::Connect { root }, trace, outcome, end);
    let t1 = trace.drop_first();
    let s1 = SessionView::SearchOpening { query, top_k };
    lemma_first_step(b, s1, ActionView::OpenTable { name }, t1, outcome, end);
    let b2 = t1[0].1;
    let t2 = t1.drop_first();
    if !b.tables.contains_key(name) {
        lemma_at_end(b2, step(s1, t1[0].0).0, step(s1, t1[0].0).1, t2, outcome, end);
    } else {
        let table = b.tables[name];
        let s2 = SessionView::SearchMeasuring { query, top_k };
        lemma_first_step(b2, s2, ActionView::ReadSchema, t2, outcome, end);
        let b3 = t2[0].1;
        let t3 = t2.drop_first();
        if 0 < table.dimension <= MAX_DIMENSION {
            lemma_layout_width(table.dimension);
            if query.len() != table.dimension {
                lemma_at_end(b3, step(s2, t2[0].0).0, step(s2, t2[0].0).1, t3, outcome, end);
            } else {
                let s3 = SessionView::SearchStarting;
                lemma_first_step(
                    b3,
                    s3,
                    ActionView::Nearest { query, limit: top_k },
                    t3,
                    outcome,
                    end,
                );
                let b4 = t3[0].1;
                let t4 = t3.drop_first();
                lemma_collect(b4, Seq::empty(), t4, outcome, end);
                assert(Seq::<HitView>::empty() + b4.stream =~= b4.stream);
            }
        } else {
            lemma_tables_kept(b3, step(s2, t2[0].0).0, step(s2, t2[0].0).1, t3, outcome, end);
        }
    }
}

/// Whether an action leaves every table as it is, whatever the answer.
pub open spec fn reads_only(a: ActionView) -> bool {
    !(a is DropTable) && !(a is CreateTable)
}

/// Whether an operation in this state will never ask to drop or create a table.
pub open spec fn reading(s: SessionView) -> bool {
    s is SearchConnecting || s is SearchOpening || s is SearchMeasuring || s is SearchStarting
        || s is SearchCollecting || s is HasConnecting || s is HasListing || s is CountConnecting
        || s is CountOpening || s is CountCounting || s is Finished
}

/// A search, a count and an existence check leave every table as it is,
/// however they end.
pub proof fn lemma_tables_kept(
    b: Backend,
    s: SessionView,
    a: ActionView,
    trace: Trace,
    outcome: Outcome,
    end: Backend,
)
    requires
        runs(b, s, a, trace, outcome, end),
        reading(s),
        reads_only(a),
    ensures
        end.tables == b.tables,
    decreases trace.len(),
{
    if a is Done {
        lemma_at_end(b, s, a, trace, outcome, end);
    } else {
        lemma_first_step(b, s, a, trace, outcome, end);
        let (e, after) = trace[0];
        lemma_tables_kept(after, step(s, e).0, step(s, e).1, trace.drop_first(), outcome, end);
    }
}

/// Whether the tables of `b` are exactly those named from position `next`
/// on in `names`.
pub open spec fn left_to_drop(b: Backend, names: Seq<Seq<char>>, next: int) -> bool {
    forall|name: Seq<char>| #[trigger]
        b.tables.contains_key(name) <==> exists|i: int|
            next <= i < names.len() && #[trigger] names[i] == name
}

/// Clearing that has dropped the tables in front of `next` drops the rest
/// and ends with no table left.
pub proof fn lemma_clear_from(
    b: Backend,
    names: Seq<Seq<char>>,
    next: int,
    trace: Trace,
    outcome: Outcome,
    end: Backend,
)
    requires
        0 <= next <= names.len(),
        names.no_duplicates(),
        left_to_drop(b, names, next),
        runs(b, clear_from(names, next).0, clear_from(names, next).1, trace, outcome, end),
    ensures
        succeeds_with(outcome, ReplyView::Cleared("Cleared all tables"@)),
        end.tables == Map::<Seq<char>, BatchView>::empty(),
    decreases names.len() - next,
{
    let (s, a) = clear_from(names, next);
    if next == names.len() {
        lemma_at_end(b, s, a, trace, outcome, end);
        assert forall|name: Seq<char>| !b.tables.contains_key(name) by {
            if b.tables.contains_key(name) {
                let i = choose|i: int| next <= i < names.len() && #[trigger] names[i] == name;
            }
        }
        assert(end.tables =~= Map::<Seq<char>, BatchView>::empty());
    } else {
        let dropped = names[next];
        assert(b.tables.contains_key(dropped));
        lemma_first_step(b, s, a, trace, outcome, end);
        let (e, after) = trace[0];
        assert(after.tables == b.tables.remove(dropped));
        assert forall|name: Seq<char>| #[trigger]
            after.tables.contains_key(name) <==> exists|i: int|
                next + 1 <= i < names.len() && #[trigger] names[i] == name by {
            if after.tables.contains_key(name) {
                assert(b.tables.contains_key(name));
                let i = choose|i: int| next <= i < names.len() && #[trigger] names[i] == name;
                assert(i != next);
                assert(next + 1 <= i < names.len() && names[i] == name);
            }
            if exists|i: int| next + 1 <= i < names.len() && #[trigger] names[i] == name {
                let i = choose|i: int| next + 1 <= i < names.len() && #[trigger] names[i] == name;
                assert(next <= i < names.len() && names[i] == name);
                assert(b.tables.contains_key(name));
                assert(name != dropped);
            }
        }
        lemma_clear_from(after, names, next + 1, trace.drop_first(), outcome, end);
    }
}

/// Clearing succeeds and leaves the backend without any table.
pub proof fn lemma_clear(b: Backend, root: Seq<char>, trace: Trace, outcome: Outcome, end: Backend)
    requires
        runs(b, SessionView::ClearConnecting, ActionView::Connect { root }, trace, outcome, end),
    ensures
        succeeds_with(outcome, ReplyView::Cleared("Cleared all tables"@)),
        end.tables == Map::<Seq<char>, BatchView>::empty(),
{
    let s0 = SessionView::ClearConnecting;
    lemma_first_step(b, s0, ActionView::Connect { root }, trace, outcome, end);
    let t1 = trace.drop_first();
    let s1 = SessionView::ClearListing;
    lemma_first_step(b, s1, ActionView::ListTables, t1, outcome, end);
    let b2 = t1[0].1;
    let t2 = t1.drop_first();
    let names = t1[0].0->Tables_0;
    assert forall|name: Seq<char>| #[trigger]
        b2.tables.contains_key(name) <==> exists|i: int|
            0 <= i < names.len() && #[trigger] names[i] == name by {
        assert(names.to_set().contains(name) == names.contains(name));
        assert(b2.tables.dom().contains(name) == b2.tables.contains_key(name));
    }
    lemma_clear_from(b2, names, 0, t2, outcome, end);
}

/// The state in which writing `chunks` for document `id` starts.
pub open spec fn writing(id: Seq<char>, chunks: Seq<ChunkView>) -> SessionView {
    SessionView::AddConnecting { name: table_name_spec(id), chunks }
}

/// The state in which counting the rows of document `id` starts.
pub open spec fn counting(id: Seq<char>) -> SessionView {
    SessionView::CountConnecting { name: table_name_spec(id) }
}

/// The state in which a search of document `id` starts.
pub open spec fn searching(id: Seq<char>, query: Seq<u32>, top_k: usize) -> SessionView {
    SessionView::SearchConnecting { name: table_name_spec(id), query, top_k }
}

/// The state in which asking whether document `id` has a table starts.
pub open spec fn asking(id: Seq<char>) -> SessionView {
    SessionView::HasConnecting { name: table_name_spec(id) }
}

/// The state in which deleting document `id` starts.
pub open spec fn deleting(id: Seq<char>) -> SessionView {
    SessionView::DeleteConnecting { name: table_name_spec(id) }
}

/// The first action of every operation.
pub open spec fn connect(root: Seq<char>) -> ActionView {
    ActionView::Connect { root }
}

/// Whether an operation that starts in state `s` can run to its end on a
/// backend in state `b`.
pub open spec fn can_run(b: Backend, s: SessionView, root: Seq<char>) -> bool {
    exists|trace: Trace, outcome: Outcome, end: Backend|
        runs(b, s, connect(root), trace, outcome, end)
}

/// A write of chunks that can be encoded can run on every backend.
pub proof fn lemma_write_can_run(
    b: Backend,
    id: Seq<char>,
    chunks: Seq<ChunkView>,
    root: Seq<char>,
)
    requires
        encode_check(chunks) is None,
    ensures
        can_run(b, writing(id, chunks), root),
{
    let name = table_name_spec(id);
    let batch = batch_of(chunks);
    let s0 = writing(id, chunks);
    let s1 = SessionView::AddDropping { name, batch };
    let s2 = SessionView::AddCreating { name, rows: chunks.len() as usize };
    let (e1, b1) = if b.tables.contains_key(name) {
        (EventView::Dropped, Backend { tables: b.tables.remove(name), ..b })
    } else {
        (EventView::Failed { not_found: true, cause: Seq::empty() }, b)
    };
    let b2 = Backend { tables: b1.tables.insert(name, batch), ..b1 };
    let outcome = Outcome::Ok(ReplyView::Added { rows: chunks.len() as usize, table: name });
    lemma_runs_at_end(b2, SessionView::Finished, outcome);
    lemma_runs_from(
        b1,
        s2,
        ActionView::CreateTable { name, batch },
        EventView::Created,
        b2,
        Seq::empty(),
        outcome,
        b2,
    );
    let t2 = seq![(EventView::Created, b2)] + Seq::empty();
    lemma_runs_from(b, s1, ActionView::DropTable { name }, e1, b1, t2, outcome, b2);
    let t1 = seq![(e1, b1)] + t2;
    lemma_runs_from(b, s0, connect(root), EventView::Connected, b, t1, outcome, b2);
}

/// A count can run on every backend.
pub proof fn lemma_count_can_run(b: Backend, id: Seq<char>, root: Seq<char>)
    ensures
        can_run(b, counting(id), root),
{
    let name = table_name_spec(id);
    let s0 = counting(id);
    let s1 = SessionView::CountOpening;
    if b.tables.contains_key(name) {
        let b1 = Backend { open: Some(name), ..b };
        let rows = b.tables[name].rows.len() as usize;
        let outcome = Outcome::Ok(ReplyView::Count(wrapped_count(rows)));
        let s2 = SessionView::CountCounting;
        lemma_runs_at_end(b1, SessionView::Finished, outcome);
        lemma_runs_from(
            b1,
            s2,
            ActionView::CountRows,
            EventView::Counted(rows),
            b1,
            Seq::empty(),
            outcome,
            b1,
        );
        let t2 = seq![(EventView::Counted(rows), b1)] + Seq::empty();
        lemma_runs_from(b, s1, ActionView::OpenTable { name }, EventView::Opened, b1, t2, outcome, b1);
        let t1 = seq![(EventView::Opened, b1)] + t2;
        lemma_runs_from(b, s0, connect(root), EventView::Connected, b, t1, outcome, b1);
    } else {
        let e1 = EventView::Failed { not_found: true, cause: Seq::empty() };
        let outcome = step(s1, e1).1->Done_0;
        lemma_runs_at_end(b, SessionView::Finished, outcome);
        lemma_runs_from(b, s1, ActionView::OpenTable { name }, e1, b, Seq::empty(), outcome, b);
        let t1 = seq![(e1, b)] + Seq::empty();
        lemma_runs_from(b, s0, connect(root), EventView::Connected, b, t1, outcome, b);
    }
}

/// A delete can run on every backend.
pub proof fn lemma_delete_can_run(b: Backend, id: Seq<char>, root: Seq<char>)
    ensures
        can_run(b, deleting(id), root),
{
    let name = table_name_spec(id);
    let s0 = deleting(id);
    let s1 = SessionView::DeleteDropping { name };
    let (e1, b1) = if b.tables.contains_key(name) {
        (EventView::Dropped, Backend { tables: b.tables.remove(name), ..b })
    } else {
        (EventView::Failed { not_found: true, cause: Seq::empty() }, b)
    };
    let outcome = step(s1, e1).1->Done_0;
    lemma_runs_at_end(b1, SessionView::Finished, outcome);
    lemma_runs_from(b, s1, ActionView::DropTable { name }, e1, b1, Seq::empty(), outcome, b1);
    let t1 = seq![(e1, b1)] + Seq::empty();
    lemma_runs_from(b, s0, connect(root), EventView::Connected, b, t1, outcome, b1);
}

/// Asking whether a document has a table can run on every backend whose
/// tables can be listed.
pub proof fn lemma_has_can_run(b: Backend, id: Seq<char>, names: Seq<Seq<char>>, root: Seq<char>)
    requires
        names.no_duplicates(),
        names.to_set() == b.tables.dom(),
    ensures
        can_run(b, asking(id), root),
{
    let name = table_name_spec(id);
    let s0 = asking(id);
    let s1 = SessionView::HasListing { name };
    let listed = EventView::Tables(names);
    let outcome = step(s1, listed).1->Done_0;
    lemma_runs_at_end(b, SessionView::Finished, outcome);
    lemma_runs_from(b, s1, ActionView::ListTables, listed, b, Seq::empty(), outcome, b);
    let t1 = seq![(listed, b)] + Seq::empty();
    lemma_runs_from(b, s0, connect(root), EventView::Connected, b, t1, outcome, b);
}

/// The first `n` rows of a table as search results, each at distance zero.
pub open spec fn first_rows(rows: Seq<ChunkView>, n: int) -> Seq<HitView> {
    Seq::new(n as nat, |i: int| HitView { id: rows[i].id, text: rows[i].text, distance: 0 })
}

/// The batch that holds the given results.
pub open spec fn batch_holding(hits: Seq<HitView>) -> ResultBatchView {
    ResultBatchView {
        ids: Some(Seq::new(hits.len(), |i: int| hits[i].id)),
        texts: Some(Seq::new(hits.len(), |i: int| hits[i].text)),
        distances: DistanceView::Values(Seq::new(hits.len(), |i: int| hits[i].distance)),
    }
}

/// A search of a table that exists, with a query vector of the table's
/// width, can run.
pub proof fn lemma_search_can_run(
    b: Backend,
    id: Seq<char>,
    query: Seq<u32>,
    top_k: usize,
    root: Seq<char>,
)
    requires
        b.tables.contains_key(table_name_spec(id)),
        0 < b.tables[table_name_spec(id)].dimension <= MAX_DIMENSION,
        query.len() == b.tables[table_name_spec(id)].dimension,
    ensures
        can_run(b, searching(id, query, top_k), root),
{
    let name = table_name_spec(id);
    let table = b.tables[name];
    let n: int = if top_k <= table.rows.len() {
        top_k as int
    } else {
        table.rows.len() as int
    };
    let hits = first_rows(table.rows, n);
    let picks = Seq::new(n as nat, |i: int| i);
    assert(selects(table.rows, picks, hits));
    assert(found_in(table.rows, top_k, hits));
    let s0 = searching(id, query, top_k);
    let s1 = SessionView::SearchOpening { query, top_k };
    let s2 = SessionView::SearchMeasuring { query, top_k };
    let s3 = SessionView::SearchStarting;
    let s4 = SessionView::SearchCollecting { hits: Seq::empty() };
    let b1 = Backend { open: Some(name), ..b };
    let b2 = Backend { stream: hits, ..b1 };
    let b3 = Backend { stream: Seq::empty(), ..b1 };
    let layout = EventView::Layout(table_layout(table.dimension));
    lemma_layout_width(table.dimension);
    assert(open_table(b1) == Some(table));
    let outcome = Outcome::Ok(ReplyView::Found(hits));
    let rest = if n == 0 {
        assert(hits =~= Seq::<HitView>::empty());
        assert(b2 == b3);
        lemma_runs_at_end(b3, SessionView::Finished, outcome);
        lemma_runs_from(
            b3,
            s4,
            ActionView::NextBatch,
            EventView::EndOfResults,
            b3,
            Seq::empty(),
            outcome,
            b3,
        );
        seq![(EventView::EndOfResults, b3)] + Seq::empty()
    } else {
        let batch = batch_holding(hits);
        assert(rows_of(batch) is Ok && rows_of(batch)->Ok_0 == hits) by {
            assert(rows_of(batch)->Ok_0 =~= hits);
        }
        assert(hits.take(hits.len() as int) =~= hits);
        assert(hits.skip(hits.len() as int) =~= Seq::<HitView>::empty());
        let s5 = SessionView::SearchCollecting { hits };
        assert(Seq::<HitView>::empty() + hits =~= hits);
        lemma_runs_at_end(b3, SessionView::Finished, outcome);
        lemma_runs_from(
            b3,
            s5,
            ActionView::NextBatch,
            EventView::EndOfResults,
            b3,
            Seq::empty(),
            outcome,
            b3,
        );
        let t5 = seq![(EventView::EndOfResults, b3)] + Seq::empty();
        lemma_runs_from(b2, s4, ActionView::NextBatch, EventView::Batch(batch), b3, t5, outcome, b3);
        seq![(EventView::Batch(batch), b3)] + t5
    };
    lemma_runs_from(
        b1,
        s3,
        ActionView::Nearest { query, limit: top_k },
        EventView::Started,
        b2,
        rest,
        outcome,
        b3,
    );
    let t3 = seq![(EventView::Started, b2)] + rest;
    lemma_runs_from(b1, s2, ActionView::ReadSchema, layout, b1, t3, outcome, b3);
    let t2 = seq![(layout, b1)] + t3;
    lemma_runs_from(b, s1, ActionView::OpenTable { name }, EventView::Opened, b1, t2, outcome, b3);
    let t1 = seq![(EventView::Opened, b1)] + t2;
    lemma_runs_from(b, s0, connect(root), EventView::Connected, b, t1, outcome, b3);
}

/// Whether clearing that has dropped the tables in front of `next` runs to
/// its end through `trace`.
pub open spec fn clearing_runs(
    b: Backend,
    names: Seq<Seq<char>>,
    next: int,
    trace: Trace,
    outcome: Outcome,
    end: Backend,
) -> bool {
    runs(b, clear_from(names, next).0, clear_from(names, next).1, trace, outcome, end)
}

/// Clearing that has dropped the tables in front of `next` can run to its end.
pub proof fn lemma_clear_from_can_run(b: Backend, names: Seq<Seq<char>>, next: int)
    requires
        0 <= next <= names.len(),
        names.no_duplicates(),
        left_to_drop(b, names, next),
    ensures
        exists|trace: Trace, outcome: Outcome, end: Backend|
            clearing_runs(b, names, next, trace, outcome, end),
    decreases names.len() - next,
{
    let (s, a) = clear_from(names, next);
    if next == names.len() {
        let outcome = Outcome::Ok(ReplyView::Cleared("Cleared all tables"@));
        lemma_runs_at_end(b, SessionView::Finished, outcome);
        assert(clearing_runs(b, names, next, Seq::empty(), outcome, b));
    } else {
        let dropped = names[next];
        assert(b.tables.contains_key(dropped));
        let after = Backend { tables: b.tables.remove(dropped), ..b };
        assert forall|name: Seq<char>| #[trigger]
            after.tables.contains_key(name) <==> exists|i: int|
                next + 1 <= i < names.len() && #[trigger] names[i] == name by {
            if after.tables.contains_key(name) {
                assert(b.tables.contains_key(name));
                let i = choose|i: int| next <= i < names.len() && #[trigger] names[i] == name;
                assert(i != next);
                assert(next + 1 <= i < names.len() && names[i] == name);
            }
            if exists|i: int| next + 1 <= i < names.len() && #[trigger] names[i] == name {
                let i = choose|i: int| next + 1 <= i < names.len() && #[trigger] names[i] == name;
                assert(next <= i < names.len() && names[i] == name);
                assert(b.tables.contains_key(name));
                assert(name != dropped);
            }
        }
        let then = next + 1;
        lemma_clear_from_can_run(after, names, then);
        let (rest, outcome, end) = choose|rest: Trace, outcome: Outcome, end: Backend|
            clearing_runs(after, names, then, rest, outcome, end);
        lemma_runs_from(b, s, a, EventView::Dropped, after, rest, outcome, end);
        assert(clearing_runs(b, names, next, seq![(EventView::Dropped, after)] + rest, outcome, end));
    }
}

/// Clearing can run on every backend whose tables can be listed.
pub proof fn lemma_clear_can_run(b: Backend, names: Seq<Seq<char>>, root: Seq<char>)
    requires
        names.no_duplicates(),
        names.to_set() == b.tables.dom(),
    ensures
        can_run(b, SessionView::ClearConnecting, root),
{
    assert forall|name: Seq<char>| #[trigger]
        b.tables.contains_key(name) <==> exists|i: int|
            0 <= i < names.len() && #[trigger] names[i] == name by {
        assert(names.to_set().contains(name) == names.contains(name));
        assert(b.tables.dom().contains(name) == b.tables.contains_key(name));
    }
    lemma_clear_from_can_run(b, names, 0);
    let (rest, outcome, end) = choose|rest: Trace, outcome: Outcome, end: Backend|
        clearing_runs(b, names, 0, rest, outcome, end);
    let listed = EventView::Tables(names);
    lemma_runs_from(b, SessionView::ClearListing, ActionView::ListTables, listed, b, rest, outcome, end);
    let t1 = seq![(listed, b)] + rest;
    lemma_runs_from(
        b,
        SessionView::ClearConnecting,
        connect(root),
        EventView::Connected,
        b,
        t1,
        outcome,
        end,
    );
}

} // verus!
