//! A storage backend as a mathematical object, and what it means for an
//! operation to run against it.
//!
//! The backend here is the one the operations are written for: it keeps
//! tables by name, drops and creates them when asked, and answers a search
//! with rows of the table searched.  Nothing in the library is verified by
//! assuming that a real backend behaves so; the model only gives `runs` and
//! `laws` something to speak about.

use vstd::prelude::*;
use crate::batch::{BatchView, ChunkView};
use crate::error::StoreErrorView;
use crate::protocol::{ActionView, EventView, ReplyView};
use crate::schema::table_layout;
use crate::search::{rows_of, HitView};
use crate::store::{step, SessionView};

verus! {

/// The state of a backend: its tables by name, the table that the running
/// operation has opened, and the search results not yet handed out.
pub ghost struct Backend {
    pub tables: Map<Seq<char>, BatchView>,
    pub open: Option<Seq<char>>,
    pub stream: Seq<HitView>,
}

/// Whether each of `hits` is a row of `rows`, no row taken twice; `picks`
/// gives the row of each hit.
pub open spec fn selects(rows: Seq<ChunkView>, picks: Seq<int>, hits: Seq<HitView>) -> bool {
    &&& picks.len() == hits.len()
    &&& picks.no_duplicates()
    &&& forall|i: int|
        0 <= i < picks.len() ==> {
            &&& 0 <= #[trigger] picks[i] < rows.len()
            &&& hits[i].id == rows[picks[i]].id
            &&& hits[i].text == rows[picks[i]].text
        }
}

/// Whether `hits` can be the result of a search for at most `limit` rows in
/// a table with the given rows: as many distinct rows as the limit allows.
pub open spec fn found_in(rows: Seq<ChunkView>, limit: usize, hits: Seq<HitView>) -> bool {
    &&& hits.len() == if limit <= rows.len() {
        limit as nat
    } else {
        rows.len()
    }
    &&& exists|picks: Seq<int>| selects(rows, picks, hits)
}

/// The table that the running operation has opened.
pub open spec fn open_table(b: Backend) -> Option<BatchView> {
    match b.open {
        Some(name) => if b.tables.contains_key(name) {
            Some(b.tables[name])
        } else {
            None
        },
        None => None,
    }
}

/// Whether the backend, in state `b`, may give the answer `e` to the action
/// `a` and thereby come into state `after`.
pub open spec fn answers(b: Backend, a: ActionView, e: EventView, after: Backend) -> bool {
    match a {
        ActionView::Connect { root } => e == EventView::Connected && after == b,
        ActionView::DropTable { name } => if b.tables.contains_key(name) {
            e == EventView::Dropped && after == (Backend { tables: b.tables.remove(name), ..b })
        } else {
            e matches EventView::Failed { not_found, .. } && not_found && after == b
        },
        ActionView::CreateTable { name, batch } => if b.tables.contains_key(name) {
            e matches EventView::Failed { not_found, .. } && !not_found && after == b
        } else {
            e == EventView::Created && after == (Backend {
                tables: b.tables.insert(name, batch),
                ..b
            })
        },
        ActionView::ListTables => {
            &&& e matches EventView::Tables(names)
            &&& names.no_duplicates()
            &&& names.to_set() == b.tables.dom()
            &&& after == b
        },
        ActionView::OpenTable { name } => if b.tables.contains_key(name) {
            e == EventView::Opened && after == (Backend { open: Some(name), ..b })
        } else {
            e matches EventView::Failed { not_found, .. } && not_found && after == b
        },
        ActionView::ReadSchema => {
            &&& open_table(b) matches Some(table)
            &&& e == EventView::Layout(table_layout(table.dimension))
            &&& after == b
        },
        ActionView::CountRows => {
            &&& open_table(b) matches Some(table)
            &&& e == EventView::Counted(table.rows.len() as usize)
            &&& after == b
        },
        ActionView::Nearest { query, limit } => {
            &&& open_table(b) matches Some(table)
            &&& e == EventView::Started
            &&& found_in(table.rows, limit, after.stream)
            &&& after == (Backend { stream: after.stream, ..b })
        },
        ActionView::NextBatch => if b.stream.len() == 0 {
            e == EventView::EndOfResults && after == b
        } else {
            &&& e matches EventView::Batch(batch)
            &&& rows_of(batch) matches Ok(rows)
            &&& rows.len() <= b.stream.len()
            &&& rows == b.stream.take(rows.len() as int)
            &&& after == (Backend { stream: b.stream.skip(rows.len() as int), ..b })
        },
        ActionView::Done(_) => false,
    }
}

/// How an operation ended.
pub type Outcome = Result<ReplyView, StoreErrorView>;

/// Whether an operation in state `s`, about to perform `a` on a backend in
/// state `b`, runs to its end through the answers and backend states of
/// `trace`, ending with `outcome` and leaving the backend in state `end`.
pub open spec fn runs(
    b: Backend,
    s: SessionView,
    a: ActionView,
    trace: Seq<(EventView, Backend)>,
    outcome: Outcome,
    end: Backend,
) -> bool
    decreases trace.len(),
{
    if a is Done {
        trace.len() == 0 && a == ActionView::Done(outcome) && end == b
    } else if trace.len() == 0 {
        false
    } else {
        let (e, after) = trace[0];
        let (next, then) = step(s, e);
        answers(b, a, e, after) && runs(after, next, then, trace.drop_first(), outcome, end)
    }
}

/// A run that is not at its end starts with an answer of the backend and
/// goes on from the state and action that `step` gives.
pub proof fn lemma_first_step(
    b: Backend,
    s: SessionView,
    a: ActionView,
    trace: Seq<(EventView, Backend)>,
    outcome: Outcome,
    end: Backend,
)
    requires
        runs(b, s, a, trace, outcome, end),
        !(a is Done),
    ensures
        trace.len() > 0,
        answers(b, a, trace[0].0, trace[0].1),
        runs(
            trace[0].1,
            step(s, trace[0].0).0,
            step(s, trace[0].0).1,
            trace.drop_first(),
            outcome,
            end,
        ),
{
}

/// A run that is at its end has the outcome of its last action and leaves
/// the backend as it is.
pub proof fn lemma_at_end(
    b: Backend,
    s: SessionView,
    a: ActionView,
    trace: Seq<(EventView, Backend)>,
    outcome: Outcome,
    end: Backend,
)
    requires
        runs(b, s, a, trace, outcome, end),
        a is Done,
    ensures
        a == ActionView::Done(outcome),
        end == b,
{
}

/// An operation whose action is `Done` has run, with the outcome of that
/// action.
pub proof fn lemma_runs_at_end(b: Backend, s: SessionView, outcome: Outcome)
    ensures
        runs(b, s, ActionView::Done(outcome), Seq::empty(), outcome, b),
{
}

/// An answer of the backend in front of a run makes a run.
pub proof fn lemma_runs_from(
    b: Backend,
    s: SessionView,
    a: ActionView,
    e: EventView,
    after: Backend,
    rest: Seq<(EventView, Backend)>,
    outcome: Outcome,
    end: Backend,
)
    requires
        !(a is Done),
        answers(b, a, e, after),
        runs(after, step(s, e).0, step(s, e).1, rest, outcome, end),
    ensures
        runs(b, s, a, seq![(e, after)] + rest, outcome, end),
{
    let trace = seq![(e, after)] + rest;
    assert(trace[0] == (e, after));
    assert(trace.drop_first() =~= rest);
}

} // verus!
