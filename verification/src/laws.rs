//! What the store operations achieve in sequence, when they run against the
//! backend of `model`.

use vstd::prelude::*;
use crate::batch::{batch_of, dimension_of, encode_check, ChunkView, DEFAULT_DIMENSION};
use crate::error::ErrorKind;
use crate::model::{lemma_at_end, lemma_first_step, runs, selects, Backend, Outcome};
use crate::naming::{differ_in_punctuation_only, law_same_table_name, table_name_spec};
use crate::protocol::{ActionView, ReplyView};
use crate::runs::{
    asking, connect, counting, deleting, fails_with, lemma_clear, lemma_collect, lemma_count,
    lemma_delete, lemma_has, lemma_search, lemma_write, searching, succeeds_with, writing, Trace,
};
use crate::search::HitView;
use crate::store::{step, SessionView};

verus! {

/// Whether every one of `hits` carries the identifier of one of `chunks`.
pub open spec fn ids_among(hits: Seq<HitView>, chunks: Seq<ChunkView>) -> bool {
    forall|i: int|
        0 <= i < hits.len() ==> exists|j: int|
            0 <= j < chunks.len() && (#[trigger] hits[i]).id == (#[trigger] chunks[j]).id
}

/// Round trip.  Chunks of one vector width, written for a document, are
/// what a count and a search of that document then see: the count is the
/// number of chunks written, and a search for at least that many rows, with
/// a query vector of the chunks' width, finds exactly that many rows, each
/// carrying the identifier of a chunk written.
pub proof fn law_round_trip(
    b: Backend,
    id: Seq<char>,
    chunks: Seq<ChunkView>,
    query: Seq<u32>,
    top_k: usize,
    root: Seq<char>,
    write: Trace,
    written: Outcome,
    b1: Backend,
    count: Trace,
    counted: Outcome,
    b2: Backend,
    search: Trace,
    found: Outcome,
    b3: Backend,
)
    requires
        0 < chunks.len() <= usize::MAX,
        chunks.len() <= i64::MAX,
        encode_check(chunks) is None,
        query.len() == dimension_of(chunks),
        top_k >= chunks.len(),
        runs(b, writing(id, chunks), connect(root), write, written, b1),
        runs(b1, counting(id), connect(root), count, counted, b2),
        runs(b2, searching(id, query, top_k), connect(root), search, found, b3),
    ensures
        succeeds_with(
            written,
            ReplyView::Added { rows: chunks.len() as usize, table: table_name_spec(id) },
        ),
        succeeds_with(counted, ReplyView::Count(chunks.len() as i64)),
        found matches Ok(ReplyView::Found(hits)) && hits.len() == chunks.len() && ids_among(
            hits,
            chunks,
        ),
{
    let name = table_name_spec(id);
    lemma_write(b, name, chunks, root, write, written, b1);
    lemma_count(b1, name, root, count, counted, b2);
    lemma_search(b2, name, query, top_k, root, search, found, b3);
    let hits = found->Ok_0->Found_0;
    let picks = choose|picks: Seq<int>| selects(chunks, picks, hits);
    assert forall|i: int| 0 <= i < hits.len() implies exists|j: int|
        0 <= j < chunks.len() && (#[trigger] hits[i]).id == (#[trigger] chunks[j]).id by {
        assert(hits[i].id == chunks[picks[i]].id);
    }
}

/// Empty table.  Writing no chunks succeeds and leaves a table without rows,
/// of the default vector width: a count then gives zero, and a search with a
/// query vector of the default width gives no rows and no error.
pub proof fn law_empty_table(
    b: Backend,
    id: Seq<char>,
    query: Seq<u32>,
    top_k: usize,
    root: Seq<char>,
    write: Trace,
    written: Outcome,
    b1: Backend,
    count: Trace,
    counted: Outcome,
    b2: Backend,
    search: Trace,
    found: Outcome,
    b3: Backend,
)
    requires
        query.len() == dimension_of(Seq::<ChunkView>::empty()),
        runs(b, writing(id, Seq::empty()), connect(root), write, written, b1),
        runs(b1, counting(id), connect(root), count, counted, b2),
        runs(b2, searching(id, query, top_k), connect(root), search, found, b3),
    ensures
        succeeds_with(written, ReplyView::Added { rows: 0, table: table_name_spec(id) }),
        b1.tables[table_name_spec(id)].rows.len() == 0,
        b1.tables[table_name_spec(id)].dimension == DEFAULT_DIMENSION,
        succeeds_with(counted, ReplyView::Count(0)),
        succeeds_with(found, ReplyView::Found(Seq::empty())),
{
    let name = table_name_spec(id);
    let chunks = Seq::<ChunkView>::empty();
    lemma_write(b, name, chunks, root, write, written, b1);
    lemma_count(b1, name, root, count, counted, b2);
    lemma_search(b2, name, query, top_k, root, search, found, b3);
    assert(found->Ok_0->Found_0 =~= Seq::<HitView>::empty());
}

/// Overwrite.  Of two writes for one document only the second is left: the
/// document's table is the second list of chunks, and a count gives the
/// length of the second list.
pub proof fn law_overwrite(
    b: Backend,
    id: Seq<char>,
    first: Seq<ChunkView>,
    second: Seq<ChunkView>,
    root: Seq<char>,
    write1: Trace,
    written1: Outcome,
    b1: Backend,
    write2: Trace,
    written2: Outcome,
    b2: Backend,
    count: Trace,
    counted: Outcome,
    b3: Backend,
)
    requires
        encode_check(first) is None,
        encode_check(second) is None,
        second.len() <= usize::MAX,
        second.len() <= i64::MAX,
        runs(b, writing(id, first), connect(root), write1, written1, b1),
        runs(b1, writing(id, second), connect(root), write2, written2, b2),
        runs(b2, counting(id), connect(root), count, counted, b3),
    ensures
        b2.tables[table_name_spec(id)] == batch_of(second),
        succeeds_with(counted, ReplyView::Count(second.len() as i64)),
{
    let name = table_name_spec(id);
    lemma_write(b, name, first, root, write1, written1, b1);
    lemma_write(b1, name, second, root, write2, written2, b2);
    lemma_count(b2, name, root, count, counted, b3);
}

/// Name collision.  Two documents whose identifiers differ only in
/// characters that are not alphanumeric share one table: a write for the
/// second replaces what was written for the first, and a count for the first
/// gives the length of what was written for the second.
pub proof fn law_collision_overwrites(
    b: Backend,
    id1: Seq<char>,
    id2: Seq<char>,
    first: Seq<ChunkView>,
    second: Seq<ChunkView>,
    root: Seq<char>,
    write1: Trace,
    written1: Outcome,
    b1: Backend,
    write2: Trace,
    written2: Outcome,
    b2: Backend,
    count: Trace,
    counted: Outcome,
    b3: Backend,
)
    requires
        differ_in_punctuation_only(id1, id2),
        encode_check(first) is None,
        encode_check(second) is None,
        second.len() <= usize::MAX,
        second.len() <= i64::MAX,
        runs(b, writing(id1, first), connect(root), write1, written1, b1),
        runs(b1, writing(id2, second), connect(root), write2, written2, b2),
        runs(b2, counting(id1), connect(root), count, counted, b3),
    ensures
        table_name_spec(id1) == table_name_spec(id2),
        b2.tables[table_name_spec(id1)] == batch_of(second),
        succeeds_with(counted, ReplyView::Count(second.len() as i64)),
{
    law_same_table_name(id1, id2);
    law_overwrite(
        b,
        id1,
        first,
        second,
        root,
        write1,
        written1,
        b1,
        write2,
        written2,
        b2,
        count,
        counted,
        b3,
    );
}

/// Order.  A search that succeeds hands out exactly the rows that the
/// backend lined up when it started the search (its state after the fourth
/// answer), batch after batch, in the backend's order: nothing is sorted
/// again, dropped or added.
pub proof fn law_search_keeps_order(
    b: Backend,
    id: Seq<char>,
    query: Seq<u32>,
    top_k: usize,
    root: Seq<char>,
    trace: Trace,
    outcome: Outcome,
    end: Backend,
)
    requires
        runs(b, searching(id, query, top_k), connect(root), trace, outcome, end),
        outcome is Ok,
    ensures
        trace.len() > 3,
        succeeds_with(outcome, ReplyView::Found(trace[3].1.stream)),
{
    let name = table_name_spec(id);
    let s0 = searching(id, query, top_k);
    lemma_first_step(b, s0, connect(root), trace, outcome, end);
    let t1 = trace.drop_first();
    let s1 = SessionView::SearchOpening { query, top_k };
    lemma_first_step(b, s1, ActionView::OpenTable { name }, t1, outcome, end);
    let b2 = t1[0].1;
    let t2 = t1.drop_first();
    let (s2, a2) = step(s1, t1[0].0);
    if a2 is Done {
        lemma_at_end(b2, s2, a2, t2, outcome, end);
    } else {
        lemma_first_step(b2, s2, a2, t2, outcome, end);
        let b3 = t2[0].1;
        let t3 = t2.drop_first();
        let (s3, a3) = step(s2, t2[0].0);
        if a3 is Done {
            lemma_at_end(b3, s3, a3, t3, outcome, end);
        } else {
            lemma_first_step(b3, s3, a3, t3, outcome, end);
            let b4 = t3[0].1;
            let t4 = t3.drop_first();
            lemma_collect(b4, Seq::empty(), t4, outcome, end);
            assert(Seq::<HitView>::empty() + b4.stream =~= b4.stream);
            assert(trace[3] == t3[0]);
        }
    }
}

/// Not found.  For a document that has no table, a search, a count and a
/// delete each fail with a not-found error, while asking whether the
/// document has a table succeeds with `false`.
pub proof fn law_not_found(
    b: Backend,
    id: Seq<char>,
    query: Seq<u32>,
    top_k: usize,
    root: Seq<char>,
    search: Trace,
    found: Outcome,
    b1: Backend,
    count: Trace,
    counted: Outcome,
    b2: Backend,
    delete: Trace,
    deleted: Outcome,
    b3: Backend,
    ask: Trace,
    asked: Outcome,
    b4: Backend,
)
    requires
        !b.tables.contains_key(table_name_spec(id)),
        runs(b, searching(id, query, top_k), connect(root), search, found, b1),
        runs(b, counting(id), connect(root), count, counted, b2),
        runs(b, deleting(id), connect(root), delete, deleted, b3),
        runs(b, asking(id), connect(root), ask, asked, b4),
    ensures
        fails_with(found, ErrorKind::NotFound),
        fails_with(counted, ErrorKind::NotFound),
        fails_with(deleted, ErrorKind::NotFound),
        succeeds_with(asked, ReplyView::Has(false)),
{
    let name = table_name_spec(id);
    lemma_search(b, name, query, top_k, root, search, found, b1);
    lemma_count(b, name, root, count, counted, b2);
    lemma_delete(b, name, root, delete, deleted, b3);
    lemma_has(b, name, root, ask, asked, b4);
}

/// Clear all.  After clearing, whatever was written before, no document has
/// a table.
pub proof fn law_clear_all(
    b: Backend,
    id: Seq<char>,
    root: Seq<char>,
    clear: Trace,
    cleared: Outcome,
    b1: Backend,
    ask: Trace,
    asked: Outcome,
    b2: Backend,
)
    requires
        runs(b, SessionView::ClearConnecting, connect(root), clear, cleared, b1),
        runs(b1, asking(id), connect(root), ask, asked, b2),
    ensures
        succeeds_with(cleared, ReplyView::Cleared("Cleared all tables"@)),
        succeeds_with(asked, ReplyView::Has(false)),
{
    lemma_clear(b, root, clear, cleared, b1);
    lemma_has(b1, table_name_spec(id), root, ask, asked, b2);
}

} // verus!
