//! The store operations as state machines.
//!
//! An operation never touches the storage backend itself.  It starts as a
//! `Session` together with a first `Action`; whoever performs the action
//! hands the backend's answer to `Session::advance` and gets the next action,
//! until the action is `Done`.  `step` says, for every state and answer, what
//! comes next.

use vstd::prelude::*;
use crate::batch::{
    batch_of, chunk_views, encode_batch, encode_check, encode_message, BatchView, ChunkBatch,
    ChunkData, ChunkView,
};
use crate::error::{ErrorKind, StoreError, StoreErrorView};
use crate::naming::{table_name, table_name_spec};
use crate::protocol::{Action, ActionView, Event, EventView, Reply, ReplyView};
use crate::schema::{layout_width, vector_width};
use crate::search::{extract_rows, hit_views, rows_of, HitView, VectorSearchResult};
use crate::text::{concat, decimal, push_decimal, str_eq, text_views};

verus! {

/// Where an operation stands.
#[derive(Debug)]
pub(crate) enum Stage {
    Initializing { root: String },
    AddConnecting { name: String, chunks: Vec<ChunkData> },
    AddDropping { name: String, batch: ChunkBatch },
    AddCreating { name: String, rows: usize },
    SearchConnecting { name: String, query: Vec<u32>, top_k: usize },
    SearchOpening { query: Vec<u32>, top_k: usize },
    SearchMeasuring { query: Vec<u32>, top_k: usize },
    SearchStarting,
    SearchCollecting { hits: Vec<VectorSearchResult> },
    HasConnecting { name: String },
    HasListing { name: String },
    DeleteConnecting { name: String },
    DeleteDropping { name: String },
    ClearConnecting,
    ClearListing,
    ClearDropping { names: Vec<String>, next: usize },
    CountConnecting { name: String },
    CountOpening,
    CountCounting,
    Finished,
}

/// The state of one store operation between two answers of the backend.
#[derive(Debug)]
pub struct Session {
    stage: Stage,
}

/// The state of an operation as a mathematical value.  Each operation has
/// its own states, named after the answer it waits for; `Finished` is the
/// state of every operation that has ended.
pub ghost enum SessionView {
    Initializing { root: Seq<char> },
    AddConnecting { name: Seq<char>, chunks: Seq<ChunkView> },
    AddDropping { name: Seq<char>, batch: BatchView },
    AddCreating { name: Seq<char>, rows: usize },
    SearchConnecting { name: Seq<char>, query: Seq<u32>, top_k: usize },
    SearchOpening { query: Seq<u32>, top_k: usize },
    SearchMeasuring { query: Seq<u32>, top_k: usize },
    SearchStarting,
    SearchCollecting { hits: Seq<HitView> },
    HasConnecting { name: Seq<char> },
    HasListing { name: Seq<char> },
    DeleteConnecting { name: Seq<char> },
    DeleteDropping { name: Seq<char> },
    ClearConnecting,
    ClearListing,
    ClearDropping { names: Seq<Seq<char>>, next: int },
    CountConnecting { name: Seq<char> },
    CountOpening,
    CountCounting,
    Finished,
}

impl View for Session {
    type V = SessionView;

    closed spec fn view(&self) -> SessionView {
        match self.stage {
            Stage::Initializing { root } => SessionView::Initializing { root: root@ },
            Stage::AddConnecting { name, chunks } => SessionView::AddConnecting {
                name: name@,
                chunks: chunk_views(chunks@),
            },
            Stage::AddDropping { name, batch } => SessionView::AddDropping {
                name: name@,
                batch: batch@,
            },
            Stage::AddCreating { name, rows } => SessionView::AddCreating { name: name@, rows },
            Stage::SearchConnecting { name, query, top_k } => SessionView::SearchConnecting {
                name: name@,
                query: query@,
                top_k,
            },
            Stage::SearchOpening { query, top_k } => SessionView::SearchOpening {
                query: query@,
                top_k,
            },
            Stage::SearchMeasuring { query, top_k } => SessionView::SearchMeasuring {
                query: query@,
                top_k,
            },
            Stage::SearchStarting => SessionView::SearchStarting,
            Stage::SearchCollecting { hits } => SessionView::SearchCollecting {
                hits: hit_views(hits@),
            },
            Stage::HasConnecting { name } => SessionView::HasConnecting { name: name@ },
            Stage::HasListing { name } => SessionView::HasListing { name: name@ },
            Stage::DeleteConnecting { name } => SessionView::DeleteConnecting { name: name@ },
            Stage::DeleteDropping { name } => SessionView::DeleteDropping { name: name@ },
            Stage::ClearConnecting => SessionView::ClearConnecting,
            Stage::ClearListing => SessionView::ClearListing,
            Stage::ClearDropping { names, next } => SessionView::ClearDropping {
                names: text_views(names@),
                next: next as int,
            },
            Stage::CountConnecting { name } => SessionView::CountConnecting { name: name@ },
            Stage::CountOpening => SessionView::CountOpening,
            Stage::CountCounting => SessionView::CountCounting,
            Stage::Finished => SessionView::Finished,
        }
    }
}

/// The end of an operation with the given outcome.
pub open spec fn ended(outcome: Result<ReplyView, StoreErrorView>) -> (SessionView, ActionView) {
    (SessionView::Finished, ActionView::Done(outcome))
}

/// The end of an operation that failed.
pub open spec fn failed(kind: ErrorKind, message: Seq<char>) -> (SessionView, ActionView) {
    ended(Err(StoreErrorView { kind, message }))
}

/// The end of an operation that got an answer it was not waiting for.
pub open spec fn unexpected() -> (SessionView, ActionView) {
    failed(ErrorKind::Io, "Unexpected answer from the store"@)
}

/// The class of a failure on a named table.
pub open spec fn missing_or_io(not_found: bool) -> ErrorKind {
    if not_found {
        ErrorKind::NotFound
    } else {
        ErrorKind::Io
    }
}

/// The row count as a signed 64-bit number: counts above its range wrap.
pub open spec fn wrapped_count(rows: usize) -> i64 {
    if rows <= i64::MAX {
        rows as i64
    } else {
        (rows - 0x1_0000_0000_0000_0000) as i64
    }
}

/// The text of the error for a query vector of the wrong width.
pub open spec fn width_message(found: nat, expected: nat) -> Seq<char> {
    "Query vector has "@ + decimal(found) + " components, the table stores vectors of "@ + decimal(
        expected,
    )
}

/// What clearing does once the tables in front of `next` are dropped: drop
/// the table at `next`, or end if there is none.
pub open spec fn clear_from(names: Seq<Seq<char>>, next: int) -> (SessionView, ActionView) {
    if 0 <= next < names.len() {
        (SessionView::ClearDropping { names, next }, ActionView::DropTable { name: names[next] })
    } else {
        ended(Ok(ReplyView::Cleared("Cleared all tables"@)))
    }
}

/// What writing does once the old table is out of the way.
pub open spec fn create_from(name: Seq<char>, batch: BatchView) -> (SessionView, ActionView) {
    (
        SessionView::AddCreating { name, rows: batch.rows.len() as usize },
        ActionView::CreateTable { name, batch },
    )
}

/// The state and the action that follow when an operation in state `s` is
/// given the answer `e`.
pub open spec fn step(s: SessionView, e: EventView) -> (SessionView, ActionView) {
    match s {
        SessionView::Initializing { root } => match e {
            EventView::Connected => ended(
                Ok(ReplyView::Initialized("LanceDB initialized at: "@ + root)),
            ),
            EventView::Failed { cause, .. } => failed(
                ErrorKind::Connection,
                "Failed to connect to LanceDB at "@ + root + ": "@ + cause,
            ),
            _ => unexpected(),
        },
        SessionView::AddConnecting { name, chunks } => match e {
            EventView::Connected => match encode_check(chunks) {
                Some(error) => failed(ErrorKind::Schema, encode_message(error)),
                None => (
                    SessionView::AddDropping { name, batch: batch_of(chunks) },
                    ActionView::DropTable { name },
                ),
            },
            EventView::Failed { cause, .. } => failed(
                ErrorKind::Connection,
                "Failed to connect: "@ + cause,
            ),
            _ => unexpected(),
        },
        SessionView::AddDropping { name, batch } => match e {
            EventView::Dropped => create_from(name, batch),
            EventView::Failed { not_found, cause } => if not_found {
                create_from(name, batch)
            } else {
                failed(ErrorKind::Io, "Failed to drop table: "@ + cause)
            },
            _ => unexpected(),
        },
        SessionView::AddCreating { name, rows } => match e {
            EventView::Created => ended(Ok(ReplyView::Added { rows, table: name })),
            EventView::Rejected { cause } => failed(
                ErrorKind::Schema,
                "Failed to create table: "@ + cause,
            ),
            EventView::Failed { cause, .. } => failed(
                ErrorKind::Io,
                "Failed to create table: "@ + cause,
            ),
            _ => unexpected(),
        },
        SessionView::SearchConnecting { name, query, top_k } => match e {
            EventView::Connected => (
                SessionView::SearchOpening { query, top_k },
                ActionView::OpenTable { name },
            ),
            EventView::Failed { cause, .. } => failed(
                ErrorKind::Connection,
                "Failed to connect: "@ + cause,
            ),
            _ => unexpected(),
        },
        SessionView::SearchOpening { query, top_k } => match e {
            EventView::Opened => (
                SessionView::SearchMeasuring { query, top_k },
                ActionView::ReadSchema,
            ),
            EventView::Failed { not_found, cause } => failed(
                missing_or_io(not_found),
                "Table not found: "@ + cause,
            ),
            _ => unexpected(),
        },
        SessionView::SearchMeasuring { query, top_k } => match e {
            EventView::Layout(columns) => match layout_width(columns) {
                None => failed(ErrorKind::Schema, "Table does not have the chunk layout"@),
                Some(width) => if query.len() != width {
                    failed(ErrorKind::Query, width_message(query.len(), width as nat))
                } else {
                    (SessionView::SearchStarting, ActionView::Nearest { query, limit: top_k })
                },
            },
            EventView::Failed { cause, .. } => failed(
                ErrorKind::Io,
                "Failed to read table schema: "@ + cause,
            ),
            _ => unexpected(),
        },
        SessionView::SearchStarting => match e {
            EventView::Started => (
                SessionView::SearchCollecting { hits: Seq::empty() },
                ActionView::NextBatch,
            ),
            EventView::Rejected { cause } => failed(ErrorKind::Query, "Query failed: "@ + cause),
            EventView::Failed { cause, .. } => failed(ErrorKind::Query, "Search failed: "@ + cause),
            _ => unexpected(),
        },
        SessionView::SearchCollecting { hits } => match e {
            EventView::Batch(batch) => match rows_of(batch) {
                Ok(rows) => (
                    SessionView::SearchCollecting { hits: hits + rows },
                    ActionView::NextBatch,
                ),
                Err(error) => ended(Err(error)),
            },
            EventView::EndOfResults => ended(Ok(ReplyView::Found(hits))),
            EventView::Failed { cause, .. } => failed(ErrorKind::Query, "Batch error: "@ + cause),
            _ => unexpected(),
        },
        SessionView::HasConnecting { name } => match e {
            EventView::Connected => (SessionView::HasListing { name }, ActionView::ListTables),
            EventView::Failed { cause, .. } => failed(
                ErrorKind::Connection,
                "Failed to connect: "@ + cause,
            ),
            _ => unexpected(),
        },
        SessionView::HasListing { name } => match e {
            EventView::Tables(names) => ended(Ok(ReplyView::Has(names.contains(name)))),
            EventView::Failed { cause, .. } => failed(
                ErrorKind::Io,
                "Failed to list tables: "@ + cause,
            ),
            _ => unexpected(),
        },
        SessionView::DeleteConnecting { name } => match e {
            EventView::Connected => (
                SessionView::DeleteDropping { name },
                ActionView::DropTable { name },
            ),
            EventView::Failed { cause, .. } => failed(
                ErrorKind::Connection,
                "Failed to connect: "@ + cause,
            ),
            _ => unexpected(),
        },
        SessionView::DeleteDropping { name } => match e {
            EventView::Dropped => ended(Ok(ReplyView::Deleted("Deleted table: "@ + name))),
            EventView::Failed { not_found, cause } => failed(
                missing_or_io(not_found),
                "Failed to delete table: "@ + cause,
            ),
            _ => unexpected(),
        },
        SessionView::ClearConnecting => match e {
            EventView::Connected => (SessionView::ClearListing, ActionView::ListTables),
            EventView::Failed { cause, .. } => failed(
                ErrorKind::Connection,
                "Failed to connect: "@ + cause,
            ),
            _ => unexpected(),
        },
        SessionView::ClearListing => match e {
            EventView::Tables(names) => clear_from(names, 0),
            EventView::Failed { cause, .. } => failed(
                ErrorKind::Io,
                "Failed to list tables: "@ + cause,
            ),
            _ => unexpected(),
        },
        SessionView::ClearDropping { names, next } => match e {
            EventView::Dropped => clear_from(names, next + 1),
            EventView::Failed { not_found, cause } => failed(
                missing_or_io(not_found),
                "Failed to delete table "@ + names[next] + ": "@ + cause,
            ),
            _ => unexpected(),
        },
        SessionView::CountConnecting { name } => match e {
            EventView::Connected => (SessionView::CountOpening, ActionView::OpenTable { name }),
            EventView::Failed { cause, .. } => failed(
                ErrorKind::Connection,
                "Failed to connect: "@ + cause,
            ),
            _ => unexpected(),
        },
        SessionView::CountOpening => match e {
            EventView::Opened => (SessionView::CountCounting, ActionView::CountRows),
            EventView::Failed { not_found, cause } => failed(
                missing_or_io(not_found),
                "Table not found: "@ + cause,
            ),
            _ => unexpected(),
        },
        SessionView::CountCounting => match e {
            EventView::Counted(rows) => ended(Ok(ReplyView::Count(wrapped_count(rows)))),
            EventView::Failed { cause, .. } => failed(
                ErrorKind::Io,
                "Failed to count rows: "@ + cause,
            ),
            _ => unexpected(),
        },
        SessionView::Finished => unexpected(),
    }
}

/// Whether a batch that is handed to the backend has the shape that the
/// backend needs: the vector column holds `dimension` components per row.
pub open spec fn action_well_formed(action: Action) -> bool {
    match action {
        Action::CreateTable { batch, .. } => batch.well_formed(),
        _ => true,
    }
}

/// Narrows a row count to a signed 64-bit number, wrapping above its range.
pub fn row_count(rows: usize) -> (r: i64)
    ensures
        r == wrapped_count(rows),
{
    let wide: u64 = rows as u64;
    if wide <= 0x7fff_ffff_ffff_ffff {
        wide as i64
    } else {
        let low: u64 = wide - 0x8000_0000_0000_0000;
        (low as i64) + i64::MIN
    }
}

/// Whether `name` is among `names`.
pub fn contains_name(names: &Vec<String>, name: &str) -> (r: bool)
    ensures
        r == text_views(names@).contains(name@),
{
    let mut i: usize = 0;
    while i < names.len()
        invariant
            0 <= i <= names.len(),
            forall|k: int| 0 <= k < i ==> text_views(names@)[k] != name@,
        decreases names.len() - i,
    {
        if str_eq(names[i].as_str(), name) {
            assert(text_views(names@)[i as int] == name@);
            return true;
        }
        i += 1;
    }
    false
}

impl Session {
    #[verifier::type_invariant]
    spec fn inv(self) -> bool {
        match self.stage {
            Stage::AddDropping { batch, .. } => batch.well_formed(),
            Stage::ClearDropping { names, next } => next < names.len(),
            _ => true,
        }
    }

    fn end(outcome: Result<Reply, StoreError>) -> (r: (Session, Action))
        ensures
            (r.0@, r.1@) == ended(crate::protocol::outcome_view(outcome)),
            action_well_formed(r.1),
    {
        (Session { stage: Stage::Finished }, Action::Done(outcome))
    }

    fn fail(kind: ErrorKind, message: String) -> (r: (Session, Action))
        ensures
            (r.0@, r.1@) == failed(kind, message@),
            action_well_formed(r.1),
    {
        Session::end(Err(StoreError { kind, message }))
    }

    fn fail_with_cause(kind: ErrorKind, prefix: &str, cause: &String) -> (r: (Session, Action))
        ensures
            (r.0@, r.1@) == failed(kind, prefix@ + cause@),
            action_well_formed(r.1),
    {
        Session::fail(kind, concat(prefix, cause.as_str()))
    }

    fn fail_unexpected() -> (r: (Session, Action))
        ensures
            (r.0@, r.1@) == unexpected(),
            action_well_formed(r.1),
    {
        Session::fail(ErrorKind::Io, String::from_str("Unexpected answer from the store"))
    }

    fn kind_of(not_found: bool) -> (kind: ErrorKind)
        ensures
            kind == missing_or_io(not_found),
    {
        if not_found {
            ErrorKind::NotFound
        } else {
            ErrorKind::Io
        }
    }

    fn create(name: String, batch: ChunkBatch) -> (r: (Session, Action))
        requires
            batch.well_formed(),
        ensures
            (r.0@, r.1@) == create_from(name@, batch@),
            action_well_formed(r.1),
    {
        let rows = batch.num_rows();
        (
            Session { stage: Stage::AddCreating { name: name.clone(), rows } },
            Action::CreateTable { name, batch },
        )
    }

    fn clear(names: Vec<String>, next: usize) -> (r: (Session, Action))
        ensures
            (r.0@, r.1@) == clear_from(text_views(names@), next as int),
            action_well_formed(r.1),
    {
        if next < names.len() {
            let name = names[next].clone();
            (Session { stage: Stage::ClearDropping { names, next } }, Action::DropTable { name })
        } else {
            Session::end(Ok(Reply::Cleared(String::from_str("Cleared all tables"))))
        }
    }

    fn measure(query: Vec<u32>, top_k: usize, width: usize) -> (r: (Session, Action))
        ensures
            (r.0@, r.1@) == (if query@.len() != width {
                failed(ErrorKind::Query, width_message(query@.len(), width as nat))
            } else {
                (SessionView::SearchStarting, ActionView::Nearest { query: query@, limit: top_k })
            }),
            action_well_formed(r.1),
    {
        if query.len() != width {
            let mut message = String::from_str("Query vector has ");
            push_decimal(&mut message, query.len() as u64);
            message.append(" components, the table stores vectors of ");
            push_decimal(&mut message, width as u64);
            Session::fail(ErrorKind::Query, message)
        } else {
            (Session { stage: Stage::SearchStarting }, Action::Nearest { query, limit: top_k })
        }
    }

    fn collect(hits: Vec<VectorSearchResult>, rows: Vec<VectorSearchResult>) -> (r: (
        Session,
        Action,
    ))
        ensures
            (r.0@, r.1@) == (
                SessionView::SearchCollecting { hits: hit_views(hits@) + hit_views(rows@) },
                ActionView::NextBatch,
            ),
            action_well_formed(r.1),
    {
        let mut hits = hits;
        let mut rows = rows;
        let ghost before = hits@;
        let ghost added = rows@;
        hits.append(&mut rows);
        assert(hit_views(hits@) =~= hit_views(before) + hit_views(added));
        (Session { stage: Stage::SearchCollecting { hits } }, Action::NextBatch)
    }

    /// Takes the backend's answer to the action last handed out, and hands
    /// out the next one.  After `Done` every further answer is unexpected.
    pub fn advance(self, event: Event) -> (r: (Session, Action))
        ensures
            (r.0@, r.1@) == step(self@, event@),
            action_well_formed(r.1),
    {
        proof {
            use_type_invariant(&self);
        }
        match self.stage {
            Stage::Initializing { root } => match event {
                Event::Connected => Session::end(
                    Ok(Reply::Initialized(concat("LanceDB initialized at: ", root.as_str()))),
                ),
                Event::Failed { cause, .. } => {
                    let mut message = String::from_str("Failed to connect to LanceDB at ");
                    message.append(root.as_str());
                    message.append(": ");
                    message.append(cause.as_str());
                    Session::fail(ErrorKind::Connection, message)
                },
                _ => Session::fail_unexpected(),
            },
            Stage::AddConnecting { name, chunks } => match event {
                Event::Connected => match encode_batch(&chunks) {
                    Err(error) => {
                        let StoreError { kind, message } = error.to_store_error();
                        Session::fail(kind, message)
                    },
                    Ok(batch) => {
                        let target = name.clone();
                        (
                            Session { stage: Stage::AddDropping { name, batch } },
                            Action::DropTable { name: target },
                        )
                    },
                },
                Event::Failed { cause, .. } => Session::fail_with_cause(
                    ErrorKind::Connection,
                    "Failed to connect: ",
                    &cause,
                ),
                _ => Session::fail_unexpected(),
            },
            Stage::AddDropping { name, batch } => match event {
                Event::Dropped => Session::create(name, batch),
                Event::Failed { not_found, cause } => if not_found {
                    Session::create(name, batch)
                } else {
                    Session::fail_with_cause(ErrorKind::Io, "Failed to drop table: ", &cause)
                },
                _ => Session::fail_unexpected(),
            },
            Stage::AddCreating { name, rows } => match event {
                Event::Created => Session::end(Ok(Reply::Added { rows, table: name })),
                Event::Rejected { cause } => Session::fail_with_cause(
                    ErrorKind::Schema,
                    "Failed to create table: ",
                    &cause,
                ),
                Event::Failed { cause, .. } => Session::fail_with_cause(
                    ErrorKind::Io,
                    "Failed to create table: ",
                    &cause,
                ),
                _ => Session::fail_unexpected(),
            },
            Stage::SearchConnecting { name, query, top_k } => match event {
                Event::Connected => (
                    Session { stage: Stage::SearchOpening { query, top_k } },
                    Action::OpenTable { name },
                ),
                Event::Failed { cause, .. } => Session::fail_with_cause(
                    ErrorKind::Connection,
                    "Failed to connect: ",
                    &cause,
                ),
                _ => Session::fail_unexpected(),
            },
            Stage::SearchOpening { query, top_k } => match event {
                Event::Opened => (
                    Session { stage: Stage::SearchMeasuring { query, top_k } },
                    Action::ReadSchema,
                ),
                Event::Failed { not_found, cause } => Session::fail_with_cause(
                    Session::kind_of(not_found),
                    "Table not found: ",
                    &cause,
                ),
                _ => Session::fail_unexpected(),
            },
            Stage::SearchMeasuring { query, top_k } => match event {
                Event::Layout(columns) => match vector_width(&columns) {
                    None => Session::fail(
                        ErrorKind::Schema,
                        String::from_str("Table does not have the chunk layout"),
                    ),
                    Some(width) => Session::measure(query, top_k, width),
                },
                Event::Failed { cause, .. } => Session::fail_with_cause(
                    ErrorKind::Io,
                    "Failed to read table schema: ",
                    &cause,
                ),
                _ => Session::fail_unexpected(),
            },
            Stage::SearchStarting => match event {
                Event::Started => {
                    let hits: Vec<VectorSearchResult> = Vec::new();
                    assert(hit_views(hits@) =~= Seq::<HitView>::empty());
                    (Session { stage: Stage::SearchCollecting { hits } }, Action::NextBatch)
                },
                Event::Rejected { cause } => Session::fail_with_cause(
                    ErrorKind::Query,
                    "Query failed: ",
                    &cause,
                ),
                Event::Failed { cause, .. } => Session::fail_with_cause(
                    ErrorKind::Query,
                    "Search failed: ",
                    &cause,
                ),
                _ => Session::fail_unexpected(),
            },
            Stage::SearchCollecting { hits } => match event {
                Event::Batch(batch) => match extract_rows(&batch) {
                    Ok(rows) => Session::collect(hits, rows),
                    Err(error) => Session::end(Err(error)),
                },
                Event::EndOfResults => Session::end(Ok(Reply::Found(hits))),
                Event::Failed { cause, .. } => Session::fail_with_cause(
                    ErrorKind::Query,
                    "Batch error: ",
                    &cause,
                ),
                _ => Session::fail_unexpected(),
            },
            Stage::HasConnecting { name } => match event {
                Event::Connected => (
                    Session { stage: Stage::HasListing { name } },
                    Action::ListTables,
                ),
                Event::Failed { cause, .. } => Session::fail_with_cause(
                    ErrorKind::Connection,
                    "Failed to connect: ",
                    &cause,
                ),
                _ => Session::fail_unexpected(),
            },
            Stage::HasListing { name } => match event {
                Event::Tables(names) => Session::end(
                    Ok(Reply::Has(contains_name(&names, name.as_str()))),
                ),
                Event::Failed { cause, .. } => Session::fail_with_cause(
                    ErrorKind::Io,
                    "Failed to list tables: ",
                    &cause,
                ),
                _ => Session::fail_unexpected(),
            },
            Stage::DeleteConnecting { name } => match event {
                Event::Connected => {
                    let target = name.clone();
                    (
                        Session { stage: Stage::DeleteDropping { name } },
                        Action::DropTable { name: target },
                    )
                },
                Event::Failed { cause, .. } => Session::fail_with_cause(
                    ErrorKind::Connection,
                    "Failed to connect: ",
                    &cause,
                ),
                _ => Session::fail_unexpected(),
            },
            Stage::DeleteDropping { name } => match event {
                Event::Dropped => Session::end(
                    Ok(Reply::Deleted(concat("Deleted table: ", name.as_str()))),
                ),
                Event::Failed { not_found, cause } => Session::fail_with_cause(
                    Session::kind_of(not_found),
                    "Failed to delete table: ",
                    &cause,
                ),
                _ => Session::fail_unexpected(),
            },
            Stage::ClearConnecting => match event {
                Event::Connected => (Session { stage: Stage::ClearListing }, Action::ListTables),
                Event::Failed { cause, .. } => Session::fail_with_cause(
                    ErrorKind::Connection,
                    "Failed to connect: ",
                    &cause,
                ),
                _ => Session::fail_unexpected(),
            },
            Stage::ClearListing => match event {
                Event::Tables(names) => Session::clear(names, 0),
                Event::Failed { cause, .. } => Session::fail_with_cause(
                    ErrorKind::Io,
                    "Failed to list tables: ",
                    &cause,
                ),
                _ => Session::fail_unexpected(),
            },
            Stage::ClearDropping { names, next } => match event {
                Event::Dropped => Session::clear(names, next + 1),
                Event::Failed { not_found, cause } => {
                    let mut message = String::from_str("Failed to delete table ");
                    message.append(names[next].as_str());
                    message.append(": ");
                    message.append(cause.as_str());
                    assert(text_views(names@)[next as int] == names@[next as int]@);
                    Session::fail(Session::kind_of(not_found), message)
                },
                _ => Session::fail_unexpected(),
            },
            Stage::CountConnecting { name } => match event {
                Event::Connected => (
                    Session { stage: Stage::CountOpening },
                    Action::OpenTable { name },
                ),
                Event::Failed { cause, .. } => Session::fail_with_cause(
                    ErrorKind::Connection,
                    "Failed to connect: ",
                    &cause,
                ),
                _ => Session::fail_unexpected(),
            },
            Stage::CountOpening => match event {
                Event::Opened => (Session { stage: Stage::CountCounting }, Action::CountRows),
                Event::Failed { not_found, cause } => Session::fail_with_cause(
                    Session::kind_of(not_found),
                    "Table not found: ",
                    &cause,
                ),
                _ => Session::fail_unexpected(),
            },
            Stage::CountCounting => match event {
                Event::Counted(rows) => Session::end(Ok(Reply::Count(row_count(rows)))),
                Event::Failed { cause, .. } => Session::fail_with_cause(
                    ErrorKind::Io,
                    "Failed to count rows: ",
                    &cause,
                ),
                _ => Session::fail_unexpected(),
            },
            Stage::Finished => Session::fail_unexpected(),
        }
    }
}

/// The storage root that the store was last initialised with.
#[derive(Debug)]
pub struct VectorStoreState {
    pub db_path: Option<String>,
}

impl VectorStoreState {
    /// A state in which no storage root is known yet.
    pub fn new() -> (r: Self)
        ensures
            r.db_path is None,
    {
        VectorStoreState { db_path: None }
    }
}

/// The first state and action of every operation but `initialize`: connect
/// to the storage root, then go on from `first`.
fn connect_first(stage: Stage, storage_path: String) -> (r: (Session, Action))
    requires
        !(stage is AddDropping),
        !(stage is ClearDropping),
    ensures
        r.0.stage == stage,
        r.1@ == (ActionView::Connect { root: storage_path@ }),
        action_well_formed(r.1),
{
    (Session { stage }, Action::Connect { root: storage_path })
}

/// Starts the check that the storage root can be reached, and remembers the
/// root in `state`.
///
/// The operation connects, and ends in the confirmation
/// `LanceDB initialized at: ` and the root, or in a connection error that
/// names the root.
pub fn vector_store_initialize(storage_path: String, state: &mut VectorStoreState) -> (r: (
    Session,
    Action,
))
    ensures
        r.0@ == (SessionView::Initializing { root: storage_path@ }),
        r.1@ == (ActionView::Connect { root: storage_path@ }),
        final(state).db_path matches Some(path) && path@ == storage_path@,
{
    state.db_path = Some(storage_path.clone());
    connect_first(Stage::Initializing { root: storage_path.clone() }, storage_path)
}

/// Starts writing `chunks` as the table of document `document_id`, in place
/// of any table the document had.
///
/// The operation connects, encodes the chunks, drops the old table (that
/// there was none is no failure), creates the new one, and ends in the number
/// of rows written.  Chunks of differing vector width, and a batch that the
/// backend refuses as malformed, end it in a schema error.
pub fn vector_store_add_chunks(
    document_id: String,
    chunks: Vec<ChunkData>,
    storage_path: String,
) -> (r: (Session, Action))
    ensures
        r.0@ == (SessionView::AddConnecting {
            name: table_name_spec(document_id@),
            chunks: chunk_views(chunks@),
        }),
        r.1@ == (ActionView::Connect { root: storage_path@ }),
{
    let name = table_name(document_id.as_str());
    connect_first(Stage::AddConnecting { name, chunks }, storage_path)
}

/// Starts a search of document `document_id` for the `top_k` chunks nearest
/// to `query_embedding`.
///
/// The operation connects, opens the table, checks that the query vector has
/// the table's width, runs the search and ends in the rows found, in the
/// order in which the backend gave them.
pub fn vector_store_search(
    document_id: String,
    query_embedding: Vec<u32>,
    top_k: usize,
    storage_path: String,
) -> (r: (Session, Action))
    ensures
        r.0@ == (SessionView::SearchConnecting {
            name: table_name_spec(document_id@),
            query: query_embedding@,
            top_k,
        }),
        r.1@ == (ActionView::Connect { root: storage_path@ }),
{
    let name = table_name(document_id.as_str());
    connect_first(Stage::SearchConnecting { name, query: query_embedding, top_k }, storage_path)
}

/// Starts the check whether document `document_id` has a table.
///
/// The operation connects, lists the tables and ends in whether the
/// document's table name is among them.
pub fn vector_store_has_document(document_id: String, storage_path: String) -> (r: (
    Session,
    Action,
))
    ensures
        r.0@ == (SessionView::HasConnecting { name: table_name_spec(document_id@) }),
        r.1@ == (ActionView::Connect { root: storage_path@ }),
{
    let name = table_name(document_id.as_str());
    connect_first(Stage::HasConnecting { name }, storage_path)
}

/// Starts dropping the table of document `document_id`.
///
/// The operation connects, drops the table and ends in a confirmation that
/// names it; that there is no such table is a failure.
pub fn vector_store_delete_document(document_id: String, storage_path: String) -> (r: (
    Session,
    Action,
))
    ensures
        r.0@ == (SessionView::DeleteConnecting { name: table_name_spec(document_id@) }),
        r.1@ == (ActionView::Connect { root: storage_path@ }),
{
    let name = table_name(document_id.as_str());
    connect_first(Stage::DeleteConnecting { name }, storage_path)
}

/// Starts dropping every table under the storage root.
///
/// The operation connects, lists the tables and drops them in the order
/// listed; the first drop that fails ends it with an error naming the table.
pub fn vector_store_clear_all(storage_path: String) -> (r: (Session, Action))
    ensures
        r.0@ == SessionView::ClearConnecting,
        r.1@ == (ActionView::Connect { root: storage_path@ }),
{
    connect_first(Stage::ClearConnecting, storage_path)
}

/// Starts counting the rows of the table of document `document_id`.
///
/// The operation connects, opens the table, counts its rows and ends in the
/// count.
pub fn vector_store_get_count(document_id: String, storage_path: String) -> (r: (
    Session,
    Action,
))
    ensures
        r.0@ == (SessionView::CountConnecting { name: table_name_spec(document_id@) }),
        r.1@ == (ActionView::Connect { root: storage_path@ }),
{
    let name = table_name(document_id.as_str());
    connect_first(Stage::CountConnecting { name }, storage_path)
}

} // verus!
