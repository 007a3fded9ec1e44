//! What passes between a store operation and the code that talks to the
//! storage backend: the actions an operation asks for, the backend's answers,
//! and the replies an operation ends with.

use vstd::prelude::*;
use crate::batch::{BatchView, ChunkBatch};
use crate::error::{StoreError, StoreErrorView};
use crate::schema::{column_views, Column, ColumnView};
use crate::search::{hit_views, HitView, ResultBatch, ResultBatchView, VectorSearchResult};
use crate::text::text_views;

verus! {

/// What a finished operation hands to its caller.
#[derive(Debug, Clone)]
pub enum Reply {
    /// The storage root is reachable; the text confirms it.
    Initialized(String),
    /// A table was written: the number of rows and the table's name.
    Added { rows: usize, table: String },
    /// The rows found by a search, nearest first.
    Found(Vec<VectorSearchResult>),
    /// Whether the document has a table.
    Has(bool),
    /// A table was dropped; the text names it.
    Deleted(String),
    /// Every table was dropped.
    Cleared(String),
    /// The number of rows of a table.
    Count(i64),
}

/// A reply as a mathematical value.
pub ghost enum ReplyView {
    Initialized(Seq<char>),
    Added { rows: usize, table: Seq<char> },
    Found(Seq<HitView>),
    Has(bool),
    Deleted(Seq<char>),
    Cleared(Seq<char>),
    Count(i64),
}

impl View for Reply {
    type V = ReplyView;

    open spec fn view(&self) -> ReplyView {
        match self {
            Reply::Initialized(text) => ReplyView::Initialized(text@),
            Reply::Added { rows, table } => ReplyView::Added { rows: *rows, table: table@ },
            Reply::Found(hits) => ReplyView::Found(hit_views(hits@)),
            Reply::Has(present) => ReplyView::Has(*present),
            Reply::Deleted(text) => ReplyView::Deleted(text@),
            Reply::Cleared(text) => ReplyView::Cleared(text@),
            Reply::Count(rows) => ReplyView::Count(*rows),
        }
    }
}

/// How an operation ended.
pub open spec fn outcome_view(outcome: Result<Reply, StoreError>) -> Result<
    ReplyView,
    StoreErrorView,
> {
    match outcome {
        Ok(reply) => Ok(reply@),
        Err(error) => Err(error@),
    }
}

/// The next thing to do for an operation: a request to the storage backend,
/// or `Done` with the operation's outcome.
#[derive(Debug)]
pub enum Action {
    /// Open the storage root.
    Connect { root: String },
    /// Drop the table of this name.
    DropTable { name: String },
    /// Create a table of this name from the batch.
    CreateTable { name: String, batch: ChunkBatch },
    /// List the names of all tables.
    ListTables,
    /// Open the table of this name.
    OpenTable { name: String },
    /// Read the column layout of the open table.
    ReadSchema,
    /// Count the rows of the open table.
    CountRows,
    /// Start a search of the open table for the `limit` rows nearest to
    /// `query` by Euclidean distance, nearest first.
    Nearest { query: Vec<u32>, limit: usize },
    /// Fetch the next batch of results of the search.
    NextBatch,
    /// Nothing more: the operation has ended.
    Done(Result<Reply, StoreError>),
}

/// An action as a mathematical value.
pub ghost enum ActionView {
    Connect { root: Seq<char> },
    DropTable { name: Seq<char> },
    CreateTable { name: Seq<char>, batch: BatchView },
    ListTables,
    OpenTable { name: Seq<char> },
    ReadSchema,
    CountRows,
    Nearest { query: Seq<u32>, limit: usize },
    NextBatch,
    Done(Result<ReplyView, StoreErrorView>),
}

impl View for Action {
    type V = ActionView;

    open spec fn view(&self) -> ActionView {
        match self {
            Action::Connect { root } => ActionView::Connect { root: root@ },
            Action::DropTable { name } => ActionView::DropTable { name: name@ },
            Action::CreateTable { name, batch } => ActionView::CreateTable {
                name: name@,
                batch: batch@,
            },
            Action::ListTables => ActionView::ListTables,
            Action::OpenTable { name } => ActionView::OpenTable { name: name@ },
            Action::ReadSchema => ActionView::ReadSchema,
            Action::CountRows => ActionView::CountRows,
            Action::Nearest { query, limit } => ActionView::Nearest {
                query: query@,
                limit: *limit,
            },
            Action::NextBatch => ActionView::NextBatch,
            Action::Done(outcome) => ActionView::Done(outcome_view(*outcome)),
        }
    }
}

/// The backend's answer to an action.
#[derive(Debug, Clone)]
pub enum Event {
    /// The storage root is open.
    Connected,
    /// The table was dropped.
    Dropped,
    /// The table was created.
    Created,
    /// The names of all tables.
    Tables(Vec<String>),
    /// The table is open.
    Opened,
    /// The columns of the open table.
    Layout(Vec<Column>),
    /// The number of rows of the open table.
    Counted(usize),
    /// The search is running.
    Started,
    /// One more batch of results.
    Batch(ResultBatch),
    /// The search has no more results.
    EndOfResults,
    /// The backend refused what it was given as malformed: the query vector
    /// of a search, or the batch of a table to create, whose layout as read
    /// back is then not the layout written.
    Rejected { cause: String },
    /// The action failed; `not_found` tells whether it did because the table
    /// it names does not exist.
    Failed { not_found: bool, cause: String },
}

/// An event as a mathematical value.
pub ghost enum EventView {
    Connected,
    Dropped,
    Created,
    Tables(Seq<Seq<char>>),
    Opened,
    Layout(Seq<ColumnView>),
    Counted(usize),
    Started,
    Batch(ResultBatchView),
    EndOfResults,
    Rejected { cause: Seq<char> },
    Failed { not_found: bool, cause: Seq<char> },
}

impl View for Event {
    type V = EventView;

    open spec fn view(&self) -> EventView {
        match self {
            Event::Connected => EventView::Connected,
            Event::Dropped => EventView::Dropped,
            Event::Created => EventView::Created,
            Event::Tables(names) => EventView::Tables(text_views(names@)),
            Event::Opened => EventView::Opened,
            Event::Layout(columns) => EventView::Layout(column_views(columns@)),
            Event::Counted(rows) => EventView::Counted(*rows),
            Event::Started => EventView::Started,
            Event::Batch(batch) => EventView::Batch(batch@),
            Event::EndOfResults => EventView::EndOfResults,
            Event::Rejected { cause } => EventView::Rejected { cause: cause@ },
            Event::Failed { not_found, cause } => EventView::Failed {
                not_found: *not_found,
                cause: cause@,
            },
        }
    }
}

} // verus!
