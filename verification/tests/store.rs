use std::collections::BTreeMap;

use paper_index::batch::{ChunkBatch, ChunkData};
use paper_index::error::{ErrorKind, StoreError};
use paper_index::protocol::{Action, Event, Reply};
use paper_index::schema::{table_schema, Column, ColumnType};
use paper_index::search::{DistanceColumn, ResultBatch, VectorSearchResult};
use paper_index::store::{
    row_count, vector_store_add_chunks, vector_store_clear_all, vector_store_delete_document,
    vector_store_get_count, vector_store_has_document, vector_store_initialize,
    vector_store_search, Session, VectorStoreState,
};

/// A store kept in memory that answers as a healthy backend does.
struct MemoryStore {
    tables: BTreeMap<String, ChunkBatch>,
    open: Option<String>,
    pending: Vec<ResultBatch>,
    reachable: bool,
    batch_rows: usize,
    log: Vec<String>,
}

fn missing(name: &str) -> Event {
    Event::Failed { not_found: true, cause: format!("Table '{}' was not found", name) }
}

impl MemoryStore {
    fn new() -> Self {
        MemoryStore {
            tables: BTreeMap::new(),
            open: None,
            pending: Vec::new(),
            reachable: true,
            batch_rows: 2,
            log: Vec::new(),
        }
    }

    fn nearest(&self, table: &ChunkBatch, query: &[u32], limit: usize) -> Vec<ResultBatch> {
        let d = table.dimension;
        let mut rows: Vec<(f32, usize)> = (0..table.ids.len())
            .map(|i| {
                let sum: f32 = (0..d)
                    .map(|j| {
                        let x = f32::from_bits(table.vectors[i * d + j]) - f32::from_bits(query[j]);
                        x * x
                    })
                    .sum();
                (sum.sqrt(), i)
            })
            .collect();
        rows.sort_by(|a, b| a.0.partial_cmp(&b.0).unwrap());
        rows.truncate(limit);
        rows.chunks(self.batch_rows)
            .map(|part| ResultBatch {
                ids: Some(part.iter().map(|(_, i)| table.ids[*i].clone()).collect()),
                texts: Some(part.iter().map(|(_, i)| table.texts[*i].clone()).collect()),
                distances: DistanceColumn::Values(part.iter().map(|(x, _)| x.to_bits()).collect()),
            })
            .collect()
    }

    fn answer(&mut self, action: Action) -> Event {
        match action {
            Action::Connect { root } => {
                self.log.push(format!("connect {}", root));
                if self.reachable {
                    Event::Connected
                } else {
                    Event::Failed { not_found: false, cause: "no such directory".to_string() }
                }
            }
            Action::DropTable { name } => {
                self.log.push(format!("drop {}", name));
                match self.tables.remove(&name) {
                    Some(_) => Event::Dropped,
                    None => missing(&name),
                }
            }
            Action::CreateTable { name, batch } => {
                self.log.push(format!("create {}", name));
                if self.tables.contains_key(&name) {
                    Event::Failed { not_found: false, cause: "table exists".to_string() }
                } else {
                    self.tables.insert(name, batch);
                    Event::Created
                }
            }
            Action::ListTables => Event::Tables(self.tables.keys().cloned().collect()),
            Action::OpenTable { name } => {
                if self.tables.contains_key(&name) {
                    self.open = Some(name);
                    Event::Opened
                } else {
                    missing(&name)
                }
            }
            Action::ReadSchema => {
                let table = &self.tables[self.open.as_ref().unwrap()];
                Event::Layout(table_schema(table.dimension))
            }
            Action::CountRows => {
                Event::Counted(self.tables[self.open.as_ref().unwrap()].ids.len())
            }
            Action::Nearest { query, limit } => {
                let table = &self.tables[self.open.as_ref().unwrap()];
                let mut batches = self.nearest(table, &query, limit);
                batches.reverse();
                self.pending = batches;
                Event::Started
            }
            Action::NextBatch => match self.pending.pop() {
                Some(batch) => Event::Batch(batch),
                None => Event::EndOfResults,
            },
            Action::Done(_) => unreachable!(),
        }
    }

    fn run(&mut self, start: (Session, Action)) -> Result<Reply, StoreError> {
        let (mut session, mut action) = start;
        loop {
            if let Action::Done(outcome) = action {
                return outcome;
            }
            let event = self.answer(action);
            let next = session.advance(event);
            session = next.0;
            action = next.1;
        }
    }
}

fn bits(values: &[f32]) -> Vec<u32> {
    values.iter().map(|x| x.to_bits()).collect()
}

fn chunk(id: &str, text: &str, vector: &[f32], index: i32) -> ChunkData {
    ChunkData {
        id: id.to_string(),
        text: text.to_string(),
        vector: bits(vector),
        chunk_index: index,
        text_length: text.len() as i32,
    }
}

fn three_chunks() -> Vec<ChunkData> {
    vec![
        chunk("a", "first", &[1.0, 0.0, 0.0, 0.0], 0),
        chunk("b", "second", &[0.0, 1.0, 0.0, 0.0], 1),
        chunk("c", "third", &[0.0, 0.0, 1.0, 0.0], 2),
    ]
}

fn root() -> String {
    "/data/store".to_string()
}

fn add(store: &mut MemoryStore, id: &str, chunks: Vec<ChunkData>) -> Result<Reply, StoreError> {
    store.run(vector_store_add_chunks(id.to_string(), chunks, root()))
}

fn count(store: &mut MemoryStore, id: &str) -> Result<Reply, StoreError> {
    store.run(vector_store_get_count(id.to_string(), root()))
}

fn has(store: &mut MemoryStore, id: &str) -> Result<Reply, StoreError> {
    store.run(vector_store_has_document(id.to_string(), root()))
}

fn search(
    store: &mut MemoryStore,
    id: &str,
    query: &[f32],
    top_k: usize,
) -> Result<Reply, StoreError> {
    store.run(vector_store_search(id.to_string(), bits(query), top_k, root()))
}

fn found(reply: Result<Reply, StoreError>) -> Vec<VectorSearchResult> {
    match reply {
        Ok(Reply::Found(hits)) => hits,
        other => panic!("not a search result: {:?}", other),
    }
}

fn failure(reply: Result<Reply, StoreError>) -> StoreError {
    match reply {
        Err(error) => error,
        Ok(reply) => panic!("not a failure: {:?}", reply),
    }
}

#[test]
fn initialize_confirms_the_root_and_remembers_it() {
    let mut store = MemoryStore::new();
    let mut state = VectorStoreState::new();
    assert!(state.db_path.is_none());
    let reply = store.run(vector_store_initialize(root(), &mut state));
    assert_eq!(state.db_path, Some(root()));
    match reply {
        Ok(Reply::Initialized(text)) => assert_eq!(text, "LanceDB initialized at: /data/store"),
        other => panic!("{:?}", other),
    }
    assert_eq!(store.log, vec!["connect /data/store"]);
}

#[test]
fn initialize_reports_an_unreachable_root() {
    let mut store = MemoryStore::new();
    store.reachable = false;
    let mut state = VectorStoreState::new();
    let error = failure(store.run(vector_store_initialize(root(), &mut state)));
    assert_eq!(error.kind, ErrorKind::Connection);
    assert_eq!(error.message, "Failed to connect to LanceDB at /data/store: no such directory");
    assert_eq!(
        error.to_message(),
        "Failed to connect to LanceDB at /data/store: no such directory"
    );
}

#[test]
fn every_operation_reports_an_unreachable_root() {
    let mut store = MemoryStore::new();
    store.reachable = false;
    let replies = vec![
        add(&mut store, "doc1", three_chunks()),
        search(&mut store, "doc1", &[1.0, 0.0, 0.0, 0.0], 2),
        has(&mut store, "doc1"),
        store.run(vector_store_delete_document("doc1".to_string(), root())),
        store.run(vector_store_clear_all(root())),
        count(&mut store, "doc1"),
    ];
    for reply in replies {
        let error = failure(reply);
        assert_eq!(error.kind, ErrorKind::Connection);
        assert_eq!(error.message, "Failed to connect: no such directory");
    }
}

#[test]
fn round_trip_count_and_search() {
    let mut store = MemoryStore::new();
    match add(&mut store, "doc1", three_chunks()) {
        Ok(Reply::Added { rows, table }) => {
            assert_eq!(rows, 3);
            assert_eq!(table, "doc_doc1");
        }
        other => panic!("{:?}", other),
    }
    assert!(matches!(count(&mut store, "doc1"), Ok(Reply::Count(3))));
    assert!(matches!(has(&mut store, "doc1"), Ok(Reply::Has(true))));
    let hits = found(search(&mut store, "doc1", &[0.0, 1.0, 0.0, 0.0], 10));
    assert_eq!(hits.len(), 3);
    for hit in &hits {
        assert!(["a", "b", "c"].contains(&hit.id.as_str()));
    }
    assert_eq!(hits[0].id, "b");
    assert_eq!(hits[0].text, "second");
    assert_eq!(f32::from_bits(hits[0].distance), 0.0);
}

#[test]
fn write_drops_before_it_creates() {
    let mut store = MemoryStore::new();
    add(&mut store, "doc1", three_chunks()).unwrap();
    assert_eq!(store.log, vec!["connect /data/store", "drop doc_doc1", "create doc_doc1"]);
    let table = &store.tables["doc_doc1"];
    assert_eq!(table.dimension, 4);
    assert_eq!(table.ids, vec!["a", "b", "c"]);
    assert_eq!(table.vectors.len(), 12);
}

#[test]
fn two_nearest_of_three_unit_vectors() {
    let mut store = MemoryStore::new();
    add(&mut store, "doc1", three_chunks()).unwrap();
    let hits = found(search(&mut store, "doc1", &[1.0, 0.0, 0.0, 0.0], 2));
    assert_eq!(hits.len(), 2);
    assert_eq!(hits[0].id, "a");
    assert_eq!(f32::from_bits(hits[0].distance), 0.0);
    assert!(hits[1].id == "b" || hits[1].id == "c");
    let distance = f32::from_bits(hits[1].distance);
    assert!((distance - 2.0f32.sqrt()).abs() < 1e-6);
    let score = 1.0 / (1.0 + distance);
    assert!((score - 0.41421357).abs() < 1e-6);
}

#[test]
fn search_keeps_the_order_of_the_batches() {
    let mut store = MemoryStore::new();
    store.batch_rows = 1;
    add(&mut store, "doc1", three_chunks()).unwrap();
    let hits = found(search(&mut store, "doc1", &[0.9, 0.3, 0.0, 0.0], 3));
    let ids: Vec<&str> = hits.iter().map(|h| h.id.as_str()).collect();
    assert_eq!(ids, vec!["a", "b", "c"]);
    let distances: Vec<f32> = hits.iter().map(|h| f32::from_bits(h.distance)).collect();
    assert!(distances[0] < distances[1] && distances[1] < distances[2]);
    assert!(hits[0].distance < hits[1].distance && hits[1].distance < hits[2].distance);
}

#[test]
fn top_k_above_the_row_count_returns_all_rows() {
    let mut store = MemoryStore::new();
    add(&mut store, "doc1", three_chunks()).unwrap();
    assert_eq!(found(search(&mut store, "doc1", &[1.0, 0.0, 0.0, 0.0], 100)).len(), 3);
    assert_eq!(found(search(&mut store, "doc1", &[1.0, 0.0, 0.0, 0.0], 0)).len(), 0);
}

#[test]
fn empty_table_is_created_and_searched() {
    let mut store = MemoryStore::new();
    match add(&mut store, "empty", Vec::new()) {
        Ok(Reply::Added { rows, table }) => {
            assert_eq!(rows, 0);
            assert_eq!(table, "doc_empty");
        }
        other => panic!("{:?}", other),
    }
    assert_eq!(store.tables["doc_empty"].dimension, 384);
    assert!(matches!(count(&mut store, "empty"), Ok(Reply::Count(0))));
    let query = vec![0.0f32; 384];
    assert!(found(search(&mut store, "empty", &query, 5)).is_empty());
}

#[test]
fn second_write_replaces_the_first() {
    let mut store = MemoryStore::new();
    add(&mut store, "doc1", three_chunks()).unwrap();
    let second = vec![chunk("x", "only", &[0.5, 0.5], 0)];
    add(&mut store, "doc1", second).unwrap();
    assert!(matches!(count(&mut store, "doc1"), Ok(Reply::Count(1))));
    let hits = found(search(&mut store, "doc1", &[0.5, 0.5], 10));
    assert_eq!(hits.len(), 1);
    assert_eq!(hits[0].id, "x");
    assert_eq!(store.tables.len(), 1);
}

#[test]
fn ids_that_differ_in_punctuation_share_a_table() {
    let mut store = MemoryStore::new();
    add(&mut store, "doc-1", three_chunks()).unwrap();
    add(&mut store, "doc_1", vec![chunk("x", "only", &[0.5, 0.5], 0)]).unwrap();
    assert_eq!(store.tables.len(), 1);
    assert!(matches!(count(&mut store, "doc-1"), Ok(Reply::Count(1))));
    assert!(matches!(has(&mut store, "doc.1"), Ok(Reply::Has(true))));
}

#[test]
fn unknown_document_is_not_found() {
    let mut store = MemoryStore::new();
    add(&mut store, "other", three_chunks()).unwrap();
    let error = failure(search(&mut store, "ghost", &[1.0, 0.0, 0.0, 0.0], 2));
    assert_eq!(error.kind, ErrorKind::NotFound);
    assert_eq!(error.message, "Table not found: Table 'doc_ghost' was not found");
    let error = failure(count(&mut store, "ghost"));
    assert_eq!(error.kind, ErrorKind::NotFound);
    assert_eq!(error.message, "Table not found: Table 'doc_ghost' was not found");
    let error = failure(store.run(vector_store_delete_document("ghost".to_string(), root())));
    assert_eq!(error.kind, ErrorKind::NotFound);
    assert_eq!(error.message, "Failed to delete table: Table 'doc_ghost' was not found");
    assert!(matches!(has(&mut store, "ghost"), Ok(Reply::Has(false))));
    assert_eq!(store.tables.len(), 1);
}

#[test]
fn delete_drops_the_table_and_names_it() {
    let mut store = MemoryStore::new();
    add(&mut store, "doc1", three_chunks()).unwrap();
    match store.run(vector_store_delete_document("doc1".to_string(), root())) {
        Ok(Reply::Deleted(text)) => assert_eq!(text, "Deleted table: doc_doc1"),
        other => panic!("{:?}", other),
    }
    assert!(matches!(has(&mut store, "doc1"), Ok(Reply::Has(false))));
}

#[test]
fn clear_all_leaves_no_document() {
    let mut store = MemoryStore::new();
    for id in ["one", "two", "three"] {
        add(&mut store, id, three_chunks()).unwrap();
    }
    match store.run(vector_store_clear_all(root())) {
        Ok(Reply::Cleared(text)) => assert_eq!(text, "Cleared all tables"),
        other => panic!("{:?}", other),
    }
    for id in ["one", "two", "three"] {
        assert!(matches!(has(&mut store, id), Ok(Reply::Has(false))));
    }
    assert!(store.tables.is_empty());
    assert!(matches!(store.run(vector_store_clear_all(root())), Ok(Reply::Cleared(_))));
}

#[test]
fn clear_all_stops_at_the_first_failed_drop() {
    let (session, action) = vector_store_clear_all(root());
    assert!(matches!(action, Action::Connect { .. }));
    let (session, action) = session.advance(Event::Connected);
    assert!(matches!(action, Action::ListTables));
    let names = vec!["doc_a".to_string(), "doc_b".to_string(), "doc_c".to_string()];
    let (session, action) = session.advance(Event::Tables(names));
    assert!(matches!(action, Action::DropTable { ref name } if name == "doc_a"));
    let (session, action) = session.advance(Event::Dropped);
    assert!(matches!(action, Action::DropTable { ref name } if name == "doc_b"));
    let (session, action) =
        session.advance(Event::Failed { not_found: false, cause: "disk full".to_string() });
    match action {
        Action::Done(Err(error)) => {
            assert_eq!(error.kind, ErrorKind::Io);
            assert_eq!(error.message, "Failed to delete table doc_b: disk full");
        }
        other => panic!("{:?}", other),
    }
    let (_, action) = session.advance(Event::Dropped);
    match action {
        Action::Done(Err(error)) => {
            assert_eq!(error.kind, ErrorKind::Io);
            assert_eq!(error.message, "Unexpected answer from the store");
        }
        other => panic!("{:?}", other),
    }
}

#[test]
fn mixed_vector_widths_are_a_schema_error_and_nothing_is_dropped() {
    let mut store = MemoryStore::new();
    add(&mut store, "doc1", three_chunks()).unwrap();
    let mut chunks = three_chunks();
    chunks[2].vector.pop();
    let error = failure(add(&mut store, "doc1", chunks));
    assert_eq!(error.kind, ErrorKind::Schema);
    assert_eq!(error.message, "Chunk at position 2 has a vector of 3 components, expected 4");
    assert!(matches!(count(&mut store, "doc1"), Ok(Reply::Count(3))));
}

#[test]
fn write_fails_when_the_old_table_cannot_be_dropped() {
    let (session, _) = vector_store_add_chunks("doc1".to_string(), three_chunks(), root());
    let (session, action) = session.advance(Event::Connected);
    assert!(matches!(action, Action::DropTable { ref name } if name == "doc_doc1"));
    let (_, action) =
        session.advance(Event::Failed { not_found: false, cause: "locked".to_string() });
    match action {
        Action::Done(Err(error)) => {
            assert_eq!(error.kind, ErrorKind::Io);
            assert_eq!(error.message, "Failed to drop table: locked");
        }
        other => panic!("{:?}", other),
    }
}

#[test]
fn write_reports_a_failed_create() {
    let (session, _) = vector_store_add_chunks("doc1".to_string(), three_chunks(), root());
    let (session, _) = session.advance(Event::Connected);
    let (session, action) = session.advance(Event::Dropped);
    match action {
        Action::CreateTable { name, batch } => {
            assert_eq!(name, "doc_doc1");
            assert_eq!(batch.chunk_indices, vec![0, 1, 2]);
            assert_eq!(batch.text_lengths, vec![5, 6, 5]);
        }
        other => panic!("{:?}", other),
    }
    let (_, action) =
        session.advance(Event::Failed { not_found: false, cause: "disk full".to_string() });
    match action {
        Action::Done(Err(error)) => {
            assert_eq!(error.kind, ErrorKind::Io);
            assert_eq!(error.message, "Failed to create table: disk full");
        }
        other => panic!("{:?}", other),
    }
}

#[test]
fn a_batch_refused_as_malformed_is_a_schema_error() {
    let (session, _) = vector_store_add_chunks("doc1".to_string(), three_chunks(), root());
    let (session, _) = session.advance(Event::Connected);
    let (session, _) = session.advance(missing("doc_doc1"));
    let (_, action) = session.advance(Event::Rejected { cause: "layout differs".to_string() });
    match action {
        Action::Done(Err(error)) => {
            assert_eq!(error.kind, ErrorKind::Schema);
            assert_eq!(error.message, "Failed to create table: layout differs");
        }
        other => panic!("{:?}", other),
    }
}

#[test]
fn query_of_the_wrong_width_is_a_query_error() {
    let mut store = MemoryStore::new();
    add(&mut store, "doc1", three_chunks()).unwrap();
    let error = failure(search(&mut store, "doc1", &[1.0, 0.0], 2));
    assert_eq!(error.kind, ErrorKind::Query);
    assert_eq!(
        error.message,
        "Query vector has 2 components, the table stores vectors of 4"
    );
}

fn searching_session() -> Session {
    let (session, _) = vector_store_search("doc1".to_string(), bits(&[1.0, 0.0]), 3, root());
    let (session, action) = session.advance(Event::Connected);
    assert!(matches!(action, Action::OpenTable { ref name } if name == "doc_doc1"));
    let (session, action) = session.advance(Event::Opened);
    assert!(matches!(action, Action::ReadSchema));
    session
}

#[test]
fn search_of_a_foreign_table_is_a_schema_error() {
    let columns = vec![Column {
        name: "id".to_string(),
        data_type: ColumnType::Utf8,
        nullable: false,
    }];
    let (_, action) = searching_session().advance(Event::Layout(columns));
    match action {
        Action::Done(Err(error)) => {
            assert_eq!(error.kind, ErrorKind::Schema);
            assert_eq!(error.message, "Table does not have the chunk layout");
        }
        other => panic!("{:?}", other),
    }
}

#[test]
fn search_failures_name_the_step() {
    let (_, action) = searching_session()
        .advance(Event::Failed { not_found: false, cause: "gone".to_string() });
    match action {
        Action::Done(Err(error)) => {
            assert_eq!(error.kind, ErrorKind::Io);
            assert_eq!(error.message, "Failed to read table schema: gone");
        }
        other => panic!("{:?}", other),
    }

    let (session, action) = searching_session().advance(Event::Layout(table_schema(2)));
    match action {
        Action::Nearest { query, limit } => {
            assert_eq!(query, bits(&[1.0, 0.0]));
            assert_eq!(limit, 3);
        }
        other => panic!("{:?}", other),
    }
    let (_, action) = session.advance(Event::Rejected { cause: "not a vector".to_string() });
    match action {
        Action::Done(Err(error)) => {
            assert_eq!(error.kind, ErrorKind::Query);
            assert_eq!(error.message, "Query failed: not a vector");
        }
        other => panic!("{:?}", other),
    }

    let (session, _) = searching_session().advance(Event::Layout(table_schema(2)));
    let (_, action) =
        session.advance(Event::Failed { not_found: false, cause: "index broken".to_string() });
    match action {
        Action::Done(Err(error)) => {
            assert_eq!(error.kind, ErrorKind::Query);
            assert_eq!(error.message, "Search failed: index broken");
        }
        other => panic!("{:?}", other),
    }

    let (session, _) = searching_session().advance(Event::Layout(table_schema(2)));
    let (session, action) = session.advance(Event::Started);
    assert!(matches!(action, Action::NextBatch));
    let (_, action) =
        session.advance(Event::Failed { not_found: false, cause: "read error".to_string() });
    match action {
        Action::Done(Err(error)) => {
            assert_eq!(error.kind, ErrorKind::Query);
            assert_eq!(error.message, "Batch error: read error");
        }
        other => panic!("{:?}", other),
    }
}

#[test]
fn search_stops_at_a_batch_it_cannot_read() {
    let (session, _) = searching_session().advance(Event::Layout(table_schema(2)));
    let (session, _) = session.advance(Event::Started);
    let good = ResultBatch {
        ids: Some(vec!["a".to_string()]),
        texts: Some(vec!["first".to_string()]),
        distances: DistanceColumn::Values(vec![0]),
    };
    let (session, action) = session.advance(Event::Batch(good));
    assert!(matches!(action, Action::NextBatch));
    let bad = ResultBatch {
        ids: Some(vec!["b".to_string()]),
        texts: Some(vec!["second".to_string()]),
        distances: DistanceColumn::Missing,
    };
    let (_, action) = session.advance(Event::Batch(bad));
    match action {
        Action::Done(Err(error)) => {
            assert_eq!(error.kind, ErrorKind::Query);
            assert_eq!(error.message, "No distance column");
        }
        other => panic!("{:?}", other),
    }
}

#[test]
fn list_and_count_failures_are_io_errors() {
    let (session, _) = vector_store_has_document("doc1".to_string(), root());
    let (session, _) = session.advance(Event::Connected);
    let (_, action) =
        session.advance(Event::Failed { not_found: false, cause: "denied".to_string() });
    match action {
        Action::Done(Err(error)) => {
            assert_eq!(error.kind, ErrorKind::Io);
            assert_eq!(error.message, "Failed to list tables: denied");
        }
        other => panic!("{:?}", other),
    }

    let (session, _) = vector_store_clear_all(root());
    let (session, _) = session.advance(Event::Connected);
    let (_, action) =
        session.advance(Event::Failed { not_found: false, cause: "denied".to_string() });
    match action {
        Action::Done(Err(error)) => assert_eq!(error.message, "Failed to list tables: denied"),
        other => panic!("{:?}", other),
    }

    let (session, _) = vector_store_get_count("doc1".to_string(), root());
    let (session, _) = session.advance(Event::Connected);
    let (session, action) = session.advance(Event::Opened);
    assert!(matches!(action, Action::CountRows));
    let (_, action) =
        session.advance(Event::Failed { not_found: false, cause: "denied".to_string() });
    match action {
        Action::Done(Err(error)) => {
            assert_eq!(error.kind, ErrorKind::Io);
            assert_eq!(error.message, "Failed to count rows: denied");
        }
        other => panic!("{:?}", other),
    }
}

#[test]
fn an_answer_out_of_turn_ends_the_operation() {
    let (session, _) = vector_store_get_count("doc1".to_string(), root());
    let (_, action) = session.advance(Event::Tables(Vec::new()));
    match action {
        Action::Done(Err(error)) => {
            assert_eq!(error.kind, ErrorKind::Io);
            assert_eq!(error.message, "Unexpected answer from the store");
        }
        other => panic!("{:?}", other),
    }
}

#[test]
fn row_count_narrows_and_wraps() {
    assert_eq!(row_count(0), 0);
    assert_eq!(row_count(3), 3);
    assert_eq!(row_count(usize::MAX), usize::MAX as i64);
}
