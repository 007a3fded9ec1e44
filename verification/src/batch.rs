//! Chunk records and their encoding as one columnar batch.
//!
//! A vector component is held as the bit pattern of a 32-bit float, so that
//! storing and comparing components is exact.

use vstd::prelude::*;
use crate::error::{ErrorKind, StoreError};
use crate::text::{decimal, push_decimal};

verus! {

/// The vector width of a table that is created without any chunk.
pub const DEFAULT_DIMENSION: usize = 384;

/// The widest vector a table can hold.
pub const MAX_DIMENSION: usize = 0x7fff_ffff;

/// One stored passage with its embedding vector.
#[derive(Debug, Clone)]
pub struct ChunkData {
    pub id: String,
    pub text: String,
    pub vector: Vec<u32>,
    pub chunk_index: i32,
    pub text_length: i32,
}

/// A chunk record as a mathematical value.
pub ghost struct ChunkView {
    pub id: Seq<char>,
    pub text: Seq<char>,
    pub vector: Seq<u32>,
    pub chunk_index: i32,
    pub text_length: i32,
}

impl View for ChunkData {
    type V = ChunkView;

    open spec fn view(&self) -> ChunkView {
        ChunkView {
            id: self.id@,
            text: self.text@,
            vector: self.vector@,
            chunk_index: self.chunk_index,
            text_length: self.text_length,
        }
    }
}

/// The records of a list of chunks, in order.
pub open spec fn chunk_views(chunks: Seq<ChunkData>) -> Seq<ChunkView> {
    Seq::new(chunks.len(), |i: int| chunks[i]@)
}

/// The vector width that a list of chunks asks of its table: that of the
/// first chunk, or the default if there is none.
pub open spec fn dimension_of(chunks: Seq<ChunkView>) -> int {
    if chunks.len() == 0 {
        DEFAULT_DIMENSION as int
    } else {
        chunks[0].vector.len() as int
    }
}

/// Why a list of chunks cannot become a batch.
#[derive(Debug, Clone, Copy, PartialEq, Eq, Structural)]
pub enum EncodeError {
    /// The first chunk has an empty vector.
    EmptyVector,
    /// The first chunk's vector is wider than a table can hold.
    TooWide { found: usize },
    /// The chunk at `index` has `found` components where the first has `expected`.
    Mismatch { index: usize, expected: usize, found: usize },
}

/// The position of the first chunk whose vector is not `d` wide, or the
/// number of chunks if there is none.
pub open spec fn first_mismatch(chunks: Seq<ChunkView>, d: int) -> int
    decreases chunks.len(),
{
    if chunks.len() == 0 || chunks[0].vector.len() != d {
        0
    } else {
        1 + first_mismatch(chunks.drop_first(), d)
    }
}

/// The reason for which a list of chunks cannot be encoded, if there is one.
/// The width is checked first, then the chunks in order, so that a mismatch
/// names the first chunk that differs.
pub open spec fn encode_check(chunks: Seq<ChunkView>) -> Option<EncodeError> {
    let d = dimension_of(chunks);
    let at = first_mismatch(chunks, d);
    if d == 0 {
        Some(EncodeError::EmptyVector)
    } else if d > MAX_DIMENSION {
        Some(EncodeError::TooWide { found: d as usize })
    } else if at < chunks.len() {
        Some(
            EncodeError::Mismatch {
                index: at as usize,
                expected: d as usize,
                found: chunks[at].vector.len() as usize,
            },
        )
    } else {
        None
    }
}

/// Whether a list of chunks can be encoded: a positive width within the
/// limit, shared by every chunk.
pub open spec fn encodable(chunks: Seq<ChunkView>) -> bool {
    encode_check(chunks) is None
}

/// `first_mismatch` is the least position at which the width differs.
pub proof fn lemma_first_mismatch(chunks: Seq<ChunkView>, d: int, k: int)
    requires
        0 <= k <= chunks.len(),
        forall|i: int| 0 <= i < k ==> (#[trigger] chunks[i]).vector.len() == d,
        k == chunks.len() || chunks[k].vector.len() != d,
    ensures
        first_mismatch(chunks, d) == k,
    decreases k,
{
    if k > 0 {
        let rest = chunks.drop_first();
        assert forall|i: int| 0 <= i < k - 1 implies (#[trigger] rest[i]).vector.len() == d by {
            assert(rest[i] == chunks[i + 1]);
        }
        lemma_first_mismatch(rest, d, k - 1);
    }
}

/// A table's worth of chunks, column by column.  The vectors lie end to end
/// in `vectors`, `dimension` components for each row.
#[derive(Debug, Clone)]
pub struct ChunkBatch {
    pub dimension: usize,
    pub ids: Vec<String>,
    pub texts: Vec<String>,
    pub vectors: Vec<u32>,
    pub chunk_indices: Vec<i32>,
    pub text_lengths: Vec<i32>,
}

/// A batch as a mathematical value: the vector width and the rows.
pub ghost struct BatchView {
    pub dimension: int,
    pub rows: Seq<ChunkView>,
}

impl ChunkBatch {
    /// Every column has one entry for each row, and the vector column has
    /// `dimension` components for each row.
    pub open spec fn well_formed(&self) -> bool {
        &&& 0 < self.dimension <= MAX_DIMENSION
        &&& self.texts.len() == self.ids.len()
        &&& self.chunk_indices.len() == self.ids.len()
        &&& self.text_lengths.len() == self.ids.len()
        &&& self.vectors.len() == self.ids.len() * self.dimension
    }

    /// The record in row `i`.
    pub open spec fn row(&self, i: int) -> ChunkView {
        ChunkView {
            id: self.ids[i]@,
            text: self.texts[i]@,
            vector: self.vectors@.subrange(i * self.dimension, (i + 1) * self.dimension),
            chunk_index: self.chunk_indices[i],
            text_length: self.text_lengths[i],
        }
    }

    /// The number of rows.
    pub fn num_rows(&self) -> (n: usize)
        ensures
            n == self@.rows.len(),
    {
        self.ids.len()
    }
}

impl View for ChunkBatch {
    type V = BatchView;

    open spec fn view(&self) -> BatchView {
        BatchView {
            dimension: self.dimension as int,
            rows: Seq::new(self.ids.len() as nat, |i: int| self.row(i)),
        }
    }
}

/// The batch that encoding makes of a list of chunks.
pub open spec fn batch_of(chunks: Seq<ChunkView>) -> BatchView {
    BatchView { dimension: dimension_of(chunks), rows: chunks }
}

/// Encodes chunks as one batch, in the order given.
///
/// The width of the vector column is that of the first chunk's vector, or
/// the default for an empty list.  The list is refused if that width is zero
/// or above the limit, or if a later chunk has another width; the error then
/// names the first such chunk.
pub fn encode_batch(chunks: &Vec<ChunkData>) -> (r: Result<ChunkBatch, EncodeError>)
    ensures
        match r {
            Ok(batch) => encode_check(chunk_views(chunks@)) is None && batch.well_formed()
                && batch@ == batch_of(chunk_views(chunks@)),
            Err(e) => encode_check(chunk_views(chunks@)) == Some(e),
        },
{
    let ghost views = chunk_views(chunks@);
    let dimension: usize = if chunks.len() == 0 {
        DEFAULT_DIMENSION
    } else {
        chunks[0].vector.len()
    };
    assert(dimension == dimension_of(views));
    if dimension == 0 {
        return Err(EncodeError::EmptyVector);
    }
    if dimension > MAX_DIMENSION {
        return Err(EncodeError::TooWide { found: dimension });
    }
    let mut batch = ChunkBatch {
        dimension,
        ids: Vec::new(),
        texts: Vec::new(),
        vectors: Vec::new(),
        chunk_indices: Vec::new(),
        text_lengths: Vec::new(),
    };
    let mut i: usize = 0;
    while i < chunks.len()
        invariant
            0 <= i <= chunks.len(),
            views == chunk_views(chunks@),
            dimension == dimension_of(views),
            0 < dimension <= MAX_DIMENSION,
            batch.dimension == dimension,
            batch.well_formed(),
            batch.ids.len() == i,
            forall|k: int| 0 <= k < i ==> (#[trigger] views[k]).vector.len() == dimension,
            forall|k: int| 0 <= k < i ==> batch.row(k) == #[trigger] views[k],
        decreases chunks.len() - i,
    {
        let chunk = &chunks[i];
        assert(views[i as int] == chunk@);
        let found = chunk.vector.len();
        if found != dimension {
            proof {
                lemma_first_mismatch(views, dimension as int, i as int);
            }
            return Err(EncodeError::Mismatch { index: i, expected: dimension, found });
        }
        let ghost before = batch;
        batch.ids.push(chunk.id.clone());
        batch.texts.push(chunk.text.clone());
        batch.chunk_indices.push(chunk.chunk_index);
        batch.text_lengths.push(chunk.text_length);
        let mut j: usize = 0;
        while j < dimension
            invariant
                0 <= j <= dimension,
                chunk.vector.len() == dimension,
                batch.dimension == dimension,
                batch.ids@ == before.ids@.push(chunk.id),
                batch.texts@ == before.texts@.push(chunk.text),
                batch.chunk_indices@ == before.chunk_indices@.push(chunk.chunk_index),
                batch.text_lengths@ == before.text_lengths@.push(chunk.text_length),
                batch.vectors@ == before.vectors@ + chunk.vector@.take(j as int),
            decreases dimension - j,
        {
            batch.vectors.push(chunk.vector[j]);
            assert(chunk.vector@.take(j + 1) =~= chunk.vector@.take(j as int).push(
                chunk.vector@[j as int],
            ));
            j += 1;
        }
        proof {
            let d = dimension as int;
            let n = i as int;
            assert(chunk.vector@.take(d) =~= chunk.vector@);
            assert((n + 1) * d == n * d + d) by (nonlinear_arith);
            assert(before.vectors@.len() == n * d);
            assert(batch.vectors@.subrange(n * d, (n + 1) * d) =~= chunk.vector@);
            assert(batch.row(n) == views[n]);
            assert forall|k: int| 0 <= k < n implies batch.row(k) == #[trigger] views[k] by {
                assert(before.row(k) == views[k]);
                assert(0 <= k * d && (k + 1) * d == k * d + d && (k + 1) * d <= n * d)
                    by (nonlinear_arith)
                    requires
                        0 <= k < n,
                        0 < d,
                ;
                assert(batch.vectors@.subrange(k * d, (k + 1) * d) =~= before.vectors@.subrange(
                    k * d,
                    (k + 1) * d,
                ));
            }
        }
        i += 1;
    }
    proof {
        lemma_first_mismatch(views, dimension as int, i as int);
        assert(batch@.rows =~= views);
    }
    Ok(batch)
}

/// The text of the schema error that an encoding failure is reported with.
pub open spec fn encode_message(e: EncodeError) -> Seq<char> {
    match e {
        EncodeError::EmptyVector => "Vectors must have at least one component"@,
        EncodeError::TooWide { found } => "Vector is too wide for a table: "@ + decimal(
            found as nat,
        ) + " components"@,
        EncodeError::Mismatch { index, expected, found } => "Chunk at position "@ + decimal(
            index as nat,
        ) + " has a vector of "@ + decimal(found as nat) + " components, expected "@ + decimal(
            expected as nat,
        ),
    }
}

impl EncodeError {
    /// Reports the failure as a schema error that names the chunk at fault.
    pub fn to_store_error(&self) -> (r: StoreError)
        ensures
            r.kind == ErrorKind::Schema,
            r.message@ == encode_message(*self),
    {
        let mut message = String::new();
        match *self {
            EncodeError::EmptyVector => {
                message.append("Vectors must have at least one component");
            },
            EncodeError::TooWide { found } => {
                message.append("Vector is too wide for a table: ");
                push_decimal(&mut message, found as u64);
                message.append(" components");
            },
            EncodeError::Mismatch { index, expected, found } => {
                message.append("Chunk at position ");
                push_decimal(&mut message, index as u64);
                message.append(" has a vector of ");
                push_decimal(&mut message, found as u64);
                message.append(" components, expected ");
                push_decimal(&mut message, expected as u64);
            },
        }
        assert(message@ =~= encode_message(*self));
        StoreError { kind: ErrorKind::Schema, message }
    }
}

} // verus!
