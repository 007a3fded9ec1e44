//! Reading search results out of the batches that a nearest-neighbour query
//! hands back.
//!
//! A distance is held as the bit pattern of a 32-bit float.

use vstd::prelude::*;
use crate::error::{ErrorKind, StoreError, StoreErrorView};
use crate::text::text_views;

verus! {

/// One row of a search result: the chunk found and its distance from the
/// query vector.
#[derive(Debug, Clone)]
pub struct VectorSearchResult {
    pub id: String,
    pub text: String,
    pub distance: u32,
}

/// A search result as a mathematical value.
pub ghost struct HitView {
    pub id: Seq<char>,
    pub text: Seq<char>,
    pub distance: u32,
}

impl View for VectorSearchResult {
    type V = HitView;

    open spec fn view(&self) -> HitView {
        HitView { id: self.id@, text: self.text@, distance: self.distance }
    }
}

/// The results of a list, in order.
pub open spec fn hit_views(hits: Seq<VectorSearchResult>) -> Seq<HitView> {
    Seq::new(hits.len(), |i: int| hits[i]@)
}

/// The distance column of a result batch, as far as it could be read.
#[derive(Debug, Clone)]
pub enum DistanceColumn {
    /// The batch has no column of distances.
    Missing,
    /// The column of distances does not hold 32-bit floats.
    Mistyped,
    /// The distance of each row.
    Values(Vec<u32>),
}

/// A distance column as a mathematical value.
pub ghost enum DistanceView {
    Missing,
    Mistyped,
    Values(Seq<u32>),
}

impl View for DistanceColumn {
    type V = DistanceView;

    open spec fn view(&self) -> DistanceView {
        match self {
            DistanceColumn::Missing => DistanceView::Missing,
            DistanceColumn::Mistyped => DistanceView::Mistyped,
            DistanceColumn::Values(v) => DistanceView::Values(v@),
        }
    }
}

/// The columns of one result batch that a search reads.  A text column that
/// does not hold strings is `None`.
#[derive(Debug, Clone)]
pub struct ResultBatch {
    pub ids: Option<Vec<String>>,
    pub texts: Option<Vec<String>>,
    pub distances: DistanceColumn,
}

/// A result batch as a mathematical value.
pub ghost struct ResultBatchView {
    pub ids: Option<Seq<Seq<char>>>,
    pub texts: Option<Seq<Seq<char>>>,
    pub distances: DistanceView,
}

/// The contents of a text column.
pub open spec fn column_view(column: Option<Vec<String>>) -> Option<Seq<Seq<char>>> {
    match column {
        Some(v) => Some(text_views(v@)),
        None => None,
    }
}

impl View for ResultBatch {
    type V = ResultBatchView;

    open spec fn view(&self) -> ResultBatchView {
        ResultBatchView {
            ids: column_view(self.ids),
            texts: column_view(self.texts),
            distances: self.distances@,
        }
    }
}

/// The query error with the given message.
pub open spec fn query_error(message: Seq<char>) -> StoreErrorView {
    StoreErrorView { kind: ErrorKind::Query, message }
}

/// The rows of a result batch, in the order of the batch; or the error for
/// the first column that cannot be read, taking the identifiers first, then
/// the texts, then the distances.
pub open spec fn rows_of(batch: ResultBatchView) -> Result<Seq<HitView>, StoreErrorView> {
    if batch.ids is None {
        Err(query_error("Failed to downcast id column"@))
    } else if batch.texts is None {
        Err(query_error("Failed to downcast text column"@))
    } else if batch.distances is Missing {
        Err(query_error("No distance column"@))
    } else if batch.distances is Mistyped {
        Err(query_error("Failed to downcast distance column"@))
    } else {
        let ids = batch.ids->0;
        let texts = batch.texts->0;
        let distances = batch.distances->Values_0;
        if texts.len() != ids.len() || distances.len() != ids.len() {
            Err(query_error("Result columns differ in length"@))
        } else {
            Ok(
                Seq::new(
                    ids.len(),
                    |i: int| HitView { id: ids[i], text: texts[i], distance: distances[i] },
                ),
            )
        }
    }
}

fn query_failure(message: &str) -> (e: StoreError)
    ensures
        e@ == query_error(message@),
{
    StoreError { kind: ErrorKind::Query, message: String::from_str(message) }
}

/// Reads the rows of a result batch, keeping their order.
pub fn extract_rows(batch: &ResultBatch) -> (r: Result<Vec<VectorSearchResult>, StoreError>)
    ensures
        match r {
            Ok(hits) => rows_of(batch@) == Ok::<Seq<HitView>, StoreErrorView>(hit_views(hits@)),
            Err(e) => rows_of(batch@) == Err::<Seq<HitView>, StoreErrorView>(e@),
        },
{
    let ids = match &batch.ids {
        Some(ids) => ids,
        None => {
            return Err(query_failure("Failed to downcast id column"));
        },
    };
    let texts = match &batch.texts {
        Some(texts) => texts,
        None => {
            return Err(query_failure("Failed to downcast text column"));
        },
    };
    let distances = match &batch.distances {
        DistanceColumn::Values(distances) => distances,
        DistanceColumn::Missing => {
            return Err(query_failure("No distance column"));
        },
        DistanceColumn::Mistyped => {
            return Err(query_failure("Failed to downcast distance column"));
        },
    };
    if texts.len() != ids.len() || distances.len() != ids.len() {
        return Err(query_failure("Result columns differ in length"));
    }
    let mut hits: Vec<VectorSearchResult> = Vec::new();
    let mut i: usize = 0;
    while i < ids.len()
        invariant
            0 <= i <= ids.len(),
            texts.len() == ids.len(),
            distances.len() == ids.len(),
            hits.len() == i,
            forall|k: int|
                0 <= k < i ==> (#[trigger] hits[k])@ == (HitView {
                    id: ids[k]@,
                    text: texts[k]@,
                    distance: distances[k],
                }),
        decreases ids.len() - i,
    {
        hits.push(
            VectorSearchResult {
                id: ids[i].clone(),
                text: texts[i].clone(),
                distance: distances[i],
            },
        );
        i += 1;
    }
    proof {
        assert(rows_of(batch@)->Ok_0 =~= hit_views(hits@));
    }
    Ok(hits)
}

} // verus!
