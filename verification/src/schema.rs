//! The column layout shared by every document table.

use vstd::prelude::*;
use crate::batch::MAX_DIMENSION;
use crate::text::str_eq;

verus! {

/// The type of the values in a column.
#[derive(Debug, Clone, Copy, PartialEq, Eq, Structural)]
pub enum ColumnType {
    /// Text.
    Utf8,
    /// Signed 32-bit integers.
    Int32,
    /// Lists of exactly `width` 32-bit floats.
    FloatVector { width: usize },
    /// Any other type.
    Other,
}

/// One column of a table: its name, its type, and whether it admits nulls.
#[derive(Debug, Clone)]
pub struct Column {
    pub name: String,
    pub data_type: ColumnType,
    pub nullable: bool,
}

/// A column as a mathematical value.
pub ghost struct ColumnView {
    pub name: Seq<char>,
    pub data_type: ColumnType,
    pub nullable: bool,
}

impl View for Column {
    type V = ColumnView;

    open spec fn view(&self) -> ColumnView {
        ColumnView { name: self.name@, data_type: self.data_type, nullable: self.nullable }
    }
}

/// The columns of a list, in order.
pub open spec fn column_views(columns: Seq<Column>) -> Seq<ColumnView> {
    Seq::new(columns.len(), |i: int| columns[i]@)
}

/// A column that is required in every row.
pub open spec fn required(name: Seq<char>, data_type: ColumnType) -> ColumnView {
    ColumnView { name, data_type, nullable: false }
}

/// The layout of a document table whose vectors have `dimension` components:
/// five required columns in fixed order.
pub open spec fn table_layout(dimension: int) -> Seq<ColumnView> {
    seq![
        required("id"@, ColumnType::Utf8),
        required("text"@, ColumnType::Utf8),
        required("vector"@, ColumnType::FloatVector { width: dimension as usize }),
        required("chunk_index"@, ColumnType::Int32),
        required("text_length"@, ColumnType::Int32),
    ]
}

fn required_column(name: &str, data_type: ColumnType) -> (c: Column)
    ensures
        c@ == required(name@, data_type),
{
    Column { name: String::from_str(name), data_type, nullable: false }
}

/// Builds the layout of a document table for vectors of `dimension` components.
pub fn table_schema(dimension: usize) -> (columns: Vec<Column>)
    requires
        0 < dimension <= MAX_DIMENSION,
    ensures
        column_views(columns@) == table_layout(dimension as int),
{
    let mut columns: Vec<Column> = Vec::new();
    columns.push(required_column("id", ColumnType::Utf8));
    columns.push(required_column("text", ColumnType::Utf8));
    columns.push(required_column("vector", ColumnType::FloatVector { width: dimension }));
    columns.push(required_column("chunk_index", ColumnType::Int32));
    columns.push(required_column("text_length", ColumnType::Int32));
    assert(column_views(columns@) =~= table_layout(dimension as int));
    columns
}

/// The vector width of a table with the given columns, if they are the
/// layout of a document table.
pub open spec fn layout_width(columns: Seq<ColumnView>) -> Option<int> {
    if columns.len() == 5 && columns[2].data_type is FloatVector {
        let width = columns[2].data_type->width as int;
        if 0 < width <= MAX_DIMENSION && columns == table_layout(width) {
            Some(width)
        } else {
            None
        }
    } else {
        None
    }
}

/// No other width gives the same layout.
pub proof fn lemma_layout_width(dimension: int)
    requires
        0 < dimension <= MAX_DIMENSION,
    ensures
        layout_width(table_layout(dimension)) == Some(dimension),
{
    assert(table_layout(dimension)[2].data_type == ColumnType::FloatVector {
        width: dimension as usize,
    });
}

/// Whether `column` is the required column `name` of type `data_type`.
fn is_required(column: &Column, name: &str, data_type: ColumnType) -> (r: bool)
    ensures
        r == (column@ == required(name@, data_type)),
{
    str_eq(column.name.as_str(), name) && column.data_type == data_type && !column.nullable
}

/// The vector width of a table with the given columns, or `None` if the
/// columns are not the layout of a document table.
pub fn vector_width(columns: &Vec<Column>) -> (r: Option<usize>)
    ensures
        match r {
            Some(d) => layout_width(column_views(columns@)) == Some(d as int),
            None => layout_width(column_views(columns@)) is None,
        },
{
    let ghost views = column_views(columns@);
    if columns.len() != 5 {
        return None;
    }
    assert(forall|i: int| 0 <= i < 5 ==> views[i] == columns@[i]@);
    let width = match columns[2].data_type {
        ColumnType::FloatVector { width } => width,
        _ => {
            return None;
        },
    };
    if width == 0 || width > MAX_DIMENSION {
        return None;
    }
    let fits = is_required(&columns[0], "id", ColumnType::Utf8) && is_required(
        &columns[1],
        "text",
        ColumnType::Utf8,
    ) && is_required(&columns[2], "vector", ColumnType::FloatVector { width }) && is_required(
        &columns[3],
        "chunk_index",
        ColumnType::Int32,
    ) && is_required(&columns[4], "text_length", ColumnType::Int32);
    let ghost layout = table_layout(width as int);
    if fits {
        assert(views =~= layout);
        Some(width)
    } else {
        assert(views != layout) by {
            if views == layout {
                assert(views[0] == layout[0]);
                assert(views[1] == layout[1]);
                assert(views[2] == layout[2]);
                assert(views[3] == layout[3]);
                assert(views[4] == layout[4]);
            }
        }
        None
    }
}

/// Whether the columns are the layout of a document table whose vectors
/// have `dimension` components: what is read back of a table must be what
/// was written.
pub fn has_layout(columns: &Vec<Column>, dimension: usize) -> (r: bool)
    ensures
        r == (0 < dimension <= MAX_DIMENSION && column_views(columns@) == table_layout(
            dimension as int,
        )),
{
    match vector_width(columns) {
        Some(width) => {
            proof {
                if 0 < dimension <= MAX_DIMENSION {
                    lemma_layout_width(dimension as int);
                }
            }
            width == dimension
        },
        None => {
            proof {
                if 0 < dimension <= MAX_DIMENSION {
                    lemma_layout_width(dimension as int);
                }
            }
            false
        },
    }
}

} // verus!
