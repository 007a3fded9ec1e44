//! Table names derived from document identifiers.

use vstd::prelude::*;
use crate::text::{alphanumeric, concat3, is_alphanumeric};

verus! {

/// The character that stands in a table name for `c`.
pub open spec fn sanitized_char(c: char) -> char {
    if alphanumeric(c) { c } else { '_' }
}

/// A document identifier with every non-alphanumeric character replaced by `_`.
pub open spec fn sanitized(id: Seq<char>) -> Seq<char> {
    Seq::new(id.len(), |i: int| sanitized_char(id[i]))
}

/// The name of the table that holds the chunks of document `id`.
pub open spec fn table_name_spec(id: Seq<char>) -> Seq<char> {
    seq!['d', 'o', 'c', '_'] + sanitized(id)
}

/// Whether two identifiers have the same length and differ only where
/// neither has an alphanumeric character.
pub open spec fn differ_in_punctuation_only(a: Seq<char>, b: Seq<char>) -> bool {
    &&& a.len() == b.len()
    &&& forall|i: int|
        0 <= i < a.len() ==> a[i] == b[i] || (!alphanumeric(#[trigger] a[i]) && !alphanumeric(
            b[i],
        ))
}

/// Identifiers that differ only in punctuation name the same table.
pub proof fn law_same_table_name(a: Seq<char>, b: Seq<char>)
    requires
        differ_in_punctuation_only(a, b),
    ensures
        table_name_spec(a) == table_name_spec(b),
{
    assert(sanitized(a) =~= sanitized(b));
}

/// Derives the table name of a document: `doc_` followed by the identifier
/// with every non-alphanumeric character replaced by `_`.
pub fn table_name(document_id: &str) -> (name: String)
    ensures
        name@ == table_name_spec(document_id@),
{
    let mut name = String::from_str("doc_");
    proof {
        reveal_strlit("doc_");
        assert(name@ =~= seq!['d', 'o', 'c', '_']);
    }
    for c in it: document_id.chars()
        invariant
            it.seq() == document_id@,
            name@ == seq!['d', 'o', 'c', '_'] + sanitized(document_id@.take(it.index() as int)),
    {
        let ghost before = name@;
        if is_alphanumeric(c) {
            name.push(c);
        } else {
            name.push('_');
        }
        proof {
            let k = it.index() as int;
            assert(sanitized(document_id@.take(k + 1)) =~= sanitized(document_id@.take(k)).push(
                sanitized_char(document_id@[k]),
            ));
        }
    }
    proof {
        assert(document_id@.take(document_id@.len() as int) =~= document_id@);
    }
    name
}

/// The name of the file through which the rows of a table pass on their way
/// into the store.
pub open spec fn temp_file_name_spec(table: Seq<char>) -> Seq<char> {
    "temp_"@ + table + ".arrow"@
}

/// Names the file through which the rows of table `table` pass on their way
/// into the store: `temp_`, the table's name, and `.arrow`.
pub fn temp_file_name(table: &str) -> (name: String)
    ensures
        name@ == temp_file_name_spec(table@),
{
    concat3("temp_", table, ".arrow")
}

} // verus!
