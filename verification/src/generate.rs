//! Writing a value out as a table of a document.

use vstd::prelude::*;

verus! {

/// What is appended to a document of `length` bytes to add the table whose
/// text is `table`: the table itself, after a line break where the document
/// is not empty.
pub open spec fn appended(length: u64, table: Seq<char>) -> Seq<char> {
    if length > 0 {
        "\n"@ + table
    } else {
        table
    }
}

/// The text to append to a document of `length` bytes so that it gains the
/// table whose text is `table`.
pub fn add_as_table(length: u64, table: &str) -> (text: String)
    ensures
        text@ == appended(length, table@),
{
    if length > 0 {
        let mut text = "\n".to_owned();
        text.append(table);
        text
    } else {
        table.to_owned()
    }
}

} // verus!
