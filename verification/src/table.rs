//! The table drawn by the `prettytable` crate.
//!
//! Nothing here is proved: the contract below is taken from the crate's
//! source.

use prettytable::format::consts::FORMAT_NO_BORDER_LINE_SEPARATOR;
use prettytable::{Row, Table};
use vstd::prelude::*;
use vstd::utf8::is_ascii_chars;

verus! {

/// The texts of a row of strings.
pub open spec fn texts(row: Seq<String>) -> Seq<Seq<char>> {
    Seq::new(row.len(), |i: int| row[i]@)
}

/// The texts of the rows of a grid of strings.
pub open spec fn grid(rows: Seq<Vec<String>>) -> Seq<Seq<Seq<char>>> {
    Seq::new(rows.len(), |i: int| texts(rows[i]@))
}

/// Every text of the row is made of ASCII characters alone.
pub open spec fn plain_row(row: Seq<Seq<char>>) -> bool {
    forall|i: int| 0 <= i < row.len() ==> is_ascii_chars(#[trigger] row[i])
}

/// Every text of the grid is made of ASCII characters alone.
pub open spec fn plain_grid(rows: Seq<Seq<Seq<char>>>) -> bool {
    forall|i: int| 0 <= i < rows.len() ==> plain_row(#[trigger] rows[i])
}

/// What `prettytable` draws for a table with the given titles and rows, all
/// cells plain and left-aligned, without border, with `|` between columns
/// and a line under the titles.
pub uninterp spec fn table_layout(titles: Seq<Seq<char>>, rows: Seq<Seq<Seq<char>>>) -> Seq<char>;

/// Makes a `prettytable::Table` of the rows with `Table::from`, which makes
/// each cell with `Cell::new`, gives it `FORMAT_NO_BORDER_LINE_SEPARATOR`
/// with `Table::set_format` and the titles with `Table::set_titles`, and
/// draws it with `to_string`, which writes into a string what `Table::print`
/// writes. The contract claims only that the drawing is determined by the
/// titles and the rows. `Cell::new` measures each line of a text and stops
/// the program where the line is narrower than the characters it counts as
/// hidden in escape sequences, which characters that join with their
/// neighbours can bring about: so every text must be ASCII, of which each
/// character in a line counts one.
#[verifier::external_body]
pub(crate) fn draw(titles: &Vec<String>, rows: &Vec<Vec<String>>) -> (text: String)
    requires
        plain_row(texts(titles@)),
        plain_grid(grid(rows@)),
    ensures
        text@ == table_layout(texts(titles@), grid(rows@)),
{
    let mut table = Table::from(rows);
    table.set_format(*FORMAT_NO_BORDER_LINE_SEPARATOR);
    table.set_titles(Row::from(titles));
    table.to_string()
}

} // verus!
