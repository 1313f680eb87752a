//! Text tables, drawn by `comfy_table`.
use vstd::prelude::*;

use crate::text::views;

verus! {

/// How a table fits its content to the terminal.
#[derive(Debug, Clone, Copy, PartialEq, Eq)]
pub enum TableArrangement {
    /// Columns take the width of their content.
    Disabled,
    /// Columns are fitted to the terminal width.
    Dynamic,
    /// Like `Dynamic`, using the full terminal width.
    DynamicFullWidth,
}

/// The character sequences of the cells of some rows.
pub open spec fn rows_views(rows: Seq<Vec<String>>) -> Seq<Seq<Seq<char>>> {
    rows.map_values(|r: Vec<String>| views(r@))
}

/// The text that `comfy_table` draws for a table with the preset `preset`,
/// the content arrangement `arrangement`, the header `header` and the rows
/// `rows`, each row cut to `max_row_height` lines, when the table width that
/// `comfy_table` finds (the terminal width, or none when it cannot tell) is
/// `width`.
pub uninterp spec fn drawn_table(
    preset: Seq<char>,
    arrangement: TableArrangement,
    header: Seq<Seq<char>>,
    rows: Seq<Seq<Seq<char>>>,
    max_row_height: usize,
    width: Option<u16>,
) -> Seq<char>;

/// Calls `comfy_table`: a `Table` with `load_preset(preset)`, the content
/// arrangement, the header, and each row with `max_height(max_row_height)`,
/// drawn with `to_string`. The text is `drawn_table` at the width that
/// `comfy_table` reads once from the terminal while drawing; without
/// arrangement the width is not used, and the text is the one drawn without
/// width. A row height of zero makes `comfy_table` fail when it cuts a cell,
/// so it is left out.
#[verifier::external_body]
pub(crate) fn render_table(
    preset: &str,
    arrangement: &TableArrangement,
    header: &[String],
    rows: &[Vec<String>],
    max_row_height: usize,
) -> (r: String)
    requires
        max_row_height >= 1,
    ensures
        exists|width: Option<u16>|
            r@ == #[trigger] drawn_table(
                preset@,
                *arrangement,
                views(header@),
                rows_views(rows@),
                max_row_height,
                width,
            ),
        *arrangement is Disabled ==> r@ == drawn_table(
            preset@,
            *arrangement,
            views(header@),
            rows_views(rows@),
            max_row_height,
            None,
        ),
{
    let mut table = comfy_table::Table::new();
    table.load_preset(preset).set_content_arrangement(match arrangement {
        TableArrangement::Disabled => comfy_table::ContentArrangement::Disabled,
        TableArrangement::Dynamic => comfy_table::ContentArrangement::Dynamic,
        TableArrangement::DynamicFullWidth => comfy_table::ContentArrangement::DynamicFullWidth,
    }).set_header(header);
    for cells in rows {
        let mut row = comfy_table::Row::from(cells);
        row.max_height(max_row_height);
        table.add_row(row);
    }
    table.to_string()
}

/// A drawn table as the views print it: a blank line, the table, a newline.
pub open spec fn framed(table: Seq<char>) -> Seq<char> {
    seq!['\n'] + table + seq!['\n']
}

/// `"\n" + table + "\n"`.
pub fn frame(table: String) -> (r: String)
    ensures
        r@ == framed(table@),
{
    let mut r = String::new();
    r.push('\n');
    r.append(table.as_str());
    r.push('\n');
    r
}

} // verus!
