//! Listing the labels of the account.
use vstd::prelude::*;

use crate::gmail::model::Label;
use crate::number::decimal;
use crate::table::{drawn_table, framed, TableArrangement};
use crate::text::{opt_view, views};

verus! {

/// Arguments of the command that lists labels (it takes none).
#[derive(Debug, Clone)]
pub struct GmailLabelListCommand;

/// The labels as a table.
#[derive(Debug, Clone)]
pub struct LabelsTable {
    /// The `comfy_table` preset.
    pub preset: String,
    /// How the table fits the terminal.
    pub arrangement: TableArrangement,
    /// The labels listed.
    pub labels: Vec<Label>,
}

/// A count as shown, empty when unknown.
pub open spec fn count_text(n: Option<u64>) -> Seq<char> {
    match n {
        Some(k) => decimal(k as nat),
        None => Seq::empty(),
    }
}

/// The cells of a label: id, name, type, unread and total message counts.
pub open spec fn label_cells(l: Label) -> Seq<Seq<char>> {
    seq![
        l.id@,
        l.name@,
        match opt_view(l.label_type) {
            Some(t) => t,
            None => Seq::empty(),
        },
        count_text(l.messages_unread),
        count_text(l.messages_total),
    ]
}

/// The header of the table.
pub open spec fn labels_header() -> Seq<Seq<char>> {
    seq!["ID"@, "NAME"@, "TYPE"@, "UNREAD"@, "TOTAL"@]
}

/// The rows of the table, one per label.
pub open spec fn labels_rows(labels: Seq<Label>) -> Seq<Seq<Seq<char>>> {
    labels.map_values(|l: Label| label_cells(l))
}

fn count_cell(n: Option<u64>) -> (r: String)
    ensures
        r@ == count_text(n),
{
    match n {
        Some(k) => crate::number::u64_to_string(k),
        None => String::new(),
    }
}

fn literal(s: &str) -> (r: String)
    ensures
        r@ == s@,
{
    crate::text::string_of(s)
}

impl LabelsTable {
    /// The header of the table.
    pub fn header() -> (r: Vec<String>)
        ensures
            views(r@) == seq!["ID"@, "NAME"@, "TYPE"@, "UNREAD"@, "TOTAL"@],
    {
        let r = vec![literal("ID"), literal("NAME"), literal("TYPE"), literal("UNREAD"), literal("TOTAL")];
        assert(views(r@) =~= seq!["ID"@, "NAME"@, "TYPE"@, "UNREAD"@, "TOTAL"@]);
        r
    }

    /// The rows of the table, one per label.
    pub fn rows(&self) -> (r: Vec<Vec<String>>)
        ensures
            crate::table::rows_views(r@) == self.labels@.map_values(|l: Label| label_cells(l)),
    {
        let mut rows: Vec<Vec<String>> = Vec::new();
        let mut i: usize = 0;
        while i < self.labels.len()
            invariant
                i <= self.labels@.len(),
                crate::table::rows_views(rows@) == self.labels@.take(i as int).map_values(
                    |l: Label| label_cells(l),
                ),
            decreases self.labels.len() - i,
        {
            let l = &self.labels[i];
            let kind = match &l.label_type {
                Some(t) => t.clone(),
                None => String::new(),
            };
            let row = vec![
                l.id.clone(),
                l.name.clone(),
                kind,
                count_cell(l.messages_unread),
                count_cell(l.messages_total),
            ];
            assert(views(row@) =~= label_cells(*l));
            let ghost before = rows@;
            rows.push(row);
            assert(crate::table::rows_views(rows@) =~= crate::table::rows_views(before).push(
                views(row@),
            ));
            assert(self.labels@.take(i + 1).map_values(|l: Label| label_cells(l)) =~= self.labels@.take(
                i as int,
            ).map_values(|l: Label| label_cells(l)).push(label_cells(self.labels@[i as int])));
            assert(crate::table::rows_views(rows@) =~= self.labels@.take(i + 1).map_values(
                |l: Label| label_cells(l),
            ));
            i = i + 1;
        }
        assert(self.labels@.take(self.labels.len() as int) == self.labels@);
        rows
    }

    /// The labels as printed: a blank line, then the table.
    pub fn render(&self) -> (r: String)
        ensures
            exists|width: Option<u16>|
                r@ == framed(
                    #[trigger] drawn_table(
                        self.preset@,
                        self.arrangement,
                        labels_header(),
                        labels_rows(self.labels@),
                        1,
                        width,
                    ),
                ),
            self.arrangement is Disabled ==> r@ == framed(
                drawn_table(
                    self.preset@,
                    self.arrangement,
                    labels_header(),
                    labels_rows(self.labels@),
                    1,
                    None,
                ),
            ),
    {
        let header = Self::header();
        let rows = self.rows();
        let table = crate::table::render_table(
            self.preset.as_str(),
            &self.arrangement,
            header.as_slice(),
            rows.as_slice(),
            1,
        );
        let ghost width = choose|width: Option<u16>|
            table@ == drawn_table(
                self.preset@,
                self.arrangement,
                labels_header(),
                labels_rows(self.labels@),
                1,
                width,
            );
        let r = crate::table::frame(table);
        assert(r@ == framed(
            drawn_table(self.preset@, self.arrangement, labels_header(), labels_rows(self.labels@), 1, width),
        ));
        r
    }
}

} // verus!
