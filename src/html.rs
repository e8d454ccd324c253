//! The bookkeeping of a table shown as HTML: which cells a table row gets,
//! whether a row is appended or rewritten, and the markdown copy of the table
//! that is offered for the clipboard once the table is closed.
use vstd::prelude::*;

use crate::printer::{content, header_text, row_text, IoWriteTablePrinter};
use crate::table::{RowBuilder, Table, TableColumn};
use crate::text::push_text;

verus! {

/// The values of the enabled columns, in order: `None` where the row has no
/// value for the column.
pub open spec fn td_values(columns: Seq<TableColumn>, cells: Map<Seq<char>, Seq<char>>) -> Seq<
    Option<Seq<char>>,
>
    decreases columns.len(),
{
    if columns.len() == 0 {
        Seq::empty()
    } else {
        let c = columns.last();
        td_values(columns.drop_last(), cells) + if c.enabled {
            seq![
                if cells.contains_key(c.header@) {
                    Some(cells[c.header@])
                } else {
                    None
                },
            ]
        } else {
            Seq::empty()
        }
    }
}

/// The view of a list of optional texts.
pub open spec fn options_view(v: Seq<Option<String>>) -> Seq<Option<Seq<char>>> {
    v.map_values(|o: Option<String>|
        match o {
            Some(s) => Some(s@),
            None => None,
        })
}

/// The values for the data cells of `row`, one for each enabled column.
pub fn td_texts(row: &RowBuilder) -> (r: Vec<Option<String>>)
    requires
        row.wf(),
    ensures
        options_view(r@) == td_values(row.spec_table().columns@, row@),
{
    let columns = &row.table().columns;
    let mut r: Vec<Option<String>> = Vec::new();
    let mut i: usize = 0;
    assert(columns@.subrange(0, 0) =~= Seq::<TableColumn>::empty());
    while i < columns.len()
        invariant
            i <= columns@.len(),
            row.wf(),
            columns == &row.spec_table().columns,
            options_view(r@) == td_values(columns@.subrange(0, i as int), row@),
        decreases columns@.len() - i,
    {
        assert(columns@.subrange(0, i + 1).drop_last() =~= columns@.subrange(0, i as int));
        let ghost before = r@;
        if columns[i].enabled {
            match row.value_of(columns[i].header.as_str()) {
                Some(v) => r.push(Some(v.clone())),
                None => r.push(None),
            }
        }
        assert(options_view(r@) =~= td_values(columns@.subrange(0, i + 1), row@));
        i = i + 1;
    }
    assert(columns@.subrange(0, columns@.len() as int) =~= columns@);
    r
}

/// What to do with the rows of the HTML table for a row update.
pub enum RowUpdate {
    /// Append a new row with these cells.
    Append(Vec<Option<String>>),
    /// Replace the cells of the last row with these.
    Replace(Vec<Option<String>>),
    /// Leave the table as it is.
    Keep,
}

/// The state of an HTML table printer: whether the last row is being
/// rewritten, and the markdown text of the table so far.
pub struct HtmlTableState {
    pub updating: bool,
    pub markdown: String,
    pub ioprinter: IoWriteTablePrinter,
}

impl HtmlTableState {
    /// No row being rewritten, no markdown yet.
    pub fn new() -> (r: Self)
        ensures
            !r.updating,
            r.markdown@ == Seq::<char>::empty(),
    {
        HtmlTableState { updating: false, markdown: String::new(), ioprinter: IoWriteTablePrinter::new() }
    }

    /// Starts the markdown of a new table with its header, and returns the
    /// markdown of the table that it replaces.
    pub fn begin_new_table(&mut self, table: &Table) -> (r: String)
        ensures
            r@ == old(self).markdown@,
            final(self).markdown@ == header_text(table.columns@),
            final(self).updating == old(self).updating,
    {
        let header = self.ioprinter.begin_new_table(table);
        let previous = self.markdown.clone();
        self.markdown = header;
        previous
    }

    /// Records `row` as a new row; returns its cells.
    pub fn print_row(&mut self, row: RowBuilder<'_>) -> (r: Vec<Option<String>>)
        requires
            row.wf(),
        ensures
            options_view(r@) == td_values(row.spec_table().columns@, row@),
            final(self).markdown@ == old(self).markdown@ + row_text(row.spec_table().columns@, row@),
            !final(self).updating,
    {
        let cells = td_texts(&row);
        let line = self.ioprinter.print_row(row);
        push_text(&mut self.markdown, line.as_str());
        self.updating = false;
        cells
    }

    /// Records `row` as a rewrite of the current row. The first rewrite after
    /// a printed row appends a row; later ones replace the last row, if the
    /// table has one (`has_last_row`).
    pub fn update_row(&mut self, row: RowBuilder<'_>, has_last_row: bool) -> (r: RowUpdate)
        requires
            row.wf(),
        ensures
            final(self).updating,
            old(self).updating && !has_last_row ==> r is Keep && final(self).markdown@ == old(
                self,
            ).markdown@,
            old(self).updating && has_last_row ==> r is Replace && final(self).markdown@ == old(
                self,
            ).markdown@ + row_text(row.spec_table().columns@, row@),
            !old(self).updating ==> r is Append && final(self).markdown@ == old(self).markdown@
                + row_text(row.spec_table().columns@, row@),
            r matches RowUpdate::Append(c) ==> options_view(c@) == td_values(
                row.spec_table().columns@,
                row@,
            ),
            r matches RowUpdate::Replace(c) ==> options_view(c@) == td_values(
                row.spec_table().columns@,
                row@,
            ),
    {
        if self.updating {
            if has_last_row {
                let cells = td_texts(&row);
                let line = self.ioprinter.print_row(row);
                push_text(&mut self.markdown, line.as_str());
                RowUpdate::Replace(cells)
            } else {
                RowUpdate::Keep
            }
        } else {
            let cells = self.print_row(row);
            self.updating = true;
            RowUpdate::Append(cells)
        }
    }
}

/// The script of the button that copies a finished table's markdown.
pub open spec fn copy_script_text(markdown: Seq<char>) -> Seq<char> {
    "navigator.clipboard.writeText(`"@ + markdown + "`)"@
}

/// The script of the button that copies a finished table's markdown.
pub fn copy_script(markdown: &str) -> (r: String)
    ensures
        r@ == copy_script_text(markdown@),
{
    let mut r = String::new();
    push_text(&mut r, "navigator.clipboard.writeText(`");
    push_text(&mut r, markdown);
    push_text(&mut r, "`)");
    r
}

} // verus!
