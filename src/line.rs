//! The plain form of a table line: each value padded to its column's width
//! by its number of characters, the line ended by a newline.
use vstd::prelude::*;

use crate::printer::{content, header_text, line_of, minus_or_zero, lemma_line_step, IoWriteTablePrinter};
use crate::table::{accepts, with_cell, RowBuilder, Table, TableColumn};
use crate::text::{push_char, push_repeated, push_text, spaces};

verus! {

/// A cell padded by character count.
pub open spec fn plain_cell(column: TableColumn, cells: Map<Seq<char>, Seq<char>>) -> Seq<char> {
    let value = content(cells, column.header@);
    "| "@ + value + spaces(minus_or_zero(column.spec_width(), value.len())) + seq![' ']
}

/// A line of cells padded by character count, closed by `|` and a newline.
pub open spec fn plain_line(columns: Seq<TableColumn>, cells: Map<Seq<char>, Seq<char>>) -> Seq<char> {
    line_of(columns, |c: TableColumn| plain_cell(c, cells)) + seq!['|', '\n']
}

fn push_plain_cell(out: &mut String, column: &TableColumn, row: &RowBuilder)
    requires
        row.wf(),
    ensures
        final(out)@ == old(out)@ + plain_cell(*column, row@),
{
    let ghost start = out@;
    push_text(out, "| ");
    let width = column.width();
    let len = match row.value_of(column.header.as_str()) {
        Some(value) => {
            push_text(out, value.as_str());
            value.as_str().unicode_len()
        },
        None => 0,
    };
    push_repeated(out, ' ', if width >= len { width - len } else { 0 });
    push_char(out, ' ');
    assert(out@ =~= start + plain_cell(*column, row@));
}

/// A row of a table, printed as a plain line.
pub struct TableLinePrinter<'a> {
    row: RowBuilder<'a>,
}

impl<'a> View for TableLinePrinter<'a> {
    type V = Map<Seq<char>, Seq<char>>;

    closed spec fn view(&self) -> Map<Seq<char>, Seq<char>> {
        self.row@
    }
}

impl<'a> TableLinePrinter<'a> {
    /// The table that the line belongs to.
    pub closed spec fn spec_table(&self) -> &'a Table {
        self.row.spec_table()
    }

    pub closed spec fn wf(&self) -> bool {
        self.row.wf()
    }

    /// An empty line of `table`.
    pub fn new(table: &'a Table) -> (r: Self)
        ensures
            r.wf(),
            r.spec_table() == table,
            r@ == Map::<Seq<char>, Seq<char>>::empty(),
    {
        TableLinePrinter { row: RowBuilder::new(table) }
    }

    /// Gives column `column` the value `value`, if the first column of that
    /// name exists and is enabled.
    pub fn column(self, column: &str, value: &str) -> (r: Self)
        requires
            self.wf(),
        ensures
            r.wf(),
            r.spec_table() == self.spec_table(),
            r@ == with_cell(self.spec_table().columns@, self@, column@, value@),
    {
        TableLinePrinter { row: self.row.column(column, value) }
    }

    /// Like `column`, with the value computed by `f`, which is called only if
    /// the value is kept.
    pub fn column_with<F: FnOnce() -> String>(self, column: &str, f: F) -> (r: Self)
        requires
            self.wf(),
            f.requires(()),
        ensures
            r.wf(),
            r.spec_table() == self.spec_table(),
            accepts(self.spec_table().columns@, column@) ==> exists|v: String|
                f.ensures((), v) && r@ == self@.insert(column@, v@),
            !accepts(self.spec_table().columns@, column@) ==> r@ == self@,
    {
        TableLinePrinter { row: self.row.column_with(column, f) }
    }

    /// The line: the values of the enabled columns, each padded by its
    /// number of characters, then `|` and a newline.
    pub fn print(self) -> (r: String)
        requires
            self.wf(),
        ensures
            r@ == plain_line(self.spec_table().columns@, self@),
    {
        let row = &self.row;
        let columns = &row.table().columns;
        let ghost cells = row@;
        let ghost cell = |c: TableColumn| plain_cell(c, cells);
        let mut out = String::new();
        let mut i: usize = 0;
        assert(columns@.subrange(0, 0) =~= Seq::<TableColumn>::empty());
        while i < columns.len()
            invariant
                i <= columns@.len(),
                row.wf(),
                cells == row@,
                out@ == line_of(columns@.subrange(0, i as int), cell),
                forall|c: TableColumn| #[trigger] cell(c) == plain_cell(c, cells),
            decreases columns@.len() - i,
        {
            proof {
                lemma_line_step(columns@, cell, i as int);
            }
            if columns[i].enabled {
                push_plain_cell(&mut out, &columns[i], row);
            }
            assert(out@ =~= line_of(columns@.subrange(0, i + 1), cell));
            i = i + 1;
        }
        assert(columns@.subrange(0, columns@.len() as int) =~= columns@);
        push_char(&mut out, '|');
        push_char(&mut out, '\n');
        assert(out@ =~= plain_line(columns@, cells));
        out
    }
}

impl Table {
    /// The text that starts a table: an empty line, the header line and the
    /// rule under it.
    pub fn print_headers(&self) -> (r: String)
        ensures
            r@ == seq!['\n'] + header_text(self.columns@),
    {
        let mut out = String::new();
        push_char(&mut out, '\n');
        let mut printer = IoWriteTablePrinter::new();
        let header = printer.begin_new_table(self);
        push_text(&mut out, header.as_str());
        out
    }
}

} // verus!
