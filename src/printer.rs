//! The text of a table in markdown form: the header with its rule, and rows,
//! each cell padded to its column's width.
use vstd::prelude::*;

use crate::table::{RowBuilder, Table, TableColumn};
use crate::text::{display_width, display_width_of, push_char, push_repeated, push_text, repeated, spaces};

verus! {

/// `a - b`, or zero where `b` is larger.
pub open spec fn minus_or_zero(a: nat, b: nat) -> nat {
    if a >= b {
        (a - b) as nat
    } else {
        0
    }
}

/// The cells of the enabled columns, one after another.
pub open spec fn line_of(columns: Seq<TableColumn>, cell: spec_fn(TableColumn) -> Seq<char>) -> Seq<char>
    decreases columns.len(),
{
    if columns.len() == 0 {
        Seq::empty()
    } else {
        line_of(columns.drop_last(), cell) + if columns.last().enabled {
            cell(columns.last())
        } else {
            Seq::empty()
        }
    }
}

/// A header cell: the column's name, padded with spaces to the column's width.
pub open spec fn header_cell(column: TableColumn) -> Seq<char> {
    "| "@ + column.header@ + spaces(minus_or_zero(column.spec_width(), column.header@.len()))
        + seq![' ']
}

/// A cell of the rule under the header: as many dashes as the column is wide.
pub open spec fn rule_cell(column: TableColumn) -> Seq<char> {
    "| "@ + repeated('-', column.spec_width()) + seq![' ']
}

/// The value of a row for a column, empty where the row has none.
pub open spec fn content(cells: Map<Seq<char>, Seq<char>>, name: Seq<char>) -> Seq<char> {
    if cells.contains_key(name) {
        cells[name]
    } else {
        Seq::empty()
    }
}

/// A row cell: the value, padded with spaces to the column's width as the
/// value shows on a terminal.
pub open spec fn row_cell(column: TableColumn, cells: Map<Seq<char>, Seq<char>>) -> Seq<char> {
    let value = content(cells, column.header@);
    "| "@ + value + spaces(minus_or_zero(column.spec_width(), display_width_of(value))) + seq![' ']
}

/// The header line and the rule under it, each closed by `|` and a newline.
pub open spec fn header_text(columns: Seq<TableColumn>) -> Seq<char> {
    line_of(columns, |c: TableColumn| header_cell(c)) + seq!['|', '\n'] + line_of(
        columns,
        |c: TableColumn| rule_cell(c),
    ) + seq!['|', '\n']
}

/// A row line, closed by `|`, without a newline.
pub open spec fn row_text(columns: Seq<TableColumn>, cells: Map<Seq<char>, Seq<char>>) -> Seq<char> {
    line_of(columns, |c: TableColumn| row_cell(c, cells)) + seq!['|']
}

/// Extending a prefix of the columns by one adds that column's cell, if the
/// column is enabled.
pub proof fn lemma_line_step(
    columns: Seq<TableColumn>,
    cell: spec_fn(TableColumn) -> Seq<char>,
    i: int,
)
    requires
        0 <= i < columns.len(),
    ensures
        line_of(columns.subrange(0, i + 1), cell) == line_of(columns.subrange(0, i), cell) + if columns[i].enabled {
            cell(columns[i])
        } else {
            Seq::empty()
        },
{
    assert(columns.subrange(0, i + 1).drop_last() =~= columns.subrange(0, i));
}

fn push_header_cell(out: &mut String, column: &TableColumn)
    ensures
        final(out)@ == old(out)@ + header_cell(*column),
{
    let ghost start = out@;
    let width = column.width();
    let len = column.header.as_str().unicode_len();
    push_text(out, "| ");
    push_text(out, column.header.as_str());
    push_repeated(out, ' ', if width >= len { width - len } else { 0 });
    push_char(out, ' ');
    assert(out@ =~= start + header_cell(*column));
}

fn push_rule_cell(out: &mut String, column: &TableColumn)
    ensures
        final(out)@ == old(out)@ + rule_cell(*column),
{
    let ghost start = out@;
    push_text(out, "| ");
    push_repeated(out, '-', column.width());
    push_char(out, ' ');
    assert(out@ =~= start + rule_cell(*column));
}

fn push_row_cell(out: &mut String, column: &TableColumn, row: &RowBuilder)
    requires
        row.wf(),
    ensures
        final(out)@ == old(out)@ + row_cell(*column, row@),
{
    let ghost start = out@;
    push_text(out, "| ");
    let width = column.width();
    let ghost value = content(row@, column.header@);
    let value_width = match row.value_of(column.header.as_str()) {
        Some(value) => {
            push_text(out, value.as_str());
            display_width(value.as_str())
        },
        None => {
            proof {
                reveal_strlit("");
                assert(""@ =~= Seq::<char>::empty());
            }
            display_width("")
        },
    };
    assert(out@ =~= start + "| "@ + value);
    assert(value_width == display_width_of(value));
    let ghost mid = out@;
    push_repeated(out, ' ', if width >= value_width { width - value_width } else { 0 });
    assert(out@ =~= mid + spaces(minus_or_zero(column.spec_width(), display_width_of(value))));
    push_char(out, ' ');
    assert(out@ =~= start + row_cell(*column, row@));
}

fn push_header_line(out: &mut String, columns: &Vec<TableColumn>)
    ensures
        final(out)@ == old(out)@ + line_of(columns@, |c: TableColumn| header_cell(c)),
{
    let ghost start = out@;
    let ghost cell = |c: TableColumn| header_cell(c);
    let mut i: usize = 0;
    assert(columns@.subrange(0, 0) =~= Seq::<TableColumn>::empty());
    while i < columns.len()
        invariant
            i <= columns@.len(),
            out@ == start + line_of(columns@.subrange(0, i as int), cell),
            forall|c: TableColumn| #[trigger] cell(c) == header_cell(c),
        decreases columns@.len() - i,
    {
        proof {
            lemma_line_step(columns@, cell, i as int);
        }
        if columns[i].enabled {
            push_header_cell(out, &columns[i]);
        }
        assert(out@ =~= start + line_of(columns@.subrange(0, i + 1), cell));
        i = i + 1;
    }
    assert(columns@.subrange(0, columns@.len() as int) =~= columns@);
}

fn push_rule_line(out: &mut String, columns: &Vec<TableColumn>)
    ensures
        final(out)@ == old(out)@ + line_of(columns@, |c: TableColumn| rule_cell(c)),
{
    let ghost start = out@;
    let ghost cell = |c: TableColumn| rule_cell(c);
    let mut i: usize = 0;
    assert(columns@.subrange(0, 0) =~= Seq::<TableColumn>::empty());
    while i < columns.len()
        invariant
            i <= columns@.len(),
            out@ == start + line_of(columns@.subrange(0, i as int), cell),
            forall|c: TableColumn| #[trigger] cell(c) == rule_cell(c),
        decreases columns@.len() - i,
    {
        proof {
            lemma_line_step(columns@, cell, i as int);
        }
        if columns[i].enabled {
            push_rule_cell(out, &columns[i]);
        }
        assert(out@ =~= start + line_of(columns@.subrange(0, i + 1), cell));
        i = i + 1;
    }
    assert(columns@.subrange(0, columns@.len() as int) =~= columns@);
}

fn push_row_line(out: &mut String, row: &RowBuilder)
    requires
        row.wf(),
    ensures
        final(out)@ == old(out)@ + line_of(
            row.spec_table().columns@,
            |c: TableColumn| row_cell(c, row@),
        ),
{
    let ghost start = out@;
    let columns = &row.table().columns;
    let ghost cells = row@;
    let ghost cell = |c: TableColumn| row_cell(c, cells);
    let mut i: usize = 0;
    assert(columns@.subrange(0, 0) =~= Seq::<TableColumn>::empty());
    while i < columns.len()
        invariant
            i <= columns@.len(),
            row.wf(),
            cells == row@,
            out@ == start + line_of(columns@.subrange(0, i as int), cell),
            forall|c: TableColumn| #[trigger] cell(c) == row_cell(c, cells),
        decreases columns@.len() - i,
    {
        proof {
            lemma_line_step(columns@, cell, i as int);
        }
        if columns[i].enabled {
            push_row_cell(out, &columns[i], row);
        }
        assert(out@ =~= start + line_of(columns@.subrange(0, i + 1), cell));
        i = i + 1;
    }
    assert(columns@.subrange(0, columns@.len() as int) =~= columns@);
}

/// Writes tables in markdown form, returning the text.
pub struct IoWriteTablePrinter {}

impl IoWriteTablePrinter {
    pub fn new() -> Self {
        IoWriteTablePrinter {}
    }

    /// The header line of `table` and the rule under it.
    pub fn begin_new_table(&mut self, table: &Table) -> (r: String)
        ensures
            r@ == header_text(table.columns@),
    {
        let mut out = String::new();
        push_header_line(&mut out, &table.columns);
        push_char(&mut out, '|');
        push_char(&mut out, '\n');
        push_rule_line(&mut out, &table.columns);
        push_char(&mut out, '|');
        push_char(&mut out, '\n');
        assert(out@ =~= header_text(table.columns@));
        out
    }

    /// The line of `row`, without a newline.
    pub fn print_row(&mut self, row: RowBuilder<'_>) -> (r: String)
        requires
            row.wf(),
        ensures
            r@ == row_text(row.spec_table().columns@, row@),
    {
        let mut out = String::new();
        push_row_line(&mut out, &row);
        push_char(&mut out, '|');
        assert(out@ =~= row_text(row.spec_table().columns@, row@));
        out
    }
}

/// Prints tables to a terminal, where the last row can be rewritten in place
/// while a key repeats.
pub struct StdoutTablePrinter {
    /// Whether the last line is a row that is being rewritten, not yet ended
    /// by a newline.
    pub updating: bool,
    pub ioprinter: IoWriteTablePrinter,
}

impl StdoutTablePrinter {
    pub fn new() -> (r: Self)
        ensures
            !r.updating,
    {
        StdoutTablePrinter { updating: false, ioprinter: IoWriteTablePrinter::new() }
    }

    /// The text that starts a new table: an empty line, then the header.
    pub fn begin_new_table(&mut self, table: &Table) -> (r: String)
        ensures
            r@ == seq!['\n'] + header_text(table.columns@),
            final(self).updating == old(self).updating,
    {
        let mut out = String::new();
        push_char(&mut out, '\n');
        let header = self.ioprinter.begin_new_table(table);
        push_text(&mut out, header.as_str());
        out
    }

    /// The text that prints `row` as a new line: the row being rewritten, if
    /// any, is ended first.
    pub fn print_row(&mut self, row: RowBuilder<'_>) -> (r: String)
        requires
            row.wf(),
        ensures
            r@ == (if old(self).updating { seq!['\n'] } else { Seq::empty() }) + seq!['\r']
                + row_text(row.spec_table().columns@, row@) + seq!['\n'],
            !final(self).updating,
    {
        let mut out = String::new();
        if self.updating {
            push_char(&mut out, '\n');
            self.updating = false;
        }
        push_char(&mut out, '\r');
        let line = self.ioprinter.print_row(row);
        push_text(&mut out, line.as_str());
        push_char(&mut out, '\n');
        out
    }

    /// The text that rewrites the current line with `row`, leaving the line
    /// open for the next rewrite.
    pub fn update_row(&mut self, row: RowBuilder<'_>) -> (r: String)
        requires
            row.wf(),
        ensures
            r@ == seq!['\r'] + row_text(row.spec_table().columns@, row@),
            final(self).updating,
    {
        self.updating = true;
        let mut out = String::new();
        push_char(&mut out, '\r');
        let line = self.ioprinter.print_row(row);
        push_text(&mut out, line.as_str());
        out
    }
}

} // verus!
