//! A table of named columns, and rows built cell by cell against it.
use vstd::prelude::*;
use vstd::utf8::encode_utf8;

use crate::keyed::TextMap;
use crate::text::same_text;

verus! {

/// One column of a table.
#[derive(Clone, Debug)]
pub struct TableColumn {
    /// The column's name, shown in the header row.
    pub header: String,
    /// The width used unless `use_extended_width` is set.
    pub normal_width: usize,
    /// The width used when `use_extended_width` is set.
    pub extended_width: usize,
    pub use_extended_width: bool,
    /// A disabled column is neither shown nor filled.
    pub enabled: bool,
}

/// The length of a text in UTF-8 bytes, as `str::len` reports it.
pub open spec fn byte_len(s: Seq<char>) -> nat {
    (encode_utf8(s).len() as usize) as nat
}

impl TableColumn {
    /// The width that the column asks for, before the header is accounted for.
    pub open spec fn chosen_width(&self) -> nat {
        if self.use_extended_width {
            self.extended_width as nat
        } else {
            self.normal_width as nat
        }
    }

    /// The column's width: the chosen width, or the header's length in bytes
    /// if that is larger.
    pub open spec fn spec_width(&self) -> nat {
        if self.chosen_width() >= byte_len(self.header@) {
            self.chosen_width()
        } else {
            byte_len(self.header@)
        }
    }

    /// The column's width: the chosen width, or the header's length in bytes
    /// if that is larger.
    pub fn width(&self) -> (r: usize)
        ensures
            r == self.spec_width(),
    {
        let chosen = if self.use_extended_width {
            self.extended_width
        } else {
            self.normal_width
        };
        let header_len = self.header.as_str().len();
        if chosen >= header_len {
            chosen
        } else {
            header_len
        }
    }
}

/// A table: its columns, in order.
pub struct Table {
    pub columns: Vec<TableColumn>,
}

impl Table {
    /// A table without columns.
    pub fn new() -> (r: Table)
        ensures
            r.columns@ == Seq::<TableColumn>::empty(),
    {
        Table { columns: Vec::new() }
    }

    /// Appends a column.
    pub fn add_column(&mut self, column: TableColumn)
        ensures
            final(self).columns@ == old(self).columns@.push(column),
    {
        self.columns.push(column);
    }

    /// An empty row of this table.
    pub fn print_table_line(&self) -> (r: RowBuilder<'_>)
        ensures
            r.wf(),
            r.spec_table() == self,
            r@ == Map::<Seq<char>, Seq<char>>::empty(),
    {
        RowBuilder::new(self)
    }
}

/// Whether column `i` is the first of `columns` named `name`.
pub open spec fn is_first_named(columns: Seq<TableColumn>, name: Seq<char>, i: int) -> bool {
    &&& 0 <= i < columns.len()
    &&& columns[i].header@ == name
    &&& forall|j: int| 0 <= j < i ==> (#[trigger] columns[j]).header@ != name
}

/// Whether a cell for `name` is kept: the first column of that name exists
/// and is enabled.
pub open spec fn accepts(columns: Seq<TableColumn>, name: Seq<char>) -> bool {
    exists|i: int| is_first_named(columns, name, i) && columns[i].enabled
}

/// The cells after a value is offered for column `name`.
pub open spec fn with_cell(
    columns: Seq<TableColumn>,
    cells: Map<Seq<char>, Seq<char>>,
    name: Seq<char>,
    value: Seq<char>,
) -> Map<Seq<char>, Seq<char>> {
    if accepts(columns, name) {
        cells.insert(name, value)
    } else {
        cells
    }
}

/// Finds whether a value offered for column `name` is kept.
pub fn column_accepts(columns: &Vec<TableColumn>, name: &str) -> (r: bool)
    ensures
        r == accepts(columns@, name@),
{
    let mut i: usize = 0;
    while i < columns.len()
        invariant
            i <= columns@.len(),
            forall|j: int| 0 <= j < i ==> (#[trigger] columns@[j]).header@ != name@,
        decreases columns@.len() - i,
    {
        if same_text(columns[i].header.as_str(), name) {
            assert(is_first_named(columns@, name@, i as int));
            return columns[i].enabled;
        }
        i = i + 1;
    }
    assert(!accepts(columns@, name@));
    false
}

/// A row being filled: the values given so far, by column name.
pub struct RowBuilder<'a> {
    table: &'a Table,
    cells: TextMap<String>,
}

impl<'a> View for RowBuilder<'a> {
    type V = Map<Seq<char>, Seq<char>>;

    closed spec fn view(&self) -> Map<Seq<char>, Seq<char>> {
        self.cells@.map_values(|v: String| v@)
    }
}

impl<'a> RowBuilder<'a> {
    /// The table that the row belongs to.
    pub closed spec fn spec_table(&self) -> &'a Table {
        self.table
    }

    /// The table that the row belongs to.
    pub fn table(&self) -> (r: &'a Table)
        ensures
            r == self.spec_table(),
    {
        self.table
    }

    pub closed spec fn wf(&self) -> bool {
        self.cells.wf()
    }

    /// An empty row of `table`.
    pub fn new(table: &'a Table) -> (r: Self)
        ensures
            r.wf(),
            r.spec_table() == table,
            r@ == Map::<Seq<char>, Seq<char>>::empty(),
    {
        let r = RowBuilder { table, cells: TextMap::new() };
        assert(r@ =~= Map::<Seq<char>, Seq<char>>::empty());
        r
    }

    /// The value given for column `name`, if any.
    pub fn value_of(&self, name: &str) -> (r: Option<&String>)
        requires
            self.wf(),
        ensures
            self@.contains_key(name@) ==> r is Some && r->0@ == self@[name@],
            !self@.contains_key(name@) ==> r is None,
    {
        self.cells.get(name)
    }

    fn set(&mut self, name: &str, value: String)
        requires
            old(self).wf(),
        ensures
            final(self).wf(),
            final(self).spec_table() == old(self).spec_table(),
            final(self)@ == old(self)@.insert(name@, value@),
    {
        let ghost before = self.cells@;
        let ghost v = value@;
        self.cells.insert(name, value);
        assert(self.cells@.map_values(|v: String| v@) =~= before.map_values(|v: String| v@).insert(
            name@,
            v,
        ));
    }

    /// Gives column `column` the value `value`, if the first column of that
    /// name exists and is enabled; otherwise the row stays as it is.
    pub fn column(self, column: &str, value: &str) -> (r: Self)
        requires
            self.wf(),
        ensures
            r.wf(),
            r.spec_table() == self.spec_table(),
            r@ == with_cell(self.spec_table().columns@, self@, column@, value@),
    {
        let mut row = self;
        if column_accepts(&row.table.columns, column) {
            row.set(column, value.to_owned());
        }
        row
    }

    /// Like `column`, with the value computed by `f`, which is called only if
    /// the value is kept.
    pub fn column_with<F: FnOnce() -> String>(self, column: &str, f: F) -> (r: Self)
        requires
            self.wf(),
            f.requires(()),
        ensures
            r.wf(),
            r.spec_table() == self.spec_table(),
            accepts(self.spec_table().columns@, column@) ==> exists|v: String|
                f.ensures((), v) && r@ == self@.insert(column@, v@),
            !accepts(self.spec_table().columns@, column@) ==> r@ == self@,
    {
        let mut row = self;
        if column_accepts(&row.table.columns, column) {
            let v = f();
            row.set(column, v);
        }
        row
    }
}

} // verus!
