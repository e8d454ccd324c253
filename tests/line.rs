use keyboard_table::line::TableLinePrinter;
use keyboard_table::table::{Table, TableColumn};

fn table() -> Table {
    let mut table = Table::new();
    for (header, width, enabled) in [("Number", 0, true), ("Kind", 6, true), ("Scancode", 0, false)] {
        table.add_column(TableColumn {
            header: header.to_string(),
            normal_width: width,
            extended_width: 0,
            use_extended_width: false,
            enabled,
        });
    }
    table
}

#[test]
fn headers_start_with_an_empty_line() {
    assert_eq!(table().print_headers(), "\n| Number | Kind   |\n| ------ | ------ |\n");
}

#[test]
fn plain_lines_pad_by_character_count() {
    let table = table();
    let line = TableLinePrinter::new(&table)
        .column("Number", "3")
        .column_with("Kind", || "日本".to_string())
        .column("Scancode", "9");
    assert_eq!(line.print(), "| 3      | 日本     |\n");
    assert_eq!(TableLinePrinter::new(&table).print(), "|        |        |\n");
}
