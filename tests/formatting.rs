use keyboard_table::keys::{
    format_modifiers, native_key_code_to_string, repeat_label, state_label, unidentified_label,
    Modifiers, NativeKeyCode,
};
use keyboard_table::printer::{IoWriteTablePrinter, StdoutTablePrinter};
use keyboard_table::table::{Table, TableColumn};
use keyboard_table::text::{decimal, nice_text, same_text};

fn column(header: &str, normal_width: usize, extended_width: usize, use_extended_width: bool, enabled: bool) -> TableColumn {
    TableColumn {
        header: header.to_string(),
        normal_width,
        extended_width,
        use_extended_width,
        enabled,
    }
}

fn small_table() -> Table {
    let mut table = Table::new();
    table.add_column(column("Number", 0, 0, false, true));
    table.add_column(column("Kind", 6, 0, false, true));
    table.add_column(column("Scancode", 0, 0, false, false));
    table
}

#[test]
fn nice_text_keeps_plain_text() {
    assert_eq!(nice_text("a"), "a");
    assert_eq!(nice_text("é"), "é");
    assert_eq!(nice_text(""), "");
}

#[test]
fn nice_text_quotes_control_and_whitespace() {
    assert_eq!(nice_text("a b"), "\"a b\"");
    assert_eq!(nice_text("\t"), "\"\\t\"");
    assert_eq!(nice_text("\u{1b}"), "\"\\u{1b}\"");
    assert_eq!(nice_text("\r"), "\"\\r\"");
}

#[test]
fn modifiers_are_joined_in_order() {
    let all = Modifiers { alt: true, control: true, shift: true, logo: true };
    assert_eq!(format_modifiers(all), "AL|CO|SH|SU");
    let some = Modifiers { alt: false, control: true, shift: false, logo: true };
    assert_eq!(format_modifiers(some), "CO|SU");
    assert_eq!(format_modifiers(Modifiers::empty()), "");
    assert!(Modifiers::empty().is_empty());
    assert!(!some.is_empty());
}

#[test]
fn numbers_and_labels() {
    assert_eq!(decimal(0), "0");
    assert_eq!(decimal(1234), "1234");
    assert_eq!(decimal(u64::MAX), "18446744073709551615");
    assert_eq!(repeat_label(2), "Rpt    2");
    assert_eq!(repeat_label(1234), "Rpt 1234");
    assert_eq!(repeat_label(12345), "Rpt 12345");
    assert_eq!(state_label(true), "Pressed");
    assert_eq!(state_label(false), "Released");
    assert_eq!(unidentified_label("Xkb(38)"), "Unidentified(Xkb(38))");
}

#[test]
fn native_key_codes_in_hex() {
    assert_eq!(native_key_code_to_string(NativeKeyCode::Windows(0x1E)), "Windows(0x1E)");
    assert_eq!(native_key_code_to_string(NativeKeyCode::MacOS(0)), "MacOS(0x0)");
    assert_eq!(native_key_code_to_string(NativeKeyCode::Xkb(255)), "XKB(0xFF)");
    assert_eq!(native_key_code_to_string(NativeKeyCode::Xkb(0xABCDEF)), "XKB(0xABCDEF)");
}

#[test]
fn text_comparison() {
    assert!(same_text("Kind", "Kind"));
    assert!(!same_text("Kind", "Kin"));
    assert!(!same_text("Kind", "King"));
    assert!(same_text("", ""));
}

#[test]
fn column_width_takes_header_into_account() {
    assert_eq!(column("Number", 0, 0, false, true).width(), 6);
    assert_eq!(column("Key", 25, 42, true, true).width(), 42);
    assert_eq!(column("KeyCode", 20, 37, false, true).width(), 20);
    assert_eq!(column("Key", 1, 0, false, true).width(), 3);
    assert_eq!(column("Größe", 0, 0, false, true).width(), 7);
}

#[test]
fn header_and_rule_skip_disabled_columns() {
    let table = small_table();
    let mut printer = IoWriteTablePrinter::new();
    assert_eq!(
        printer.begin_new_table(&table),
        "| Number | Kind   |\n| ------ | ------ |\n"
    );
}

#[test]
fn row_cells_are_padded_to_display_width() {
    let table = small_table();
    let mut printer = IoWriteTablePrinter::new();
    let row = table.print_table_line().column("Number", "0").column("Kind", "Window");
    assert_eq!(printer.print_row(row), "| 0      | Window |");
    let row = table.print_table_line().column("Kind", "日本");
    assert_eq!(printer.print_row(row), "|        | 日本   |");
    let row = table.print_table_line().column("Kind", "too long text");
    assert_eq!(printer.print_row(row), "|        | too long text |");
}

#[test]
fn values_for_disabled_or_unknown_columns_are_dropped() {
    let table = small_table();
    let row = table
        .print_table_line()
        .column("Scancode", "12")
        .column("Nothing", "x")
        .column("Kind", "IME")
        .column("Kind", "ModC");
    assert!(row.value_of("Scancode").is_none());
    assert!(row.value_of("Nothing").is_none());
    assert_eq!(row.value_of("Kind").map(|s| s.as_str()), Some("ModC"));
}

#[test]
fn column_with_calls_the_closure_only_for_kept_cells() {
    let table = small_table();
    let mut calls = 0;
    let row = table
        .print_table_line()
        .column_with("Scancode", || {
            calls += 1;
            "12".to_string()
        });
    assert!(row.value_of("Scancode").is_none());
    let row = row.column_with("Number", || "7".to_string());
    assert_eq!(row.value_of("Number").map(|s| s.as_str()), Some("7"));
    assert_eq!(calls, 0);
}

#[test]
fn first_column_of_a_name_decides() {
    let mut table = Table::new();
    table.add_column(column("Kind", 0, 0, false, false));
    table.add_column(column("Kind", 0, 0, false, true));
    let row = table.print_table_line().column("Kind", "x");
    assert!(row.value_of("Kind").is_none());
}

#[test]
fn terminal_printer_rewrites_repeat_rows_in_place() {
    let table = small_table();
    let mut printer = StdoutTablePrinter::new();
    assert_eq!(
        printer.begin_new_table(&table),
        "\n| Number | Kind   |\n| ------ | ------ |\n"
    );
    let first = printer.update_row(table.print_table_line().column("Number", "1"));
    assert_eq!(first, "\r| 1      |        |");
    assert!(printer.updating);
    let second = printer.print_row(table.print_table_line().column("Number", "2"));
    assert_eq!(second, "\n\r| 2      |        |\n");
    assert!(!printer.updating);
    let third = printer.print_row(table.print_table_line().column("Number", "3"));
    assert_eq!(third, "\r| 3      |        |\n");
}
