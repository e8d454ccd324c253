use keyboard_table::html::{copy_script, td_texts, HtmlTableState, RowUpdate};
use keyboard_table::table::{Table, TableColumn};

fn table() -> Table {
    let mut table = Table::new();
    for (header, width, enabled) in [("Number", 0, true), ("Kind", 6, true), ("Scancode", 0, false)] {
        table.add_column(TableColumn {
            header: header.to_string(),
            normal_width: width,
            extended_width: 0,
            use_extended_width: false,
            enabled,
        });
    }
    table
}

#[test]
fn data_cells_follow_enabled_columns() {
    let table = table();
    let row = table.print_table_line().column("Kind", "IME");
    assert_eq!(td_texts(&row), vec![None, Some("IME".to_string())]);
}

#[test]
fn markdown_collects_rows_until_the_next_table() {
    let table = table();
    let mut state = HtmlTableState::new();
    assert_eq!(state.begin_new_table(&table), "");
    let cells = state.print_row(table.print_table_line().column("Number", "0"));
    assert_eq!(cells, vec![Some("0".to_string()), None]);
    let finished = state.begin_new_table(&table);
    assert_eq!(
        finished,
        "| Number | Kind   |\n| ------ | ------ |\n| 0      |        |"
    );
    assert_eq!(state.markdown, "| Number | Kind   |\n| ------ | ------ |\n");
}

#[test]
fn repeated_updates_replace_the_last_row() {
    let table = table();
    let mut state = HtmlTableState::new();
    let first = state.update_row(table.print_table_line().column("Number", "1"), false);
    assert!(matches!(first, RowUpdate::Append(_)));
    assert!(state.updating);
    let second = state.update_row(table.print_table_line().column("Number", "1"), true);
    match second {
        RowUpdate::Replace(cells) => assert_eq!(cells, vec![Some("1".to_string()), None]),
        _ => panic!("expected a replacement"),
    }
    let third = state.update_row(table.print_table_line().column("Number", "1"), false);
    assert!(matches!(third, RowUpdate::Keep));
    assert_eq!(state.markdown, "| 1      |        || 1      |        |");
    state.print_row(table.print_table_line());
    assert!(!state.updating);
}

#[test]
fn copy_button_script_wraps_the_markdown() {
    assert_eq!(copy_script("| a |"), "navigator.clipboard.writeText(`| a |`)");
}
