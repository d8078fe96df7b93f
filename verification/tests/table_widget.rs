use clash_tui::page::widget::table_widget::{
    clone_row, same_row, same_rows, ColumnWidth, ScrollState,
};
use clash_tui::page::widget::TableWidget;

fn row(cells: &[&str]) -> Vec<String> {
    cells.iter().map(|c| c.to_string()).collect()
}

fn three_rows() -> Vec<Vec<String>> {
    vec![row(&["a", "1", ""]), row(&["b", "2", ""]), row(&["c", "3", ""])]
}

#[test]
fn select_where_marks_second_row() {
    let mut table = TableWidget::new(vec!["名称", "延迟", "选中"]);
    table.set_data(vec![row(&["X", "-", ""]), row(&["Y", "-", "✓"])]);
    table.select(|r: &Vec<String>| r[2] == "✓");
    assert_eq!(table.selected(), Some(1));
    assert_eq!(table.current_row(), Some(row(&["Y", "-", "✓"])));
    assert_eq!(table.scroll_state().position, 1);
}

#[test]
fn select_where_without_match_takes_first_row() {
    let mut table = TableWidget::new(vec!["名称", "延迟", "选中"]);
    table.set_data(three_rows());
    table.select_down();
    table.select(|r: &Vec<String>| r[0] == "zzz");
    assert_eq!(table.selected(), Some(0));
    assert_eq!(table.scroll_state().position, 0);
}

#[test]
fn select_where_takes_first_of_several_matches() {
    let mut table = TableWidget::new(vec!["n"]);
    table.set_data(vec![row(&["x"]), row(&["y"]), row(&["y"])]);
    table.select(|r: &Vec<String>| r[0] == "y");
    assert_eq!(table.selected(), Some(1));
}

#[test]
fn new_table_is_empty_without_cursor() {
    let table = TableWidget::new(vec!["a", "b"]);
    assert_eq!(table.selected(), None);
    assert_eq!(table.rows().len(), 0);
    assert_eq!(table.scroll_state(), ScrollState { content_length: 0, position: 0 });
    assert_eq!(table.current_row(), None);
    assert_eq!(table.header(), &vec!["a", "b"]);
}

#[test]
fn set_data_puts_cursor_on_first_row_and_sets_scroll_range() {
    let mut table = TableWidget::new(vec!["a", "b", "c"]);
    table.set_data(three_rows());
    assert_eq!(table.selected(), Some(0));
    assert_eq!(table.scroll_state(), ScrollState { content_length: 2, position: 0 });
    assert_eq!(table.rows(), &three_rows());
}

#[test]
fn set_data_with_equal_rows_keeps_cursor_and_scroll() {
    let mut table = TableWidget::new(vec!["a", "b", "c"]);
    table.set_data(three_rows());
    table.select_down();
    table.select_down();
    let cursor = table.selected();
    let scroll = table.scroll_state();
    table.set_data(three_rows());
    assert_eq!(table.selected(), cursor);
    assert_eq!(table.scroll_state(), scroll);
    assert_eq!(table.selected(), Some(2));
    table.set_data(three_rows());
    table.set_data(three_rows());
    assert_eq!(table.selected(), Some(2));
    assert_eq!(table.scroll_state(), ScrollState { content_length: 2, position: 2 });
}

#[test]
fn set_data_with_other_rows_keeps_existing_cursor() {
    let mut table = TableWidget::new(vec!["a", "b", "c"]);
    table.set_data(three_rows());
    table.select_down();
    table.set_data(vec![row(&["q", "", ""]), row(&["r", "", ""])]);
    assert_eq!(table.selected(), Some(1));
    assert_eq!(table.scroll_state(), ScrollState { content_length: 1, position: 1 });
}

#[test]
fn set_data_with_no_rows_has_scroll_range_zero() {
    let mut table = TableWidget::new(vec!["a"]);
    table.set_data(vec![row(&["x"])]);
    table.set_data(vec![]);
    assert_eq!(table.scroll_state().content_length, 0);
    assert_eq!(table.selected(), Some(0));
    assert_eq!(table.current_row(), None);
}

#[test]
fn select_down_stops_at_last_row() {
    let mut table = TableWidget::new(vec!["a", "b", "c"]);
    table.set_data(three_rows());
    assert_eq!(table.select_down(), row(&["b", "2", ""]));
    assert_eq!(table.select_down(), row(&["c", "3", ""]));
    assert_eq!(table.select_down(), row(&["c", "3", ""]));
    assert_eq!(table.selected(), Some(2));
    assert_eq!(table.scroll_state().position, 2);
}

#[test]
fn select_up_stops_at_first_row() {
    let mut table = TableWidget::new(vec!["a", "b", "c"]);
    table.set_data(three_rows());
    table.select_down();
    assert_eq!(table.select_up(), row(&["a", "1", ""]));
    assert_eq!(table.select_up(), row(&["a", "1", ""]));
    assert_eq!(table.selected(), Some(0));
}

#[test]
fn select_on_empty_table_gives_empty_row() {
    let mut table = TableWidget::new(vec!["a"]);
    assert_eq!(table.select_up(), Vec::<String>::new());
    assert_eq!(table.select_down(), Vec::<String>::new());
    assert_eq!(table.selected(), None);
}

#[test]
fn set_data_with_fewer_rows_brings_the_cursor_to_the_last_row() {
    let mut table = TableWidget::new(vec!["a", "b", "c"]);
    table.set_data(three_rows());
    table.select_down();
    table.select_down();
    table.set_data(vec![row(&["q", "", ""]), row(&["r", "", ""])]);
    assert_eq!(table.selected(), Some(1));
    assert_eq!(table.current_row(), Some(row(&["r", "", ""])));
    table.set_data(vec![row(&["only", "", ""])]);
    assert_eq!(table.selected(), Some(0));
    assert_eq!(table.select_up(), row(&["only", "", ""]));
    table.set_data(vec![]);
    assert_eq!(table.selected(), Some(0));
    assert_eq!(table.current_row(), None);
}

#[test]
fn render_gives_each_column_its_widest_cell_plus_two() {
    let mut table = TableWidget::new(vec!["名称", "延迟", "选中"]);
    table.set_data(vec![row(&["香港节点01", "120ms", ""]), row(&["JP", "-", "✓"])]);
    let frame = table.render();
    assert_eq!(
        frame.widths,
        vec![ColumnWidth::Length(12), ColumnWidth::Length(7), ColumnWidth::Fill]
    );
}

#[test]
fn render_uses_title_width_when_cells_are_narrow() {
    let mut table = TableWidget::new(vec!["名称", "x"]);
    table.set_data(vec![row(&["a", "b"]), row(&["bc"])]);
    let frame = table.render();
    assert_eq!(frame.widths, vec![ColumnWidth::Length(6), ColumnWidth::Fill]);
}

#[test]
fn render_of_single_column_fills() {
    let mut table = TableWidget::new(vec!["only"]);
    let frame = table.render();
    assert_eq!(frame.widths, vec![ColumnWidth::Fill]);
    assert_eq!(frame.visible, Vec::<usize>::new());
    assert_eq!(frame.marked, Vec::<bool>::new());
}

#[test]
fn render_settles_cursor_inside_table() {
    let mut table = TableWidget::new(vec!["a", "b", "c"]);
    table.set_data(three_rows());
    table.select_down();
    table.select_down();
    table.set_data(vec![row(&["q", "", ""]), row(&["r", "", ""])]);
    table.render();
    assert_eq!(table.selected(), Some(1));
    table.set_data(vec![]);
    table.render();
    assert_eq!(table.selected(), None);
}

#[test]
fn render_marks_rows_with_third_cell_in_mark_column() {
    let mut table = TableWidget::new(vec!["名称", "延迟", "选中"]);
    table.set_data(vec![row(&["X", "-", ""]), row(&["Y", "-", "✓"]), row(&["Z"])]);
    let frame = table.render();
    assert_eq!(frame.marked, vec![false, true, false]);
    let mut other = TableWidget::new(vec!["名称", "详情", "延迟"]);
    other.set_data(vec![row(&["X", "-", "5ms"])]);
    assert_eq!(other.render().marked, vec![false]);
}

#[test]
fn render_lists_rows_that_pass_the_filter() {
    let mut table = TableWidget::new(vec!["a", "b", "c"]);
    table.set_data(three_rows());
    assert_eq!(table.render().visible, vec![0, 1, 2]);
    table.set_filter("2");
    assert_eq!(table.render().visible, vec![1]);
    table.set_filter("nothing");
    assert_eq!(table.render().visible, Vec::<usize>::new());
    table.set_filter("");
    assert_eq!(table.render().visible, vec![0, 1, 2]);
}

#[test]
fn rows_compare_by_text() {
    assert!(same_row(&row(&["a", "b"]), &row(&["a", "b"])));
    assert!(!same_row(&row(&["a", "b"]), &row(&["a", "c"])));
    assert!(!same_row(&row(&["a"]), &row(&["a", "b"])));
    assert!(same_rows(&three_rows(), &three_rows()));
    assert!(!same_rows(&three_rows(), &vec![row(&["a", "1", ""])]));
    assert_eq!(clone_row(&row(&["x", "y"])), row(&["x", "y"]));
}

#[test]
fn render_places_the_cursor_among_the_visible_rows() {
    let mut table = TableWidget::new(vec!["a", "b", "c"]);
    table.set_data(three_rows());
    table.select_down();
    table.select_down();
    assert_eq!(table.render().cursor, Some(2));
    table.set_filter("3");
    let frame = table.render();
    assert_eq!(frame.visible, vec![2]);
    assert_eq!(frame.cursor, Some(0));
    table.set_filter("1");
    let frame = table.render();
    assert_eq!(frame.visible, vec![0]);
    assert_eq!(frame.cursor, None);
    assert_eq!(table.selected(), Some(2));
    let mut empty = TableWidget::new(vec!["a"]);
    assert_eq!(empty.render().cursor, None);
}

#[test]
fn render_counts_narrow_letters_of_any_script_once() {
    let mut table = TableWidget::new(vec!["a", "b", "c"]);
    table.set_data(vec![row(&["שלום", "привет", ""]), row(&["✓", "日本", ""])]);
    assert_eq!(
        table.render().widths,
        vec![ColumnWidth::Length(6), ColumnWidth::Length(8), ColumnWidth::Fill]
    );
}
