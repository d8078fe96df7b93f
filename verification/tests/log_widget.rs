use clash_tui::page::widget::table_widget::ScrollState;
use clash_tui::page::widget::log_widget::append_pieces;
use clash_tui::page::widget::LogWidget;

fn lines(widget: &LogWidget) -> Vec<String> {
    widget.lines().clone()
}

fn texts(items: &[&str]) -> Vec<String> {
    items.iter().map(|t| t.to_string()).collect()
}

#[test]
fn capacity_three_keeps_the_latest_three_lines() {
    let mut log = LogWidget::new(3);
    for line in ["a", "b", "c", "d"] {
        log.add_line(line.to_string());
    }
    assert_eq!(lines(&log), texts(&["b", "c", "d"]));
}

#[test]
fn buffer_never_exceeds_capacity() {
    let mut log = LogWidget::new(5);
    for i in 0..50 {
        log.add_line(format!("line {}", i));
        assert!(log.len() <= 5);
    }
    assert_eq!(
        lines(&log),
        texts(&["line 45", "line 46", "line 47", "line 48", "line 49"])
    );
}

#[test]
fn buffer_below_capacity_keeps_every_line() {
    let mut log = LogWidget::new(10);
    log.add_line("x".to_string());
    log.add_line("y".to_string());
    assert_eq!(lines(&log), texts(&["x", "y"]));
}

#[test]
fn capacity_zero_keeps_nothing() {
    let mut log = LogWidget::new(0);
    log.add_line("x".to_string());
    assert_eq!(log.len(), 0);
    assert_eq!(log.render(20, 10), Vec::<String>::new());
}

#[test]
fn render_wraps_lines_at_inner_width() {
    let mut log = LogWidget::new(10);
    log.add_line("hello world".to_string());
    assert_eq!(log.render(7, 10), texts(&["hello", "world"]));
    assert_eq!(log.render(22, 10), texts(&["hello world"]));
}

#[test]
fn incremental_cache_equals_cache_made_from_scratch() {
    let input = ["alpha beta gamma", "delta", "epsilon zeta eta theta", "x", "iota kappa"];
    let mut incremental = LogWidget::new(100);
    incremental.render(12, 100);
    for line in input {
        incremental.add_line(line.to_string());
    }
    let mut scratch = LogWidget::new(100);
    for line in input {
        scratch.add_line(line.to_string());
    }
    let expected = scratch.render(12, 100);
    assert_eq!(incremental.render(12, 100), expected);
    assert_eq!(
        expected,
        texts(&["alpha beta", "gamma", "delta", "epsilon", "zeta eta", "theta", "x", "iota kappa"])
    );
}

#[test]
fn incremental_cache_with_filter_equals_cache_made_from_scratch() {
    let input = ["warn one two three", "info four", "warn five six seven eight", "info"];
    let mut incremental = LogWidget::new(100);
    incremental.set_filter("warn");
    incremental.render(11, 100);
    for line in input {
        incremental.add_line(line.to_string());
    }
    let mut scratch = LogWidget::new(100);
    scratch.set_filter("warn");
    for line in input {
        scratch.add_line(line.to_string());
    }
    let expected = scratch.render(11, 100);
    assert_eq!(incremental.render(11, 100), expected);
    assert_eq!(expected, texts(&["warn one", "two three", "warn five", "six seven", "eight"]));
}

#[test]
fn cache_after_eviction_equals_cache_made_from_scratch() {
    let mut log = LogWidget::new(2);
    log.render(12, 100);
    for line in ["first line here", "second", "third line here"] {
        log.add_line(line.to_string());
    }
    assert_eq!(log.render(12, 100), texts(&["second", "third line", "here"]));
}

#[test]
fn filter_shows_only_lines_that_contain_it() {
    let mut log = LogWidget::new(10);
    for line in ["apple", "banana", "grape"] {
        log.add_line(line.to_string());
    }
    assert_eq!(log.render(40, 10), texts(&["apple", "banana", "grape"]));
    log.set_filter("ap");
    assert_eq!(log.render(40, 10), texts(&["apple", "grape"]));
    log.set_filter("");
    assert_eq!(log.render(40, 10), texts(&["apple", "banana", "grape"]));
}

#[test]
fn width_change_makes_the_projection_anew() {
    let mut log = LogWidget::new(10);
    log.add_line("one two three".to_string());
    assert_eq!(log.render(15, 10), texts(&["one two three"]));
    assert_eq!(log.render(9, 10), texts(&["one two", "three"]));
    assert_eq!(log.render(5, 10), texts(&["one", "two", "thr", "ee"]));
}

#[test]
fn view_is_pinned_to_latest_line_until_scrolled() {
    let mut log = LogWidget::new(100);
    for i in 0..10 {
        log.add_line(format!("l{}", i));
    }
    assert_eq!(log.render(20, 5), texts(&["l7", "l8", "l9"]));
    assert_eq!(log.scroll_state(), ScrollState { content_length: 7, position: 7 });
    log.add_line("l10".to_string());
    assert_eq!(log.render(20, 5), texts(&["l8", "l9", "l10"]));
}

#[test]
fn scrolling_fixes_the_view_until_cleared() {
    let mut log = LogWidget::new(100);
    for i in 0..10 {
        log.add_line(format!("l{}", i));
    }
    log.render(20, 5);
    log.select_up();
    log.select_up();
    assert_eq!(log.render(20, 5), texts(&["l5", "l6", "l7"]));
    log.add_line("l10".to_string());
    assert_eq!(log.render(20, 5), texts(&["l5", "l6", "l7"]));
    log.select_down();
    assert_eq!(log.render(20, 5), texts(&["l6", "l7", "l8"]));
    log.clear();
    assert_eq!(log.len(), 0);
    for i in 0..4 {
        log.add_line(format!("n{}", i));
    }
    assert_eq!(log.render(20, 5), texts(&["n1", "n2", "n3"]));
}

#[test]
fn scrolling_down_past_the_end_is_brought_back_by_drawing() {
    let mut log = LogWidget::new(100);
    for i in 0..6 {
        log.add_line(format!("l{}", i));
    }
    log.render(20, 5);
    for _ in 0..10 {
        log.select_down();
    }
    assert_eq!(log.render(20, 5), texts(&["l3", "l4", "l5"]));
    assert_eq!(log.scroll_state(), ScrollState { content_length: 3, position: 3 });
}

#[test]
fn scrolling_up_stops_at_the_first_line() {
    let mut log = LogWidget::new(100);
    for i in 0..6 {
        log.add_line(format!("l{}", i));
    }
    log.render(20, 5);
    for _ in 0..10 {
        log.select_up();
    }
    assert_eq!(log.render(20, 5), texts(&["l0", "l1", "l2"]));
}

#[test]
fn tiny_area_draws_nothing() {
    let mut log = LogWidget::new(10);
    log.add_line("abc".to_string());
    assert_eq!(log.render(10, 2), Vec::<String>::new());
    assert_eq!(log.render(10, 0), Vec::<String>::new());
    assert_eq!(log.render(1, 20), texts(&["a", "b", "c"]));
}

#[test]
fn incremental_cache_equals_scratch_cache_for_many_widths_and_filters() {
    let input = [
        "2024-01-01 info connected to upstream server at 10.0.0.1:443",
        "",
        "warn retry",
        "a-very-long-token-without-any-space-that-must-be-broken-somewhere",
        "info  double  spaces  inside",
        "debug x",
    ];
    for width in [0u16, 1, 2, 3, 5, 8, 13, 21, 80] {
        for filter in ["", "info", "x", "nothing matches"] {
            let mut incremental = LogWidget::new(4);
            incremental.set_filter(filter);
            incremental.render(width, 200);
            let mut scratch = LogWidget::new(4);
            scratch.set_filter(filter);
            for (i, line) in input.iter().enumerate() {
                incremental.add_line(line.to_string());
                scratch.add_line(line.to_string());
                if i == 2 {
                    incremental.render(width, 200);
                }
            }
            let mut fresh = LogWidget::new(4);
            fresh.set_filter(filter);
            for line in scratch.lines().clone() {
                fresh.add_line(line);
            }
            let expected = fresh.render(width, 200);
            assert_eq!(incremental.render(width, 200), expected);
            assert_eq!(scratch.render(width, 200), expected);
        }
    }
}

#[test]
fn pieces_go_to_the_end_of_the_cache() {
    let mut cache = texts(&["a", "b"]);
    append_pieces(&mut cache, texts(&["c", "d"]));
    assert_eq!(cache, texts(&["a", "b", "c", "d"]));
    append_pieces(&mut cache, vec![]);
    assert_eq!(cache, texts(&["a", "b", "c", "d"]));
}
