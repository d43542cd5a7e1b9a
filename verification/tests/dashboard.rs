use netctl::logging::LogLevel;
use netctl::tui::{App, Dashboard, Key, View};

#[test]
fn the_dashboard_starts_on_the_first_view() {
    let app = App::new();
    assert!(!app.should_quit);
    assert_eq!(app.selected_index, 0);
    assert_eq!(app.current_view, View::Dashboard);
    assert!(!app.show_help);
    assert!(app.show_stats_bar);
    assert_eq!(app.search_query, "");
    assert!(!app.is_searching);
}

#[test]
fn views_have_titles_and_an_order() {
    assert_eq!(View::all(), vec![View::Dashboard, View::Statistics, View::Configuration]);
    assert_eq!(View::Dashboard.title(), "Dashboard");
    assert_eq!(View::Statistics.title(), "Statistics");
    assert_eq!(View::Configuration.title(), "Configuration");
    assert_eq!(View::Statistics.icon(), "📈");
    assert_eq!(View::Configuration.next(), View::Dashboard);
    assert_eq!(View::Dashboard.previous(), View::Configuration);
}

#[test]
fn selection_stays_within_the_rows() {
    let mut app = App::new();
    app.next(3);
    app.next(3);
    assert_eq!(app.selected_index, 2);
    app.next(3);
    assert_eq!(app.selected_index, 2);
    app.next(0);
    assert_eq!(app.selected_index, 2);
    app.next(2);
    assert_eq!(app.selected_index, 1);
    app.previous();
    app.previous();
    app.previous();
    assert_eq!(app.selected_index, 0);
    app.selected_index = usize::MAX;
    app.next(usize::MAX);
    assert_eq!(app.selected_index, usize::MAX - 1);
}

#[test]
fn changing_the_view_selects_the_first_row() {
    let mut app = App::new();
    app.next(5);
    app.next_view();
    assert_eq!((app.current_view, app.selected_index), (View::Statistics, 0));
    app.next_view();
    app.next_view();
    assert_eq!(app.current_view, View::Dashboard);
    app.next(5);
    app.previous_view();
    assert_eq!((app.current_view, app.selected_index), (View::Configuration, 0));
}

#[test]
fn toggles_and_search_change_their_part_only() {
    let mut app = App::new();
    app.toggle_help();
    app.toggle_stats_bar();
    assert!(app.show_help && !app.show_stats_bar);
    app.start_search();
    app.append_to_search('e');
    app.append_to_search('t');
    app.append_to_search('h');
    app.backspace_search();
    assert!(app.is_searching);
    assert_eq!(app.search_query, "et");
    app.start_search();
    assert_eq!(app.search_query, "");
    app.backspace_search();
    assert_eq!(app.search_query, "");
    app.append_to_search('x');
    app.cancel_search();
    assert!(!app.is_searching);
    assert_eq!(app.search_query, "");
    assert!(app.show_help && !app.should_quit);
}

#[test]
fn keys_move_and_quit() {
    let mut app = App::new();
    app.handle_key_event(Key::Down, false, 4);
    app.handle_key_event(Key::Char('j'), false, 4);
    assert_eq!(app.selected_index, 2);
    app.handle_key_event(Key::Up, false, 4);
    app.handle_key_event(Key::Char('k'), true, 4);
    assert_eq!(app.selected_index, 0);
    app.handle_key_event(Key::Char('c'), false, 4);
    app.handle_key_event(Key::Char('x'), true, 4);
    app.handle_key_event(Key::Other, false, 4);
    assert!(!app.should_quit);
    app.handle_key_event(Key::Char('c'), true, 4);
    assert!(app.should_quit);
    let mut other = App::new();
    other.handle_key_event(Key::Esc, false, 0);
    assert!(other.should_quit);
    let mut third = App::new();
    third.handle_key_event(Key::Char('q'), false, 0);
    assert!(third.should_quit);
}

#[test]
fn the_dashboard_refreshes_every_second() {
    let mut d = Dashboard::new(5000);
    assert!(!d.should_refresh(5000));
    assert!(!d.should_refresh(5999));
    assert!(d.should_refresh(6000));
    assert!(!d.should_refresh(10));
    d.mark_refreshed(6000);
    assert!(!d.should_refresh(6500));
    assert_eq!(d.refresh_rate, 1000);
}

#[test]
fn log_levels_have_their_directive() {
    assert_eq!(LogLevel::Info.as_str(), "info");
    assert_eq!(LogLevel::Debug.as_str(), "debug");
    assert_eq!(LogLevel::Trace.as_str(), "trace");
}
