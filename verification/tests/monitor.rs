use pingo_share::monitor::{
    contains_text, keep_last, level_for_status, App, Key, LogEntry, LogLevel, Stats, Tint,
};

fn entry(message: &str) -> LogEntry {
    LogEntry::at(0, LogLevel::Info, message.to_string(), None)
}

fn app_with(count: usize) -> App {
    let mut app = App::new();
    for i in 0..count {
        app.add_log(entry(&format!("line {}", i)));
    }
    app
}

#[test]
fn new_monitor_is_empty_on_the_first_tab() {
    let app = App::new();
    assert_eq!(app.logs().len(), 0);
    assert_eq!(app.selected_tab(), 0);
    assert_eq!(app.scroll_offset(), 0);
    assert_eq!(app.stats(), Stats::new());
}

#[test]
fn new_entry_is_made_now() {
    let e = LogEntry::new(LogLevel::Warn, "m".to_string(), Some("http".to_string()));
    assert_eq!(e.level, LogLevel::Warn);
    assert_eq!(e.message, "m");
    assert_eq!(e.module, Some("http".to_string()));
    assert!(e.timestamp > 1_600_000_000);
}

#[test]
fn added_entry_is_the_newest_and_scrolled_to() {
    let mut app = App::new();
    app.add_log(entry("one"));
    assert_eq!(app.scroll_offset(), 0);
    app.add_log(entry("two"));
    app.add_log(entry("three"));
    assert_eq!(app.logs().len(), 3);
    assert_eq!(app.logs()[2].message, "three");
    assert_eq!(app.scroll_offset(), 2);
}

#[test]
fn only_the_newest_thousand_entries_are_kept() {
    let app = app_with(1003);
    assert_eq!(app.logs().len(), 1000);
    assert_eq!(app.logs()[0].message, "line 3");
    assert_eq!(app.logs()[999].message, "line 1002");
    assert_eq!(app.scroll_offset(), 999);
}

#[test]
fn keep_last_drops_the_oldest() {
    let mut logs = vec![entry("a"), entry("b"), entry("c"), entry("d")];
    keep_last(&mut logs, 2);
    assert_eq!(logs, vec![entry("c"), entry("d")]);
    keep_last(&mut logs, 5);
    assert_eq!(logs, vec![entry("c"), entry("d")]);
    keep_last(&mut logs, 0);
    assert_eq!(logs, vec![]);
}

#[test]
fn tabs_go_round() {
    let mut app = App::new();
    app.next_tab();
    assert_eq!(app.selected_tab(), 1);
    app.next_tab();
    assert_eq!(app.selected_tab(), 2);
    app.next_tab();
    assert_eq!(app.selected_tab(), 0);
    app.previous_tab();
    assert_eq!(app.selected_tab(), 2);
    app.previous_tab();
    assert_eq!(app.selected_tab(), 1);
}

#[test]
fn scrolling_stops_at_both_ends() {
    let mut app = app_with(3);
    app.scroll_down();
    assert_eq!(app.scroll_offset(), 2);
    app.scroll_up();
    app.scroll_up();
    assert_eq!(app.scroll_offset(), 0);
    app.scroll_up();
    assert_eq!(app.scroll_offset(), 0);
    app.scroll_down();
    assert_eq!(app.scroll_offset(), 1);
    let mut empty = App::new();
    empty.scroll_down();
    assert_eq!(empty.scroll_offset(), 0);
}

#[test]
fn keys_change_the_state() {
    let mut app = app_with(30);
    assert!(!app.handle_key(Key::PageUp));
    assert_eq!(app.scroll_offset(), 19);
    assert!(!app.handle_key(Key::Home));
    assert_eq!(app.scroll_offset(), 0);
    assert!(!app.handle_key(Key::PageUp));
    assert_eq!(app.scroll_offset(), 0);
    assert!(!app.handle_key(Key::PageDown));
    assert_eq!(app.scroll_offset(), 10);
    assert!(!app.handle_key(Key::Down));
    assert_eq!(app.scroll_offset(), 11);
    assert!(!app.handle_key(Key::Up));
    assert_eq!(app.scroll_offset(), 10);
    assert!(!app.handle_key(Key::PageDown));
    assert!(!app.handle_key(Key::PageDown));
    assert_eq!(app.scroll_offset(), 29);
    assert!(!app.handle_key(Key::Home));
    assert!(!app.handle_key(Key::End));
    assert_eq!(app.scroll_offset(), 29);
    assert!(!app.handle_key(Key::Tab));
    assert_eq!(app.selected_tab(), 1);
    assert!(!app.handle_key(Key::BackTab));
    assert_eq!(app.selected_tab(), 0);
    assert!(!app.handle_key(Key::Other));
    assert!(!app.handle_key(Key::Char('x')));
    assert_eq!(app.scroll_offset(), 29);
    assert_eq!(app.selected_tab(), 0);
}

#[test]
fn q_and_escape_quit() {
    let mut app = app_with(2);
    assert!(app.handle_key(Key::Char('q')));
    assert!(app.handle_key(Key::Esc));
    assert!(!app.handle_key(Key::Char('Q')));
    assert_eq!(app.scroll_offset(), 1);
}

#[test]
fn window_ends_at_the_scroll_position() {
    let mut app = app_with(100);
    assert_eq!(app.visible_range(12), (90, 100));
    app.handle_key(Key::Home);
    assert_eq!(app.visible_range(12), (0, 10));
    for _ in 0..4 {
        app.scroll_down();
    }
    assert_eq!(app.visible_range(12), (0, 10));
    for _ in 0..10 {
        app.scroll_down();
    }
    assert_eq!(app.visible_range(12), (5, 15));
    assert_eq!(app.visible_range(2), (14, 14));
    assert_eq!(app.visible_range(0), (14, 14));
    assert_eq!(app.visible_range(3), (14, 15));
    let few = app_with(3);
    assert_eq!(few.visible_range(40), (0, 3));
    assert_eq!(App::new().visible_range(40), (0, 0));
}

#[test]
fn time_of_day_has_two_digits_each() {
    assert_eq!(LogEntry::at(0, LogLevel::Info, String::new(), None).format_time(), "00:00:00");
    assert_eq!(LogEntry::at(3661, LogLevel::Info, String::new(), None).format_time(), "01:01:01");
    assert_eq!(LogEntry::at(86399, LogLevel::Info, String::new(), None).format_time(), "23:59:59");
    assert_eq!(LogEntry::at(86400, LogLevel::Info, String::new(), None).format_time(), "00:00:00");
    assert_eq!(
        LogEntry::at(1_700_000_000, LogLevel::Info, String::new(), None).format_time(),
        "22:13:20"
    );
    assert_eq!(LogEntry::at(u64::MAX, LogLevel::Info, String::new(), None).format_time(), "07:00:15");
}

#[test]
fn module_is_shown_in_brackets() {
    let e = LogEntry::at(0, LogLevel::Info, "m".to_string(), Some("http".to_string()));
    assert_eq!(e.module_text(), "[http] ");
    assert_eq!(entry("m").module_text(), "");
}

#[test]
fn levels_have_signs_and_colours() {
    assert_eq!(LogLevel::Info.symbol(), "ℹ");
    assert_eq!(LogLevel::Warn.symbol(), "⚠");
    assert_eq!(LogLevel::Error.symbol(), "✗");
    assert_eq!(LogLevel::Debug.symbol(), "🔍");
    assert_eq!(LogLevel::Trace.symbol(), "→");
    assert_eq!(LogLevel::Info.color(), Tint::Cyan);
    assert_eq!(LogLevel::Warn.color(), Tint::Yellow);
    assert_eq!(LogLevel::Error.color(), Tint::Red);
    assert_eq!(LogLevel::Debug.color(), Tint::Magenta);
    assert_eq!(LogLevel::Trace.color(), Tint::Gray);
}

#[test]
fn status_decides_the_level() {
    assert_eq!(level_for_status(200), LogLevel::Info);
    assert_eq!(level_for_status(299), LogLevel::Info);
    assert_eq!(level_for_status(404), LogLevel::Warn);
    assert_eq!(level_for_status(410), LogLevel::Warn);
    assert_eq!(level_for_status(500), LogLevel::Error);
    assert_eq!(level_for_status(599), LogLevel::Error);
    assert_eq!(level_for_status(302), LogLevel::Debug);
    assert_eq!(level_for_status(100), LogLevel::Debug);
    assert_eq!(level_for_status(600), LogLevel::Debug);
}

#[test]
fn contains_text_finds_a_part() {
    assert!(contains_text("GET /api/upload 200", "upload"));
    assert!(contains_text("upload", "upload"));
    assert!(contains_text("xxupload", "upload"));
    assert!(contains_text("anything", ""));
    assert!(contains_text("", ""));
    assert!(!contains_text("uploa", "upload"));
    assert!(!contains_text("up load", "upload"));
    assert!(!contains_text("", "upload"));
    assert!(contains_text("aab", "ab"));
}

#[test]
fn arriving_entries_are_counted_by_what_they_mention() {
    let mut app = App::new();
    app.receive(entry("handled request for upload"));
    app.receive(entry("download finished"));
    app.receive(entry("nothing of interest"));
    let stats = app.stats();
    assert_eq!(stats.total_requests, 1);
    assert_eq!(stats.total_uploads, 1);
    assert_eq!(stats.total_downloads, 1);
    assert_eq!(stats.active_connections, 0);
    assert_eq!(app.logs().len(), 3);
    assert_eq!(app.scroll_offset(), 2);
}

#[test]
fn uptime_is_set() {
    let mut app = app_with(2);
    app.set_uptime(77);
    assert_eq!(app.stats().uptime, 77);
    assert_eq!(app.stats().total_requests, 0);
    assert_eq!(app.scroll_offset(), 1);
}

#[test]
fn activity_covers_at_most_fifty_entries() {
    assert_eq!(App::new().activity_span(), 0);
    assert_eq!(app_with(49).activity_span(), 49);
    assert_eq!(app_with(50).activity_span(), 50);
    assert_eq!(app_with(200).activity_span(), 50);
}
