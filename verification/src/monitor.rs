//! The state behind the operator's monitor.
//!
//! The monitor shows the most recent log entries on one of three tabs and a
//! few counters on another. What is kept, which part of it is on screen and
//! how a key changes that is decided here; drawing is the caller's part.

use crate::text::{chars_of, push_chars};
use vstd::prelude::*;
use vstd::string::StringExecFns;

verus! {

/// How serious a log entry is.
#[derive(Debug, Clone, Copy, PartialEq, Eq, Structural)]
pub enum LogLevel {
    Info,
    Warn,
    Error,
    Debug,
    Trace,
}

/// The colours in which levels are shown.
#[derive(Debug, Clone, Copy, PartialEq, Eq, Structural)]
pub enum Tint {
    Cyan,
    Yellow,
    Red,
    Magenta,
    Gray,
}

/// A key as the monitor sees it.
#[derive(Debug, Clone, Copy, PartialEq, Eq, Structural)]
pub enum Key {
    Char(char),
    Esc,
    Tab,
    BackTab,
    Up,
    Down,
    PageUp,
    PageDown,
    Home,
    End,
    Other,
}

/// One log entry.
#[derive(Debug, Clone, PartialEq, Eq)]
pub struct LogEntry {
    /// When the entry was made, in seconds since the Unix epoch.
    pub timestamp: u64,
    pub level: LogLevel,
    pub message: String,
    /// The part of the service that made the entry.
    pub module: Option<String>,
}

/// The counters of the monitor.
#[derive(Debug, Clone, Copy, PartialEq, Eq, Structural)]
pub struct Stats {
    pub total_requests: u64,
    pub active_connections: u64,
    pub total_uploads: u64,
    pub total_downloads: u64,
    /// Seconds since the monitor started.
    pub uptime: u64,
}

/// The state of the monitor.
pub struct App {
    logs: Vec<LogEntry>,
    selected_tab: usize,
    scroll_offset: usize,
    stats: Stats,
}

/// The state of the monitor as plain values.
pub struct AppView {
    /// The entries kept, the oldest first.
    pub logs: Seq<LogEntry>,
    pub selected_tab: int,
    pub scroll_offset: int,
    pub stats: Stats,
}

/// How many entries are kept at most.
pub const LOG_CAPACITY: usize = 1000;

/// How many tabs the monitor has.
pub const TAB_COUNT: usize = 3;

/// How many lines a page key scrolls.
pub const PAGE_LINES: usize = 10;

/// How many entries the activity chart covers at most.
pub const ACTIVITY_SPAN: usize = 50;

/// The sign shown for a level.
pub open spec fn symbol_of(level: LogLevel) -> Seq<char> {
    match level {
        LogLevel::Info => "ℹ"@,
        LogLevel::Warn => "⚠"@,
        LogLevel::Error => "✗"@,
        LogLevel::Debug => "🔍"@,
        LogLevel::Trace => "→"@,
    }
}

/// The colour in which a level is shown.
pub open spec fn tint_of(level: LogLevel) -> Tint {
    match level {
        LogLevel::Info => Tint::Cyan,
        LogLevel::Warn => Tint::Yellow,
        LogLevel::Error => Tint::Red,
        LogLevel::Debug => Tint::Magenta,
        LogLevel::Trace => Tint::Gray,
    }
}

/// The level at which a response with the given status is logged: success as
/// information, a client's error as a warning, a server's error as an error,
/// anything else for debugging.
pub open spec fn level_of_status(status: int) -> LogLevel {
    if 200 <= status < 300 {
        LogLevel::Info
    } else if 400 <= status < 500 {
        LogLevel::Warn
    } else if 500 <= status < 600 {
        LogLevel::Error
    } else {
        LogLevel::Debug
    }
}

/// The character of a decimal digit.
pub open spec fn digit_of(d: int) -> char {
    seq!['0', '1', '2', '3', '4', '5', '6', '7', '8', '9'][d]
}

/// A number below one hundred in two digits.
pub open spec fn two_digits(n: int) -> Seq<char> {
    seq![digit_of(n / 10), digit_of(n % 10)]
}

/// The time of day of a point in time, as hours, minutes and seconds of two
/// digits each with colons between them.
pub open spec fn clock_text(seconds: int) -> Seq<char> {
    two_digits((seconds / 3600) % 24) + seq![':'] + two_digits((seconds / 60) % 60) + seq![':']
        + two_digits(seconds % 60)
}

/// How an entry's module is shown in front of its message: in square brackets
/// and followed by a space, or not at all.
pub open spec fn module_label(module: Option<Seq<char>>) -> Seq<char> {
    match module {
        Some(m) => seq!['['] + m + seq![']', ' '],
        None => Seq::empty(),
    }
}

/// Whether `pattern` occurs somewhere in `text`.
pub open spec fn occurs(text: Seq<char>, pattern: Seq<char>) -> bool {
    exists|i: int| occurs_at(text, pattern, i)
}

/// Whether `pattern` occurs in `text` at the position `i`.
pub open spec fn occurs_at(text: Seq<char>, pattern: Seq<char>, i: int) -> bool {
    0 <= i && i + pattern.len() <= text.len() && text.subrange(i, i + pattern.len()) == pattern
}

/// The last `capacity` of the given items, or all of them if they are fewer.
pub open spec fn last_of<T>(items: Seq<T>, capacity: int) -> Seq<T> {
    if items.len() > capacity {
        items.skip(items.len() - capacity)
    } else {
        items
    }
}

/// The position of the last of `count` lines, or 0 where there is none.
pub open spec fn last_line(count: int) -> int {
    if count == 0 {
        0
    } else {
        count - 1
    }
}

/// A counter after one more event. It stops at the largest value.
pub open spec fn bumped(count: u64, hit: bool) -> u64 {
    if hit && count < u64::MAX {
        (count + 1) as u64
    } else {
        count
    }
}

/// The counters after an entry with the given message has arrived: a message
/// that mentions requests, uploads or downloads counts as one of each that it
/// mentions.
pub open spec fn counted(stats: Stats, message: Seq<char>) -> Stats {
    Stats {
        total_requests: bumped(stats.total_requests, occurs(message, "request"@)),
        total_uploads: bumped(stats.total_uploads, occurs(message, "upload"@)),
        total_downloads: bumped(stats.total_downloads, occurs(message, "download"@)),
        ..stats
    }
}

/// What holds of every state of the monitor: one of the three tabs is
/// selected, no more entries are kept than the capacity allows, and the
/// scroll position is on one of the entries, or 0 where there is none.
pub open spec fn valid(v: AppView) -> bool {
    &&& 0 <= v.selected_tab < TAB_COUNT
    &&& v.logs.len() <= LOG_CAPACITY
    &&& 0 <= v.scroll_offset <= last_line(v.logs.len() as int)
}

/// The state after an entry has been added: the entry is the newest, only
/// the newest entries are kept, and the scroll position is on the newest.
pub open spec fn with_log(v: AppView, entry: LogEntry) -> AppView {
    let kept = last_of(v.logs.push(entry), LOG_CAPACITY as int);
    AppView { logs: kept, scroll_offset: last_line(kept.len() as int), ..v }
}

/// The state after one line up.
pub open spec fn scrolled_up(v: AppView) -> AppView {
    if v.scroll_offset > 0 {
        AppView { scroll_offset: v.scroll_offset - 1, ..v }
    } else {
        v
    }
}

/// The state after one line down.
pub open spec fn scrolled_down(v: AppView) -> AppView {
    if v.scroll_offset < last_line(v.logs.len() as int) {
        AppView { scroll_offset: v.scroll_offset + 1, ..v }
    } else {
        v
    }
}

/// The state after `lines` lines up.
pub open spec fn paged_up(v: AppView, lines: int) -> AppView {
    AppView {
        scroll_offset: if v.scroll_offset >= lines {
            v.scroll_offset - lines
        } else {
            0
        },
        ..v
    }
}

/// The state after `lines` lines down.
pub open spec fn paged_down(v: AppView, lines: int) -> AppView {
    AppView {
        scroll_offset: if v.scroll_offset + lines <= last_line(v.logs.len() as int) {
            v.scroll_offset + lines
        } else if v.scroll_offset <= last_line(v.logs.len() as int) {
            last_line(v.logs.len() as int)
        } else {
            v.scroll_offset
        },
        ..v
    }
}

/// The state after a key.
pub open spec fn after_key(v: AppView, key: Key) -> AppView {
    match key {
        Key::Tab => AppView { selected_tab: (v.selected_tab + 1) % (TAB_COUNT as int), ..v },
        Key::BackTab => AppView {
            selected_tab: if v.selected_tab > 0 {
                v.selected_tab - 1
            } else {
                TAB_COUNT - 1
            },
            ..v
        },
        Key::Up => scrolled_up(v),
        Key::Down => scrolled_down(v),
        Key::PageUp => paged_up(v, PAGE_LINES as int),
        Key::PageDown => paged_down(v, PAGE_LINES as int),
        Key::Home => AppView { scroll_offset: 0, ..v },
        Key::End => AppView { scroll_offset: last_line(v.logs.len() as int), ..v },
        _ => v,
    }
}

/// Whether a key ends the monitor: `q` and escape do.
pub open spec fn quits(key: Key) -> bool {
    key == Key::Char('q') || key == Key::Esc
}

/// The entries on screen: the positions from the first of the pair up to,
/// but not including, the second. The area has a border of one line above
/// and below; the entry at the scroll position is the last on screen, as far
/// as there are entries before it to fill the area.
pub open spec fn window(v: AppView, area_height: int) -> (int, int) {
    let lines = if area_height >= 2 {
        area_height - 2
    } else {
        0
    };
    let back = if lines >= 1 {
        lines - 1
    } else {
        0
    };
    let start = if v.scroll_offset >= back {
        v.scroll_offset - back
    } else {
        0
    };
    let end = if start + lines <= v.logs.len() {
        start + lines
    } else {
        v.logs.len() as int
    };
    (start, end)
}

/// The present time in seconds since the Unix epoch, or 0 for a clock that
/// stands before it: `SystemTime::now`, made a number. Nothing is known of
/// the result.
#[verifier::external_body]
fn unix_seconds() -> u64 {
    std::time::SystemTime::now().duration_since(std::time::UNIX_EPOCH).map_or(0, |d| d.as_secs())
}

/// The character of a decimal digit.
fn digit_char(d: u64) -> (c: char)
    requires
        d < 10,
    ensures
        c == digit_of(d as int),
{
    if d == 0 {
        '0'
    } else if d == 1 {
        '1'
    } else if d == 2 {
        '2'
    } else if d == 3 {
        '3'
    } else if d == 4 {
        '4'
    } else if d == 5 {
        '5'
    } else if d == 6 {
        '6'
    } else if d == 7 {
        '7'
    } else if d == 8 {
        '8'
    } else {
        '9'
    }
}

/// Appends a number below one hundred in two digits.
fn push_two_digits(out: &mut String, n: u64)
    requires
        n < 100,
    ensures
        final(out)@ == old(out)@ + two_digits(n as int),
{
    out.push(digit_char(n / 10));
    out.push(digit_char(n % 10));
    assert(out@ =~= old(out)@ + two_digits(n as int));
}

/// Whether `pattern` occurs in `text` at the position `i`.
fn found_at(text: &Vec<char>, pattern: &Vec<char>, i: usize) -> (r: bool)
    requires
        i + pattern.len() <= text.len(),
    ensures
        r == occurs_at(text@, pattern@, i as int),
{
    let mut k: usize = 0;
    while k < pattern.len()
        invariant
            k <= pattern.len(),
            i + pattern.len() <= text.len(),
            forall|j: int| 0 <= j < k ==> text@[i + j] == pattern@[j],
        decreases pattern.len() - k,
    {
        if text[i + k] != pattern[k] {
            assert(text@.subrange(i as int, i + pattern@.len())[k as int] != pattern@[k as int]);
            return false;
        }
        k += 1;
    }
    assert(text@.subrange(i as int, i + pattern@.len()) =~= pattern@);
    true
}

/// Whether `pattern` occurs somewhere in `text`.
pub fn contains_text(text: &str, pattern: &str) -> (r: bool)
    ensures
        r == occurs(text@, pattern@),
{
    let t = chars_of(text);
    let p = chars_of(pattern);
    if p.len() > t.len() {
        assert forall|i: int| !occurs_at(t@, p@, i) by {}
        return false;
    }
    let last = t.len() - p.len();
    let mut i: usize = 0;
    loop
        invariant
            i <= last,
            last == t.len() - p.len(),
            p.len() <= t.len(),
            t@ == text@,
            p@ == pattern@,
            forall|j: int| 0 <= j < i ==> !occurs_at(t@, p@, j),
        decreases last - i,
    {
        if found_at(&t, &p, i) {
            return true;
        }
        if i == last {
            assert forall|j: int| !occurs_at(t@, p@, j) by {}
            return false;
        }
        i += 1;
    }
}

/// Keeps the last `capacity` of the entries and drops the older ones.
pub fn keep_last(logs: &mut Vec<LogEntry>, capacity: usize)
    ensures
        final(logs)@ == last_of(old(logs)@, capacity as int),
{
    while logs.len() > capacity
        invariant
            logs@.len() <= old(logs)@.len(),
            logs@ == old(logs)@.skip(old(logs)@.len() - logs@.len()),
            old(logs)@.len() > capacity || logs@ == old(logs)@,
            old(logs)@.len() > capacity ==> logs@.len() >= capacity,
        decreases logs.len(),
    {
        let ghost before = logs@;
        logs.remove(0);
        assert(logs@ =~= old(logs)@.skip(old(logs)@.len() - logs@.len()));
    }
    assert(old(logs)@.skip(0) =~= old(logs)@);
}

/// The level at which a response with the given status is logged.
pub fn level_for_status(status: u16) -> (level: LogLevel)
    ensures
        level == level_of_status(status as int),
{
    if 200 <= status && status < 300 {
        LogLevel::Info
    } else if 400 <= status && status < 500 {
        LogLevel::Warn
    } else if 500 <= status && status < 600 {
        LogLevel::Error
    } else {
        LogLevel::Debug
    }
}

impl LogLevel {
    /// The colour in which the level is shown.
    pub fn color(&self) -> (tint: Tint)
        ensures
            tint == tint_of(*self),
    {
        match self {
            LogLevel::Info => Tint::Cyan,
            LogLevel::Warn => Tint::Yellow,
            LogLevel::Error => Tint::Red,
            LogLevel::Debug => Tint::Magenta,
            LogLevel::Trace => Tint::Gray,
        }
    }

    /// The sign shown for the level.
    pub fn symbol(&self) -> (sign: &'static str)
        ensures
            sign@ == symbol_of(*self),
    {
        match self {
            LogLevel::Info => "ℹ",
            LogLevel::Warn => "⚠",
            LogLevel::Error => "✗",
            LogLevel::Debug => "🔍",
            LogLevel::Trace => "→",
        }
    }
}

impl LogEntry {
    /// An entry made at the given time.
    pub fn at(timestamp: u64, level: LogLevel, message: String, module: Option<String>) -> (entry:
        Self)
        ensures
            entry.timestamp == timestamp,
            entry.level == level,
            entry.message == message,
            entry.module == module,
    {
        LogEntry { timestamp, level, message, module }
    }

    /// An entry made now.
    pub fn new(level: LogLevel, message: String, module: Option<String>) -> (entry: Self)
        ensures
            entry.level == level,
            entry.message == message,
            entry.module == module,
    {
        LogEntry::at(unix_seconds(), level, message, module)
    }

    /// The time of day at which the entry was made.
    pub fn format_time(&self) -> (text: String)
        ensures
            text@ == clock_text(self.timestamp as int),
    {
        let secs = self.timestamp;
        let mut text = String::new();
        push_two_digits(&mut text, (secs / 3600) % 24);
        text.push(':');
        push_two_digits(&mut text, (secs / 60) % 60);
        text.push(':');
        push_two_digits(&mut text, secs % 60);
        assert(text@ =~= clock_text(self.timestamp as int));
        text
    }

    /// The entry's module as it is shown in front of the message.
    pub fn module_text(&self) -> (text: String)
        ensures
            text@ == module_label(
                match self.module {
                    Some(m) => Some(m@),
                    None => None,
                },
            ),
    {
        let mut text = String::new();
        match &self.module {
            Some(m) => {
                text.push('[');
                text.append(m.as_str());
                text.push(']');
                text.push(' ');
                assert(text@ =~= seq!['['] + m@ + seq![']', ' ']);
            },
            None => {},
        }
        text
    }
}

impl Stats {
    /// All counters at 0.
    pub fn new() -> (stats: Self)
        ensures
            stats == (Stats {
                total_requests: 0,
                active_connections: 0,
                total_uploads: 0,
                total_downloads: 0,
                uptime: 0,
            }),
    {
        Stats {
            total_requests: 0,
            active_connections: 0,
            total_uploads: 0,
            total_downloads: 0,
            uptime: 0,
        }
    }
}

/// A counter after one more event, if there was one.
fn bump(count: u64, hit: bool) -> (r: u64)
    ensures
        r == bumped(count, hit),
{
    if hit && count < u64::MAX {
        count + 1
    } else {
        count
    }
}

impl View for App {
    type V = AppView;

    closed spec fn view(&self) -> AppView {
        AppView {
            logs: self.logs@,
            selected_tab: self.selected_tab as int,
            scroll_offset: self.scroll_offset as int,
            stats: self.stats,
        }
    }
}

impl App {
    #[verifier::type_invariant]
    spec fn kept_in_bounds(&self) -> bool {
        &&& self.selected_tab < TAB_COUNT
        &&& self.logs@.len() <= LOG_CAPACITY
        &&& self.scroll_offset <= last_line(self.logs@.len() as int)
    }

    /// A monitor without entries, on the first tab.
    pub fn new() -> (app: Self)
        ensures
            app@ == (AppView {
                logs: Seq::empty(),
                selected_tab: 0,
                scroll_offset: 0,
                stats: Stats {
                    total_requests: 0,
                    active_connections: 0,
                    total_uploads: 0,
                    total_downloads: 0,
                    uptime: 0,
                },
            }),
            valid(app@),
    {
        App { logs: Vec::new(), selected_tab: 0, scroll_offset: 0, stats: Stats::new() }
    }

    /// The entries kept, the oldest first.
    pub fn logs(&self) -> (logs: &Vec<LogEntry>)
        ensures
            logs@ == self@.logs,
            logs@.len() <= LOG_CAPACITY,
    {
        proof {
            use_type_invariant(self);
        }
        &self.logs
    }

    /// The selected tab: 0, 1 or 2.
    pub fn selected_tab(&self) -> (tab: usize)
        ensures
            tab == self@.selected_tab,
            tab < TAB_COUNT,
    {
        proof {
            use_type_invariant(self);
        }
        self.selected_tab
    }

    /// The scroll position.
    pub fn scroll_offset(&self) -> (offset: usize)
        ensures
            offset == self@.scroll_offset,
            valid(self@),
    {
        proof {
            use_type_invariant(self);
        }
        self.scroll_offset
    }

    /// The counters.
    pub fn stats(&self) -> (stats: Stats)
        ensures
            stats == self@.stats,
    {
        self.stats
    }

    /// Sets the time since the monitor started.
    pub fn set_uptime(&mut self, seconds: u64)
        ensures
            final(self)@ == (AppView {
                stats: Stats { uptime: seconds, ..old(self)@.stats },
                ..old(self)@
            }),
    {
        proof {
            use_type_invariant(&*self);
        }
        self.stats.uptime = seconds;
    }

    /// Adds an entry as the newest. Only the newest entries are kept, and the
    /// scroll position moves to the new entry.
    pub fn add_log(&mut self, entry: LogEntry)
        ensures
            final(self)@ == with_log(old(self)@, entry),
            valid(final(self)@),
    {
        proof {
            use_type_invariant(&*self);
        }
        self.scroll_offset = 0;
        let mut logs: Vec<LogEntry> = Vec::new();
        std::mem::swap(&mut self.logs, &mut logs);
        logs.push(entry);
        keep_last(&mut logs, LOG_CAPACITY);
        let count = logs.len();
        std::mem::swap(&mut self.logs, &mut logs);
        self.scroll_offset = if count == 0 {
            0
        } else {
            count - 1
        };
    }

    /// Takes in an entry that has arrived: the counters count what its
    /// message mentions, and the entry is added.
    pub fn receive(&mut self, entry: LogEntry)
        ensures
            final(self)@ == with_log(
                AppView { stats: counted(old(self)@.stats, entry.message@), ..old(self)@ },
                entry,
            ),
            valid(final(self)@),
    {
        proof {
            use_type_invariant(&*self);
        }
        let message = entry.message.as_str();
        let requests = bump(self.stats.total_requests, contains_text(message, "request"));
        let uploads = bump(self.stats.total_uploads, contains_text(message, "upload"));
        let downloads = bump(self.stats.total_downloads, contains_text(message, "download"));
        self.stats.total_requests = requests;
        self.stats.total_uploads = uploads;
        self.stats.total_downloads = downloads;
        self.add_log(entry);
    }

    /// Selects the next tab; after the last comes the first.
    pub fn next_tab(&mut self)
        ensures
            final(self)@ == after_key(old(self)@, Key::Tab),
            valid(final(self)@),
    {
        proof {
            use_type_invariant(&*self);
        }
        self.selected_tab = (self.selected_tab + 1) % TAB_COUNT;
    }

    /// Selects the previous tab; before the first comes the last.
    pub fn previous_tab(&mut self)
        ensures
            final(self)@ == after_key(old(self)@, Key::BackTab),
            valid(final(self)@),
    {
        proof {
            use_type_invariant(&*self);
        }
        if self.selected_tab > 0 {
            self.selected_tab -= 1;
        } else {
            self.selected_tab = TAB_COUNT - 1;
        }
    }

    /// Scrolls one line up, unless the first line is reached.
    pub fn scroll_up(&mut self)
        ensures
            final(self)@ == scrolled_up(old(self)@),
            valid(final(self)@),
    {
        proof {
            use_type_invariant(&*self);
        }
        if self.scroll_offset > 0 {
            self.scroll_offset -= 1;
        }
    }

    /// Scrolls one line down, unless the last line is reached.
    pub fn scroll_down(&mut self)
        ensures
            final(self)@ == scrolled_down(old(self)@),
            valid(final(self)@),
    {
        proof {
            use_type_invariant(&*self);
        }
        let last = if self.logs.len() == 0 {
            0
        } else {
            self.logs.len() - 1
        };
        if self.scroll_offset < last {
            self.scroll_offset += 1;
        }
    }

    /// Handles a key and says whether it ends the monitor. `q` and escape end
    /// it; the tab keys change the tab; the arrow keys scroll by a line, the
    /// page keys by ten lines, and the home and end keys to the first and
    /// the last entry. Every other key changes nothing.
    pub fn handle_key(&mut self, key: Key) -> (quit: bool)
        ensures
            quit == quits(key),
            final(self)@ == after_key(old(self)@, key),
            valid(final(self)@),
    {
        proof {
            use_type_invariant(&*self);
        }
        match key {
            Key::Char(c) => {
                return c == 'q';
            },
            Key::Esc => {
                return true;
            },
            Key::Tab => {
                self.next_tab();
            },
            Key::BackTab => {
                self.previous_tab();
            },
            Key::Up => {
                self.scroll_up();
            },
            Key::Down => {
                self.scroll_down();
            },
            Key::PageUp => {
                let mut n: usize = 0;
                while n < PAGE_LINES
                    invariant
                        n <= PAGE_LINES,
                        self@ == paged_up(old(self)@, n as int),
                        valid(old(self)@),
                    decreases PAGE_LINES - n,
                {
                    self.scroll_up();
                    n += 1;
                }
            },
            Key::PageDown => {
                let mut n: usize = 0;
                while n < PAGE_LINES
                    invariant
                        n <= PAGE_LINES,
                        self@ == paged_down(old(self)@, n as int),
                        valid(old(self)@),
                    decreases PAGE_LINES - n,
                {
                    self.scroll_down();
                    n += 1;
                }
            },
            Key::Home => {
                self.scroll_offset = 0;
            },
            Key::End => {
                self.scroll_offset = if self.logs.len() == 0 {
                    0
                } else {
                    self.logs.len() - 1
                };
            },
            Key::Other => {},
        }
        false
    }

    /// The entries on screen in an area of the given height: the positions
    /// from `start` up to, but not including, `end`.
    pub fn visible_range(&self, area_height: u16) -> (range: (usize, usize))
        ensures
            (range.0 as int, range.1 as int) == window(self@, area_height as int),
            range.0 <= range.1 <= self@.logs.len(),
    {
        proof {
            use_type_invariant(self);
        }
        let lines: usize = if area_height >= 2 {
            (area_height - 2) as usize
        } else {
            0
        };
        let back: usize = if lines >= 1 {
            lines - 1
        } else {
            0
        };
        let start: usize = if self.scroll_offset >= back {
            self.scroll_offset - back
        } else {
            0
        };
        let end: usize = if start + lines <= self.logs.len() {
            start + lines
        } else {
            self.logs.len()
        };
        (start, end)
    }

    /// How many of the newest entries the activity chart shows: all of them,
    /// up to fifty.
    pub fn activity_span(&self) -> (count: usize)
        ensures
            count == (if self@.logs.len() < ACTIVITY_SPAN {
                self@.logs.len()
            } else {
                ACTIVITY_SPAN as nat
            }),
    {
        if self.logs.len() < ACTIVITY_SPAN {
            self.logs.len()
        } else {
            ACTIVITY_SPAN
        }
    }
}

} // verus!
