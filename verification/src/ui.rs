//! The decisions behind what the screens show: line colours and the window
//! of lines that a scrolled view displays.
use vstd::prelude::*;

use crate::text::{count_decimal, decimal, string_from_chars, contains, has_prefix, has_substring, slice_chars, starts_with, to_chars, trim,
    trim_bounds};

verus! {

/// Colours that the screens use for lines.
#[derive(Debug, Clone, Copy, PartialEq, Eq, Structural)]
pub enum LineColor {
    Red,
    Magenta,
    Yellow,
    Green,
    Cyan,
    DarkGray,
    White,
    LightBlue,
}

/// How a line is drawn.
#[derive(Debug, Clone, Copy, PartialEq, Eq, Structural)]
pub struct LineStyle {
    pub fg: LineColor,
    pub bold: bool,
    pub underlined: bool,
}

pub open spec fn plain(c: LineColor) -> LineStyle {
    LineStyle { fg: c, bold: false, underlined: false }
}

pub open spec fn bold(c: LineColor) -> LineStyle {
    LineStyle { fg: c, bold: true, underlined: false }
}

/// The style of a logcat line, chosen by its priority letter (` E ` or
/// `E/` and so on, most severe first); fatal and warning words count too.
pub open spec fn logcat_style(l: Seq<char>) -> LineStyle {
    if has_substring(l, " E "@) || has_substring(l, "E/"@) || has_substring(l, "Fatal"@)
        || has_substring(l, "FATAL"@) {
        bold(LineColor::Red)
    } else if has_substring(l, " F "@) || has_substring(l, "F/"@) {
        LineStyle { fg: LineColor::Magenta, bold: true, underlined: true }
    } else if has_substring(l, " W "@) || has_substring(l, "W/"@) || has_substring(l, "Warn"@)
        || has_substring(l, "WARN"@) {
        plain(LineColor::Yellow)
    } else if has_substring(l, " I "@) || has_substring(l, "I/"@) {
        plain(LineColor::Green)
    } else if has_substring(l, " D "@) || has_substring(l, "D/"@) {
        plain(LineColor::Cyan)
    } else if has_substring(l, " V "@) || has_substring(l, "V/"@) {
        plain(LineColor::DarkGray)
    } else {
        plain(LineColor::White)
    }
}

/// Whether the literal `p` occurs in `l`.
fn has(l: &Vec<char>, p: &str) -> (b: bool)
    ensures
        b == has_substring(l@, p@),
{
    let pv = to_chars(p);
    contains(l.as_slice(), pv.as_slice())
}

/// Whether `l` starts with the literal `p`.
fn begins(l: &Vec<char>, p: &str) -> (b: bool)
    ensures
        b == has_prefix(l@, p@),
{
    let pv = to_chars(p);
    starts_with(l.as_slice(), pv.as_slice())
}

/// The style in which a logcat line is drawn.
pub fn highlight_logcat_line(line: &str) -> (s: LineStyle)
    ensures
        s == logcat_style(line@),
{
    let l = to_chars(line);
    if has(&l, " E ") || has(&l, "E/") || has(&l, "Fatal") || has(&l, "FATAL") {
        LineStyle { fg: LineColor::Red, bold: true, underlined: false }
    } else if has(&l, " F ") || has(&l, "F/") {
        LineStyle { fg: LineColor::Magenta, bold: true, underlined: true }
    } else if has(&l, " W ") || has(&l, "W/") || has(&l, "Warn") || has(&l, "WARN") {
        LineStyle { fg: LineColor::Yellow, bold: false, underlined: false }
    } else if has(&l, " I ") || has(&l, "I/") {
        LineStyle { fg: LineColor::Green, bold: false, underlined: false }
    } else if has(&l, " D ") || has(&l, "D/") {
        LineStyle { fg: LineColor::Cyan, bold: false, underlined: false }
    } else if has(&l, " V ") || has(&l, "V/") {
        LineStyle { fg: LineColor::DarkGray, bold: false, underlined: false }
    } else {
        LineStyle { fg: LineColor::White, bold: false, underlined: false }
    }
}

/// The style of a line of Gradle output, by what its trimmed text starts
/// with or contains.
pub open spec fn gradle_style(line: Seq<char>) -> LineStyle {
    let t = trim(line);
    if has_prefix(t, "> Task :"@) {
        bold(LineColor::Cyan)
    } else if has_substring(t, "BUILD SUCCESSFUL"@) || has_prefix(t, "✔"@) {
        bold(LineColor::Green)
    } else if has_substring(t, "BUILD FAILED"@) || has_prefix(t, "FAILURE:"@) || has_prefix(
        t,
        "ERROR:"@,
    ) || has_prefix(t, "✘"@) {
        bold(LineColor::Red)
    } else if has_prefix(t, "WARNING:"@) || has_substring(t, "warning:"@) {
        plain(LineColor::Yellow)
    } else if has_prefix(t, "$ ./gradlew"@) {
        bold(LineColor::Magenta)
    } else if has_prefix(t, ">>>"@) {
        plain(LineColor::Yellow)
    } else {
        plain(LineColor::White)
    }
}

/// The style in which a line of Gradle output is drawn.
pub fn highlight_gradle_line(line: &str) -> (s: LineStyle)
    ensures
        s == gradle_style(line@),
{
    let all = to_chars(line);
    let (a, b) = trim_bounds(all.as_slice());
    let t = slice_chars(all.as_slice(), a, b);
    if begins(&t, "> Task :") {
        LineStyle { fg: LineColor::Cyan, bold: true, underlined: false }
    } else if has(&t, "BUILD SUCCESSFUL") || begins(&t, "✔") {
        LineStyle { fg: LineColor::Green, bold: true, underlined: false }
    } else if has(&t, "BUILD FAILED") || begins(&t, "FAILURE:") || begins(&t, "ERROR:") || begins(
        &t,
        "✘",
    ) {
        LineStyle { fg: LineColor::Red, bold: true, underlined: false }
    } else if begins(&t, "WARNING:") || has(&t, "warning:") {
        LineStyle { fg: LineColor::Yellow, bold: false, underlined: false }
    } else if begins(&t, "$ ./gradlew") {
        LineStyle { fg: LineColor::Magenta, bold: true, underlined: false }
    } else if begins(&t, ">>>") {
        LineStyle { fg: LineColor::Yellow, bold: false, underlined: false }
    } else {
        LineStyle { fg: LineColor::White, bold: false, underlined: false }
    }
}

/// The colour of a line of the activity log, if it gets one.
pub open spec fn status_color(l: Seq<char>) -> Option<LineColor> {
    if has_substring(l, "succeeded"@) || has_substring(l, "successfully"@) {
        Some(LineColor::Green)
    } else if has_substring(l, "error"@) || has_substring(l, "failed"@) || has_substring(
        l,
        "Error"@,
    ) {
        Some(LineColor::Red)
    } else if has_substring(l, "[gradle]"@) {
        Some(LineColor::LightBlue)
    } else {
        None
    }
}

/// The colour in which a line of the activity log is drawn.
pub fn status_line_color(line: &str) -> (c: Option<LineColor>)
    ensures
        c == status_color(line@),
{
    let l = to_chars(line);
    if has(&l, "succeeded") || has(&l, "successfully") {
        Some(LineColor::Green)
    } else if has(&l, "error") || has(&l, "failed") || has(&l, "Error") {
        Some(LineColor::Red)
    } else if has(&l, "[gradle]") {
        Some(LineColor::LightBlue)
    } else {
        None
    }
}

/// The lines `start..end` that a view of `total` lines shows when scrolled
/// to `offset` with room for `height` lines: the window ends at the offset
/// (at least at the first line, at most at the last).
pub open spec fn window(total: int, offset: int, height: int) -> (int, int) {
    if total == 0 {
        (0, 0)
    } else {
        let end = if offset < 1 {
            1
        } else if offset > total {
            total
        } else {
            offset
        };
        (if end >= height {
            end - height
        } else {
            0
        }, end)
    }
}

/// The range of lines a scrolled view shows.
pub fn view_window(total: usize, offset: usize, height: usize) -> (r: (usize, usize))
    ensures
        (r.0 as int, r.1 as int) == window(total as int, offset as int, height as int),
        r.0 <= r.1 <= total,
{
    if total == 0 {
        return (0, 0);
    }
    let end = if offset < 1 {
        1
    } else if offset > total {
        total
    } else {
        offset
    };
    (end.saturating_sub(height), end)
}

/// Minutes and seconds that a task started at `started_at_ms` has run at
/// `now_ms` (none before it started).
pub fn running_clock(started_at_ms: u64, now_ms: u64) -> (r: (u64, u64))
    ensures
        ({
            let secs = if now_ms >= started_at_ms {
                (now_ms - started_at_ms) / 1000
            } else {
                0
            };
            r.0 == secs / 60 && r.1 == secs % 60
        }),
{
    let secs = now_ms.saturating_sub(started_at_ms) / 1000;
    (secs / 60, secs % 60)
}

/// The first of the last `height` lines of `total` (the activity log shows
/// its newest lines).
pub fn tail_start(total: usize, height: usize) -> (r: usize)
    ensures
        r == if total > height {
            total - height
        } else {
            0
        },
{
    total.saturating_sub(height)
}

/// The name shown for a device in the tabs of the logs screen: its model
/// when known, else its serial.
pub open spec fn tab_name(model: Option<Seq<char>>, serial: Seq<char>) -> Seq<char> {
    match model {
        Some(m) => m,
        None => serial,
    }
}

/// The name of a device's log tab.
pub fn device_tab_name(model: &Option<String>, serial: &str) -> (s: String)
    ensures
        s@ == tab_name(crate::model::opt_view(*model), serial@),
{
    match model {
        Some(m) => m.clone(),
        None => serial.to_owned(),
    }
}

/// The number that the `index`-th log tab is labelled with: `[n] `, counting
/// from one.
pub fn tab_number_label(index: usize) -> (s: String)
    requires
        index < usize::MAX,
    ensures
        s@ == "["@ + decimal((index + 1) as nat) + "] "@,
{
    let digits = count_decimal(index + 1);
    "[".to_owned().concat(string_from_chars(digits.as_slice()).as_str()).concat("] ")
}

/// The marker of a log tab: a filled dot in green while the device's stream
/// runs, a hollow grey one otherwise.
pub fn stream_marker(streaming: bool) -> (r: (String, LineColor))
    ensures
        r.0@ == (if streaming {
            "●"@
        } else {
            "○"@
        }),
        r.1 == (if streaming {
            LineColor::Green
        } else {
            LineColor::DarkGray
        }),
{
    if streaming {
        ("●".to_owned(), LineColor::Green)
    } else {
        ("○".to_owned(), LineColor::DarkGray)
    }
}

/// How many lines an active filter lets through:
/// `(Matched <shown> / <total> lines)`.
pub fn match_summary(shown: usize, total: usize) -> (s: String)
    ensures
        s@ == "(Matched "@ + decimal(shown as nat) + " / "@ + decimal(total as nat) + " lines)"@,
{
    let a = count_decimal(shown);
    let b = count_decimal(total);
    "(Matched ".to_owned().concat(string_from_chars(a.as_slice()).as_str()).concat(" / ").concat(
        string_from_chars(b.as_slice()).as_str(),
    ).concat(" lines)")
}

} // verus!
