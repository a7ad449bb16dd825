use ast::ui::{
    highlight_gradle_line, highlight_logcat_line, running_clock, status_line_color, tail_start,
    view_window, LineColor, LineStyle,
};

#[test]
fn test_highlight_logcat_line() {
    let error_line =
        highlight_logcat_line("09-17 12:00:00.001 123 456 E AndroidRuntime: FATAL EXCEPTION");
    assert_eq!(error_line.fg, LineColor::Red);

    let warn_line =
        highlight_logcat_line("09-17 12:00:00.001 123 456 W System: Low memory warning");
    assert_eq!(warn_line.fg, LineColor::Yellow);

    let debug_line = highlight_logcat_line("09-17 12:00:00.001 123 456 D App: Initialized");
    assert_eq!(debug_line.fg, LineColor::Cyan);
}

#[test]
fn logcat_styles_by_priority() {
    assert_eq!(
        highlight_logcat_line("E/AndroidRuntime: boom"),
        LineStyle { fg: LineColor::Red, bold: true, underlined: false }
    );
    assert_eq!(
        highlight_logcat_line("09-17 1 2 F libc: abort"),
        LineStyle { fg: LineColor::Magenta, bold: true, underlined: true }
    );
    assert_eq!(highlight_logcat_line("I/ActivityManager: start").fg, LineColor::Green);
    assert_eq!(highlight_logcat_line("V/Chatty: noise").fg, LineColor::DarkGray);
    assert_eq!(highlight_logcat_line("plain text").fg, LineColor::White);
    // the error test comes first: a fatal word wins over a warning letter
    assert_eq!(highlight_logcat_line(" W Fatal").fg, LineColor::Red);
}

#[test]
fn gradle_line_styles() {
    assert_eq!(
        highlight_gradle_line("  > Task :app:compileDebugKotlin"),
        LineStyle { fg: LineColor::Cyan, bold: true, underlined: false }
    );
    assert_eq!(highlight_gradle_line("BUILD SUCCESSFUL in 3s").fg, LineColor::Green);
    assert_eq!(highlight_gradle_line("✔ done").fg, LineColor::Green);
    assert_eq!(highlight_gradle_line("BUILD FAILED in 2s").fg, LineColor::Red);
    assert_eq!(highlight_gradle_line("FAILURE: Build failed").fg, LineColor::Red);
    assert_eq!(highlight_gradle_line("e: something warning: x").fg, LineColor::Yellow);
    assert_eq!(
        highlight_gradle_line("$ ./gradlew assembleDebug"),
        LineStyle { fg: LineColor::Magenta, bold: true, underlined: false }
    );
    assert_eq!(
        highlight_gradle_line(">>> Building"),
        LineStyle { fg: LineColor::Yellow, bold: false, underlined: false }
    );
    assert_eq!(highlight_gradle_line("Configuration cache").fg, LineColor::White);
}

#[test]
fn status_line_colors() {
    assert_eq!(status_line_color("Build succeeded"), Some(LineColor::Green));
    assert_eq!(status_line_color("adb error: no device"), Some(LineColor::Red));
    assert_eq!(status_line_color("launch failed"), Some(LineColor::Red));
    assert_eq!(status_line_color("[gradle] Sync started"), Some(LineColor::LightBlue));
    assert_eq!(status_line_color("Refreshing devices"), None);
}

#[test]
fn view_window_cases() {
    assert_eq!(view_window(0, 5, 10), (0, 0));
    assert_eq!(view_window(50, 50, 10), (40, 50));
    assert_eq!(view_window(50, 0, 10), (0, 1));
    assert_eq!(view_window(50, 80, 10), (40, 50));
    assert_eq!(view_window(50, 5, 10), (0, 5));
}

#[test]
fn clocks_and_tails() {
    assert_eq!(running_clock(1_000, 126_500), (2, 5));
    assert_eq!(running_clock(5_000, 1_000), (0, 0));
    assert_eq!(tail_start(10, 4), 6);
    assert_eq!(tail_start(3, 8), 0);
}
