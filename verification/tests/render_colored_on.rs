//! The colorized rendering with colors forced on: every piece is wrapped in
//! the color for the outcome and a reset.

use asserting::{Asserting, Styling};

#[test]
fn failed_colored_wraps_each_piece_in_red() {
    console::set_colors_enabled(true);
    let a = Asserting::that("x")
        .at("f.rs", 10)
        .with_clue(&5, "x")
        .is_true(false);
    assert_eq!(
        a.render(Styling::Colored),
        "\u{1b}[31m✖\u{1b}[0m \u{1b}[31mx\u{1b}[0m\n  \u{1b}[31mat f.rs:10\u{1b}[0m\n  \u{1b}[31mx = 5\u{1b}[0m\n"
    );
}

#[test]
fn passed_colored_wraps_status_line_in_green() {
    console::set_colors_enabled(true);
    let a = Asserting::that("n").is_true(true);
    assert_eq!(
        a.render(Styling::Colored),
        "\u{1b}[32m✔\u{1b}[0m \u{1b}[32mn\u{1b}[0m\n"
    );
}
