//! The colorized rendering with colors disabled for the process: the
//! colorized glyph pair appears, but no ANSI styling is emitted.

use asserting::{Asserting, Styling};

#[test]
fn scenario_colored_without_ansi() {
    console::set_colors_enabled(false);
    let a = Asserting::that("x")
        .at("f.rs", 10)
        .with_clue(&5, "x")
        .is_true(false);
    assert_eq!(a.passed(), false);
    assert_eq!(a.render(Styling::Colored), "✖ x\n  at f.rs:10\n  x = 5\n");
}

#[test]
fn passed_colored_without_ansi_is_terse() {
    console::set_colors_enabled(false);
    let a = Asserting::that("n")
        .at("f.rs", 3)
        .with_clue(&1, "a")
        .is_true(true);
    assert_eq!(a.render(Styling::Colored), "✔ n\n");
}
