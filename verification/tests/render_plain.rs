//! The plain rendering: terse on success, fully detailed on failure.

use asserting::{Asserting, Location, Styling};

#[test]
fn scenario_failed_with_location_and_clue() {
    let a = Asserting::that("x")
        .at("f.rs", 10)
        .with_clue(&5, "x")
        .is_true(false);
    assert_eq!(a.passed(), false);
    assert_eq!(a.render(Styling::Plain), "x x\n  at f.rs:10\n  x = 5\n");
}

#[test]
fn passed_render_suppresses_location_and_clues() {
    let a = Asserting::that("n")
        .at("f.rs", 3)
        .with_clue(&1, "a")
        .with_clue(&2, "b")
        .is_true(true);
    assert_eq!(a.render(Styling::Plain), "+ n\n");
}

#[test]
fn passed_render_without_attachments() {
    let a = Asserting::that("n").is_true(true);
    assert_eq!(a.render(Styling::Plain), "+ n\n");
}

#[test]
fn failed_render_has_three_indented_lines() {
    let a = Asserting::that("n")
        .at("f.rs", 1)
        .with_clue(&1, "a")
        .with_clue(&2, "b")
        .is_true(false);
    let rendered = a.render(Styling::Plain);
    let lines: Vec<&str> = rendered.lines().collect();
    assert_eq!(lines.len(), 4);
    assert_eq!(lines[0], "x n");
    assert_eq!(lines[1], "  at f.rs:1");
    assert_eq!(lines[2], "  a = 1");
    assert_eq!(lines[3], "  b = 2");
}

#[test]
fn failed_render_without_location_or_clues() {
    let a = Asserting::that("n").is_true(false);
    assert_eq!(a.render(Styling::Plain), "x n\n");
}

#[test]
fn equality_convenience_shape() {
    let a = 1;
    let b = 2;
    let mut captured = Asserting::that("a == b")
        .at("t.rs", 1)
        .is_true(a == b);
    captured.with_clue(&a, "a");
    captured.with_clue(&b, "b");
    assert_eq!(captured.passed(), false);
    assert_eq!(
        captured.render(Styling::Plain),
        "x a == b\n  at t.rs:1\n  a = 1\n  b = 2\n"
    );
}

#[test]
fn location_renders_fixed_format() {
    assert_eq!(Location::new("src/lib.rs", 42).render(), "at src/lib.rs:42");
    assert_eq!(Location::new("f", 0).render(), "at f:0");
    assert_eq!(Location::new("f", 4294967295).render(), "at f:4294967295");
}

#[test]
fn later_location_overwrites_earlier() {
    let a = Asserting::that("n")
        .at("first.rs", 1)
        .at("second.rs", 2)
        .is_true(false);
    assert_eq!(a.render(Styling::Plain), "x n\n  at second.rs:2\n");
}
