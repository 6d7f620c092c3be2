//! The builder pipeline: how the finalizing boolean decides the outcome and
//! how clues accumulate.

use asserting::{Asserting, Styling};

#[test]
fn it_works() {
    assert_eq!(2 + 2, 4);
}

#[test]
fn basic_equals() {
    let one = 1;
    let two = 2;
    let mut unequal = Asserting::that("one == two")
        .at("tests/builder.rs", 16)
        .is_true(one == two);
    unequal.with_clue(&one, "one");
    unequal.with_clue(&two, "two");
    println!("{}", unequal.render(Styling::Colored));
    let mut equal = Asserting::that("one == 1")
        .at("tests/builder.rs", 22)
        .is_true(one == 1);
    equal.with_clue(&one, "one");
    equal.with_clue(&1, "1");
    println!("{}", equal.render(Styling::Colored));
}

#[test]
fn truth_value_is_reflected() {
    assert_eq!(Asserting::that("n").is_true(true).passed(), true);
    assert_eq!(Asserting::that("n").is_true(false).passed(), false);
}

#[test]
fn clues_keep_order_and_duplicates() {
    let a = Asserting::that("sum")
        .with_clue(&1, "a")
        .with_clue(&2, "b")
        .with_clue(&1, "a")
        .is_true(false);
    assert_eq!(a.render(Styling::Plain), "x sum\n  a = 1\n  b = 2\n  a = 1\n");
}

#[test]
fn post_hoc_clue_formats_like_builder_clue() {
    let before = Asserting::that("n").with_clue(&7, "seven").is_true(false);
    let mut after = Asserting::that("n").is_true(false);
    after.with_clue(&7, "seven");
    assert_eq!(before.render(Styling::Plain), after.render(Styling::Plain));
    assert_eq!(after.render(Styling::Plain), "x n\n  seven = 7\n");
}

#[test]
fn clue_renders_debug_form() {
    let pair = (1, "two");
    let a = Asserting::that("pair").with_clue(&pair, "pair").is_true(false);
    assert_eq!(a.render(Styling::Plain), "x pair\n  pair = (1, \"two\")\n");
}
