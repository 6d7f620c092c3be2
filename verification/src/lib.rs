//! A small library for expressing test expectations: a fluent builder
//! (`Asserting`) accumulates the checked expression's text, the call site and
//! debug clues, then finalizes into an `Assertion` record whose outcome can be
//! queried and rendered as a readable, optionally colorized report.

mod assertion;
mod laws;
mod location;
mod render;
mod text;

pub use assertion::{
    Asserting, AssertingView, Assertion, AssertionView, OutcomeView, Test, spec_added_clue,
    spec_finalized, spec_located, spec_passed, spec_that, spec_with_clue,
};
pub use laws::{
    lemma_clues_in_order, lemma_failed_render_shows_details, lemma_finalize_reflects_truth,
    lemma_passed_render_colored_is_terse, lemma_passed_render_is_terse,
    lemma_post_hoc_clue_matches_builder, spec_with_clues,
};
pub use location::{Location, LocationView, spec_location_line};
pub use render::{
    Styling, csi_green, csi_red, csi_reset, spec_assembled, spec_detail_lines, spec_details,
    spec_details_painted, spec_glyph, spec_painted, spec_render_colored, spec_render_plain,
};
pub use text::{format_clue, spec_clue, spec_decimal, spec_digit};
