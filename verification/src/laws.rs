//! The laws of the assertion pipeline, stated over the library's spec-level
//! model and proved once and for all: how the finalizing boolean decides the
//! outcome, how clue lists grow, and what a rendering does and does not
//! contain for each outcome.

use vstd::prelude::*;

use crate::assertion::{
    AssertingView, AssertionView, spec_added_clue, spec_finalized, spec_passed, spec_that,
    spec_with_clue,
};
use crate::location::{LocationView, spec_location_line};
use crate::render::{
    spec_detail_lines, spec_details, spec_glyph, spec_painted, spec_render_colored,
    spec_render_plain,
};
use crate::text::spec_clue;

verus! {

/// A builder state after a whole sequence of clue attachments, each given as
/// a label and the debug rendering of its value, applied in order.
pub open spec fn spec_with_clues(
    m: AssertingView,
    entries: Seq<(Seq<char>, Seq<char>)>,
) -> AssertingView
    decreases entries.len(),
{
    if entries.len() == 0 {
        m
    } else {
        spec_with_clues(spec_with_clue(m, entries[0].0, entries[0].1), entries.drop_first())
    }
}

/// Finalizing any builder state reflects the supplied boolean: the resulting
/// assertion passed exactly when the boolean was true, whatever name,
/// location or clues had accumulated. In particular, for every `b`,
/// `Asserting::that(n).is_true(b).passed() == b`.
pub proof fn lemma_finalize_reflects_truth(m: AssertingView, value: bool)
    ensures
        spec_passed(spec_finalized(m, value)) == value,
        spec_passed(spec_finalized(spec_that(m.name), value)) == value,
{
}

/// A sequence of clue attachments leaves the name and location alone and
/// appends exactly one line `"<label> = <rendering>"` per attachment, in
/// attachment order and without deduplication.
pub proof fn lemma_clues_in_order(m: AssertingView, entries: Seq<(Seq<char>, Seq<char>)>)
    ensures
        spec_with_clues(m, entries).name == m.name,
        spec_with_clues(m, entries).at == m.at,
        spec_with_clues(m, entries).clues == m.clues + entries.map_values(
            |e: (Seq<char>, Seq<char>)| spec_clue(e.0, e.1),
        ),
    decreases entries.len(),
{
    let rendered = entries.map_values(|e: (Seq<char>, Seq<char>)| spec_clue(e.0, e.1));
    if entries.len() == 0 {
        assert(spec_with_clues(m, entries).clues =~= m.clues + rendered);
    } else {
        let first = spec_with_clue(m, entries[0].0, entries[0].1);
        lemma_clues_in_order(first, entries.drop_first());
        assert(entries.drop_first().map_values(|e: (Seq<char>, Seq<char>)| spec_clue(e.0, e.1))
            =~= rendered.drop_first());
        assert(spec_with_clues(m, entries).clues =~= m.clues + rendered);
    }
}

/// Attaching a clue after finalization and attaching it while still building
/// commute with finalization: the post-hoc append lands on the same list,
/// with the identical `"<label> = <rendering>"` formatting, that the
/// builder-time append would have produced.
pub proof fn lemma_post_hoc_clue_matches_builder(
    m: AssertingView,
    value: bool,
    label: Seq<char>,
    rendering: Seq<char>,
)
    ensures
        spec_added_clue(spec_finalized(m, value), label, rendering) == spec_finalized(
            spec_with_clue(m, label, rendering),
            value,
        ),
        spec_added_clue(spec_finalized(m, value), label, rendering).clues == m.clues.push(
            spec_clue(label, rendering),
        ),
{
}

/// Rendering a passed assertion yields the status line alone: no location
/// line and no clue line, no matter what location or clues were attached.
pub proof fn lemma_passed_render_is_terse(a: AssertionView)
    requires
        spec_passed(a),
    ensures
        spec_render_plain(a) == spec_glyph(true, false) + " "@ + a.name + "\n"@,
{
    assert(spec_details(a) =~= Seq::<Seq<char>>::empty());
    assert(spec_detail_lines(Seq::<Seq<char>>::empty()) == Seq::<char>::empty());
    assert(spec_render_plain(a) =~= spec_glyph(true, false) + " "@ + a.name + "\n"@);
}

/// The colorized counterpart: any colorized rendering of a passed assertion
/// is a painted status glyph and the painted name on one line, with nothing
/// after it — in particular, no location or clue text.
pub proof fn lemma_passed_render_colored_is_terse(a: AssertionView, out: Seq<char>)
    requires
        spec_passed(a),
        spec_render_colored(a, out),
    ensures
        exists|glyph: Seq<char>, name: Seq<char>|
            {
                &&& spec_painted(glyph, spec_glyph(true, true), true)
                &&& spec_painted(name, a.name, true)
                &&& out == glyph + " "@ + name + "\n"@
            },
{
    let (glyph, name, details) = choose|glyph: Seq<char>, name: Seq<char>, details: Seq<Seq<char>>|
        {
            &&& spec_painted(glyph, spec_glyph(spec_passed(a), true), spec_passed(a))
            &&& spec_painted(name, a.name, spec_passed(a))
            &&& crate::render::spec_details_painted(a, details)
            &&& out == crate::render::spec_assembled(glyph, name, details)
        };
    assert(spec_details(a) =~= Seq::<Seq<char>>::empty());
    assert(details =~= Seq::<Seq<char>>::empty());
    assert(spec_detail_lines(details) == Seq::<char>::empty());
    assert(out =~= glyph + " "@ + name + "\n"@);
}

/// Rendering a failed assertion that carries a location and two clues yields
/// the status line followed by exactly three indented lines: the location
/// line first, then the two clues in attachment order.
pub proof fn lemma_failed_render_shows_details(
    a: AssertionView,
    l: LocationView,
    c1: Seq<char>,
    c2: Seq<char>,
)
    requires
        !spec_passed(a),
        a.at == Some(l),
        a.clues == seq![c1, c2],
    ensures
        spec_render_plain(a) == spec_glyph(false, false) + " "@ + a.name + "\n"@ + "  "@
            + spec_location_line(l) + "\n"@ + "  "@ + c1 + "\n"@ + "  "@ + c2 + "\n"@,
{
    let e = Seq::<Seq<char>>::empty();
    assert(spec_detail_lines(e) == Seq::<char>::empty());
    assert(seq![c2].drop_first() =~= e);
    assert(spec_detail_lines(seq![c2]) =~= "  "@ + c2 + "\n"@);
    assert(seq![c1, c2].drop_first() =~= seq![c2]);
    assert(spec_detail_lines(seq![c1, c2]) =~= "  "@ + c1 + "\n"@ + "  "@ + c2 + "\n"@);
    let ds = spec_details(a);
    assert(ds[0] == spec_location_line(l));
    assert(ds.drop_first() =~= seq![c1, c2]);
    assert(spec_detail_lines(ds) =~= "  "@ + spec_location_line(l) + "\n"@ + "  "@ + c1 + "\n"@
        + "  "@ + c2 + "\n"@);
    assert(spec_render_plain(a) =~= spec_glyph(false, false) + " "@ + a.name + "\n"@ + "  "@
        + spec_location_line(l) + "\n"@ + "  "@ + c1 + "\n"@ + "  "@ + c2 + "\n"@);
}

} // verus!
