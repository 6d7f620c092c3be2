//! The assertion data model: the `Asserting` builder that accumulates a
//! name, an optional location and an ordered list of clues, and the
//! `Assertion` record it finalizes into, with its tri-state outcome.

use vstd::prelude::*;

use crate::location::{Location, LocationView};
use crate::text::{format_clue, spec_clue};

verus! {

/// The tri-state outcome of one checked expectation. `Errored` is reserved
/// for a check that raised an error instead of yielding a boolean; it carries
/// that error's description.
pub(crate) enum AssertionValue {
    Passed,
    Failed,
    Errored(String),
}

/// The mathematical value of an assertion's outcome.
pub ghost enum OutcomeView {
    Passed,
    Failed,
    Errored(Seq<char>),
}

impl View for AssertionValue {
    type V = OutcomeView;

    closed spec fn view(&self) -> OutcomeView {
        match self {
            AssertionValue::Passed => OutcomeView::Passed,
            AssertionValue::Failed => OutcomeView::Failed,
            AssertionValue::Errored(e) => OutcomeView::Errored(e@),
        }
    }
}

/// A finalized record of one checked expectation: its name, an optional
/// source location, its outcome, and an ordered list of clues.
pub struct Assertion {
    pub(crate) name: String,
    pub(crate) at: Option<Location>,
    pub(crate) value: AssertionValue,
    pub(crate) clues: Vec<String>,
}

/// The mathematical value of an [`Assertion`].
pub ghost struct AssertionView {
    pub name: Seq<char>,
    pub at: Option<LocationView>,
    pub value: OutcomeView,
    pub clues: Seq<Seq<char>>,
}

/// A transient, single-use builder: it accumulates a name, an optional
/// location and clues, and is consumed by [`Asserting::is_true`], which
/// produces exactly one [`Assertion`]. The name is required at construction,
/// so a builder can never be finalized without one.
#[derive(Debug)]
pub struct Asserting {
    pub(crate) name: String,
    pub(crate) at: Option<Location>,
    pub(crate) clues: Vec<String>,
}

/// The mathematical value of an [`Asserting`] builder.
pub ghost struct AssertingView {
    pub name: Seq<char>,
    pub at: Option<LocationView>,
    pub clues: Seq<Seq<char>>,
}

/// A named sequence of assertions, as a suite aggregates them; a pure
/// container with no behavior of its own.
pub struct Test {
    pub(crate) name: String,
    pub(crate) assertions: Vec<Assertion>,
}

/// The clue strings of a builder or record, as a sequence of character
/// sequences.
pub open spec fn spec_clues(clues: Seq<String>) -> Seq<Seq<char>> {
    clues.map_values(|s: String| s@)
}

/// The view of an optional location.
pub open spec fn spec_at(at: Option<Location>) -> Option<LocationView> {
    match at {
        Some(l) => Some(l@),
        None => None,
    }
}

impl View for Asserting {
    type V = AssertingView;

    closed spec fn view(&self) -> AssertingView {
        AssertingView { name: self.name@, at: spec_at(self.at), clues: spec_clues(self.clues@) }
    }
}

impl View for Assertion {
    type V = AssertionView;

    closed spec fn view(&self) -> AssertionView {
        AssertionView {
            name: self.name@,
            at: spec_at(self.at),
            value: self.value@,
            clues: spec_clues(self.clues@),
        }
    }
}

/// The builder that [`Asserting::that`] returns: the given name, no
/// location, no clues.
pub open spec fn spec_that(name: Seq<char>) -> AssertingView {
    AssertingView { name, at: None, clues: Seq::empty() }
}

/// The builder after [`Asserting::at`]: the same name and clues, with the
/// location replaced (last write wins).
pub open spec fn spec_located(m: AssertingView, file: Seq<char>, line: u32) -> AssertingView {
    AssertingView { at: Some(LocationView { file, line }), ..m }
}

/// The builder after [`Asserting::with_clue`]: the same name and location,
/// with one clue line appended.
pub open spec fn spec_with_clue(
    m: AssertingView,
    label: Seq<char>,
    rendering: Seq<char>,
) -> AssertingView {
    AssertingView { clues: m.clues.push(spec_clue(label, rendering)), ..m }
}

/// The record that [`Asserting::is_true`] produces: the builder's name,
/// location and clues, and the outcome the boolean maps to.
pub open spec fn spec_finalized(m: AssertingView, value: bool) -> AssertionView {
    AssertionView {
        name: m.name,
        at: m.at,
        value: if value {
            OutcomeView::Passed
        } else {
            OutcomeView::Failed
        },
        clues: m.clues,
    }
}

/// The record after [`Assertion::with_clue`]: unchanged but for one clue
/// line appended.
pub open spec fn spec_added_clue(
    a: AssertionView,
    label: Seq<char>,
    rendering: Seq<char>,
) -> AssertionView {
    AssertionView { clues: a.clues.push(spec_clue(label, rendering)), ..a }
}

/// Whether an assertion passed: true exactly on the `Passed` outcome, so an
/// errored assertion counts as not passed.
pub open spec fn spec_passed(a: AssertionView) -> bool {
    a.value is Passed
}

/// Relies on `core::fmt::Debug` via the `format!` macro: the argument's
/// debug rendering. Nothing general is promised of it, so callers quantify
/// over the rendering.
#[verifier::external_body]
fn debug_string<T: std::fmt::Debug>(value: &T) -> String {
    format!("{:?}", value)
}

pub(crate) proof fn lemma_assertion_fields(a: &Assertion)
    ensures
        a@.name == a.name@,
        a@.at == spec_at(a.at),
        a@.value == a.value@,
        a@.clues == spec_clues(a.clues@),
{
}

proof fn lemma_clues_push(clues: Seq<String>, s: String)
    ensures
        spec_clues(clues.push(s)) == spec_clues(clues).push(s@),
{
    assert(spec_clues(clues.push(s)) =~= spec_clues(clues).push(s@));
}

impl Asserting {
    /// Starts a builder for a checked expression whose textual form is
    /// `that`, with no location and no clues.
    pub fn that(that: &str) -> (r: Asserting)
        ensures
            r@ == spec_that(that@),
    {
        let r = Asserting { name: that.to_owned(), at: None, clues: Vec::new() };
        proof {
            assert(r@.clues =~= Seq::<Seq<char>>::empty());
        }
        r
    }

    /// Attaches the call site, overwriting any previously attached location.
    pub fn at(self, file: &'static str, line: u32) -> (r: Asserting)
        ensures
            r@ == spec_located(self@, file@, line),
    {
        Asserting { name: self.name, at: Some(Location::new(file, line)), clues: self.clues }
    }

    /// Appends the clue line `"<name> = <debug rendering of clue>"`; the
    /// rendering is whatever the value's debug formatting produced.
    pub fn with_clue<T: std::fmt::Debug>(self, clue: &T, name: &str) -> (r: Asserting)
        ensures
            exists|rendering: Seq<char>| r@ == spec_with_clue(self@, name@, rendering),
    {
        let ghost pre = self@;
        let rendering = debug_string(clue);
        let line = format_clue(name, rendering.as_str());
        let mut clues = self.clues;
        proof {
            lemma_clues_push(clues@, line);
        }
        clues.push(line);
        let r = Asserting { name: self.name, at: self.at, clues };
        proof {
            assert(r@ == spec_with_clue(pre, name@, rendering@));
        }
        r
    }

    /// Finalizes the builder: a true value yields a passed assertion, a
    /// false one a failed assertion; name, location and clues carry over.
    pub fn is_true(self, value: bool) -> (r: Assertion)
        ensures
            r@ == spec_finalized(self@, value),
    {
        let value = if value {
            AssertionValue::Passed
        } else {
            AssertionValue::Failed
        };
        Assertion { name: self.name, at: self.at, value, clues: self.clues }
    }
}

impl Assertion {
    /// Appends the clue line `"<name> = <debug rendering of clue>"` after
    /// finalization, with the same formatting as the builder's clues.
    pub fn with_clue<T: std::fmt::Debug>(&mut self, clue: &T, name: &str)
        ensures
            exists|rendering: Seq<char>| final(self)@ == spec_added_clue(old(self)@, name@, rendering),
    {
        let rendering = debug_string(clue);
        let line = format_clue(name, rendering.as_str());
        proof {
            lemma_clues_push(self.clues@, line);
        }
        self.clues.push(line);
        proof {
            assert(self@ == spec_added_clue(old(self)@, name@, rendering@));
        }
    }

    /// Whether this assertion passed; an errored assertion counts as not
    /// passed.
    pub fn passed(&self) -> (r: bool)
        ensures
            r == spec_passed(self@),
    {
        if let AssertionValue::Passed = self.value {
            true
        } else {
            false
        }
    }
}

} // verus!
