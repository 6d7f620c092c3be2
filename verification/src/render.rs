//! Rendering an assertion as a readable report: a status glyph and the name
//! on one line, and — only when the assertion did not pass — the location and
//! each clue, each on an indented line. A styling strategy chooses between a
//! plain ASCII glyph pair with unstyled text and a colorized pair whose text
//! is painted green or red through the `console` crate.

use vstd::prelude::*;

use crate::assertion::{Assertion, AssertionView, spec_clues, spec_passed};

verus! {

/// The styling strategy injected into the renderer: `Plain` uses the ASCII
/// glyph pair `+`/`x` and emits no ANSI styling; `Colored` uses the glyph
/// pair for colorized output and paints every emitted piece green on a
/// passed assertion and red otherwise.
#[derive(Clone, Copy)]
pub enum Styling {
    Plain,
    Colored,
}

/// The status glyph for an outcome under a strategy: the colorized pair is
/// a check mark or a cross, the plain fallback pair is `+` or `x`.
pub open spec fn spec_glyph(passed: bool, colored: bool) -> Seq<char> {
    if colored {
        if passed {
            "✔"@
        } else {
            "✖"@
        }
    } else {
        if passed {
            "+"@
        } else {
            "x"@
        }
    }
}

/// The ANSI escape that switches the foreground to green.
pub open spec fn csi_green() -> Seq<char> {
    "\u{1b}[32m"@
}

/// The ANSI escape that switches the foreground to red.
pub open spec fn csi_red() -> Seq<char> {
    "\u{1b}[31m"@
}

/// The ANSI escape that resets all styling.
pub open spec fn csi_reset() -> Seq<char> {
    "\u{1b}[0m"@
}

/// What painting a piece of text may produce: the text unchanged (colors
/// disabled), or the text wrapped in the color for the outcome — green for a
/// passed assertion, red otherwise — and a reset.
pub open spec fn spec_painted(out: Seq<char>, text: Seq<char>, passed: bool) -> bool {
    ||| out == text
    ||| out == (if passed {
        csi_green()
    } else {
        csi_red()
    }) + text + csi_reset()
}

/// The indented detail block: each entry on a line of its own, prefixed with
/// two spaces.
pub open spec fn spec_detail_lines(details: Seq<Seq<char>>) -> Seq<char>
    decreases details.len(),
{
    if details.len() == 0 {
        Seq::empty()
    } else {
        "  "@ + details[0] + "\n"@ + spec_detail_lines(details.drop_first())
    }
}

/// A whole report assembled from its pieces: the glyph and the name on the
/// first line, then the indented details.
pub open spec fn spec_assembled(
    glyph: Seq<char>,
    name: Seq<char>,
    details: Seq<Seq<char>>,
) -> Seq<char> {
    glyph + " "@ + name + "\n"@ + spec_detail_lines(details)
}

/// The detail entries an assertion's report carries: nothing at all when it
/// passed; otherwise its location line (when a location was attached)
/// followed by its clues, in attachment order.
pub open spec fn spec_details(a: AssertionView) -> Seq<Seq<char>> {
    if spec_passed(a) {
        Seq::empty()
    } else {
        (match a.at {
            Some(l) => seq![crate::location::spec_location_line(l)],
            None => Seq::empty(),
        }) + a.clues
    }
}

/// The exact plain rendering of an assertion.
pub open spec fn spec_render_plain(a: AssertionView) -> Seq<char> {
    spec_assembled(spec_glyph(spec_passed(a), false), a.name, spec_details(a))
}

/// Whether a sequence of detail strings is the assertion's detail entries,
/// each painted for its outcome.
pub open spec fn spec_details_painted(a: AssertionView, details: Seq<Seq<char>>) -> bool {
    &&& details.len() == spec_details(a).len()
    &&& forall|i: int|
        0 <= i < details.len() ==> spec_painted(
            details[i],
            spec_details(a)[i],
            spec_passed(a),
        )
}

/// Whether `out` is a colorized rendering of the assertion: the colorized
/// glyph, the name and each detail entry, each painted for the outcome, and
/// assembled in the fixed report shape.
pub open spec fn spec_render_colored(a: AssertionView, out: Seq<char>) -> bool {
    exists|glyph: Seq<char>, name: Seq<char>, details: Seq<Seq<char>>|
        {
            &&& spec_painted(glyph, spec_glyph(spec_passed(a), true), spec_passed(a))
            &&& spec_painted(name, a.name, spec_passed(a))
            &&& spec_details_painted(a, details)
            &&& out == spec_assembled(glyph, name, details)
        }
}

/// Relies on `console::Style::new().green().apply_to(..)` and the `Display`
/// impl of `console::StyledObject`: the text is written wrapped in the green
/// ANSI escape and a reset when colors are enabled for this process, and
/// unchanged otherwise.
#[verifier::external_body]
fn paint_green(text: &str) -> (r: String)
    ensures
        spec_painted(r@, text@, true),
{
    console::Style::new().green().apply_to(text).to_string()
}

/// Relies on `console::Style::new().red().apply_to(..)` and the `Display`
/// impl of `console::StyledObject`: the text is written wrapped in the red
/// ANSI escape and a reset when colors are enabled for this process, and
/// unchanged otherwise.
#[verifier::external_body]
fn paint_red(text: &str) -> (r: String)
    ensures
        spec_painted(r@, text@, false),
{
    console::Style::new().red().apply_to(text).to_string()
}

/// Paints a piece of text for an outcome: green for a passed assertion, red
/// otherwise.
fn paint(text: &str, passed: bool) -> (r: String)
    ensures
        spec_painted(r@, text@, passed),
{
    if passed {
        paint_green(text)
    } else {
        paint_red(text)
    }
}

/// The status glyph for an outcome under a strategy.
fn glyph_str(passed: bool, colored: bool) -> (r: &'static str)
    ensures
        r@ == spec_glyph(passed, colored),
{
    if colored {
        if passed {
            "✔"
        } else {
            "✖"
        }
    } else {
        if passed {
            "+"
        } else {
            "x"
        }
    }
}

proof fn lemma_detail_lines_push(details: Seq<Seq<char>>, d: Seq<char>)
    ensures
        spec_detail_lines(details.push(d)) == spec_detail_lines(details) + "  "@ + d + "\n"@,
    decreases details.len(),
{
    if details.len() == 0 {
        assert(details.push(d).drop_first() =~= Seq::<Seq<char>>::empty());
        assert(details.push(d)[0] == d);
        assert(spec_detail_lines(Seq::<Seq<char>>::empty()) == Seq::<char>::empty());
        assert(spec_detail_lines(details.push(d)) == "  "@ + d + "\n"@ + spec_detail_lines(
            Seq::<Seq<char>>::empty(),
        ));
        assert(spec_detail_lines(details.push(d)) =~= spec_detail_lines(details) + "  "@ + d
            + "\n"@);
    } else {
        assert(details.push(d).drop_first() =~= details.drop_first().push(d));
        lemma_detail_lines_push(details.drop_first(), d);
        assert(details.push(d)[0] == details[0]);
        assert(spec_detail_lines(details.push(d)) == "  "@ + details[0] + "\n"@
            + spec_detail_lines(details.drop_first().push(d)));
        assert(spec_detail_lines(details.push(d)) =~= spec_detail_lines(details) + "  "@ + d
            + "\n"@);
    }
}

/// Assembles a report from its already styled pieces.
fn assemble(glyph: &str, name: &str, details: &Vec<String>) -> (r: String)
    ensures
        r@ == spec_assembled(glyph@, name@, spec_clues(details@)),
{
    let ghost all = spec_clues(details@);
    let mut r = glyph.to_owned();
    r.append(" ");
    r.append(name);
    r.append("\n");
    proof {
        assert(all.take(0) =~= Seq::<Seq<char>>::empty());
        assert(r@ =~= glyph@ + " "@ + name@ + "\n"@ + spec_detail_lines(all.take(0)));
    }
    let mut i: usize = 0;
    while i < details.len()
        invariant
            i <= details.len(),
            all == spec_clues(details@),
            all.len() == details.len(),
            r@ == glyph@ + " "@ + name@ + "\n"@ + spec_detail_lines(all.take(i as int)),
        decreases details.len() - i,
    {
        r.append("  ");
        r.append(details[i].as_str());
        r.append("\n");
        proof {
            lemma_detail_lines_push(all.take(i as int), all[i as int]);
            assert(all.take(i as int + 1) =~= all.take(i as int).push(all[i as int]));
            assert(r@ =~= glyph@ + " "@ + name@ + "\n"@ + spec_detail_lines(
                all.take(i as int + 1),
            ));
        }
        i = i + 1;
    }
    proof {
        assert(all.take(details.len() as int) =~= all);
        assert(r@ =~= spec_assembled(glyph@, name@, all));
    }
    r
}

impl Assertion {
    /// Collects the detail entries of this assertion's report, painted when
    /// the strategy is colorized.
    fn details(&self, colored: bool) -> (r: Vec<String>)
        ensures
            !colored ==> spec_clues(r@) == spec_details(self@),
            colored ==> spec_details_painted(self@, spec_clues(r@)),
    {
        let ghost base = spec_details(self@);
        proof {
            crate::assertion::lemma_assertion_fields(self);
        }
        let mut out: Vec<String> = Vec::new();
        proof {
            assert(spec_clues(out@) =~= Seq::<Seq<char>>::empty());
        }
        if !self.passed() {
            match &self.at {
                Some(loc) => {
                    let line = loc.render();
                    let ghost raw = line@;
                    let line = if colored {
                        paint(line.as_str(), false)
                    } else {
                        line
                    };
                    out.push(line);
                    proof {
                        assert(self@.at == Some(loc@));
                        assert(base[0] == crate::location::spec_location_line(loc@));
                        assert(out@[0]@ == line@);
                        assert(spec_painted(line@, raw, false));
                        assert(spec_painted(out@[0]@, base[0], spec_passed(self@)));
                    }
                },
                None => {},
            }
            let ghost head = out@.len() as int;
            proof {
                assert(base.len() == head + self@.clues.len());
                assert(self@.clues.len() == self.clues@.len());
            }
            let mut i: usize = 0;
            while i < self.clues.len()
                invariant
                    i <= self.clues.len(),
                    !spec_passed(self@),
                    base == spec_details(self@),
                    self@.clues == spec_clues(self.clues@),
                    0 <= head <= 1,
                    base.len() == head + self.clues.len(),
                    out@.len() == head + i,
                    forall|j: int|
                        0 <= j < out@.len() ==> #[trigger] spec_painted(
                            out@[j]@,
                            base[j],
                            spec_passed(self@),
                        ),
                    !colored ==> forall|j: int| 0 <= j < out@.len() ==> out@[j]@ == base[j],
                decreases self.clues.len() - i,
            {
                let line = if colored {
                    paint(self.clues[i].as_str(), false)
                } else {
                    self.clues[i].clone()
                };
                proof {
                    assert(base[head + i] == self@.clues[i as int]);
                    assert(self@.clues[i as int] == self.clues@[i as int]@);
                    assert(spec_painted(line@, self.clues@[i as int]@, spec_passed(self@)));
                }
                out.push(line);
                i = i + 1;
            }
        }
        proof {
            if spec_passed(self@) {
                assert(base =~= Seq::<Seq<char>>::empty());
            }
            if !colored {
                assert(spec_clues(out@) =~= base);
            }
            assert(spec_clues(out@).len() == out@.len());
            assert forall|j: int| 0 <= j < out@.len() implies spec_painted(
                spec_clues(out@)[j],
                base[j],
                spec_passed(self@),
            ) by {
                assert(spec_clues(out@)[j] == out@[j]@);
            }
        }
        out
    }

    /// Renders this assertion under a styling strategy. The report always
    /// starts with the status glyph and the name on one line; if and only if
    /// the assertion did not pass, the location (when present) and each clue
    /// follow, each indented, in attachment order. The plain strategy's
    /// output is exact; the colorized strategy's output is the same report
    /// with each piece painted green or red, or left unchanged where colors
    /// are disabled for this process.
    pub fn render(&self, style: Styling) -> (r: String)
        ensures
            style is Plain ==> r@ == spec_render_plain(self@),
            style is Colored ==> spec_render_colored(self@, r@),
    {
        proof {
            crate::assertion::lemma_assertion_fields(self);
        }
        let passed = self.passed();
        match style {
            Styling::Plain => {
                let glyph = glyph_str(passed, false);
                let details = self.details(false);
                assemble(glyph, self.name.as_str(), &details)
            },
            Styling::Colored => {
                let glyph = paint(glyph_str(passed, true), passed);
                let name = paint(self.name.as_str(), passed);
                let details = self.details(true);
                let r = assemble(glyph.as_str(), name.as_str(), &details);
                proof {
                    assert(spec_painted(name@, self@.name, spec_passed(self@)));
                    assert(r@ == spec_assembled(glyph@, name@, spec_clues(details@)));
                }
                r
            },
        }
    }
}

} // verus!
