//! Styled text: a line is a run of spans, each with a tint, and is written out either
//! bare or with terminal colour codes around the tinted spans.

use vstd::prelude::*;
use vstd::string::*;

verus! {

/// The foreground colour of a span; `Plain` leaves the text as it is.
#[derive(Clone, Copy, Debug, PartialEq, Eq, Structural)]
pub enum Tint {
    Plain,
    Red,
    Green,
    Yellow,
    Blue,
    Magenta,
    Cyan,
}

/// A piece of text with its tint.
#[derive(Clone, Debug, PartialEq, Eq)]
pub struct Span {
    pub text: String,
    pub tint: Tint,
}

impl View for Span {
    type V = (Seq<char>, Tint);

    open spec fn view(&self) -> (Seq<char>, Tint) {
        (self.text@, self.tint)
    }
}

/// One line of a report.
#[derive(Clone, Debug, PartialEq, Eq)]
pub struct Line {
    pub spans: Vec<Span>,
}

impl View for Line {
    type V = Seq<(Seq<char>, Tint)>;

    open spec fn view(&self) -> Seq<(Seq<char>, Tint)> {
        self.spans@.map_values(|s: Span| s@)
    }
}

/// The glyph that ties a line to the record above it.
#[derive(Clone, Copy, Debug, PartialEq, Eq, Structural)]
pub enum Connector {
    /// More lines of the same record follow.
    Branch,
    /// The last line of a record.
    Corner,
    /// A line that continues under a branch.
    Rail,
}

impl Connector {
    /// The two characters of the glyph.
    pub open spec fn glyph(self) -> Seq<char> {
        match self {
            Connector::Branch => "\u{251c}\u{2500}"@,
            Connector::Corner => "\u{2570}\u{2500}"@,
            Connector::Rail => "\u{2502} "@,
        }
    }

    /// Appends the glyph to `out`.
    pub fn push_to(self, out: &mut String)
        ensures
            final(out)@ == old(out)@ + self.glyph(),
    {
        match self {
            Connector::Branch => out.append("\u{251c}\u{2500}"),
            Connector::Corner => out.append("\u{2570}\u{2500}"),
            Connector::Rail => out.append("\u{2502} "),
        }
    }
}

/// The digit that selects a tint in a colour code.
pub open spec fn tint_digit(tint: Tint) -> char {
    match tint {
        Tint::Plain => '9',
        Tint::Red => '1',
        Tint::Green => '2',
        Tint::Yellow => '3',
        Tint::Blue => '4',
        Tint::Magenta => '5',
        Tint::Cyan => '6',
    }
}

/// `text` between the code that switches the tint on and the code that resets it;
/// `text` alone for `Plain`.
pub open spec fn painted(text: Seq<char>, tint: Tint) -> Seq<char> {
    if tint == Tint::Plain {
        text
    } else {
        seq!['\u{1b}', '[', '3', tint_digit(tint), 'm'] + text + seq!['\u{1b}', '[', '0', 'm']
    }
}

/// The text of the spans one after another, without any colour code.
pub open spec fn plain_text(spans: Seq<(Seq<char>, Tint)>) -> Seq<char>
    decreases spans.len(),
{
    if spans.len() == 0 {
        Seq::empty()
    } else {
        plain_text(spans.drop_last()) + spans.last().0
    }
}

/// The text of the spans one after another, span `i` painted where `on[i]` holds.
pub open spec fn styled_text(spans: Seq<(Seq<char>, Tint)>, on: Seq<bool>) -> Seq<char>
    decreases spans.len(),
{
    if spans.len() == 0 {
        Seq::empty()
    } else {
        styled_text(spans.drop_last(), on.drop_last()) + if on.last() {
            painted(spans.last().0, spans.last().1)
        } else {
            spans.last().0
        }
    }
}

/// Formats `yansi::Paint::new(text).fg(..)`. Trusted: with painting switched off the
/// result is the text itself; with painting on, the text stands between the
/// foreground code of the tint and the reset code. Which of the two comes out depends
/// on a process-wide switch.
#[verifier::external_body]
fn paint(text: &str, tint: Tint) -> (r: String)
    ensures
        r@ == text@ || r@ == painted(text@, tint),
{
    let color = match tint {
        Tint::Plain => yansi::Color::Unset,
        Tint::Red => yansi::Color::Red,
        Tint::Green => yansi::Color::Green,
        Tint::Yellow => yansi::Color::Yellow,
        Tint::Blue => yansi::Color::Blue,
        Tint::Magenta => yansi::Color::Magenta,
        Tint::Cyan => yansi::Color::Cyan,
    };
    yansi::Paint::new(text).fg(color).to_string()
}

impl Line {
    /// A line without spans.
    pub fn new() -> (r: Line)
        ensures
            r@ == Seq::<(Seq<char>, Tint)>::empty(),
    {
        let r = Line { spans: Vec::new() };
        assert(r@ =~= Seq::<(Seq<char>, Tint)>::empty());
        r
    }

    /// Adds a span of `text` in `tint` at the end of the line.
    pub fn push(&mut self, text: String, tint: Tint)
        ensures
            final(self)@ == old(self)@.push((text@, tint)),
    {
        self.spans.push(Span { text, tint });
        assert(self@ =~= old(self)@.push((text@, tint)));
    }

    /// The line's content without decoration.
    pub fn text(&self) -> (r: String)
        ensures
            r@ == plain_text(self@),
    {
        let mut r = String::new();
        let mut i: usize = 0;
        while i < self.spans.len()
            invariant
                i <= self.spans.len(),
                r@ == plain_text(self@.take(i as int)),
            decreases self.spans.len() - i,
        {
            proof {
                assert(self@.take(i + 1).drop_last() =~= self@.take(i as int));
            }
            r.append(self.spans[i].text.as_str());
            i += 1;
        }
        assert(self@.take(self.spans.len() as int) =~= self@);
        r
    }

    /// The line as it is written to a terminal: every span painted or bare, as the
    /// painter decides.
    pub fn paint(&self) -> (r: String)
        ensures
            exists|on: Seq<bool>| on.len() == self@.len() && r@ == styled_text(self@, on),
    {
        let mut r = String::new();
        let ghost mut on: Seq<bool> = Seq::empty();
        let mut i: usize = 0;
        while i < self.spans.len()
            invariant
                i <= self.spans.len(),
                on.len() == i,
                r@ == styled_text(self@.take(i as int), on),
            decreases self.spans.len() - i,
        {
            let span = &self.spans[i];
            let piece = paint(span.text.as_str(), span.tint);
            proof {
                assert(self@.take(i + 1).drop_last() =~= self@.take(i as int));
                let flag = piece@ == painted(span.text@, span.tint);
                assert(on.push(flag).drop_last() =~= on);
                on = on.push(flag);
            }
            r.append(piece.as_str());
            i += 1;
        }
        assert(self@.take(self.spans.len() as int) =~= self@);
        r
    }
}

/// Decoration never changes content: with no span painted, or with every span
/// `Plain`, the styled text is the plain text.
pub proof fn lemma_unpainted_is_plain(spans: Seq<(Seq<char>, Tint)>, on: Seq<bool>)
    requires
        on.len() == spans.len(),
        forall|i: int| 0 <= i < spans.len() ==> !on[i] || spans[i].1 == Tint::Plain,
    ensures
        styled_text(spans, on) == plain_text(spans),
    decreases spans.len(),
{
    if spans.len() > 0 {
        lemma_unpainted_is_plain(spans.drop_last(), on.drop_last());
    }
}

} // verus!
