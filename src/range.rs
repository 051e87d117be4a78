//! Threshold ranges: an interval with a polarity that says whether a value alerts.
use crate::number::{fixed_text, push_char, push_fixed};
use vstd::prelude::*;

verus! {

/// One end of a range: an infinity or a fixed-point value with nine decimal places.
#[derive(Clone, Copy, Debug, PartialEq, Eq, Structural)]
pub enum Bound {
    NegInf,
    Finite(i128),
    PosInf,
}

/// Why a range cannot be built.
#[derive(Clone, Copy, Debug, PartialEq, Eq, Structural)]
pub enum RangeError {
    /// The lower bound lies above the upper bound.
    StartGreaterThanEnd,
}

/// An interval `[lower, upper]`, bounds included, with a polarity: by default a
/// value alerts when it lies outside; an inverted range alerts when it lies inside.
#[derive(Clone, Copy, Debug, PartialEq, Eq, Structural)]
pub struct Range {
    pub lower: Bound,
    pub upper: Bound,
    pub inverted: bool,
}

impl Bound {
    /// This bound lies at or below the value `v`.
    pub open spec fn at_most(self, v: int) -> bool {
        match self {
            Bound::NegInf => true,
            Bound::Finite(b) => b <= v,
            Bound::PosInf => false,
        }
    }

    /// This bound lies at or above the value `v`.
    pub open spec fn at_least(self, v: int) -> bool {
        match self {
            Bound::NegInf => false,
            Bound::Finite(b) => v <= b,
            Bound::PosInf => true,
        }
    }

    /// This bound lies at or below `other`.
    pub open spec fn le(self, other: Bound) -> bool {
        match (self, other) {
            (Bound::NegInf, _) => true,
            (_, Bound::PosInf) => true,
            (Bound::Finite(a), Bound::Finite(b)) => a <= b,
            _ => false,
        }
    }

    /// The text of a bound: `~` for an infinity, else its decimal value.
    pub open spec fn text(self) -> Seq<char> {
        match self {
            Bound::Finite(b) => fixed_text(b as int),
            _ => seq!['~'],
        }
    }

    fn is_le(&self, other: &Bound) -> (r: bool)
        ensures
            r == self.le(*other),
    {
        match (self, other) {
            (Bound::NegInf, _) => true,
            (_, Bound::PosInf) => true,
            (Bound::Finite(a), Bound::Finite(b)) => *a <= *b,
            _ => false,
        }
    }

    fn push_text(&self, s: &mut String)
        ensures
            final(s)@ == old(s)@ + self.text(),
    {
        match self {
            Bound::Finite(b) => push_fixed(s, *b),
            _ => {
                push_char(s, '~');
                proof {
                    assert(old(s)@ + self.text() =~= s@);
                }
            },
        }
    }
}

impl Range {
    /// The bounds are in order.
    pub open spec fn wf(self) -> bool {
        self.lower.le(self.upper)
    }

    /// The value `v` lies in `[lower, upper]`, bounds included.
    pub open spec fn contains(self, v: int) -> bool {
        self.lower.at_most(v) && self.upper.at_least(v)
    }

    /// The value `v` raises an alert under this range's polarity.
    pub open spec fn alerts(self, v: int) -> bool {
        if self.inverted {
            self.contains(v)
        } else {
            !self.contains(v)
        }
    }

    /// The conventional text of a range: `@` for an inverted one, then
    /// `lower:upper`, with `~` for an infinite end.
    pub open spec fn text(self) -> Seq<char> {
        (if self.inverted {
            seq!['@']
        } else {
            Seq::empty()
        }) + self.lower.text() + seq![':'] + self.upper.text()
    }

    /// Builds the range `[lower, upper]`; fails when `lower` lies above `upper`.
    pub fn new(lower: Bound, upper: Bound, inverted: bool) -> (r: Result<Range, RangeError>)
        ensures
            lower.le(upper) ==> r == Ok::<Range, RangeError>(
                Range { lower, upper, inverted },
            ),
            !lower.le(upper) ==> r == Err::<Range, RangeError>(RangeError::StartGreaterThanEnd),
    {
        if lower.is_le(&upper) {
            Ok(Range { lower, upper, inverted })
        } else {
            Err(RangeError::StartGreaterThanEnd)
        }
    }

    /// Whether the fixed-point value `value` raises an alert.
    pub fn check(&self, value: i128) -> (r: bool)
        ensures
            r == self.alerts(value as int),
    {
        let above_lower = match self.lower {
            Bound::NegInf => true,
            Bound::Finite(b) => b <= value,
            Bound::PosInf => false,
        };
        let below_upper = match self.upper {
            Bound::NegInf => false,
            Bound::Finite(b) => value <= b,
            Bound::PosInf => true,
        };
        let inside = above_lower && below_upper;
        if self.inverted {
            inside
        } else {
            !inside
        }
    }

    /// Appends the text of this range.
    pub fn push_text(&self, s: &mut String)
        ensures
            final(s)@ == old(s)@ + self.text(),
    {
        let ghost s0 = s@;
        if self.inverted {
            push_char(s, '@');
        }
        self.lower.push_text(s);
        push_char(s, ':');
        self.upper.push_text(s);
        proof {
            assert(s0 + self.text() =~= s@);
        }
    }

    /// The text of this range, as `push_text` writes it.
    pub fn to_text(&self) -> (r: String)
        ensures
            r@ == self.text(),
    {
        let mut s = String::new();
        self.push_text(&mut s);
        proof {
            assert(s@ =~= self.text());
        }
        s
    }
}

/// A range that is not inverted alerts exactly on the values strictly outside
/// `[lower, upper]`, and never on a value inside it, the bounds included; an
/// inverted range alerts exactly on the values inside, the bounds included.
pub proof fn lemma_range_polarity(r: Range, v: int)
    requires
        r.wf(),
    ensures
        !r.inverted ==> (r.alerts(v) <==> (!r.lower.at_most(v) || !r.upper.at_least(v))),
        !r.inverted && r.lower.at_most(v) && r.upper.at_least(v) ==> !r.alerts(v),
        r.inverted ==> (r.alerts(v) <==> (r.lower.at_most(v) && r.upper.at_least(v))),
        r.alerts(v) == !(Range { lower: r.lower, upper: r.upper, inverted: !r.inverted }).alerts(v),
{
}

} // verus!
