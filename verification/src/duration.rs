//! Note values and the part of a bar that each of them lasts.

use vstd::prelude::*;

verus! {

/// A ratio of two whole numbers.
#[derive(Debug, Clone, Copy, PartialEq, Eq, Structural)]
pub struct Fraction {
    pub numerator: u32,
    pub denominator: u32,
}

/// A note value: from a whole note down to a sixty-fourth, each plain or
/// dotted.
#[derive(Debug, Clone, Copy, PartialEq, Eq, Structural)]
pub enum NoteDuration {
    WholeDotted,
    Whole,
    HalfDotted,
    Half,
    QuarterDotted,
    Quarter,
    EighthDotted,
    Eighth,
    SixteenthDotted,
    Sixteenth,
    ThirtySecondDotted,
    ThirtySecond,
    SixtyFourthDotted,
    SixtyFourth,
}

impl NoteDuration {
    /// The part of a bar that this note value lasts, in lowest terms.
    pub open spec fn fraction(self) -> Fraction {
        match self {
            NoteDuration::WholeDotted => Fraction { numerator: 3, denominator: 2 },
            NoteDuration::Whole => Fraction { numerator: 1, denominator: 1 },
            NoteDuration::HalfDotted => Fraction { numerator: 3, denominator: 4 },
            NoteDuration::Half => Fraction { numerator: 1, denominator: 2 },
            NoteDuration::QuarterDotted => Fraction { numerator: 3, denominator: 8 },
            NoteDuration::Quarter => Fraction { numerator: 1, denominator: 4 },
            NoteDuration::EighthDotted => Fraction { numerator: 3, denominator: 16 },
            NoteDuration::Eighth => Fraction { numerator: 1, denominator: 8 },
            NoteDuration::SixteenthDotted => Fraction { numerator: 3, denominator: 32 },
            NoteDuration::Sixteenth => Fraction { numerator: 1, denominator: 16 },
            NoteDuration::ThirtySecondDotted => Fraction { numerator: 3, denominator: 64 },
            NoteDuration::ThirtySecond => Fraction { numerator: 1, denominator: 32 },
            NoteDuration::SixtyFourthDotted => Fraction { numerator: 3, denominator: 128 },
            NoteDuration::SixtyFourth => Fraction { numerator: 1, denominator: 64 },
        }
    }

    /// Whether this is a dotted note value.
    pub open spec fn is_dotted(self) -> bool {
        match self {
            NoteDuration::WholeDotted
            | NoteDuration::HalfDotted
            | NoteDuration::QuarterDotted
            | NoteDuration::EighthDotted
            | NoteDuration::SixteenthDotted
            | NoteDuration::ThirtySecondDotted
            | NoteDuration::SixtyFourthDotted => true,
            _ => false,
        }
    }

    /// The dotted form of a plain note value. A dotted note value is its own
    /// dotted form.
    pub open spec fn dotted(self) -> NoteDuration {
        match self {
            NoteDuration::Whole => NoteDuration::WholeDotted,
            NoteDuration::Half => NoteDuration::HalfDotted,
            NoteDuration::Quarter => NoteDuration::QuarterDotted,
            NoteDuration::Eighth => NoteDuration::EighthDotted,
            NoteDuration::Sixteenth => NoteDuration::SixteenthDotted,
            NoteDuration::ThirtySecond => NoteDuration::ThirtySecondDotted,
            NoteDuration::SixtyFourth => NoteDuration::SixtyFourthDotted,
            d => d,
        }
    }

    /// The time that this note value lasts in a bar of length `bar`: its
    /// fraction of `bar`, rounded down to a whole unit of time.
    pub open spec fn share_of(self, bar: int) -> int {
        match self {
            NoteDuration::WholeDotted => bar * 3 / 2,
            NoteDuration::Whole => bar,
            NoteDuration::HalfDotted => bar * 3 / 4,
            NoteDuration::Half => bar / 2,
            NoteDuration::QuarterDotted => bar * 3 / 8,
            NoteDuration::Quarter => bar / 4,
            NoteDuration::EighthDotted => bar * 3 / 16,
            NoteDuration::Eighth => bar / 8,
            NoteDuration::SixteenthDotted => bar * 3 / 32,
            NoteDuration::Sixteenth => bar / 16,
            NoteDuration::ThirtySecondDotted => bar * 3 / 64,
            NoteDuration::ThirtySecond => bar / 32,
            NoteDuration::SixtyFourthDotted => bar * 3 / 128,
            NoteDuration::SixtyFourth => bar / 64,
        }
    }

    /// The part of a bar that this note value lasts, in lowest terms.
    pub fn to_fraction(self) -> (f: Fraction)
        ensures
            f == self.fraction(),
            1 <= f.numerator <= 3,
            1 <= f.denominator <= 128,
    {
        match self {
            NoteDuration::WholeDotted => Fraction { numerator: 3, denominator: 2 },
            NoteDuration::Whole => Fraction { numerator: 1, denominator: 1 },
            NoteDuration::HalfDotted => Fraction { numerator: 3, denominator: 4 },
            NoteDuration::Half => Fraction { numerator: 1, denominator: 2 },
            NoteDuration::QuarterDotted => Fraction { numerator: 3, denominator: 8 },
            NoteDuration::Quarter => Fraction { numerator: 1, denominator: 4 },
            NoteDuration::EighthDotted => Fraction { numerator: 3, denominator: 16 },
            NoteDuration::Eighth => Fraction { numerator: 1, denominator: 8 },
            NoteDuration::SixteenthDotted => Fraction { numerator: 3, denominator: 32 },
            NoteDuration::Sixteenth => Fraction { numerator: 1, denominator: 16 },
            NoteDuration::ThirtySecondDotted => Fraction { numerator: 3, denominator: 64 },
            NoteDuration::ThirtySecond => Fraction { numerator: 1, denominator: 32 },
            NoteDuration::SixtyFourthDotted => Fraction { numerator: 3, denominator: 128 },
            NoteDuration::SixtyFourth => Fraction { numerator: 1, denominator: 64 },
        }
    }

    /// The time in nanoseconds that this note value lasts in a bar of
    /// `bar_nanos` nanoseconds, rounded down to a whole nanosecond.
    pub fn to_share_of(self, bar_nanos: u64) -> (nanos: u128)
        ensures
            nanos == self.share_of(bar_nanos as int),
    {
        let bar: u128 = bar_nanos as u128;
        match self {
            NoteDuration::WholeDotted => bar * 3 / 2,
            NoteDuration::Whole => bar,
            NoteDuration::HalfDotted => bar * 3 / 4,
            NoteDuration::Half => bar / 2,
            NoteDuration::QuarterDotted => bar * 3 / 8,
            NoteDuration::Quarter => bar / 4,
            NoteDuration::EighthDotted => bar * 3 / 16,
            NoteDuration::Eighth => bar / 8,
            NoteDuration::SixteenthDotted => bar * 3 / 32,
            NoteDuration::Sixteenth => bar / 16,
            NoteDuration::ThirtySecondDotted => bar * 3 / 64,
            NoteDuration::ThirtySecond => bar / 32,
            NoteDuration::SixtyFourthDotted => bar * 3 / 128,
            NoteDuration::SixtyFourth => bar / 64,
        }
    }

    /// The share of a bar is the bar times the fraction of this note value,
    /// rounded down.
    pub proof fn lemma_share_is_fraction_of_bar(self, bar: int)
        ensures
            self.share_of(bar) == bar * self.fraction().numerator / (self.fraction().denominator as int),
    {
        let n = self.fraction().numerator as int;
        let d = self.fraction().denominator as int;
        if self.is_dotted() {
            assert(bar * n == bar * 3) by (nonlinear_arith)
                requires
                    n == 3,
            ;
        } else {
            assert(bar * n == bar) by (nonlinear_arith)
                requires
                    n == 1,
            ;
        }
        let scaled = bar * n;
        assert(scaled / d == self.share_of(bar)) by (nonlinear_arith)
            requires
                d == 1 || d == 2 || d == 4 || d == 8 || d == 16 || d == 32 || d == 64 || d == 128,
                d == 1 ==> self.share_of(bar) == scaled,
                d == 2 ==> self.share_of(bar) == scaled / 2,
                d == 4 ==> self.share_of(bar) == scaled / 4,
                d == 8 ==> self.share_of(bar) == scaled / 8,
                d == 16 ==> self.share_of(bar) == scaled / 16,
                d == 32 ==> self.share_of(bar) == scaled / 32,
                d == 64 ==> self.share_of(bar) == scaled / 64,
                d == 128 ==> self.share_of(bar) == scaled / 128,
        ;
    }

    /// A dotted note value lasts one and a half times as long as the plain
    /// note value: twice the first is three times the second.
    pub proof fn lemma_dotted_is_half_as_long_again(self)
        requires
            !self.is_dotted(),
        ensures
            self.dotted().is_dotted(),
            2 * self.dotted().fraction().numerator * self.fraction().denominator
                == 3 * self.fraction().numerator * self.dotted().fraction().denominator,
    {
    }
}

} // verus!
