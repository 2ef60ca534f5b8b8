use vstd::prelude::*;

verus! {

/// Where a measured quantity lies relative to the whole numbers.
///
/// A finite measurement `x` is held as `Known { floor, fractional }` with
/// `floor` the greatest integer not above `x` (saturated to the `i64` range)
/// and `fractional` telling whether `x` differs from `floor`.  A measurement
/// that is not a number is `Unknown`.  This is exactly what is needed to
/// compare the measurement with a whole-number threshold.
#[derive(Clone, Copy, Debug, PartialEq, Eq)]
pub enum Level {
    Known { floor: i64, fractional: bool },
    Unknown,
}

impl Level {
    /// `x < c`.
    pub open spec fn below(self, c: int) -> bool {
        match self {
            Level::Known { floor, fractional } => floor < c,
            Level::Unknown => false,
        }
    }

    /// `x > c`.
    pub open spec fn above(self, c: int) -> bool {
        match self {
            Level::Known { floor, fractional } => floor > c || (floor == c && fractional),
            Level::Unknown => false,
        }
    }

    /// `x <= c`.
    pub open spec fn at_most(self, c: int) -> bool {
        match self {
            Level::Known { floor, fractional } => floor < c || (floor == c && !fractional),
            Level::Unknown => false,
        }
    }

    /// Whether the measurement is below the whole number `c`.
    pub fn is_below(&self, c: i64) -> (r: bool)
        ensures
            r == self.below(c as int),
    {
        match self {
            Level::Known { floor, fractional: _ } => *floor < c,
            Level::Unknown => false,
        }
    }

    /// Whether the measurement is above the whole number `c`.
    pub fn is_above(&self, c: i64) -> (r: bool)
        ensures
            r == self.above(c as int),
    {
        match self {
            Level::Known { floor, fractional } => *floor > c || (*floor == c && *fractional),
            Level::Unknown => false,
        }
    }

    /// Whether the measurement is at most the whole number `c`.
    pub fn is_at_most(&self, c: i64) -> (r: bool)
        ensures
            r == self.at_most(c as int),
    {
        match self {
            Level::Known { floor, fractional } => *floor < c || (*floor == c && !*fractional),
            Level::Unknown => false,
        }
    }
}

/// A measured quantity as the library reads it: how it compares with whole
/// numbers, and the ways it is written out.
///
/// `plain` is the quantity written with `{}`, `whole` with `{:.0}`, `tenths`
/// with `{:.1}`, and `rounded` is the quantity rounded half away from zero
/// and saturated to `i32`.
pub struct Figure {
    pub level: Level,
    pub plain: String,
    pub whole: String,
    pub tenths: String,
    pub rounded: i32,
}

impl Figure {
    /// The quantity zero.
    pub fn zero() -> (r: Figure)
        ensures
            r.is_zero(),
    {
        Figure {
            level: Level::Known { floor: 0, fractional: false },
            plain: String::from_str("0"),
            whole: String::from_str("0"),
            tenths: String::from_str("0.0"),
            rounded: 0,
        }
    }

    /// The quantity is zero.
    pub open spec fn is_zero(&self) -> bool {
        &&& self.level == Level::Known { floor: 0, fractional: false }
        &&& self.plain@ == "0"@
        &&& self.whole@ == "0"@
        &&& self.tenths@ == "0.0"@
        &&& self.rounded == 0
    }
}

/// The colour band of a temperature `t`: with `n` the clamp of
/// `(t + 10) / 45` to `[0, 1]`, `Cold` when `n < 0.25`, `Cool` when
/// `n < 0.5`, `Mild` when `n < 0.75`, and `Hot` otherwise.
#[derive(Clone, Copy, Debug, PartialEq, Eq)]
pub enum TempBand {
    Cold,
    Cool,
    Mild,
    Hot,
}

/// The comparisons of a measurement with whole numbers. A number lies
/// below `c`, exactly at `c`, or above it, and exactly one of these holds;
/// being at most `c` is not being above it. A number is below `c` when its
/// whole part is, and above `c` when its whole part is above `c`, or is `c`
/// with a fraction. Below `c` means below every larger threshold too. A
/// measurement that is not a number is neither below, at most, nor above
/// any threshold.
pub proof fn lemma_level_order(l: Level, c: int, d: int)
    ensures
        l is Known ==> (l.below(c) || l == (Level::Known { floor: c as i64, fractional: false })
            || l.above(c)),
        l.below(c) ==> !l.above(c),
        l is Known && l->floor == c && !l->fractional ==> !l.below(c) && !l.above(c) && l.at_most(c),
        l is Known ==> (l.at_most(c) <==> !l.above(c)),
        l.below(c) ==> l.at_most(c),
        l is Known ==> (l.below(c) <==> l->floor < c),
        l is Known ==> (l.above(c) <==> (l->floor > c || (l->floor == c && l->fractional))),
        l.below(c) && c <= d ==> l.below(d),
        l.above(d) && c <= d ==> l.above(c),
        l is Unknown ==> !l.below(c) && !l.at_most(c) && !l.above(c),
{
}

} // verus!
