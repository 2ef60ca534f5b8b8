//! The eight compass sectors a wind direction falls in.
use vstd::prelude::*;

verus! {

/// The arrow of a compass sector, counted clockwise from north.
pub open spec fn sector_arrow(sector: int) -> char {
    if sector == 0 {
        '↑'
    } else if sector == 1 {
        '↗'
    } else if sector == 2 {
        '→'
    } else if sector == 3 {
        '↘'
    } else if sector == 4 {
        '↓'
    } else if sector == 5 {
        '↙'
    } else if sector == 6 {
        '←'
    } else {
        '↖'
    }
}

/// The name of a compass sector, counted clockwise from north.
pub open spec fn sector_name(sector: int) -> Seq<char> {
    if sector == 0 {
        "N"@
    } else if sector == 1 {
        "NE"@
    } else if sector == 2 {
        "E"@
    } else if sector == 3 {
        "SE"@
    } else if sector == 4 {
        "S"@
    } else if sector == 5 {
        "SW"@
    } else if sector == 6 {
        "W"@
    } else {
        "NW"@
    }
}

/// The arrow of the sector `octant % 8`.
pub fn arrow_of(octant: usize) -> (r: char)
    ensures
        r == sector_arrow((octant % 8) as int),
{
    let s = octant % 8;
    if s == 0 {
        '↑'
    } else if s == 1 {
        '↗'
    } else if s == 2 {
        '→'
    } else if s == 3 {
        '↘'
    } else if s == 4 {
        '↓'
    } else if s == 5 {
        '↙'
    } else if s == 6 {
        '←'
    } else {
        '↖'
    }
}

/// The name of the sector `octant % 8`.
pub fn name_of(octant: usize) -> (r: &'static str)
    ensures
        r@ == sector_name((octant % 8) as int),
{
    let s = octant % 8;
    if s == 0 {
        "N"
    } else if s == 1 {
        "NE"
    } else if s == 2 {
        "E"
    } else if s == 3 {
        "SE"
    } else if s == 4 {
        "S"
    } else if s == 5 {
        "SW"
    } else if s == 6 {
        "W"
    } else {
        "NW"
    }
}

/// Directions a full turn apart show the same arrow and name.
pub proof fn lemma_sector_period(octant: nat)
    ensures
        sector_arrow(((octant + 8) % 8) as int) == sector_arrow((octant % 8) as int),
        sector_name(((octant + 8) % 8) as int) == sector_name((octant % 8) as int),
{
    assert((octant + 8) % 8 == octant % 8);
}


/// The compass rose, clockwise from north: sector `k` of a direction is
/// `octant % 8`, shown as this arrow and name.
pub proof fn lemma_compass_rose()
    ensures
        sector_arrow(0) == '↑' && sector_name(0) == "N"@,
        sector_arrow(1) == '↗' && sector_name(1) == "NE"@,
        sector_arrow(2) == '→' && sector_name(2) == "E"@,
        sector_arrow(3) == '↘' && sector_name(3) == "SE"@,
        sector_arrow(4) == '↓' && sector_name(4) == "S"@,
        sector_arrow(5) == '↙' && sector_name(5) == "SW"@,
        sector_arrow(6) == '←' && sector_name(6) == "W"@,
        sector_arrow(7) == '↖' && sector_name(7) == "NW"@,
{
}

} // verus!
