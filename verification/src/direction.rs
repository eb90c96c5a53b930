//! Closed compass enumerations: the four cardinal directions and the
//! eight-way directions that refine them.
//!
//! The conversions between the two enumerations map each cardinal to its
//! geometric opposite, not to itself; negating twice, or widening and
//! then narrowing, is the identity. Callers depend on this sign
//! convention, so it is preserved exactly.

use vstd::prelude::*;

verus! {

/// The four cardinal compass directions.
#[derive(Clone, Copy, Debug, PartialEq, Eq, Structural, Hash)]
pub enum Cardinal {
    North,
    East,
    South,
    West,
}

/// The eight compass directions: the cardinals and their diagonals.
#[derive(Clone, Copy, Debug, PartialEq, Eq, Structural, Hash)]
pub enum Direction {
    North,
    Northeast,
    East,
    Southeast,
    South,
    Southwest,
    West,
    Northwest,
}

/// The diametrically opposite cardinal.
pub open spec fn spec_neg_cardinal(c: Cardinal) -> Cardinal {
    match c {
        Cardinal::North => Cardinal::South,
        Cardinal::South => Cardinal::North,
        Cardinal::East => Cardinal::West,
        Cardinal::West => Cardinal::East,
    }
}

/// The diametrically opposite direction.
pub open spec fn spec_neg_direction(d: Direction) -> Direction {
    match d {
        Direction::North => Direction::South,
        Direction::Northeast => Direction::Southwest,
        Direction::East => Direction::West,
        Direction::Southeast => Direction::Northwest,
        Direction::South => Direction::North,
        Direction::Southwest => Direction::Northeast,
        Direction::West => Direction::East,
        Direction::Northwest => Direction::Southeast,
    }
}

/// The widening of a cardinal into the eight-way enumeration: each
/// cardinal maps to the direction opposite it.
pub open spec fn spec_direction_of_cardinal(c: Cardinal) -> Direction {
    match c {
        Cardinal::North => Direction::South,
        Cardinal::South => Direction::North,
        Cardinal::East => Direction::West,
        Cardinal::West => Direction::East,
    }
}

/// The narrowing of a direction into the four-way enumeration: each
/// cardinal direction maps to the cardinal opposite it, and the four
/// diagonals are not representable.
pub open spec fn spec_cardinal_of_direction(d: Direction) -> Result<Cardinal, ()> {
    match d {
        Direction::North => Ok(Cardinal::South),
        Direction::East => Ok(Cardinal::West),
        Direction::South => Ok(Cardinal::North),
        Direction::West => Ok(Cardinal::East),
        _ => Err(()),
    }
}

impl Cardinal {
    /// The diametrically opposite cardinal.
    pub fn neg(self) -> (r: Self)
        ensures
            r == spec_neg_cardinal(self),
    {
        match self {
            Cardinal::North => Cardinal::South,
            Cardinal::South => Cardinal::North,
            Cardinal::East => Cardinal::West,
            Cardinal::West => Cardinal::East,
        }
    }

    /// Narrows a direction to a cardinal, mapping each cardinal direction
    /// to its opposite; the four diagonals yield the no-value outcome.
    pub fn try_from(direction: Direction) -> (r: Result<Self, ()>)
        ensures
            r == spec_cardinal_of_direction(direction),
    {
        match direction {
            Direction::North => Ok(Cardinal::South),
            Direction::East => Ok(Cardinal::West),
            Direction::South => Ok(Cardinal::North),
            Direction::West => Ok(Cardinal::East),
            _ => Err(()),
        }
    }
}

impl Direction {
    /// The diametrically opposite direction.
    pub fn neg(self) -> (r: Self)
        ensures
            r == spec_neg_direction(self),
    {
        match self {
            Direction::North => Direction::South,
            Direction::Northeast => Direction::Southwest,
            Direction::East => Direction::West,
            Direction::Southeast => Direction::Northwest,
            Direction::South => Direction::North,
            Direction::Southwest => Direction::Northeast,
            Direction::West => Direction::East,
            Direction::Northwest => Direction::Southeast,
        }
    }

    /// Widens a cardinal to a direction, mapping it to its opposite.
    pub fn from(cardinal: Cardinal) -> (r: Self)
        ensures
            r == spec_direction_of_cardinal(cardinal),
    {
        match cardinal {
            Cardinal::North => Direction::South,
            Cardinal::South => Direction::North,
            Cardinal::East => Direction::West,
            Cardinal::West => Direction::East,
        }
    }
}

/// Widening a cardinal to a direction and narrowing it back round-trips
/// to the cardinal itself: the two opposite-mappings cancel.
pub proof fn lemma_cardinal_round_trip(c: Cardinal)
    ensures
        spec_cardinal_of_direction(spec_direction_of_cardinal(c)) == Ok::<Cardinal, ()>(c),
{
}

} // verus!
