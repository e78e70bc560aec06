//! Planar rotation directions.

use vstd::prelude::*;

verus! {

/// A planar vector with integer coordinates.
#[derive(Clone, Copy, Debug, PartialEq, Eq, Structural)]
pub struct Vector2 {
    pub x: i64,
    pub y: i64,
}

/// The sense of a planar rotation, or none at all.
#[derive(Clone, Copy, Debug, Default, PartialEq, Eq, Structural)]
pub enum Direction {
    Clockwise,
    Counterclockwise,
    #[default]
    Colinear,
}

impl Direction {
    /// Rotates `subject` by a quarter turn in this direction; a colinear
    /// direction leaves it untouched.
    pub fn rotate_vector_90_degrees(&self, subject: Vector2) -> (r: Vector2)
        requires
            subject.x > i64::MIN,
            subject.y > i64::MIN,
        ensures
            match *self {
                Direction::Clockwise => r.x == subject.y && r.y == -(subject.x as int),
                Direction::Counterclockwise => r.x == -(subject.y as int) && r.y == subject.x,
                Direction::Colinear => r == subject,
            },
    {
        match self {
            Direction::Clockwise => Vector2 { x: subject.y, y: -subject.x },
            Direction::Counterclockwise => Vector2 { x: -subject.y, y: subject.x },
            Direction::Colinear => subject,
        }
    }
}

} // verus!
