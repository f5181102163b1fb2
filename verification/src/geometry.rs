//! Grid cells, headings and rover records.

use vstd::prelude::*;

verus! {

/// A cell of the grid.
#[derive(Debug, Clone, Copy, PartialEq, Eq, Structural)]
pub struct Point {
    pub x: i64,
    pub y: i64,
}

/// The heading of a rover.
#[derive(Debug, Clone, Copy, PartialEq, Eq, Structural)]
pub enum Direction {
    North,
    East,
    South,
    West,
}

/// A rover's state: the cell it stands on and the heading it keeps.
#[derive(Debug, Clone, Copy, PartialEq, Eq, Structural)]
pub struct Rover {
    pub point: Point,
    pub direction: Direction,
}

impl View for Point {
    type V = (int, int);

    /// The cell as a pair of unbounded coordinates.
    open spec fn view(&self) -> (int, int) {
        (self.x as int, self.y as int)
    }
}

impl Direction {
    /// The change of coordinates made by one step in this heading.
    pub open spec fn delta(self) -> (int, int) {
        match self {
            Direction::North => (0, 1),
            Direction::East => (1, 0),
            Direction::South => (0, -1),
            Direction::West => (-1, 0),
        }
    }
}

impl Point {
    /// The cell with the given coordinates.
    pub fn new(x: i64, y: i64) -> (p: Point)
        ensures
            p.x == x,
            p.y == y,
    {
        Point { x, y }
    }

    /// The coordinates one step away in the given heading, which need not
    /// fit the machine's integers.
    pub open spec fn target(self, direction: Direction) -> (int, int) {
        (self.x + direction.delta().0, self.y + direction.delta().1)
    }

    /// Whether the given coordinates can be held by a `Point`.
    pub open spec fn representable(c: (int, int)) -> bool {
        i64::MIN <= c.0 <= i64::MAX && i64::MIN <= c.1 <= i64::MAX
    }

    /// The neighbouring cell in the given heading, or `None` where its
    /// coordinates leave the range of `i64`.
    pub fn step(&self, direction: Direction) -> (next: Option<Point>)
        ensures
            next.is_some() == Point::representable(self.target(direction)),
            next matches Some(p) ==> p@ == self.target(direction),
    {
        match direction {
            Direction::North => if self.y < i64::MAX {
                Some(Point { x: self.x, y: self.y + 1 })
            } else {
                None
            },
            Direction::East => if self.x < i64::MAX {
                Some(Point { x: self.x + 1, y: self.y })
            } else {
                None
            },
            Direction::South => if self.y > i64::MIN {
                Some(Point { x: self.x, y: self.y - 1 })
            } else {
                None
            },
            Direction::West => if self.x > i64::MIN {
                Some(Point { x: self.x - 1, y: self.y })
            } else {
                None
            },
        }
    }
}

impl Rover {
    /// A rover on `point` that heads in `direction`.
    pub fn new(point: Point, direction: Direction) -> (rover: Rover)
        ensures
            rover.point == point,
            rover.direction == direction,
    {
        Rover { point, direction }
    }
}

} // verus!
