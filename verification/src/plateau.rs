//! The plateau: bounds, registered rovers, and the rules for registering
//! and moving them.

use vstd::prelude::*;
use crate::fleet::{some_rover_at, Fleet};
use crate::geometry::{Direction, Point, Rover};

verus! {

/// Why a request to a plateau was refused.
#[derive(Debug, Clone, Copy, PartialEq, Eq, Structural)]
pub enum PlateauError {
    /// A rover is already registered under the name.
    DuplicateName,
    /// The cell lies outside the plateau.
    OutOfBounds,
    /// Another rover stands on the cell.
    PositionOccupied,
    /// No rover is registered under the name.
    UnknownRover,
}

/// A rectangular grid, bounded inclusively by its south-west and north-east
/// corners, together with the rovers that stand on it.
pub struct Plateau {
    sw: Point,
    ne: Point,
    fleet: Fleet,
}

/// The south-west corner of the rectangle spanned by `a` and `b`.
pub open spec fn southwest_of(a: Point, b: Point) -> Point {
    Point { x: if a.x <= b.x { a.x } else { b.x }, y: if a.y <= b.y { a.y } else { b.y } }
}

/// The north-east corner of the rectangle spanned by `a` and `b`.
pub open spec fn northeast_of(a: Point, b: Point) -> Point {
    Point { x: if a.x >= b.x { a.x } else { b.x }, y: if a.y >= b.y { a.y } else { b.y } }
}

/// The rover that results when `rover` takes the step to `target`.
pub open spec fn advanced(rover: Rover, target: (int, int)) -> Rover {
    Rover { point: Point { x: target.0 as i64, y: target.1 as i64 }, direction: rover.direction }
}

impl Plateau {
    /// The south-west corner.
    pub closed spec fn sw(&self) -> Point {
        self.sw
    }

    /// The north-east corner.
    pub closed spec fn ne(&self) -> Point {
        self.ne
    }

    /// The registered rovers, by name.
    pub closed spec fn rovers(&self) -> Map<Seq<char>, Rover> {
        self.fleet@
    }

    /// Whether the cell `c` lies within the bounds, corners included.
    pub open spec fn inside(&self, c: (int, int)) -> bool {
        &&& self.sw().x <= c.0 <= self.ne().x
        &&& self.sw().y <= c.1 <= self.ne().y
    }

    /// Whether some registered rover stands on the cell `c`.
    pub open spec fn occupied(&self, c: (int, int)) -> bool {
        some_rover_at(self.rovers(), c)
    }

    /// The cell that the rover registered under `name` faces.
    pub open spec fn facing(&self, name: Seq<char>) -> (int, int)
        recommends
            self.rovers().contains_key(name),
    {
        self.rovers()[name].point.target(self.rovers()[name].direction)
    }

    /// Whether the rover registered under `name` can take its step: the
    /// cell it faces lies within the bounds and is free.
    pub open spec fn can_advance(&self, name: Seq<char>) -> bool
        recommends
            self.rovers().contains_key(name),
    {
        self.inside(self.facing(name)) && !self.occupied(self.facing(name))
    }

    /// The answer to a request to register a rover under `name` at `point`:
    /// the first rule that the request breaks decides.
    pub open spec fn admission(&self, name: Seq<char>, point: Point) -> Result<(), PlateauError> {
        if self.rovers().contains_key(name) {
            Err(PlateauError::DuplicateName)
        } else if !self.inside(point@) {
            Err(PlateauError::OutOfBounds)
        } else if self.occupied(point@) {
            Err(PlateauError::PositionOccupied)
        } else {
            Ok(())
        }
    }

    /// The rovers after a request to move the one registered under `name`:
    /// it takes its step if it can, and nothing changes if it cannot.
    pub open spec fn after_move(&self, name: Seq<char>) -> Map<Seq<char>, Rover>
        recommends
            self.rovers().contains_key(name),
    {
        if self.can_advance(name) {
            self.rovers().insert(name, advanced(self.rovers()[name], self.facing(name)))
        } else {
            self.rovers()
        }
    }

    /// The arena of rovers is consistent with its index.
    pub closed spec fn coherent(&self) -> bool {
        self.fleet.wf()
    }

    /// What holds of every plateau: the corners are ordered, the rovers are
    /// finitely many, every rover stands within the bounds, and no two
    /// rovers share a cell.
    #[verifier::type_invariant]
    pub open spec fn wf(&self) -> bool {
        &&& self.coherent()
        &&& self.rovers().dom().finite()
        &&& self.sw().x <= self.ne().x
        &&& self.sw().y <= self.ne().y
        &&& forall|n: Seq<char>| #[trigger]
            self.rovers().contains_key(n) ==> self.inside(self.rovers()[n].point@)
        &&& forall|a: Seq<char>, b: Seq<char>|
            #![trigger self.rovers().contains_key(a), self.rovers().contains_key(b)]
            self.rovers().contains_key(a) && self.rovers().contains_key(b) && a != b
                ==> self.rovers()[a].point != self.rovers()[b].point
    }

    /// An empty plateau spanned by two corners, given in any order.
    pub fn new(point1: Point, point2: Point) -> (plateau: Plateau)
        ensures
            plateau.sw() == southwest_of(point1, point2),
            plateau.ne() == northeast_of(point1, point2),
            plateau.rovers() == Map::<Seq<char>, Rover>::empty(),
            plateau.wf(),
    {
        let sw = Point::new(
            if point1.x <= point2.x { point1.x } else { point2.x },
            if point1.y <= point2.y { point1.y } else { point2.y },
        );
        let ne = Point::new(
            if point1.x >= point2.x { point1.x } else { point2.x },
            if point1.y >= point2.y { point1.y } else { point2.y },
        );
        Plateau { sw, ne, fleet: Fleet::new() }
    }

    /// The south-west corner.
    pub fn southwest(&self) -> (corner: Point)
        ensures
            corner == self.sw(),
    {
        self.sw
    }

    /// The north-east corner.
    pub fn northeast(&self) -> (corner: Point)
        ensures
            corner == self.ne(),
    {
        self.ne
    }

    /// Whether `point` lies within the bounds, corners included.
    pub fn contains(&self, point: &Point) -> (within: bool)
        ensures
            within == self.inside(point@),
    {
        point.x <= self.ne.x && point.x >= self.sw.x && point.y <= self.ne.y && point.y >= self.sw.y
    }

    /// Whether a rover is registered under `name`.
    pub fn rover_exists(&self, name: &str) -> (registered: bool)
        ensures
            registered == self.rovers().contains_key(name@),
    {
        self.fleet.contains(name)
    }

    /// Whether some registered rover stands on `point`.
    pub fn has_rover_at(&self, point: &Point) -> (taken: bool)
        ensures
            taken == self.occupied(point@),
    {
        proof {
            use_type_invariant(self);
        }
        self.fleet.any_at(point)
    }

    /// Registers a rover under `name` at `point`, heading in `direction`.
    ///
    /// The request is refused, and nothing changes, if the name is taken,
    /// else if the cell lies outside the bounds, else if another rover
    /// stands on it.
    pub fn add_rover(&mut self, name: String, point: Point, direction: Direction) -> (res: Result<
        (),
        PlateauError,
    >)
        ensures
            res == old(self).admission(name@, point),
            final(self).sw() == old(self).sw(),
            final(self).ne() == old(self).ne(),
            res is Ok ==> final(self).rovers() == old(self).rovers().insert(
                name@,
                Rover { point, direction },
            ),
            res is Err ==> final(self).rovers() == old(self).rovers(),
            final(self).wf(),
    {
        proof {
            use_type_invariant(&*self);
        }
        if self.rover_exists(name.as_str()) {
            return Err(PlateauError::DuplicateName);
        }
        if !self.contains(&point) {
            return Err(PlateauError::OutOfBounds);
        }
        if self.has_rover_at(&point) {
            return Err(PlateauError::PositionOccupied);
        }
        let rover = Rover::new(point, direction);
        // The fleet is taken out while it changes and put back once it is
        // consistent again, so that the plateau is valid at every step.
        let mut fleet = Fleet::new();
        core::mem::swap(&mut self.fleet, &mut fleet);
        fleet.insert(name, rover);
        core::mem::swap(&mut self.fleet, &mut fleet);
        Ok(())
    }

    /// Asks the rover registered under `name` to advance one cell in its
    /// heading.
    ///
    /// An unknown name is an error. A known rover advances if the cell it
    /// faces lies within the bounds and is free; if not it stays where it
    /// is, and the request still succeeds.
    pub fn move_rover(&mut self, name: &str) -> (res: Result<(), PlateauError>)
        ensures
            final(self).sw() == old(self).sw(),
            final(self).ne() == old(self).ne(),
            old(self).rovers().contains_key(name@) ==> res == Ok::<(), PlateauError>(())
                && final(self).rovers() == old(self).after_move(name@),
            !old(self).rovers().contains_key(name@) ==> res == Err::<(), PlateauError>(
                PlateauError::UnknownRover,
            ) && final(self).rovers() == old(self).rovers(),
            final(self).wf(),
    {
        proof {
            use_type_invariant(&*self);
        }
        let rover = match self.fleet.get(name) {
            Some(rover) => rover,
            None => {
                return Err(PlateauError::UnknownRover);
            },
        };
        match rover.point.step(rover.direction) {
            Some(next) => {
                if self.contains(&next) && !self.has_rover_at(&next) {
                    let mut fleet = Fleet::new();
                    core::mem::swap(&mut self.fleet, &mut fleet);
                    fleet.relocate(name, next);
                    core::mem::swap(&mut self.fleet, &mut fleet);
                }
            },
            None => {},
        }
        Ok(())
    }

    /// The cell on which the rover registered under `name` stands.
    pub fn rover_position(&self, name: &str) -> (res: Result<Point, PlateauError>)
        ensures
            res == (if self.rovers().contains_key(name@) {
                Ok::<Point, PlateauError>(self.rovers()[name@].point)
            } else {
                Err::<Point, PlateauError>(PlateauError::UnknownRover)
            }),
            res matches Ok(p) ==> self.inside(p@),
    {
        proof {
            use_type_invariant(self);
        }
        match self.fleet.get(name) {
            Some(rover) => Ok(rover.point),
            None => Err(PlateauError::UnknownRover),
        }
    }
}

} // verus!
