//! Laws of the plateau, stated over its model and proved once for all
//! plateaus.

use vstd::prelude::*;
use crate::geometry::{Direction, Point, Rover};
use crate::plateau::{northeast_of, southwest_of, Plateau, PlateauError};

verus! {

/// The order in which the two corners are given does not matter: both
/// orders span the same rectangle.
pub proof fn corner_order_is_irrelevant(a: Point, b: Point)
    ensures
        southwest_of(a, b) == southwest_of(b, a),
        northeast_of(a, b) == northeast_of(b, a),
        southwest_of(a, b).x <= northeast_of(a, b).x,
        southwest_of(a, b).y <= northeast_of(a, b).y,
{
}

/// The bounds are inclusive: all four corners lie inside the plateau.
pub proof fn corners_are_inside(plateau: Plateau)
    requires
        plateau.wf(),
    ensures
        plateau.inside((plateau.sw().x as int, plateau.sw().y as int)),
        plateau.inside((plateau.sw().x as int, plateau.ne().y as int)),
        plateau.inside((plateau.ne().x as int, plateau.sw().y as int)),
        plateau.inside((plateau.ne().x as int, plateau.ne().y as int)),
{
}

/// A cell that exceeds a bound on either axis, in either direction, lies
/// outside the plateau.
pub proof fn beyond_a_bound_is_outside(plateau: Plateau, c: (int, int))
    requires
        c.0 < plateau.sw().x || c.0 > plateau.ne().x || c.1 < plateau.sw().y || c.1
            > plateau.ne().y,
    ensures
        !plateau.inside(c),
{
}

/// Once a rover is registered under a name, any further registration
/// under that name is refused as a duplicate, wherever it asks to stand,
/// and the first rover is still the one registered.
pub proof fn second_registration_is_duplicate(
    before: Plateau,
    after: Plateau,
    name: Seq<char>,
    first: Rover,
    point: Point,
)
    requires
        before.admission(name, first.point) is Ok,
        after.rovers() == before.rovers().insert(name, first),
    ensures
        after.admission(name, point) == Err::<(), PlateauError>(PlateauError::DuplicateName),
        after.rovers()[name] == first,
{
}

/// An accepted registration adds exactly one rover, and touches no other.
pub proof fn registration_adds_one_rover(plateau: Plateau, name: Seq<char>, rover: Rover)
    requires
        plateau.wf(),
        plateau.admission(name, rover.point) is Ok,
    ensures
        plateau.rovers().insert(name, rover).len() == plateau.rovers().len() + 1,
        plateau.rovers().insert(name, rover)[name] == rover,
        forall|other: Seq<char>| #[trigger]
            plateau.rovers().contains_key(other) ==> plateau.rovers().insert(name, rover)[other]
                == plateau.rovers()[other],
{
}

/// A registration under a free name at a cell outside the bounds is
/// refused as out of bounds.
pub proof fn outside_cell_is_refused(plateau: Plateau, name: Seq<char>, point: Point)
    requires
        !plateau.rovers().contains_key(name),
        !plateau.inside(point@),
    ensures
        plateau.admission(name, point) == Err::<(), PlateauError>(PlateauError::OutOfBounds),
{
}

/// A registration under a free name at the cell on which a registered
/// rover stands is refused as occupied.
pub proof fn shared_cell_is_refused(plateau: Plateau, holder: Seq<char>, name: Seq<char>)
    requires
        plateau.wf(),
        plateau.rovers().contains_key(holder),
        !plateau.rovers().contains_key(name),
    ensures
        plateau.admission(name, plateau.rovers()[holder].point) == Err::<(), PlateauError>(
            PlateauError::PositionOccupied,
        ),
{
    let point = plateau.rovers()[holder].point;
    assert(plateau.rovers().contains_key(holder) && plateau.rovers()[holder].point@ == point@);
}

/// A rover on the north-east corner that heads east or north stays where
/// it is when asked to move.
pub proof fn northeast_corner_stops_rover(plateau: Plateau, name: Seq<char>)
    requires
        plateau.rovers().contains_key(name),
        plateau.rovers()[name].point == plateau.ne(),
        plateau.rovers()[name].direction == Direction::East || plateau.rovers()[name].direction
            == Direction::North,
    ensures
        !plateau.can_advance(name),
        plateau.after_move(name) == plateau.rovers(),
{
}

/// A rover on the south-west corner that heads west or south stays where
/// it is when asked to move.
pub proof fn southwest_corner_stops_rover(plateau: Plateau, name: Seq<char>)
    requires
        plateau.rovers().contains_key(name),
        plateau.rovers()[name].point == plateau.sw(),
        plateau.rovers()[name].direction == Direction::West || plateau.rovers()[name].direction
            == Direction::South,
    ensures
        !plateau.can_advance(name),
        plateau.after_move(name) == plateau.rovers(),
{
}

/// A rover that can take its step stands, after the move, exactly one unit
/// delta away from where it stood, and keeps its heading; every other
/// rover is untouched.
pub proof fn move_lands_on_faced_cell(plateau: Plateau, name: Seq<char>)
    requires
        plateau.rovers().contains_key(name),
        plateau.can_advance(name),
    ensures
        plateau.after_move(name).dom() == plateau.rovers().dom(),
        plateau.after_move(name)[name].point@ == (
            plateau.rovers()[name].point.x + plateau.rovers()[name].direction.delta().0,
            plateau.rovers()[name].point.y + plateau.rovers()[name].direction.delta().1,
        ),
        plateau.after_move(name)[name].direction == plateau.rovers()[name].direction,
        forall|other: Seq<char>|
            other != name && plateau.rovers().contains_key(other) ==> #[trigger] plateau.after_move(
                name,
            )[other] == plateau.rovers()[other],
{
    assert(plateau.after_move(name).dom() =~= plateau.rovers().dom());
}

/// A rover that cannot take its step, because the cell it faces lies
/// outside the bounds or is taken, is left where it is.
pub proof fn refused_move_changes_nothing(plateau: Plateau, name: Seq<char>)
    requires
        plateau.rovers().contains_key(name),
        !plateau.inside(plateau.facing(name)) || plateau.occupied(plateau.facing(name)),
    ensures
        plateau.after_move(name) == plateau.rovers(),
{
}

/// Every registered rover stands inside the bounds, and no other rover
/// stands on its cell.
pub proof fn rovers_stand_inside_and_apart(plateau: Plateau, name: Seq<char>)
    requires
        plateau.wf(),
        plateau.rovers().contains_key(name),
    ensures
        plateau.inside(plateau.rovers()[name].point@),
        plateau.occupied(plateau.rovers()[name].point@),
        forall|other: Seq<char>|
            other != name && #[trigger] plateau.rovers().contains_key(other)
                ==> plateau.rovers()[other].point@ != plateau.rovers()[name].point@,
{
    assert forall|other: Seq<char>|
        other != name && #[trigger] plateau.rovers().contains_key(other)
        implies plateau.rovers()[other].point@ != plateau.rovers()[name].point@ by {
        assert(plateau.rovers().contains_key(name));
    }
}

/// A request to move keeps every rover inside the bounds and no two
/// rovers on one cell, whether the step is taken or refused.
pub proof fn move_keeps_rovers_inside_and_apart(plateau: Plateau, name: Seq<char>)
    requires
        plateau.wf(),
        plateau.rovers().contains_key(name),
    ensures
        forall|n: Seq<char>| #[trigger]
            plateau.after_move(name).contains_key(n) ==> plateau.inside(
                plateau.after_move(name)[n].point@,
            ),
        forall|a: Seq<char>, b: Seq<char>|
            #![trigger plateau.after_move(name).contains_key(a), plateau.after_move(name).contains_key(b)]
            plateau.after_move(name).contains_key(a) && plateau.after_move(name).contains_key(b)
                && a != b ==> plateau.after_move(name)[a].point != plateau.after_move(name)[b].point,
{
    let after = plateau.after_move(name);
    if plateau.can_advance(name) {
        assert forall|a: Seq<char>, b: Seq<char>|
            after.contains_key(a) && after.contains_key(b) && a != b implies after[a].point
            != after[b].point by {
            assert(plateau.rovers().contains_key(a));
            assert(plateau.rovers().contains_key(b));
        }
    }
}

} // verus!
