use rover_plateau::fleet::Fleet;
use rover_plateau::{Direction, Point, Rover};

#[test]
fn empty_fleet_holds_nothing() {
    let fleet = Fleet::new();
    assert!(!fleet.contains("R1"));
    assert_eq!(fleet.get("R1"), None);
    assert!(!fleet.any_at(&Point::new(0, 0)));
}

#[test]
fn inserted_rovers_are_found_by_name_and_by_cell() {
    let mut fleet = Fleet::new();
    fleet.insert(String::from("R1"), Rover::new(Point::new(1, 2), Direction::North));
    fleet.insert(String::from("R2"), Rover::new(Point::new(3, 4), Direction::West));
    assert!(fleet.contains("R1"));
    assert!(fleet.contains("R2"));
    assert!(!fleet.contains("R3"));
    assert_eq!(fleet.get("R1"), Some(Rover::new(Point::new(1, 2), Direction::North)));
    assert_eq!(fleet.get("R2"), Some(Rover::new(Point::new(3, 4), Direction::West)));
    assert!(fleet.any_at(&Point::new(1, 2)));
    assert!(fleet.any_at(&Point::new(3, 4)));
    assert!(!fleet.any_at(&Point::new(1, 4)));
}

#[test]
fn relocate_moves_one_rover_and_keeps_its_heading() {
    let mut fleet = Fleet::new();
    fleet.insert(String::from("R1"), Rover::new(Point::new(1, 2), Direction::North));
    fleet.insert(String::from("R2"), Rover::new(Point::new(3, 4), Direction::West));
    fleet.relocate("R1", Point::new(1, 3));
    assert_eq!(fleet.get("R1"), Some(Rover::new(Point::new(1, 3), Direction::North)));
    assert_eq!(fleet.get("R2"), Some(Rover::new(Point::new(3, 4), Direction::West)));
    assert!(!fleet.any_at(&Point::new(1, 2)));
    assert!(fleet.any_at(&Point::new(1, 3)));
}
