use rover_plateau::{Direction, Plateau, Point};

#[test]
fn init_plateau_basic() {
    let plateau = Plateau::new(Point::new(0, 0), Point::new(100, 100));
    assert_eq!(plateau.southwest(), Point::new(0, 0));
    assert_eq!(plateau.northeast(), Point::new(100, 100));
}

#[test]
fn init_plateau_flexible() {
    let plateau = Plateau::new(Point::new(0, 0), Point::new(-100, 100));
    assert_eq!(plateau.southwest(), Point::new(-100, 0));
    assert_eq!(plateau.northeast(), Point::new(0, 100));
}

#[test]
fn add_rover_success() {
    let mut plateau = Plateau::new(Point::new(0, 0), Point::new(100, 100));
    plateau.add_rover(String::from("My Rover"), Point::new(0, 0), Direction::East).unwrap();
    assert_eq!(plateau.rover_exists("My Rover"), true);
}

#[test]
fn add_rover_outside_of_plateau_error() {
    let mut plateau = Plateau::new(Point::new(1, 1), Point::new(10, 10));
    let result = plateau.add_rover(String::from("R1"), Point::new(20, 20), Direction::East);
    assert!(result.is_err());
}

#[test]
fn add_rover_multiple_times_error() {
    let mut plateau = Plateau::new(Point::new(1, 1), Point::new(10, 10));
    plateau.add_rover(String::from("R1"), Point::new(5, 5), Direction::East).unwrap();
    let result = plateau.add_rover(String::from("R1"), Point::new(6, 5), Direction::East);
    assert!(result.is_err());
}

#[test]
fn add_rover_collision_error() {
    let mut plateau = Plateau::new(Point::new(1, 1), Point::new(10, 10));
    plateau.add_rover(String::from("R1"), Point::new(5, 5), Direction::East).unwrap();
    let result = plateau.add_rover(String::from("R2"), Point::new(5, 5), Direction::East);
    assert!(result.is_err());
}

#[test]
fn plateau_contains_point() {
    let plateau = Plateau::new(Point::new(1, 1), Point::new(100, 100));
    assert!(plateau.contains(&Point::new(1, 1)));
    assert!(plateau.contains(&Point::new(10, 10)));
    assert!(plateau.contains(&Point::new(100, 100)));

    assert!(!plateau.contains(&Point::new(0, 1)));
    assert!(!plateau.contains(&Point::new(1, 0)));
    assert!(!plateau.contains(&Point::new(101, 1)));
    assert!(!plateau.contains(&Point::new(1, 101)));
    assert!(!plateau.contains(&Point::new(-1, 1001)));
}

#[test]
fn move_single_rover() {
    let mut plateau = Plateau::new(Point::new(0, 0), Point::new(10, 10));
    plateau.add_rover(String::from("R1"), Point::new(9, 9), Direction::East).unwrap();
    plateau.move_rover("R1").unwrap();
    assert_eq!(plateau.rover_position("R1").unwrap(), Point::new(10, 9));

    plateau.move_rover("R1").unwrap();
    // end of plateau, should no longer move
    assert_eq!(plateau.rover_position("R1").unwrap(), Point::new(10, 9));
}

#[test]
fn move_multiple_rovers() {
    let mut plateau = Plateau::new(Point::new(0, 0), Point::new(100, 100));
    plateau.add_rover(String::from("R1"), Point::new(0, 1), Direction::East).unwrap();
    plateau.add_rover(String::from("R2"), Point::new(1, 1), Direction::North).unwrap();

    // r1 cannot move east: r2 is blocking it
    let _ = plateau.move_rover("R1");
    assert_eq!(plateau.rover_position("R1").unwrap(), Point::new(0, 1));

    // Move r2
    let _ = plateau.move_rover("R2");

    // Now r1 can move
    let _ = plateau.move_rover("R1");
    assert_eq!(plateau.rover_position("R1").unwrap(), Point::new(1, 1));
}
