//! Structs, tuple structs, newtypes and enums, and the events of an
//! elevator.
use vstd::prelude::*;

verus! {

/// A person, by name and age in years.
pub struct Person {
    pub name: String,
    pub age: u8,
}

/// A point on the integer grid.
#[derive(Debug, Clone, Copy, PartialEq, Eq, Structural)]
pub struct Point(pub i32, pub i32);

/// The sum of two points, coordinate by coordinate.
pub fn add_points(p1: &Point, p2: &Point) -> (r: Point)
    requires
        i32::MIN <= p1.0 + p2.0 <= i32::MAX,
        i32::MIN <= p1.1 + p2.1 <= i32::MAX,
    ensures
        r.0 == p1.0 + p2.0,
        r.1 == p1.1 + p2.1,
{
    let new_point: Point = Point(p1.0 + p2.0, p1.1 + p2.1);
    new_point
}

/// A task period in milliseconds.
#[derive(Debug, Clone, Copy, PartialEq, Eq, Structural)]
pub struct TaskCadenceMs(pub u32);

/// The period of the periodic task: ten milliseconds.
pub fn get_task_cadence() -> (r: TaskCadenceMs)
    ensures
        r == TaskCadenceMs(10),
{
    TaskCadenceMs(10)
}

#[derive(Debug, Clone, Copy, PartialEq, Eq, Structural)]
pub enum Directional {
    Left,
    Right,
}

/// A player's move: stay, run one way, or jump to a point.
#[derive(Debug, Clone, Copy, PartialEq, Eq, Structural)]
pub enum PlayerMove {
    Pass,
    Run(Directional),
    Teleport { x: i32, y: i32 },
}

/// A run to the left.
pub fn create_player_move() -> (r: PlayerMove)
    ensures
        r == PlayerMove::Run(Directional::Left),
{
    let player_move: PlayerMove = PlayerMove::Run(Directional::Left);
    player_move
}

/// A cadence of a hundred milliseconds.
pub const CADENCE_MS: u32 = 100;

/// An event in the elevator system that the controller must react to.
#[derive(Debug, Clone, Copy, PartialEq, Eq, Structural)]
pub enum Event {
    /// The car has arrived on the given floor.
    Arrived(i32),
    /// The car doors have opened.
    DoorOpen,
    /// The car doors have closed.
    DoorClosed,
    /// A directional button was pressed in an elevator lobby on the given
    /// floor.
    Call(i32, Direction),
    /// A floor button was pressed in the elevator car.
    FloorButton(i32),
}

/// A direction of travel.
#[derive(Debug, Clone, Copy, PartialEq, Eq, Structural)]
pub enum Direction {
    Up,
    Down,
}

/// The car has arrived on the given floor.
pub fn car_arrived(floor: i32) -> (r: Event)
    ensures
        r == Event::Arrived(floor),
{
    Event::Arrived(floor)
}

/// The car doors have opened.
pub fn car_door_opened() -> (r: Event)
    ensures
        r == Event::DoorOpen,
{
    Event::DoorOpen
}

/// The car doors have closed.
pub fn car_door_closed() -> (r: Event)
    ensures
        r == Event::DoorClosed,
{
    Event::DoorClosed
}

/// A directional button was pressed in an elevator lobby on the given floor.
pub fn lobby_call_button_pressed(floor: i32, dir: Direction) -> (r: Event)
    ensures
        r == Event::Call(floor, dir),
{
    Event::Call(floor, dir)
}

/// A floor button was pressed in the elevator car.
pub fn car_floor_button_pressed(floor: i32) -> (r: Event)
    ensures
        r == Event::FloorButton(floor),
{
    Event::FloorButton(floor)
}

} // verus!
