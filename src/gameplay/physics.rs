use vstd::prelude::*;

verus! {

/// Which sides of an entity touch another collider, as probed this tick.
#[derive(Clone, Copy, Debug, Default, PartialEq, Eq, Structural)]
pub struct CollisionState {
    pub top: bool,
    pub bottom: bool,
    pub left: bool,
    pub right: bool,
}

/// The four directions in which an entity is probed.
#[derive(Clone, Copy, Debug, PartialEq, Eq, Structural)]
pub enum Direction {
    Up,
    Down,
    Left,
    Right,
}

impl Direction {
    /// The unit vector of the direction, with y pointing up.
    pub fn unit(self) -> (r: (i32, i32))
        ensures
            r == match self {
                Direction::Up => (0i32, 1i32),
                Direction::Down => (0i32, -1i32),
                Direction::Left => (-1i32, 0i32),
                Direction::Right => (1i32, 0i32),
            },
    {
        match self {
            Direction::Up => (0, 1),
            Direction::Down => (0, -1),
            Direction::Left => (-1, 0),
            Direction::Right => (1, 0),
        }
    }
}

impl CollisionState {
    /// Whether the probe in direction `dir` hit something.
    pub open spec fn side(self, dir: Direction) -> bool {
        match dir {
            Direction::Up => self.top,
            Direction::Down => self.bottom,
            Direction::Left => self.left,
            Direction::Right => self.right,
        }
    }

    /// No contact on any side.
    pub fn new() -> (r: CollisionState)
        ensures
            r == (CollisionState { top: false, bottom: false, left: false, right: false }),
    {
        CollisionState { top: false, bottom: false, left: false, right: false }
    }

    /// Something is directly beneath the entity.
    pub fn is_grounded(&self) -> (r: bool)
        ensures
            r == self.bottom,
    {
        self.bottom
    }

    /// Records the probe result for one direction; the other three sides are
    /// left as they were.
    pub fn with_contact(self, dir: Direction, hit: bool) -> (r: CollisionState)
        ensures
            r.side(dir) == hit,
            forall|d: Direction| d != dir ==> r.side(d) == self.side(d),
    {
        match dir {
            Direction::Up => CollisionState { top: hit, ..self },
            Direction::Down => CollisionState { bottom: hit, ..self },
            Direction::Left => CollisionState { left: hit, ..self },
            Direction::Right => CollisionState { right: hit, ..self },
        }
    }
}

} // verus!
