use vstd::prelude::*;

use crate::input::{after_key, Direction, Key};

verus! {

/// The direction that a key drives the free-look camera in: W, A, S, D move
/// on the ground plane, Space rises and the left Shift key sinks.
pub open spec fn free_look_direction(key: Key) -> Option<Direction> {
    match key {
        Key::W => Some(Direction::Forward),
        Key::A => Some(Direction::Left),
        Key::S => Some(Direction::Backward),
        Key::D => Some(Direction::Right),
        Key::Space => Some(Direction::Up),
        Key::ShiftLeft => Some(Direction::Down),
        _ => None,
    }
}

/// The amount, 1 or 0, that a direction contributes while it is held or not.
pub open spec fn amount_of(held: Set<Direction>, d: Direction) -> int {
    if held.contains(d) {
        1
    } else {
        0
    }
}

/// The signed input along one axis: the amount of the positive direction
/// less the amount of the negative one.
pub open spec fn axis_input(held: Set<Direction>, positive: Direction, negative: Direction) -> int {
    amount_of(held, positive) - amount_of(held, negative)
}

/// The movement that the held keys ask for, one signed unit per axis; the
/// camera scales it by its speed and orientation.
#[derive(Clone, Copy, Debug, PartialEq, Eq, Structural)]
pub struct MoveInput {
    /// Forward less backward.
    pub forward: i8,
    /// Right less left.
    pub right: i8,
    /// Up less down.
    pub up: i8,
}

/// The key-driven part of the free-look camera controller: for each
/// direction, whether its key is held (an amount of 1) or not (0).
pub struct CameraController {
    amount_left: bool,
    amount_right: bool,
    amount_forward: bool,
    amount_backward: bool,
    amount_up: bool,
    amount_down: bool,
}

impl CameraController {
    /// Whether the key of a direction is held.
    pub closed spec fn holds(self, d: Direction) -> bool {
        match d {
            Direction::Forward => self.amount_forward,
            Direction::Backward => self.amount_backward,
            Direction::Left => self.amount_left,
            Direction::Right => self.amount_right,
            Direction::Up => self.amount_up,
            Direction::Down => self.amount_down,
        }
    }
}

impl View for CameraController {
    /// The set of held directions.
    type V = Set<Direction>;

    closed spec fn view(&self) -> Set<Direction> {
        Set::new(|d: Direction| self.holds(d))
    }
}

impl CameraController {
    /// A controller with no key held.
    pub fn new() -> (c: Self)
        ensures
            c@ == Set::<Direction>::empty(),
    {
        let c = CameraController {
            amount_left: false,
            amount_right: false,
            amount_forward: false,
            amount_backward: false,
            amount_up: false,
            amount_down: false,
        };
        assert(c@ =~= Set::<Direction>::empty());
        c
    }

    /// Records a key event. Returns whether the key drives the camera; a key
    /// that does not leaves the controller unchanged.
    pub fn handle_key(&mut self, key: Key, pressed: bool) -> (handled: bool)
        ensures
            handled == (free_look_direction(key) is Some),
            final(self)@ == after_key(old(self)@, free_look_direction(key), pressed),
    {
        let handled = match key {
            Key::W => {
                self.amount_forward = pressed;
                true
            },
            Key::A => {
                self.amount_left = pressed;
                true
            },
            Key::S => {
                self.amount_backward = pressed;
                true
            },
            Key::D => {
                self.amount_right = pressed;
                true
            },
            Key::Space => {
                self.amount_up = pressed;
                true
            },
            Key::ShiftLeft => {
                self.amount_down = pressed;
                true
            },
            _ => false,
        };
        assert(self@ =~= after_key(old(self)@, free_look_direction(key), pressed));
        handled
    }

    /// Whether the key of a direction is held.
    pub fn is_held(&self, d: Direction) -> (r: bool)
        ensures
            r == self@.contains(d),
    {
        match d {
            Direction::Forward => self.amount_forward,
            Direction::Backward => self.amount_backward,
            Direction::Left => self.amount_left,
            Direction::Right => self.amount_right,
            Direction::Up => self.amount_up,
            Direction::Down => self.amount_down,
        }
    }

    /// The movement that the held keys ask for on each axis.
    pub fn movement_input(&self) -> (m: MoveInput)
        ensures
            m.forward == axis_input(self@, Direction::Forward, Direction::Backward),
            m.right == axis_input(self@, Direction::Right, Direction::Left),
            m.up == axis_input(self@, Direction::Up, Direction::Down),
            // each axis reads its own two keys only
            m.forward == (if self@.contains(Direction::Forward) {
                1int
            } else {
                0int
            }) - (if self@.contains(Direction::Backward) {
                1int
            } else {
                0int
            }),
            m.right == (if self@.contains(Direction::Right) {
                1int
            } else {
                0int
            }) - (if self@.contains(Direction::Left) {
                1int
            } else {
                0int
            }),
            m.up == (if self@.contains(Direction::Up) {
                1int
            } else {
                0int
            }) - (if self@.contains(Direction::Down) {
                1int
            } else {
                0int
            }),
    {
        MoveInput {
            forward: unit(self.amount_forward) - unit(self.amount_backward),
            right: unit(self.amount_right) - unit(self.amount_left),
            up: unit(self.amount_up) - unit(self.amount_down),
        }
    }
}

/// The amount of one direction: 1 when held, else 0.
fn unit(held: bool) -> (a: i8)
    ensures
        a == (if held {
            1int
        } else {
            0int
        }),
{
    if held {
        1
    } else {
        0
    }
}

/// An axis input reads its own two directions and nothing else: it is 1
/// when only the positive one is held, -1 when only the negative one is,
/// and 0 otherwise, and two held sets that agree on those two directions
/// give the same input whatever else they hold.
pub proof fn lemma_axis_reads_own_keys(
    held: Set<Direction>,
    other: Set<Direction>,
    positive: Direction,
    negative: Direction,
)
    requires
        positive != negative,
    ensures
        axis_input(held, positive, negative) == (if held.contains(positive) {
            1int
        } else {
            0int
        }) - (if held.contains(negative) {
            1int
        } else {
            0int
        }),
        held.contains(positive) && !held.contains(negative) ==> axis_input(held, positive, negative)
            == 1,
        !held.contains(positive) && held.contains(negative) ==> axis_input(held, positive, negative)
            == -1,
        held.contains(positive) == other.contains(positive) && held.contains(negative)
            == other.contains(negative) ==> axis_input(held, positive, negative) == axis_input(
            other,
            positive,
            negative,
        ),
{
}

/// Opposite directions cancel: with both keys of an axis held the camera
/// does not move along it, and each axis input lies between -1 and 1.
pub proof fn lemma_opposite_keys_cancel(held: Set<Direction>, positive: Direction, negative: Direction)
    ensures
        held.contains(positive) && held.contains(negative) ==> axis_input(held, positive, negative)
            == 0,
        -1 <= axis_input(held, positive, negative) <= 1,
{
}

} // verus!
