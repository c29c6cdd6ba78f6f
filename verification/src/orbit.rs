use vstd::prelude::*;

use crate::input::{after_key, Direction, Key};

verus! {

/// The direction that a key drives the orbiting camera in: W or the up
/// arrow moves toward the target, S or the down arrow away from it, A or
/// the left arrow and D or the right arrow circle round it.
pub open spec fn orbit_direction(key: Key) -> Option<Direction> {
    match key {
        Key::W | Key::ArrowUp => Some(Direction::Forward),
        Key::A | Key::ArrowLeft => Some(Direction::Left),
        Key::S | Key::ArrowDown => Some(Direction::Backward),
        Key::D | Key::ArrowRight => Some(Direction::Right),
        _ => None,
    }
}

/// The key-driven part of the orbiting camera controller: which of its four
/// directions are pressed.
pub struct OrbitController {
    is_forward_pressed: bool,
    is_backward_pressed: bool,
    is_left_pressed: bool,
    is_right_pressed: bool,
}

impl OrbitController {
    /// Whether the key of a direction is pressed; up and down have no key.
    pub closed spec fn holds(self, d: Direction) -> bool {
        match d {
            Direction::Forward => self.is_forward_pressed,
            Direction::Backward => self.is_backward_pressed,
            Direction::Left => self.is_left_pressed,
            Direction::Right => self.is_right_pressed,
            _ => false,
        }
    }
}

impl View for OrbitController {
    /// The set of pressed directions.
    type V = Set<Direction>;

    closed spec fn view(&self) -> Set<Direction> {
        Set::new(|d: Direction| self.holds(d))
    }
}

impl OrbitController {
    /// A controller with no key pressed.
    pub fn new() -> (c: Self)
        ensures
            c@ == Set::<Direction>::empty(),
    {
        let c = OrbitController {
            is_forward_pressed: false,
            is_backward_pressed: false,
            is_left_pressed: false,
            is_right_pressed: false,
        };
        assert(c@ =~= Set::<Direction>::empty());
        c
    }

    /// Records a key event. Returns whether the key drives the camera; a key
    /// that does not leaves the controller unchanged.
    pub fn handle_key(&mut self, key: Key, is_pressed: bool) -> (handled: bool)
        ensures
            handled == (orbit_direction(key) is Some),
            final(self)@ == after_key(old(self)@, orbit_direction(key), is_pressed),
    {
        let handled = match key {
            Key::W | Key::ArrowUp => {
                self.is_forward_pressed = is_pressed;
                true
            },
            Key::A | Key::ArrowLeft => {
                self.is_left_pressed = is_pressed;
                true
            },
            Key::S | Key::ArrowDown => {
                self.is_backward_pressed = is_pressed;
                true
            },
            Key::D | Key::ArrowRight => {
                self.is_right_pressed = is_pressed;
                true
            },
            _ => false,
        };
        assert(self@ =~= after_key(old(self)@, orbit_direction(key), is_pressed));
        handled
    }

    /// Whether the key of a direction is pressed.
    pub fn is_pressed(&self, d: Direction) -> (r: bool)
        ensures
            r == self@.contains(d),
    {
        match d {
            Direction::Forward => self.is_forward_pressed,
            Direction::Backward => self.is_backward_pressed,
            Direction::Left => self.is_left_pressed,
            Direction::Right => self.is_right_pressed,
            _ => false,
        }
    }

    /// Only the four directions of the ground plane are ever pressed.
    pub proof fn lemma_never_vertical(self)
        ensures
            !self@.contains(Direction::Up),
            !self@.contains(Direction::Down),
    {
    }
}

} // verus!
