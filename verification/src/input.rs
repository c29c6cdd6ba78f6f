use vstd::prelude::*;

verus! {

/// A direction of travel that a held key can ask a camera controller for.
#[derive(Clone, Copy, Debug, PartialEq, Eq, Structural)]
pub enum Direction {
    Forward,
    Backward,
    Left,
    Right,
    Up,
    Down,
}

/// The keys that the camera controllers and the window loop tell apart;
/// every other key of the keyboard is `Other`.
#[derive(Clone, Copy, Debug, PartialEq, Eq, Structural)]
pub enum Key {
    W,
    A,
    S,
    D,
    Space,
    ShiftLeft,
    ArrowUp,
    ArrowDown,
    ArrowLeft,
    ArrowRight,
    Escape,
    Other,
}

/// The set of held directions after a key event: pressing the key of a
/// direction holds it, releasing it lets it go, and a key that drives no
/// direction changes nothing.
pub open spec fn after_key(held: Set<Direction>, dir: Option<Direction>, pressed: bool) -> Set<
    Direction,
> {
    match dir {
        Some(d) => if pressed {
            held.insert(d)
        } else {
            held.remove(d)
        },
        None => held,
    }
}

/// A key event repeated changes nothing more: reporting the same key in the
/// same state twice leaves the controller as reporting it once does.
pub proof fn lemma_key_event_idempotent(held: Set<Direction>, dir: Option<Direction>, pressed: bool)
    ensures
        after_key(after_key(held, dir, pressed), dir, pressed) == after_key(held, dir, pressed),
{
    if let Some(d) = dir {
        if pressed {
            assert(held.insert(d).insert(d) =~= held.insert(d));
        } else {
            assert(held.remove(d).remove(d) =~= held.remove(d));
        }
    }
}

/// Of two events of one key, the last one decides whether its direction is
/// held: what the first one did is forgotten.
pub proof fn lemma_last_key_event_wins(
    held: Set<Direction>,
    dir: Option<Direction>,
    first: bool,
    second: bool,
)
    ensures
        after_key(after_key(held, dir, first), dir, second) == after_key(held, dir, second),
{
    if let Some(d) = dir {
        if second {
            assert(after_key(after_key(held, dir, first), dir, second) =~= held.insert(d));
        } else {
            assert(after_key(after_key(held, dir, first), dir, second) =~= held.remove(d));
        }
    }
}

/// Releasing a key undoes pressing it: where its direction was not held
/// before the press, the held set after the release is the one before it.
pub proof fn lemma_release_undoes_press(held: Set<Direction>, dir: Option<Direction>)
    requires
        dir matches Some(d) ==> !held.contains(d),
    ensures
        after_key(after_key(held, dir, true), dir, false) == held,
{
    if let Some(d) = dir {
        assert(held.insert(d).remove(d) =~= held);
    }
}

/// A key event touches its own direction only: every other direction is
/// held afterwards exactly when it was held before.
pub proof fn lemma_key_event_is_local(
    held: Set<Direction>,
    dir: Option<Direction>,
    pressed: bool,
    other: Direction,
)
    requires
        dir != Some(other),
    ensures
        after_key(held, dir, pressed).contains(other) == held.contains(other),
{
}

} // verus!
