//! Directional intent: what the held movement keys ask for, axis by axis, and
//! the rule by which the host's velocity follows from it.

use crate::keys::KeyState;
use vstd::prelude::*;

verus! {

/// What a key adds to its axis: one while it is down, nothing otherwise.
pub open spec fn pull(down: bool) -> int {
    if down {
        1
    } else {
        0
    }
}

/// The value of one axis: the pull of its positive key less that of its
/// negative key. Two opposing keys held together cancel.
pub open spec fn axis(positive: bool, negative: bool) -> int {
    pull(positive) - pull(negative)
}

/// The player's wish for this frame, in the camera's own axes: `x` strafes
/// right, `y` rises along the world's up, `z` goes forward. Each component is
/// -1, 0 or 1.
#[derive(Clone, Copy, Debug, PartialEq, Eq, Structural)]
pub struct Intent {
    pub x: i8,
    pub y: i8,
    pub z: i8,
}

/// Which of the two configured speeds a driven velocity takes.
#[derive(Clone, Copy, Debug, PartialEq, Eq, Structural)]
pub enum Speed {
    Walk,
    Run,
}

/// How the host's velocity changes in a frame.
#[derive(Clone, Copy, Debug, PartialEq, Eq, Structural)]
pub enum VelocityRule {
    /// Nothing is asked for: the velocity loses the friction's share and is
    /// set to zero once it is negligible.
    Decay,
    /// The velocity is replaced outright by `direction`, scaled to unit
    /// length and then to the chosen speed.
    Drive { direction: Intent, speed: Speed },
}

impl Intent {
    /// Every component is -1, 0 or 1.
    pub open spec fn wf(self) -> bool {
        &&& -1 <= self.x <= 1
        &&& -1 <= self.y <= 1
        &&& -1 <= self.z <= 1
    }

    /// No movement asked for.
    pub open spec fn rest() -> Intent {
        Intent { x: 0, y: 0, z: 0 }
    }

    /// The intent that `keys` express. The movement keys count only while the
    /// cursor is captured; with a free cursor the intent is at rest.
    pub open spec fn of(keys: KeyState, captured: bool) -> Intent {
        if captured {
            Intent {
                x: axis(keys.right, keys.left) as i8,
                y: axis(keys.up, keys.down) as i8,
                z: axis(keys.forward, keys.back) as i8,
            }
        } else {
            Intent::rest()
        }
    }

    pub fn zero() -> (intent: Intent)
        ensures
            intent == Intent::rest(),
    {
        Intent { x: 0, y: 0, z: 0 }
    }

    pub fn is_zero(&self) -> (zero: bool)
        ensures
            zero == (*self == Intent::rest()),
    {
        self.x == 0 && self.y == 0 && self.z == 0
    }

    /// Samples the movement keys, axis by axis.
    pub fn sample(keys: &KeyState, captured: bool) -> (intent: Intent)
        ensures
            intent == Intent::of(*keys, captured),
            intent.wf(),
            !captured ==> intent == Intent::rest(),
            captured ==> intent.x == axis(keys.right, keys.left),
            captured ==> intent.y == axis(keys.up, keys.down),
            captured ==> intent.z == axis(keys.forward, keys.back),
    {
        let mut intent = Intent::zero();
        if captured {
            if keys.forward {
                intent.z = intent.z + 1;
            }
            if keys.back {
                intent.z = intent.z - 1;
            }
            if keys.right {
                intent.x = intent.x + 1;
            }
            if keys.left {
                intent.x = intent.x - 1;
            }
            if keys.up {
                intent.y = intent.y + 1;
            }
            if keys.down {
                intent.y = intent.y - 1;
            }
        }
        intent
    }
}

impl VelocityRule {
    /// A non-zero intent drives the velocity, at running speed while the run
    /// key is down and at walking speed otherwise; a zero intent lets it decay.
    pub open spec fn of(intent: Intent, run: bool) -> VelocityRule {
        if intent == Intent::rest() {
            VelocityRule::Decay
        } else {
            VelocityRule::Drive {
                direction: intent,
                speed: if run {
                    Speed::Run
                } else {
                    Speed::Walk
                },
            }
        }
    }

    pub fn decide(intent: Intent, run: bool) -> (rule: VelocityRule)
        ensures
            rule == VelocityRule::of(intent, run),
    {
        if intent.is_zero() {
            VelocityRule::Decay
        } else if run {
            VelocityRule::Drive { direction: intent, speed: Speed::Run }
        } else {
            VelocityRule::Drive { direction: intent, speed: Speed::Walk }
        }
    }
}

} // verus!
