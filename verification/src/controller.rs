//! The controller: its settings and flags, and the step that turns one
//! frame's keys into the next state and a plan for the host.

use crate::cursor::CursorRequest;
use crate::intent::{Intent, VelocityRule};
use crate::keys::{
    escape, fresh_keys, held_keys, is_fresh, is_held, key_a, key_d, key_e, key_q, key_s, key_w,
    shift_left, KeyState,
};
use bevy::input::keyboard::KeyCode;
use bevy::input::ButtonInput;
use vstd::prelude::*;

verus! {

/// What becomes of the mouse motion that arrived during a frame.
#[derive(Clone, Copy, Debug, PartialEq, Eq, Structural)]
pub enum MouseUse {
    /// It is consumed without effect, so that it cannot leak into a later
    /// capture.
    Discard,
    /// It is summed into one delta, which turns the view if it is not zero.
    Accumulate,
}

/// What the host has to carry out in one frame.
#[derive(Clone, Copy, Debug, PartialEq, Eq, Structural)]
pub enum FramePlan {
    /// The controller's first frame. Yaw and pitch are taken over from the
    /// camera's orientation and `cursor` is served; the camera neither moves
    /// nor turns.
    Initialize { cursor: CursorRequest },
    /// The controller is switched off. Pending mouse motion is discarded and
    /// nothing else happens.
    Idle,
    /// An ordinary frame, in this order: the velocity follows `velocity`, the
    /// camera is moved by it, `cursor` is served, and the mouse motion is
    /// used as `mouse` says.
    Step { velocity: VelocityRule, cursor: CursorRequest, mouse: MouseUse },
}

/// The flags and key bindings of one camera. Bindings need not differ from
/// one another: a key bound twice acts in both roles.
#[derive(Clone, Copy, Debug, PartialEq, Eq)]
pub struct CameraController {
    /// Master switch. While off, frames are idle.
    pub enabled: bool,
    /// Set by the first frame and never cleared.
    pub initialized: bool,
    pub key_forward: KeyCode,
    pub key_back: KeyCode,
    pub key_left: KeyCode,
    pub key_right: KeyCode,
    pub key_up: KeyCode,
    pub key_down: KeyCode,
    pub key_run: KeyCode,
    pub keyboard_key_toggle_cursor_grab: KeyCode,
    /// Whether the cursor is captured. Its value at creation says whether the
    /// first frame captures the cursor.
    pub toggle_cursor_grab: bool,
}

impl Default for CameraController {
    /// A controller that is switched on, has not seen a frame yet, and
    /// captures the cursor from the start. It moves on W, S, A and D, rises
    /// on E, sinks on Q, runs on the left shift key and toggles the capture
    /// on escape.
    fn default() -> (controller: Self)
        ensures
            controller.enabled,
            !controller.initialized,
            controller.toggle_cursor_grab,
    {
        CameraController {
            enabled: true,
            initialized: false,
            key_forward: key_w(),
            key_back: key_s(),
            key_left: key_a(),
            key_right: key_d(),
            key_up: key_e(),
            key_down: key_q(),
            key_run: shift_left(),
            keyboard_key_toggle_cursor_grab: escape(),
            toggle_cursor_grab: true,
        }
    }
}

impl CameraController {
    /// What the bound keys report in the snapshot `input`: the seven held
    /// keys by level, the grab key by its edge.
    pub open spec fn keys_in(self, input: ButtonInput<KeyCode>) -> KeyState {
        KeyState {
            forward: held_keys(input).contains(self.key_forward),
            back: held_keys(input).contains(self.key_back),
            left: held_keys(input).contains(self.key_left),
            right: held_keys(input).contains(self.key_right),
            up: held_keys(input).contains(self.key_up),
            down: held_keys(input).contains(self.key_down),
            run: held_keys(input).contains(self.key_run),
            toggle: fresh_keys(input).contains(self.keyboard_key_toggle_cursor_grab),
        }
    }

    /// Whether a frame with these keys flips the capture flag: the grab key
    /// must have gone down, on a frame that is neither the first nor idle.
    pub open spec fn toggles(self, keys: KeyState) -> bool {
        self.initialized && self.enabled && keys.toggle
    }

    /// The controller after a frame with these keys.
    pub open spec fn next(self, keys: KeyState) -> CameraController {
        CameraController {
            initialized: true,
            toggle_cursor_grab: if self.toggles(keys) {
                !self.toggle_cursor_grab
            } else {
                self.toggle_cursor_grab
            },
            ..self
        }
    }

    /// The plan of a frame with these keys.
    ///
    /// The movement keys are read against the capture flag as the frame
    /// found it; the mouse is used by the flag as the frame leaves it.
    pub open spec fn plan(self, keys: KeyState) -> FramePlan {
        if !self.initialized {
            FramePlan::Initialize {
                cursor: if self.toggle_cursor_grab {
                    CursorRequest::CaptureFocused
                } else {
                    CursorRequest::Keep
                },
            }
        } else if !self.enabled {
            FramePlan::Idle
        } else {
            FramePlan::Step {
                velocity: VelocityRule::of(Intent::of(keys, self.toggle_cursor_grab), keys.run),
                cursor: if keys.toggle {
                    CursorRequest::matching(!self.toggle_cursor_grab)
                } else {
                    CursorRequest::Keep
                },
                mouse: if self.next(keys).toggle_cursor_grab {
                    MouseUse::Accumulate
                } else {
                    MouseUse::Discard
                },
            }
        }
    }

    /// Asks the snapshot about each bound key.
    pub fn read_keys(&self, input: &ButtonInput<KeyCode>) -> (keys: KeyState)
        ensures
            keys == self.keys_in(*input),
    {
        KeyState {
            forward: is_held(input, self.key_forward),
            back: is_held(input, self.key_back),
            left: is_held(input, self.key_left),
            right: is_held(input, self.key_right),
            up: is_held(input, self.key_up),
            down: is_held(input, self.key_down),
            run: is_held(input, self.key_run),
            toggle: is_fresh(input, self.keyboard_key_toggle_cursor_grab),
        }
    }

    /// Takes one frame's keys: moves the controller on and says what the
    /// host has to do.
    ///
    /// The first frame only initializes, whatever the keys and the master
    /// switch say. After it the capture flag changes on exactly those frames
    /// on which the controller is switched on and the grab key went down,
    /// and such a frame asks the windows to follow the new flag.
    pub fn advance(&mut self, keys: KeyState) -> (plan: FramePlan)
        ensures
            *final(self) == old(self).next(keys),
            plan == old(self).plan(keys),
            final(self).initialized,
            !old(self).initialized ==> plan is Initialize && *final(self) == (CameraController {
                initialized: true,
                ..*old(self)
            }),
            old(self).initialized && !old(self).enabled ==> plan is Idle && *final(self) == *old(
                self,
            ),
            old(self).initialized && old(self).enabled ==> plan is Step,
            final(self).toggle_cursor_grab != old(self).toggle_cursor_grab <==> old(self).toggles(
                keys,
            ),
            old(self).toggles(keys) ==> plan->Step_cursor == CursorRequest::matching(
                final(self).toggle_cursor_grab,
            ),
    {
        if !self.initialized {
            self.initialized = true;
            let cursor = if self.toggle_cursor_grab {
                CursorRequest::CaptureFocused
            } else {
                CursorRequest::Keep
            };
            return FramePlan::Initialize { cursor };
        }
        if !self.enabled {
            return FramePlan::Idle;
        }
        let intent = Intent::sample(&keys, self.toggle_cursor_grab);
        let mut cursor = CursorRequest::Keep;
        if keys.toggle {
            self.toggle_cursor_grab = !self.toggle_cursor_grab;
            cursor = CursorRequest::to_match(self.toggle_cursor_grab);
        }
        let velocity = VelocityRule::decide(intent, keys.run);
        let mouse = if self.toggle_cursor_grab {
            MouseUse::Accumulate
        } else {
            MouseUse::Discard
        };
        FramePlan::Step { velocity, cursor, mouse }
    }

    /// One frame against a keyboard snapshot: reads the bound keys, then
    /// advances on what they report.
    pub fn update(&mut self, input: &ButtonInput<KeyCode>) -> (plan: FramePlan)
        ensures
            *final(self) == old(self).next(old(self).keys_in(*input)),
            plan == old(self).plan(old(self).keys_in(*input)),
    {
        let keys = self.read_keys(input);
        self.advance(keys)
    }
}

/// Two frames on which the grab key goes down, taken by a controller that
/// has seen its first frame, leave the capture flag, and with it the whole
/// controller, as they found it. While the controller is switched on the
/// flag is flipped in between.
pub proof fn grab_key_twice_restores_capture(
    controller: CameraController,
    first: KeyState,
    second: KeyState,
)
    requires
        controller.initialized,
        first.toggle,
        second.toggle,
    ensures
        controller.next(first).next(second).toggle_cursor_grab == controller.toggle_cursor_grab,
        controller.next(first).next(second) == controller,
        controller.enabled ==> controller.next(first).toggle_cursor_grab
            != controller.toggle_cursor_grab,
{
}

} // verus!
