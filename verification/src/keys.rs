//! The keyboard as the controller sees it: a snapshot of held and freshly
//! pressed keys, and the eight answers the controller asks of it.

use bevy::input::keyboard::KeyCode;
use bevy::input::ButtonInput;
use vstd::prelude::*;

verus! {

/// bevy's `KeyCode`, the name of a physical key. The controller stores such
/// values and hands them to the snapshot; it never looks inside one.
#[verifier::external_type_specification]
#[verifier::external_body]
pub struct ExKeyCode(KeyCode);

/// bevy's `ButtonInput`, a frame's snapshot of buttons. What it holds is
/// known only through [`held_keys`] and [`fresh_keys`].
#[verifier::external_type_specification]
#[verifier::external_body]
#[verifier::reject_recursive_types(T)]
pub struct ExButtonInput<T: Copy + Eq + core::hash::Hash + Send + Sync + 'static>(ButtonInput<T>);

/// The keys that a snapshot holds as currently down: from a key's press
/// until its release.
pub uninterp spec fn held_keys(input: ButtonInput<KeyCode>) -> Set<KeyCode>;

/// The keys that a snapshot holds as having gone down during this frame: a
/// key is in it for the one frame after its press.
pub uninterp spec fn fresh_keys(input: ButtonInput<KeyCode>) -> Set<KeyCode>;

/// `ButtonInput::pressed`: membership of `key` in the snapshot's set of held
/// keys. Not proved; this is what the method's body reads.
#[verifier::external_body]
pub(crate) fn is_held(input: &ButtonInput<KeyCode>, key: KeyCode) -> (down: bool)
    ensures
        down == held_keys(*input).contains(key),
{
    input.pressed(key)
}

/// `ButtonInput::just_pressed`: membership of `key` in the snapshot's set of
/// keys that went down during this frame. Not proved.
#[verifier::external_body]
pub(crate) fn is_fresh(input: &ButtonInput<KeyCode>, key: KeyCode) -> (fresh: bool)
    ensures
        fresh == fresh_keys(*input).contains(key),
{
    input.just_pressed(key)
}

/// `KeyCode::KeyW`, the W key. Nothing is claimed of the value.
#[verifier::external_body]
pub(crate) fn key_w() -> KeyCode {
    KeyCode::KeyW
}

/// `KeyCode::KeyS`, the S key. Nothing is claimed of the value.
#[verifier::external_body]
pub(crate) fn key_s() -> KeyCode {
    KeyCode::KeyS
}

/// `KeyCode::KeyA`, the A key. Nothing is claimed of the value.
#[verifier::external_body]
pub(crate) fn key_a() -> KeyCode {
    KeyCode::KeyA
}

/// `KeyCode::KeyD`, the D key. Nothing is claimed of the value.
#[verifier::external_body]
pub(crate) fn key_d() -> KeyCode {
    KeyCode::KeyD
}

/// `KeyCode::KeyE`, the E key. Nothing is claimed of the value.
#[verifier::external_body]
pub(crate) fn key_e() -> KeyCode {
    KeyCode::KeyE
}

/// `KeyCode::KeyQ`, the Q key. Nothing is claimed of the value.
#[verifier::external_body]
pub(crate) fn key_q() -> KeyCode {
    KeyCode::KeyQ
}

/// `KeyCode::ShiftLeft`, the left shift key. Nothing is claimed of the value.
#[verifier::external_body]
pub(crate) fn shift_left() -> KeyCode {
    KeyCode::ShiftLeft
}

/// `KeyCode::Escape`, the escape key. Nothing is claimed of the value.
#[verifier::external_body]
pub(crate) fn escape() -> KeyCode {
    KeyCode::Escape
}

/// What the eight bound keys report in one frame.
#[derive(Clone, Copy, Debug, PartialEq, Eq, Structural)]
pub struct KeyState {
    pub forward: bool,
    pub back: bool,
    pub left: bool,
    pub right: bool,
    pub up: bool,
    pub down: bool,
    pub run: bool,
    /// The grab key went down during this frame (an edge, not a level).
    pub toggle: bool,
}

} // verus!
