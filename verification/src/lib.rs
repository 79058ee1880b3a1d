//! The decision core of a free-flying first-person camera.
//!
//! Once per frame a host hands the controller a snapshot of the keyboard.
//! The controller answers with a [`FramePlan`]: which way the player wants to
//! move, whether the cursor has to be captured or released, and whether the
//! frame's mouse motion steers the view or is thrown away. Carrying the plan
//! out on positions and angles is the host's part; every decision is taken
//! here.

pub mod controller;
pub mod cursor;
pub mod intent;
pub mod keys;

pub use controller::{CameraController, FramePlan, MouseUse};
pub use cursor::{apply_to_windows, CursorRequest, GrabMode, WindowCursor};
pub use intent::{Intent, Speed, VelocityRule};
pub use keys::KeyState;
