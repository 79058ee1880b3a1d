//! Cursor capture: the request that a frame raises, and what it does to the
//! cursor of each window.

use vstd::prelude::*;

verus! {

/// How a window holds the pointer.
#[derive(Clone, Copy, Debug, PartialEq, Eq, Structural)]
pub enum GrabMode {
    /// The pointer moves freely and may leave the window.
    Free,
    /// The pointer is kept inside the window.
    Confined,
    /// The pointer is pinned in place.
    Locked,
}

/// The part of a window that cursor capture reads and writes.
#[derive(Clone, Copy, Debug, PartialEq, Eq, Structural)]
pub struct WindowCursor {
    pub focused: bool,
    pub grab_mode: GrabMode,
    pub visible: bool,
}

/// What a frame asks of the windows' cursors.
#[derive(Clone, Copy, Debug, PartialEq, Eq, Structural)]
pub enum CursorRequest {
    /// Leave every window as it is.
    Keep,
    /// Lock and hide the cursor of every focused window.
    CaptureFocused,
    /// Free and show the cursor of every window, focused or not.
    ReleaseAll,
}

impl CursorRequest {
    /// The request that brings the windows in line with a capture flag that
    /// has just taken the value `captured`.
    pub open spec fn matching(captured: bool) -> CursorRequest {
        if captured {
            CursorRequest::CaptureFocused
        } else {
            CursorRequest::ReleaseAll
        }
    }

    pub fn to_match(captured: bool) -> (request: CursorRequest)
        ensures
            request == CursorRequest::matching(captured),
    {
        if captured {
            CursorRequest::CaptureFocused
        } else {
            CursorRequest::ReleaseAll
        }
    }
}

impl WindowCursor {
    /// The window's cursor once `request` has been served. Focus is never
    /// changed; a capture passes over windows without focus.
    pub open spec fn after(self, request: CursorRequest) -> WindowCursor {
        match request {
            CursorRequest::Keep => self,
            CursorRequest::CaptureFocused => if self.focused {
                WindowCursor { focused: true, grab_mode: GrabMode::Locked, visible: false }
            } else {
                self
            },
            CursorRequest::ReleaseAll => WindowCursor {
                focused: self.focused,
                grab_mode: GrabMode::Free,
                visible: true,
            },
        }
    }

    /// Serves `request` on this window.
    pub fn apply(&mut self, request: CursorRequest)
        ensures
            *final(self) == old(self).after(request),
            final(self).focused == old(self).focused,
    {
        match request {
            CursorRequest::Keep => {},
            CursorRequest::CaptureFocused => {
                if self.focused {
                    self.grab_mode = GrabMode::Locked;
                    self.visible = false;
                }
            },
            CursorRequest::ReleaseAll => {
                self.grab_mode = GrabMode::Free;
                self.visible = true;
            },
        }
    }
}

/// Serves `request` on every window, each by itself and in place.
pub fn apply_to_windows(windows: &mut Vec<WindowCursor>, request: CursorRequest)
    ensures
        final(windows)@.len() == old(windows)@.len(),
        forall|i: int|
            0 <= i < old(windows)@.len() ==> #[trigger] final(windows)@[i] == old(windows)@[i].after(
                request,
            ),
{
    let n: usize = windows.len();
    let mut i: usize = 0;
    while i < n
        invariant
            n == old(windows)@.len(),
            windows@.len() == n,
            i <= n,
            forall|j: int| 0 <= j < i ==> #[trigger] windows@[j] == old(windows)@[j].after(request),
            forall|j: int| i <= j < n ==> #[trigger] windows@[j] == old(windows)@[j],
        decreases n - i,
    {
        let mut window: WindowCursor = windows[i];
        window.apply(request);
        windows.set(i, window);
        i = i + 1;
    }
}

} // verus!
