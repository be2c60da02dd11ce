//! Putting a cursor on a window.

use vstd::prelude::*;
use crate::request::{Progress, Request};

verus! {

/// The request an update is waiting on.
#[derive(Clone, Copy, Debug, PartialEq, Eq)]
pub enum CursorUpdate {
    /// The change of the window's cursor attribute.
    Changing,
    /// The flush that makes the change visible.
    Flushing,
}

impl CursorUpdate {
    /// What the update does when `reply` comes back. The change is best
    /// effort: only a failure to send it ends the update, what the server
    /// answers is never asked for. A failure of the flush is always reported.
    pub open spec fn step_spec<E>(self, reply: Result<u32, E>) -> Progress<
        CursorUpdate,
        Result<(), E>,
    > {
        match reply {
            Err(e) => Progress::Done(Err(e)),
            Ok(_) => match self {
                CursorUpdate::Changing => Progress::Send {
                    state: CursorUpdate::Flushing,
                    request: Request::Flush,
                },
                CursorUpdate::Flushing => Progress::Done(Ok(())),
            },
        }
    }

    /// Begins to make `cursor` the cursor of `window`.
    pub fn start(window: u32, cursor: u32) -> (r: (CursorUpdate, Request))
        ensures
            r.0 == CursorUpdate::Changing,
            r.1 == (Request::ChangeWindowCursor { window, cursor }),
    {
        (CursorUpdate::Changing, Request::ChangeWindowCursor { window, cursor })
    }

    /// Takes the update one step further with what the last request
    /// reported.
    pub fn step<E>(self, reply: Result<u32, E>) -> (r: Progress<CursorUpdate, Result<(), E>>)
        ensures
            r == self.step_spec(reply),
    {
        match reply {
            Err(e) => Progress::Done(Err(e)),
            Ok(_) => match self {
                CursorUpdate::Changing => Progress::Send {
                    state: CursorUpdate::Flushing,
                    request: Request::Flush,
                },
                CursorUpdate::Flushing => Progress::Done(Ok(())),
            },
        }
    }
}

} // verus!
