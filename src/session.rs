use vstd::prelude::*;
use crate::text::text;
use crate::types::NokhwaError;

verus! {

/// Whether a device's frame stream is open. The buffer mapping itself is
/// held by the caller, which releases it exactly when told to.
#[derive(Clone, Copy, Debug, PartialEq, Eq, Structural)]
pub struct StreamSession {
    pub open: bool,
}

/// The session after `close`.
pub open spec fn closed(s: StreamSession) -> StreamSession {
    StreamSession { open: false }
}

/// Whether `close` on `s` must release a buffer mapping.
pub open spec fn close_releases(s: StreamSession) -> bool {
    s.open
}

impl StreamSession {
    pub fn new() -> (r: StreamSession)
        ensures
            !r.open,
    {
        StreamSession { open: false }
    }

    pub fn is_stream_open(&self) -> (r: bool)
        ensures
            r == self.open,
    {
        self.open
    }

    /// Prepares to open a stream. Returns whether the current mapping must
    /// be released first; the session counts as closed until the new
    /// stream is confirmed.
    pub fn begin_open(&mut self) -> (release: bool)
        ensures
            release == old(self).open,
            !final(self).open,
    {
        let release = self.open;
        self.open = false;
        release
    }

    /// Records the outcome of opening a stream.
    pub fn finish_open(&mut self, outcome: Result<(), String>) -> (r: Result<(), NokhwaError>)
        ensures
            final(self).open == outcome is Ok,
            outcome is Ok ==> r is Ok,
            outcome is Err ==> r is Err && r->Err_0 is OpenStreamError
                && r->Err_0->OpenStreamError_0@ == outcome->Err_0@,
    {
        match outcome {
            Ok(()) => {
                self.open = true;
                Ok(())
            },
            Err(why) => {
                self.open = false;
                Err(NokhwaError::OpenStreamError(why))
            },
        }
    }

    /// Closes the stream. Always succeeds; returns whether a buffer mapping
    /// must be released, which is only when the stream was open.
    pub fn close(&mut self) -> (r: (Result<(), NokhwaError>, bool))
        ensures
            *final(self) == closed(*old(self)),
            r.0 is Ok,
            r.1 == close_releases(*old(self)),
    {
        let release = self.open;
        self.open = false;
        (Ok(()), release)
    }

    /// Whether a frame may be read now: only while the stream is open.
    pub fn check_frame(&self) -> (r: Result<(), NokhwaError>)
        ensures
            r is Ok <==> self.open,
            r is Err ==> r->Err_0 is ReadFrameError && r->Err_0->ReadFrameError_0@
                == "Stream Not Started"@,
    {
        if self.open {
            Ok(())
        } else {
            Err(NokhwaError::ReadFrameError(text("Stream Not Started")))
        }
    }
}

/// Closing is idempotent: closing a closed session leaves it closed and
/// releases nothing, so closing twice releases at most once.
pub proof fn lemma_close_idempotent(s: StreamSession)
    ensures
        closed(closed(s)) == closed(s),
        !close_releases(closed(s)),
        !s.open ==> closed(s) == s && !close_releases(s),
{
}

/// What the capture loop does after one iteration.
#[derive(Clone, Copy, Debug, PartialEq, Eq, Structural)]
pub enum LoopAction {
    /// Stop and release the device's stream.
    Stop,
    /// Hand the frame to the registered callback.
    Deliver,
    /// Try again on the next iteration.
    Retry,
}

/// Shared stop bookkeeping of a background capture loop: the stop flag is
/// checked once per iteration, and the stream is released exactly once by
/// whichever side sees the stop first.
#[derive(Clone, Copy, Debug, PartialEq, Eq, Structural)]
pub struct CaptureControl {
    pub stop_requested: bool,
    pub released: bool,
}

impl CaptureControl {
    pub fn new() -> (r: CaptureControl)
        ensures
            !r.stop_requested,
            !r.released,
    {
        CaptureControl { stop_requested: false, released: false }
    }

    /// Requests a stop. Returns whether the caller must release the
    /// stream now: only when no one has released it yet.
    pub fn request_stop(&mut self) -> (release: bool)
        ensures
            final(self).stop_requested,
            release == !old(self).released,
            final(self).released,
    {
        self.stop_requested = true;
        let release = !self.released;
        self.released = true;
        release
    }

    /// Decides the loop's next move after an attempt to read one frame.
    /// A failed read is retried; a stop request ends the loop, and the loop
    /// releases the stream only if no one has yet.
    pub fn loop_step(&mut self, frame_read: bool, has_callback: bool) -> (r: (LoopAction, bool))
        ensures
            old(self).stop_requested ==> r.0 == LoopAction::Stop && r.1 == !old(self).released
                && final(self).released,
            !old(self).stop_requested ==> *final(self) == *old(self) && !r.1 && r.0 == (
            if frame_read && has_callback {
                LoopAction::Deliver
            } else {
                LoopAction::Retry
            }),
            final(self).stop_requested == old(self).stop_requested,
    {
        if self.stop_requested {
            let release = !self.released;
            self.released = true;
            (LoopAction::Stop, release)
        } else if frame_read && has_callback {
            (LoopAction::Deliver, false)
        } else {
            (LoopAction::Retry, false)
        }
    }
}

} // verus!
