use vstd::prelude::*;
use crate::pixel::{PixelBuffer, Raster};

verus! {

/// The single slot that holds the capture of the snip in progress, if any.
/// Locking is the owner's business: every method here is one step on the slot.
pub struct SnipSession {
    slot: Option<PixelBuffer>,
}

impl View for SnipSession {
    type V = Option<Raster>;

    closed spec fn view(&self) -> Option<Raster> {
        match self.slot {
            Some(b) => Some(b@),
            None => None,
        }
    }
}

/// The content of an optional buffer.
pub open spec fn buffer_view(b: Option<PixelBuffer>) -> Option<Raster> {
    match b {
        Some(b) => Some(b@),
        None => None,
    }
}

/// The slot is empty or holds a well-formed capture.
pub open spec fn slot_wf(s: Option<Raster>) -> bool {
    s matches Some(r) ==> r.wf()
}

impl SnipSession {
    pub open spec fn wf(&self) -> bool {
        slot_wf(self@)
    }

    /// An idle session.
    pub fn new() -> (s: SnipSession)
        ensures
            s@ is None,
            s.wf(),
    {
        SnipSession { slot: None }
    }

    /// Stores `buf`, replacing whatever was there.
    pub fn put(&mut self, buf: PixelBuffer)
        requires
            buf.wf(),
        ensures
            final(self)@ == Some(buf@),
            final(self).wf(),
    {
        self.slot = Some(buf);
    }

    /// The stored capture, left in place.
    pub fn peek(&self) -> (r: Option<&PixelBuffer>)
        ensures
            match r {
                Some(b) => self@ == Some(b@),
                None => self@ is None,
            },
    {
        match &self.slot {
            Some(b) => Some(b),
            None => None,
        }
    }

    /// Removes and returns the stored capture.
    pub fn take(&mut self) -> (r: Option<PixelBuffer>)
        ensures
            buffer_view(r) == old(self)@,
            final(self)@ is None,
            final(self).wf(),
    {
        self.slot.take()
    }

    /// Empties the slot.
    pub fn clear(&mut self)
        ensures
            final(self)@ is None,
            final(self).wf(),
    {
        self.slot = None;
    }

    /// An independent copy of the session, so that slow work on the capture can
    /// run without holding whatever guards this one.
    pub fn snapshot(&self) -> (r: SnipSession)
        ensures
            r@ == self@,
    {
        match &self.slot {
            Some(b) => SnipSession { slot: Some(b.duplicate()) },
            None => SnipSession { slot: None },
        }
    }

    /// Whether a snip is in progress.
    pub fn is_active(&self) -> (r: bool)
        ensures
            r == self@ is Some,
    {
        self.slot.is_some()
    }
}

} // verus!
