use vstd::prelude::*;
use crate::encode::{encode_transport, is_png_file, png_of, transport_of, transport_ok};
use crate::error::SnipError;
use crate::geometry::{crop_rect, crop_result, Selection, Viewport};
use crate::pixel::{crop_raster, PixelBuffer, Raster};
use crate::session::{buffer_view, SnipSession};

verus! {

/// What the host does next while a snip is being started.
#[derive(Debug, PartialEq, Eq)]
pub enum StartStep {
    /// The capture is stored: show and focus the overlay, then report back.
    ShowOverlay,
    /// The overlay is up and the session is live: the start has succeeded.
    Ready,
    /// Restore and focus the host window, close any overlay, and fail the start
    /// with this error. The session has been emptied.
    RollBack(SnipError),
}

/// What a query of the session `s` may answer.
pub open spec fn query_post(s: Option<Raster>, r: Result<String, SnipError>) -> bool {
    match s {
        None => r == Err::<String, SnipError>(SnipError::NoActiveSnip),
        Some(img) => (r is Ok <==> transport_ok(img)) && match r {
            Ok(url) => url@ == transport_of(img) && is_png_file(png_of(img)),
            Err(e) => e is Encode,
        },
    }
}

/// What a finish of the session `s` with `sel` drawn on `vp` may answer.
pub open spec fn finish_post(
    s: Option<Raster>,
    sel: Selection,
    vp: Viewport,
    r: Result<String, SnipError>,
) -> bool {
    match s {
        None => r == Err::<String, SnipError>(SnipError::NoActiveSnip),
        Some(img) => match crop_result(img.width, img.height, sel, vp) {
            Err(e) => r == Err::<String, SnipError>(e),
            Ok(c) => (r is Ok <==> transport_ok(crop_raster(img, c))) && match r {
                Ok(url) => url@ == transport_of(crop_raster(img, c)) && is_png_file(
                    png_of(crop_raster(img, c)),
                ),
                Err(e) => e is Encode,
            },
        },
    }
}

/// The full capture of the snip in progress, as a transport image. The session
/// is left as it is, so the overlay may ask again.
pub fn query(session: &SnipSession) -> (r: Result<String, SnipError>)
    requires
        session.wf(),
    ensures
        query_post(session@, r),
{
    match session.peek() {
        Some(buf) => encode_transport(buf),
        None => Err(SnipError::NoActiveSnip),
    }
}

/// Crops a capture already taken from the session to `sel`, drawn on `vp`, and
/// encodes the crop as a transport image.
pub fn finish_capture(taken: Option<PixelBuffer>, sel: Selection, vp: Viewport) -> (r: Result<
    String,
    SnipError,
>)
    requires
        taken matches Some(b) ==> b.wf(),
    ensures
        finish_post(buffer_view(taken), sel, vp, r),
{
    let buf = match taken {
        Some(b) => b,
        None => return Err(SnipError::NoActiveSnip),
    };
    let rect = crop_rect(buf.width(), buf.height(), sel, vp)?;
    let cropped = buf.crop(rect);
    encode_transport(&cropped)
}

/// Ends the snip in progress: the session is consumed whatever the outcome, and
/// on success the answer is the cropped region as a transport image.
pub fn finish(session: &mut SnipSession, sel: Selection, vp: Viewport) -> (r: Result<
    String,
    SnipError,
>)
    requires
        old(session).wf(),
    ensures
        final(session)@ is None,
        final(session).wf(),
        finish_post(old(session)@, sel, vp, r),
{
    let taken = session.take();
    finish_capture(taken, sel, vp)
}

/// Abandons the snip in progress, if any. Never fails.
pub fn cancel(session: &mut SnipSession)
    ensures
        final(session)@ is None,
        final(session).wf(),
{
    session.clear();
}

/// Decides the start step that follows the screen capture: a capture is stored;
/// a failure empties the session and rolls the start back.
pub fn after_capture(session: &mut SnipSession, captured: Result<PixelBuffer, SnipError>) -> (step:
    StartStep)
    requires
        captured matches Ok(b) ==> b.wf(),
    ensures
        final(session).wf(),
        match captured {
            Ok(b) => final(session)@ == Some(b@) && step == StartStep::ShowOverlay,
            Err(e) => final(session)@ is None && step == StartStep::RollBack(e),
        },
{
    match captured {
        Ok(b) => {
            session.put(b);
            StartStep::ShowOverlay
        },
        Err(e) => {
            session.clear();
            StartStep::RollBack(e)
        },
    }
}

/// Decides the start step that follows the attempt to show the overlay: once it
/// is shown the snip is live; a failure empties the session and rolls back.
pub fn after_overlay(session: &mut SnipSession, shown: Result<(), String>) -> (step: StartStep)
    requires
        old(session).wf(),
    ensures
        final(session).wf(),
        match shown {
            Ok(_) => final(session)@ == old(session)@ && step == StartStep::Ready,
            Err(m) => final(session)@ is None && step == StartStep::RollBack(SnipError::WindowOp(m)),
        },
{
    match shown {
        Ok(_) => StartStep::Ready,
        Err(m) => {
            session.clear();
            StartStep::RollBack(SnipError::WindowOp(m))
        },
    }
}

/// A finish that follows a cancel, or another finish (both leave the session
/// empty), fails with `NoActiveSnip` whatever the selection.
pub proof fn lemma_finish_needs_live_session(
    sel: Selection,
    vp: Viewport,
    r: Result<String, SnipError>,
)
    requires
        finish_post(None, sel, vp, r),
    ensures
        r == Err::<String, SnipError>(SnipError::NoActiveSnip),
{
}

/// A finish on a live capture succeeds exactly when its mapped selection is a
/// nonempty crop, and then carries that crop as its image.
pub proof fn lemma_finish_delivers_crop(
    img: Raster,
    sel: Selection,
    vp: Viewport,
    r: Result<String, SnipError>,
)
    requires
        img.wf(),
        finish_post(Some(img), sel, vp, r),
    ensures
        r is Ok <==> crop_result(img.width, img.height, sel, vp) is Ok,
        r matches Ok(url) ==> url@ == transport_of(
            crop_raster(img, crop_result(img.width, img.height, sel, vp)->Ok_0),
        ),
{
}

/// Queries of the same content agree: on a live, nonempty capture both
/// succeed, neither reports `NoActiveSnip` on a live capture, and two that
/// succeed carry the same image.
pub proof fn lemma_query_repeatable(
    s: Option<Raster>,
    r1: Result<String, SnipError>,
    r2: Result<String, SnipError>,
)
    requires
        query_post(s, r1),
        query_post(s, r2),
    ensures
        r1 is Ok <==> r2 is Ok,
        s matches Some(img) ==> (transport_ok(img) ==> r1 is Ok && r2 is Ok),
        s is Some ==> r1 != Err::<String, SnipError>(SnipError::NoActiveSnip) && r2 != Err::<
            String,
            SnipError,
        >(SnipError::NoActiveSnip),
        r1 is Ok && r2 is Ok ==> r1->Ok_0@ == r2->Ok_0@,
{
}

} // verus!
