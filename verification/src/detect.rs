//! The detection pipeline: box extraction, non-max suppression, annotation,
//! and release of the detection array.
//!
//! Thresholds cross this layer as integers in thousandths (a value of 450
//! stands for 0.45), so their validation is exact; the driver divides by
//! 1000 at the boundary.

use vstd::prelude::*;

verus! {

use crate::errors::Error;
use crate::image::Image;
use crate::meta::{Alphabet, Names};
use crate::network::Network;

/// Owns one engine detection array together with its logical count.
///
/// The count is the true other half of the handle: the engine's suppression
/// and release calls are undefined with a stale or mismatched count, so the
/// count lives inside the owner and every planned call reads it from there.
pub struct Detection {
    handle: u64,
    count: i32,
}

impl Detection {
    /// The engine handle this wrapper owns.
    pub closed spec fn id(self) -> u64 {
        self.handle
    }

    /// The logical number of detections currently in the array.
    pub closed spec fn count(self) -> i32 {
        self.count
    }

    /// Non-null handle, non-negative count.
    pub open spec fn wf(self) -> bool {
        self.id() != 0 && self.count() >= 0
    }

    /// The raw handle value, for the driver.
    pub fn raw(&self) -> (h: u64)
        ensures
            h == self.id(),
    {
        self.handle
    }

    /// The current logical count, for the driver.
    pub fn current_count(&self) -> (n: i32)
        ensures
            n == self.count(),
    {
        self.count
    }
}

/// Describes one native box-extraction call.
pub struct GetBoxesCall {
    /// The handle of the network whose last prediction is read.
    pub net: u64,
    /// Width of the frame the boxes are reported in.
    pub width: i32,
    /// Height of the frame the boxes are reported in.
    pub height: i32,
    /// Detection threshold, in thousandths.
    pub thresh_milli: i32,
    /// Hierarchy threshold, in thousandths.
    pub hier_milli: i32,
    /// Whether the engine should fill its class-map output.
    pub wants_map: bool,
    /// Whether box coordinates are relative to the frame.
    pub relative: bool,
}

/// Plans a box extraction from the network's last prediction.  Dimensions
/// must be positive and thresholds non-negative; violations fail fast with
/// `InvalidArgument` before the boundary.
pub fn get_network_boxes(
    net: &Network,
    w: i32,
    h: i32,
    thresh_milli: i32,
    hier_milli: i32,
    wants_map: bool,
    relative: bool,
) -> (r: Result<GetBoxesCall, Error>)
    requires
        net.wf(),
    ensures
        r is Ok <==> (w >= 1 && h >= 1 && thresh_milli >= 0 && hier_milli >= 0),
        r matches Ok(c) ==> {
            &&& c.net == net.id()
            &&& c.width == w
            &&& c.height == h
            &&& c.thresh_milli == thresh_milli
            &&& c.hier_milli == hier_milli
            &&& c.wants_map == wants_map
            &&& c.relative == relative
        },
        r matches Err(e) ==> e == Error::InvalidArgument,
{
    if w < 1 || h < 1 || thresh_milli < 0 || hier_milli < 0 {
        return Err(Error::InvalidArgument);
    }
    Ok(
        GetBoxesCall {
            net: net.raw(),
            width: w,
            height: h,
            thresh_milli,
            hier_milli,
            wants_map,
            relative,
        },
    )
}

/// Interprets the array handle and output count the engine returned from a
/// box extraction, pairing them for the rest of the handle's life.  A null
/// handle or a negative count is malformed and becomes `LoadError`.
pub fn detections_from_raw(handle: u64, count: i32) -> (r: Result<Detection, Error>)
    ensures
        r is Ok <==> (handle != 0 && count >= 0),
        r matches Ok(d) ==> d.id() == handle && d.count() == count && d.wf(),
        r matches Err(e) ==> e == Error::LoadError,
{
    if handle == 0 || count < 0 {
        Err(Error::LoadError)
    } else {
        Ok(Detection { handle, count })
    }
}

/// Describes one native non-max-suppression call; it mutates the array in
/// place and allocates nothing.
pub struct NmsCall {
    /// The handle of the detection array to suppress.
    pub dets: u64,
    /// The logical count at the time of the call.
    pub count: i32,
    /// Number of classes scored per detection.
    pub classes: i32,
    /// Overlap threshold, in thousandths.
    pub thresh_milli: i32,
}

/// Plans non-max suppression over the array.  The count in the plan is the
/// array's own current count, never a caller-supplied copy.  A class count
/// below 1 or a negative threshold fails fast with `InvalidArgument`.
pub fn do_nms_obj(dets: &Detection, classes: i32, thresh_milli: i32) -> (r: Result<NmsCall, Error>)
    requires
        dets.wf(),
    ensures
        r is Ok <==> (classes >= 1 && thresh_milli >= 0),
        r matches Ok(c) ==> {
            &&& c.dets == dets.id()
            &&& c.count == dets.count()
            &&& c.classes == classes
            &&& c.thresh_milli == thresh_milli
        },
        r matches Err(e) ==> e == Error::InvalidArgument,
{
    if classes < 1 || thresh_milli < 0 {
        return Err(Error::InvalidArgument);
    }
    Ok(NmsCall { dets: dets.raw(), count: dets.current_count(), classes, thresh_milli })
}

/// Records the logical count the suppression left behind.  Suppression can
/// only shrink the count, so a reported count that is negative or larger
/// than the current one is rejected with `InvalidArgument` and the pair is
/// left unchanged; on success every later call on this array, the release
/// included, sees the new count.
pub fn apply_nms_count(dets: &mut Detection, new_count: i32) -> (r: Result<(), Error>)
    requires
        old(dets).wf(),
    ensures
        r is Ok <==> (0 <= new_count <= old(dets).count()),
        r is Ok ==> {
            &&& final(dets).id() == old(dets).id()
            &&& final(dets).count() == new_count
            &&& final(dets).wf()
        },
        r is Err ==> *final(dets) == *old(dets),
        r matches Err(e) ==> e == Error::InvalidArgument,
{
    if new_count < 0 || new_count > dets.count {
        return Err(Error::InvalidArgument);
    }
    dets.count = new_count;
    Ok(())
}

/// Describes one native annotation call; it draws on the image's pixel
/// buffer and reads, but never changes, the detection array.
pub struct DrawCall {
    /// The handle of the image drawn on.
    pub image: u64,
    /// The handle of the detection array read.
    pub dets: u64,
    /// The logical count at the time of the call.
    pub count: i32,
    /// Display threshold, in thousandths.
    pub thresh_milli: i32,
    /// The handle of the glyph array used for labels.
    pub alphabet: u64,
    /// Number of classes; never more than the labels available.
    pub classes: i32,
}

/// Plans the annotation of `img` with the array's detections.  The engine
/// indexes the label list up to `classes`, so a class count below 1 or
/// beyond the number of labels is rejected with `InvalidArgument`; the
/// count in the plan is the array's own current count.
pub fn draw_detections(
    img: &mut Image,
    dets: &Detection,
    thresh_milli: i32,
    names: &Names,
    alphabet: &Alphabet,
    classes: i32,
) -> (r: Result<DrawCall, Error>)
    requires
        old(img).wf(),
        dets.wf(),
        alphabet.wf(),
    ensures
        *final(img) == *old(img),
        r is Ok <==> (classes >= 1 && classes <= names@.len() && thresh_milli >= 0),
        r matches Ok(c) ==> {
            &&& c.image == old(img).id()
            &&& c.dets == dets.id()
            &&& c.count == dets.count()
            &&& c.thresh_milli == thresh_milli
            &&& c.alphabet == alphabet.id()
            &&& c.classes == classes
        },
        r matches Err(e) ==> e == Error::InvalidArgument,
{
    if classes < 1 || thresh_milli < 0 {
        return Err(Error::InvalidArgument);
    }
    if names.len() < classes as usize {
        return Err(Error::InvalidArgument);
    }
    Ok(
        DrawCall {
            image: img.raw(),
            dets: dets.raw(),
            count: dets.current_count(),
            thresh_milli,
            alphabet: alphabet.raw(),
            classes,
        },
    )
}

/// Describes the one release call a detection array ever gets; the engine
/// needs the logical count to free the per-detection buffers.
pub struct FreeDetectionsCall {
    /// The handle to free.
    pub dets: u64,
    /// The logical count current at release time.
    pub count: i32,
}

/// Releases the detection array: consumes the owner and yields the single
/// free call for its handle, carrying the count current at release time —
/// after a suppression, the suppressed count, not the extraction count.
pub fn free_detections(dets: Detection) -> (c: FreeDetectionsCall)
    ensures
        c.dets == dets.id(),
        c.count == dets.count(),
{
    FreeDetectionsCall { dets: dets.handle, count: dets.count }
}

} // verus!
