//! The image handle: loading, resizing, saving, and single-shot release.

use vstd::prelude::*;

verus! {

use crate::errors::Error;
use crate::marshal::{contains_nul, marshal, marshaled};

/// Owns one engine image handle (pixel buffer plus dimensions).
///
/// Same ownership rule as the network: non-null from construction on, and
/// released exactly by `free_image`, which consumes the owner.
pub struct Image {
    handle: u64,
}

impl Image {
    /// The engine handle this wrapper owns.
    pub closed spec fn id(self) -> u64 {
        self.handle
    }

    /// A constructed image always carries a non-null handle.
    pub open spec fn wf(self) -> bool {
        self.id() != 0
    }

    /// The raw handle value, for the driver that performs native calls.
    pub fn raw(&self) -> (h: u64)
        ensures
            h == self.id(),
    {
        self.handle
    }
}

/// Describes one native image-load call.
pub struct LoadImageCall {
    /// Nul-terminated image file path.
    pub path: Vec<u8>,
    /// Requested width; 0 keeps the file's own width.
    pub width: i32,
    /// Requested height; 0 keeps the file's own height.
    pub height: i32,
}

/// Plans a color image load.  Zero dimensions mean "use the native size";
/// negative ones are rejected with `InvalidArgument` before the path is
/// marshaled, and a path with an embedded zero byte fails with
/// `MarshalError`.
pub fn load_image_color(image_filepath: &Vec<u8>, width: i32, height: i32) -> (r: Result<
    LoadImageCall,
    Error,
>)
    ensures
        r is Ok <==> (width >= 0 && height >= 0 && !contains_nul(image_filepath@)),
        (width < 0 || height < 0) ==> r == Err::<LoadImageCall, Error>(Error::InvalidArgument),
        (width >= 0 && height >= 0 && contains_nul(image_filepath@)) ==> r == Err::<
            LoadImageCall,
            Error,
        >(Error::MarshalError),
        r matches Ok(c) ==> c.path@ == marshaled(image_filepath@) && c.width == width && c.height
            == height,
{
    if width < 0 || height < 0 {
        return Err(Error::InvalidArgument);
    }
    let path = match marshal(image_filepath) {
        Ok(p) => p,
        Err(e) => {
            return Err(e);
        },
    };
    Ok(LoadImageCall { path, width, height })
}

/// Interprets the raw handle the engine returned for an image load or a
/// resize allocation: null is the failure sentinel and becomes `LoadError`.
pub fn image_from_raw(handle: u64) -> (r: Result<Image, Error>)
    ensures
        r is Ok <==> handle != 0,
        r matches Ok(im) ==> im.id() == handle && im.wf(),
        r matches Err(e) ==> e == Error::LoadError,
{
    if handle == 0 {
        Err(Error::LoadError)
    } else {
        Ok(Image { handle })
    }
}

/// Describes one native resize call.
pub struct ResizeCall {
    /// The handle of the source image; only read by the engine.
    pub image: u64,
    /// Target width, at least 1.
    pub width: i32,
    /// Target height, at least 1.
    pub height: i32,
}

/// Plans a resize of `im` to `w` by `h`.  The source is only borrowed: it
/// stays owned and independently releasable whatever becomes of the result.
/// Non-positive target dimensions are rejected with `InvalidArgument`.
pub fn resize_image(im: &Image, w: i32, h: i32) -> (r: Result<ResizeCall, Error>)
    requires
        im.wf(),
    ensures
        r is Ok <==> (w >= 1 && h >= 1),
        r matches Ok(c) ==> c.image == im.id() && c.width == w && c.height == h,
        r matches Err(e) ==> e == Error::InvalidArgument,
{
    if w < 1 || h < 1 {
        return Err(Error::InvalidArgument);
    }
    Ok(ResizeCall { image: im.raw(), width: w, height: h })
}

/// Interprets the raw handle the engine returned for a resize of `source`.
///
/// The engine allocates a fresh image for every resize, even one to the
/// source's own dimensions; a handle equal to the source's would make two
/// owners of one allocation, so it is rejected along with the null sentinel.
/// On success, source and result are distinct, independently owned handles.
pub fn resized_from_raw(source: &Image, handle: u64) -> (r: Result<Image, Error>)
    requires
        source.wf(),
    ensures
        r is Ok <==> (handle != 0 && handle != source.id()),
        r matches Ok(im) ==> im.id() == handle && im.wf() && im.id() != source.id(),
        r matches Err(e) ==> e == Error::LoadError,
{
    if handle == 0 || handle == source.raw() {
        Err(Error::LoadError)
    } else {
        Ok(Image { handle })
    }
}

/// Describes one native image-save call.
pub struct SaveImageCall {
    /// The handle of the image to persist; only read by the engine.
    pub image: u64,
    /// Nul-terminated base file name; the engine appends its own extension.
    pub name: Vec<u8>,
}

/// Plans saving the image under a base file name.  A name with an embedded
/// zero byte fails with `MarshalError` before any native call is planned.
pub fn save_image(im: &Image, image_file_name: &Vec<u8>) -> (r: Result<SaveImageCall, Error>)
    requires
        im.wf(),
    ensures
        r is Ok <==> !contains_nul(image_file_name@),
        r matches Ok(c) ==> c.image == im.id() && c.name@ == marshaled(image_file_name@),
        r matches Err(e) ==> e == Error::MarshalError,
{
    let name = match marshal(image_file_name) {
        Ok(n) => n,
        Err(e) => {
            return Err(e);
        },
    };
    Ok(SaveImageCall { image: im.raw(), name })
}

/// Describes the one release call an image handle ever gets.
pub struct FreeImageCall {
    /// The handle to free.
    pub image: u64,
}

/// Releases the image: consumes the owner and yields the single free call
/// for its handle.
pub fn free_image(im: Image) -> (c: FreeImageCall)
    ensures
        c.image == im.id(),
{
    FreeImageCall { image: im.handle }
}

} // verus!
