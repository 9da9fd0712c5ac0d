use vstd::prelude::*;

use crate::pixels::{copy_slice, pixel_len};

verus! {

/// Why a surface could not be built: zero dimensions, or pixel data whose
/// length is not `width * height * 4`.
#[derive(Clone, Copy, Debug, PartialEq, Eq, Structural)]
pub enum SurfaceError {
    InvalidDimensions,
    LengthMismatch,
}

/// The mathematical state of an `ImageSurface`: its dimensions and the bytes
/// of its pixel storage.
#[verifier::ext_equal]
pub ghost struct SurfaceState {
    pub width: u32,
    pub height: u32,
    pub data: Seq<u8>,
}

impl SurfaceState {
    /// The pixel storage covers the dimensions exactly.
    pub open spec fn wf(self) -> bool {
        self.data.len() == pixel_len(self.width as nat, self.height as nat)
    }
}

/// A renderable pixel surface: `width` x `height` RGBA pixels with their own
/// storage of exactly `width * height * 4` bytes, independent of the buffer
/// it was built from. A host renderer consumes it through the accessors.
pub struct ImageSurface {
    width: u32,
    height: u32,
    data: Vec<u8>,
}

impl View for ImageSurface {
    type V = SurfaceState;

    closed spec fn view(&self) -> SurfaceState {
        SurfaceState { width: self.width, height: self.height, data: self.data@ }
    }
}

impl ImageSurface {
    /// Width in pixels.
    pub fn width(&self) -> (w: u32)
        ensures
            w == self@.width,
    {
        self.width
    }

    /// Height in pixels.
    pub fn height(&self) -> (h: u32)
        ensures
            h == self@.height,
    {
        self.height
    }

    /// The surface's pixel bytes, row by row, four bytes per pixel.
    pub fn data(&self) -> (bytes: &Vec<u8>)
        ensures
            bytes@ == self@.data,
    {
        &self.data
    }
}

/// What `create_image_data` returns for given dimensions and pixel bytes:
/// zero dimensions are rejected first, then a length other than
/// `width * height * 4`; otherwise the surface holds exactly the given bytes.
pub open spec fn build_surface_spec(width: u32, height: u32, data: Seq<u8>) -> Result<
    SurfaceState,
    SurfaceError,
> {
    if width == 0 || height == 0 {
        Err(SurfaceError::InvalidDimensions)
    } else if data.len() != pixel_len(width as nat, height as nat) {
        Err(SurfaceError::LengthMismatch)
    } else {
        Ok(SurfaceState { width, height, data })
    }
}

/// Builds a renderable surface from raw pixel bytes: the bytes are copied
/// into storage owned by the surface, so the caller's buffer and the surface
/// stay independent. Fails with `InvalidDimensions` when `width` or `height`
/// is zero, and with `LengthMismatch` when `data` is not exactly
/// `width * height * 4` bytes long.
pub fn create_image_data(width: u32, height: u32, data: &[u8]) -> (result: Result<
    ImageSurface,
    SurfaceError,
>)
    ensures
        match result {
            Ok(surface) => build_surface_spec(width, height, data@) == Ok::<
                SurfaceState,
                SurfaceError,
            >(surface@),
            Err(error) => build_surface_spec(width, height, data@) == Err::<
                SurfaceState,
                SurfaceError,
            >(error),
        },
        result matches Ok(surface) ==> surface@.wf() && surface@.data == data@
            && surface@.width == width && surface@.height == height,
        result is Ok <==> width > 0 && height > 0 && data@.len() == pixel_len(
            width as nat,
            height as nat,
        ),
{
    if width == 0 || height == 0 {
        return Err(SurfaceError::InvalidDimensions);
    }
    proof {
        assert((width as int) * (height as int) <= 0xFFFF_FFFF * 0xFFFF_FFFF) by (nonlinear_arith)
            requires
                0 <= width <= 0xFFFF_FFFF,
                0 <= height <= 0xFFFF_FFFF,
        ;
    }
    let expected: u128 = (width as u128) * (height as u128) * 4;
    if (data.len() as u128) != expected {
        return Err(SurfaceError::LengthMismatch);
    }
    Ok(ImageSurface { width, height, data: copy_slice(data) })
}

/// Round trip: building a surface from `width * height * 4` bytes (with
/// nonzero dimensions) succeeds and retains exactly those bytes, so reading
/// the surface's pixel data back gives the original input.
pub proof fn lemma_surface_round_trip(width: u32, height: u32, data: Seq<u8>)
    requires
        width > 0,
        height > 0,
        data.len() == pixel_len(width as nat, height as nat),
    ensures
        build_surface_spec(width, height, data) == Ok::<SurfaceState, SurfaceError>(
            SurfaceState { width, height, data },
        ),
{
}

} // verus!
