//! Frames, PNG encoding, and the capture-engine preflight decisions.
//!
//! The capture engine itself is an external collaborator: the surrounding
//! process obtains raw frames from the platform and hands them in as plain
//! [`RawFrame`] values. Encoding a frame as PNG is pure computation and is
//! done here, through the `image` crate behind a trusted wrapper.

use vstd::prelude::*;

use crate::errors::MonitorError;

verus! {

/// Information about an available display.
#[derive(Debug)]
pub struct DisplayInfo {
    /// Screen identifier.
    pub id: u32,
    /// Display name.
    pub name: String,
    /// Screen width in pixels.
    pub width: u32,
    /// Screen height in pixels.
    pub height: u32,
}

/// A raw captured frame: four bytes per pixel, rows top to bottom.
pub struct RawFrame {
    /// Frame width in pixels.
    pub width: u32,
    /// Frame height in pixels.
    pub height: u32,
    /// The pixel bytes; a well-formed frame holds `4 * width * height`.
    pub data: Vec<u8>,
}

/// The PNG encoding of a frame with the given dimensions and pixel bytes.
/// The encoding depends on these arguments alone; what the bytes look like
/// is the encoder's business and is not restated here.
pub uninterp spec fn png_encoding_of(width: u32, height: u32, data: Seq<u8>) -> Seq<u8>;

/// Relies on `image::ImageBuffer::<Rgba<u8>, Vec<u8>>::from_raw`, which
/// accepts the buffer iff `4 * width * height` fits in `usize` and is at
/// most `data.len()`, and on `ImageBuffer::write_to` with
/// `ImageFormat::Png`, whose output is a function of the dimensions and
/// pixel bytes alone.
#[verifier::external_body]
fn encode_png_rgba(width: u32, height: u32, data: Vec<u8>) -> (r: Result<Vec<u8>, ()>)
    ensures
        r is Ok ==> r->Ok_0@ == png_encoding_of(width, height, data@),
        4 * width * height > data@.len() ==> r is Err,
{
    let img = match image::ImageBuffer::<image::Rgba<u8>, Vec<u8>>::from_raw(width, height, data) {
        Some(img) => img,
        None => return Err(()),
    };
    let mut png_data: Vec<u8> = Vec::new();
    match img.write_to(&mut std::io::Cursor::new(&mut png_data), image::ImageFormat::Png) {
        Ok(()) => Ok(png_data),
        Err(_) => Err(()),
    }
}

/// Screen-capture decisions: which captures are allowed, what the displays
/// are, and how frames become PNGs. The pixel-producing engine lives outside
/// the crate and reports its platform support and permission state as the
/// plain booleans taken here.
pub struct ScreenCaptureService;

impl ScreenCaptureService {
    /// Whether capture may proceed, given the platform's support and
    /// permission state: unsupported platforms are rejected outright, and a
    /// missing permission is acceptable only if requesting it just granted
    /// it.
    pub open spec fn spec_preflight(
        supported: bool,
        has_permission: bool,
        permission_granted: bool,
    ) -> Result<(), MonitorError> {
        if !supported {
            Err(MonitorError::NotSupported)
        } else if !has_permission && !permission_granted {
            Err(MonitorError::PermissionDenied)
        } else {
            Ok(())
        }
    }

    /// Decides whether capture may proceed. `supported` and `has_permission`
    /// are the platform's answers; `permission_granted` is the outcome of a
    /// permission request, consulted only when permission was missing.
    pub fn preflight(supported: bool, has_permission: bool, permission_granted: bool) -> (r:
        Result<(), MonitorError>)
        ensures
            r == Self::spec_preflight(supported, has_permission, permission_granted),
    {
        if !supported {
            Err(MonitorError::NotSupported)
        } else if !has_permission && !permission_granted {
            Err(MonitorError::PermissionDenied)
        } else {
            Ok(())
        }
    }

    /// Information about the available displays: the primary display,
    /// reported with default dimensions. Fails exactly when the preflight
    /// rejects capture.
    pub fn get_display_info(supported: bool, has_permission: bool, permission_granted: bool) -> (r:
        Result<Vec<DisplayInfo>, MonitorError>)
        ensures
            r is Ok <==> Self::spec_preflight(supported, has_permission, permission_granted)
                is Ok,
            r is Err ==> r->Err_0 == Self::spec_preflight(
                supported,
                has_permission,
                permission_granted,
            )->Err_0,
            r is Ok ==> {
                &&& r->Ok_0@.len() == 1
                &&& r->Ok_0@[0].id == 0
                &&& r->Ok_0@[0].name@ == "Primary Display"@
                &&& r->Ok_0@[0].width == 1920
                &&& r->Ok_0@[0].height == 1080
            },
    {
        match Self::preflight(supported, has_permission, permission_granted) {
            Err(e) => Err(e),
            Ok(()) => {
                let display_info = DisplayInfo {
                    id: 0,
                    name: String::from_str("Primary Display"),
                    width: 1920,
                    height: 1080,
                };
                let mut displays: Vec<DisplayInfo> = Vec::new();
                displays.push(display_info);
                Ok(displays)
            },
        }
    }

    /// Encodes a captured frame as PNG. Fails with `EncodingFailure` when
    /// the encoder rejects the frame — in particular whenever the buffer
    /// holds fewer than `4 * width * height` bytes.
    pub fn to_png(frame: &RawFrame) -> (r: Result<Vec<u8>, MonitorError>)
        ensures
            r is Ok ==> r->Ok_0@ == png_encoding_of(frame.width, frame.height, frame.data@),
            4 * frame.width * frame.height > frame.data@.len() ==> r is Err,
            r is Err ==> r->Err_0 == MonitorError::EncodingFailure,
    {
        match encode_png_rgba(frame.width, frame.height, frame.data.clone()) {
            Ok(png) => Ok(png),
            Err(()) => Err(MonitorError::EncodingFailure),
        }
    }
}

} // verus!
