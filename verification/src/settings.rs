use vstd::prelude::*;

verus! {

/// The encoding family the camera is asked to deliver frames in.
///
/// `Png` is the raw-image family (lossless container), `Jpeg` the
/// lossy-compressed family; the declared encoding decides which decoder is
/// tried on a captured frame and which extension a fallback file gets.
#[derive(Clone, Copy, PartialEq, Eq, Structural, Debug)]
pub enum Encoding {
    Png,
    Jpeg,
}

/// Immutable per-session camera configuration.
///
/// Fixed once bring-up starts; no field changes for the rest of the session.
#[derive(Clone, Copy, PartialEq, Eq, Structural, Debug)]
pub struct CameraSettings {
    pub encoding: Encoding,
    pub width: u32,
    pub height: u32,
    pub iso: u32,
    pub sensor_mode: u32,
    pub quality: u32,
    pub zero_copy: bool,
    pub use_encoder: bool,
}

impl CameraSettings {
    /// A settings value the session accepts: the re-encode quality lies in
    /// the documented 1..=100 range.
    pub open spec fn valid(self) -> bool {
        1 <= self.quality <= 100
    }

    /// Whether the declared encoding is the raw-image (lossless) family.
    pub fn is_png(&self) -> (r: bool)
        ensures
            r <==> self.encoding is Png,
    {
        match self.encoding {
            Encoding::Png => true,
            Encoding::Jpeg => false,
        }
    }
}

/// Which of the discovered cameras the session uses: at least one must
/// exist, and the first entry is always the one selected.
pub fn select_camera(count: usize) -> (r: Option<usize>)
    ensures
        r == if count >= 1 {
            Some(0usize)
        } else {
            Option::<usize>::None
        },
{
    if count >= 1 {
        Some(0)
    } else {
        None
    }
}

} // verus!
