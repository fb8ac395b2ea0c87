use vstd::prelude::*;
use vstd::string::StringExecFns;

use crate::settings::CameraSettings;
use crate::settings::Encoding;
use crate::timefmt::frame_stamp_seq;
use crate::timefmt::Timestamp;

verus! {

/// A decoded frame normalized to single-channel 8-bit grayscale, held as
/// plain values: one sample per pixel, row-major.
pub struct GrayFrame {
    pub width: u32,
    pub height: u32,
    pub pixels: Vec<u8>,
}

impl GrayFrame {
    /// The sample buffer holds exactly one byte per pixel.
    pub open spec fn wf(self) -> bool {
        self.pixels@.len() == self.width * self.height
    }
}

/// What decoding a byte buffer in the declared format and converting it to
/// 8-bit grayscale yields: `None` when the bytes fail declared-format
/// decoding, else width, height and the grayscale samples. The result
/// depends on the bytes and the chosen format alone.
pub uninterp spec fn decoded_gray(bytes: Seq<u8>, png: bool) -> Option<(u32, u32, Seq<u8>)>;

/// The JPEG stream the quality-controlled grayscale re-encode produces, or
/// `None` when the encoder reports failure; a function of the samples,
/// dimensions and quality alone.
pub uninterp spec fn jpeg_gray_encoding(
    width: u32,
    height: u32,
    pixels: Seq<u8>,
    quality: u8,
) -> Option<Seq<u8>>;

/// The JPEG stream of the generic whole-image save used as the one fallback
/// re-encode, or `None` when it fails; a function of the samples and
/// dimensions alone.
pub uninterp spec fn jpeg_gray_fallback_encoding(
    width: u32,
    height: u32,
    pixels: Seq<u8>,
) -> Option<Seq<u8>>;

/// Relies on `image::io::Reader::with_format` / `decode` and
/// `DynamicImage::to_luma8`: decoding and grayscale conversion depend on the
/// bytes and the declared format alone, and the grayscale buffer holds
/// exactly width * height samples.
#[verifier::external_body]
fn decode_to_gray(bytes: &Vec<u8>, png: bool) -> (r: Option<GrayFrame>)
    ensures
        r is Some <==> decoded_gray(bytes@, png) is Some,
        r is Some ==> r->Some_0.width == decoded_gray(bytes@, png)->Some_0.0,
        r is Some ==> r->Some_0.height == decoded_gray(bytes@, png)->Some_0.1,
        r is Some ==> r->Some_0.pixels@ == decoded_gray(bytes@, png)->Some_0.2,
        r is Some ==> r->Some_0.wf(),
{
    let format = if png {
        image::ImageFormat::Png
    } else {
        image::ImageFormat::Jpeg
    };
    let reader = image::io::Reader::with_format(std::io::Cursor::new(bytes.as_slice()), format);
    match reader.decode() {
        Ok(decoded) => {
            let gray = decoded.to_luma8();
            Some(GrayFrame { width: gray.width(), height: gray.height(), pixels: gray.into_raw() })
        },
        Err(_) => None,
    }
}

/// Relies on `image::codecs::jpeg::JpegEncoder::new_with_quality` /
/// `encode`: the produced JPEG stream is a function of the samples,
/// dimensions and quality alone. `encode` panics unless the buffer holds
/// exactly width * height samples, so well-formedness is required.
#[verifier::external_body]
fn encode_gray_jpeg(frame: &GrayFrame, quality: u8) -> (r: Option<Vec<u8>>)
    requires
        frame.wf(),
    ensures
        r is Some <==> jpeg_gray_encoding(frame.width, frame.height, frame.pixels@, quality)
            is Some,
        r is Some ==> r->Some_0@ == jpeg_gray_encoding(
            frame.width,
            frame.height,
            frame.pixels@,
            quality,
        )->Some_0,
{
    let mut out: Vec<u8> = Vec::new();
    let mut encoder = image::codecs::jpeg::JpegEncoder::new_with_quality(
        std::io::Cursor::new(&mut out),
        quality,
    );
    match encoder.encode(frame.pixels.as_slice(), frame.width, frame.height, image::ColorType::L8) {
        Ok(()) => Some(out),
        Err(_) => None,
    }
}

/// Relies on `image::ImageBuffer::from_raw` and `ImageBuffer::write_to` with
/// `ImageFormat::Jpeg`: the generic whole-image JPEG save is a function of
/// the samples and dimensions alone.
#[verifier::external_body]
fn encode_gray_jpeg_fallback(frame: &GrayFrame) -> (r: Option<Vec<u8>>)
    requires
        frame.wf(),
    ensures
        r is Some <==> jpeg_gray_fallback_encoding(frame.width, frame.height, frame.pixels@)
            is Some,
        r is Some ==> r->Some_0@ == jpeg_gray_fallback_encoding(
            frame.width,
            frame.height,
            frame.pixels@,
        )->Some_0,
{
    let pixels: Vec<u8> = frame.pixels.iter().copied().collect();
    let buffer: image::ImageBuffer<image::Luma<u8>, Vec<u8>> =
        match image::ImageBuffer::from_raw(frame.width, frame.height, pixels) {
            Some(b) => b,
            None => return None,
        };
    let mut out = std::io::Cursor::new(Vec::new());
    match buffer.write_to(&mut out, image::ImageFormat::Jpeg) {
        Ok(()) => Some(out.into_inner()),
        Err(_) => None,
    }
}

/// One file planned for one captured frame: a deterministic
/// timestamp-derived name and the bytes to write under it.
#[derive(Debug)]
pub struct OutputArtifact {
    pub filename: String,
    pub bytes: Vec<u8>,
}

/// Persistence gave up on a decodable frame: both the primary
/// quality-controlled re-encode and the one generic fallback re-encode
/// failed. Fatal for the session.
#[derive(Clone, Copy, PartialEq, Eq, Structural, Debug)]
pub enum PersistError {
    EncodeFailed,
}

/// The extension of the declared encoding family, used for fallback files.
pub open spec fn ext_seq(enc: Encoding) -> Seq<char> {
    if enc is Png {
        ".png"@
    } else {
        ".jpg"@
    }
}

/// The name of the file planned for a frame: normalized frames become
/// `.jpg`, undecodable frames keep the declared family's extension.
pub open spec fn artifact_filename_seq(bytes: Seq<u8>, enc: Encoding, stamp: Timestamp) -> Seq<
    char,
> {
    if decoded_gray(bytes, enc is Png) is Some {
        frame_stamp_seq(stamp) + ".jpg"@
    } else {
        frame_stamp_seq(stamp) + ext_seq(enc)
    }
}

/// The bytes of the file planned for a frame: the grayscale re-encode when
/// the frame decodes (primary encode, then the one fallback), the original
/// bytes verbatim when it does not; `None` when persistence gives up.
pub open spec fn artifact_bytes_spec(bytes: Seq<u8>, enc: Encoding, quality: u8) -> Option<
    Seq<u8>,
> {
    match decoded_gray(bytes, enc is Png) {
        Option::None => Option::Some(bytes),
        Option::Some(dims) => match jpeg_gray_encoding(dims.0, dims.1, dims.2, quality) {
            Option::Some(out) => Option::Some(out),
            Option::None => jpeg_gray_fallback_encoding(dims.0, dims.1, dims.2),
        },
    }
}

fn copy_bytes(src: &Vec<u8>) -> (r: Vec<u8>)
    ensures
        r@ == src@,
{
    let mut r: Vec<u8> = Vec::new();
    let n = src.len();
    let mut i: usize = 0;
    while i < n
        invariant
            n == src@.len(),
            0 <= i <= n,
            r@ == src@.take(i as int),
        decreases n - i,
    {
        r.push(src[i]);
        i = i + 1;
        proof {
            assert(r@ =~= src@.take(i as int));
        }
    }
    proof {
        assert(r@ =~= src@);
    }
    r
}

/// Produces exactly one planned file per captured frame, preferring a
/// normalized grayscale re-encoding at the configured quality.
pub struct FramePersister {
    pub settings: CameraSettings,
}

impl FramePersister {
    pub fn new(settings: &CameraSettings) -> (p: Self)
        ensures
            p.settings == *settings,
    {
        FramePersister { settings: *settings }
    }

    /// Plan the one file for a captured frame completed at `stamp`:
    /// decode in the declared format, normalize to grayscale and re-encode
    /// at the configured quality (with one generic fallback re-encode), or
    /// persist the undecodable bytes verbatim under the declared family's
    /// extension.
    pub fn plan_artifact(&self, frame: &Vec<u8>, stamp: &Timestamp) -> (r: Result<
        OutputArtifact,
        PersistError,
    >)
        requires
            self.settings.valid(),
        ensures
            r is Ok <==> artifact_bytes_spec(
                frame@,
                self.settings.encoding,
                self.settings.quality as u8,
            ) is Some,
            r is Ok ==> r->Ok_0.bytes@ == artifact_bytes_spec(
                frame@,
                self.settings.encoding,
                self.settings.quality as u8,
            )->Some_0,
            r is Ok ==> r->Ok_0.filename@ == artifact_filename_seq(
                frame@,
                self.settings.encoding,
                *stamp,
            ),
            r is Err ==> r->Err_0 == PersistError::EncodeFailed,
    {
        let png = self.settings.is_png();
        match decode_to_gray(frame, png) {
            Some(gray) => {
                let quality = self.settings.quality as u8;
                let encoded = match encode_gray_jpeg(&gray, quality) {
                    Some(b) => b,
                    None => match encode_gray_jpeg_fallback(&gray) {
                        Some(b) => b,
                        None => {
                            return Err(PersistError::EncodeFailed);
                        },
                    },
                };
                let mut name = stamp.frame_stamp();
                name.append(".jpg");
                Ok(OutputArtifact { filename: name, bytes: encoded })
            },
            None => {
                let mut name = stamp.frame_stamp();
                if png {
                    name.append(".png");
                } else {
                    name.append(".jpg");
                }
                Ok(OutputArtifact { filename: name, bytes: copy_bytes(frame) })
            },
        }
    }
}

/// A frame whose bytes fail declared-format decoding is persisted
/// byte-for-byte identical to the original buffer, under the extension of
/// the declared encoding family, and persistence never gives up on it.
pub proof fn lemma_malformed_frame_persisted_verbatim(
    bytes: Seq<u8>,
    enc: Encoding,
    quality: u8,
    stamp: Timestamp,
)
    requires
        decoded_gray(bytes, enc is Png) is None,
    ensures
        artifact_bytes_spec(bytes, enc, quality) == Some(bytes),
        artifact_filename_seq(bytes, enc, stamp) == frame_stamp_seq(stamp) + ext_seq(enc),
{
}

} // verus!
