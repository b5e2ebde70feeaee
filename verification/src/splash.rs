//! The decoded splash image, in the pixel format the compositor needs.
//!
//! Decoding the embedded image asset is delegated to an outside decoder;
//! everything after the decode - converting straight RGBA to the
//! premultiplied-alpha BGRA layout that the compositing surface expects -
//! is verified byte by byte.

use vstd::prelude::*;
use vstd::arithmetic::div_mod::lemma_fundamental_div_mod;
use vstd::arithmetic::div_mod::lemma_fundamental_div_mod_converse;

verus! {

/// What decoding a byte buffer yields: `None` when the bytes are not a
/// decodable image, otherwise width, height, and the straight (not
/// premultiplied) RGBA pixel buffer, 4 bytes per pixel in row-major order.
pub uninterp spec fn decoded_image(data: Seq<u8>) -> Option<(u32, u32, Seq<u8>)>;

/// Relies on `image::load_from_memory` and `image::DynamicImage::to_rgba8`:
/// decoding is a function of the encoded bytes alone, and the RGBA buffer
/// of a `width x height` image holds exactly `4 * width * height` bytes.
#[verifier::external_body]
fn decode_rgba(data: &[u8]) -> (r: Option<(u32, u32, Vec<u8>)>)
    ensures
        r is Some <==> decoded_image(data@) is Some,
        r matches Some(t) ==> decoded_image(data@) == Some((t.0, t.1, t.2@))
            && t.2@.len() == 4 * (t.0 as int) * (t.1 as int),
{
    match image::load_from_memory(data) {
        Ok(img) => {
            let rgba = img.to_rgba8();
            let (w, h) = rgba.dimensions();
            Some((w, h, rgba.into_raw()))
        },
        Err(_) => None,
    }
}

/// A colour channel pre-scaled by the alpha fraction, rounded down.
pub open spec fn premul_channel(c: u8, a: u8) -> u8 {
    ((c as int) * (a as int) / 255) as u8
}

/// Byte `i` of the premultiplied BGRA buffer for a straight RGBA buffer:
/// channels are reordered to B, G, R, A and colour channels are
/// premultiplied by their pixel's alpha.
pub open spec fn bgra_premul_byte(rgba: Seq<u8>, i: int) -> u8 {
    let p = i / 4;
    let ch = i % 4;
    let red = rgba[4 * p];
    let green = rgba[4 * p + 1];
    let blue = rgba[4 * p + 2];
    let alpha = rgba[4 * p + 3];
    if ch == 0 {
        premul_channel(blue, alpha)
    } else if ch == 1 {
        premul_channel(green, alpha)
    } else if ch == 2 {
        premul_channel(red, alpha)
    } else {
        alpha
    }
}

/// The premultiplied BGRA buffer for a straight RGBA buffer.
pub open spec fn bgra_premul(rgba: Seq<u8>) -> Seq<u8> {
    Seq::new(rgba.len(), |i: int| bgra_premul_byte(rgba, i))
}

/// Premultiply one channel by its alpha.
pub fn premul_channel_exec(c: u8, a: u8) -> (r: u8)
    ensures
        r == premul_channel(c, a),
{
    proof {
        assert((c as int) * (a as int) <= 255 * 255) by (nonlinear_arith)
            requires
                c <= 255,
                a <= 255,
        ;
    }
    (((c as u32) * (a as u32)) / 255) as u8
}

/// Convert a straight RGBA buffer into the premultiplied BGRA layout.
pub fn premultiply_bgra(rgba: &Vec<u8>) -> (out: Vec<u8>)
    requires
        rgba@.len() % 4 == 0,
    ensures
        out@ == bgra_premul(rgba@),
{
    let n = rgba.len();
    let n_pix = n / 4;
    proof {
        lemma_fundamental_div_mod(n as int, 4);
    }
    let mut out: Vec<u8> = Vec::new();
    let mut p: usize = 0;
    while p < n_pix
        invariant
            n == rgba@.len(),
            n == 4 * n_pix,
            p <= n_pix,
            out@.len() == 4 * p,
            forall|i: int| 0 <= i < 4 * p ==> out@[i] == bgra_premul_byte(rgba@, i),
        decreases n_pix - p,
    {
        let base = 4 * p;
        let red = rgba[base];
        let green = rgba[base + 1];
        let blue = rgba[base + 2];
        let alpha = rgba[base + 3];
        out.push(premul_channel_exec(blue, alpha));
        out.push(premul_channel_exec(green, alpha));
        out.push(premul_channel_exec(red, alpha));
        out.push(alpha);
        proof {
            assert forall|i: int| 0 <= i < 4 * (p + 1) implies out@[i] == bgra_premul_byte(
                rgba@,
                i,
            ) by {
                if 4 * p <= i {
                    lemma_fundamental_div_mod_converse(i, 4, p as int, i - 4 * (p as int));
                }
            }
        }
        p += 1;
    }
    proof {
        assert(out@ =~= bgra_premul(rgba@));
    }
    out
}

/// Widths and heights beyond this are rejected so that every pixel index
/// fits comfortably in the machine's address arithmetic.
pub const MAX_DIMENSION: u32 = 16_384;

/// The immutable splash image: premultiplied-alpha BGRA pixels, row-major,
/// top-down, 4 bytes per pixel.  Decoded once at startup, never mutated.
pub struct SplashImage {
    pub width: u32,
    pub height: u32,
    pub pixels: Vec<u8>,
}

impl SplashImage {
    pub open spec fn wf(&self) -> bool {
        &&& self.pixels@.len() == 4 * (self.width as int) * (self.height as int)
        &&& self.width <= MAX_DIMENSION
        &&& self.height <= MAX_DIMENSION
    }
}

/// Decode the embedded splash asset and convert it for compositing.
/// Returns `None` exactly when the bytes do not decode or the decoded
/// dimensions exceed `MAX_DIMENSION`; the caller treats that as fatal.
pub fn decode_splash(data: &[u8]) -> (r: Option<SplashImage>)
    ensures
        r matches Some(img) ==> {
            &&& img.wf()
            &&& decoded_image(data@) matches Some(t) && img.width == t.0 && img.height == t.1
                && img.pixels@ == bgra_premul(t.2)
        },
        r is None <==> (decoded_image(data@) is None || (decoded_image(data@) matches Some(t)
            && (t.0 > MAX_DIMENSION || t.1 > MAX_DIMENSION))),
{
    match decode_rgba(data) {
        Some((w, h, rgba)) => {
            if w > MAX_DIMENSION || h > MAX_DIMENSION {
                None
            } else {
                proof {
                    assert(4 * (w as int) * (h as int) == ((w as int) * (h as int)) * 4 + 0)
                        by (nonlinear_arith);
                    lemma_fundamental_div_mod_converse(
                        rgba@.len() as int,
                        4,
                        (w as int) * (h as int),
                        0,
                    );
                }
                let pixels = premultiply_bgra(&rgba);
                Some(SplashImage { width: w, height: h, pixels })
            }
        },
        None => None,
    }
}

} // verus!
