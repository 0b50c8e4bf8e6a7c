//! The slider captcha: turning the solver's pixel offset into the value that
//! the server wants.
use crate::error::CaptchaError;
use crate::utils::cry::{base64_dec, base64_decoded, Base64Error};
use vstd::prelude::*;
use vstd::string::StringSliceAdditionalSpecFns;

verus! {

/// The width of the canvas on which the server measures a slider position.
pub const CANVAS_WIDTH: u32 = 280;

/// A pixel offset in an image `width` pixels wide, measured on the canvas.
pub open spec fn scaled_offset(raw: nat, width: nat) -> nat {
    raw * (CANVAS_WIDTH as nat) / width
}

/// Doubling the width of the image halves the scaled offset, exactly. So an
/// offset that [`move_length`] can scale in an image can be scaled in an
/// image twice as wide too, and comes out half as large.
pub proof fn lemma_scaling_halves(raw: nat, width: nat)
    requires
        width > 0,
    ensures
        scaled_offset(raw, 2 * width) == scaled_offset(raw, width) / 2,
        scaled_offset(raw, width) <= u32::MAX ==> scaled_offset(raw, 2 * width) <= u32::MAX,
{
    let x = (raw * 280) as int;
    vstd::arithmetic::div_mod::lemma_div_denominator(x, width as int, 2);
    assert(width * 2 == 2 * width) by (nonlinear_arith);
}

/// An offset as wide as the image is as wide as the canvas.
pub proof fn lemma_full_width_is_canvas(width: nat)
    requires
        width > 0,
    ensures
        scaled_offset(width, width) == CANVAS_WIDTH,
{
    assert(width * 280 == 280 * width) by (nonlinear_arith);
    vstd::arithmetic::div_mod::lemma_div_multiples_vanish(280, width as int);
}

/// Scales the pixel offset `raw`, found in an image `big_image_width` pixels
/// wide, to the canvas.
pub fn move_length(raw: u32, big_image_width: u32) -> (length: u32)
    requires
        big_image_width > 0,
        scaled_offset(raw as nat, big_image_width as nat) <= u32::MAX,
    ensures
        length == scaled_offset(raw as nat, big_image_width as nat),
{
    assert(raw * CANVAS_WIDTH <= u64::MAX) by (nonlinear_arith)
        requires
            raw <= u32::MAX,
            CANVAS_WIDTH == 280,
    ;
    let product: u64 = raw as u64 * CANVAS_WIDTH as u64;
    let scaled: u64 = product / big_image_width as u64;
    scaled as u32
}

/// Whether [`move_length`] can scale `raw`: the image has a width, and the
/// result fits.
pub fn can_scale(raw: u32, big_image_width: u32) -> (ok: bool)
    ensures
        ok == (big_image_width > 0 && scaled_offset(raw as nat, big_image_width as nat)
            <= u32::MAX),
{
    if big_image_width == 0 {
        return false;
    }
    assert(raw * CANVAS_WIDTH <= u64::MAX) by (nonlinear_arith)
        requires
            raw <= u32::MAX,
            CANVAS_WIDTH == 280,
    ;
    let product: u64 = raw as u64 * CANVAS_WIDTH as u64;
    let scaled: u64 = product / big_image_width as u64;
    scaled <= u32::MAX as u64
}

/// Turns what the solver said into what is submitted: the solver's pixel
/// offset in the big image goes to the server scaled to the canvas, whoever
/// the solver is; its failure goes through as it is.
pub fn solve_captcha(solved: Result<u32, CaptchaError>, big_image_width: u32) -> (r: Result<
    u32,
    CaptchaError,
>)
    requires
        solved matches Ok(raw) ==> big_image_width > 0 && scaled_offset(
            raw as nat,
            big_image_width as nat,
        ) <= u32::MAX,
    ensures
        match solved {
            Ok(raw) => r matches Ok(length) && length == scaled_offset(
                raw as nat,
                big_image_width as nat,
            ),
            Err(e) => r matches Err(same) && same == e,
        },
{
    match solved {
        Ok(raw) => Ok(move_length(raw, big_image_width)),
        Err(e) => Err(e),
    }
}

/// The two images of a slider captcha, as they come off the wire.
pub struct CaptchaImages {
    /// The background with the notch.
    pub big_image: Vec<u8>,
    /// The piece that fits the notch.
    pub small_image: Vec<u8>,
}

/// Decodes the two images of a slider captcha from base64. The small image
/// is decoded first, and its error is the one reported if both are malformed.
pub fn decode_captcha_images(small_image: &str, big_image: &str) -> (r: Result<
    CaptchaImages,
    Base64Error,
>)
    ensures
        match r {
            Ok(images) => {
                &&& base64_decoded(small_image.spec_bytes()) == Ok::<Seq<u8>, Base64Error>(
                    images.small_image@,
                )
                &&& base64_decoded(big_image.spec_bytes()) == Ok::<Seq<u8>, Base64Error>(
                    images.big_image@,
                )
            },
            Err(e) => {
                ||| base64_decoded(small_image.spec_bytes()) == Err::<Seq<u8>, Base64Error>(e)
                ||| (base64_decoded(small_image.spec_bytes()) is Ok && base64_decoded(
                    big_image.spec_bytes(),
                ) == Err::<Seq<u8>, Base64Error>(e))
            },
        },
{
    let small = match base64_dec(small_image.as_bytes()) {
        Ok(bytes) => bytes,
        Err(e) => {
            return Err(e);
        },
    };
    let big = match base64_dec(big_image.as_bytes()) {
        Ok(bytes) => bytes,
        Err(e) => {
            return Err(e);
        },
    };
    Ok(CaptchaImages { big_image: big, small_image: small })
}

} // verus!
