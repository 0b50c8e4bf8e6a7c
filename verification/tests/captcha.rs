use x_l4rs::error::CaptchaError;
use x_l4rs::utils::captcha::{can_scale, decode_captcha_images, move_length, solve_captcha};
use x_l4rs::utils::cry::Base64Error;

#[test]
fn move_length_scales_to_the_canvas() {
    assert_eq!(move_length(100, 560), 50);
    assert_eq!(move_length(100, 280), 100);
    assert_eq!(move_length(141, 590), 66);
    assert_eq!(move_length(0, 590), 0);
    assert_eq!(move_length(1, 281), 0);
    assert_eq!(move_length(u32::MAX, 280), u32::MAX);
}

#[test]
fn doubling_the_width_halves_the_move_length() {
    for (raw, width) in [(100u32, 280u32), (141, 295), (33, 7), (279, 1000), (5, 3)] {
        assert_eq!(move_length(raw, 2 * width), move_length(raw, width) / 2);
    }
}

#[test]
fn an_offset_as_wide_as_the_image_is_the_canvas_width() {
    for width in [1u32, 2, 280, 295, 590, 4096] {
        assert_eq!(move_length(width, width), 280);
    }
}

#[test]
fn can_scale_guards_move_length() {
    assert!(can_scale(10, 1));
    assert!(!can_scale(10, 0));
    assert!(!can_scale(u32::MAX, 1));
    assert!(can_scale(u32::MAX, 280));
    assert!(!can_scale(u32::MAX, 279));
}

#[test]
fn solve_captcha_scales_an_answer_and_hands_a_failure_on() {
    assert!(matches!(solve_captcha(Ok(141), 590), Ok(66)));
    assert!(matches!(solve_captcha(Err(CaptchaError::VerifyFailed), 0), Err(CaptchaError::VerifyFailed)));
    match solve_captcha(Err(CaptchaError::Canceled("no".to_string())), 590) {
        Err(CaptchaError::Canceled(why)) => assert_eq!(why, "no"),
        other => panic!("{:?}", other),
    }
}

#[test]
fn captcha_images_are_decoded_from_base64() {
    let images = decode_captcha_images("c21hbGw=", "YmlnIG9uZQ==").ok().unwrap();
    assert_eq!(images.small_image, b"small");
    assert_eq!(images.big_image, b"big one");
    assert!(matches!(
        decode_captcha_images("c21hbGw", "YmlnIG9uZQ=="),
        Err(Base64Error::InvalidPadding)
    ));
    assert!(matches!(
        decode_captcha_images("c21hbGw=", "Ymln!G9uZQ=="),
        Err(Base64Error::InvalidByte(4, b'!'))
    ));
}
