//! Tools that the login procedures share.
pub mod captcha;
pub mod cry;
pub mod find_element;
pub mod search;
pub mod text;

pub use cry::{
    aes_dec, aes_enc, base64_dec, base64_enc, flatten_bytes, md5_enc, percent_enc, pkcs7_pad,
    pkcs7_unpad, X_L4RS_ENC_IV, X_L4RS_ENC_KEY,
};

use vstd::prelude::*;

verus! {

/// `std::time::Instant`, which is carried from the start of a measurement to
/// its end and never looked into.
#[verifier::external_type_specification]
#[verifier::external_body]
pub struct ExInstant(std::time::Instant);

/// `std::time::SystemTime::elapsed` on the Unix epoch: the time since then,
/// if the clock is not set to an earlier day. Nothing is claimed of the
/// result: it is the clock's.
#[verifier::external_body]
fn since_unix_epoch() -> (elapsed: Option<std::time::Duration>) {
    std::time::UNIX_EPOCH.elapsed().ok()
}

/// `std::time::Instant::now`. Nothing is claimed of the result.
#[verifier::external_body]
fn instant_now() -> (now: std::time::Instant) {
    std::time::Instant::now()
}

/// `std::time::Instant::elapsed`. Nothing is claimed of the result.
#[verifier::external_body]
fn instant_elapsed(start: &std::time::Instant) -> (elapsed: std::time::Duration) {
    start.elapsed()
}

/// `std::time::Duration::as_millis`. Nothing is claimed of the result.
pub assume_specification[ std::time::Duration::as_millis ](duration: &std::time::Duration) -> u128
;

/// The milliseconds since the Unix epoch, or 0 where the clock is set to a
/// day before it.
pub fn get_now_timestamp_mills() -> u128 {
    let elapsed = match since_unix_epoch() {
        Some(elapsed) => Some(elapsed.as_millis()),
        None => None,
    };
    timestamp_mills_of(elapsed)
}

/// The timestamp that the clock's reading stands for: the milliseconds that
/// it counted since the Unix epoch, or 0 where it counted none because it is
/// set to a day before the epoch.
pub fn timestamp_mills_of(elapsed_millis: Option<u128>) -> (millis: u128)
    ensures
        millis == match elapsed_millis {
            Some(counted) => counted,
            None => 0,
        },
{
    match elapsed_millis {
        Some(counted) => counted,
        None => 0,
    }
}

/// Runs `f` and says how many milliseconds it took.
pub fn time_it<R, F: FnOnce() -> R>(f: F) -> (timed: (R, u128))
    requires
        f.requires(()),
    ensures
        f.ensures((), timed.0),
{
    let start = instant_now();
    let r = f();
    let elapsed = instant_elapsed(&start);
    (r, elapsed.as_millis())
}

} // verus!
