//! The login procedures, one for each family of portals, as state machines:
//! each step takes what the last request brought and says what to do next.
pub mod ehall;
pub mod ids;
pub mod rsbbs;

pub use ehall::{App, EhallLoginImpl};
pub use ids::IDSLoginImpl;
pub use rsbbs::{Question, QuestionAnswerPair, RSBBSLoginImpl};

use vstd::prelude::*;

verus! {

/// Number of attempts that a login is allowed in all: the first one and the
/// retries together.
pub const LOGIN_RETRY_TIMES: usize = 5;

/// Whether the attempt that is made after `failed` attempts have failed is
/// the last one that a login is allowed.
pub open spec fn is_last_attempt(failed: nat) -> bool {
    failed + 1 >= LOGIN_RETRY_TIMES
}

/// Whether the attempt that is made after `failed` attempts have failed is
/// the last one that a login is allowed.
pub fn last_attempt(failed: usize) -> (last: bool)
    ensures
        last == is_last_attempt(failed as nat),
{
    failed >= LOGIN_RETRY_TIMES - 1
}

/// A session that can tell whether it is logged in.
pub trait XL4rsSessionTrait {
    fn has_logged_in(&self) -> bool;
}

} // verus!
