//! Login orchestration for a family of campus portals: credential encryption,
//! page scraping, captcha negotiation and the retry policy that ties them together.
//!
//! Everything here is pure computation. The functions take and return plain
//! values; whoever owns the HTTP client performs the requests that the state
//! machines in [`session`] ask for and feeds the responses back.
pub mod error;
pub mod login_solver;
pub mod protocol;
pub mod session;
pub mod utils;

pub use login_solver::XL4rsLoginSolver;
pub use session::{
    App, EhallLoginImpl, IDSLoginImpl, Question, QuestionAnswerPair, RSBBSLoginImpl,
    XL4rsSessionTrait, LOGIN_RETRY_TIMES,
};
