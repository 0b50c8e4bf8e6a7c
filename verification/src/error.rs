//! The error taxonomy of a login, and the judgment the retry policy rests on:
//! whether a failure is fatal or worth another attempt.
use vstd::prelude::*;
use vstd::string::StringExecFns;

verus! {

/// What the HTTP transport reported, reduced to what the retry policy reads.
#[derive(Clone, Copy, Debug, PartialEq, Eq, Structural)]
pub enum TransportFailure {
    /// The server answered with a 4xx or 5xx status.
    StatusCode(u16),
    /// The request could not be formed, for instance because of a bad header.
    Http,
    /// The URL lacks a scheme or a host.
    BadUri,
    /// The server broke the HTTP/1.1 protocol.
    Protocol,
    /// Reading or writing the socket failed.
    Io,
    /// A configured timeout expired.
    Timeout,
    /// The host name did not resolve.
    HostNotFound,
    /// A redirect of a request with a body was refused.
    RedirectFailed,
    /// The proxy settings are malformed.
    InvalidProxyUrl,
    /// No connection could be made.
    ConnectionFailed,
    /// The body is larger than the announced length.
    BodyExceedsLimit,
    /// The redirect limit was hit.
    TooManyRedirects,
    /// The client is restricted to https and the URL is not.
    RequireHttpsOnly,
    /// The response header is too large.
    LargeResponseHeader,
    /// The CONNECT proxy refused.
    ConnectProxyFailed,
    /// The body made no progress.
    BodyStalled,
    /// Anything else.
    Other,
}

/// Whether a transport failure ends the login. Failures that look like a
/// misconfiguration are fatal; those that look transient are not.
pub open spec fn transport_is_fatal(failure: TransportFailure) -> bool {
    match failure {
        TransportFailure::StatusCode(code) => code != 504,
        TransportFailure::Http => true,
        TransportFailure::BadUri => true,
        TransportFailure::Protocol => false,
        TransportFailure::Io => false,
        TransportFailure::Timeout => true,
        TransportFailure::HostNotFound => false,
        TransportFailure::RedirectFailed => false,
        TransportFailure::InvalidProxyUrl => true,
        TransportFailure::ConnectionFailed => true,
        TransportFailure::BodyExceedsLimit => true,
        TransportFailure::TooManyRedirects => false,
        TransportFailure::RequireHttpsOnly => false,
        TransportFailure::LargeResponseHeader => false,
        TransportFailure::ConnectProxyFailed => true,
        TransportFailure::BodyStalled => false,
        TransportFailure::Other => true,
    }
}

/// A failure of the HTTP transport, with the transport's own description of it.
#[derive(Debug)]
pub struct AgentError {
    pub failure: TransportFailure,
    pub message: String,
}

/// The mathematical content of an [`AgentError`].
pub struct AgentErrorView {
    pub failure: TransportFailure,
    pub message: Seq<char>,
}

impl View for AgentError {
    type V = AgentErrorView;

    open spec fn view(&self) -> AgentErrorView {
        AgentErrorView { failure: self.failure, message: self.message@ }
    }
}

impl AgentErrorView {
    /// Whether the failure ends the login.
    pub open spec fn is_fatal(self) -> bool {
        transport_is_fatal(self.failure)
    }
}

impl AgentError {
    /// A failure of kind `failure` that the transport describes as `message`.
    pub fn new(failure: TransportFailure, message: String) -> (e: AgentError)
        ensures
            e@ == (AgentErrorView { failure, message: message@ }),
    {
        AgentError { failure, message }
    }

    /// Whether this failure ends the login rather than calling for a retry.
    pub fn is_fatal(&self) -> (fatal: bool)
        ensures
            fatal == self@.is_fatal(),
    {
        match self.failure {
            TransportFailure::StatusCode(code) => code != 504,
            TransportFailure::Http => true,
            TransportFailure::BadUri => true,
            TransportFailure::Protocol => false,
            TransportFailure::Io => false,
            TransportFailure::Timeout => true,
            TransportFailure::HostNotFound => false,
            TransportFailure::RedirectFailed => false,
            TransportFailure::InvalidProxyUrl => true,
            TransportFailure::ConnectionFailed => true,
            TransportFailure::BodyExceedsLimit => true,
            TransportFailure::TooManyRedirects => false,
            TransportFailure::RequireHttpsOnly => false,
            TransportFailure::LargeResponseHeader => false,
            TransportFailure::ConnectProxyFailed => true,
            TransportFailure::BodyStalled => false,
            TransportFailure::Other => true,
        }
    }

    /// The transport's description of the failure.
    pub fn to_text(&self) -> (text: String)
        ensures
            text@ == self@.message,
    {
        self.message.clone()
    }
}

/// A failure of the captcha step.
#[derive(Debug)]
pub enum CaptchaError {
    AgentError(AgentError),
    /// The server did not accept the answer.
    VerifyFailed,
    /// The solver gave up on purpose.
    Canceled(String),
}

/// The mathematical content of a [`CaptchaError`].
pub enum CaptchaErrorView {
    AgentError(AgentErrorView),
    VerifyFailed,
    Canceled(Seq<char>),
}

impl View for CaptchaError {
    type V = CaptchaErrorView;

    open spec fn view(&self) -> CaptchaErrorView {
        match self {
            CaptchaError::AgentError(e) => CaptchaErrorView::AgentError(e@),
            CaptchaError::VerifyFailed => CaptchaErrorView::VerifyFailed,
            CaptchaError::Canceled(why) => CaptchaErrorView::Canceled(why@),
        }
    }
}

impl CaptchaErrorView {
    /// A rejected answer is worth another challenge; a cancellation is a
    /// deliberate abort.
    pub open spec fn is_fatal(self) -> bool {
        match self {
            CaptchaErrorView::AgentError(e) => e.is_fatal(),
            CaptchaErrorView::VerifyFailed => false,
            CaptchaErrorView::Canceled(_) => true,
        }
    }

    /// The message shown for the failure.
    pub open spec fn text(self) -> Seq<char> {
        match self {
            CaptchaErrorView::AgentError(e) => e.message,
            CaptchaErrorView::VerifyFailed => "验证失败。"@,
            CaptchaErrorView::Canceled(why) => "操作被主动取消：`"@ + why + "`."@,
        }
    }
}

impl CaptchaError {
    /// Whether this failure ends the login rather than calling for a retry.
    pub fn is_fatal(&self) -> (fatal: bool)
        ensures
            fatal == self@.is_fatal(),
    {
        match self {
            CaptchaError::AgentError(e) => e.is_fatal(),
            CaptchaError::VerifyFailed => false,
            CaptchaError::Canceled(_) => true,
        }
    }

    /// The message shown for this failure.
    pub fn to_text(&self) -> (text: String)
        ensures
            text@ == self@.text(),
    {
        match self {
            CaptchaError::AgentError(e) => e.to_text(),
            CaptchaError::VerifyFailed => String::from_str("验证失败。"),
            CaptchaError::Canceled(why) => {
                String::from_str("操作被主动取消：`").concat(why.as_str()).concat("`.")
            },
        }
    }
}

/// Any failure of a login.
#[derive(Debug)]
pub enum LoginError {
    AgentError(AgentError),
    CaptchaError(CaptchaError),
    /// Ciphertext or padding is malformed, or no key was found.
    CryptoError(String),
    /// The page lacks what was expected, or the server refused the login.
    ServerError(String),
}

/// The mathematical content of a [`LoginError`].
pub enum LoginErrorView {
    AgentError(AgentErrorView),
    CaptchaError(CaptchaErrorView),
    CryptoError(Seq<char>),
    ServerError(Seq<char>),
}

impl View for LoginError {
    type V = LoginErrorView;

    open spec fn view(&self) -> LoginErrorView {
        match self {
            LoginError::AgentError(e) => LoginErrorView::AgentError(e@),
            LoginError::CaptchaError(e) => LoginErrorView::CaptchaError(e@),
            LoginError::CryptoError(why) => LoginErrorView::CryptoError(why@),
            LoginError::ServerError(why) => LoginErrorView::ServerError(why@),
        }
    }
}

impl LoginErrorView {
    /// Transport and captcha failures are judged by their own rules; a crypto
    /// or server failure always ends the login.
    pub open spec fn is_fatal(self) -> bool {
        match self {
            LoginErrorView::AgentError(e) => e.is_fatal(),
            LoginErrorView::CaptchaError(e) => e.is_fatal(),
            LoginErrorView::CryptoError(_) => true,
            LoginErrorView::ServerError(_) => true,
        }
    }

    /// The message shown for the failure.
    pub open spec fn text(self) -> Seq<char> {
        match self {
            LoginErrorView::AgentError(e) => e.message,
            LoginErrorView::CaptchaError(e) => e.text(),
            LoginErrorView::CryptoError(why) => "加解密错误：`"@ + why + "`."@,
            LoginErrorView::ServerError(why) => "登录失败，服务器返回信息：`"@ + why + "`."@,
        }
    }
}

impl LoginError {
    /// Whether this failure ends the login rather than calling for a retry.
    pub fn is_fatal(&self) -> (fatal: bool)
        ensures
            fatal == self@.is_fatal(),
    {
        match self {
            LoginError::AgentError(e) => e.is_fatal(),
            LoginError::CaptchaError(e) => e.is_fatal(),
            LoginError::CryptoError(_) => true,
            LoginError::ServerError(_) => true,
        }
    }

    /// The message shown for this failure.
    pub fn to_text(&self) -> (text: String)
        ensures
            text@ == self@.text(),
    {
        match self {
            LoginError::AgentError(e) => e.to_text(),
            LoginError::CaptchaError(e) => e.to_text(),
            LoginError::CryptoError(why) => {
                String::from_str("加解密错误：`").concat(why.as_str()).concat("`.")
            },
            LoginError::ServerError(why) => {
                String::from_str("登录失败，服务器返回信息：`").concat(why.as_str()).concat("`.")
            },
        }
    }

    /// A server failure carrying `why`.
    pub fn server(why: &str) -> (e: LoginError)
        ensures
            e@ == LoginErrorView::ServerError(why@),
    {
        LoginError::ServerError(String::from_str(why))
    }

    /// A crypto failure carrying `why`.
    pub fn crypto(why: &str) -> (e: LoginError)
        ensures
            e@ == LoginErrorView::CryptoError(why@),
    {
        LoginError::CryptoError(String::from_str(why))
    }
}

} // verus!
