//! The requests that the portals understand, as plain values. Nothing here
//! talks to the network: each function says which request is to be made, or
//! what an answer means.
pub mod ehall;
pub mod ids;
pub mod rsbbs;

use crate::error::{AgentError, TransportFailure};
use crate::utils::cry::{percent_enc, percent_encoded};
use crate::utils::text::{decimal_digits, push_decimal};
use vstd::prelude::*;
use vstd::string::{StringExecFns, StringSliceAdditionalSpecFns};

verus! {

/// The endpoints of the central login service.
#[derive(Clone, Copy, Debug, PartialEq, Eq, Structural)]
pub enum XL4rsProtocolItem {
    Login,
    CheckNeedCaptcha,
    VerifySliderCaptcha,
    OpenSliderCaptcha,
    Authserver,
    GetUserConf,
}

impl XL4rsProtocolItem {
    /// The login page, and where the login form goes.
    pub const LOGIN: &'static str = "http://ids.xidian.edu.cn/authserver/login";

    /// Tells whether an account has to solve a captcha.
    pub const CHECK_NEED_CAPTCHA: &'static str =
        "https://ids.xidian.edu.cn/authserver/checkNeedCaptcha.htl";

    /// Takes the answer to a slider captcha.
    pub const VERIFY_SLIDER_CAPTCHA: &'static str =
        "https://ids.xidian.edu.cn/authserver/common/verifySliderCaptcha.htl";

    /// Hands out a slider captcha.
    pub const OPEN_SLIDER_CAPTCHA: &'static str =
        "https://ids.xidian.edu.cn/authserver/common/openSliderCaptcha.htl";

    /// The account page, which only a logged-in user gets to see.
    pub const AUTHSERVER: &'static str = "http://ids.xidian.edu.cn/authserver/index.do";

    /// Hands out the user's configuration.
    pub const GET_USER_CONF: &'static str =
        "https://ids.xidian.edu.cn/personalInfo/common/getUserConf";

    /// The address of an endpoint.
    pub open spec fn url(self) -> Seq<char> {
        match self {
            XL4rsProtocolItem::Login => Self::LOGIN@,
            XL4rsProtocolItem::CheckNeedCaptcha => Self::CHECK_NEED_CAPTCHA@,
            XL4rsProtocolItem::VerifySliderCaptcha => Self::VERIFY_SLIDER_CAPTCHA@,
            XL4rsProtocolItem::OpenSliderCaptcha => Self::OPEN_SLIDER_CAPTCHA@,
            XL4rsProtocolItem::Authserver => Self::AUTHSERVER@,
            XL4rsProtocolItem::GetUserConf => Self::GET_USER_CONF@,
        }
    }

    /// The name of the file in which the addresses may be configured.
    pub fn config_file_name() -> (name: &'static str)
        ensures
            name@ == "x_l4rs-protocol.toml"@,
    {
        "x_l4rs-protocol.toml"
    }

    /// The address that an endpoint has unless it is configured otherwise.
    pub fn get_default(&self) -> (url: &'static str)
        ensures
            url@ == self.url(),
    {
        match self {
            XL4rsProtocolItem::Login => Self::LOGIN,
            XL4rsProtocolItem::CheckNeedCaptcha => Self::CHECK_NEED_CAPTCHA,
            XL4rsProtocolItem::VerifySliderCaptcha => Self::VERIFY_SLIDER_CAPTCHA,
            XL4rsProtocolItem::OpenSliderCaptcha => Self::OPEN_SLIDER_CAPTCHA,
            XL4rsProtocolItem::Authserver => Self::AUTHSERVER,
            XL4rsProtocolItem::GetUserConf => Self::GET_USER_CONF,
        }
    }

    /// The address of an endpoint.
    pub fn get(&self) -> (url: &'static str)
        ensures
            url@ == self.url(),
    {
        self.get_default()
    }
}

/// Addresses that a configuration may put in place of the built-in ones, one
/// for each endpoint.
#[derive(Debug)]
pub struct XL4rsProtocolData {
    login: Option<String>,
    check_need_captcha: Option<String>,
    verify_slider_captcha: Option<String>,
    open_slider_captcha: Option<String>,
    authserver: Option<String>,
    get_user_conf: Option<String>,
}

impl XL4rsProtocolData {
    /// The address configured for `item`, if any.
    pub closed spec fn entry(&self, item: XL4rsProtocolItem) -> Option<String> {
        match item {
            XL4rsProtocolItem::Login => self.login,
            XL4rsProtocolItem::CheckNeedCaptcha => self.check_need_captcha,
            XL4rsProtocolItem::VerifySliderCaptcha => self.verify_slider_captcha,
            XL4rsProtocolItem::OpenSliderCaptcha => self.open_slider_captcha,
            XL4rsProtocolItem::Authserver => self.authserver,
            XL4rsProtocolItem::GetUserConf => self.get_user_conf,
        }
    }

    /// Applies `do_something` to the address configured for `t`.
    pub fn map_by_enum<T, F: Fn(&Option<String>) -> T>(
        &self,
        t: &XL4rsProtocolItem,
        do_something: F,
    ) -> (r: T)
        requires
            call_requires(do_something, (&self.entry(*t),)),
        ensures
            call_ensures(do_something, (&self.entry(*t),), r),
    {
        match t {
            XL4rsProtocolItem::Login => do_something(&self.login),
            XL4rsProtocolItem::CheckNeedCaptcha => do_something(&self.check_need_captcha),
            XL4rsProtocolItem::VerifySliderCaptcha => do_something(&self.verify_slider_captcha),
            XL4rsProtocolItem::OpenSliderCaptcha => do_something(&self.open_slider_captcha),
            XL4rsProtocolItem::Authserver => do_something(&self.authserver),
            XL4rsProtocolItem::GetUserConf => do_something(&self.get_user_conf),
        }
    }

    /// Puts `url` in place of the address configured for `t`; every other
    /// entry stays.
    pub fn set(&mut self, t: &XL4rsProtocolItem, url: Option<String>)
        ensures
            final(self).entry(*t) == url,
            forall|other: XL4rsProtocolItem|
                other != *t ==> final(self).entry(other) == old(self).entry(other),
    {
        match t {
            XL4rsProtocolItem::Login => self.login = url,
            XL4rsProtocolItem::CheckNeedCaptcha => self.check_need_captcha = url,
            XL4rsProtocolItem::VerifySliderCaptcha => self.verify_slider_captcha = url,
            XL4rsProtocolItem::OpenSliderCaptcha => self.open_slider_captcha = url,
            XL4rsProtocolItem::Authserver => self.authserver = url,
            XL4rsProtocolItem::GetUserConf => self.get_user_conf = url,
        }
    }
}

impl Default for XL4rsProtocolData {
    /// Every endpoint at its built-in address.
    fn default() -> (data: Self)
        ensures
            forall|item: XL4rsProtocolItem|
                (#[trigger] data.entry(item)) is Some && data.entry(item)->0@ == item.url(),
    {
        XL4rsProtocolData {
            login: Some(String::from_str(XL4rsProtocolItem::Login.get_default())),
            check_need_captcha: Some(
                String::from_str(XL4rsProtocolItem::CheckNeedCaptcha.get_default()),
            ),
            verify_slider_captcha: Some(
                String::from_str(XL4rsProtocolItem::VerifySliderCaptcha.get_default()),
            ),
            open_slider_captcha: Some(
                String::from_str(XL4rsProtocolItem::OpenSliderCaptcha.get_default()),
            ),
            authserver: Some(String::from_str(XL4rsProtocolItem::Authserver.get_default())),
            get_user_conf: Some(String::from_str(XL4rsProtocolItem::GetUserConf.get_default())),
        }
    }
}

/// How a request is sent.
#[derive(Clone, Copy, Debug, PartialEq, Eq, Structural)]
pub enum Method {
    Get,
    /// The fields go out as a URL-encoded form.
    PostForm,
}

/// A request for the HTTP client to perform.
#[derive(Debug)]
pub struct Request {
    pub method: Method,
    pub url: String,
    pub headers: Vec<(String, String)>,
    /// The fields of the form; empty for a `Get`.
    pub form: Vec<(String, String)>,
    /// Whether redirects are to be followed.
    pub follow_redirects: bool,
}

/// The mathematical content of a [`Request`].
pub struct RequestView {
    pub method: Method,
    pub url: Seq<char>,
    pub headers: Seq<(Seq<char>, Seq<char>)>,
    pub form: Seq<(Seq<char>, Seq<char>)>,
    pub follow_redirects: bool,
}

/// The text of each pair of a list.
pub open spec fn pairs_view(pairs: Seq<(String, String)>) -> Seq<(Seq<char>, Seq<char>)> {
    Seq::new(pairs.len(), |i: int| (pairs[i].0@, pairs[i].1@))
}

impl View for Request {
    type V = RequestView;

    open spec fn view(&self) -> RequestView {
        RequestView {
            method: self.method,
            url: self.url@,
            headers: pairs_view(self.headers@),
            form: pairs_view(self.form@),
            follow_redirects: self.follow_redirects,
        }
    }
}

/// Appending a pair appends its text.
pub proof fn lemma_pairs_push(pairs: Seq<(String, String)>, pair: (String, String))
    ensures
        pairs_view(pairs.push(pair)) == pairs_view(pairs).push((pair.0@, pair.1@)),
{
    assert(pairs_view(pairs.push(pair)) =~= pairs_view(pairs).push((pair.0@, pair.1@)));
}

/// Appends the pair of `name` and `value` to `pairs`.
pub fn push_pair(pairs: &mut Vec<(String, String)>, name: &str, value: &str)
    ensures
        pairs_view(final(pairs)@) == pairs_view(old(pairs)@).push((name@, value@)),
{
    let pair = (String::from_str(name), String::from_str(value));
    proof {
        lemma_pairs_push(pairs@, pair);
    }
    pairs.push(pair);
}

/// A plain `GET` of `url` that follows redirects.
pub fn get_request(url: String) -> (request: Request)
    ensures
        request@ == (RequestView {
            method: Method::Get,
            url: url@,
            headers: Seq::empty(),
            form: Seq::empty(),
            follow_redirects: true,
        }),
{
    let request = Request {
        method: Method::Get,
        url,
        headers: Vec::new(),
        form: Vec::new(),
        follow_redirects: true,
    };
    assert(request@.headers =~= Seq::empty());
    assert(request@.form =~= Seq::empty());
    request
}

/// The address of the login page for the service `target`.
pub open spec fn login_url(login: Seq<char>, target: Seq<u8>) -> Seq<char> {
    login + "?service="@ + percent_encoded(target)
}

/// The address that tells whether `uname` has to solve a captcha.
pub open spec fn check_need_captcha_url(base: Seq<char>, uname: Seq<char>, millis: nat) -> Seq<
    char,
> {
    base + "?username="@ + uname + "&_="@ + decimal_digits(millis)
}

/// The address that hands out a slider captcha.
pub open spec fn open_slider_captcha_url(base: Seq<char>, millis: nat) -> Seq<char> {
    base + "?_="@ + decimal_digits(millis)
}

/// The form that submits a slider position.
pub open spec fn slider_form(move_length: nat) -> Seq<(Seq<char>, Seq<char>)> {
    seq![("canvasLength"@, "280"@), ("moveLength"@, decimal_digits(move_length))]
}

/// Whether the answer to a liveness probe shows a session that is logged in.
/// A redirect (status 302) leads to the login page, so the session is not;
/// any other status shows that it is. Without a status nothing is shown.
pub open spec fn shows_logged_in(probe: Result<u16, TransportFailure>) -> bool {
    match probe {
        Ok(status) => status != 302,
        Err(TransportFailure::StatusCode(status)) => status != 302,
        Err(_) => false,
    }
}

pub(crate) fn build_login_url(login: &str, target: &str) -> (url: String)
    ensures
        url@ == login_url(login@, target.spec_bytes()),
{
    let encoded = percent_enc(target);
    String::from_str(login).concat("?service=").concat(encoded.as_str())
}

pub(crate) fn build_check_need_captcha(base: &str, uname: &str, millis: u128) -> (r: Request)
    ensures
        r@ == (RequestView {
            method: Method::Get,
            url: check_need_captcha_url(base@, uname@, millis as nat),
            headers: Seq::empty(),
            form: Seq::empty(),
            follow_redirects: true,
        }),
{
    let mut url = String::from_str(base).concat("?username=").concat(uname).concat("&_=");
    push_decimal(&mut url, millis);
    get_request(url)
}

pub(crate) fn build_open_slider_captcha(base: &str, millis: u128) -> (r: Request)
    ensures
        r@ == (RequestView {
            method: Method::Get,
            url: open_slider_captcha_url(base@, millis as nat),
            headers: Seq::empty(),
            form: Seq::empty(),
            follow_redirects: true,
        }),
{
    let mut url = String::from_str(base).concat("?_=");
    push_decimal(&mut url, millis);
    get_request(url)
}

pub(crate) fn build_verify_slider_captcha(base: &str, move_length: u32) -> (r: Request)
    ensures
        r@ == (RequestView {
            method: Method::PostForm,
            url: base@,
            headers: seq![("Refer"@, "https://ids.xidian.edu.cn/authserver/login"@)],
            form: slider_form(move_length as nat),
            follow_redirects: true,
        }),
{
    let mut headers: Vec<(String, String)> = Vec::new();
    push_pair(&mut headers, "Refer", "https://ids.xidian.edu.cn/authserver/login");
    let mut length = String::new();
    push_decimal(&mut length, move_length as u128);
    let mut form: Vec<(String, String)> = Vec::new();
    push_pair(&mut form, "canvasLength", "280");
    push_pair(&mut form, "moveLength", length.as_str());
    let r = Request {
        method: Method::PostForm,
        url: String::from_str(base),
        headers,
        form,
        follow_redirects: true,
    };
    assert(r@.headers =~= seq![("Refer"@, "https://ids.xidian.edu.cn/authserver/login"@)]);
    assert(r@.form =~= slider_form(move_length as nat));
    r
}

pub(crate) fn build_probe(url: &str) -> (r: Request)
    ensures
        r@ == (RequestView {
            method: Method::Get,
            url: url@,
            headers: Seq::empty(),
            form: Seq::empty(),
            follow_redirects: false,
        }),
{
    let mut r = get_request(String::from_str(url));
    r.follow_redirects = false;
    r
}

/// Reads the answer to a liveness probe: see [`shows_logged_in`].
pub(crate) fn read_probe(probe: &Result<u16, AgentError>) -> (logged_in: bool)
    ensures
        logged_in == shows_logged_in(
            match probe {
                Ok(status) => Ok(*status),
                Err(e) => Err(e.failure),
            },
        ),
{
    match probe {
        Ok(status) => *status != 302,
        Err(e) => match e.failure {
            TransportFailure::StatusCode(status) => status != 302,
            _ => false,
        },
    }
}

/// The request for the login page that leads to `target`.
pub fn login_page(target: &str) -> (r: Request)
    ensures
        r@ == (RequestView {
            method: Method::Get,
            url: login_url(XL4rsProtocolItem::Login.url(), target.spec_bytes()),
            headers: Seq::empty(),
            form: Seq::empty(),
            follow_redirects: true,
        }),
{
    get_request(build_login_url(XL4rsProtocolItem::Login.get(), target))
}

/// The request that submits the login form `data` for `target`.
pub fn login(target: &str, data: Vec<(String, String)>) -> (r: Request)
    ensures
        r@ == (RequestView {
            method: Method::PostForm,
            url: login_url(XL4rsProtocolItem::Login.url(), target.spec_bytes()),
            headers: Seq::empty(),
            form: pairs_view(data@),
            follow_redirects: true,
        }),
{
    let r = Request {
        method: Method::PostForm,
        url: build_login_url(XL4rsProtocolItem::Login.get(), target),
        headers: Vec::new(),
        form: data,
        follow_redirects: true,
    };
    assert(r@.headers =~= Seq::empty());
    r
}

/// The request that asks whether `uname` has to solve a captcha.
pub fn check_need_captcha(uname: &str, time_stamp_mills: u128) -> (r: Request)
    ensures
        r@ == (RequestView {
            method: Method::Get,
            url: check_need_captcha_url(
                XL4rsProtocolItem::CheckNeedCaptcha.url(),
                uname@,
                time_stamp_mills as nat,
            ),
            headers: Seq::empty(),
            form: Seq::empty(),
            follow_redirects: true,
        }),
{
    build_check_need_captcha(XL4rsProtocolItem::CheckNeedCaptcha.get(), uname, time_stamp_mills)
}

/// The request for a slider captcha.
pub fn open_slider_captcha(time_stamp_mills: u128) -> (r: Request)
    ensures
        r@ == (RequestView {
            method: Method::Get,
            url: open_slider_captcha_url(
                XL4rsProtocolItem::OpenSliderCaptcha.url(),
                time_stamp_mills as nat,
            ),
            headers: Seq::empty(),
            form: Seq::empty(),
            follow_redirects: true,
        }),
{
    build_open_slider_captcha(XL4rsProtocolItem::OpenSliderCaptcha.get(), time_stamp_mills)
}

/// The request that submits the slider position `move_length`, measured on a
/// canvas 280 units wide.
pub fn verify_slider_captcha(move_length: u32) -> (r: Request)
    ensures
        r@ == (RequestView {
            method: Method::PostForm,
            url: XL4rsProtocolItem::VerifySliderCaptcha.url(),
            headers: seq![("Refer"@, "https://ids.xidian.edu.cn/authserver/login"@)],
            form: slider_form(move_length as nat),
            follow_redirects: true,
        }),
{
    build_verify_slider_captcha(XL4rsProtocolItem::VerifySliderCaptcha.get(), move_length)
}

/// Whether a probe of the account page, made without following redirects,
/// shows that the session is logged in: see [`shows_logged_in`].
pub fn is_logged_in(probe: &Result<u16, AgentError>) -> (logged_in: bool)
    ensures
        logged_in == shows_logged_in(
            match probe {
                Ok(status) => Ok(*status),
                Err(e) => Err(e.failure),
            },
        ),
{
    read_probe(probe)
}

} // verus!
