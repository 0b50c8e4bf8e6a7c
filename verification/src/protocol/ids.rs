//! The requests of the central login service.
use crate::error::AgentError;
use crate::protocol::{
    build_check_need_captcha, build_login_url, build_open_slider_captcha, build_probe,
    build_verify_slider_captcha, check_need_captcha_url, get_request, login_url,
    open_slider_captcha_url, pairs_view, read_probe, shows_logged_in, slider_form, Method, Request,
    RequestView,
};
use vstd::prelude::*;
use vstd::string::{StringExecFns, StringSliceAdditionalSpecFns};

verus! {

/// The endpoints of the central login service.
#[derive(Clone, Copy, Debug, PartialEq, Eq, Structural)]
pub enum IDSProtocolItem {
    Login,
    CheckNeedCaptcha,
    VerifySliderCaptcha,
    OpenSliderCaptcha,
    Authserver,
    GetUserConf,
}

impl IDSProtocolItem {
    /// The login page, and where the login form goes.
    pub const LOGIN: &'static str = "http://ids.xidian.edu.cn/authserver/login";

    /// Tells whether an account has to solve a captcha.
    pub const CHECK_NEED_CAPTCHA: &'static str =
        "https://ids.xidian.edu.cn/authserver/checkNeedCaptcha.htl";

    /// Takes the answer to a slider captcha.
    pub const VERIFY_SLIDER_CAPTCHA: &'static str =
        "https://ids.xidian.edu.cn/authserver/common/verifySliderCaptcha.htl";

    /// Hands out a slider captcha.
    pub const OPEN_SLIDER_CAPTCHA: &'static str =
        "https://ids.xidian.edu.cn/authserver/common/openSliderCaptcha.htl";

    /// The account page, which only a logged-in user gets to see.
    pub const AUTHSERVER: &'static str = "http://ids.xidian.edu.cn/authserver/index.do";

    /// Hands out the user's configuration.
    pub const GET_USER_CONF: &'static str =
        "https://ids.xidian.edu.cn/personalInfo/common/getUserConf";

    /// The address of an endpoint.
    pub open spec fn url(self) -> Seq<char> {
        match self {
            IDSProtocolItem::Login => Self::LOGIN@,
            IDSProtocolItem::CheckNeedCaptcha => Self::CHECK_NEED_CAPTCHA@,
            IDSProtocolItem::VerifySliderCaptcha => Self::VERIFY_SLIDER_CAPTCHA@,
            IDSProtocolItem::OpenSliderCaptcha => Self::OPEN_SLIDER_CAPTCHA@,
            IDSProtocolItem::Authserver => Self::AUTHSERVER@,
            IDSProtocolItem::GetUserConf => Self::GET_USER_CONF@,
        }
    }

    /// The name of the file in which the addresses may be configured.
    pub fn config_file_name() -> (name: &'static str)
        ensures
            name@ == "x_l4rs-ids-protocol.toml"@,
    {
        "x_l4rs-ids-protocol.toml"
    }

    /// The address that an endpoint has unless it is configured otherwise.
    pub fn get_default(&self) -> (url: &'static str)
        ensures
            url@ == self.url(),
    {
        match self {
            IDSProtocolItem::Login => Self::LOGIN,
            IDSProtocolItem::CheckNeedCaptcha => Self::CHECK_NEED_CAPTCHA,
            IDSProtocolItem::VerifySliderCaptcha => Self::VERIFY_SLIDER_CAPTCHA,
            IDSProtocolItem::OpenSliderCaptcha => Self::OPEN_SLIDER_CAPTCHA,
            IDSProtocolItem::Authserver => Self::AUTHSERVER,
            IDSProtocolItem::GetUserConf => Self::GET_USER_CONF,
        }
    }

    /// The address of an endpoint.
    pub fn get(&self) -> (url: &'static str)
        ensures
            url@ == self.url(),
    {
        self.get_default()
    }
}

/// Addresses that a configuration may put in place of the built-in ones, one
/// for each endpoint.
#[derive(Debug)]
pub struct IDSProtocolData {
    login: Option<String>,
    check_need_captcha: Option<String>,
    verify_slider_captcha: Option<String>,
    open_slider_captcha: Option<String>,
    authserver: Option<String>,
    get_user_conf: Option<String>,
}

impl IDSProtocolData {
    /// The address configured for `item`, if any.
    pub closed spec fn entry(&self, item: IDSProtocolItem) -> Option<String> {
        match item {
            IDSProtocolItem::Login => self.login,
            IDSProtocolItem::CheckNeedCaptcha => self.check_need_captcha,
            IDSProtocolItem::VerifySliderCaptcha => self.verify_slider_captcha,
            IDSProtocolItem::OpenSliderCaptcha => self.open_slider_captcha,
            IDSProtocolItem::Authserver => self.authserver,
            IDSProtocolItem::GetUserConf => self.get_user_conf,
        }
    }

    /// Applies `do_something` to the address configured for `t`.
    pub fn map_by_enum<T, F: Fn(&Option<String>) -> T>(
        &self,
        t: &IDSProtocolItem,
        do_something: F,
    ) -> (r: T)
        requires
            call_requires(do_something, (&self.entry(*t),)),
        ensures
            call_ensures(do_something, (&self.entry(*t),), r),
    {
        match t {
            IDSProtocolItem::Login => do_something(&self.login),
            IDSProtocolItem::CheckNeedCaptcha => do_something(&self.check_need_captcha),
            IDSProtocolItem::VerifySliderCaptcha => do_something(&self.verify_slider_captcha),
            IDSProtocolItem::OpenSliderCaptcha => do_something(&self.open_slider_captcha),
            IDSProtocolItem::Authserver => do_something(&self.authserver),
            IDSProtocolItem::GetUserConf => do_something(&self.get_user_conf),
        }
    }

    /// Puts `url` in place of the address configured for `t`; every other
    /// entry stays.
    pub fn set(&mut self, t: &IDSProtocolItem, url: Option<String>)
        ensures
            final(self).entry(*t) == url,
            forall|other: IDSProtocolItem|
                other != *t ==> final(self).entry(other) == old(self).entry(other),
    {
        match t {
            IDSProtocolItem::Login => self.login = url,
            IDSProtocolItem::CheckNeedCaptcha => self.check_need_captcha = url,
            IDSProtocolItem::VerifySliderCaptcha => self.verify_slider_captcha = url,
            IDSProtocolItem::OpenSliderCaptcha => self.open_slider_captcha = url,
            IDSProtocolItem::Authserver => self.authserver = url,
            IDSProtocolItem::GetUserConf => self.get_user_conf = url,
        }
    }
}

impl Default for IDSProtocolData {
    /// Every endpoint at its built-in address.
    fn default() -> (data: Self)
        ensures
            forall|item: IDSProtocolItem|
                (#[trigger] data.entry(item)) is Some && data.entry(item)->0@ == item.url(),
    {
        IDSProtocolData {
            login: Some(String::from_str(IDSProtocolItem::Login.get_default())),
            check_need_captcha: Some(
                String::from_str(IDSProtocolItem::CheckNeedCaptcha.get_default()),
            ),
            verify_slider_captcha: Some(
                String::from_str(IDSProtocolItem::VerifySliderCaptcha.get_default()),
            ),
            open_slider_captcha: Some(
                String::from_str(IDSProtocolItem::OpenSliderCaptcha.get_default()),
            ),
            authserver: Some(String::from_str(IDSProtocolItem::Authserver.get_default())),
            get_user_conf: Some(String::from_str(IDSProtocolItem::GetUserConf.get_default())),
        }
    }
}

/// The request that asks whether `uname` has to solve a captcha.
pub fn check_need_captcha(uname: &str, time_stamp_mills: u128) -> (r: Request)
    ensures
        r@ == (RequestView {
            method: Method::Get,
            url: check_need_captcha_url(
                IDSProtocolItem::CheckNeedCaptcha.url(),
                uname@,
                time_stamp_mills as nat,
            ),
            headers: Seq::empty(),
            form: Seq::empty(),
            follow_redirects: true,
        }),
{
    build_check_need_captcha(IDSProtocolItem::CheckNeedCaptcha.get(), uname, time_stamp_mills)
}

/// The request for a slider captcha.
pub fn open_slider_captcha(time_stamp_mills: u128) -> (r: Request)
    ensures
        r@ == (RequestView {
            method: Method::Get,
            url: open_slider_captcha_url(
                IDSProtocolItem::OpenSliderCaptcha.url(),
                time_stamp_mills as nat,
            ),
            headers: Seq::empty(),
            form: Seq::empty(),
            follow_redirects: true,
        }),
{
    build_open_slider_captcha(IDSProtocolItem::OpenSliderCaptcha.get(), time_stamp_mills)
}

/// The request that submits the slider position `move_length`, measured on a
/// canvas 280 units wide.
pub fn verify_slider_captcha(move_length: u32) -> (r: Request)
    ensures
        r@ == (RequestView {
            method: Method::PostForm,
            url: IDSProtocolItem::VerifySliderCaptcha.url(),
            headers: seq![("Refer"@, "https://ids.xidian.edu.cn/authserver/login"@)],
            form: slider_form(move_length as nat),
            follow_redirects: true,
        }),
{
    build_verify_slider_captcha(IDSProtocolItem::VerifySliderCaptcha.get(), move_length)
}

/// The request for the login page that leads to `target`.
pub fn login_page(target: &str) -> (r: Request)
    ensures
        r@ == (RequestView {
            method: Method::Get,
            url: login_url(IDSProtocolItem::Login.url(), target.spec_bytes()),
            headers: Seq::empty(),
            form: Seq::empty(),
            follow_redirects: true,
        }),
{
    get_request(build_login_url(IDSProtocolItem::Login.get(), target))
}

/// The request that submits the login form `data` for `target`.
pub fn login(target: &str, data: Vec<(String, String)>) -> (r: Request)
    ensures
        r@ == (RequestView {
            method: Method::PostForm,
            url: login_url(IDSProtocolItem::Login.url(), target.spec_bytes()),
            headers: Seq::empty(),
            form: pairs_view(data@),
            follow_redirects: true,
        }),
{
    let r = Request {
        method: Method::PostForm,
        url: build_login_url(IDSProtocolItem::Login.get(), target),
        headers: Vec::new(),
        form: data,
        follow_redirects: true,
    };
    assert(r@.headers =~= Seq::empty());
    r
}

/// The probe that shows whether a session is logged in: the account page,
/// asked for without following redirects.
pub fn has_logged_in_probe() -> (r: Request)
    ensures
        r@ == (RequestView {
            method: Method::Get,
            url: IDSProtocolItem::Authserver.url(),
            headers: Seq::empty(),
            form: Seq::empty(),
            follow_redirects: false,
        }),
{
    build_probe(IDSProtocolItem::Authserver.get())
}

/// Whether the answer to [`has_logged_in_probe`] shows that the session is
/// logged in: a redirect says no, any other status says yes.
pub fn has_logged_in(probe: &Result<u16, AgentError>) -> (logged_in: bool)
    ensures
        logged_in == shows_logged_in(
            match probe {
                Ok(status) => Ok(*status),
                Err(e) => Err(e.failure),
            },
        ),
{
    read_probe(probe)
}

} // verus!
