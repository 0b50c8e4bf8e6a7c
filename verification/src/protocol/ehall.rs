//! The requests of the service hall.
use crate::error::AgentError;
use crate::protocol::{get_request, push_pair, Method, Request, RequestView};
use vstd::prelude::*;
use vstd::string::StringExecFns;

verus! {

/// The endpoints of the service hall.
#[derive(Clone, Copy, Debug, PartialEq, Eq, Structural)]
pub enum EhallProtocolItem {
    UserFavoriteApps,
    AppShow,
    ServiceSearchCustom,
}

impl EhallProtocolItem {
    /// Lists the user's favourite applications, and tells whether the user is logged in.
    pub const USER_FAVORITE_APPS: &'static str =
        "http://ehall.xidian.edu.cn/jsonp/userFavoriteApps.json";

    /// Opens an application.
    pub const APP_SHOW: &'static str = "http://ehall.xidian.edu.cn//appShow";

    /// Searches the applications.
    pub const SERVICE_SEARCH_CUSTOM: &'static str =
        "http://ehall.xidian.edu.cn/jsonp/serviceSearchCustom.json";

    /// The address of an endpoint.
    pub open spec fn url(self) -> Seq<char> {
        match self {
            EhallProtocolItem::UserFavoriteApps => Self::USER_FAVORITE_APPS@,
            EhallProtocolItem::AppShow => Self::APP_SHOW@,
            EhallProtocolItem::ServiceSearchCustom => Self::SERVICE_SEARCH_CUSTOM@,
        }
    }

    /// The name of the file in which the addresses may be configured.
    pub fn config_file_name() -> (name: &'static str)
        ensures
            name@ == "x_l4rs-ehall-protocol.toml"@,
    {
        "x_l4rs-ehall-protocol.toml"
    }

    /// The address that an endpoint has unless it is configured otherwise.
    pub fn get_default(&self) -> (url: &'static str)
        ensures
            url@ == self.url(),
    {
        match self {
            EhallProtocolItem::UserFavoriteApps => Self::USER_FAVORITE_APPS,
            EhallProtocolItem::AppShow => Self::APP_SHOW,
            EhallProtocolItem::ServiceSearchCustom => Self::SERVICE_SEARCH_CUSTOM,
        }
    }

    /// The address of an endpoint.
    pub fn get(&self) -> (url: &'static str)
        ensures
            url@ == self.url(),
    {
        self.get_default()
    }
}

/// Addresses that a configuration may put in place of the built-in ones, one
/// for each endpoint.
#[derive(Debug)]
pub struct EhallProtocolData {
    user_favorite_apps: Option<String>,
    app_show: Option<String>,
    service_search_custom: Option<String>,
}

impl EhallProtocolData {
    /// The address configured for `item`, if any.
    pub closed spec fn entry(&self, item: EhallProtocolItem) -> Option<String> {
        match item {
            EhallProtocolItem::UserFavoriteApps => self.user_favorite_apps,
            EhallProtocolItem::AppShow => self.app_show,
            EhallProtocolItem::ServiceSearchCustom => self.service_search_custom,
        }
    }

    /// Applies `do_something` to the address configured for `t`.
    pub fn map_by_enum<T, F: Fn(&Option<String>) -> T>(
        &self,
        t: &EhallProtocolItem,
        do_something: F,
    ) -> (r: T)
        requires
            call_requires(do_something, (&self.entry(*t),)),
        ensures
            call_ensures(do_something, (&self.entry(*t),), r),
    {
        match t {
            EhallProtocolItem::UserFavoriteApps => do_something(&self.user_favorite_apps),
            EhallProtocolItem::AppShow => do_something(&self.app_show),
            EhallProtocolItem::ServiceSearchCustom => do_something(&self.service_search_custom),
        }
    }

    /// Puts `url` in place of the address configured for `t`; every other
    /// entry stays.
    pub fn set(&mut self, t: &EhallProtocolItem, url: Option<String>)
        ensures
            final(self).entry(*t) == url,
            forall|other: EhallProtocolItem|
                other != *t ==> final(self).entry(other) == old(self).entry(other),
    {
        match t {
            EhallProtocolItem::UserFavoriteApps => self.user_favorite_apps = url,
            EhallProtocolItem::AppShow => self.app_show = url,
            EhallProtocolItem::ServiceSearchCustom => self.service_search_custom = url,
        }
    }
}

impl Default for EhallProtocolData {
    /// Every endpoint at its built-in address.
    fn default() -> (data: Self)
        ensures
            forall|item: EhallProtocolItem|
                (#[trigger] data.entry(item)) is Some && data.entry(item)->0@ == item.url(),
    {
        EhallProtocolData {
            user_favorite_apps: Some(
                String::from_str(EhallProtocolItem::UserFavoriteApps.get_default()),
            ),
            app_show: Some(String::from_str(EhallProtocolItem::AppShow.get_default())),
            service_search_custom: Some(
                String::from_str(EhallProtocolItem::ServiceSearchCustom.get_default()),
            ),
        }
    }
}

/// The request that opens the application `app_id`.
pub fn use_app(app_id: &str) -> (r: Request)
    ensures
        r@ == (RequestView {
            method: Method::Get,
            url: EhallProtocolItem::AppShow.url() + "?appId="@ + app_id@,
            headers: seq![
                (
                    "Accept"@,
                    "text/html,application/xhtml+xml,application/xml;q=0.9,image/webp,image/apng,*/*;q=0.8"@,
                ),
            ],
            form: Seq::empty(),
            follow_redirects: true,
        }),
{
    let url = String::from_str(EhallProtocolItem::AppShow.get()).concat("?appId=").concat(app_id);
    let mut r = get_request(url);
    push_pair(
        &mut r.headers,
        "Accept",
        "text/html,application/xhtml+xml,application/xml;q=0.9,image/webp,image/apng,*/*;q=0.8",
    );
    assert(r@.headers =~= seq![
        (
            "Accept"@,
            "text/html,application/xhtml+xml,application/xml;q=0.9,image/webp,image/apng,*/*;q=0.8"@,
        ),
    ]);
    r
}

/// The request that lists the applications matching `search_key`, the most
/// recently used first.
pub fn get_app_list(search_key: &str) -> (r: Request)
    ensures
        r@ == (RequestView {
            method: Method::Get,
            url: EhallProtocolItem::ServiceSearchCustom.url() + "?searchKey="@ + search_key@
                + "&pageNumber=1&pageSize=150&sortKey=recentUseCount&orderKey=desc"@,
            headers: Seq::empty(),
            form: Seq::empty(),
            follow_redirects: true,
        }),
{
    let url = String::from_str(EhallProtocolItem::ServiceSearchCustom.get()).concat(
        "?searchKey=",
    ).concat(search_key).concat("&pageNumber=1&pageSize=150&sortKey=recentUseCount&orderKey=desc");
    get_request(url)
}

/// The probe that shows whether a session is logged in: the list of
/// favourite applications, which reports it.
pub fn has_logged_in_probe() -> (r: Request)
    ensures
        r@ == (RequestView {
            method: Method::Get,
            url: EhallProtocolItem::UserFavoriteApps.url(),
            headers: Seq::empty(),
            form: Seq::empty(),
            follow_redirects: true,
        }),
{
    get_request(String::from_str(EhallProtocolItem::UserFavoriteApps.get()))
}

/// Whether the answer to [`has_logged_in_probe`] shows that the session is
/// logged in: it does when the request went through and the answer says so.
pub fn has_logged_in(has_login: &Result<bool, AgentError>) -> (logged_in: bool)
    ensures
        logged_in == (has_login matches Ok(flag) && *flag),
{
    match has_login {
        Ok(flag) => *flag,
        Err(_) => false,
    }
}

} // verus!
