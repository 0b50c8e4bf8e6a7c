//! The requests of the forum.
use crate::error::{AgentError, LoginError, LoginErrorView};
use crate::protocol::{
    build_probe, get_request, pairs_view, push_pair, read_probe, shows_logged_in, Method, Request,
    RequestView,
};
use crate::session::rsbbs::{Question, QuestionAnswerPair};
use crate::utils::find_element::{
    bytes_of, fields_bytes, find_form_content, find_login_hash, find_login_url, form_content,
    input_fields, login_hash_range, login_url, scan_input_fields,
};
use crate::utils::search::{same_text, str_between};
use crate::utils::text::{
    decimal_digits, lemma_chars_of, lemma_encode_concat, push_decimal, replace, replaced, trimmed,
};
use vstd::prelude::*;
use vstd::string::{StringExecFns, StringSliceAdditionalSpecFns};
use vstd::utf8::{decode_utf8, encode_utf8_decode_utf8};

verus! {

/// The forum knows one address: its host.
#[derive(Clone, Copy, Debug, PartialEq, Eq, Structural)]
pub enum RSBBSProtocolItem {
    Host,
}

impl RSBBSProtocolItem {
    /// The host of the forum.
    pub const HOST: &'static str = "rs.xidian.edu.cn";

    /// The address of an endpoint.
    pub open spec fn url(self) -> Seq<char> {
        match self {
            RSBBSProtocolItem::Host => Self::HOST@,
        }
    }

    /// The address that an endpoint has unless it is configured otherwise.
    pub fn get_default(&self) -> (url: &'static str)
        ensures
            url@ == self.url(),
    {
        match self {
            RSBBSProtocolItem::Host => Self::HOST,
        }
    }

    /// The address of an endpoint.
    pub fn get(&self) -> (url: &'static str)
        ensures
            url@ == self.url(),
    {
        self.get_default()
    }
}

/// The address of `path` on the forum's host.
pub open spec fn forum_url(path: Seq<char>) -> Seq<char> {
    "https://"@ + RSBBSProtocolItem::HOST@ + "/"@ + path
}

fn build_forum_url(path: &str) -> (url: String)
    ensures
        url@ == forum_url(path@),
{
    String::from_str("https://").concat(RSBBSProtocolItem::Host.get()).concat("/").concat(path)
}

/// A `GET` of `url` that names `referer` as the page it comes from.
fn get_with_referer(url: String, referer: &str) -> (r: Request)
    ensures
        r@ == (RequestView {
            method: Method::Get,
            url: url@,
            headers: seq![("Referer"@, referer@)],
            form: Seq::empty(),
            follow_redirects: true,
        }),
{
    let mut r = get_request(url);
    push_pair(&mut r.headers, "Referer", referer);
    assert(r@.headers =~= seq![("Referer"@, referer@)]);
    r
}

/// The request for the forum's login page.
pub fn login_page() -> (r: Request)
    ensures
        r@ == (RequestView {
            method: Method::Get,
            url: forum_url(
                "member.php?mod=logging&action=login&referer=http%3A%2F%2Frs.xidian.edu.cn%2Fforum.php"@,
            ),
            headers: Seq::empty(),
            form: Seq::empty(),
            follow_redirects: true,
        }),
{
    get_request(
        build_forum_url(
            "member.php?mod=logging&action=login&referer=http%3A%2F%2Frs.xidian.edu.cn%2Fforum.php",
        ),
    )
}

/// The module that a captcha update names: the login module on the first
/// request of a login, none afterwards.
pub open spec fn sec_code_module(is_first: bool) -> Seq<char> {
    if is_first {
        "member%3A%3Alogging"@
    } else {
        "undefined"@
    }
}

/// The path of a captcha update for `id_hash`. The server wants an arbitrary
/// number in the query; `nonce` is the text of it.
pub open spec fn sec_code_path(is_first: bool, id_hash: Seq<char>, nonce: Seq<char>) -> Seq<char> {
    "misc.php?mod=seccode&action=update&idhash="@ + id_hash + "&"@ + nonce + "&modid="@
        + sec_code_module(is_first)
}

/// The request that makes the server issue a new captcha for `id_hash`.
/// `nonce` is the text of an arbitrary number between 0 and 1, drawn anew for
/// each request.
pub fn update_sec_code<const IS_FIRST: bool>(id_hash: &str, referer: &str, nonce: &str) -> (r:
    Request)
    ensures
        r@ == (RequestView {
            method: Method::Get,
            url: forum_url(sec_code_path(IS_FIRST, id_hash@, nonce@)),
            headers: seq![("Referer"@, referer@)],
            form: Seq::empty(),
            follow_redirects: true,
        }),
{
    let modid = if IS_FIRST {
        "member%3A%3Alogging"
    } else {
        "undefined"
    };
    let path = String::from_str("misc.php?mod=seccode&action=update&idhash=").concat(
        id_hash,
    ).concat("&").concat(nonce).concat("&modid=").concat(modid);
    get_with_referer(build_forum_url(path.as_str()), referer)
}

/// The request that replaces a captcha that was answered wrongly.
pub fn refresh_vcode(id_hash: &str, referer: &str, nonce: &str) -> (r: Request)
    ensures
        r@ == (RequestView {
            method: Method::Get,
            url: forum_url(sec_code_path(false, id_hash@, nonce@)),
            headers: seq![("Referer"@, referer@)],
            form: Seq::empty(),
            follow_redirects: true,
        }),
{
    update_sec_code::<false>(id_hash, referer, nonce)
}

/// The request for the captcha image at `img_url`.
pub fn download_vcode_image(referer: &str, img_url: &str) -> (r: Request)
    ensures
        r@ == (RequestView {
            method: Method::Get,
            url: forum_url(img_url@),
            headers: seq![("Referer"@, referer@)],
            form: Seq::empty(),
            follow_redirects: true,
        }),
{
    get_with_referer(build_forum_url(img_url), referer)
}

/// Whether the login form's field `name` is sent back as it came.
pub open spec fn is_kept_field(name: Seq<u8>) -> bool {
    ||| name == "formhash".spec_bytes()
    ||| name == "referer".spec_bytes()
    ||| name == "seccodehash".spec_bytes()
}

/// Of the fields read from the login form, those that are sent back, with the
/// white space at their ends taken off.
pub open spec fn kept_fields(fields: Seq<(Seq<u8>, Seq<u8>)>) -> Seq<(Seq<char>, Seq<char>)>
    decreases fields.len(),
{
    if fields.len() == 0 {
        Seq::empty()
    } else {
        let before = kept_fields(fields.drop_last());
        if is_kept_field(fields.last().0) {
            before.push(
                (trimmed(decode_utf8(fields.last().0)), trimmed(decode_utf8(fields.last().1))),
            )
        } else {
            before
        }
    }
}

/// For how many seconds the login is remembered: thirty days unless said
/// otherwise.
pub open spec fn cookie_seconds(days: Option<u32>) -> nat {
    (match days {
        Some(days) => days as nat,
        None => 30,
    }) * 86400
}

/// The fields that a login adds to those of the form.
pub open spec fn credential_fields(
    uname: Seq<char>,
    pwd_md5: Seq<char>,
    question: Question,
    answer: Seq<char>,
    vcode: Seq<char>,
    days: Option<u32>,
) -> Seq<(Seq<char>, Seq<char>)> {
    seq![
        ("username"@, uname),
        ("password"@, pwd_md5),
        ("questionid"@, decimal_digits(question.id() as nat)),
        ("answer"@, answer),
        ("seccodemodid"@, "member%3A%3Alogging"@),
        ("seccodeverify"@, vcode),
        ("cookietime"@, decimal_digits(cookie_seconds(days))),
    ]
}

/// The markers of the login form, the one that wins last: the name of the
/// form that belongs to the login hash, then the start that all such names
/// share.
pub open spec fn login_form_markers(login_hash: Seq<u8>) -> Seq<Seq<u8>> {
    seq!["loginform_".spec_bytes() + login_hash, "loginform_".spec_bytes()]
}

/// The request that submits a login, worked out from the login page `html`.
///
/// The page must name a login hash, an address to post to, which ends where
/// the hash ends, and a login form; the error says which one is missing. In
/// the address `&amp;` stands for `&`.
pub open spec fn login_request(
    referer: Seq<char>,
    uname: Seq<char>,
    pwd_md5: Seq<char>,
    question: Question,
    answer: Seq<char>,
    vcode: Seq<char>,
    days: Option<u32>,
    html: Seq<u8>,
) -> Result<RequestView, LoginErrorView> {
    match login_hash_range(html) {
        None => Err(LoginErrorView::ServerError("未找到 `login_hash`."@)),
        Some((start, end)) => match login_url(end, html) {
            None => Err(LoginErrorView::ServerError("未找到登录地址。"@)),
            Some(address) => match form_content(
                login_form_markers(html.subrange(start, end)),
                html,
            ) {
                None => Err(LoginErrorView::ServerError("登录页缺少表单内容"@)),
                Some(region) => Ok(
                    RequestView {
                        method: Method::PostForm,
                        url: forum_url(
                            decode_utf8(
                                replaced(address, "&amp;".spec_bytes(), "&".spec_bytes()),
                            ),
                        ),
                        headers: seq![
                            ("Origin"@, RSBBSProtocolItem::HOST@),
                            ("Referer"@, referer),
                        ],
                        form: kept_fields(input_fields(seq!["name=\"".spec_bytes()], region))
                            + credential_fields(uname, pwd_md5, question, answer, vcode, days),
                        follow_redirects: true,
                    },
                ),
            },
        },
    }
}

fn is_kept(name: &str) -> (kept: bool)
    ensures
        kept == is_kept_field(name.spec_bytes()),
{
    same_text(name, "formhash") || same_text(name, "referer") || same_text(name, "seccodehash")
}

/// Picks the fields that are sent back and trims them.
fn keep_fields(fields: &Vec<(&str, &str)>) -> (kept: Vec<(String, String)>)
    ensures
        pairs_view(kept@) == kept_fields(fields_bytes(fields@)),
{
    let ghost raw = fields_bytes(fields@);
    let mut kept: Vec<(String, String)> = Vec::new();
    let mut i: usize = 0;
    while i < fields.len()
        invariant
            i <= fields@.len(),
            raw == fields_bytes(fields@),
            pairs_view(kept@) == kept_fields(raw.take(i as int)),
        decreases fields@.len() - i,
    {
        let (name, value) = fields[i];
        proof {
            assert(raw.take(i + 1).drop_last() =~= raw.take(i as int));
            assert(raw.take(i + 1).last() == (name.spec_bytes(), value.spec_bytes()));
            lemma_chars_of(name);
            lemma_chars_of(value);
        }
        if is_kept(name) {
            push_pair(&mut kept, name.trim(), value.trim());
        }
        i += 1;
    }
    proof {
        assert(raw.take(i as int) =~= raw);
    }
    kept
}

/// Works out the request that submits a login from the login page `html`:
/// see [`login_request`]. `credentials` holds the user's name and the MD5
/// digest of the password in hex.
pub fn login(
    referer: &str,
    credentials: (&str, &str),
    question_answer: QuestionAnswerPair,
    vcode: &str,
    cookies_time_days: Option<u32>,
    html: &str,
) -> (r: Result<Request, LoginError>)
    ensures
        match r {
            Ok(request) => login_request(
                referer@,
                credentials.0@,
                credentials.1@,
                question_answer.question,
                question_answer.answer@,
                vcode@,
                cookies_time_days,
                html.spec_bytes(),
            ) == Ok::<RequestView, LoginErrorView>(request@),
            Err(e) => login_request(
                referer@,
                credentials.0@,
                credentials.1@,
                question_answer.question,
                question_answer.answer@,
                vcode@,
                cookies_time_days,
                html.spec_bytes(),
            ) == Err::<RequestView, LoginErrorView>(e@),
        },
{
    let (uname, pwd_md5) = credentials;
    let question = question_answer.question;
    let answer = question_answer.answer;
    let login_hash = match find_login_hash(html) {
        Ok(range) => range,
        Err(e) => {
            return Err(e);
        },
    };
    let start = login_hash.start;
    let end = login_hash.end;
    let address = match find_login_url(login_hash, html) {
        Ok(address) => address,
        Err(e) => {
            return Err(e);
        },
    };
    proof {
        reveal_strlit("&amp;");
        vstd::utf8::is_ascii_chars_encode_utf8("&amp;"@);
    }
    let address = replace(address, "&amp;", "&");
    let url = build_forum_url(address.as_str());
    let login_hash = str_between(html, start, end);
    let form_id = String::from_str("loginform_").concat(login_hash);
    proof {
        lemma_encode_concat("loginform_"@, login_hash@);
        encode_utf8_decode_utf8(address@);
    }
    let markers: [&str; 2] = [form_id.as_str(), "loginform_"];
    assert(bytes_of(markers@) =~= login_form_markers(login_hash.spec_bytes()));
    let region = match find_form_content(markers.as_slice(), html) {
        Ok(region) => region,
        Err(e) => {
            return Err(e);
        },
    };
    let names: [&str; 1] = ["name=\""];
    assert(bytes_of(names@) =~= seq!["name=\"".spec_bytes()]);
    let fields = scan_input_fields(names.as_slice(), region);
    let mut post_data = keep_fields(&fields);
    let ghost kept = pairs_view(post_data@);
    let mut question_id = String::new();
    push_decimal(&mut question_id, question.get_id() as u128);
    let seconds: u64 = (match cookies_time_days {
        Some(days) => days,
        None => 30,
    }) as u64 * 24 * 60 * 60;
    let mut cookies_time = String::new();
    push_decimal(&mut cookies_time, seconds as u128);
    push_pair(&mut post_data, "username", uname);
    push_pair(&mut post_data, "password", pwd_md5);
    push_pair(&mut post_data, "questionid", question_id.as_str());
    push_pair(&mut post_data, "answer", answer);
    push_pair(&mut post_data, "seccodemodid", "member%3A%3Alogging");
    push_pair(&mut post_data, "seccodeverify", vcode);
    push_pair(&mut post_data, "cookietime", cookies_time.as_str());
    let mut headers: Vec<(String, String)> = Vec::new();
    push_pair(&mut headers, "Origin", RSBBSProtocolItem::Host.get());
    push_pair(&mut headers, "Referer", referer);
    let request = Request {
        method: Method::PostForm,
        url,
        headers,
        form: post_data,
        follow_redirects: true,
    };
    proof {
        assert(Seq::<char>::empty() + decimal_digits(question.id() as nat) =~= decimal_digits(
            question.id() as nat,
        ));
        assert(Seq::<char>::empty() + decimal_digits(seconds as nat) =~= decimal_digits(
            seconds as nat,
        ));
        assert(request@.headers =~= seq![
            ("Origin"@, RSBBSProtocolItem::HOST@),
            ("Referer"@, referer@),
        ]);
        assert(request@.form =~= kept + credential_fields(
            uname@,
            pwd_md5@,
            question,
            answer@,
            vcode@,
            cookies_time_days,
        ));
    }
    Ok(request)
}

/// The probe that shows whether a session is logged in: the forum's front
/// page, asked for without following redirects.
pub fn has_logged_in_probe() -> (r: Request)
    ensures
        r@ == (RequestView {
            method: Method::Get,
            url: forum_url("forum.php"@),
            headers: Seq::empty(),
            form: Seq::empty(),
            follow_redirects: false,
        }),
{
    let url = build_forum_url("forum.php");
    build_probe(url.as_str())
}

/// Whether the answer to [`has_logged_in_probe`] shows that the session is
/// logged in: a redirect says no, any other status says yes.
pub fn has_logged_in(probe: &Result<u16, AgentError>) -> (logged_in: bool)
    ensures
        logged_in == shows_logged_in(
            match probe {
                Ok(status) => Ok(*status),
                Err(e) => Err(e.failure),
            },
        ),
{
    read_probe(probe)
}

} // verus!
