//! Logging in to the central login service.
use crate::error::{
    AgentError, AgentErrorView, CaptchaError, CaptchaErrorView, LoginError, LoginErrorView,
};
use crate::protocol::ids::{
    check_need_captcha, login, login_page, open_slider_captcha, verify_slider_captcha,
    IDSProtocolItem,
};
use crate::protocol::{
    check_need_captcha_url, login_url, open_slider_captcha_url, pairs_view, push_pair, slider_form,
    Method, Request, RequestView,
};
use crate::session::{is_last_attempt, last_attempt, LOGIN_RETRY_TIMES};
use crate::utils::cry::{
    aes128_cbc_encrypted, aes_enc, base64_enc, base64_encoded, base64_len, flatten_bytes,
    full_block, lemma_unpad_inverts_pad, pad_len, pkcs7_pad, pkcs7_padded, X_L4RS_ENC_IV,
};
use crate::utils::find_element::{
    bytes_of, fields_bytes, find_form_content, form_content, input_fields, scan_input_fields,
};
use crate::utils::search::{
    byte_len, contains_str, first_occurrence, lemma_same_bytes_same_chars, same_text,
};
use crate::utils::text::{lemma_chars_of, lemma_encode_not_shorter, trimmed};
use vstd::prelude::*;
use vstd::slice::slice_to_vec;
use vstd::string::{StringExecFns, StringSliceAdditionalSpecFns};
use vstd::utf8::{decode_utf8, encode_utf8};

verus! {

/// The service that a login leads to.
#[derive(Debug, PartialEq, Eq)]
pub struct IDSLoginImpl {
    target: &'static str,
}

impl IDSLoginImpl {
    /// The learning platform.
    pub const TARGET_LEARNING_URL: &'static str = "https://learning.xidian.edu.cn/cassso/xidian";

    /// The service hall.
    pub const TARGET_EHALL_URL: &'static str =
        "http://ehall.xidian.edu.cn/login?service=http://ehall.xidian.edu.cn/new/index.html";

    /// A login that leads to the service at `target`.
    pub fn new(target: &'static str) -> (r: IDSLoginImpl)
        ensures
            r.spec_target() == target,
    {
        IDSLoginImpl { target }
    }

    /// The address of the service that the login leads to.
    pub closed spec fn spec_target(&self) -> &'static str {
        self.target
    }

    /// The address of the service that the login leads to.
    #[verifier::when_used_as_spec(spec_target)]
    pub fn target(&self) -> (target: &'static str)
        ensures
            target == self.spec_target(),
    {
        self.target
    }

    /// A login that leads to the learning platform.
    pub fn target_learning() -> (r: IDSLoginImpl)
        ensures
            r.spec_target()@ == Self::TARGET_LEARNING_URL@,
    {
        IDSLoginImpl { target: Self::TARGET_LEARNING_URL }
    }

    /// A login that leads to the service hall.
    pub fn target_ehall() -> (r: IDSLoginImpl)
        ensures
            r.spec_target()@ == Self::TARGET_EHALL_URL@,
    {
        IDSLoginImpl { target: Self::TARGET_EHALL_URL }
    }
}

/// What is encrypted in place of the password: four copies of the fixed IV,
/// then the padded password. The server expects exactly this layout.
pub open spec fn password_plain(passwd: Seq<u8>) -> Seq<u8> {
    X_L4RS_ENC_IV@ + X_L4RS_ENC_IV@ + X_L4RS_ENC_IV@ + X_L4RS_ENC_IV@ + pkcs7_padded(passwd, 16)
}

/// The password as the login form carries it: [`password_plain`], encrypted
/// under the page's salt with the fixed IV, in base64.
pub open spec fn encrypted_password(passwd: Seq<u8>, salt: Seq<u8>) -> Seq<char> {
    base64_encoded(aes128_cbc_encrypted(salt, X_L4RS_ENC_IV@, password_plain(passwd)))
}

/// Lays out what is encrypted in place of the password: see
/// [`password_plain`].
pub fn padded_password(passwd: &[u8]) -> (plain: Vec<u8>)
    ensures
        plain@ == password_plain(passwd@),
        plain@.len() % 16 == 0,
{
    let iv = X_L4RS_ENC_IV;
    let mut plain: Vec<u8> = Vec::new();
    let mut first = slice_to_vec(iv.as_slice());
    let mut second = slice_to_vec(iv.as_slice());
    let mut third = slice_to_vec(iv.as_slice());
    let mut fourth = slice_to_vec(iv.as_slice());
    let mut padded = flatten_bytes(pkcs7_pad::<16>(passwd));
    proof {
        lemma_unpad_inverts_pad(passwd@, 16);
    }
    plain.append(&mut first);
    plain.append(&mut second);
    plain.append(&mut third);
    plain.append(&mut fourth);
    plain.append(&mut padded);
    assert(plain@ =~= password_plain(passwd@));
    plain
}

/// How long a password of `passwd_len` bytes is as the login form carries it:
/// as long as the base64 text of four blocks and the padded password.
pub open spec fn encrypted_password_len(passwd_len: nat) -> nat {
    base64_len((64 + passwd_len + pad_len(passwd_len, 16)) as nat)
}

/// A password that fits in one block is carried as 108 characters. Whatever
/// its length, a password is carried as more characters than it has bytes.
pub proof fn lemma_encrypted_password_len(passwd_len: nat)
    ensures
        passwd_len < 16 ==> encrypted_password_len(passwd_len) == 108,
        encrypted_password_len(passwd_len) > passwd_len,
{
}

/// Encrypts `passwd` for the login form under the salt that the login page
/// handed out. What comes out is longer than the password, so it is never
/// empty and never the password itself.
pub fn encrypt_password(passwd: &[u8], salt: &[u8; 16]) -> (text: String)
    ensures
        text@ == encrypted_password(passwd@, salt@),
        text@.len() == encrypted_password_len(passwd@.len()),
        text@.len() > passwd@.len(),
        encode_utf8(text@) != passwd@,
{
    let iv = X_L4RS_ENC_IV;
    let plain = padded_password(passwd);
    let enc = aes_enc(plain.as_slice(), salt, iv.as_slice());
    let text = base64_enc(enc.as_slice());
    proof {
        lemma_encrypted_password_len(passwd@.len());
        lemma_encode_not_shorter(text@);
    }
    text
}

/// The salt that a login page hands out: the value of the last field named
/// `pwdEncryptSalt`.
pub open spec fn salt_of(fields: Seq<(Seq<u8>, Seq<u8>)>) -> Option<Seq<u8>>
    decreases fields.len(),
{
    if fields.len() == 0 {
        None
    } else if fields.last().0 == "pwdEncryptSalt".spec_bytes() {
        Some(fields.last().1)
    } else {
        salt_of(fields.drop_last())
    }
}

/// The fields that are sent back as they came, with the white space at their
/// ends taken off: all but the salt.
pub open spec fn plain_fields(fields: Seq<(Seq<u8>, Seq<u8>)>) -> Seq<(Seq<char>, Seq<char>)>
    decreases fields.len(),
{
    if fields.len() == 0 {
        Seq::empty()
    } else {
        let before = plain_fields(fields.drop_last());
        if fields.last().0 == "pwdEncryptSalt".spec_bytes() {
            before
        } else {
            before.push(
                (trimmed(decode_utf8(fields.last().0)), trimmed(decode_utf8(fields.last().1))),
            )
        }
    }
}

/// The markers of the login form, the preferred one last.
pub open spec fn form_markers() -> Seq<Seq<u8>> {
    seq!["id=\"pwdLoginDiv\"".spec_bytes(), "id=\"pwdFromId\"".spec_bytes()]
}

/// The attributes that may name an input field, the preferred one first: a
/// field goes by its `id`, and by its `name` where it has no `id`.
pub open spec fn name_markers() -> Seq<Seq<u8>> {
    seq!["id=\"".spec_bytes(), "name=\"".spec_bytes()]
}

/// The fields that a login adds to those of the form.
pub open spec fn credential_fields(account: Seq<char>, password: Seq<char>) -> Seq<
    (Seq<char>, Seq<char>),
> {
    seq![
        ("username"@, account),
        ("password"@, password),
        ("remember_me"@, "true"@),
        ("captcha"@, ""@),
    ]
}

/// The form that logs `account` in, worked out from the login page.
///
/// The page must hold the login form, and the form a salt of 16 bytes. The
/// fields of the form go back as they came, but for the salt, which becomes
/// the key of the password.
pub open spec fn login_form(page: Seq<u8>, account: Seq<char>, passwd: Seq<u8>) -> Result<
    Seq<(Seq<char>, Seq<char>)>,
    LoginErrorView,
> {
    match form_content(form_markers(), page) {
        None => Err(LoginErrorView::ServerError("登录页缺少表单内容"@)),
        Some(region) => {
            let fields = input_fields(name_markers(), region);
            match salt_of(fields) {
                Some(salt) => if salt.len() == 16 {
                    Ok(
                        plain_fields(fields) + credential_fields(
                            account,
                            encrypted_password(passwd, salt),
                        ),
                    )
                } else {
                    Err(LoginErrorView::ServerError("密码无法加密！"@))
                },
                None => Err(LoginErrorView::ServerError("密码无法加密！"@)),
            }
        },
    }
}

/// A page whose form hands out no salt cannot be logged in with: the failure
/// is a server error, and it is fatal.
pub proof fn lemma_form_needs_salt(page: Seq<u8>, account: Seq<char>, passwd: Seq<u8>)
    requires
        form_content(form_markers(), page) matches Some(region) && salt_of(
            input_fields(name_markers(), region),
        ) is None,
    ensures
        login_form(page, account, passwd) == Err::<Seq<(Seq<char>, Seq<char>)>, LoginErrorView>(
            LoginErrorView::ServerError("密码无法加密！"@),
        ),
        LoginErrorView::ServerError("密码无法加密！"@).is_fatal(),
{
}

/// The salt is never among the fields that go back to the server.
pub proof fn lemma_salt_is_left_out(fields: Seq<(Seq<u8>, Seq<u8>)>, i: int)
    requires
        0 <= i < fields.len(),
        fields[i].0 == "pwdEncryptSalt".spec_bytes(),
    ensures
        plain_fields(fields) == plain_fields(fields.remove(i)),
    decreases fields.len(),
{
    if i == fields.len() - 1 {
        assert(fields.remove(i) =~= fields.drop_last());
    } else {
        lemma_salt_is_left_out(fields.drop_last(), i);
        assert(fields.remove(i).drop_last() =~= fields.drop_last().remove(i));
        assert(fields.remove(i).last() == fields.last());
    }
}

/// What the scraped fields hold: the salt, if there is one, and the fields
/// that go back to the server.
pub struct ScannedForm<'a> {
    pub salt: Option<&'a str>,
    pub fields: Vec<(String, String)>,
}

/// Splits the scraped fields into the salt and the fields that go back to the
/// server.
pub fn sort_fields<'a>(fields: &Vec<(&'a str, &'a str)>) -> (r: ScannedForm<'a>)
    ensures
        match r.salt {
            Some(salt) => salt_of(fields_bytes(fields@)) == Some(salt.spec_bytes()),
            None => salt_of(fields_bytes(fields@)) is None,
        },
        pairs_view(r.fields@) == plain_fields(fields_bytes(fields@)),
{
    let ghost raw = fields_bytes(fields@);
    let mut salt: Option<&'a str> = None;
    let mut kept: Vec<(String, String)> = Vec::new();
    let mut i: usize = 0;
    while i < fields.len()
        invariant
            i <= fields@.len(),
            raw == fields_bytes(fields@),
            match salt {
                Some(salt) => salt_of(raw.take(i as int)) == Some(salt.spec_bytes()),
                None => salt_of(raw.take(i as int)) is None,
            },
            pairs_view(kept@) == plain_fields(raw.take(i as int)),
        decreases fields@.len() - i,
    {
        let (name, value) = fields[i];
        proof {
            assert(raw.take(i + 1).drop_last() =~= raw.take(i as int));
            assert(raw.take(i + 1).last() == (name.spec_bytes(), value.spec_bytes()));
            lemma_chars_of(name);
            lemma_chars_of(value);
        }
        if same_text(name, "pwdEncryptSalt") {
            salt = Some(value);
        } else {
            push_pair(&mut kept, name.trim(), value.trim());
        }
        i += 1;
    }
    proof {
        assert(raw.take(i as int) =~= raw);
    }
    ScannedForm { salt, fields: kept }
}

/// Adds the fields of a login to the fields that the form brought.
/// `password` is the password as the form carries it.
pub fn complete_form(fields: Vec<(String, String)>, account: &str, password: &str) -> (form: Vec<
    (String, String),
>)
    ensures
        pairs_view(form@) == pairs_view(fields@) + credential_fields(account@, password@),
{
    let mut form = fields;
    push_pair(&mut form, "username", account);
    push_pair(&mut form, "password", password);
    push_pair(&mut form, "remember_me", "true");
    push_pair(&mut form, "captcha", "");
    assert(pairs_view(form@) =~= pairs_view(fields@) + credential_fields(account@, password@));
    form
}

/// Whether `form` carries the password `passwd` as a login form does: in the
/// field named `password`, third from the end, as a text as long as
/// [`encrypted_password_len`] says. That text is longer than the password, so
/// the field is never empty and never holds the password itself.
pub open spec fn hides_password(form: Seq<(Seq<char>, Seq<char>)>, passwd: Seq<u8>) -> bool {
    &&& form.len() >= 4
    &&& form[form.len() - 3].0 == "password"@
    &&& form[form.len() - 3].1.len() == encrypted_password_len(passwd.len())
    &&& form[form.len() - 3].1.len() > passwd.len()
    &&& encode_utf8(form[form.len() - 3].1) != passwd
}

/// Works out the form that logs `account` in from the login page: see
/// [`login_form`]. The form carries the password encrypted: see
/// [`hides_password`].
pub fn assemble_form(page: &str, account: &str, passwd: &[u8]) -> (r: Result<
    Vec<(String, String)>,
    LoginError,
>)
    ensures
        r matches Ok(form) ==> hides_password(pairs_view(form@), passwd@),
        match r {
            Ok(form) => login_form(page.spec_bytes(), account@, passwd@) == Ok::<
                Seq<(Seq<char>, Seq<char>)>,
                LoginErrorView,
            >(pairs_view(form@)),
            Err(e) => login_form(page.spec_bytes(), account@, passwd@) == Err::<
                Seq<(Seq<char>, Seq<char>)>,
                LoginErrorView,
            >(e@),
        },
{
    let markers: [&str; 2] = ["id=\"pwdLoginDiv\"", "id=\"pwdFromId\""];
    assert(bytes_of(markers@) =~= form_markers());
    let region = match find_form_content(markers.as_slice(), page) {
        Ok(region) => region,
        Err(e) => {
            return Err(e);
        },
    };
    let names: [&str; 2] = ["id=\"", "name=\""];
    assert(bytes_of(names@) =~= name_markers());
    let fields = scan_input_fields(names.as_slice(), region);
    let ScannedForm { salt, fields: post_data } = sort_fields(&fields);
    let salt = match salt {
        Some(salt) => salt,
        None => {
            return Err(LoginError::server("密码无法加密！"));
        },
    };
    if byte_len(salt) != 16 {
        return Err(LoginError::server("密码无法加密！"));
    }
    let key: [u8; 16] = full_block::<16>(salt.as_bytes(), 0);
    assert(key@ =~= salt.spec_bytes());
    let password = encrypt_password(passwd, &key);
    Ok(complete_form(post_data, account, password.as_str()))
}

/// Where a login stands: what it waits for, or how it ended.
#[derive(Debug)]
pub enum IdsState {
    /// The login page has been asked for.
    Start,
    /// The server has been asked whether the account has to solve a captcha.
    /// `retries` counts the captcha rounds that have failed so far.
    CaptchaCheck { page: String, retries: usize },
    /// A captcha has been asked for and is with the solver.
    CaptchaChallenge { page: String, retries: usize },
    /// The solver's answer is with the server.
    CaptchaVerify { page: String, retries: usize },
    /// The login form is with the server.
    CredentialsSubmitted,
    /// The login went through.
    LoggedIn,
    /// The login failed, for good.
    Failed(LoginError),
}

/// What a request brought.
#[derive(Debug)]
pub enum IdsEvent {
    /// The text of the login page.
    PageFetched(Result<String, AgentError>),
    /// The text of the answer to the captcha check.
    CaptchaChecked(Result<String, AgentError>),
    /// The slider position to submit, scaled to the canvas, or why there is
    /// none.
    ChallengeSolved(Result<u32, CaptchaError>),
    /// The server's verdict on the slider position.
    CaptchaVerified(Result<String, AgentError>),
    /// Whether the login form went through.
    CredentialsPosted(Result<(), AgentError>),
}

/// What is to be done next.
#[derive(Debug)]
pub enum IdsAction {
    /// Fetch the login page and hand back its text.
    FetchLoginPage(Request),
    /// Ask whether a captcha is needed and hand back the text of the answer.
    CheckNeedCaptcha(Request),
    /// Fetch a slider captcha, have it solved, and hand back the scaled
    /// position.
    OpenSliderCaptcha(Request),
    /// Submit the slider position and hand back the verdict.
    VerifySliderCaptcha(Request),
    /// Submit the login form and hand back whether it went through.
    SubmitCredentials(Request),
    /// Nothing: the login has ended, or the event was not the awaited one.
    Done,
}

/// The mathematical content of an [`IdsState`].
pub enum IdsStateView {
    Start,
    CaptchaCheck { page: Seq<char>, retries: nat },
    CaptchaChallenge { page: Seq<char>, retries: nat },
    CaptchaVerify { page: Seq<char>, retries: nat },
    CredentialsSubmitted,
    LoggedIn,
    Failed(LoginErrorView),
}

/// The mathematical content of an [`IdsEvent`].
pub enum IdsEventView {
    PageFetched(Result<Seq<char>, AgentErrorView>),
    CaptchaChecked(Result<Seq<char>, AgentErrorView>),
    ChallengeSolved(Result<u32, CaptchaErrorView>),
    CaptchaVerified(Result<Seq<char>, AgentErrorView>),
    CredentialsPosted(Result<(), AgentErrorView>),
}

/// The mathematical content of an [`IdsAction`].
pub enum IdsActionView {
    FetchLoginPage(RequestView),
    CheckNeedCaptcha(RequestView),
    OpenSliderCaptcha(RequestView),
    VerifySliderCaptcha(RequestView),
    SubmitCredentials(RequestView),
    Done,
}

impl View for IdsState {
    type V = IdsStateView;

    open spec fn view(&self) -> IdsStateView {
        match self {
            IdsState::Start => IdsStateView::Start,
            IdsState::CaptchaCheck { page, retries } => IdsStateView::CaptchaCheck {
                page: page@,
                retries: *retries as nat,
            },
            IdsState::CaptchaChallenge { page, retries } => IdsStateView::CaptchaChallenge {
                page: page@,
                retries: *retries as nat,
            },
            IdsState::CaptchaVerify { page, retries } => IdsStateView::CaptchaVerify {
                page: page@,
                retries: *retries as nat,
            },
            IdsState::CredentialsSubmitted => IdsStateView::CredentialsSubmitted,
            IdsState::LoggedIn => IdsStateView::LoggedIn,
            IdsState::Failed(e) => IdsStateView::Failed(e@),
        }
    }
}

/// The text of an answer, or the failure in its place.
pub open spec fn text_result_view(r: Result<String, AgentError>) -> Result<
    Seq<char>,
    AgentErrorView,
> {
    match r {
        Ok(text) => Ok(text@),
        Err(e) => Err(e@),
    }
}

impl View for IdsEvent {
    type V = IdsEventView;

    open spec fn view(&self) -> IdsEventView {
        match self {
            IdsEvent::PageFetched(r) => IdsEventView::PageFetched(text_result_view(*r)),
            IdsEvent::CaptchaChecked(r) => IdsEventView::CaptchaChecked(text_result_view(*r)),
            IdsEvent::ChallengeSolved(r) => IdsEventView::ChallengeSolved(
                match r {
                    Ok(length) => Ok(*length),
                    Err(e) => Err(e@),
                },
            ),
            IdsEvent::CaptchaVerified(r) => IdsEventView::CaptchaVerified(text_result_view(*r)),
            IdsEvent::CredentialsPosted(r) => IdsEventView::CredentialsPosted(
                match r {
                    Ok(_) => Ok(()),
                    Err(e) => Err(e@),
                },
            ),
        }
    }
}

impl View for IdsAction {
    type V = IdsActionView;

    open spec fn view(&self) -> IdsActionView {
        match self {
            IdsAction::FetchLoginPage(r) => IdsActionView::FetchLoginPage(r@),
            IdsAction::CheckNeedCaptcha(r) => IdsActionView::CheckNeedCaptcha(r@),
            IdsAction::OpenSliderCaptcha(r) => IdsActionView::OpenSliderCaptcha(r@),
            IdsAction::VerifySliderCaptcha(r) => IdsActionView::VerifySliderCaptcha(r@),
            IdsAction::SubmitCredentials(r) => IdsActionView::SubmitCredentials(r@),
            IdsAction::Done => IdsActionView::Done,
        }
    }
}

impl IdsStateView {
    /// A login that goes on has an attempt left: fewer rounds have failed
    /// than a login is allowed attempts.
    pub open spec fn wf(self) -> bool {
        match self {
            IdsStateView::CaptchaCheck { retries, .. } => retries < LOGIN_RETRY_TIMES,
            IdsStateView::CaptchaChallenge { retries, .. } => retries < LOGIN_RETRY_TIMES,
            IdsStateView::CaptchaVerify { retries, .. } => retries < LOGIN_RETRY_TIMES,
            _ => true,
        }
    }

    /// Whether the login has ended.
    pub open spec fn is_final(self) -> bool {
        self is LoggedIn || self is Failed
    }
}

/// A `GET` of `url` without headers that follows redirects.
pub open spec fn plain_get(url: Seq<char>) -> RequestView {
    RequestView {
        method: Method::Get,
        url,
        headers: Seq::empty(),
        form: Seq::empty(),
        follow_redirects: true,
    }
}

/// The step that asks whether a captcha is needed.
pub open spec fn check_step(page: Seq<char>, retries: nat, account: Seq<char>, now: nat) -> (
    IdsStateView,
    IdsActionView,
) {
    (
        IdsStateView::CaptchaCheck { page, retries },
        IdsActionView::CheckNeedCaptcha(
            plain_get(
                check_need_captcha_url(IDSProtocolItem::CheckNeedCaptcha.url(), account, now),
            ),
        ),
    )
}

/// The step that submits the login form, where there is one, and ends the
/// login where there is none.
pub open spec fn submit_of(
    target: Seq<u8>,
    form: Result<Seq<(Seq<char>, Seq<char>)>, LoginErrorView>,
) -> (IdsStateView, IdsActionView) {
    match form {
        Ok(form) => (
            IdsStateView::CredentialsSubmitted,
            IdsActionView::SubmitCredentials(
                RequestView {
                    method: Method::PostForm,
                    url: login_url(IDSProtocolItem::Login.url(), target),
                    headers: Seq::empty(),
                    form,
                    follow_redirects: true,
                },
            ),
        ),
        Err(e) => (IdsStateView::Failed(e), IdsActionView::Done),
    }
}

/// The step that assembles the login form from the page and submits it. A
/// page without the form, or a form without a usable salt, ends the login.
pub open spec fn submit_step(
    target: Seq<u8>,
    page: Seq<char>,
    account: Seq<char>,
    passwd: Seq<u8>,
) -> (IdsStateView, IdsActionView) {
    submit_of(target, login_form(encode_utf8(page), account, passwd))
}

/// The text of a form, or the failure in its place.
pub open spec fn form_view(form: Result<Vec<(String, String)>, LoginError>) -> Result<
    Seq<(Seq<char>, Seq<char>)>,
    LoginErrorView,
> {
    match form {
        Ok(form) => Ok(pairs_view(form@)),
        Err(e) => Err(e@),
    }
}

/// The step after a captcha round that failed in a way that allows another,
/// `retries` rounds having failed before it: the next round begins with a new
/// check, unless the round was the last attempt that a login is allowed, in
/// which case the login fails as unverified.
pub open spec fn retry_step(page: Seq<char>, retries: nat, account: Seq<char>, now: nat) -> (
    IdsStateView,
    IdsActionView,
) {
    if is_last_attempt(retries) {
        (
            IdsStateView::Failed(LoginErrorView::CaptchaError(CaptchaErrorView::VerifyFailed)),
            IdsActionView::Done,
        )
    } else {
        check_step(page, retries + 1, account, now)
    }
}

/// One step of a login: the state and the action that follow from a state
/// and the event that came in, `now` milliseconds after the Unix epoch.
///
/// - The login page leads to the captcha check; a failure to fetch it ends
///   the login.
/// - An answer to the check that holds a `t` asks for a captcha; any other
///   answer, and a failure of the check itself, lead on to the login form.
/// - A solved captcha is submitted. A rejected one, and a failure that is not
///   fatal, use up one of the `LOGIN_RETRY_TIMES` attempts that a login is
///   allowed in all, and the one that uses up the last ends the login as
///   unverified; a fatal failure, such as a cancellation, ends the login at
///   once.
/// - The verdict `success` leads on to the login form.
/// - Once the form is posted the login has ended, one way or the other.
/// - An event that is not the awaited one changes nothing.
pub open spec fn ids_next(
    target: Seq<u8>,
    account: Seq<char>,
    passwd: Seq<u8>,
    state: IdsStateView,
    event: IdsEventView,
    now: nat,
) -> (IdsStateView, IdsActionView) {
    match (state, event) {
        (IdsStateView::Start, IdsEventView::PageFetched(Ok(page))) => check_step(
            page,
            0,
            account,
            now,
        ),
        (IdsStateView::Start, IdsEventView::PageFetched(Err(e))) => (
            IdsStateView::Failed(LoginErrorView::AgentError(e)),
            IdsActionView::Done,
        ),
        (
            IdsStateView::CaptchaCheck { page, retries },
            IdsEventView::CaptchaChecked(Ok(answer)),
        ) => if first_occurrence(encode_utf8(answer), "t".spec_bytes()) is Some {
            (
                IdsStateView::CaptchaChallenge { page, retries },
                IdsActionView::OpenSliderCaptcha(
                    plain_get(
                        open_slider_captcha_url(IDSProtocolItem::OpenSliderCaptcha.url(), now),
                    ),
                ),
            )
        } else {
            submit_step(target, page, account, passwd)
        },
        (IdsStateView::CaptchaCheck { page, retries }, IdsEventView::CaptchaChecked(Err(_))) => {
            submit_step(target, page, account, passwd)
        },
        (
            IdsStateView::CaptchaChallenge { page, retries },
            IdsEventView::ChallengeSolved(Ok(length)),
        ) => (
            IdsStateView::CaptchaVerify { page, retries },
            IdsActionView::VerifySliderCaptcha(
                RequestView {
                    method: Method::PostForm,
                    url: IDSProtocolItem::VerifySliderCaptcha.url(),
                    headers: seq![("Refer"@, "https://ids.xidian.edu.cn/authserver/login"@)],
                    form: slider_form(length as nat),
                    follow_redirects: true,
                },
            ),
        ),
        (
            IdsStateView::CaptchaChallenge { page, retries },
            IdsEventView::ChallengeSolved(Err(e)),
        ) => if e.is_fatal() {
            (IdsStateView::Failed(LoginErrorView::CaptchaError(e)), IdsActionView::Done)
        } else {
            retry_step(page, retries, account, now)
        },
        (
            IdsStateView::CaptchaVerify { page, retries },
            IdsEventView::CaptchaVerified(Ok(verdict)),
        ) => if verdict == "success"@ {
            submit_step(target, page, account, passwd)
        } else {
            retry_step(page, retries, account, now)
        },
        (
            IdsStateView::CaptchaVerify { page, retries },
            IdsEventView::CaptchaVerified(Err(e)),
        ) => if e.is_fatal() {
            (IdsStateView::Failed(LoginErrorView::AgentError(e)), IdsActionView::Done)
        } else {
            retry_step(page, retries, account, now)
        },
        (IdsStateView::CredentialsSubmitted, IdsEventView::CredentialsPosted(Ok(_))) => (
            IdsStateView::LoggedIn,
            IdsActionView::Done,
        ),
        (IdsStateView::CredentialsSubmitted, IdsEventView::CredentialsPosted(Err(e))) => (
            IdsStateView::Failed(LoginErrorView::AgentError(e)),
            IdsActionView::Done,
        ),
        (state, _) => (state, IdsActionView::Done),
    }
}

impl IdsState {
    /// How the login ended, if it has.
    pub fn into_outcome(self) -> (r: Option<Result<(), LoginError>>)
        ensures
            match r {
                Some(Ok(_)) => self@ is LoggedIn,
                Some(Err(e)) => self@ == IdsStateView::Failed(e@),
                None => !self@.is_final(),
            },
    {
        match self {
            IdsState::LoggedIn => Some(Ok(())),
            IdsState::Failed(e) => Some(Err(e)),
            _ => None,
        }
    }
}

impl IDSLoginImpl {
    fn check_step(page: String, retries: usize, account: &str, now: u128) -> (r: (
        IdsState,
        IdsAction,
    ))
        ensures
            (r.0@, r.1@) == check_step(page@, retries as nat, account@, now as nat),
    {
        (
            IdsState::CaptchaCheck { page, retries },
            IdsAction::CheckNeedCaptcha(check_need_captcha(account, now)),
        )
    }

    /// Submits the login form that was assembled, or ends the login with the
    /// failure to assemble one: see [`submit_of`].
    pub fn submit_form(&self, form: Result<Vec<(String, String)>, LoginError>) -> (r: (
        IdsState,
        IdsAction,
    ))
        ensures
            (r.0@, r.1@) == submit_of(self.spec_target().spec_bytes(), form_view(form)),
    {
        match form {
            Ok(form) => (
                IdsState::CredentialsSubmitted,
                IdsAction::SubmitCredentials(login(self.target, form)),
            ),
            Err(e) => (IdsState::Failed(e), IdsAction::Done),
        }
    }

    fn submit_step(&self, page: String, account: &str, passwd: &[u8]) -> (r: (
        IdsState,
        IdsAction,
    ))
        ensures
            (r.0@, r.1@) == submit_step(self.spec_target().spec_bytes(), page@, account@, passwd@),
            r.1@ matches IdsActionView::SubmitCredentials(request) ==> hides_password(
                request.form,
                passwd@,
            ),
    {
        self.submit_form(assemble_form(page.as_str(), account, passwd))
    }

    fn retry_step(page: String, retries: usize, account: &str, now: u128) -> (r: (
        IdsState,
        IdsAction,
    ))
        ensures
            (r.0@, r.1@) == retry_step(page@, retries as nat, account@, now as nat),
    {
        if last_attempt(retries) {
            (
                IdsState::Failed(LoginError::CaptchaError(CaptchaError::VerifyFailed)),
                IdsAction::Done,
            )
        } else {
            Self::check_step(page, retries + 1, account, now)
        }
    }

    /// Begins a login: the login page is to be fetched.
    pub fn start(&self) -> (r: (IdsState, IdsAction))
        ensures
            r.0@ == IdsStateView::Start,
            r.1@ == IdsActionView::FetchLoginPage(
                plain_get(login_url(IDSProtocolItem::Login.url(), self.spec_target().spec_bytes())),
            ),
    {
        (IdsState::Start, IdsAction::FetchLoginPage(login_page(self.target)))
    }

    /// Takes a login one step further: see [`ids_next`]. `now` is the time in
    /// milliseconds since the Unix epoch, which the requests carry. Where the
    /// step submits the login form, the form carries the password encrypted:
    /// see [`hides_password`].
    pub fn login(
        &self,
        state: IdsState,
        event: IdsEvent,
        account: &str,
        passwd: &[u8],
        now: u128,
    ) -> (r: (IdsState, IdsAction))
        ensures
            (r.0@, r.1@) == ids_next(
                self.spec_target().spec_bytes(),
                account@,
                passwd@,
                state@,
                event@,
                now as nat,
            ),
            r.1@ matches IdsActionView::SubmitCredentials(request) ==> hides_password(
                request.form,
                passwd@,
            ),
    {
        match (state, event) {
            (IdsState::Start, IdsEvent::PageFetched(Ok(page))) => Self::check_step(
                page,
                0,
                account,
                now,
            ),
            (IdsState::Start, IdsEvent::PageFetched(Err(e))) => (
                IdsState::Failed(LoginError::AgentError(e)),
                IdsAction::Done,
            ),
            (IdsState::CaptchaCheck { page, retries }, IdsEvent::CaptchaChecked(Ok(answer))) => {
                if contains_str(answer.as_str(), "t") {
                    (
                        IdsState::CaptchaChallenge { page, retries },
                        IdsAction::OpenSliderCaptcha(open_slider_captcha(now)),
                    )
                } else {
                    self.submit_step(page, account, passwd)
                }
            },
            (IdsState::CaptchaCheck { page, retries }, IdsEvent::CaptchaChecked(Err(_))) => {
                self.submit_step(page, account, passwd)
            },
            (
                IdsState::CaptchaChallenge { page, retries },
                IdsEvent::ChallengeSolved(Ok(length)),
            ) => (
                IdsState::CaptchaVerify { page, retries },
                IdsAction::VerifySliderCaptcha(verify_slider_captcha(length)),
            ),
            (IdsState::CaptchaChallenge { page, retries }, IdsEvent::ChallengeSolved(Err(e))) => {
                if e.is_fatal() {
                    (IdsState::Failed(LoginError::CaptchaError(e)), IdsAction::Done)
                } else {
                    Self::retry_step(page, retries, account, now)
                }
            },
            (IdsState::CaptchaVerify { page, retries }, IdsEvent::CaptchaVerified(Ok(verdict))) => {
                let text = verdict.as_str();
                let accepted = same_text(text, "success");
                proof {
                    if accepted {
                        lemma_same_bytes_same_chars(text, "success");
                    }
                }
                if accepted {
                    self.submit_step(page, account, passwd)
                } else {
                    Self::retry_step(page, retries, account, now)
                }
            },
            (IdsState::CaptchaVerify { page, retries }, IdsEvent::CaptchaVerified(Err(e))) => {
                if e.is_fatal() {
                    (IdsState::Failed(LoginError::AgentError(e)), IdsAction::Done)
                } else {
                    Self::retry_step(page, retries, account, now)
                }
            },
            (IdsState::CredentialsSubmitted, IdsEvent::CredentialsPosted(Ok(_))) => (
                IdsState::LoggedIn,
                IdsAction::Done,
            ),
            (IdsState::CredentialsSubmitted, IdsEvent::CredentialsPosted(Err(e))) => (
                IdsState::Failed(LoginError::AgentError(e)),
                IdsAction::Done,
            ),
            (state, _) => (state, IdsAction::Done),
        }
    }
}

/// A step never counts more failed rounds than a login is allowed, and a
/// login that has ended stays as it is.
pub proof fn lemma_step_keeps_bound(
    target: Seq<u8>,
    account: Seq<char>,
    passwd: Seq<u8>,
    state: IdsStateView,
    event: IdsEventView,
    now: nat,
)
    requires
        state.wf(),
    ensures
        ids_next(target, account, passwd, state, event, now).0.wf(),
        state.is_final() ==> ids_next(target, account, passwd, state, event, now) == (
            state,
            IdsActionView::Done,
        ),
{
}

/// The state after `rounds` captcha rounds in a row, counted from the first
/// captcha check, in each of which the server asked for a captcha (`answer`),
/// the solver gave a position (`length`), and the server returned `verdict`.
pub open spec fn after_rounds(
    target: Seq<u8>,
    account: Seq<char>,
    passwd: Seq<u8>,
    page: Seq<char>,
    answer: Seq<char>,
    length: u32,
    verdict: Seq<char>,
    now: nat,
    rounds: nat,
) -> IdsStateView
    decreases rounds,
{
    if rounds == 0 {
        IdsStateView::CaptchaCheck { page, retries: 0 }
    } else {
        let before = after_rounds(
            target,
            account,
            passwd,
            page,
            answer,
            length,
            verdict,
            now,
            (rounds - 1) as nat,
        );
        let asked = ids_next(
            target,
            account,
            passwd,
            before,
            IdsEventView::CaptchaChecked(Ok(answer)),
            now,
        ).0;
        let solved = ids_next(
            target,
            account,
            passwd,
            asked,
            IdsEventView::ChallengeSolved(Ok(length)),
            now,
        ).0;
        ids_next(target, account, passwd, solved, IdsEventView::CaptchaVerified(Ok(verdict)), now).0
    }
}

/// One captcha round that the server rejects: it asks for a captcha
/// (`answer`), the solver gives a position, and the verdict is not `success`.
/// While an attempt is left, the next round begins with one more failed
/// round counted; the round that was the last attempt ends the login as
/// unverified.
pub proof fn lemma_rejected_round(
    target: Seq<u8>,
    account: Seq<char>,
    passwd: Seq<u8>,
    page: Seq<char>,
    retries: nat,
    answer: Seq<char>,
    length: u32,
    verdict: Seq<char>,
    now: nat,
)
    requires
        first_occurrence(encode_utf8(answer), "t".spec_bytes()) is Some,
        verdict != "success"@,
    ensures
        ids_next(
            target,
            account,
            passwd,
            IdsStateView::CaptchaCheck { page, retries },
            IdsEventView::CaptchaChecked(Ok(answer)),
            now,
        ).0 == (IdsStateView::CaptchaChallenge { page, retries }),
        ids_next(
            target,
            account,
            passwd,
            IdsStateView::CaptchaChallenge { page, retries },
            IdsEventView::ChallengeSolved(Ok(length)),
            now,
        ).0 == (IdsStateView::CaptchaVerify { page, retries }),
        ids_next(
            target,
            account,
            passwd,
            IdsStateView::CaptchaVerify { page, retries },
            IdsEventView::CaptchaVerified(Ok(verdict)),
            now,
        ).0 == (if is_last_attempt(retries) {
            IdsStateView::Failed(LoginErrorView::CaptchaError(CaptchaErrorView::VerifyFailed))
        } else {
            IdsStateView::CaptchaCheck { page, retries: retries + 1 }
        }),
{
}

/// The retry bound: while the server keeps asking for a captcha and keeps
/// rejecting the answer, the login makes exactly `LOGIN_RETRY_TIMES` attempts
/// in all, each beginning with a new check. After fewer rounds it goes on; the
/// round that makes the number full ends it as unverified.
pub proof fn lemma_retry_bound(
    target: Seq<u8>,
    account: Seq<char>,
    passwd: Seq<u8>,
    page: Seq<char>,
    answer: Seq<char>,
    length: u32,
    verdict: Seq<char>,
    now: nat,
    rounds: nat,
)
    requires
        first_occurrence(encode_utf8(answer), "t".spec_bytes()) is Some,
        verdict != "success"@,
        rounds <= LOGIN_RETRY_TIMES,
    ensures
        rounds < LOGIN_RETRY_TIMES ==> after_rounds(
            target,
            account,
            passwd,
            page,
            answer,
            length,
            verdict,
            now,
            rounds,
        ) == (IdsStateView::CaptchaCheck { page, retries: rounds }),
        rounds == LOGIN_RETRY_TIMES ==> after_rounds(
            target,
            account,
            passwd,
            page,
            answer,
            length,
            verdict,
            now,
            rounds,
        ) == IdsStateView::Failed(LoginErrorView::CaptchaError(CaptchaErrorView::VerifyFailed)),
    decreases rounds,
{
    if rounds > 0 {
        let done = (rounds - 1) as nat;
        lemma_retry_bound(target, account, passwd, page, answer, length, verdict, now, done);
        lemma_rejected_round(target, account, passwd, page, done, answer, length, verdict, now);
    }
}

/// The captcha check fails open: when the check itself fails, no captcha is
/// asked for, and the login goes straight on to the login form.
pub proof fn lemma_check_fails_open(
    target: Seq<u8>,
    account: Seq<char>,
    passwd: Seq<u8>,
    page: Seq<char>,
    retries: nat,
    failure: AgentErrorView,
    now: nat,
)
    ensures
        ids_next(
            target,
            account,
            passwd,
            IdsStateView::CaptchaCheck { page, retries },
            IdsEventView::CaptchaChecked(Err(failure)),
            now,
        ) == submit_step(target, page, account, passwd),
        !(submit_step(target, page, account, passwd).1 is OpenSliderCaptcha),
        submit_step(target, page, account, passwd).0 is CredentialsSubmitted || submit_step(
            target,
            page,
            account,
            passwd,
        ).0 is Failed,
{
}

} // verus!
