//! Logging in to the forum.
use crate::error::{
    AgentError, AgentErrorView, CaptchaError, CaptchaErrorView, LoginError, LoginErrorView,
};
use crate::protocol::rsbbs::{
    download_vcode_image, forum_url, login, login_page, login_request, refresh_vcode, sec_code_path,
    update_sec_code,
};
use crate::protocol::{Method, Request, RequestView};
use crate::session::{is_last_attempt, last_attempt, LOGIN_RETRY_TIMES};
use crate::utils::cry::{hex_encode, hex_lower, md5_digest, md5_enc};
use crate::utils::find_element::{find_id_hash, find_vcode_img_url, id_hash_of, vcode_img_url};
use crate::utils::search::{
    byte_len, contains_str, find_str, first_occurrence, str_between, str_from,
};
use crate::utils::text::lemma_chars_of;
use vstd::prelude::*;
use vstd::string::{StringExecFns, StringSliceAdditionalSpecFns};
use vstd::utf8::{decode_utf8, encode_utf8};

verus! {

/// The security questions that the forum offers.
#[derive(Debug, Copy, Clone, PartialEq, Eq, Structural)]
#[non_exhaustive]
pub enum Question {
    /// None is set.
    Q0,
    /// The mother's name.
    Q1,
    /// The grandfather's name.
    Q2,
    /// The town where the father was born.
    Q3,
    /// The name of one of your teachers.
    Q4,
    /// The model of your computer.
    Q5,
    /// The name of your favourite restaurant.
    Q6,
    /// The last four digits of the driving licence.
    Q7,
}

impl Question {
    /// The question of an account that has set none.
    pub const DEFAULT: Question = Question::Q0;

    /// The number under which the forum knows the question.
    pub open spec fn id(self) -> u8 {
        match self {
            Question::Q0 => 0,
            Question::Q1 => 1,
            Question::Q2 => 2,
            Question::Q3 => 3,
            Question::Q4 => 4,
            Question::Q5 => 5,
            Question::Q6 => 6,
            Question::Q7 => 7,
        }
    }

    /// The question in the forum's words.
    pub open spec fn text(self) -> Seq<char> {
        match self {
            Question::Q0 => "未设置"@,
            Question::Q1 => "母亲的名字"@,
            Question::Q2 => "爷爷的名字"@,
            Question::Q3 => "父亲出生的城市"@,
            Question::Q4 => "您其中一位老师的名字"@,
            Question::Q5 => "您个人计算机的型号"@,
            Question::Q6 => "您最喜欢的餐馆名称"@,
            Question::Q7 => "驾驶执照最后四位数字"@,
        }
    }

    /// The question in the forum's words.
    pub fn description(&self) -> (text: &'static str)
        ensures
            text@ == self.text(),
    {
        match self {
            Question::Q0 => "未设置",
            Question::Q1 => "母亲的名字",
            Question::Q2 => "爷爷的名字",
            Question::Q3 => "父亲出生的城市",
            Question::Q4 => "您其中一位老师的名字",
            Question::Q5 => "您个人计算机的型号",
            Question::Q6 => "您最喜欢的餐馆名称",
            Question::Q7 => "驾驶执照最后四位数字",
        }
    }

    /// The number under which the forum knows the question.
    pub fn get_id(&self) -> (id: u8)
        ensures
            id == self.id(),
            id <= 7,
    {
        match self {
            Question::Q0 => 0,
            Question::Q1 => 1,
            Question::Q2 => 2,
            Question::Q3 => 3,
            Question::Q4 => 4,
            Question::Q5 => 5,
            Question::Q6 => 6,
            Question::Q7 => 7,
        }
    }

    /// The question that the forum knows under `id`. There are eight
    /// questions; a larger number names none and is handed back as the error.
    pub fn from_id(id: u8) -> (question: Result<Question, InvalidQuestionId>)
        ensures
            match question {
                Ok(q) => id <= 7 && q.id() == id,
                Err(e) => id > 7 && e.0 == id,
            },
    {
        match id {
            0 => Ok(Question::Q0),
            1 => Ok(Question::Q1),
            2 => Ok(Question::Q2),
            3 => Ok(Question::Q3),
            4 => Ok(Question::Q4),
            5 => Ok(Question::Q5),
            6 => Ok(Question::Q6),
            7 => Ok(Question::Q7),
            _ => Err(InvalidQuestionId(id)),
        }
    }
}

/// A number that names no security question.
#[derive(Debug, Copy, Clone, PartialEq, Eq, Structural)]
pub struct InvalidQuestionId(pub u8);

impl From<Question> for u8 {
    fn from(value: Question) -> (id: u8) {
        value.get_id()
    }
}

impl vstd::std_specs::convert::FromSpecImpl<Question> for u8 {
    open spec fn obeys_from_spec() -> bool {
        true
    }

    open spec fn from_spec(value: Question) -> u8 {
        value.id()
    }
}

/// A question and its number determine each other: no two questions share a
/// number.
pub proof fn lemma_question_id_is_injective(a: Question, b: Question)
    requires
        a.id() == b.id(),
    ensures
        a == b,
{
}

impl Default for Question {
    fn default() -> (question: Self)
        ensures
            question == Question::Q0,
    {
        Question::Q0
    }
}

/// A security question with the answer to it.
#[derive(Debug, Copy, Clone)]
pub struct QuestionAnswerPair<'a> {
    pub question: Question,
    pub answer: &'a str,
}

impl Default for QuestionAnswerPair<'_> {
    fn default() -> (pair: Self)
        ensures
            pair.question == Question::Q0,
            pair.answer@ == ""@,
    {
        QuestionAnswerPair { question: Question::Q0, answer: "" }
    }
}

/// How to log in to the forum: the security question, if one is set, and for
/// how many days the login is to be remembered.
#[derive(Debug)]
pub struct RSBBSLoginImpl<'a> {
    pub question_answer_pairs: QuestionAnswerPair<'a>,
    pub cookies_time_days: Option<u32>,
}

impl<'a> RSBBSLoginImpl<'a> {
    /// A login that answers the security question as `question_answer_pairs`
    /// says and is remembered for `cookies_time_days` days.
    pub fn new(question_answer_pairs: QuestionAnswerPair<'a>, cookies_time_days: Option<u32>) -> (r:
        RSBBSLoginImpl<'a>)
        ensures
            r.question_answer_pairs == question_answer_pairs,
            r.cookies_time_days == cookies_time_days,
    {
        RSBBSLoginImpl { question_answer_pairs, cookies_time_days }
    }
}

impl Default for RSBBSLoginImpl<'_> {
    fn default() -> (r: Self)
        ensures
            r.question_answer_pairs.question == Question::Q0,
            r.question_answer_pairs.answer@ == ""@,
            r.cookies_time_days is None,
    {
        RSBBSLoginImpl {
            question_answer_pairs: QuestionAnswerPair { question: Question::Q0, answer: "" },
            cookies_time_days: None,
        }
    }
}

/// The password as the forum wants it: its MD5 digest, in hex.
pub open spec fn hashed_password(passwd: Seq<u8>) -> Seq<char> {
    hex_lower(md5_digest(passwd))
}

/// Hashes the password for the login form.
pub fn hash_password(passwd: &[u8]) -> (text: String)
    ensures
        text@ == hashed_password(passwd@),
{
    let digest = md5_enc(passwd);
    hex_encode(digest.as_slice())
}

/// What the forum's answer to a login says.
pub enum LoginVerdict {
    /// The user is welcomed back.
    Welcome,
    /// The captcha was answered wrongly.
    CaptchaWrong,
    /// The login was refused, for the reason given.
    Rejected(String),
}

/// The mathematical content of a [`LoginVerdict`].
pub enum LoginVerdictView {
    Welcome,
    CaptchaWrong,
    Rejected(Seq<char>),
}

impl View for LoginVerdict {
    type V = LoginVerdictView;

    open spec fn view(&self) -> LoginVerdictView {
        match self {
            LoginVerdict::Welcome => LoginVerdictView::Welcome,
            LoginVerdict::CaptchaWrong => LoginVerdictView::CaptchaWrong,
            LoginVerdict::Rejected(why) => LoginVerdictView::Rejected(why@),
        }
    }
}

/// `text` without `prefix` at its start, or `text` as it is where it does
/// not start with `prefix`.
pub open spec fn without_prefix(text: Seq<u8>, prefix: Seq<u8>) -> Seq<u8> {
    if first_occurrence(text, prefix) == Some(0int) {
        text.subrange(prefix.len() as int, text.len() as int)
    } else {
        text
    }
}

/// The reason that a refusal gives: what stands from the first `![CDATA[` up
/// to the first `<script`, without a leading apology; the whole answer where
/// the two do not occur in this order.
pub open spec fn refusal_reason(answer: Seq<u8>) -> Seq<u8> {
    match (
        first_occurrence(answer, "![CDATA[".spec_bytes()),
        first_occurrence(answer, "<script".spec_bytes()),
    ) {
        (Some(from), Some(to)) => if from <= to {
            without_prefix(answer.subrange(from, to), "抱歉，".spec_bytes())
        } else {
            answer
        },
        _ => answer,
    }
}

/// What the forum's answer to a login says: a welcome counts before a
/// complaint about the captcha, and anything else is a refusal.
pub open spec fn login_verdict(answer: Seq<u8>) -> LoginVerdictView {
    if first_occurrence(answer, "欢迎您回来".spec_bytes()) is Some {
        LoginVerdictView::Welcome
    } else if first_occurrence(answer, "验证码填写错误".spec_bytes()) is Some {
        LoginVerdictView::CaptchaWrong
    } else {
        LoginVerdictView::Rejected("登录失败："@ + decode_utf8(refusal_reason(answer)))
    }
}

fn strip_prefix<'a>(text: &'a str, prefix: &str) -> (r: &'a str)
    ensures
        r.spec_bytes() == without_prefix(text.spec_bytes(), prefix.spec_bytes()),
{
    match find_str(text, prefix) {
        Some(at) => if at == 0 {
            str_from(text, byte_len(prefix))
        } else {
            text
        },
        None => text,
    }
}

fn find_refusal_reason(answer: &str) -> (r: &str)
    ensures
        r.spec_bytes() == refusal_reason(answer.spec_bytes()),
{
    let from = match find_str(answer, "![CDATA[") {
        Some(from) => from,
        None => {
            return answer;
        },
    };
    let to = match find_str(answer, "<script") {
        Some(to) => to,
        None => {
            return answer;
        },
    };
    if from <= to {
        strip_prefix(str_between(answer, from, to), "抱歉，")
    } else {
        answer
    }
}

/// Reads the forum's answer to a login: see [`login_verdict`].
pub fn read_login_answer(answer: &str) -> (verdict: LoginVerdict)
    ensures
        verdict@ == login_verdict(answer.spec_bytes()),
{
    if contains_str(answer, "欢迎您回来") {
        LoginVerdict::Welcome
    } else if contains_str(answer, "验证码填写错误") {
        LoginVerdict::CaptchaWrong
    } else {
        let reason = find_refusal_reason(answer);
        proof {
            lemma_chars_of(reason);
        }
        LoginVerdict::Rejected(String::from_str("登录失败：").concat(reason))
    }
}

/// What a login carries from one captcha round to the next.
#[derive(Debug)]
pub struct Round {
    /// The address of the login page, which later requests name as referer.
    pub referer: String,
    /// The text of the login page.
    pub html: String,
    /// The hash under which the captcha is requested.
    pub id_hash: String,
    /// The address of the captcha image.
    pub img_url: String,
    /// The captcha rounds that have failed so far.
    pub retries: usize,
}

/// The mathematical content of a [`Round`].
pub struct RoundView {
    pub referer: Seq<char>,
    pub html: Seq<char>,
    pub id_hash: Seq<char>,
    pub img_url: Seq<char>,
    pub retries: nat,
}

impl View for Round {
    type V = RoundView;

    open spec fn view(&self) -> RoundView {
        RoundView {
            referer: self.referer@,
            html: self.html@,
            id_hash: self.id_hash@,
            img_url: self.img_url@,
            retries: self.retries as nat,
        }
    }
}

/// The login page as it came: where it was found, redirects followed, and
/// its text.
#[derive(Debug)]
pub struct LoginPage {
    pub address: String,
    pub html: String,
}

/// Where a login to the forum stands: what it waits for, or how it ended.
#[derive(Debug)]
pub enum RsbbsState {
    /// The login page has been asked for.
    Start,
    /// The first captcha has been asked for.
    SecCode { referer: String, html: String, id_hash: String },
    /// The captcha image has been asked for.
    Image(Round),
    /// The captcha image is with the solver.
    Solver(Round),
    /// The login form is with the server.
    Submitted(Round),
    /// A new captcha has been asked for in place of the one answered wrongly.
    Refresh(Round),
    /// The login went through.
    LoggedIn,
    /// The login failed, for good.
    Failed(LoginError),
}

/// What a request, or the solver, brought.
#[derive(Debug)]
pub enum RsbbsEvent {
    PageFetched(Result<LoginPage, AgentError>),
    /// The text of the answer to the captcha update.
    SecCodeUpdated(Result<String, AgentError>),
    /// Whether the captcha image came.
    ImageDownloaded(Result<(), AgentError>),
    /// What the solver read in the image.
    CaptchaSolved(Result<String, CaptchaError>),
    /// The text of the answer to the login form.
    LoginAnswered(Result<String, AgentError>),
    /// Whether the captcha was replaced.
    VcodeRefreshed(Result<(), AgentError>),
}

/// What is to be done next.
#[derive(Debug)]
pub enum RsbbsAction {
    /// Fetch the login page; hand back its final address and its text.
    FetchLoginPage(Request),
    /// Ask for a captcha and hand back the text of the answer.
    UpdateSecCode(Request),
    /// Fetch the captcha image, keep it, and hand back whether it came.
    DownloadImage(Request),
    /// Have the image solved and hand back what the solver read.
    SolveCaptcha,
    /// Submit the login form and hand back the text of the answer.
    SubmitLogin(Request),
    /// Ask for a new captcha and hand back whether that went through.
    RefreshVcode(Request),
    /// Nothing: the login has ended, or the event was not the awaited one.
    Done,
}

/// The mathematical content of an [`RsbbsState`].
pub enum RsbbsStateView {
    Start,
    SecCode { referer: Seq<char>, html: Seq<char>, id_hash: Seq<char> },
    Image(RoundView),
    Solver(RoundView),
    Submitted(RoundView),
    Refresh(RoundView),
    LoggedIn,
    Failed(LoginErrorView),
}

/// The mathematical content of an [`RsbbsEvent`].
pub enum RsbbsEventView {
    PageFetched(Result<(Seq<char>, Seq<char>), AgentErrorView>),
    SecCodeUpdated(Result<Seq<char>, AgentErrorView>),
    ImageDownloaded(Result<(), AgentErrorView>),
    CaptchaSolved(Result<Seq<char>, CaptchaErrorView>),
    LoginAnswered(Result<Seq<char>, AgentErrorView>),
    VcodeRefreshed(Result<(), AgentErrorView>),
}

/// The mathematical content of an [`RsbbsAction`].
pub enum RsbbsActionView {
    FetchLoginPage(RequestView),
    UpdateSecCode(RequestView),
    DownloadImage(RequestView),
    SolveCaptcha,
    SubmitLogin(RequestView),
    RefreshVcode(RequestView),
    Done,
}

impl View for RsbbsState {
    type V = RsbbsStateView;

    open spec fn view(&self) -> RsbbsStateView {
        match self {
            RsbbsState::Start => RsbbsStateView::Start,
            RsbbsState::SecCode { referer, html, id_hash } => RsbbsStateView::SecCode {
                referer: referer@,
                html: html@,
                id_hash: id_hash@,
            },
            RsbbsState::Image(round) => RsbbsStateView::Image(round@),
            RsbbsState::Solver(round) => RsbbsStateView::Solver(round@),
            RsbbsState::Submitted(round) => RsbbsStateView::Submitted(round@),
            RsbbsState::Refresh(round) => RsbbsStateView::Refresh(round@),
            RsbbsState::LoggedIn => RsbbsStateView::LoggedIn,
            RsbbsState::Failed(e) => RsbbsStateView::Failed(e@),
        }
    }
}

/// The text of an answer, or the failure in its place.
pub open spec fn answer_view(r: Result<String, AgentError>) -> Result<Seq<char>, AgentErrorView> {
    match r {
        Ok(text) => Ok(text@),
        Err(e) => Err(e@),
    }
}

/// Whether a request went through, or the failure in its place.
pub open spec fn done_view(r: Result<(), AgentError>) -> Result<(), AgentErrorView> {
    match r {
        Ok(_) => Ok(()),
        Err(e) => Err(e@),
    }
}

impl View for RsbbsEvent {
    type V = RsbbsEventView;

    open spec fn view(&self) -> RsbbsEventView {
        match self {
            RsbbsEvent::PageFetched(r) => RsbbsEventView::PageFetched(
                match r {
                    Ok(page) => Ok((page.address@, page.html@)),
                    Err(e) => Err(e@),
                },
            ),
            RsbbsEvent::SecCodeUpdated(r) => RsbbsEventView::SecCodeUpdated(answer_view(*r)),
            RsbbsEvent::ImageDownloaded(r) => RsbbsEventView::ImageDownloaded(done_view(*r)),
            RsbbsEvent::CaptchaSolved(r) => RsbbsEventView::CaptchaSolved(
                match r {
                    Ok(text) => Ok(text@),
                    Err(e) => Err(e@),
                },
            ),
            RsbbsEvent::LoginAnswered(r) => RsbbsEventView::LoginAnswered(answer_view(*r)),
            RsbbsEvent::VcodeRefreshed(r) => RsbbsEventView::VcodeRefreshed(done_view(*r)),
        }
    }
}

impl View for RsbbsAction {
    type V = RsbbsActionView;

    open spec fn view(&self) -> RsbbsActionView {
        match self {
            RsbbsAction::FetchLoginPage(r) => RsbbsActionView::FetchLoginPage(r@),
            RsbbsAction::UpdateSecCode(r) => RsbbsActionView::UpdateSecCode(r@),
            RsbbsAction::DownloadImage(r) => RsbbsActionView::DownloadImage(r@),
            RsbbsAction::SolveCaptcha => RsbbsActionView::SolveCaptcha,
            RsbbsAction::SubmitLogin(r) => RsbbsActionView::SubmitLogin(r@),
            RsbbsAction::RefreshVcode(r) => RsbbsActionView::RefreshVcode(r@),
            RsbbsAction::Done => RsbbsActionView::Done,
        }
    }
}

impl RsbbsStateView {
    /// A login that goes on has an attempt left: fewer rounds have failed
    /// than a login is allowed attempts, and a captcha is only replaced
    /// where another round follows.
    pub open spec fn wf(self) -> bool {
        match self {
            RsbbsStateView::Image(round) => round.retries < LOGIN_RETRY_TIMES,
            RsbbsStateView::Solver(round) => round.retries < LOGIN_RETRY_TIMES,
            RsbbsStateView::Submitted(round) => round.retries < LOGIN_RETRY_TIMES,
            RsbbsStateView::Refresh(round) => !is_last_attempt(round.retries),
            _ => true,
        }
    }

    /// Whether the login has ended.
    pub open spec fn is_final(self) -> bool {
        self is LoggedIn || self is Failed
    }
}

/// A `GET` of `path` on the forum that names `referer`.
pub open spec fn forum_get(path: Seq<char>, referer: Seq<char>) -> RequestView {
    RequestView {
        method: Method::Get,
        url: forum_url(path),
        headers: seq![("Referer"@, referer)],
        form: Seq::empty(),
        follow_redirects: true,
    }
}

/// A login that has failed with `e`.
pub open spec fn failed(e: LoginErrorView) -> (RsbbsStateView, RsbbsActionView) {
    (RsbbsStateView::Failed(e), RsbbsActionView::Done)
}

/// The step that submits the login form of `round`, where there is one, and
/// ends the login where there is none.
pub open spec fn submit_of(round: RoundView, request: Result<RequestView, LoginErrorView>) -> (
    RsbbsStateView,
    RsbbsActionView,
) {
    match request {
        Ok(request) => (RsbbsStateView::Submitted(round), RsbbsActionView::SubmitLogin(request)),
        Err(e) => failed(e),
    }
}

/// The content of a request, or the failure in its place.
pub open spec fn request_view(request: Result<Request, LoginError>) -> Result<
    RequestView,
    LoginErrorView,
> {
    match request {
        Ok(request) => Ok(request@),
        Err(e) => Err(e@),
    }
}

/// The step that fetches the captcha image of `round`.
pub open spec fn image_step(round: RoundView) -> (RsbbsStateView, RsbbsActionView) {
    (
        RsbbsStateView::Image(round),
        RsbbsActionView::DownloadImage(forum_get(round.img_url, round.referer)),
    )
}

/// `round` with one more failed round counted.
pub open spec fn next_round(round: RoundView) -> RoundView {
    RoundView { retries: round.retries + 1, ..round }
}

/// One step of a login to the forum: the state and the action that follow
/// from a state and the event that came in. `nonce` is the text of an
/// arbitrary number, which a captcha request carries.
///
/// - The login page must name the hash of its captcha, and the answer to the
///   captcha update the image; a page that does not ends the login.
/// - Each round fetches the image, has it solved and posts the login form.
/// - A welcome ends the login well, a refusal ends it badly. A complaint
///   about the captcha uses up one of the `LOGIN_RETRY_TIMES` attempts that a
///   login is allowed in all: the captcha is replaced and a new round begins,
///   unless the attempt was the last, in which case nothing is replaced and
///   the login fails as unverified.
/// - A solver that fails uses up one attempt too, unless its failure is
///   fatal or the attempt was the last, in which cases its failure ends the
///   login.
/// - A request that fails ends the login.
/// - An event that is not the awaited one changes nothing.
pub open spec fn rsbbs_next(
    question: Question,
    answer: Seq<char>,
    days: Option<u32>,
    uname: Seq<char>,
    passwd: Seq<u8>,
    nonce: Seq<char>,
    state: RsbbsStateView,
    event: RsbbsEventView,
) -> (RsbbsStateView, RsbbsActionView) {
    match (state, event) {
        (RsbbsStateView::Start, RsbbsEventView::PageFetched(Ok((address, html)))) => match id_hash_of(
            encode_utf8(html),
        ) {
            Some(id_hash) => (
                RsbbsStateView::SecCode { referer: address, html, id_hash: decode_utf8(id_hash) },
                RsbbsActionView::UpdateSecCode(
                    forum_get(sec_code_path(true, decode_utf8(id_hash), nonce), address),
                ),
            ),
            None => failed(LoginErrorView::ServerError("未找到 `id_hash`, 跳过下载。"@)),
        },
        (RsbbsStateView::Start, RsbbsEventView::PageFetched(Err(e))) => failed(
            LoginErrorView::AgentError(e),
        ),
        (
            RsbbsStateView::SecCode { referer, html, id_hash },
            RsbbsEventView::SecCodeUpdated(Ok(update)),
        ) => match vcode_img_url(id_hash, encode_utf8(update)) {
            Some(img_url) => image_step(
                RoundView { referer, html, id_hash, img_url: decode_utf8(img_url), retries: 0 },
            ),
            None => failed(
                LoginErrorView::CaptchaError(
                    CaptchaErrorView::Canceled("未找到验证码图片，跳过下载。"@),
                ),
            ),
        },
        (RsbbsStateView::SecCode { .. }, RsbbsEventView::SecCodeUpdated(Err(e))) => failed(
            LoginErrorView::AgentError(e),
        ),
        (RsbbsStateView::Image(round), RsbbsEventView::ImageDownloaded(Ok(_))) => (
            RsbbsStateView::Solver(round),
            RsbbsActionView::SolveCaptcha,
        ),
        (RsbbsStateView::Image(round), RsbbsEventView::ImageDownloaded(Err(e))) => failed(
            LoginErrorView::AgentError(e),
        ),
        (RsbbsStateView::Solver(round), RsbbsEventView::CaptchaSolved(Ok(vcode))) => submit_of(
            round,
            login_request(
                round.referer,
                uname,
                hashed_password(passwd),
                question,
                answer,
                vcode,
                days,
                encode_utf8(round.html),
            ),
        ),
        (RsbbsStateView::Solver(round), RsbbsEventView::CaptchaSolved(Err(e))) => if e.is_fatal()
            || is_last_attempt(round.retries) {
            failed(LoginErrorView::CaptchaError(e))
        } else {
            image_step(next_round(round))
        },
        (
            RsbbsStateView::Submitted(round),
            RsbbsEventView::LoginAnswered(Ok(text)),
        ) => match login_verdict(encode_utf8(text)) {
            LoginVerdictView::Welcome => (RsbbsStateView::LoggedIn, RsbbsActionView::Done),
            LoginVerdictView::CaptchaWrong => if is_last_attempt(round.retries) {
                failed(LoginErrorView::CaptchaError(CaptchaErrorView::VerifyFailed))
            } else {
                (
                    RsbbsStateView::Refresh(round),
                    RsbbsActionView::RefreshVcode(
                        forum_get(sec_code_path(false, round.id_hash, nonce), round.referer),
                    ),
                )
            },
            LoginVerdictView::Rejected(why) => failed(LoginErrorView::ServerError(why)),
        },
        (RsbbsStateView::Submitted(round), RsbbsEventView::LoginAnswered(Err(e))) => failed(
            LoginErrorView::AgentError(e),
        ),
        (RsbbsStateView::Refresh(round), RsbbsEventView::VcodeRefreshed(Ok(_))) => if is_last_attempt(
            round.retries,
        ) {
            failed(LoginErrorView::CaptchaError(CaptchaErrorView::VerifyFailed))
        } else {
            image_step(next_round(round))
        },
        (RsbbsStateView::Refresh(round), RsbbsEventView::VcodeRefreshed(Err(e))) => failed(
            LoginErrorView::AgentError(e),
        ),
        (state, _) => (state, RsbbsActionView::Done),
    }
}

impl RsbbsState {
    /// How the login ended, if it has.
    pub fn into_outcome(self) -> (r: Option<Result<(), LoginError>>)
        ensures
            match r {
                Some(Ok(_)) => self@ is LoggedIn,
                Some(Err(e)) => self@ == RsbbsStateView::Failed(e@),
                None => !self@.is_final(),
            },
    {
        match self {
            RsbbsState::LoggedIn => Some(Ok(())),
            RsbbsState::Failed(e) => Some(Err(e)),
            _ => None,
        }
    }
}

impl Round {
    fn fetch_image(self) -> (r: (RsbbsState, RsbbsAction))
        ensures
            (r.0@, r.1@) == image_step(self@),
    {
        let request = download_vcode_image(self.referer.as_str(), self.img_url.as_str());
        (RsbbsState::Image(self), RsbbsAction::DownloadImage(request))
    }

    /// Submits the login form of this round, or ends the login with the
    /// failure to work one out: see [`submit_of`].
    pub fn submit_login(self, request: Result<Request, LoginError>) -> (r: (
        RsbbsState,
        RsbbsAction,
    ))
        ensures
            (r.0@, r.1@) == submit_of(self@, request_view(request)),
    {
        match request {
            Ok(request) => (RsbbsState::Submitted(self), RsbbsAction::SubmitLogin(request)),
            Err(e) => (RsbbsState::Failed(e), RsbbsAction::Done),
        }
    }

    fn advance(self) -> (r: Round)
        requires
            !is_last_attempt(self.retries as nat),
        ensures
            r@ == next_round(self@),
    {
        let Round { referer, html, id_hash, img_url, retries } = self;
        Round { referer, html, id_hash, img_url, retries: retries + 1 }
    }
}

impl RSBBSLoginImpl<'_> {
    /// Begins a login: the login page is to be fetched.
    pub fn start(&self) -> (r: (RsbbsState, RsbbsAction))
        ensures
            r.0@ == RsbbsStateView::Start,
            r.1@ == RsbbsActionView::FetchLoginPage(
                RequestView {
                    method: Method::Get,
                    url: forum_url(
                        "member.php?mod=logging&action=login&referer=http%3A%2F%2Frs.xidian.edu.cn%2Fforum.php"@,
                    ),
                    headers: Seq::empty(),
                    form: Seq::empty(),
                    follow_redirects: true,
                },
            ),
    {
        (RsbbsState::Start, RsbbsAction::FetchLoginPage(login_page()))
    }

    /// Takes a login one step further: see [`rsbbs_next`].
    pub fn login(
        &self,
        state: RsbbsState,
        event: RsbbsEvent,
        uname: &str,
        passwd: &[u8],
        nonce: &str,
    ) -> (r: (RsbbsState, RsbbsAction))
        ensures
            (r.0@, r.1@) == rsbbs_next(
                self.question_answer_pairs.question,
                self.question_answer_pairs.answer@,
                self.cookies_time_days,
                uname@,
                passwd@,
                nonce@,
                state@,
                event@,
            ),
    {
        match (state, event) {
            (RsbbsState::Start, RsbbsEvent::PageFetched(Ok(page))) => {
                let LoginPage { address, html } = page;
                let found = match find_id_hash(html.as_str()) {
                    Some(id_hash) => {
                        proof {
                            lemma_chars_of(id_hash);
                        }
                        Some(String::from_str(id_hash))
                    },
                    None => None,
                };
                match found {
                    Some(id_hash) => {
                        let request = update_sec_code::<true>(
                            id_hash.as_str(),
                            address.as_str(),
                            nonce,
                        );
                        (
                            RsbbsState::SecCode { referer: address, html, id_hash },
                            RsbbsAction::UpdateSecCode(request),
                        )
                    },
                    None => (
                        RsbbsState::Failed(LoginError::server("未找到 `id_hash`, 跳过下载。")),
                        RsbbsAction::Done,
                    ),
                }
            },
            (RsbbsState::Start, RsbbsEvent::PageFetched(Err(e))) => (
                RsbbsState::Failed(LoginError::AgentError(e)),
                RsbbsAction::Done,
            ),
            (
                RsbbsState::SecCode { referer, html, id_hash },
                RsbbsEvent::SecCodeUpdated(Ok(update)),
            ) => {
                let found = match find_vcode_img_url(id_hash.as_str(), update.as_str()) {
                    Ok(img_url) => {
                        proof {
                            lemma_chars_of(img_url);
                        }
                        Ok(String::from_str(img_url))
                    },
                    Err(e) => Err(e),
                };
                match found {
                    Ok(img_url) => Round { referer, html, id_hash, img_url, retries: 0 }.fetch_image(),
                    Err(e) => (RsbbsState::Failed(e), RsbbsAction::Done),
                }
            },
            (RsbbsState::SecCode { .. }, RsbbsEvent::SecCodeUpdated(Err(e))) => (
                RsbbsState::Failed(LoginError::AgentError(e)),
                RsbbsAction::Done,
            ),
            (RsbbsState::Image(round), RsbbsEvent::ImageDownloaded(Ok(_))) => (
                RsbbsState::Solver(round),
                RsbbsAction::SolveCaptcha,
            ),
            (RsbbsState::Image(round), RsbbsEvent::ImageDownloaded(Err(e))) => (
                RsbbsState::Failed(LoginError::AgentError(e)),
                RsbbsAction::Done,
            ),
            (RsbbsState::Solver(round), RsbbsEvent::CaptchaSolved(Ok(vcode))) => {
                let pwd = hash_password(passwd);
                let request = login(
                    round.referer.as_str(),
                    (uname, pwd.as_str()),
                    self.question_answer_pairs,
                    vcode.as_str(),
                    self.cookies_time_days,
                    round.html.as_str(),
                );
                round.submit_login(request)
            },
            (RsbbsState::Solver(round), RsbbsEvent::CaptchaSolved(Err(e))) => {
                if e.is_fatal() || last_attempt(round.retries) {
                    (RsbbsState::Failed(LoginError::CaptchaError(e)), RsbbsAction::Done)
                } else {
                    round.advance().fetch_image()
                }
            },
            (RsbbsState::Submitted(round), RsbbsEvent::LoginAnswered(Ok(text))) => {
                match read_login_answer(text.as_str()) {
                    LoginVerdict::Welcome => (RsbbsState::LoggedIn, RsbbsAction::Done),
                    LoginVerdict::CaptchaWrong => {
                        if last_attempt(round.retries) {
                            (
                                RsbbsState::Failed(
                                    LoginError::CaptchaError(CaptchaError::VerifyFailed),
                                ),
                                RsbbsAction::Done,
                            )
                        } else {
                            let request = refresh_vcode(
                                round.id_hash.as_str(),
                                round.referer.as_str(),
                                nonce,
                            );
                            (RsbbsState::Refresh(round), RsbbsAction::RefreshVcode(request))
                        }
                    },
                    LoginVerdict::Rejected(why) => (
                        RsbbsState::Failed(LoginError::ServerError(why)),
                        RsbbsAction::Done,
                    ),
                }
            },
            (RsbbsState::Submitted(round), RsbbsEvent::LoginAnswered(Err(e))) => (
                RsbbsState::Failed(LoginError::AgentError(e)),
                RsbbsAction::Done,
            ),
            (RsbbsState::Refresh(round), RsbbsEvent::VcodeRefreshed(Ok(_))) => {
                if last_attempt(round.retries) {
                    (
                        RsbbsState::Failed(LoginError::CaptchaError(CaptchaError::VerifyFailed)),
                        RsbbsAction::Done,
                    )
                } else {
                    round.advance().fetch_image()
                }
            },
            (RsbbsState::Refresh(round), RsbbsEvent::VcodeRefreshed(Err(e))) => (
                RsbbsState::Failed(LoginError::AgentError(e)),
                RsbbsAction::Done,
            ),
            (state, _) => (state, RsbbsAction::Done),
        }
    }
}

/// A step never counts more failed rounds than a login is allowed, and a
/// login that has ended stays as it is.
pub proof fn lemma_step_keeps_bound(
    question: Question,
    answer: Seq<char>,
    days: Option<u32>,
    uname: Seq<char>,
    passwd: Seq<u8>,
    nonce: Seq<char>,
    state: RsbbsStateView,
    event: RsbbsEventView,
)
    requires
        state.wf(),
    ensures
        rsbbs_next(question, answer, days, uname, passwd, nonce, state, event).0.wf(),
        state.is_final() ==> rsbbs_next(
            question,
            answer,
            days,
            uname,
            passwd,
            nonce,
            state,
            event,
        ) == (state, RsbbsActionView::Done),
{
}

/// The state after `rounds` captcha rounds in a row, counted from the first
/// download of the image, in each of which the image came, the solver read
/// `vcode` in it, the forum answered the login with `text`, and the captcha
/// was replaced where the login asked for that.
pub open spec fn after_rounds(
    question: Question,
    answer: Seq<char>,
    days: Option<u32>,
    uname: Seq<char>,
    passwd: Seq<u8>,
    nonce: Seq<char>,
    first: RoundView,
    vcode: Seq<char>,
    text: Seq<char>,
    rounds: nat,
) -> RsbbsStateView
    decreases rounds,
{
    if rounds == 0 {
        RsbbsStateView::Image(first)
    } else {
        let before = after_rounds(
            question,
            answer,
            days,
            uname,
            passwd,
            nonce,
            first,
            vcode,
            text,
            (rounds - 1) as nat,
        );
        let seen = rsbbs_next(
            question,
            answer,
            days,
            uname,
            passwd,
            nonce,
            before,
            RsbbsEventView::ImageDownloaded(Ok(())),
        ).0;
        let solved = rsbbs_next(
            question,
            answer,
            days,
            uname,
            passwd,
            nonce,
            seen,
            RsbbsEventView::CaptchaSolved(Ok(vcode)),
        ).0;
        let answered = rsbbs_next(
            question,
            answer,
            days,
            uname,
            passwd,
            nonce,
            solved,
            RsbbsEventView::LoginAnswered(Ok(text)),
        ).0;
        rsbbs_next(
            question,
            answer,
            days,
            uname,
            passwd,
            nonce,
            answered,
            RsbbsEventView::VcodeRefreshed(Ok(())),
        ).0
    }
}

/// One captcha round that the forum rejects: the image comes, the solver
/// reads `vcode`, the forum answers with a complaint about the captcha. While
/// an attempt is left, the captcha is replaced and the next round begins with
/// one more failed round counted; the round that was the last attempt ends
/// the login as unverified, and no captcha is replaced after it.
pub proof fn lemma_rejected_round(
    question: Question,
    answer: Seq<char>,
    days: Option<u32>,
    uname: Seq<char>,
    passwd: Seq<u8>,
    nonce: Seq<char>,
    round: RoundView,
    vcode: Seq<char>,
    text: Seq<char>,
)
    requires
        login_request(
            round.referer,
            uname,
            hashed_password(passwd),
            question,
            answer,
            vcode,
            days,
            encode_utf8(round.html),
        ) is Ok,
        login_verdict(encode_utf8(text)) is CaptchaWrong,
    ensures
        rsbbs_next(
            question,
            answer,
            days,
            uname,
            passwd,
            nonce,
            RsbbsStateView::Image(round),
            RsbbsEventView::ImageDownloaded(Ok(())),
        ).0 == RsbbsStateView::Solver(round),
        rsbbs_next(
            question,
            answer,
            days,
            uname,
            passwd,
            nonce,
            RsbbsStateView::Solver(round),
            RsbbsEventView::CaptchaSolved(Ok(vcode)),
        ).0 == RsbbsStateView::Submitted(round),
        rsbbs_next(
            question,
            answer,
            days,
            uname,
            passwd,
            nonce,
            RsbbsStateView::Submitted(round),
            RsbbsEventView::LoginAnswered(Ok(text)),
        ).0 == (if is_last_attempt(round.retries) {
            RsbbsStateView::Failed(LoginErrorView::CaptchaError(CaptchaErrorView::VerifyFailed))
        } else {
            RsbbsStateView::Refresh(round)
        }),
        is_last_attempt(round.retries) ==> rsbbs_next(
            question,
            answer,
            days,
            uname,
            passwd,
            nonce,
            RsbbsStateView::Submitted(round),
            RsbbsEventView::LoginAnswered(Ok(text)),
        ).1 is Done,
        !is_last_attempt(round.retries) ==> rsbbs_next(
            question,
            answer,
            days,
            uname,
            passwd,
            nonce,
            RsbbsStateView::Refresh(round),
            RsbbsEventView::VcodeRefreshed(Ok(())),
        ).0 == RsbbsStateView::Image(next_round(round)),
{
}

/// The retry bound: while the forum keeps complaining about the captcha, the
/// login makes exactly `LOGIN_RETRY_TIMES` attempts in all, each with a new
/// download of the image. After fewer rounds it goes on; the round that makes
/// the number full ends it as unverified.
pub proof fn lemma_retry_bound(
    question: Question,
    answer: Seq<char>,
    days: Option<u32>,
    uname: Seq<char>,
    passwd: Seq<u8>,
    nonce: Seq<char>,
    first: RoundView,
    vcode: Seq<char>,
    text: Seq<char>,
    rounds: nat,
)
    requires
        first.retries == 0,
        login_request(
            first.referer,
            uname,
            hashed_password(passwd),
            question,
            answer,
            vcode,
            days,
            encode_utf8(first.html),
        ) is Ok,
        login_verdict(encode_utf8(text)) is CaptchaWrong,
        rounds <= LOGIN_RETRY_TIMES,
    ensures
        rounds < LOGIN_RETRY_TIMES ==> after_rounds(
            question,
            answer,
            days,
            uname,
            passwd,
            nonce,
            first,
            vcode,
            text,
            rounds,
        ) == RsbbsStateView::Image(RoundView { retries: rounds, ..first }),
        rounds == LOGIN_RETRY_TIMES ==> after_rounds(
            question,
            answer,
            days,
            uname,
            passwd,
            nonce,
            first,
            vcode,
            text,
            rounds,
        ) == RsbbsStateView::Failed(LoginErrorView::CaptchaError(CaptchaErrorView::VerifyFailed)),
    decreases rounds,
{
    if rounds > 0 {
        let done = (rounds - 1) as nat;
        let round = RoundView { retries: done, ..first };
        lemma_retry_bound(question, answer, days, uname, passwd, nonce, first, vcode, text, done);
        lemma_rejected_round(question, answer, days, uname, passwd, nonce, round, vcode, text);
        assert(after_rounds(question, answer, days, uname, passwd, nonce, first, vcode, text, done)
            == RsbbsStateView::Image(round));
        if !is_last_attempt(done) {
            assert(next_round(round) == RoundView { retries: rounds, ..first });
        } else {
            let ended = RsbbsStateView::Failed(
                LoginErrorView::CaptchaError(CaptchaErrorView::VerifyFailed),
            );
            assert(rsbbs_next(
                question,
                answer,
                days,
                uname,
                passwd,
                nonce,
                ended,
                RsbbsEventView::VcodeRefreshed(Ok(())),
            ).0 == ended);
        }
    } else {
        assert(first == RoundView { retries: 0, ..first });
    }
}

} // verus!
