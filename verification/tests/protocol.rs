use x_l4rs::error::{AgentError, CaptchaError, LoginError, TransportFailure};
use x_l4rs::login_solver::{decrypt_password, XL4rsLoginSolver};
use x_l4rs::protocol::ehall::{EhallProtocolData, EhallProtocolItem};
use x_l4rs::protocol::ids::{IDSProtocolData, IDSProtocolItem};
use x_l4rs::protocol::rsbbs::RSBBSProtocolItem;
use x_l4rs::protocol::{Method, XL4rsProtocolData, XL4rsProtocolItem};
use x_l4rs::session::ehall::{App, EhallLoginImpl};
use x_l4rs::session::ids::IDSLoginImpl;
use x_l4rs::session::rsbbs::{Question, QuestionAnswerPair};
use x_l4rs::utils::cry::{
    aes_dec, aes_enc, base64_dec, base64_enc, flatten_bytes, md5_enc, percent_enc, pkcs7_pad,
    pkcs7_unpad, Base64Error, CipherError, X_L4RS_ENC_IV, X_L4RS_ENC_KEY,
};
use x_l4rs::utils::{get_now_timestamp_mills, time_it, timestamp_mills_of};

fn failure(kind: TransportFailure) -> AgentError {
    AgentError::new(kind, format!("{:?}", kind))
}

#[test]
fn endpoints_have_their_addresses() {
    assert_eq!(IDSProtocolItem::Login.get(), "http://ids.xidian.edu.cn/authserver/login");
    assert_eq!(
        IDSProtocolItem::CheckNeedCaptcha.get(),
        "https://ids.xidian.edu.cn/authserver/checkNeedCaptcha.htl"
    );
    assert_eq!(
        IDSProtocolItem::VerifySliderCaptcha.get(),
        "https://ids.xidian.edu.cn/authserver/common/verifySliderCaptcha.htl"
    );
    assert_eq!(
        IDSProtocolItem::OpenSliderCaptcha.get(),
        "https://ids.xidian.edu.cn/authserver/common/openSliderCaptcha.htl"
    );
    assert_eq!(IDSProtocolItem::Authserver.get(), "http://ids.xidian.edu.cn/authserver/index.do");
    assert_eq!(
        IDSProtocolItem::GetUserConf.get(),
        "https://ids.xidian.edu.cn/personalInfo/common/getUserConf"
    );
    for (old, new) in [
        (XL4rsProtocolItem::Login, IDSProtocolItem::Login),
        (XL4rsProtocolItem::CheckNeedCaptcha, IDSProtocolItem::CheckNeedCaptcha),
        (XL4rsProtocolItem::VerifySliderCaptcha, IDSProtocolItem::VerifySliderCaptcha),
        (XL4rsProtocolItem::OpenSliderCaptcha, IDSProtocolItem::OpenSliderCaptcha),
        (XL4rsProtocolItem::Authserver, IDSProtocolItem::Authserver),
        (XL4rsProtocolItem::GetUserConf, IDSProtocolItem::GetUserConf),
    ] {
        assert_eq!(old.get(), new.get());
        assert_eq!(old.get_default(), new.get_default());
    }
    assert_eq!(
        EhallProtocolItem::UserFavoriteApps.get(),
        "http://ehall.xidian.edu.cn/jsonp/userFavoriteApps.json"
    );
    assert_eq!(EhallProtocolItem::AppShow.get(), "http://ehall.xidian.edu.cn//appShow");
    assert_eq!(
        EhallProtocolItem::ServiceSearchCustom.get(),
        "http://ehall.xidian.edu.cn/jsonp/serviceSearchCustom.json"
    );
    assert_eq!(RSBBSProtocolItem::Host.get(), "rs.xidian.edu.cn");
    assert_eq!(XL4rsProtocolItem::config_file_name(), "x_l4rs-protocol.toml");
    assert_eq!(IDSProtocolItem::config_file_name(), "x_l4rs-ids-protocol.toml");
    assert_eq!(EhallProtocolItem::config_file_name(), "x_l4rs-ehall-protocol.toml");
    assert_eq!(RSBBSProtocolItem::Host.get_default(), RSBBSProtocolItem::HOST);
}

#[test]
fn protocol_data_starts_from_the_built_in_addresses() {
    let mut data = IDSProtocolData::default();
    let login = data.map_by_enum(&IDSProtocolItem::Login, |url| url.clone());
    assert_eq!(login.as_deref(), Some(IDSProtocolItem::LOGIN));
    let length = data.map_by_enum(&IDSProtocolItem::GetUserConf, |url| url.as_ref().unwrap().len());
    assert_eq!(length, IDSProtocolItem::GET_USER_CONF.len());
    data.set(&IDSProtocolItem::Authserver, Some("http://localhost/".to_string()));
    data.set(&IDSProtocolItem::Login, None);
    assert_eq!(data.map_by_enum(&IDSProtocolItem::Login, |url| url.clone()), None);
    assert_eq!(
        data.map_by_enum(&IDSProtocolItem::Authserver, |url| url.clone()).as_deref(),
        Some("http://localhost/")
    );
    assert_eq!(
        data.map_by_enum(&IDSProtocolItem::CheckNeedCaptcha, |url| url.clone()).as_deref(),
        Some(IDSProtocolItem::CHECK_NEED_CAPTCHA)
    );
    let old = XL4rsProtocolData::default();
    assert_eq!(
        old.map_by_enum(&XL4rsProtocolItem::OpenSliderCaptcha, |url| url.clone()).as_deref(),
        Some(XL4rsProtocolItem::OPEN_SLIDER_CAPTCHA)
    );
    let mut hall = EhallProtocolData::default();
    assert_eq!(
        hall.map_by_enum(&EhallProtocolItem::AppShow, |url| url.clone()).as_deref(),
        Some(EhallProtocolItem::APP_SHOW)
    );
    hall.set(&EhallProtocolItem::AppShow, None);
    assert_eq!(hall.map_by_enum(&EhallProtocolItem::AppShow, |url| url.is_none()), true);
    assert_eq!(
        hall.map_by_enum(&EhallProtocolItem::UserFavoriteApps, |url| url.clone()).as_deref(),
        Some(EhallProtocolItem::USER_FAVORITE_APPS)
    );
}

#[test]
fn requests_of_the_login_service() {
    let r = x_l4rs::protocol::ids::login_page("https://learning.xidian.edu.cn/cassso/xidian");
    assert_eq!(r.method, Method::Get);
    assert_eq!(
        r.url,
        "http://ids.xidian.edu.cn/authserver/login?service=https%3A%2F%2Flearning%2Exidian%2Eedu%2Ecn%2Fcassso%2Fxidian"
    );
    assert!(r.headers.is_empty() && r.form.is_empty() && r.follow_redirects);
    let form = vec![("a".to_string(), "1".to_string())];
    let r = x_l4rs::protocol::ids::login("t", form.clone());
    assert_eq!(r.method, Method::PostForm);
    assert_eq!(r.url, "http://ids.xidian.edu.cn/authserver/login?service=t");
    assert_eq!(r.form, form);
    let r = x_l4rs::protocol::ids::check_need_captcha("u 1", 42);
    assert_eq!(
        r.url,
        "https://ids.xidian.edu.cn/authserver/checkNeedCaptcha.htl?username=u 1&_=42"
    );
    let r = x_l4rs::protocol::ids::open_slider_captcha(0);
    assert_eq!(r.url, "https://ids.xidian.edu.cn/authserver/common/openSliderCaptcha.htl?_=0");
    let r = x_l4rs::protocol::ids::verify_slider_captcha(280);
    assert_eq!(
        r.form,
        [
            ("canvasLength".to_string(), "280".to_string()),
            ("moveLength".to_string(), "280".to_string())
        ]
    );
    let probe = x_l4rs::protocol::ids::has_logged_in_probe();
    assert_eq!(probe.url, "http://ids.xidian.edu.cn/authserver/index.do");
    assert!(!probe.follow_redirects);
    assert_eq!(x_l4rs::protocol::login_page("t").url, x_l4rs::protocol::ids::login_page("t").url);
    assert_eq!(
        x_l4rs::protocol::login("t", form.clone()).form,
        x_l4rs::protocol::ids::login("t", form).form
    );
    assert_eq!(
        x_l4rs::protocol::check_need_captcha("u", 1).url,
        x_l4rs::protocol::ids::check_need_captcha("u", 1).url
    );
    assert_eq!(
        x_l4rs::protocol::open_slider_captcha(1).url,
        x_l4rs::protocol::ids::open_slider_captcha(1).url
    );
    assert_eq!(
        x_l4rs::protocol::verify_slider_captcha(1).form,
        x_l4rs::protocol::ids::verify_slider_captcha(1).form
    );
}

#[test]
fn requests_of_the_service_hall() {
    let r = x_l4rs::protocol::ehall::use_app("4768574631264620");
    assert_eq!(r.url, "http://ehall.xidian.edu.cn//appShow?appId=4768574631264620");
    assert_eq!(
        r.headers,
        [(
            "Accept".to_string(),
            "text/html,application/xhtml+xml,application/xml;q=0.9,image/webp,image/apng,*/*;q=0.8"
                .to_string()
        )]
    );
    let r = x_l4rs::protocol::ehall::get_app_list("成绩");
    assert_eq!(
        r.url,
        "http://ehall.xidian.edu.cn/jsonp/serviceSearchCustom.json?searchKey=成绩&pageNumber=1&pageSize=150&sortKey=recentUseCount&orderKey=desc"
    );
    let probe = x_l4rs::protocol::ehall::has_logged_in_probe();
    assert_eq!(probe.url, "http://ehall.xidian.edu.cn/jsonp/userFavoriteApps.json");
    assert!(probe.follow_redirects);
    assert!(x_l4rs::protocol::ehall::has_logged_in(&Ok(true)));
    assert!(!x_l4rs::protocol::ehall::has_logged_in(&Ok(false)));
    assert!(!x_l4rs::protocol::ehall::has_logged_in(&Err(failure(TransportFailure::Io))));
}

#[test]
fn requests_of_the_forum() {
    let r = x_l4rs::protocol::rsbbs::update_sec_code::<true>("cS7", "ref", "0.5");
    assert_eq!(
        r.url,
        "https://rs.xidian.edu.cn/misc.php?mod=seccode&action=update&idhash=cS7&0.5&modid=member%3A%3Alogging"
    );
    let r = x_l4rs::protocol::rsbbs::update_sec_code::<false>("cS7", "ref", "0.5");
    assert_eq!(
        r.url,
        "https://rs.xidian.edu.cn/misc.php?mod=seccode&action=update&idhash=cS7&0.5&modid=undefined"
    );
    assert_eq!(r.url, x_l4rs::protocol::rsbbs::refresh_vcode("cS7", "ref", "0.5").url);
    let r = x_l4rs::protocol::rsbbs::download_vcode_image("ref", "misc.php?x=1");
    assert_eq!(r.url, "https://rs.xidian.edu.cn/misc.php?x=1");
    assert_eq!(r.headers, [("Referer".to_string(), "ref".to_string())]);
    let probe = x_l4rs::protocol::rsbbs::has_logged_in_probe();
    assert_eq!(probe.url, "https://rs.xidian.edu.cn/forum.php");
    assert!(!probe.follow_redirects);
}

#[test]
fn forum_login_request_names_what_the_page_lacks() {
    let pair = QuestionAnswerPair { question: Question::Q0, answer: "" };
    let login = |html: &str| {
        x_l4rs::protocol::rsbbs::login("ref", ("u", "p"), pair, "code", None, html)
    };
    match login("<html></html>") {
        Err(LoginError::ServerError(why)) => assert_eq!(why, "未找到 `login_hash`."),
        other => panic!("{:?}", other),
    }
    match login("<form loginhash=LxYz1\">") {
        Err(LoginError::ServerError(why)) => assert_eq!(why, "未找到登录地址。"),
        other => panic!("{:?}", other),
    }
    match login("<form action=\"a?loginhash=LxYz1\">") {
        Err(LoginError::ServerError(why)) => assert_eq!(why, "登录页缺少表单内容"),
        other => panic!("{:?}", other),
    }
    let generic = "<form action=\"a?b=1&amp;loginhash=LxYz1\" id=\"loginform_other\"></div>\
        <input name=\"formhash\" value=\"1\"></form>\
        <form id=\"loginform_LxYz1\"></div><input name=\"formhash\" value=\"2\"></form>";
    let request = login(generic).unwrap();
    assert_eq!(request.url, "https://rs.xidian.edu.cn/a?b=1&loginhash=LxYz1");
    assert_eq!(request.form[0], ("formhash".to_string(), "1".to_string()));
    assert_eq!(request.form.len(), 8);
    let fallback = "<form action=\"a?loginhash=LxYz1\" id=\"loginform_other\"></div>\
        <input name=\"formhash\" value=\"1\"></form>";
    let request = login(fallback).unwrap();
    assert_eq!(request.form[0], ("formhash".to_string(), "1".to_string()));
}

#[test]
fn a_redirect_shows_a_session_that_is_not_logged_in() {
    for probe in [
        x_l4rs::protocol::ids::has_logged_in,
        x_l4rs::protocol::rsbbs::has_logged_in,
        x_l4rs::protocol::is_logged_in,
    ] {
        assert!(!probe(&Ok(302)));
        assert!(probe(&Ok(200)));
        assert!(probe(&Ok(404)));
        assert!(probe(&Ok(301)));
        assert!(probe(&Err(failure(TransportFailure::StatusCode(404)))));
        assert!(probe(&Err(failure(TransportFailure::StatusCode(500)))));
        assert!(!probe(&Err(failure(TransportFailure::StatusCode(302)))));
        assert!(!probe(&Err(failure(TransportFailure::Io))));
        assert!(!probe(&Err(failure(TransportFailure::HostNotFound))));
    }
}

#[test]
fn transport_failures_are_judged_by_kind() {
    let fatal = [
        TransportFailure::StatusCode(404),
        TransportFailure::StatusCode(500),
        TransportFailure::Http,
        TransportFailure::BadUri,
        TransportFailure::Timeout,
        TransportFailure::InvalidProxyUrl,
        TransportFailure::ConnectionFailed,
        TransportFailure::BodyExceedsLimit,
        TransportFailure::ConnectProxyFailed,
        TransportFailure::Other,
    ];
    let transient = [
        TransportFailure::StatusCode(504),
        TransportFailure::Protocol,
        TransportFailure::Io,
        TransportFailure::HostNotFound,
        TransportFailure::RedirectFailed,
        TransportFailure::TooManyRedirects,
        TransportFailure::RequireHttpsOnly,
        TransportFailure::LargeResponseHeader,
        TransportFailure::BodyStalled,
    ];
    for kind in fatal {
        assert!(failure(kind).is_fatal(), "{:?}", kind);
        assert!(CaptchaError::AgentError(failure(kind)).is_fatal());
        assert!(LoginError::AgentError(failure(kind)).is_fatal());
        assert!(LoginError::CaptchaError(CaptchaError::AgentError(failure(kind))).is_fatal());
    }
    for kind in transient {
        assert!(!failure(kind).is_fatal(), "{:?}", kind);
        assert!(!CaptchaError::AgentError(failure(kind)).is_fatal());
        assert!(!LoginError::AgentError(failure(kind)).is_fatal());
        assert!(!LoginError::CaptchaError(CaptchaError::AgentError(failure(kind))).is_fatal());
    }
}

#[test]
fn errors_are_fatal_unless_a_retry_can_help() {
    assert!(!CaptchaError::VerifyFailed.is_fatal());
    assert!(CaptchaError::Canceled("x".to_string()).is_fatal());
    assert!(!LoginError::CaptchaError(CaptchaError::VerifyFailed).is_fatal());
    assert!(LoginError::CaptchaError(CaptchaError::Canceled("x".to_string())).is_fatal());
    assert!(LoginError::CryptoError("x".to_string()).is_fatal());
    assert!(LoginError::ServerError("x".to_string()).is_fatal());
}

#[test]
fn errors_have_their_messages() {
    assert_eq!(CaptchaError::VerifyFailed.to_text(), "验证失败。");
    assert_eq!(CaptchaError::Canceled("用户".to_string()).to_text(), "操作被主动取消：`用户`.");
    assert_eq!(LoginError::CryptoError("k".to_string()).to_text(), "加解密错误：`k`.");
    assert_eq!(
        LoginError::ServerError("s".to_string()).to_text(),
        "登录失败，服务器返回信息：`s`."
    );
    let agent = AgentError::new(TransportFailure::Io, "broken pipe".to_string());
    assert_eq!(agent.to_text(), "broken pipe");
    assert_eq!(LoginError::AgentError(agent).to_text(), "broken pipe");
    assert_eq!(
        LoginError::CaptchaError(CaptchaError::AgentError(failure(TransportFailure::Io))).to_text(),
        "Io"
    );
    assert_eq!(LoginError::CaptchaError(CaptchaError::VerifyFailed).to_text(), "验证失败。");
    assert_eq!(LoginError::server("a").to_text(), LoginError::ServerError("a".to_string()).to_text());
    assert_eq!(LoginError::crypto("a").to_text(), LoginError::CryptoError("a".to_string()).to_text());
}

#[test]
fn padding_can_be_taken_off_again() {
    for len in 0..70usize {
        let data: Vec<u8> = (0..len).map(|i| (i * 7 + 1) as u8).collect();
        let padded = flatten_bytes(pkcs7_pad::<16>(&data));
        assert_eq!(padded.len() % 16, 0);
        assert_eq!(padded.len(), (len / 16 + 1) * 16);
        assert_eq!(pkcs7_unpad(&padded, 16), Some(data.clone()));
        let padded = flatten_bytes(pkcs7_pad::<5>(&data));
        assert_eq!(padded.len(), (len / 5 + 1) * 5);
        assert_eq!(pkcs7_unpad(&padded, 5), Some(data.clone()));
        let padded = flatten_bytes(pkcs7_pad::<1>(&data));
        assert_eq!(padded.len(), len + 1);
        assert_eq!(pkcs7_unpad(&padded, 1), Some(data.clone()));
        let padded = flatten_bytes(pkcs7_pad::<255>(&data));
        assert_eq!(padded.len(), 255);
        assert_eq!(pkcs7_unpad(&padded, 255), Some(data));
    }
}

#[test]
fn aligned_data_gets_a_whole_block_of_padding() {
    let blocks = pkcs7_pad::<16>(b"0123456789abcdef");
    assert_eq!(blocks.len(), 2);
    assert_eq!(&blocks[0], b"0123456789abcdef");
    assert_eq!(blocks[1], [16u8; 16]);
    let blocks = pkcs7_pad::<16>(b"");
    assert_eq!(blocks, vec![[16u8; 16]]);
    let blocks = pkcs7_pad::<4>(b"abcde");
    assert_eq!(blocks, vec![*b"abcd", [b'e', 3, 3, 3]]);
    assert_eq!(pkcs7_unpad(b"abcd", 0), None);
    assert_eq!(pkcs7_unpad(&[1u8; 256], 256), None);
}

#[test]
fn decrypting_undoes_encrypting() {
    let key = b"0123456789abcdef";
    let iv = b"fedcba9876543210";
    for len in [0usize, 1, 15, 16, 17, 31, 32, 100, 4095, 4096, 5000] {
        let data: Vec<u8> = (0..len).map(|i| (i % 251) as u8).collect();
        let padded = flatten_bytes(pkcs7_pad::<16>(&data));
        let enc = aes_enc(&padded, key, iv);
        assert_eq!(enc.len(), padded.len());
        assert_ne!(enc, padded);
        assert_eq!(aes_dec(&enc, key, iv), Ok(data.clone()));
        if len > 0 {
            assert_ne!(aes_dec(&enc, b"0123456789abcdeg", iv), Ok(data));
        }
    }
}

#[test]
fn encryption_chains_the_blocks() {
    let key = b"0123456789abcdef";
    let iv = b"fedcba9876543210";
    let one = aes_enc(&[7u8; 16], key, iv);
    let two = aes_enc(&[7u8; 32], key, iv);
    assert_eq!(&two[..16], &one[..]);
    assert_ne!(&two[16..], &one[..]);
    assert_eq!(aes_enc(&one, key, &[0u8; 16]).len(), 16);
    assert_ne!(aes_enc(&[7u8; 16], key, &[0u8; 16]), one);
    assert!(aes_enc(&[], key, iv).is_empty());
}

#[test]
fn decryption_rejects_what_was_not_encrypted_with_padding() {
    let key = b"0123456789abcdef";
    let iv = b"fedcba9876543210";
    assert_eq!(aes_dec(&[0u8; 15], key, iv), Err(CipherError::InvalidLength));
    assert_eq!(aes_dec(&[0u8; 17], key, iv), Err(CipherError::InvalidLength));
    assert_eq!(aes_dec(&[], key, iv), Ok(vec![]));
    let unpadded = aes_enc(&[0x20u8; 16], key, iv);
    assert_eq!(aes_dec(&unpadded, key, iv), Err(CipherError::InvalidPadding));
    let zero = aes_enc(&[0u8; 16], key, iv);
    assert_eq!(aes_dec(&zero, key, iv), Err(CipherError::InvalidPadding));
    assert_eq!(CipherError::InvalidLength.to_text(), "InvalidLength");
    assert_eq!(CipherError::InvalidPadding.to_text(), "InvalidPadding");
}

#[test]
fn base64_is_the_standard_alphabet_with_padding() {
    assert_eq!(base64_enc(b""), "");
    assert_eq!(base64_enc(b"f"), "Zg==");
    assert_eq!(base64_enc(b"fo"), "Zm8=");
    assert_eq!(base64_enc(b"foo"), "Zm9v");
    assert_eq!(base64_enc(&[0xfb, 0xff]), "+/8=");
    for len in 0..200usize {
        let text = base64_enc(&vec![0xa5u8; len]);
        assert_eq!(text.chars().count(), len / 3 * 4 + if len % 3 > 0 { 4 } else { 0 });
    }
    assert_eq!(base64_enc(&[0u8; 80]).len(), 108);
    assert_eq!(base64_dec(b"Zm9vYmFy"), Ok(b"foobar".to_vec()));
    assert_eq!(base64_dec(b"+/8="), Ok(vec![0xfb, 0xff]));
    assert_eq!(base64_dec(b"Zm9v!mFy"), Err(Base64Error::InvalidByte(4, b'!')));
    assert_eq!(base64_dec(b"Zg="), Err(Base64Error::InvalidPadding));
    assert_eq!(base64_dec(b"Z"), Err(Base64Error::InvalidLength(1)));
    assert_eq!(base64_dec(b"Zh=="), Err(Base64Error::InvalidLastSymbol(1, b'h')));
    assert_eq!(Base64Error::InvalidByte(4, 33).to_text(), "InvalidByte(4, 33)");
    assert_eq!(Base64Error::InvalidLength(1).to_text(), "InvalidLength(1)");
    assert_eq!(Base64Error::InvalidLastSymbol(1, 104).to_text(), "InvalidLastSymbol(1, 104)");
    assert_eq!(Base64Error::InvalidPadding.to_text(), "InvalidPadding");
}

#[test]
fn percent_encoding_spares_letters_and_digits_only() {
    assert_eq!(percent_enc("foo bar?"), "foo%20bar%3F");
    assert_eq!(percent_enc("azAZ09"), "azAZ09");
    assert_eq!(percent_enc("-_.~/"), "%2D%5F%2E%7E%2F");
    assert_eq!(percent_enc("登"), "%E7%99%BB");
    assert_eq!(percent_enc(""), "");
}

#[test]
fn md5_is_the_known_digest() {
    assert_eq!(
        md5_enc(b""),
        [0xd4, 0x1d, 0x8c, 0xd9, 0x8f, 0x00, 0xb2, 0x04, 0xe9, 0x80, 0x09, 0x98, 0xec, 0xf8, 0x42, 0x7e]
    );
    assert_ne!(md5_enc(b"a"), md5_enc(b""));
}

#[test]
fn fixed_key_and_iv() {
    assert_eq!(&X_L4RS_ENC_IV, b"xidianscriptsxdu");
    assert_eq!(&X_L4RS_ENC_KEY, b"x_l4rsforxdsign.");
}

#[test]
fn a_stored_password_can_be_loaded_again() {
    let solver = XL4rsLoginSolver::new(IDSLoginImpl::target_learning());
    assert_eq!(solver.login_type(), "xd");
    assert_eq!(solver.inner().target(), "https://learning.xidian.edu.cn/cassso/xidian");
    for pwd in ["password", "", "sixteen byte pwd", "密码 with spaces and more than a block"] {
        let stored = solver.pwd_enc(pwd);
        assert_ne!(stored, pwd);
        assert_eq!(solver.login_s(&stored).unwrap(), pwd.as_bytes());
        let padded = flatten_bytes(pkcs7_pad::<16>(pwd.as_bytes()));
        assert_eq!(stored, base64_enc(&aes_enc(&padded, &X_L4RS_ENC_KEY, &X_L4RS_ENC_IV)));
    }
    match solver.login_s("not base64!") {
        Err(LoginError::CryptoError(why)) => assert_eq!(why, "密码解密出错：InvalidByte(3, 32)"),
        other => panic!("{:?}", other),
    }
    match solver.login_s("Zm9v") {
        Err(LoginError::CryptoError(why)) => assert_eq!(why, "密码解密出错：InvalidLength"),
        other => panic!("{:?}", other),
    }
    match solver.login_s(&base64_enc(&[0u8; 16])) {
        Err(LoginError::CryptoError(why)) => assert_eq!(why, "密码解密出错：InvalidPadding"),
        other => panic!("{:?}", other),
    }
}

#[test]
fn login_targets() {
    assert_eq!(IDSLoginImpl::new("x").target(), "x");
    assert_eq!(
        IDSLoginImpl::target_ehall().target(),
        "http://ehall.xidian.edu.cn/login?service=http://ehall.xidian.edu.cn/new/index.html"
    );
    assert_eq!(EhallLoginImpl::new().inner(), &IDSLoginImpl::target_ehall());
    assert_eq!(EhallLoginImpl::default().inner().target(), IDSLoginImpl::TARGET_EHALL_URL);
    let custom = EhallLoginImpl::from(IDSLoginImpl::new("y"));
    assert_eq!(custom.inner().target(), "y");
    assert_eq!(custom.target(), "y");
}

#[test]
fn an_app_hands_out_its_fields() {
    let app = App::new(
        "4768574631264620".to_string(),
        "成绩查询".to_string(),
        "icon.png".to_string(),
        2,
        None,
    );
    assert_eq!(app.app_id(), "4768574631264620");
    assert_eq!(app.app_name(), "成绩查询");
    assert_eq!(app.middle_icon(), "icon.png");
    assert_eq!(*app.app_type(), 2);
    assert_eq!(app.description(), &None);
}

#[test]
fn timing_hands_the_result_on() {
    let (r, millis) = time_it(|| 6 * 7);
    assert_eq!(r, 42);
    assert!(millis < 10_000);
    let (text, _) = time_it(|| "done".to_string());
    assert_eq!(text, "done");
    let now = get_now_timestamp_mills();
    assert!(now > 1_600_000_000_000);
    assert!(get_now_timestamp_mills() >= now);
}

#[test]
fn test_authserver() {
    let probe = x_l4rs::protocol::ids::has_logged_in_probe();
    assert!(!probe.follow_redirects);
    let r = x_l4rs::protocol::ids::has_logged_in(&Ok(302));
    println!("{r}");
    assert!(!r);
}

#[test]
fn login_test_authserver() {
    let r = x_l4rs::protocol::is_logged_in(&Ok(302));
    println!("{r}");
    assert!(!r);
}

#[test]
fn stored_bytes_are_decrypted_or_the_failure_is_named() {
    let stored = aes_enc(&flatten_bytes(pkcs7_pad::<16>(b"pw")), &X_L4RS_ENC_KEY, &X_L4RS_ENC_IV);
    assert_eq!(decrypt_password(Ok(stored)).unwrap(), b"pw");
    assert_eq!(decrypt_password(Ok(vec![])).unwrap(), b"");
    match decrypt_password(Ok(vec![0u8; 15])) {
        Err(LoginError::CryptoError(why)) => assert_eq!(why, "密码解密出错：InvalidLength"),
        other => panic!("{:?}", other),
    }
    match decrypt_password(Err(Base64Error::InvalidLastSymbol(1, 104))) {
        Err(LoginError::CryptoError(why)) => {
            assert_eq!(why, "密码解密出错：InvalidLastSymbol(1, 104)")
        }
        other => panic!("{:?}", other),
    }
}

#[test]
fn a_clock_before_the_epoch_reads_as_zero() {
    assert_eq!(timestamp_mills_of(None), 0);
    assert_eq!(timestamp_mills_of(Some(0)), 0);
    assert_eq!(timestamp_mills_of(Some(1_700_000_000_123)), 1_700_000_000_123);
    assert_eq!(timestamp_mills_of(Some(u128::MAX)), u128::MAX);
}

#[test]
fn a_login_is_allowed_five_attempts_in_all() {
    assert_eq!(x_l4rs::LOGIN_RETRY_TIMES, 5);
    for failed in 0..4 {
        assert!(!x_l4rs::session::last_attempt(failed));
    }
    assert!(x_l4rs::session::last_attempt(4));
    assert!(x_l4rs::session::last_attempt(5));
    assert!(x_l4rs::session::last_attempt(usize::MAX));
}
