use x_l4rs::error::{CaptchaError, LoginError};
use x_l4rs::utils::find_element::{
    find_form_content, find_id_hash, find_id_value_pair, find_login_hash, find_login_url,
    find_vcode_img_url, scan_input_fields,
};
use x_l4rs::utils::search::{contains, find, find_str, rfind, rfind_str};
use x_l4rs::utils::text::{decimal, replace, split};

fn server_message(r: Result<&str, LoginError>) -> String {
    match r {
        Err(LoginError::ServerError(why)) => why,
        other => panic!("expected a server error, got {:?}", other),
    }
}

#[test]
fn find_gives_the_leftmost_and_rfind_the_rightmost() {
    assert_eq!(find(b"abcabc", b"bc"), Some(1));
    assert_eq!(rfind(b"abcabc", b"bc"), Some(4));
    assert_eq!(find(b"abcabc", b"cb"), None);
    assert_eq!(rfind(b"abcabc", b"cb"), None);
    assert_eq!(find(b"abc", b""), Some(0));
    assert_eq!(rfind(b"abc", b""), Some(3));
    assert_eq!(find(b"", b""), Some(0));
    assert_eq!(find(b"ab", b"abc"), None);
    assert_eq!(find(b"aaa", b"aa"), Some(0));
    assert_eq!(rfind(b"aaa", b"aa"), Some(1));
    assert!(contains(b"hello", b"ll"));
    assert!(!contains(b"hello", b"lll"));
}

#[test]
fn search_agrees_with_the_standard_library() {
    let hay = "登录<div>失败</div>，请<div>重试</div>";
    for needle in ["<div>", "</div>", "登录", "试", "", "x", "，请"] {
        assert_eq!(find_str(hay, needle), hay.find(needle));
        assert_eq!(rfind_str(hay, needle), hay.rfind(needle));
    }
}

#[test]
fn form_content_starts_behind_the_last_closing_div() {
    let html = "<html><form id=\"pwdFromId\"><div>x</div><input a></form><p></form>";
    let r = find_form_content(&["id=\"pwdLoginDiv\"", "id=\"pwdFromId\""], html);
    assert_eq!(r.unwrap(), "<input a>");
}

#[test]
fn the_marker_later_in_the_list_wins() {
    let html = "<a id=\"two\"></div>SECOND</form> <b id=\"one\"></div>FIRST</form>";
    assert_eq!(find_form_content(&["id=\"one\"", "id=\"two\""], html).unwrap(), "SECOND");
    assert_eq!(find_form_content(&["id=\"two\"", "id=\"one\""], html).unwrap(), "FIRST");
    assert_eq!(find_form_content(&["id=\"two\"", "id=\"none\""], html).unwrap(), "SECOND");
}

#[test]
fn form_content_runs_to_the_end_without_a_closing_form() {
    let html = "xx MARK </div> tail without end";
    assert_eq!(find_form_content(&["MARK"], html).unwrap(), " tail without end");
}

#[test]
fn form_content_skips_the_length_of_the_tag_without_a_closing_div() {
    let html = "0123MARKER-rest</form>";
    assert_eq!(find_form_content(&["MARKER"], html).unwrap(), "-rest");
}

#[test]
fn form_content_needs_a_marker() {
    let r = find_form_content(&["id=\"a\"", "id=\"b\""], "<form></div></form>");
    assert_eq!(server_message(r), "登录页缺少表单内容");
    let r = find_form_content(&[], "<form></div></form>");
    assert_eq!(server_message(r), "登录页缺少表单内容");
}

#[test]
fn form_content_rejects_a_region_shorter_than_the_skip() {
    let r = find_form_content(&["ab"], "xxab</form>");
    assert_eq!(server_message(r), "登录页缺少表单内容");
    let r = find_form_content(&["a"], "a登录</form>");
    assert_eq!(server_message(r), "登录页缺少表单内容");
    assert_eq!(find_form_content(&["登录"], "登录</form>").unwrap(), "");
    assert_eq!(find_form_content(&["登"], "登录x</form>").unwrap(), "x");
}

#[test]
fn id_value_pair_prefers_the_earlier_attribute() {
    let input = "id=\"a\" name=\"b\" value=\"c\"";
    assert_eq!(find_id_value_pair(&["id=\"", "name=\""], input).unwrap(), ("a", "c"));
    assert_eq!(find_id_value_pair(&["name=\"", "id=\""], input).unwrap(), ("b", "c"));
    let swapped = "type=\"hidden\" name=\"ltname\" id=\"lt\" value=\"LT-1\"/>";
    assert_eq!(find_id_value_pair(&["id=\"", "name=\""], swapped).unwrap(), ("lt", "LT-1"));
    assert_eq!(find_id_value_pair(&["name=\"", "id=\""], swapped).unwrap(), ("ltname", "LT-1"));
}

#[test]
fn id_value_pair_falls_back_to_the_next_attribute() {
    let only_name = "type=\"text\" name=\"b\" value=\"c\"";
    assert_eq!(find_id_value_pair(&["id=\"", "name=\""], only_name).unwrap(), ("b", "c"));
    let only_id = "id=\"only\" value=\"v\"";
    assert_eq!(find_id_value_pair(&["id=\"", "name=\""], only_id).unwrap(), ("only", "v"));
    assert_eq!(find_id_value_pair(&["id=\""], only_id).unwrap(), ("only", "v"));
    assert!(find_id_value_pair(&["id=\""], only_name).is_err());
    assert!(find_id_value_pair(&[], only_id).is_err());
    let open = "id=\"a name=b value=c";
    assert!(find_id_value_pair(&["id=\"", "name=\""], open).is_err());
}

#[test]
fn id_value_pair_needs_both_parts() {
    for input in ["type=\"text\" value=\"v\"", "id=\"a\"", "id=\"a value=", "id=\"a\" value=\"v"] {
        match find_id_value_pair(&["id=\"", "name=\""], input) {
            Err(LoginError::ServerError(why)) => assert_eq!(why, "登录页缺少内容"),
            other => panic!("{:?}", other),
        }
    }
}

#[test]
fn scan_passes_over_fragments_without_a_field() {
    let region = "<p>intro</p><input class=\"decor\"><input id=\"a\" value=\" 1 \"/>\
        <input name=\"b\" value=\"2\"><input name=\"n\" id=\"i\" value=\"3\">\
        <input type=\"submit\">";
    let fields = scan_input_fields(&["id=\"", "name=\""], region);
    assert_eq!(fields, vec![("a", " 1 "), ("b", "2"), ("i", "3")]);
    assert!(scan_input_fields(&["id=\""], "").is_empty());
}

#[test]
fn id_hash_is_the_argument_of_updateseccode() {
    assert_eq!(find_id_hash("x updateseccode('cS7') y updateseccode('zz')"), Some("cS7"));
    assert_eq!(find_id_hash("x updateseccode('') y"), Some(""));
    assert_eq!(find_id_hash("x updateseccode('cS7"), None);
    assert_eq!(find_id_hash("nothing here"), None);
}

#[test]
fn vcode_img_url_is_the_last_src_behind_the_marker() {
    let html = "<img src=\"early.png\"><span id=\"vseccode_cS7\"><img src=\"a.png\">\
        <img src=\"misc.php?mod=seccode&update=1\" class=\"vm\"></span>";
    assert_eq!(find_vcode_img_url("cS7", html).unwrap(), "misc.php?mod=seccode&update=1");
    for (hash, page) in [("cS8", html), ("cS7", "vseccode_cS7 no image"), ("cS7", "vseccode_cS7 src=\"open")] {
        match find_vcode_img_url(hash, page) {
            Err(LoginError::CaptchaError(CaptchaError::Canceled(why))) => {
                assert_eq!(why, "未找到验证码图片，跳过下载。")
            }
            other => panic!("{:?}", other),
        }
    }
}

#[test]
fn login_hash_runs_to_the_quote_or_is_five_bytes_long() {
    let html = "<form action=\"member.php?mod=logging&amp;loginhash=LxYz1\" id=\"f\">";
    let range = find_login_hash(html).unwrap();
    assert_eq!(&html[range.clone()], "LxYz1");
    assert_eq!(
        find_login_url(range, html).unwrap(),
        "member.php?mod=logging&amp;loginhash=LxYz1"
    );
    let open = "a loginhash=abcdefgh";
    let range = find_login_hash(open).unwrap();
    assert_eq!(&open[range], "abcde");
    let long = "a loginhash=abcdefgh\" b";
    let range = find_login_hash(long).unwrap();
    assert_eq!(&long[range], "abcdefgh");
    for page in ["a loginhash=abcd", "no hash"] {
        match find_login_hash(page) {
            Err(LoginError::ServerError(why)) => assert_eq!(why, "未找到 `login_hash`."),
            other => panic!("{:?}", other),
        }
    }
}

#[test]
fn login_url_needs_an_action_before_the_hash() {
    let html = "<form id=\"f\" loginhash=LxYz1\" action=\"late\">";
    let range = find_login_hash(html).unwrap();
    assert_eq!(server_message(find_login_url(range, html)), "未找到登录地址。");
    assert_eq!(server_message(find_login_url(0..400, html)), "未找到登录地址。");
    assert_eq!(server_message(find_login_url(0..1, "登 action=\"")), "未找到登录地址。");
}

#[test]
fn split_and_replace_agree_with_the_standard_library() {
    for text in ["", "<input ", "a<input b<input c", "<input <input ", "no separator", "<input", "登<input 录"] {
        let expected: Vec<&str> = text.split("<input ").collect();
        assert_eq!(split(text, "<input "), expected);
    }
    for text in ["", "a&amp;b&amp;c", "&amp;&amp;", "&amp", "plain", "登&amp;录"] {
        assert_eq!(replace(text, "&amp;", "&"), text.replace("&amp;", "&"));
    }
    assert_eq!(replace("aaa", "aa", "b"), "ba");
}

#[test]
fn decimal_writes_numbers_as_the_standard_library_does() {
    for n in [0u128, 7, 10, 99, 100, 2_592_000, 1_700_000_000_123, u128::MAX] {
        assert_eq!(decimal(n), n.to_string());
    }
}
