//! Locating form regions, input fields and tokens in a scraped page by
//! substring search. No HTML is parsed: everything rests on the order of the
//! markers and on the offsets at which the text is cut.
use crate::error::{CaptchaError, CaptchaErrorView, LoginError, LoginErrorView};
use crate::utils::search::{
    after_first, after_last, before_first, byte_len, find_str, first_occurrence, last_occurrence,
    rfind_str, str_after_first, str_after_last, str_before_first, str_from, str_to,
};
use crate::utils::text::{pieces_bytes, split, split_on};
use std::ops::Range;
use vstd::prelude::*;
use vstd::string::{StringExecFns, StringSliceAdditionalSpecFns};
use vstd::utf8::{encode_utf8, is_char_boundary};

verus! {

/// The bytes of each text of a list.
pub open spec fn bytes_of(texts: Seq<&str>) -> Seq<Seq<u8>> {
    Seq::new(texts.len(), |i: int| texts[i].spec_bytes())
}

/// Where the marker that counts begins in `text`: of the markers that occur
/// at all, the one that stands last in the list wins, and its leftmost
/// occurrence is taken.
pub open spec fn marker_start(markers: Seq<Seq<u8>>, text: Seq<u8>) -> Option<int>
    decreases markers.len(),
{
    if markers.len() == 0 {
        None
    } else {
        match first_occurrence(text, markers.last()) {
            Some(at) => Some(at),
            None => marker_start(markers.drop_last(), text),
        }
    }
}

/// Where the attribute that names a field ends in `text`: of the markers
/// that occur at all, the one that stands first in the list counts, the
/// later ones being fallbacks, and the end of its leftmost occurrence is
/// taken.
pub open spec fn first_marker_end(markers: Seq<Seq<u8>>, text: Seq<u8>) -> Option<int>
    decreases markers.len(),
{
    if markers.len() == 0 {
        None
    } else {
        match first_occurrence(text, markers.first()) {
            Some(at) => Some(at + markers.first().len()),
            None => first_marker_end(markers.drop_first(), text),
        }
    }
}

/// The content of the form that `markers` point at.
///
/// The region runs from the marker to the next `</form>`, or to the end of the
/// page. Of that region, what follows the last `</div>` is the content; where
/// the region holds no `</div>`, the length of that tag is skipped all the
/// same. There is no content where no marker occurs, or where the skip leaves
/// the region or would split a character.
pub open spec fn form_content(markers: Seq<Seq<u8>>, html: Seq<u8>) -> Option<Seq<u8>> {
    match marker_start(markers, html) {
        None => None,
        Some(begin) => {
            let tail = html.subrange(begin, html.len() as int);
            let form = match before_first(tail, "</form>".spec_bytes()) {
                Some(form) => form,
                None => tail,
            };
            let skip = "</div>".spec_bytes().len();
            let cut = match last_occurrence(form, "</div>".spec_bytes()) {
                Some(div) => div + skip,
                None => skip as int,
            };
            if is_char_boundary(form, cut) {
                Some(form.subrange(cut, form.len() as int))
            } else {
                None
            }
        },
    }
}

/// The identifier and the value of one `<input>` fragment.
///
/// The identifier is what stands between the end of the first marker of the
/// list that occurs (see [`first_marker_end`]) and the next `"`; the value is
/// what stands between the first `value="` and the next `"`. A fragment that
/// lacks either has no field.
pub open spec fn input_field(markers: Seq<Seq<u8>>, input: Seq<u8>) -> Option<
    (Seq<u8>, Seq<u8>),
> {
    match first_marker_end(markers, input) {
        None => None,
        Some(begin) => match before_first(
            input.subrange(begin, input.len() as int),
            "\"".spec_bytes(),
        ) {
            None => None,
            Some(id) => match after_first(input, "value=\"".spec_bytes()) {
                None => None,
                Some(rest) => match before_first(rest, "\"".spec_bytes()) {
                    None => None,
                    Some(value) => Some((id, value)),
                },
            },
        },
    }
}

/// The argument of the first `updateseccode('...')` call on the page.
pub open spec fn id_hash_of(html: Seq<u8>) -> Option<Seq<u8>> {
    match after_first(html, "updateseccode('".spec_bytes()) {
        None => None,
        Some(rest) => before_first(rest, "'".spec_bytes()),
    }
}

/// The text that names the captcha image of `id_hash`.
pub open spec fn vcode_marker(id_hash: Seq<char>) -> Seq<u8> {
    encode_utf8("vseccode_"@ + id_hash)
}

/// The address of the captcha image: from the element named after `id_hash`
/// on, what stands between the last `src="` and the `"` that follows it.
pub open spec fn vcode_img_url(id_hash: Seq<char>, html: Seq<u8>) -> Option<Seq<u8>> {
    match first_occurrence(html, vcode_marker(id_hash)) {
        None => None,
        Some(at) => match after_last(html.subrange(at, html.len() as int), "src=\"".spec_bytes()) {
            None => None,
            Some(rest) => before_first(rest, "\"".spec_bytes()),
        },
    }
}

/// The byte range of the login hash: it begins behind the first `loginhash=`
/// and runs to the next `"`. Where no `"` follows, it is five bytes long,
/// provided that many are left.
pub open spec fn login_hash_range(html: Seq<u8>) -> Option<(int, int)> {
    match first_occurrence(html, "loginhash=".spec_bytes()) {
        None => None,
        Some(at) => {
            let start = at + "loginhash=".spec_bytes().len();
            match first_occurrence(html.subrange(start, html.len() as int), "\"".spec_bytes()) {
                Some(len) => Some((start, start + len)),
                None => if html.len() - start >= 5 {
                    Some((start, start + 5))
                } else {
                    None
                },
            }
        },
    }
}

/// The address the login form posts to: of the page up to byte `end`, what
/// follows the last `action="`. There is none where `end` lies outside the
/// page or would split a character.
pub open spec fn login_url(end: int, html: Seq<u8>) -> Option<Seq<u8>> {
    if is_char_boundary(html, end) {
        after_last(html.subrange(0, end), "action=\"".spec_bytes())
    } else {
        None
    }
}

proof fn lemma_marker_step(markers: Seq<Seq<u8>>, n: int)
    requires
        0 <= n < markers.len(),
    ensures
        markers.take(n + 1).last() == markers[n],
        markers.take(n + 1).drop_last() == markers.take(n),
{
    assert(markers.take(n + 1).drop_last() =~= markers.take(n));
}

/// Byte offset in `text` at which the marker that counts begins: see
/// [`marker_start`].
fn find_marker(ident: &[&str], text: &str) -> (r: Option<usize>)
    ensures
        match r {
            Some(start) => {
                &&& marker_start(bytes_of(ident@), text.spec_bytes()) == Some(start as int)
                &&& is_char_boundary(text.spec_bytes(), start as int)
            },
            None => marker_start(bytes_of(ident@), text.spec_bytes()) is None,
        },
{
    let ghost markers = bytes_of(ident@);
    let mut found: Option<usize> = None;
    let mut i: usize = 0;
    while i < ident.len()
        invariant
            i <= ident.len(),
            markers == bytes_of(ident@),
            match found {
                Some(start) => {
                    &&& marker_start(markers.take(i as int), text.spec_bytes()) == Some(
                        start as int,
                    )
                    &&& is_char_boundary(text.spec_bytes(), start as int)
                },
                None => marker_start(markers.take(i as int), text.spec_bytes()) is None,
            },
        decreases ident.len() - i,
    {
        let marker: &str = ident[i];
        proof {
            lemma_marker_step(markers, i as int);
        }
        match find_str(text, marker) {
            Some(at) => {
                found = Some(at);
            },
            None => {},
        }
        i += 1;
    }
    proof {
        assert(markers.take(i as int) =~= markers);
    }
    found
}

/// Byte offset in `text` at which the first marker of the list that occurs
/// ends: see [`first_marker_end`].
fn find_first_marker_end(ident: &[&str], text: &str) -> (r: Option<usize>)
    ensures
        match r {
            Some(end) => {
                &&& first_marker_end(bytes_of(ident@), text.spec_bytes()) == Some(end as int)
                &&& is_char_boundary(text.spec_bytes(), end as int)
            },
            None => first_marker_end(bytes_of(ident@), text.spec_bytes()) is None,
        },
{
    let ghost markers = bytes_of(ident@);
    let mut i: usize = 0;
    proof {
        assert(markers.skip(0) =~= markers);
    }
    while i < ident.len()
        invariant
            i <= ident.len(),
            markers == bytes_of(ident@),
            first_marker_end(markers, text.spec_bytes()) == first_marker_end(
                markers.skip(i as int),
                text.spec_bytes(),
            ),
        decreases ident.len() - i,
    {
        let marker: &str = ident[i];
        proof {
            assert(markers.skip(i as int).first() == marker.spec_bytes());
            assert(markers.skip(i as int).drop_first() =~= markers.skip(i + 1));
        }
        match find_str(text, marker) {
            Some(at) => {
                return Some(at + byte_len(marker));
            },
            None => {},
        }
        i += 1;
    }
    proof {
        assert(markers.skip(i as int).len() == 0);
    }
    None
}

/// Finds the content of the wanted form in a page.
///
/// `ident` lists markers in rising order of preference: see [`form_content`].
pub fn find_form_content<'a>(ident: &[&str], html: &'a str) -> (r: Result<&'a str, LoginError>)
    ensures
        match r {
            Ok(content) => form_content(bytes_of(ident@), html.spec_bytes()) == Some(
                content.spec_bytes(),
            ),
            Err(e) => {
                &&& form_content(bytes_of(ident@), html.spec_bytes()) is None
                &&& e@ == LoginErrorView::ServerError("登录页缺少表单内容"@)
            },
        },
{
    let begin = match find_marker(ident, html) {
        Some(start) => start,
        None => {
            return Err(LoginError::server("登录页缺少表单内容"));
        },
    };
    let tail = str_from(html, begin);
    let form = match str_before_first(tail, "</form>") {
        Some(form) => form,
        None => tail,
    };
    let skip = byte_len("</div>");
    let cut = match rfind_str(form, "</div>") {
        Some(div) => div + skip,
        None => skip,
    };
    if form.is_char_boundary(cut) {
        Ok(str_from(form, cut))
    } else {
        Err(LoginError::server("登录页缺少表单内容"))
    }
}

fn find_id_value_pair_internal<'a>(ident: &[&str], input: &'a str) -> (r: Option<
    (&'a str, &'a str),
>)
    ensures
        match r {
            Some((id, value)) => input_field(bytes_of(ident@), input.spec_bytes()) == Some(
                (id.spec_bytes(), value.spec_bytes()),
            ),
            None => input_field(bytes_of(ident@), input.spec_bytes()) is None,
        },
{
    let id_begin = match find_first_marker_end(ident, input) {
        Some(end) => end,
        None => {
            return None;
        },
    };
    let id = match str_before_first(str_from(input, id_begin), "\"") {
        Some(id) => id,
        None => {
            return None;
        },
    };
    let rest = match str_after_first(input, "value=\"") {
        Some(rest) => rest,
        None => {
            return None;
        },
    };
    match str_before_first(rest, "\"") {
        Some(value) => Some((id, value)),
        None => None,
    }
}

/// Reads the identifier and the value of one `<input>` fragment.
///
/// `ident` lists the attributes that may hold the identifier, the preferred
/// one first and each later one as the fallback for those before it: see
/// [`input_field`].
pub fn find_id_value_pair<'a>(ident: &[&str], input: &'a str) -> (r: Result<
    (&'a str, &'a str),
    LoginError,
>)
    ensures
        match r {
            Ok((id, value)) => input_field(bytes_of(ident@), input.spec_bytes()) == Some(
                (id.spec_bytes(), value.spec_bytes()),
            ),
            Err(e) => {
                &&& input_field(bytes_of(ident@), input.spec_bytes()) is None
                &&& e@ == LoginErrorView::ServerError("登录页缺少内容"@)
            },
        },
{
    match find_id_value_pair_internal(ident, input) {
        Some(pair) => Ok(pair),
        None => Err(LoginError::server("登录页缺少内容")),
    }
}

/// Finds the hash that the page hands to `updateseccode`; the captcha is
/// requested under it.
pub fn find_id_hash(html: &str) -> (r: Option<&str>)
    ensures
        match r {
            Some(id_hash) => id_hash_of(html.spec_bytes()) == Some(id_hash.spec_bytes()),
            None => id_hash_of(html.spec_bytes()) is None,
        },
{
    match str_after_first(html, "updateseccode('") {
        Some(rest) => str_before_first(rest, "'"),
        None => None,
    }
}

fn find_vcode_img_url_internal<'a>(id_hash: &str, html: &'a str) -> (r: Option<&'a str>)
    ensures
        match r {
            Some(url) => vcode_img_url(id_hash@, html.spec_bytes()) == Some(url.spec_bytes()),
            None => vcode_img_url(id_hash@, html.spec_bytes()) is None,
        },
{
    let marker = String::from_str("vseccode_").concat(id_hash);
    let at = match find_str(html, marker.as_str()) {
        Some(at) => at,
        None => {
            return None;
        },
    };
    match str_after_last(str_from(html, at), "src=\"") {
        Some(rest) => str_before_first(rest, "\""),
        None => None,
    }
}

/// Finds the address of the captcha image in the answer to a captcha update:
/// see [`vcode_img_url`]. A page without the image is reported as a
/// cancellation.
pub fn find_vcode_img_url<'a>(id_hash: &str, html: &'a str) -> (r: Result<&'a str, LoginError>)
    ensures
        match r {
            Ok(url) => vcode_img_url(id_hash@, html.spec_bytes()) == Some(url.spec_bytes()),
            Err(e) => {
                &&& vcode_img_url(id_hash@, html.spec_bytes()) is None
                &&& e@ == LoginErrorView::CaptchaError(
                    CaptchaErrorView::Canceled("未找到验证码图片，跳过下载。"@),
                )
            },
        },
{
    match find_vcode_img_url_internal(id_hash, html) {
        Some(url) => Ok(url),
        None => Err(
            LoginError::CaptchaError(
                CaptchaError::Canceled(String::from_str("未找到验证码图片，跳过下载。")),
            ),
        ),
    }
}

fn find_login_hash_internal(html: &str) -> (r: Option<Range<usize>>)
    ensures
        match r {
            Some(range) => {
                &&& login_hash_range(html.spec_bytes()) == Some(
                    (range.start as int, range.end as int),
                )
                &&& range.start <= range.end <= html.spec_bytes().len()
                &&& is_char_boundary(html.spec_bytes(), range.start as int)
            },
            None => login_hash_range(html.spec_bytes()) is None,
        },
{
    let start = match find_str(html, "loginhash=") {
        Some(at) => at + byte_len("loginhash="),
        None => {
            return None;
        },
    };
    let rest = str_from(html, start);
    match find_str(rest, "\"") {
        Some(len) => Some(start..start + len),
        None => if byte_len(rest) >= 5 {
            Some(start..start + 5)
        } else {
            None
        },
    }
}

/// Finds the byte range of the login hash, which names the login form: see
/// [`login_hash_range`].
pub fn find_login_hash(html: &str) -> (r: Result<Range<usize>, LoginError>)
    ensures
        match r {
            Ok(range) => {
                &&& login_hash_range(html.spec_bytes()) == Some(
                    (range.start as int, range.end as int),
                )
                &&& range.start <= range.end <= html.spec_bytes().len()
                &&& is_char_boundary(html.spec_bytes(), range.start as int)
            },
            Err(e) => {
                &&& login_hash_range(html.spec_bytes()) is None
                &&& e@ == LoginErrorView::ServerError("未找到 `login_hash`."@)
            },
        },
{
    match find_login_hash_internal(html) {
        Some(range) => Ok(range),
        None => Err(LoginError::server("未找到 `login_hash`.")),
    }
}

fn find_login_url_internal(login_hash_range: Range<usize>, html: &str) -> (r: Option<&str>)
    ensures
        match r {
            Some(url) => login_url(login_hash_range.end as int, html.spec_bytes()) == Some(
                url.spec_bytes(),
            ),
            None => login_url(login_hash_range.end as int, html.spec_bytes()) is None,
        },
{
    if !html.is_char_boundary(login_hash_range.end) {
        return None;
    }
    str_after_last(str_to(html, login_hash_range.end), "action=\"")
}

/// Finds the address that the login form posts to. The login hash is part of
/// that address, so the search ends where the hash ends: see [`login_url`].
pub fn find_login_url(login_hash_range: Range<usize>, html: &str) -> (r: Result<&str, LoginError>)
    ensures
        match r {
            Ok(url) => login_url(login_hash_range.end as int, html.spec_bytes()) == Some(
                url.spec_bytes(),
            ),
            Err(e) => {
                &&& login_url(login_hash_range.end as int, html.spec_bytes()) is None
                &&& e@ == LoginErrorView::ServerError("未找到登录地址。"@)
            },
        },
{
    match find_login_url_internal(login_hash_range, html) {
        Some(url) => Ok(url),
        None => Err(LoginError::server("未找到登录地址。")),
    }
}

/// The bytes of each pair of a list.
pub open spec fn fields_bytes(fields: Seq<(&str, &str)>) -> Seq<(Seq<u8>, Seq<u8>)> {
    Seq::new(fields.len(), |i: int| (fields[i].0.spec_bytes(), fields[i].1.spec_bytes()))
}

/// The fields of a list of `<input>` fragments, in the order of the
/// fragments. A fragment without a field (see [`input_field`]) is passed over.
pub open spec fn scanned_fields(markers: Seq<Seq<u8>>, fragments: Seq<Seq<u8>>) -> Seq<
    (Seq<u8>, Seq<u8>),
>
    decreases fragments.len(),
{
    if fragments.len() == 0 {
        Seq::empty()
    } else {
        let before = scanned_fields(markers, fragments.drop_last());
        match input_field(markers, fragments.last()) {
            Some(field) => before.push(field),
            None => before,
        }
    }
}

/// The input fields of `region`: the region is cut at every `<input `, and
/// each piece is read as [`input_field`] says.
pub open spec fn input_fields(markers: Seq<Seq<u8>>, region: Seq<u8>) -> Seq<(Seq<u8>, Seq<u8>)> {
    scanned_fields(markers, split_on(region, "<input ".spec_bytes()))
}

/// Reads the input fields of `region`, passing over the pieces that hold
/// none. `ident` lists the attributes that may hold the identifier, in rising
/// order of preference.
pub fn scan_input_fields<'a>(ident: &[&str], region: &'a str) -> (fields: Vec<(&'a str, &'a str)>)
    ensures
        fields_bytes(fields@) == input_fields(bytes_of(ident@), region.spec_bytes()),
{
    proof {
        reveal_strlit("<input ");
        vstd::utf8::is_ascii_chars_encode_utf8("<input "@);
    }
    let fragments = split(region, "<input ");
    let ghost pieces = pieces_bytes(fragments@);
    let mut fields: Vec<(&'a str, &'a str)> = Vec::new();
    let mut i: usize = 0;
    while i < fragments.len()
        invariant
            i <= fragments@.len(),
            pieces == pieces_bytes(fragments@),
            fields_bytes(fields@) == scanned_fields(bytes_of(ident@), pieces.take(i as int)),
        decreases fragments@.len() - i,
    {
        proof {
            assert(pieces.take(i + 1).drop_last() =~= pieces.take(i as int));
            assert(pieces.take(i + 1).last() == fragments@[i as int].spec_bytes());
        }
        match find_id_value_pair_internal(ident, fragments[i]) {
            Some(field) => {
                proof {
                    assert(fields_bytes(fields@.push(field)) =~= fields_bytes(fields@).push(
                        (field.0.spec_bytes(), field.1.spec_bytes()),
                    ));
                }
                fields.push(field);
            },
            None => {},
        }
        i += 1;
    }
    proof {
        assert(pieces.take(i as int) =~= pieces);
    }
    fields
}

} // verus!
