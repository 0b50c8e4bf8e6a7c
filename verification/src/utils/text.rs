//! Building and reshaping text: numbers in decimal, trimming, splitting and
//! replacing.
use crate::utils::search::{byte_len, find_str, first_occurrence, str_from, str_to};
use vstd::prelude::*;
use vstd::string::{StringExecFns, StringSliceAdditionalSpecFns};
use vstd::utf8::{decode_utf8, encode_scalar, encode_utf8, encode_utf8_decode_utf8};

verus! {

/// Text laid end to end is encoded piece by piece.
pub proof fn lemma_encode_concat(a: Seq<char>, b: Seq<char>)
    ensures
        encode_utf8(a + b) == encode_utf8(a) + encode_utf8(b),
    decreases a.len(),
{
    if a.len() == 0 {
        assert(a + b =~= b);
        assert(encode_utf8(a) + encode_utf8(b) =~= encode_utf8(b));
    } else {
        assert((a + b).drop_first() =~= a.drop_first() + b);
        lemma_encode_concat(a.drop_first(), b);
        assert(encode_utf8(a + b) =~= encode_utf8(a) + encode_utf8(b));
    }
}

/// A text has at least as many bytes as it has characters.
pub proof fn lemma_encode_not_shorter(text: Seq<char>)
    ensures
        encode_utf8(text).len() >= text.len(),
    decreases text.len(),
{
    if text.len() > 0 {
        lemma_encode_not_shorter(text.drop_first());
        assert(encode_scalar(text[0] as u32).len() >= 1);
    }
}

/// The character of a decimal digit.
pub open spec fn digit_char(d: int) -> char {
    (0x30 + d) as char
}

/// `n` in decimal, without leading zeros.
pub open spec fn decimal_digits(n: nat) -> Seq<char>
    decreases n,
{
    if n < 10 {
        seq![digit_char(n as int)]
    } else {
        decimal_digits(n / 10).push(digit_char((n % 10) as int))
    }
}

fn digit_text(d: u8) -> (text: &'static str)
    requires
        d < 10,
    ensures
        text@ == seq![digit_char(d as int)],
{
    proof {
        reveal_strlit("0");
        reveal_strlit("1");
        reveal_strlit("2");
        reveal_strlit("3");
        reveal_strlit("4");
        reveal_strlit("5");
        reveal_strlit("6");
        reveal_strlit("7");
        reveal_strlit("8");
        reveal_strlit("9");
    }
    let text = if d == 0 {
        "0"
    } else if d == 1 {
        "1"
    } else if d == 2 {
        "2"
    } else if d == 3 {
        "3"
    } else if d == 4 {
        "4"
    } else if d == 5 {
        "5"
    } else if d == 6 {
        "6"
    } else if d == 7 {
        "7"
    } else if d == 8 {
        "8"
    } else {
        "9"
    };
    assert(text@ =~= seq![digit_char(d as int)]);
    text
}

/// Appends `n` in decimal to `out`.
pub fn push_decimal(out: &mut String, n: u128)
    ensures
        final(out)@ == old(out)@ + decimal_digits(n as nat),
    decreases n,
{
    if n >= 10 {
        push_decimal(out, n / 10);
    }
    out.append(digit_text((n % 10) as u8));
    proof {
        let d = seq![digit_char((n % 10) as int)];
        if n >= 10 {
            assert(old(out)@ + decimal_digits((n / 10) as nat) + d =~= old(out)@
                + decimal_digits((n / 10) as nat).push(digit_char((n % 10) as int)));
        }
    }
}

/// `n` in decimal.
pub fn decimal(n: u128) -> (text: String)
    ensures
        text@ == decimal_digits(n as nat),
{
    let mut text = String::new();
    push_decimal(&mut text, n);
    assert(Seq::<char>::empty() + decimal_digits(n as nat) =~= decimal_digits(n as nat));
    text
}

/// The characters that count as white space: those with the Unicode property
/// `White_Space`.
pub open spec fn is_white_space(c: char) -> bool {
    ||| 0x09 <= c as u32 <= 0x0d
    ||| c as u32 == 0x20
    ||| c as u32 == 0x85
    ||| c as u32 == 0xa0
    ||| c as u32 == 0x1680
    ||| 0x2000 <= c as u32 <= 0x200a
    ||| c as u32 == 0x2028
    ||| c as u32 == 0x2029
    ||| c as u32 == 0x202f
    ||| c as u32 == 0x205f
    ||| c as u32 == 0x3000
}

/// `text` without the white space at its two ends.
pub open spec fn trimmed(text: Seq<char>) -> Seq<char>
    decreases text.len(),
{
    if text.len() > 0 && is_white_space(text.first()) {
        trimmed(text.drop_first())
    } else if text.len() > 0 && is_white_space(text.last()) {
        trimmed(text.drop_last())
    } else {
        text
    }
}

/// `str::trim` of the standard library, which takes leading and trailing
/// white space off, white space being what the Unicode property `White_Space`
/// names.
pub assume_specification[ str::trim ](text: &str) -> (r: &str)
    ensures
        r@ == trimmed(text@),
;

/// The pieces that `text` falls into when cut at every occurrence of `sep`,
/// found from left to right. There is always at least one piece.
pub open spec fn split_on(text: Seq<u8>, sep: Seq<u8>) -> Seq<Seq<u8>>
    decreases text.len(),
{
    match first_occurrence(text, sep) {
        Some(at) => if sep.len() > 0 && 0 <= at && at + sep.len() <= text.len() {
            seq![text.subrange(0, at)] + split_on(
                text.subrange(at + sep.len(), text.len() as int),
                sep,
            )
        } else {
            seq![text]
        },
        None => seq![text],
    }
}

/// `text` with every occurrence of `from`, found from left to right, replaced
/// by `to`.
pub open spec fn replaced(text: Seq<u8>, from: Seq<u8>, to: Seq<u8>) -> Seq<u8>
    decreases text.len(),
{
    match first_occurrence(text, from) {
        Some(at) => if from.len() > 0 && 0 <= at && at + from.len() <= text.len() {
            text.subrange(0, at) + to + replaced(
                text.subrange(at + from.len(), text.len() as int),
                from,
                to,
            )
        } else {
            text
        },
        None => text,
    }
}

/// The bytes of each piece of a list.
pub open spec fn pieces_bytes(pieces: Seq<&str>) -> Seq<Seq<u8>> {
    Seq::new(pieces.len(), |i: int| pieces[i].spec_bytes())
}

/// Cuts `text` at every occurrence of `sep`.
pub fn split<'a>(text: &'a str, sep: &str) -> (pieces: Vec<&'a str>)
    requires
        sep.spec_bytes().len() > 0,
    ensures
        pieces_bytes(pieces@) == split_on(text.spec_bytes(), sep.spec_bytes()),
{
    let mut pieces: Vec<&'a str> = Vec::new();
    let mut rest: &'a str = text;
    let sep_len = byte_len(sep);
    loop
        invariant
            sep_len == sep.spec_bytes().len(),
            sep_len > 0,
            pieces_bytes(pieces@) + split_on(rest.spec_bytes(), sep.spec_bytes()) == split_on(
                text.spec_bytes(),
                sep.spec_bytes(),
            ),
        decreases rest.spec_bytes().len(),
    {
        match find_str(rest, sep) {
            Some(at) => {
                let piece = str_to(rest, at);
                let next = str_from(rest, at + sep_len);
                proof {
                    assert(pieces_bytes(pieces@.push(piece)) =~= pieces_bytes(pieces@) + seq![
                        piece.spec_bytes(),
                    ]);
                }
                pieces.push(piece);
                rest = next;
            },
            None => {
                proof {
                    assert(pieces_bytes(pieces@.push(rest)) =~= pieces_bytes(pieces@) + seq![
                        rest.spec_bytes(),
                    ]);
                }
                pieces.push(rest);
                return pieces;
            },
        }
    }
}

/// Replaces every occurrence of `from` in `text` by `to`.
pub fn replace(text: &str, from: &str, to: &str) -> (r: String)
    requires
        from.spec_bytes().len() > 0,
    ensures
        encode_utf8(r@) == replaced(text.spec_bytes(), from.spec_bytes(), to.spec_bytes()),
{
    let mut out = String::new();
    let mut rest: &str = text;
    let from_len = byte_len(from);
    loop
        invariant
            from_len == from.spec_bytes().len(),
            from_len > 0,
            encode_utf8(out@) + replaced(rest.spec_bytes(), from.spec_bytes(), to.spec_bytes())
                == replaced(text.spec_bytes(), from.spec_bytes(), to.spec_bytes()),
        decreases rest.spec_bytes().len(),
    {
        match find_str(rest, from) {
            Some(at) => {
                let piece = str_to(rest, at);
                let next = str_from(rest, at + from_len);
                proof {
                    lemma_encode_concat(out@, piece@);
                    lemma_encode_concat(out@ + piece@, to@);
                }
                out.append(piece);
                out.append(to);
                rest = next;
            },
            None => {
                proof {
                    lemma_encode_concat(out@, rest@);
                }
                out.append(rest);
                return out;
            },
        }
    }
}

/// The text that well-formed bytes spell.
pub proof fn lemma_chars_of(text: &str)
    ensures
        decode_utf8(text.spec_bytes()) == text@,
{
    encode_utf8_decode_utf8(text@);
}

} // verus!
