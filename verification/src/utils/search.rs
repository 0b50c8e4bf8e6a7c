//! Substring search over byte sequences, and the facts that let positions found
//! that way be used to cut a `&str`.
use vstd::prelude::*;
use vstd::string::StringSliceAdditionalSpecFns;
use vstd::utf8::*;

verus! {

/// `needle` lies in `hay` starting at offset `at`.
pub open spec fn occurs_at(hay: Seq<u8>, needle: Seq<u8>, at: int) -> bool {
    &&& 0 <= at
    &&& at + needle.len() <= hay.len()
    &&& hay.subrange(at, at + needle.len()) == needle
}

/// `at` is the smallest offset at which `needle` lies in `hay`.
pub open spec fn is_first_occurrence(hay: Seq<u8>, needle: Seq<u8>, at: int) -> bool {
    &&& occurs_at(hay, needle, at)
    &&& forall|j: int| 0 <= j < at ==> !occurs_at(hay, needle, j)
}

/// `at` is the largest offset at which `needle` lies in `hay`.
pub open spec fn is_last_occurrence(hay: Seq<u8>, needle: Seq<u8>, at: int) -> bool {
    &&& occurs_at(hay, needle, at)
    &&& forall|j: int| at < j ==> !occurs_at(hay, needle, j)
}

/// Offset of the leftmost occurrence of `needle` in `hay`, if it occurs at all.
pub open spec fn first_occurrence(hay: Seq<u8>, needle: Seq<u8>) -> Option<int> {
    if exists|i: int| occurs_at(hay, needle, i) {
        Some(choose|i: int| is_first_occurrence(hay, needle, i))
    } else {
        None
    }
}

/// Offset of the rightmost occurrence of `needle` in `hay`, if it occurs at all.
pub open spec fn last_occurrence(hay: Seq<u8>, needle: Seq<u8>) -> Option<int> {
    if exists|i: int| occurs_at(hay, needle, i) {
        Some(choose|i: int| is_last_occurrence(hay, needle, i))
    } else {
        None
    }
}

/// The leftmost occurrence is unique, so any offset that qualifies is the one
/// `first_occurrence` names.
pub proof fn lemma_first_occurrence_is(hay: Seq<u8>, needle: Seq<u8>, at: int)
    requires
        is_first_occurrence(hay, needle, at),
    ensures
        first_occurrence(hay, needle) == Some(at),
{
    let c = choose|i: int| is_first_occurrence(hay, needle, i);
    assert(is_first_occurrence(hay, needle, c));
    if c < at {
        assert(!occurs_at(hay, needle, c));
    }
    if at < c {
        assert(!occurs_at(hay, needle, at));
    }
}

/// The rightmost occurrence is unique as well.
pub proof fn lemma_last_occurrence_is(hay: Seq<u8>, needle: Seq<u8>, at: int)
    requires
        is_last_occurrence(hay, needle, at),
    ensures
        last_occurrence(hay, needle) == Some(at),
{
    let c = choose|i: int| is_last_occurrence(hay, needle, i);
    assert(is_last_occurrence(hay, needle, c));
    if c < at {
        assert(!occurs_at(hay, needle, at));
    }
    if at < c {
        assert(!occurs_at(hay, needle, c));
    }
}

/// When `first_occurrence` names an offset, that offset is the leftmost occurrence.
pub proof fn lemma_first_occurrence_some(hay: Seq<u8>, needle: Seq<u8>)
    requires
        first_occurrence(hay, needle) is Some,
    ensures
        is_first_occurrence(hay, needle, first_occurrence(hay, needle)->0),
{
    let w = choose|i: int| occurs_at(hay, needle, i);
    lemma_least_occurrence(hay, needle, w);
}

/// When `last_occurrence` names an offset, that offset is the rightmost occurrence.
pub proof fn lemma_last_occurrence_some(hay: Seq<u8>, needle: Seq<u8>)
    requires
        last_occurrence(hay, needle) is Some,
    ensures
        is_last_occurrence(hay, needle, last_occurrence(hay, needle)->0),
{
    let w = choose|i: int| occurs_at(hay, needle, i);
    lemma_greatest_occurrence(hay, needle, w);
}

proof fn lemma_least_occurrence(hay: Seq<u8>, needle: Seq<u8>, w: int)
    requires
        occurs_at(hay, needle, w),
    ensures
        exists|i: int| is_first_occurrence(hay, needle, i),
    decreases w,
{
    if exists|j: int| 0 <= j < w && occurs_at(hay, needle, j) {
        let j = choose|j: int| 0 <= j < w && occurs_at(hay, needle, j);
        lemma_least_occurrence(hay, needle, j);
    } else {
        assert(is_first_occurrence(hay, needle, w));
    }
}

proof fn lemma_greatest_occurrence(hay: Seq<u8>, needle: Seq<u8>, w: int)
    requires
        occurs_at(hay, needle, w),
    ensures
        exists|i: int| is_last_occurrence(hay, needle, i),
    decreases hay.len() - w,
{
    if exists|j: int| w < j && occurs_at(hay, needle, j) {
        let j = choose|j: int| w < j && occurs_at(hay, needle, j);
        lemma_greatest_occurrence(hay, needle, j);
    } else {
        assert(is_last_occurrence(hay, needle, w));
    }
}

/// Whether `needle` lies in `hay` at offset `at`.
pub fn matches_at(hay: &[u8], needle: &[u8], at: usize) -> (r: bool)
    ensures
        r == occurs_at(hay@, needle@, at as int),
{
    let n = needle.len();
    let h = hay.len();
    if at > h || n > h - at {
        return false;
    }
    let mut k: usize = 0;
    while k < n
        invariant
            k <= n,
            n == needle@.len(),
            h == hay@.len(),
            at + n <= h,
            forall|j: int| 0 <= j < k ==> hay@[at + j] == needle@[j],
        decreases n - k,
    {
        if hay[at + k] != needle[k] {
            assert(hay@.subrange(at as int, at + n)[k as int] != needle@[k as int]);
            return false;
        }
        k += 1;
    }
    assert(hay@.subrange(at as int, at + n) =~= needle@);
    true
}

/// Offset of the leftmost occurrence of `needle` in `hay`.
pub fn find(hay: &[u8], needle: &[u8]) -> (r: Option<usize>)
    ensures
        match r {
            Some(i) => first_occurrence(hay@, needle@) == Some(i as int),
            None => first_occurrence(hay@, needle@) is None,
        },
{
    let n = needle.len();
    let h = hay.len();
    if n > h {
        return None;
    }
    let last: usize = h - n;
    let mut i: usize = 0;
    loop
        invariant
            i <= last,
            last == h - n,
            n == needle@.len(),
            h == hay@.len(),
            forall|j: int| 0 <= j < i ==> !occurs_at(hay@, needle@, j),
        decreases last - i,
    {
        if matches_at(hay, needle, i) {
            proof {
                lemma_first_occurrence_is(hay@, needle@, i as int);
            }
            return Some(i);
        }
        if i == last {
            return None;
        }
        i += 1;
    }
}

/// Offset of the rightmost occurrence of `needle` in `hay`.
pub fn rfind(hay: &[u8], needle: &[u8]) -> (r: Option<usize>)
    ensures
        match r {
            Some(i) => last_occurrence(hay@, needle@) == Some(i as int),
            None => last_occurrence(hay@, needle@) is None,
        },
{
    let n = needle.len();
    let h = hay.len();
    if n > h {
        return None;
    }
    let mut i: usize = h - n;
    loop
        invariant
            i <= h - n,
            n == needle@.len(),
            h == hay@.len(),
            n <= h,
            forall|j: int| i < j ==> !occurs_at(hay@, needle@, j),
        decreases i,
    {
        if matches_at(hay, needle, i) {
            proof {
                lemma_last_occurrence_is(hay@, needle@, i as int);
            }
            return Some(i);
        }
        if i == 0 {
            return None;
        }
        i -= 1;
    }
}

/// Whether `needle` occurs anywhere in `hay`.
pub fn contains(hay: &[u8], needle: &[u8]) -> (r: bool)
    ensures
        r == (first_occurrence(hay@, needle@) is Some),
{
    find(hay, needle).is_some()
}

/// The text left of a character boundary, and the text from it on, are
/// themselves well-formed.
pub proof fn lemma_cut_is_valid(bytes: Seq<u8>, at: int)
    requires
        valid_utf8(bytes),
        is_char_boundary(bytes, at),
    ensures
        0 <= at <= bytes.len(),
        valid_utf8(bytes.subrange(0, at)),
        valid_utf8(bytes.subrange(at, bytes.len() as int)),
{
    valid_utf8_split(bytes, at);
}

/// If well-formed text `a` opens well-formed text `b`, then `a` ends on a
/// character boundary of `b`.
pub proof fn lemma_prefix_ends_on_boundary(a: Seq<u8>, b: Seq<u8>)
    requires
        valid_utf8(a),
        valid_utf8(b),
        a.len() <= b.len(),
        b.subrange(0, a.len() as int) == a,
    ensures
        is_char_boundary(b, a.len() as int),
    decreases a.len(),
{
    if a.len() != 0 {
        assert(a[0] == b.subrange(0, a.len() as int)[0]);
        let l = length_of_first_scalar(a);
        assert(l == length_of_first_scalar(b));
        assert(1 <= l <= a.len());
        let pa = pop_first_scalar(a);
        let pb = pop_first_scalar(b);
        assert(pb.subrange(0, pa.len() as int) =~= pa) by {
            assert forall|k: int| 0 <= k < pa.len() implies pb[k] == pa[k] by {
                assert(a[l + k] == b.subrange(0, a.len() as int)[l + k]);
            }
        }
        lemma_prefix_ends_on_boundary(pa, pb);
    }
}

/// A character boundary of the text that starts at a character boundary is a
/// character boundary of the whole text.
pub proof fn lemma_boundary_after_boundary(bytes: Seq<u8>, at: int, more: int)
    requires
        valid_utf8(bytes),
        is_char_boundary(bytes, at),
        is_char_boundary(bytes.subrange(at, bytes.len() as int), more),
    ensures
        is_char_boundary(bytes, at + more),
    decreases bytes.len(),
{
    lemma_cut_is_valid(bytes, at);
    let tail = bytes.subrange(at, bytes.len() as int);
    if at == 0 {
        assert(tail =~= bytes);
    } else {
        let l = length_of_first_scalar(bytes);
        let rest = pop_first_scalar(bytes);
        assert(at >= l) by {
            reveal_with_fuel(is_char_boundary, 2);
        }
        assert(rest.subrange(at - l, rest.len() as int) =~= tail);
        lemma_boundary_after_boundary(rest, at - l, more);
    }
}

/// A match of well-formed text inside well-formed text begins and ends on
/// character boundaries. An empty needle matches everywhere, so for it the
/// claim is made only at the two ends of the haystack.
pub proof fn lemma_match_on_boundaries(hay: Seq<u8>, needle: Seq<u8>, at: int)
    requires
        valid_utf8(hay),
        valid_utf8(needle),
        occurs_at(hay, needle, at),
        needle.len() > 0 || at == 0 || at == hay.len(),
    ensures
        is_char_boundary(hay, at),
        is_char_boundary(hay, at + needle.len()),
{
    is_char_boundary_start_end_of_seq(hay);
    if needle.len() > 0 {
        assert(hay.subrange(at, at + needle.len())[0] == hay[at]);
        is_char_boundary_iff_not_is_continuation_byte(needle, 0);
        is_char_boundary_iff_not_is_continuation_byte(hay, at);
        lemma_cut_is_valid(hay, at);
        let tail = hay.subrange(at, hay.len() as int);
        assert(tail.subrange(0, needle.len() as int) =~= needle) by {
            assert forall|k: int| 0 <= k < needle.len() implies tail[k] == needle[k] by {
                assert(hay.subrange(at, at + needle.len())[k] == hay[at + k]);
            }
        }
        lemma_prefix_ends_on_boundary(needle, tail);
        lemma_boundary_after_boundary(hay, at, needle.len() as int);
    }
}

/// The bytes of a `&str` are well-formed UTF-8.
pub proof fn lemma_str_is_valid(s: &str)
    ensures
        valid_utf8(s.spec_bytes()),
{
    encode_utf8_valid_utf8(s@);
}

/// Two strings with the same bytes hold the same characters.
pub proof fn lemma_same_bytes_same_chars(a: &str, b: &str)
    requires
        a.spec_bytes() == b.spec_bytes(),
    ensures
        a@ == b@,
{
    encode_utf8_decode_utf8(a@);
    encode_utf8_decode_utf8(b@);
}

/// Byte offset of the leftmost occurrence of `needle` in `hay`; the match
/// begins and ends on character boundaries of `hay`.
pub fn find_str(hay: &str, needle: &str) -> (r: Option<usize>)
    ensures
        match r {
            Some(i) => {
                &&& first_occurrence(hay.spec_bytes(), needle.spec_bytes()) == Some(i as int)
                &&& i + needle.spec_bytes().len() <= hay.spec_bytes().len() <= usize::MAX
                &&& is_char_boundary(hay.spec_bytes(), i as int)
                &&& is_char_boundary(hay.spec_bytes(), i + needle.spec_bytes().len())
            },
            None => first_occurrence(hay.spec_bytes(), needle.spec_bytes()) is None,
        },
{
    let hb = hay.as_bytes();
    let r = find(hb, needle.as_bytes());
    proof {
        assert(hb@.len() == hb.len());
        if let Some(i) = r {
            lemma_str_is_valid(hay);
            lemma_str_is_valid(needle);
            lemma_first_occurrence_some(hay.spec_bytes(), needle.spec_bytes());
            if needle.spec_bytes().len() == 0 && i != 0 {
                assert(occurs_at(hay.spec_bytes(), needle.spec_bytes(), 0)) by {
                    assert(hay.spec_bytes().subrange(0, 0) =~= needle.spec_bytes());
                }
            }
            lemma_match_on_boundaries(hay.spec_bytes(), needle.spec_bytes(), i as int);
        }
    }
    r
}

/// Byte offset of the rightmost occurrence of `needle` in `hay`; the match
/// begins and ends on character boundaries of `hay`.
pub fn rfind_str(hay: &str, needle: &str) -> (r: Option<usize>)
    ensures
        match r {
            Some(i) => {
                &&& last_occurrence(hay.spec_bytes(), needle.spec_bytes()) == Some(i as int)
                &&& i + needle.spec_bytes().len() <= hay.spec_bytes().len() <= usize::MAX
                &&& is_char_boundary(hay.spec_bytes(), i as int)
                &&& is_char_boundary(hay.spec_bytes(), i + needle.spec_bytes().len())
            },
            None => last_occurrence(hay.spec_bytes(), needle.spec_bytes()) is None,
        },
{
    let hb = hay.as_bytes();
    let r = rfind(hb, needle.as_bytes());
    proof {
        assert(hb@.len() == hb.len());
        if let Some(i) = r {
            let h = hay.spec_bytes();
            lemma_str_is_valid(hay);
            lemma_str_is_valid(needle);
            lemma_last_occurrence_some(h, needle.spec_bytes());
            if needle.spec_bytes().len() == 0 && i != h.len() {
                assert(occurs_at(h, needle.spec_bytes(), h.len() as int)) by {
                    assert(h.subrange(h.len() as int, h.len() as int) =~= needle.spec_bytes());
                }
            }
            lemma_match_on_boundaries(h, needle.spec_bytes(), i as int);
        }
    }
    r
}

/// Whether `needle` occurs anywhere in `hay`.
pub fn contains_str(hay: &str, needle: &str) -> (r: bool)
    ensures
        r == (first_occurrence(hay.spec_bytes(), needle.spec_bytes()) is Some),
{
    contains(hay.as_bytes(), needle.as_bytes())
}

/// Length of `s` in bytes.
pub fn byte_len(s: &str) -> (n: usize)
    ensures
        n == s.spec_bytes().len(),
{
    s.as_bytes().len()
}

/// The part of `s` from byte offset `at` on.
pub fn str_from(s: &str, at: usize) -> (r: &str)
    requires
        is_char_boundary(s.spec_bytes(), at as int),
    ensures
        r.spec_bytes() == s.spec_bytes().subrange(at as int, s.spec_bytes().len() as int),
{
    let (_, tail) = s.split_at(at);
    tail
}

/// The part of `s` before byte offset `at`.
pub fn str_to(s: &str, at: usize) -> (r: &str)
    requires
        is_char_boundary(s.spec_bytes(), at as int),
    ensures
        r.spec_bytes() == s.spec_bytes().subrange(0, at as int),
{
    let (head, _) = s.split_at(at);
    head
}

/// What follows the leftmost occurrence of `needle` in `hay`.
pub open spec fn after_first(hay: Seq<u8>, needle: Seq<u8>) -> Option<Seq<u8>> {
    match first_occurrence(hay, needle) {
        Some(i) => Some(hay.subrange(i + needle.len(), hay.len() as int)),
        None => None,
    }
}

/// What precedes the leftmost occurrence of `needle` in `hay`.
pub open spec fn before_first(hay: Seq<u8>, needle: Seq<u8>) -> Option<Seq<u8>> {
    match first_occurrence(hay, needle) {
        Some(i) => Some(hay.subrange(0, i)),
        None => None,
    }
}

/// What follows the rightmost occurrence of `needle` in `hay`.
pub open spec fn after_last(hay: Seq<u8>, needle: Seq<u8>) -> Option<Seq<u8>> {
    match last_occurrence(hay, needle) {
        Some(i) => Some(hay.subrange(i + needle.len(), hay.len() as int)),
        None => None,
    }
}

/// The part of `hay` behind the leftmost occurrence of `needle`.
pub fn str_after_first<'a>(hay: &'a str, needle: &str) -> (r: Option<&'a str>)
    ensures
        match r {
            Some(t) => after_first(hay.spec_bytes(), needle.spec_bytes()) == Some(t.spec_bytes()),
            None => after_first(hay.spec_bytes(), needle.spec_bytes()) is None,
        },
{
    match find_str(hay, needle) {
        Some(i) => Some(str_from(hay, i + byte_len(needle))),
        None => None,
    }
}

/// The part of `hay` in front of the leftmost occurrence of `needle`.
pub fn str_before_first<'a>(hay: &'a str, needle: &str) -> (r: Option<&'a str>)
    ensures
        match r {
            Some(t) => before_first(hay.spec_bytes(), needle.spec_bytes()) == Some(t.spec_bytes()),
            None => before_first(hay.spec_bytes(), needle.spec_bytes()) is None,
        },
{
    match find_str(hay, needle) {
        Some(i) => Some(str_to(hay, i)),
        None => None,
    }
}

/// The part of `hay` behind the rightmost occurrence of `needle`.
pub fn str_after_last<'a>(hay: &'a str, needle: &str) -> (r: Option<&'a str>)
    ensures
        match r {
            Some(t) => after_last(hay.spec_bytes(), needle.spec_bytes()) == Some(t.spec_bytes()),
            None => after_last(hay.spec_bytes(), needle.spec_bytes()) is None,
        },
{
    match rfind_str(hay, needle) {
        Some(i) => Some(str_from(hay, i + byte_len(needle))),
        None => None,
    }
}

/// A character boundary of a text is one of the text that starts at an
/// earlier boundary.
pub proof fn lemma_boundary_of_tail(bytes: Seq<u8>, from: int, to: int)
    requires
        valid_utf8(bytes),
        is_char_boundary(bytes, from),
        is_char_boundary(bytes, to),
        from <= to,
    ensures
        is_char_boundary(bytes.subrange(from, bytes.len() as int), to - from),
{
    lemma_cut_is_valid(bytes, from);
    lemma_cut_is_valid(bytes, to);
    let tail = bytes.subrange(from, bytes.len() as int);
    is_char_boundary_start_end_of_seq(tail);
    if to < bytes.len() {
        is_char_boundary_iff_not_is_continuation_byte(bytes, to);
        assert(tail[to - from] == bytes[to]);
        is_char_boundary_iff_not_is_continuation_byte(tail, to - from);
    }
}

/// The part of `s` from byte offset `from` up to byte offset `to`.
pub fn str_between(s: &str, from: usize, to: usize) -> (r: &str)
    requires
        from <= to,
        is_char_boundary(s.spec_bytes(), from as int),
        is_char_boundary(s.spec_bytes(), to as int),
    ensures
        r.spec_bytes() == s.spec_bytes().subrange(from as int, to as int),
{
    proof {
        lemma_str_is_valid(s);
        lemma_boundary_of_tail(s.spec_bytes(), from as int, to as int);
        lemma_cut_is_valid(s.spec_bytes(), to as int);
    }
    let tail = str_from(s, from);
    let r = str_to(tail, to - from);
    assert(r.spec_bytes() =~= s.spec_bytes().subrange(from as int, to as int));
    r
}

/// Whether two texts are the same, byte for byte.
pub fn same_text(a: &str, b: &str) -> (same: bool)
    ensures
        same == (a.spec_bytes() == b.spec_bytes()),
{
    let x = a.as_bytes();
    let y = b.as_bytes();
    if x.len() != y.len() {
        return false;
    }
    let same = matches_at(x, y, 0);
    assert(x@.subrange(0, x@.len() as int) =~= x@);
    same
}

} // verus!
