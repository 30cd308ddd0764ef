//! Text helpers: byte-wise ordering of strings and small conversions.

use vstd::prelude::*;
use vstd::string::*;
use vstd::utf8::{
    decode_utf8, encode_utf8, encode_utf8_decode_utf8, encode_utf8_valid_utf8, is_char_boundary,
    is_char_boundary_iff_not_is_continuation_byte, is_char_boundary_start_end_of_seq,
};

verus! {

/// Lexicographic "strictly less" on byte sequences.
pub open spec fn bytes_lt(a: Seq<u8>, b: Seq<u8>) -> bool
    decreases a.len(),
{
    if b.len() == 0 {
        false
    } else if a.len() == 0 {
        true
    } else if a[0] != b[0] {
        a[0] < b[0]
    } else {
        bytes_lt(a.drop_first(), b.drop_first())
    }
}

/// Order of two texts: byte-wise on their UTF-8 encodings, which is how
/// timestamps and names are ranked throughout the store.
pub open spec fn text_lt(a: Seq<char>, b: Seq<char>) -> bool {
    bytes_lt(encode_utf8(a), encode_utf8(b))
}

/// `a` does not come after `b`.
pub open spec fn text_le(a: Seq<char>, b: Seq<char>) -> bool {
    !text_lt(b, a)
}

/// The view of an optional text.
pub open spec fn opt_text(o: Option<String>) -> Option<Seq<char>> {
    match o {
        Some(s) => Some(s@),
        None => None,
    }
}

pub proof fn lemma_bytes_lt_irreflexive(a: Seq<u8>)
    ensures
        !bytes_lt(a, a),
    decreases a.len(),
{
    if a.len() > 0 {
        lemma_bytes_lt_irreflexive(a.drop_first());
    }
}

pub proof fn lemma_bytes_lt_transitive(a: Seq<u8>, b: Seq<u8>, c: Seq<u8>)
    requires
        bytes_lt(a, b),
        bytes_lt(b, c),
    ensures
        bytes_lt(a, c),
    decreases a.len(),
{
    if a.len() > 0 && b.len() > 0 && c.len() > 0 {
        if a[0] == b[0] && b[0] == c[0] {
            lemma_bytes_lt_transitive(a.drop_first(), b.drop_first(), c.drop_first());
        }
    }
}

/// Of two different byte strings one is below the other.
pub proof fn lemma_bytes_lt_connected(a: Seq<u8>, b: Seq<u8>)
    ensures
        bytes_lt(a, b) || bytes_lt(b, a) || a == b,
    decreases a.len(),
{
    if a.len() > 0 && b.len() > 0 {
        if a[0] == b[0] {
            lemma_bytes_lt_connected(a.drop_first(), b.drop_first());
            if a.drop_first() == b.drop_first() {
                assert(a =~= seq![a[0]] + a.drop_first());
                assert(b =~= seq![b[0]] + b.drop_first());
            }
        }
    } else if a.len() == 0 && b.len() == 0 {
        assert(a =~= b);
    }
}

/// "Not after" is transitive, so a list can be sorted by it.
pub proof fn lemma_text_le_transitive(a: Seq<char>, b: Seq<char>, c: Seq<char>)
    requires
        text_le(a, b),
        text_le(b, c),
    ensures
        text_le(a, c),
{
    let x = encode_utf8(a);
    let y = encode_utf8(b);
    let z = encode_utf8(c);
    if bytes_lt(z, x) {
        lemma_bytes_lt_connected(x, y);
        lemma_bytes_lt_connected(y, z);
        if bytes_lt(x, y) {
            lemma_bytes_lt_transitive(z, x, y);
        } else if x == y {
        } else {
            assert(false);
        }
        if bytes_lt(y, z) {
            if bytes_lt(x, y) {
                lemma_bytes_lt_transitive(y, z, x);
                lemma_bytes_lt_transitive(y, x, y);
                lemma_bytes_lt_irreflexive(y);
            } else {
                lemma_bytes_lt_irreflexive(z);
            }
        } else if y == z {
        }
    }
}

/// Any two texts are comparable.
pub proof fn lemma_text_le_total(a: Seq<char>, b: Seq<char>)
    ensures
        text_le(a, b) || text_le(b, a),
{
    let x = encode_utf8(a);
    let y = encode_utf8(b);
    if bytes_lt(x, y) && bytes_lt(y, x) {
        lemma_bytes_lt_transitive(x, y, x);
        lemma_bytes_lt_irreflexive(x);
    }
}

/// Decides `text_lt` by walking the two encodings byte by byte.
pub fn text_less(a: &str, b: &str) -> (r: bool)
    ensures
        r == text_lt(a@, b@),
{
    let x = a.as_bytes();
    let y = b.as_bytes();
    let mut i: usize = 0;
    proof {
        assert(x@.skip(0) =~= x@);
        assert(y@.skip(0) =~= y@);
    }
    while i < x.len() && i < y.len()
        invariant
            x@ == encode_utf8(a@),
            y@ == encode_utf8(b@),
            i <= x@.len(),
            i <= y@.len(),
            bytes_lt(x@, y@) == bytes_lt(x@.skip(i as int), y@.skip(i as int)),
        decreases x@.len() - i,
    {
        let p = x[i];
        let q = y[i];
        proof {
            let xs = x@.skip(i as int);
            let ys = y@.skip(i as int);
            assert(xs[0] == p);
            assert(ys[0] == q);
            assert(xs.drop_first() =~= x@.skip(i + 1));
            assert(ys.drop_first() =~= y@.skip(i + 1));
        }
        if p != q {
            return p < q;
        }
        i = i + 1;
    }
    i < y.len()
}

/// A copy of an optional text.
pub fn clone_opt(o: &Option<String>) -> (r: Option<String>)
    ensures
        opt_text(r) == opt_text(*o),
{
    match o {
        Some(s) => Some(s.clone()),
        None => None,
    }
}

/// Whether two texts are the same.
pub fn text_eq(a: &str, b: &str) -> (r: bool)
    ensures
        r == (a@ == b@),
{
    let x = a.to_owned();
    let y = b.to_owned();
    x == y
}

/// Whether two optional texts are the same.
pub fn opt_text_eq(a: &Option<String>, b: &str) -> (r: bool)
    ensures
        r == (opt_text(*a) == Some(b@)),
{
    match a {
        Some(s) => text_eq(s.as_str(), b),
        None => false,
    }
}

/// Whether `needle` stands in `hay` at position `i`.
pub open spec fn occurs_at(hay: Seq<u8>, needle: Seq<u8>, i: int) -> bool {
    0 <= i && i + needle.len() <= hay.len() && hay.subrange(i, i + needle.len()) == needle
}

/// Whether `needle` stands somewhere in `hay`.
pub open spec fn bytes_contain(hay: Seq<u8>, needle: Seq<u8>) -> bool {
    exists|i: int| occurs_at(hay, needle, i)
}

/// Whether the text `part` stands somewhere in the text `whole`, both taken
/// as their UTF-8 encodings.
pub open spec fn text_contains(whole: Seq<char>, part: Seq<char>) -> bool {
    bytes_contain(encode_utf8(whole), encode_utf8(part))
}

/// Whether the text `whole` begins with the text `part`.
pub open spec fn text_starts_with(whole: Seq<char>, part: Seq<char>) -> bool {
    occurs_at(encode_utf8(whole), encode_utf8(part), 0)
}

/// Whether the text `whole` ends with the text `part`.
pub open spec fn text_ends_with(whole: Seq<char>, part: Seq<char>) -> bool {
    occurs_at(
        encode_utf8(whole),
        encode_utf8(part),
        encode_utf8(whole).len() - encode_utf8(part).len(),
    )
}

/// Decides `occurs_at`.
pub fn matches_at(hay: &[u8], needle: &[u8], i: usize) -> (r: bool)
    ensures
        r == occurs_at(hay@, needle@, i as int),
{
    if needle.len() > hay.len() || i > hay.len() - needle.len() {
        return false;
    }
    let mut k: usize = 0;
    while k < needle.len()
        invariant
            k <= needle.len(),
            i + needle.len() <= hay.len(),
            forall|j: int| 0 <= j < k ==> hay@[i + j] == needle@[j],
        decreases needle.len() - k,
    {
        if hay[i + k] != needle[k] {
            proof {
                assert(hay@.subrange(i as int, i + needle.len())[k as int] == hay@[i + k]);
            }
            return false;
        }
        k = k + 1;
    }
    proof {
        assert(hay@.subrange(i as int, i + needle.len()) =~= needle@);
    }
    true
}

/// The first position from `from` on at which `needle` stands in `hay`.
pub open spec fn first_occurrence(hay: Seq<u8>, needle: Seq<u8>, from: int) -> Option<int>
    decreases hay.len() - from + 1,
{
    if from < 0 || from + needle.len() > hay.len() {
        None
    } else if occurs_at(hay, needle, from) {
        Some(from)
    } else {
        first_occurrence(hay, needle, from + 1)
    }
}

/// The first position from `from` on at which `needle` stands in `hay`.
pub fn find_from(hay: &[u8], needle: &[u8], from: usize) -> (r: Option<usize>)
    ensures
        match r {
            Some(i) => first_occurrence(hay@, needle@, from as int) == Some(i as int),
            None => first_occurrence(hay@, needle@, from as int) is None,
        },
        match r {
            Some(i) => from <= i && occurs_at(hay@, needle@, i as int) && forall|j: int|
                from <= j < i ==> !occurs_at(hay@, needle@, j),
            None => forall|j: int| from <= j ==> !occurs_at(hay@, needle@, j),
        },
{
    if needle.len() > hay.len() {
        return None;
    }
    let last = hay.len() - needle.len();
    if from > last {
        return None;
    }
    let mut i: usize = from;
    while i < last
        invariant
            from <= i <= last,
            last == hay.len() - needle.len(),
            forall|j: int| from <= j < i ==> !occurs_at(hay@, needle@, j),
            first_occurrence(hay@, needle@, from as int) == first_occurrence(
                hay@,
                needle@,
                i as int,
            ),
        decreases last - i,
    {
        if matches_at(hay, needle, i) {
            return Some(i);
        }
        i = i + 1;
    }
    if matches_at(hay, needle, i) {
        return Some(i);
    }
    proof {
        assert(first_occurrence(hay@, needle@, i + 1) is None);
    }
    None
}

/// Decides `text_contains`.
pub fn contains(whole: &str, part: &str) -> (r: bool)
    ensures
        r == text_contains(whole@, part@),
{
    match find_from(whole.as_bytes(), part.as_bytes(), 0) {
        Some(i) => {
            proof {
                assert(occurs_at(encode_utf8(whole@), encode_utf8(part@), i as int));
            }
            true
        },
        None => false,
    }
}

/// Decides `text_starts_with`.
pub fn starts_with(whole: &str, part: &str) -> (r: bool)
    ensures
        r == text_starts_with(whole@, part@),
{
    matches_at(whole.as_bytes(), part.as_bytes(), 0)
}

/// Decides `text_ends_with`.
pub fn ends_with(whole: &str, part: &str) -> (r: bool)
    ensures
        r == text_ends_with(whole@, part@),
{
    let w = whole.as_bytes();
    let p = part.as_bytes();
    if p.len() > w.len() {
        return false;
    }
    matches_at(w, p, w.len() - p.len())
}

/// The text in lower case, as the standard library folds it.
pub uninterp spec fn lowercased(text: Seq<char>) -> Seq<char>;

/// Calls `str::to_lowercase`.
#[verifier::external_body]
pub(crate) fn lowercase(text: &str) -> (r: String)
    ensures
        r@ == lowercased(text@),
{
    text.to_lowercase()
}

/// The text with every `from` replaced by `to`.
pub open spec fn with_char_replaced(text: Seq<char>, from: char, to: char) -> Seq<char> {
    Seq::new(text.len(), |i: int| if text[i] == from { to } else { text[i] })
}

/// Builds `with_char_replaced`, where `to_text` is `to` as a text.
pub fn replace_char(text: &str, from: char, to: char, to_text: &str) -> (r: String)
    requires
        to_text@ == seq![to],
    ensures
        r@ == with_char_replaced(text@, from, to),
{
    let n = text.unicode_len();
    let mut out = String::from_str("");
    let mut i: usize = 0;
    proof {
        reveal_strlit("");
    }
    while i < n
        invariant
            i <= n,
            n == text@.len(),
            to_text@ == seq![to],
            out@ == with_char_replaced(text@, from, to).take(i as int),
        decreases n - i,
    {
        let c = text.get_char(i);
        if c == from {
            out.append(to_text);
        } else {
            out.append(text.substring_char(i, i + 1));
        }
        proof {
            let all = with_char_replaced(text@, from, to);
            assert(all.take(i + 1) =~= all.take(i as int).push(all[i as int]));
            assert(text@.subrange(i as int, i + 1) =~= seq![text@[i as int]]);
            assert(out@ =~= all.take(i + 1));
        }
        i = i + 1;
    }
    proof {
        let all = with_char_replaced(text@, from, to);
        assert(all.take(n as int) =~= all);
    }
    out
}

/// The text without the white space at its ends, as the standard library
/// trims it.
pub uninterp spec fn trimmed(text: Seq<char>) -> Seq<char>;

/// Calls `str::trim`.
#[verifier::external_body]
pub(crate) fn trim(text: &str) -> (r: String)
    ensures
        r@ == trimmed(text@),
{
    text.trim().to_string()
}

/// The `n`-th of the pieces into which the separator cuts the text, counted
/// from 0, as the standard library splits it; `None` where there are fewer.
pub uninterp spec fn split_piece(text: Seq<char>, separator: Seq<char>, n: nat) -> Option<
    Seq<char>,
>;

/// Calls `str::split` with a text as separator, and `nth` on what it yields.
#[verifier::external_body]
pub(crate) fn piece(text: &str, separator: &str, n: usize) -> (r: Option<String>)
    ensures
        opt_text(r) == split_piece(text@, separator@, n as nat),
{
    match text.split(separator).nth(n) {
        Some(p) => Some(p.to_string()),
        None => None,
    }
}

/// The part of a text whose encoding runs from byte `from` up to byte `to`.
pub open spec fn bytes_between(text: Seq<char>, from: int, to: int) -> Seq<char> {
    decode_utf8(encode_utf8(text).subrange(from, to))
}

/// A position that holds an ASCII byte is a boundary between characters.
pub proof fn lemma_ascii_is_boundary(text: Seq<char>, at: int)
    requires
        0 <= at < encode_utf8(text).len(),
        encode_utf8(text)[at] < 0x80,
    ensures
        is_char_boundary(encode_utf8(text), at),
{
    encode_utf8_valid_utf8(text);
    is_char_boundary_iff_not_is_continuation_byte(encode_utf8(text), at);
}

/// Cuts the part between two boundaries out of a text.
pub fn subtext<'a>(text: &'a str, from: usize, to: usize) -> (r: &'a str)
    requires
        from <= to <= encode_utf8(text@).len(),
        is_char_boundary(encode_utf8(text@), from as int),
        is_char_boundary(encode_utf8(text@), to as int),
    ensures
        encode_utf8(r@) == encode_utf8(text@).subrange(from as int, to as int),
        r@ == bytes_between(text@, from as int, to as int),
{
    let ghost bytes = encode_utf8(text@);
    let (left, _) = text.split_at(to);
    proof {
        encode_utf8_valid_utf8(text@);
        encode_utf8_valid_utf8(left@);
        let front = encode_utf8(left@);
        assert(front =~= bytes.subrange(0, to as int));
        if from == to {
            is_char_boundary_start_end_of_seq(front);
        } else if from > 0 {
            is_char_boundary_iff_not_is_continuation_byte(bytes, from as int);
            is_char_boundary_iff_not_is_continuation_byte(front, from as int);
        }
    }
    let (_, mid) = left.split_at(from);
    proof {
        assert(encode_utf8(mid@) =~= bytes.subrange(from as int, to as int));
        encode_utf8_decode_utf8(mid@);
    }
    mid
}

/// Calls `str::strip_prefix` with a text as prefix: what follows the prefix,
/// where the text begins with it.
#[verifier::external_body]
pub(crate) fn strip_prefix(whole: &str, prefix: &str) -> (r: Option<String>)
    ensures
        match r {
            Some(rest) => whole@ == prefix@ + rest@,
            None => !prefix@.is_prefix_of(whole@),
        },
{
    match whole.strip_prefix(prefix) {
        Some(rest) => Some(rest.to_string()),
        None => None,
    }
}

/// Calls `str::strip_suffix` with a text as suffix: what stands before the
/// suffix, where the text ends with it.
#[verifier::external_body]
pub(crate) fn strip_suffix(whole: &str, suffix: &str) -> (r: Option<String>)
    ensures
        match r {
            Some(rest) => whole@ == rest@ + suffix@,
            None => !suffix@.is_suffix_of(whole@),
        },
{
    match whole.strip_suffix(suffix) {
        Some(rest) => Some(rest.to_string()),
        None => None,
    }
}

/// The lines of a text, as the standard library cuts them: at every line
/// feed, without it and without a carriage return before it.
pub uninterp spec fn lines_of(text: Seq<char>) -> Seq<Seq<char>>;

/// Calls `str::lines` and collects what it yields.
#[verifier::external_body]
pub(crate) fn lines(text: &str) -> (r: Vec<String>)
    ensures
        r@.len() == lines_of(text@).len(),
        forall|i: int| 0 <= i < r@.len() ==> (#[trigger] r@[i])@ == lines_of(text@)[i],
{
    text.lines().map(|l| l.to_string()).collect()
}

/// The text with every occurrence of `from` replaced by `to`, found from
/// left to right without overlap, as the standard library replaces.
pub uninterp spec fn replaced(text: Seq<char>, from: Seq<char>, to: Seq<char>) -> Seq<char>;

/// Calls `str::replace` with a text as pattern.
#[verifier::external_body]
pub(crate) fn replace(text: &str, from: &str, to: &str) -> (r: String)
    ensures
        r@ == replaced(text@, from@, to@),
{
    text.replace(from, to)
}

} // verus!
