use crate::error::{Error, ErrorKind};
use vstd::prelude::*;
use vstd::string::StringExecFns;
use vstd::slice::{slice_subrange, slice_to_vec};
use vstd::utf8::{decode_utf8, encode_utf8, encode_utf8_decode_utf8, encode_utf8_valid_utf8, is_ascii_chars, is_ascii_chars_encode_utf8, valid_utf8};

verus! {

/// The line that closes a metadata block.
pub const META_MARK: &'static str = "%%%\n";

/// `i` is where a line of `s` begins.
pub open spec fn line_start(s: Seq<u8>, i: int) -> bool {
    i == 0 || (0 < i <= s.len() && s[i - 1] == 10u8)
}

/// A line equal to the closing mark (`%%%` and a newline) begins at `i`.
pub open spec fn mark_at(s: Seq<u8>, i: int) -> bool {
    &&& 0 <= i
    &&& i + 4 <= s.len()
    &&& line_start(s, i)
    &&& s[i] == 37u8
    &&& s[i + 1] == 37u8
    &&& s[i + 2] == 37u8
    &&& s[i + 3] == 10u8
}

/// `i` is the first closing mark of `s`.
pub open spec fn is_first_mark(s: Seq<u8>, i: int) -> bool {
    mark_at(s, i) && forall|j: int| 0 <= j < i ==> !mark_at(s, j)
}

/// Where the first closing mark of `s` begins, if any line is one.
pub open spec fn first_mark(s: Seq<u8>) -> Option<int> {
    if exists|i: int| is_first_mark(s, i) {
        Some(choose|i: int| is_first_mark(s, i))
    } else {
        None
    }
}

/// The bytes of the metadata block, when `s` has a closing mark at `i`.
pub open spec fn meta_bytes(s: Seq<u8>, i: int) -> Seq<u8> {
    s.subrange(0, i)
}

/// The bytes after the closing mark at `i`.
pub open spec fn body_bytes(s: Seq<u8>, i: int) -> Seq<u8> {
    s.subrange(i + 4, s.len() as int)
}

pub proof fn lemma_first_mark_unique(s: Seq<u8>, i: int)
    requires
        is_first_mark(s, i),
    ensures
        first_mark(s) == Some(i),
{
    let k = choose|k: int| is_first_mark(s, k);
    assert(is_first_mark(s, k));
    if k < i {
        assert(!mark_at(s, k));
    } else if i < k {
        assert(!mark_at(s, i));
    }
}

/// A source file taken apart at its closing mark.
#[derive(Debug)]
pub struct SourceParts {
    /// The text of the metadata block, without the mark.
    pub meta: String,
    /// The text after the mark.
    pub body: String,
}

/// Finds the first line of `s` that is the closing mark.
pub fn find_mark(s: &[u8]) -> (r: Option<usize>)
    ensures
        match r {
            Some(i) => is_first_mark(s@, i as int),
            None => forall|j: int| !mark_at(s@, j),
        },
{
    let n = s.len();
    let mut i: usize = 0;
    let mut at_line_start = true;
    while i < n
        invariant
            n == s@.len(),
            i <= n,
            at_line_start == line_start(s@, i as int),
            forall|j: int| 0 <= j < i ==> !mark_at(s@, j),
        decreases n - i,
    {
        if at_line_start && n - i >= 4 && s[i] == 37u8 && s[i + 1] == 37u8 && s[i + 2] == 37u8
            && s[i + 3] == 10u8 {
            return Some(i);
        }
        at_line_start = s[i] == 10u8;
        i = i + 1;
    }
    assert forall|j: int| !mark_at(s@, j) by {
        if 0 <= j && j >= i {
            assert(j + 4 > s@.len());
        }
    }
    None
}

/// Relies on `String::from_utf8`: it succeeds exactly when the bytes are
/// valid UTF-8, and then holds the text they encode.
#[verifier::external_body]
fn text_from_utf8(bytes: Vec<u8>) -> (r: Option<String>)
    ensures
        r is Some <==> valid_utf8(bytes@),
        r matches Some(t) ==> t@ == decode_utf8(bytes@),
{
    String::from_utf8(bytes).ok()
}

/// Splits a source file into its metadata block and its body.
///
/// The block is every line before the first line that is exactly the closing
/// mark; the body is everything after that line. A file without such a line
/// is an unfinished block and fails, as does a block that is not UTF-8; a
/// body that is not UTF-8 cannot be read. Messages name the file as `source`.
pub fn split_source(s: &[u8], source: &str) -> (r: Result<SourceParts, Error>)
    ensures
        match first_mark(s@) {
            None => (r matches Err(e) && e.msg@ == "unfinished metadata found in "@ + source@),
            Some(i) => {
                &&& (r is Ok <==> valid_utf8(meta_bytes(s@, i)) && valid_utf8(body_bytes(s@, i)))
                &&& (r matches Ok(p) ==> p.meta@ == decode_utf8(meta_bytes(s@, i))
                    && p.body@ == decode_utf8(body_bytes(s@, i)))
                &&& (!valid_utf8(meta_bytes(s@, i)) ==> (r matches Err(e)
                    && e.msg@ == "unfinished metadata found in "@ + source@))
                &&& (valid_utf8(meta_bytes(s@, i)) && !valid_utf8(body_bytes(s@, i)) ==> (r matches Err(e)
                    && e.msg@ == "error reading content from "@ + source@))
            },
        },
        (forall|i: int| !mark_at(s@, i)) ==> r is Err,
        r matches Err(e) ==> e.kind == ErrorKind::Parse,
{
    match find_mark(s) {
        None => Err(unfinished(source)),
        Some(i) => {
            proof {
                lemma_first_mark_unique(s@, i as int);
                assert(mark_at(s@, i as int));
            }
            let meta = slice_to_vec(slice_subrange(s, 0, i));
            let n = s.len();
            let body = slice_to_vec(slice_subrange(s, i + 4, n));
            match text_from_utf8(meta) {
                None => Err(unfinished(source)),
                Some(meta) => match text_from_utf8(body) {
                    None => {
                        let m = String::from_str("error reading content from ").concat(source);
                        Err(Error { kind: ErrorKind::Parse, msg: m })
                    },
                    Some(body) => Ok(SourceParts { meta, body }),
                },
            }
        },
    }
}

fn unfinished(source: &str) -> (e: Error)
    ensures
        e.kind == ErrorKind::Parse,
        e.msg@ == "unfinished metadata found in "@ + source@,
{
    Error { kind: ErrorKind::Parse, msg: String::from_str("unfinished metadata found in ").concat(source) }
}

/// The bytes of the closing mark.
pub open spec fn mark_seq() -> Seq<u8> {
    seq![37u8, 37u8, 37u8, 10u8]
}

/// Metadata bytes that can be framed by the closing mark: no line of them is
/// the mark, and they are empty or end their last line.
pub open spec fn frameable(t: Seq<u8>) -> bool {
    &&& forall|j: int| !mark_at(t, j)
    &&& (t.len() == 0 || t.last() == 10u8)
}

/// Metadata bytes followed by the closing mark and a body split back into
/// those metadata bytes and that body, whatever the body holds.
pub proof fn lemma_frame_split(t: Seq<u8>, c: Seq<u8>)
    requires
        frameable(t),
    ensures
        first_mark(t + mark_seq() + c) == Some(t.len() as int),
        meta_bytes(t + mark_seq() + c, t.len() as int) == t,
        body_bytes(t + mark_seq() + c, t.len() as int) == c,
{
    let s = t + mark_seq() + c;
    let n = t.len() as int;
    assert(mark_at(s, n));
    assert forall|j: int| 0 <= j < n implies !mark_at(s, j) by {
        if j + 4 <= n {
            assert(!mark_at(t, j));
            assert(line_start(s, j) == line_start(t, j));
        } else {
            assert(t[n - 1] == 10u8);
            assert(s[n - 1] == 10u8);
        }
    }
    lemma_first_mark_unique(s, n);
    assert(meta_bytes(s, n) =~= t);
    assert(body_bytes(s, n) =~= c);
}

/// The UTF-8 encoding of a concatenation is the concatenation of the
/// encodings.
pub proof fn lemma_encode_concat(a: Seq<char>, b: Seq<char>)
    ensures
        encode_utf8(a + b) == encode_utf8(a) + encode_utf8(b),
    decreases a.len(),
{
    if a.len() == 0 {
        assert(a + b =~= b);
        assert(encode_utf8(a) + encode_utf8(b) =~= encode_utf8(b));
    } else {
        assert((a + b)[0] == a[0]);
        assert((a + b).drop_first() =~= a.drop_first() + b);
        lemma_encode_concat(a.drop_first(), b);
        assert(encode_utf8(a + b) =~= encode_utf8(a) + encode_utf8(b));
    }
}

/// A metadata text whose encoding is frameable, written before the closing
/// mark and followed by any body text, splits back into that metadata text
/// and that body text.
pub proof fn lemma_frame_round_trip(t: Seq<char>, c: Seq<char>)
    requires
        frameable(encode_utf8(t)),
    ensures
        ({
            let s = encode_utf8(t + META_MARK@ + c);
            let i = encode_utf8(t).len() as int;
            &&& first_mark(s) == Some(i)
            &&& valid_utf8(meta_bytes(s, i))
            &&& decode_utf8(meta_bytes(s, i)) == t
            &&& valid_utf8(body_bytes(s, i))
            &&& decode_utf8(body_bytes(s, i)) == c
        }),
{
    reveal_strlit("%%%\n");
    let m = META_MARK@;
    assert(m =~= seq!['%', '%', '%', '\n']);
    assert(is_ascii_chars(m));
    is_ascii_chars_encode_utf8(m);
    assert(encode_utf8(m) =~= mark_seq());
    lemma_encode_concat(t, m);
    lemma_encode_concat(t + m, c);
    lemma_frame_split(encode_utf8(t), encode_utf8(c));
    encode_utf8_valid_utf8(t);
    encode_utf8_valid_utf8(c);
    encode_utf8_decode_utf8(t);
    encode_utf8_decode_utf8(c);
}

} // verus!
