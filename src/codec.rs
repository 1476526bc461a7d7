//! Framing of raw bytes into newline-terminated text lines, and back.
use vstd::prelude::*;
use vstd::utf8::{decode_utf8, encode_utf8, valid_utf8};
use crate::buffer::{append_bytes, buffer_bytes, held_bytes, split_front};

verus! {

/// The byte that ends an inbound line.
pub const NEWLINE: u8 = 10;

/// Position of the first newline at or after `i`, if any.
pub open spec fn newline_from(s: Seq<u8>, i: int) -> Option<int>
    decreases s.len() - i,
{
    if i < 0 || i >= s.len() {
        None
    } else if s[i] == NEWLINE {
        Some(i)
    } else {
        newline_from(s, i + 1)
    }
}

/// A newline found from `i` lies at or after `i`, inside `s`, and no newline
/// comes between `i` and it.
pub proof fn lemma_newline_from_bounds(s: Seq<u8>, i: int)
    ensures
        newline_from(s, i) matches Some(n) ==> {
            &&& 0 <= i <= n < s.len()
            &&& s[n] == NEWLINE
            &&& forall|j: int| i <= j < n ==> s[j] != NEWLINE
        },
        newline_from(s, i) is None && 0 <= i ==> forall|j: int| i <= j < s.len() ==> s[j] != NEWLINE,
    decreases s.len() - i,
{
    if 0 <= i < s.len() && s[i] != NEWLINE {
        lemma_newline_from_bounds(s, i + 1);
    }
}

/// Position of the first newline in `s`, if any.
pub open spec fn first_newline(s: Seq<u8>) -> Option<int> {
    newline_from(s, 0)
}

/// Why an inbound line could not be turned into text.
#[derive(Clone, Copy, Debug, PartialEq, Eq, Structural)]
pub enum DecodeError {
    /// The bytes up to and including the newline are not valid UTF-8; they
    /// have been removed from the buffer all the same.
    InvalidText,
}

/// What one decode attempt yields on a buffer holding `s`: the outcome, with
/// the text as characters, and the bytes that stay in the buffer.
pub open spec fn decode_step(s: Seq<u8>) -> (Result<Option<Seq<char>>, DecodeError>, Seq<u8>) {
    match first_newline(s) {
        None => (Ok(None), s),
        Some(n) => {
            let line = s.subrange(0, n + 1);
            let rest = s.subrange(n + 1, s.len() as int);
            if valid_utf8(line) {
                (Ok(Some(decode_utf8(line))), rest)
            } else {
                (Err(DecodeError::InvalidText), rest)
            }
        },
    }
}

/// The outcome of a decode call, with the text as characters.
pub open spec fn outcome_view(r: Result<Option<String>, DecodeError>) -> Result<Option<Seq<char>>, DecodeError> {
    match r {
        Ok(Some(s)) => Ok(Some(s@)),
        Ok(None) => Ok(None),
        Err(e) => Err(e),
    }
}

/// A buffer whose one newline is its last byte is taken whole by a single
/// decode: nothing stays behind, and the line comes back as the text of all
/// its bytes when they are valid UTF-8, as `InvalidText` when they are not.
pub proof fn lemma_single_line_taken_whole(s: Seq<u8>)
    requires
        s.len() > 0,
        s.last() == NEWLINE,
        forall|i: int| 0 <= i < s.len() - 1 ==> s[i] != NEWLINE,
    ensures
        first_newline(s) == Some(s.len() - 1),
        decode_step(s).1 == Seq::<u8>::empty(),
        valid_utf8(s) ==> decode_step(s).0 == Ok::<Option<Seq<char>>, DecodeError>(
            Some(decode_utf8(s)),
        ),
        !valid_utf8(s) ==> decode_step(s).0 == Err::<Option<Seq<char>>, DecodeError>(
            DecodeError::InvalidText,
        ),
{
    lemma_newline_from_bounds(s, 0);
    assert(s.subrange(0, s.len() as int) =~= s);
    assert(s.subrange(s.len() as int, s.len() as int) =~= Seq::<u8>::empty());
}

/// Without a newline a decode yields nothing and leaves the buffer as it
/// was, so decoding again with no new bytes gives the same.
pub proof fn lemma_no_newline_keeps_buffer(s: Seq<u8>)
    requires
        forall|i: int| 0 <= i < s.len() ==> s[i] != NEWLINE,
    ensures
        decode_step(s) == (Ok::<Option<Seq<char>>, DecodeError>(None), s),
        decode_step(decode_step(s).1) == decode_step(s),
{
    lemma_newline_from_bounds(s, 0);
}

/// Relies on `std::str::from_utf8`: it succeeds exactly on valid UTF-8, and
/// then yields the text those bytes encode.
#[verifier::external_body]
fn text_of(b: &[u8]) -> (r: Option<&str>)
    ensures
        r.is_some() == valid_utf8(b@),
        r matches Some(t) ==> t@ == decode_utf8(b@),
{
    std::str::from_utf8(b).ok()
}

/// Finds the first newline in `s`.
pub fn find_newline(s: &[u8]) -> (r: Option<usize>)
    ensures
        r matches Some(n) ==> first_newline(s@) == Some(n as int),
        r is None ==> first_newline(s@) is None,
{
    let mut i: usize = 0;
    while i < s.len()
        invariant
            i <= s@.len(),
            first_newline(s@) == newline_from(s@, i as int),
        decreases s@.len() - i,
    {
        if s[i] == NEWLINE {
            return Some(i);
        }
        i = i + 1;
    }
    None
}

/// Splits the stream into lines that end with a newline, and writes lines out
/// as they are.
pub struct LineCodec;

impl LineCodec {
    /// Takes the first complete line off the front of `src`.
    ///
    /// Without a newline in `src` nothing is taken and `Ok(None)` comes back.
    /// Otherwise the bytes up to and including the first newline are removed,
    /// and come back as text when they are valid UTF-8; when they are not,
    /// they are dropped and the result is `InvalidText`.
    pub fn decode(&mut self, src: &mut bytes::BytesMut) -> (r: Result<Option<String>, DecodeError>)
        ensures
            outcome_view(r) == decode_step(buffer_bytes(*old(src))).0,
            buffer_bytes(*final(src)) == decode_step(buffer_bytes(*old(src))).1,
    {
        let held = held_bytes(src);
        let held_len = held.len();
        let found = find_newline(held);
        proof {
            lemma_newline_from_bounds(buffer_bytes(*src), 0);
        }
        match found {
            None => Ok(None),
            Some(n) => {
                assert(n < held_len);
                let line = split_front(src, n + 1);
                match text_of(held_bytes(&line)) {
                    Some(t) => Ok(Some(t.to_owned())),
                    None => Err(DecodeError::InvalidText),
                }
            },
        }
    }

    /// Appends the UTF-8 bytes of `item` to `dst`. No terminator is added:
    /// a line that must end with a newline carries it itself.
    pub fn encode(&mut self, item: String, dst: &mut bytes::BytesMut)
        requires
            buffer_bytes(*old(dst)).len() + encode_utf8(item@).len() <= isize::MAX,
        ensures
            buffer_bytes(*final(dst)) == buffer_bytes(*old(dst)) + encode_utf8(item@),
    {
        let payload = item.as_str().as_bytes();
        append_bytes(dst, payload);
    }

    /// Appends the UTF-8 bytes of `item` to `dst` as [`LineCodec::encode`]
    /// does, when the buffer can grow by that much. Returns whether it did;
    /// when it did not, `dst` is left as it was.
    pub fn try_encode(&mut self, item: String, dst: &mut bytes::BytesMut) -> (r: bool)
        ensures
            r == (buffer_bytes(*old(dst)).len() + encode_utf8(item@).len() <= isize::MAX),
            r ==> buffer_bytes(*final(dst)) == buffer_bytes(*old(dst)) + encode_utf8(item@),
            !r ==> buffer_bytes(*final(dst)) == buffer_bytes(*old(dst)),
    {
        let held = held_bytes(dst).len();
        let extra = item.as_str().as_bytes().len();
        if held <= isize::MAX as usize && extra <= isize::MAX as usize - held {
            self.encode(item, dst);
            true
        } else {
            false
        }
    }
}

} // verus!
