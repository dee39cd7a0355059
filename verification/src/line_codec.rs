//! The framing of the line protocol spoken with the remote server: each
//! message is the UTF-8 text of a string followed by a newline byte.

use vstd::prelude::*;
use vstd::slice::slice_to_vec;
use vstd::utf8::{
    decode_utf8, encode_scalar, encode_utf8, encode_utf8_decode_utf8, encode_utf8_valid_utf8,
    has_width_1_encoding, valid_utf8,
};

use tokio_core::io::EasyBuf;

use crate::easybuf::{easybuf_as_slice, easybuf_bytes, easybuf_drain_to};

verus! {

/// The newline byte that ends each frame.
pub const NEWLINE: u8 = 10;

/// Whether `bytes` holds no newline byte.
pub open spec fn newline_free(bytes: Seq<u8>) -> bool {
    forall|i: int| 0 <= i < bytes.len() ==> bytes[i] != NEWLINE
}

/// Whether `n` is the index of the first newline byte of `bytes`.
pub open spec fn first_newline_at(bytes: Seq<u8>, n: int) -> bool {
    &&& 0 <= n < bytes.len()
    &&& bytes[n] == NEWLINE
    &&& newline_free(bytes.take(n))
}

/// The first complete frame of `bytes`: the line before the first newline,
/// and the bytes after that newline; none while no newline has arrived.
pub open spec fn first_frame(bytes: Seq<u8>) -> Option<(Seq<u8>, Seq<u8>)> {
    if exists|n: int| first_newline_at(bytes, n) {
        let n = choose|n: int| first_newline_at(bytes, n);
        Some((bytes.take(n), bytes.skip(n + 1)))
    } else {
        None
    }
}

/// The bytes that frame the text `line`.
pub open spec fn framed(line: Seq<char>) -> Seq<u8> {
    encode_utf8(line) + seq![NEWLINE]
}

/// Why a frame could not be decoded.
pub enum LineError {
    /// The line is not valid UTF-8.
    InvalidString,
}

/// Calls `String::from_utf8`: the text that `bytes` encode in UTF-8, or
/// none when they are not valid UTF-8.
#[verifier::external_body]
fn utf8_text(bytes: Vec<u8>) -> (text: Option<String>)
    ensures
        text is Some <==> valid_utf8(bytes@),
        text matches Some(s) ==> s@ == decode_utf8(bytes@),
{
    String::from_utf8(bytes).ok()
}

/// There is at most one first newline.
proof fn lemma_first_newline_unique(bytes: Seq<u8>, n: int, m: int)
    requires
        first_newline_at(bytes, n),
        first_newline_at(bytes, m),
    ensures
        n == m,
{
    if n < m {
        assert(bytes.take(m)[n] == bytes[n]);
    } else if m < n {
        assert(bytes.take(n)[m] == bytes[m]);
    }
}

/// Takes the first complete line out of `buf`, newline included, and
/// returns its text; leaves `buf` as it is while it holds no newline.
/// A line that is not valid UTF-8 is taken out all the same, and reported as
/// `InvalidString`.
pub fn decode_line(buf: &mut EasyBuf) -> (r: Result<Option<String>, LineError>)
    ensures
        match first_frame(easybuf_bytes(*old(buf))) {
            Option::None => {
                &&& r matches Ok(Option::None)
                &&& easybuf_bytes(*final(buf)) == easybuf_bytes(*old(buf))
            },
            Option::Some((line, rest)) => {
                &&& easybuf_bytes(*final(buf)) == rest
                &&& valid_utf8(line) ==> (r matches Ok(Some(s)) && s@ == decode_utf8(line))
                &&& !valid_utf8(line) ==> r matches Err(LineError::InvalidString)
            },
        },
{
    let ghost bytes = easybuf_bytes(*buf);
    let mut found: Option<usize> = None;
    {
        let slice = easybuf_as_slice(buf);
        let mut i: usize = 0;
        while i < slice.len()
            invariant_except_break
                found is None,
            invariant
                slice@ == bytes,
                0 <= i <= slice@.len(),
                newline_free(bytes.take(i as int)),
            ensures
                found matches Some(n) ==> first_newline_at(bytes, n as int),
                found is None ==> newline_free(bytes.take(slice@.len() as int)),
            decreases slice@.len() - i,
        {
            if slice[i] == NEWLINE {
                found = Some(i);
                break;
            }
            assert(bytes.take(i + 1) =~= bytes.take(i as int).push(bytes[i as int]));
            i = i + 1;
        }
        assert(bytes.take(slice@.len() as int) =~= bytes);
    }
    match found {
        None => {
            assert(!exists|n: int| first_newline_at(bytes, n)) by {
                if exists|n: int| first_newline_at(bytes, n) {
                    let n = choose|n: int| first_newline_at(bytes, n);
                    assert(bytes[n] == NEWLINE);
                }
            }
            Ok(None)
        },
        Some(n) => {
            proof {
                let m = choose|m: int| first_newline_at(bytes, m);
                lemma_first_newline_unique(bytes, n as int, m);
            }
            let line = easybuf_drain_to(buf, n);
            let _newline = easybuf_drain_to(buf, 1);
            assert(easybuf_bytes(*buf) =~= bytes.skip(n + 1));
            let text = utf8_text(slice_to_vec(easybuf_as_slice(&line)));
            match text {
                Some(s) => Ok(Some(s)),
                None => Err(LineError::InvalidString),
            }
        },
    }
}

/// Appends the frame of `msg` to `buf`: its UTF-8 bytes and a newline.
pub fn encode_line(msg: String, buf: &mut Vec<u8>)
    ensures
        final(buf)@ == old(buf)@ + framed(msg@),
{
    let ghost before = buf@;
    let bytes = msg.as_str().as_bytes();
    buf.extend_from_slice(bytes);
    buf.push(NEWLINE);
    assert(buf@ =~= before + framed(msg@));
}

/// Whether `line` holds no newline character.
pub open spec fn single_line(line: Seq<char>) -> bool {
    forall|i: int| 0 <= i < line.len() ==> line[i] != '\n'
}

/// The UTF-8 encoding of a character other than a newline holds no newline
/// byte: bytes of multi-byte encodings all have their high bit set.
proof fn lemma_scalar_newline_free(c: char)
    requires
        c != '\n',
    ensures
        newline_free(encode_scalar(c as u32)),
{
    let v = c as u32;
    assert(v != 10u32);
    if has_width_1_encoding(v) {
        assert(((v & 0x7F) as u8) != 10u8) by (bit_vector)
            requires
                v <= 0x7F,
                v != 10u32,
        ;
    } else {
        assert(forall|y: u8| #![auto] (0x80u8 | y) != 10u8) by (bit_vector);
        assert(forall|y: u8| #![auto] (0xC0u8 | y) != 10u8) by (bit_vector);
        assert(forall|y: u8| #![auto] (0xE0u8 | y) != 10u8) by (bit_vector);
        assert(forall|y: u8| #![auto] (0xF0u8 | y) != 10u8) by (bit_vector);
    }
}

/// The UTF-8 encoding of a single line holds no newline byte.
proof fn lemma_encoding_newline_free(line: Seq<char>)
    requires
        single_line(line),
    ensures
        newline_free(encode_utf8(line)),
    decreases line.len(),
{
    if line.len() > 0 {
        lemma_scalar_newline_free(line[0]);
        let tail = line.drop_first();
        assert(single_line(tail)) by {
            assert forall|i: int| 0 <= i < tail.len() implies tail[i] != '\n' by {
                assert(tail[i] == line[i + 1]);
            }
        }
        lemma_encoding_newline_free(tail);
        let head = encode_scalar(line[0] as u32);
        let whole = encode_utf8(line);
        assert(whole == head + encode_utf8(tail));
        assert forall|i: int| 0 <= i < whole.len() implies whole[i] != NEWLINE by {
            if i < head.len() {
                assert(whole[i] == head[i]);
            } else {
                assert(whole[i] == encode_utf8(tail)[i - head.len()]);
            }
        }
    }
}

/// A line goes through the framing unchanged: framing a single line and
/// following it with any bytes, the first frame is exactly the line's UTF-8
/// encoding, the bytes after it are what followed, and that encoding is
/// valid UTF-8 that decodes back to the line.
pub proof fn law_frame_roundtrip(line: Seq<char>, rest: Seq<u8>)
    requires
        single_line(line),
    ensures
        first_frame(framed(line) + rest) == Some((encode_utf8(line), rest)),
        valid_utf8(encode_utf8(line)),
        decode_utf8(encode_utf8(line)) == line,
{
    let enc = encode_utf8(line);
    let bytes = framed(line) + rest;
    let n = enc.len() as int;
    lemma_encoding_newline_free(line);
    assert(bytes[n] == NEWLINE);
    assert(bytes.take(n) =~= enc);
    assert(first_newline_at(bytes, n));
    let m = choose|m: int| first_newline_at(bytes, m);
    lemma_first_newline_unique(bytes, n, m);
    assert(bytes.skip(n + 1) =~= rest);
    encode_utf8_valid_utf8(line);
    encode_utf8_decode_utf8(line);
}

/// Bytes without a newline hold no complete frame yet.
pub proof fn law_no_frame_without_newline(bytes: Seq<u8>)
    requires
        newline_free(bytes),
    ensures
        first_frame(bytes) is None,
{
    if exists|n: int| first_newline_at(bytes, n) {
        let n = choose|n: int| first_newline_at(bytes, n);
        assert(bytes[n] == NEWLINE);
    }
}

} // verus!
