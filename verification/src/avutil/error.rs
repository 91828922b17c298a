//! Error codes: negated four-character tags and negated `errno` values, and
//! the text that a NUL-terminated description buffer holds.

use crate::avutil::common::{packed_word, MKTAG};
use libc::c_int;
use vstd::prelude::*;
use vstd::slice::slice_subrange;
use vstd::utf8::{decode_utf8, encode_utf8, is_ascii_chars, valid_utf8};

verus! {

/// No bitstream filter of that name: tag `F8 'B' 'S' 'F'`.
pub const AVERROR_BSF_NOT_FOUND: c_int = -0x465342F8;

/// An internal inconsistency was met: tag `'B' 'U' 'G' '!'`.
pub const AVERROR_BUG: c_int = -0x21475542;

/// The buffer given is too small: tag `'B' 'U' 'F' 'S'`.
pub const AVERROR_BUFFER_TOO_SMALL: c_int = -0x53465542;

/// No decoder for the stream: tag `F8 'D' 'E' 'C'`.
pub const AVERROR_DECODER_NOT_FOUND: c_int = -0x434544F8;

/// No demuxer for the input: tag `F8 'D' 'E' 'M'`.
pub const AVERROR_DEMUXER_NOT_FOUND: c_int = -0x4D4544F8;

/// No encoder of that kind: tag `F8 'E' 'N' 'C'`.
pub const AVERROR_ENCODER_NOT_FOUND: c_int = -0x434E45F8;

/// The end of the input was reached: tag `'E' 'O' 'F' ' '`.
pub const AVERROR_EOF: c_int = -0x20464F45;

/// An immediate exit was asked for: tag `'E' 'X' 'I' 'T'`.
pub const AVERROR_EXIT: c_int = -0x54495845;

/// An external library failed: tag `'E' 'X' 'T' ' '`.
pub const AVERROR_EXTERNAL: c_int = -0x20545845;

/// No filter of that name: tag `F8 'F' 'I' 'L'`.
pub const AVERROR_FILTER_NOT_FOUND: c_int = -0x4C4946F8;

/// The input holds invalid data: tag `'I' 'N' 'D' 'A'`.
pub const AVERROR_INVALIDDATA: c_int = -0x41444E49;

/// No muxer for the output: tag `F8 'M' 'U' 'X'`.
pub const AVERROR_MUXER_NOT_FOUND: c_int = -0x58554DF8;

/// No option of that name: tag `F8 'O' 'P' 'T'`.
pub const AVERROR_OPTION_NOT_FOUND: c_int = -0x54504FF8;

/// The feature is not implemented yet: tag `'P' 'A' 'W' 'E'`.
pub const AVERROR_PATCHWELCOME: c_int = -0x45574150;

/// No protocol of that name: tag `F8 'P' 'R' 'O'`.
pub const AVERROR_PROTOCOL_NOT_FOUND: c_int = -0x4F5250F8;

/// No stream of that kind: tag `F8 'S' 'T' 'R'`.
pub const AVERROR_STREAM_NOT_FOUND: c_int = -0x525453F8;

/// An internal inconsistency, under its second code: tag `'B' 'U' 'G' ' '`.
pub const AVERROR_BUG2: c_int = -0x20475542;

/// An error of unknown kind: tag `'U' 'N' 'K' 'N'`.
pub const AVERROR_UNKNOWN: c_int = -0x4E4B4E55;

/// HTTP status 400: tag `F8 '4' '0' '0'`.
pub const AVERROR_HTTP_BAD_REQUEST: c_int = -0x303034F8;

/// HTTP status 401: tag `F8 '4' '0' '1'`.
pub const AVERROR_HTTP_UNAUTHORIZED: c_int = -0x313034F8;

/// HTTP status 403: tag `F8 '4' '0' '3'`.
pub const AVERROR_HTTP_FORBIDDEN: c_int = -0x333034F8;

/// HTTP status 404: tag `F8 '4' '0' '4'`.
pub const AVERROR_HTTP_NOT_FOUND: c_int = -0x343034F8;

/// Another HTTP status from 400 to 499: tag `F8 '4' 'X' 'X'`.
pub const AVERROR_HTTP_OTHER_4XX: c_int = -0x585834F8;

/// An HTTP status from 500 to 599: tag `F8 '5' 'X' 'X'`.
pub const AVERROR_HTTP_SERVER_ERROR: c_int = -0x585835F8;

/// The size of a buffer that holds any error description with its NUL.
pub const AV_ERROR_MAX_STRING_SIZE: usize = 64;

/// A 32-bit word read as a C `int` in two's complement.
pub open spec fn signed_value(word: int) -> int {
    if word < 0x8000_0000 {
        word
    } else {
        word - 0x1_0000_0000
    }
}

/// A C `int` read as a 32-bit word in two's complement.
pub open spec fn unsigned_word(value: int) -> int {
    if value < 0 {
        value + 0x1_0000_0000
    } else {
        value
    }
}

/// The error code that stands for `e`: the additive inverse of `e` read as a
/// C `int`.
pub open spec fn negated(e: int) -> int {
    -signed_value(e)
}

/// Turns an `errno` value into an error code by negating it.
///
/// The one word without an additive inverse among the C `int`s is left out.
#[allow(non_snake_case)]
pub fn AVERROR(e: u32) -> (code: c_int)
    requires
        e != 0x8000_0000,
    ensures
        code == negated(e as int),
{
    assert(e as c_int == if e < 0x8000_0000 {
        e as int
    } else {
        e - 0x1_0000_0000
    }) by (bit_vector);
    -(e as c_int)
}

/// Turns an error code, given as a word, back into the `errno` value by
/// negating it: the same operation as [`AVERROR`] under its other name.
#[allow(non_snake_case)]
pub fn AVUNERROR(e: u32) -> (code: c_int)
    requires
        e != 0x8000_0000,
    ensures
        code == negated(e as int),
{
    assert(e as c_int == if e < 0x8000_0000 {
        e as int
    } else {
        e - 0x1_0000_0000
    }) by (bit_vector);
    -(e as c_int)
}

/// The error code of a four-character tag: the negated packing of the four
/// bytes, first byte least significant.
#[allow(non_snake_case)]
pub fn FFERRTAG(a: u8, b: u8, c: u8, d: u8) -> (code: c_int)
    requires
        packed_word(a, b, c, d) != 0x8000_0000,
    ensures
        code == negated(packed_word(a, b, c, d)),
{
    AVERROR(MKTAG(a, b, c, d))
}

/// Negating twice gives the value back: what [`AVERROR`] makes of a word,
/// [`AVUNERROR`] turns into that word's value again.
pub proof fn lemma_negated_round_trip(e: u32)
    requires
        e != 0x8000_0000,
    ensures
        negated(unsigned_word(negated(e as int))) == signed_value(e as int),
        e < 0x8000_0000 ==> negated(unsigned_word(negated(e as int))) == e,
{
}

/// Each named error code is the negated tag of its four characters.
pub proof fn lemma_error_codes_are_negated_tags()
    ensures
        AVERROR_BSF_NOT_FOUND == negated(packed_word(0xF8, 'B' as u8, 'S' as u8, 'F' as u8)),
        AVERROR_BUG == negated(packed_word('B' as u8, 'U' as u8, 'G' as u8, '!' as u8)),
        AVERROR_BUFFER_TOO_SMALL == negated(packed_word('B' as u8, 'U' as u8, 'F' as u8, 'S' as u8)),
        AVERROR_DECODER_NOT_FOUND == negated(packed_word(0xF8, 'D' as u8, 'E' as u8, 'C' as u8)),
        AVERROR_DEMUXER_NOT_FOUND == negated(packed_word(0xF8, 'D' as u8, 'E' as u8, 'M' as u8)),
        AVERROR_ENCODER_NOT_FOUND == negated(packed_word(0xF8, 'E' as u8, 'N' as u8, 'C' as u8)),
        AVERROR_EOF == negated(packed_word('E' as u8, 'O' as u8, 'F' as u8, ' ' as u8)),
        AVERROR_EXIT == negated(packed_word('E' as u8, 'X' as u8, 'I' as u8, 'T' as u8)),
        AVERROR_EXTERNAL == negated(packed_word('E' as u8, 'X' as u8, 'T' as u8, ' ' as u8)),
        AVERROR_FILTER_NOT_FOUND == negated(packed_word(0xF8, 'F' as u8, 'I' as u8, 'L' as u8)),
        AVERROR_INVALIDDATA == negated(packed_word('I' as u8, 'N' as u8, 'D' as u8, 'A' as u8)),
        AVERROR_MUXER_NOT_FOUND == negated(packed_word(0xF8, 'M' as u8, 'U' as u8, 'X' as u8)),
        AVERROR_OPTION_NOT_FOUND == negated(packed_word(0xF8, 'O' as u8, 'P' as u8, 'T' as u8)),
        AVERROR_PATCHWELCOME == negated(packed_word('P' as u8, 'A' as u8, 'W' as u8, 'E' as u8)),
        AVERROR_PROTOCOL_NOT_FOUND == negated(packed_word(0xF8, 'P' as u8, 'R' as u8, 'O' as u8)),
        AVERROR_STREAM_NOT_FOUND == negated(packed_word(0xF8, 'S' as u8, 'T' as u8, 'R' as u8)),
        AVERROR_BUG2 == negated(packed_word('B' as u8, 'U' as u8, 'G' as u8, ' ' as u8)),
        AVERROR_UNKNOWN == negated(packed_word('U' as u8, 'N' as u8, 'K' as u8, 'N' as u8)),
        AVERROR_HTTP_BAD_REQUEST == negated(packed_word(0xF8, '4' as u8, '0' as u8, '0' as u8)),
        AVERROR_HTTP_UNAUTHORIZED == negated(packed_word(0xF8, '4' as u8, '0' as u8, '1' as u8)),
        AVERROR_HTTP_FORBIDDEN == negated(packed_word(0xF8, '4' as u8, '0' as u8, '3' as u8)),
        AVERROR_HTTP_NOT_FOUND == negated(packed_word(0xF8, '4' as u8, '0' as u8, '4' as u8)),
        AVERROR_HTTP_OTHER_4XX == negated(packed_word(0xF8, '4' as u8, 'X' as u8, 'X' as u8)),
        AVERROR_HTTP_SERVER_ERROR == negated(packed_word(0xF8, '5' as u8, 'X' as u8, 'X' as u8)),
{
}

/// `n` is where the C string in `buf` ends: at the first NUL, or at the end
/// of `buf` where it holds none.
pub open spec fn is_terminator_index(buf: Seq<u8>, n: int) -> bool {
    &&& 0 <= n <= buf.len()
    &&& forall|i: int| 0 <= i < n ==> buf[i] != 0
    &&& n < buf.len() ==> buf[n] == 0
}

/// The index at which the C string in `buf` ends.
pub open spec fn terminator_index(buf: Seq<u8>) -> int {
    choose|n: int| is_terminator_index(buf, n)
}

/// The bytes of the C string in `buf`: all that stand before the first NUL.
pub open spec fn c_string_bytes(buf: Seq<u8>) -> Seq<u8> {
    buf.subrange(0, terminator_index(buf))
}

/// Every byte is an ASCII code.
pub open spec fn is_ascii_bytes(bytes: Seq<u8>) -> bool {
    forall|i: int| 0 <= i < bytes.len() ==> bytes[i] < 0x80
}

/// The characters whose codes are the given bytes.
pub open spec fn ascii_text(bytes: Seq<u8>) -> Seq<char> {
    Seq::new(bytes.len(), |i: int| bytes[i] as char)
}

/// From index `k` on, with no NUL before it, an end of the C string is found.
proof fn lemma_terminator_exists_from(buf: Seq<u8>, k: int)
    requires
        0 <= k <= buf.len(),
        forall|i: int| 0 <= i < k ==> buf[i] != 0,
    ensures
        exists|n: int| is_terminator_index(buf, n),
    decreases buf.len() - k,
{
    if k == buf.len() || buf[k] == 0 {
        assert(is_terminator_index(buf, k));
    } else {
        lemma_terminator_exists_from(buf, k + 1);
    }
}

/// Every buffer has exactly one index at which its C string ends.
pub proof fn lemma_terminator_index(buf: Seq<u8>)
    ensures
        is_terminator_index(buf, terminator_index(buf)),
        forall|n: int| is_terminator_index(buf, n) ==> n == terminator_index(buf),
{
    lemma_terminator_exists_from(buf, 0);
    let m = terminator_index(buf);
    assert forall|n: int| is_terminator_index(buf, n) implies n == m by {
        if n < m {
            assert(buf[n] == 0);
        } else if m < n {
            assert(buf[m] == 0);
        }
    }
}

/// ASCII bytes are valid UTF-8 and decode to the characters with their codes.
pub proof fn lemma_ascii_bytes_decode(bytes: Seq<u8>)
    requires
        is_ascii_bytes(bytes),
    ensures
        valid_utf8(bytes),
        decode_utf8(bytes) == ascii_text(bytes),
{
    let text = ascii_text(bytes);
    assert(is_ascii_chars(text));
    vstd::utf8::is_ascii_chars_encode_utf8(text);
    assert(encode_utf8(text) =~= bytes);
    vstd::utf8::encode_utf8_valid_utf8(text);
    vstd::utf8::encode_utf8_decode_utf8(text);
}

/// The length of the C string in `buf`.
pub fn c_string_len(buf: &[u8]) -> (n: usize)
    ensures
        n == terminator_index(buf@),
{
    let mut i: usize = 0;
    while i < buf.len() && buf[i] != 0
        invariant
            i <= buf.len(),
            forall|j: int| 0 <= j < i ==> buf@[j] != 0,
        decreases buf.len() - i,
    {
        i += 1;
    }
    proof {
        assert(is_terminator_index(buf@, i as int));
        lemma_terminator_index(buf@);
    }
    i
}

/// What `String::from_utf8_lossy` makes of a byte sequence: the text that the
/// bytes encode, with a replacement character for each part that is no UTF-8.
pub uninterp spec fn utf8_lossy(bytes: Seq<u8>) -> Seq<char>;

/// `String::from_utf8_lossy`, with the result as an owned `String`.
///
/// Taken on trust: the result depends on the bytes alone, and bytes that are
/// valid UTF-8 come back as the text they encode.
#[verifier::external_body]
fn from_utf8_lossy(bytes: &[u8]) -> (text: String)
    ensures
        text@ == utf8_lossy(bytes@),
        valid_utf8(bytes@) ==> text@ == decode_utf8(bytes@),
{
    String::from_utf8_lossy(bytes).into_owned()
}

/// Reads the description that a formatter left in `errbuf`: the text of the
/// bytes before the first NUL, or of the whole buffer where no NUL was
/// written. Nothing past the end of `errbuf` is read.
pub fn errbuf_to_string(errbuf: &[u8]) -> (text: String)
    ensures
        text@ == utf8_lossy(c_string_bytes(errbuf@)),
        valid_utf8(c_string_bytes(errbuf@)) ==> text@ == decode_utf8(c_string_bytes(errbuf@)),
        is_ascii_bytes(c_string_bytes(errbuf@)) ==> text@ == ascii_text(c_string_bytes(errbuf@)),
{
    let n: usize = c_string_len(errbuf);
    proof {
        lemma_terminator_index(errbuf@);
        if is_ascii_bytes(c_string_bytes(errbuf@)) {
            lemma_ascii_bytes_decode(c_string_bytes(errbuf@));
        }
    }
    from_utf8_lossy(slice_subrange(errbuf, 0, n))
}

} // verus!
