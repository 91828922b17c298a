use rusty_ffmpeg::ffi::{
    AVERROR, AVERROR_BSF_NOT_FOUND, AVERROR_BUFFER_TOO_SMALL, AVERROR_BUG, AVERROR_BUG2,
    AVERROR_DECODER_NOT_FOUND, AVERROR_DEMUXER_NOT_FOUND, AVERROR_ENCODER_NOT_FOUND, AVERROR_EOF,
    AVERROR_EXIT, AVERROR_EXTERNAL, AVERROR_FILTER_NOT_FOUND, AVERROR_HTTP_BAD_REQUEST,
    AVERROR_HTTP_FORBIDDEN, AVERROR_HTTP_NOT_FOUND, AVERROR_HTTP_OTHER_4XX,
    AVERROR_HTTP_SERVER_ERROR, AVERROR_HTTP_UNAUTHORIZED, AVERROR_INVALIDDATA,
    AVERROR_MUXER_NOT_FOUND, AVERROR_OPTION_NOT_FOUND, AVERROR_PATCHWELCOME,
    AVERROR_PROTOCOL_NOT_FOUND, AVERROR_STREAM_NOT_FOUND, AVERROR_UNKNOWN, AVUNERROR, AV_NOPTS_VALUE,
    AV_TIME_BASE, AV_TIME_BASE_Q, AVRational, FFERRTAG, MKBETAG, MKTAG,
};

#[test]
fn mktag_puts_the_first_byte_lowest() {
    assert_eq!(MKTAG(b'E', b'O', b'F', b' '), 0x20464F45);
    assert_eq!(MKTAG(0x01, 0x02, 0x03, 0x04), 0x04030201);
    assert_eq!(MKTAG(0, 0, 0, 0), 0);
    assert_eq!(MKTAG(0xFF, 0xFF, 0xFF, 0xFF), u32::MAX);
    assert_eq!(MKTAG(0xFF, 0, 0, 0), 0xFF);
    assert_eq!(MKTAG(0, 0, 0, 0x80), 0x8000_0000);
    assert_eq!(MKTAG(1, 2, 3, 4).to_le_bytes(), [1, 2, 3, 4]);
}

#[test]
fn mkbetag_puts_the_first_byte_highest() {
    assert_eq!(MKBETAG(b'E', b'O', b'F', b' '), 0x454F4620);
    assert_eq!(MKBETAG(0x01, 0x02, 0x03, 0x04), 0x01020304);
    assert_eq!(MKBETAG(0, 0, 0, 0), 0);
    assert_eq!(MKBETAG(0xFF, 0xFF, 0xFF, 0xFF), u32::MAX);
    assert_eq!(MKBETAG(0xFF, 0, 0, 0), 0xFF00_0000);
    assert_eq!(MKBETAG(1, 2, 3, 4).to_be_bytes(), [1, 2, 3, 4]);
}

#[test]
fn the_two_packings_mirror_each_other() {
    let bytes = [0x00, 0x01, 0x20, 0x7F, 0x80, 0xF8, 0xFF];
    for &a in &bytes {
        for &b in &bytes {
            for &c in &bytes {
                for &d in &bytes {
                    assert_eq!(MKBETAG(a, b, c, d), MKTAG(d, c, b, a));
                    assert_eq!(MKBETAG(a, b, c, d), MKTAG(a, b, c, d).swap_bytes());
                }
            }
        }
    }
}

#[test]
fn averror_negates_an_errno_value() {
    assert_eq!(AVERROR(libc::EINVAL as u32), -libc::EINVAL);
    assert_eq!(AVERROR(libc::EAGAIN as u32), -libc::EAGAIN);
    assert_eq!(AVERROR(libc::ENOMEM as u32), -libc::ENOMEM);
    assert_eq!(AVERROR(22), -22);
    assert_eq!(AVERROR(0), 0);
    assert_eq!(AVERROR(1), -1);
    assert_eq!(AVERROR(0x7FFF_FFFF), -i32::MAX);
}

#[test]
fn averror_reads_a_high_word_as_a_negative_int() {
    assert_eq!(AVERROR(u32::MAX), 1);
    assert_eq!(AVERROR(0x8000_0001), i32::MAX);
    assert_eq!(AVERROR(0xFFFF_FFEA), 22);
}

#[test]
fn avunerror_is_the_same_negation() {
    assert_eq!(AVUNERROR(22), -22);
    assert_eq!(AVUNERROR(0), 0);
    assert_eq!(AVUNERROR((-22i32) as u32), 22);
    assert_eq!(AVUNERROR(AVERROR_EOF as u32), 0x20464F45);
    for &e in &[0u32, 1, 11, 22, 0x7FFF_FFFF, 0x8000_0001, 0xFFFF_FFFF] {
        assert_eq!(AVUNERROR(e), AVERROR(e));
    }
}

#[test]
fn negating_twice_gives_the_errno_value_back() {
    for &e in &[0u32, 1, 11, 12, 22, 0x20464F45, 0x7FFF_FFFF] {
        assert_eq!(AVUNERROR(AVERROR(e) as u32) as u32, e);
    }
}

#[test]
fn fferrtag_is_the_negated_tag() {
    assert_eq!(FFERRTAG(b'E', b'O', b'F', b' '), -541478725);
    assert_eq!(FFERRTAG(b'E', b'O', b'F', b' '), -(MKTAG(b'E', b'O', b'F', b' ') as i32));
    assert_eq!(FFERRTAG(0, 0, 0, 0), 0);
    assert_eq!(FFERRTAG(0xFF, 0xFF, 0xFF, 0x7F), -i32::MAX);
    assert_eq!(FFERRTAG(0xFF, 0xFF, 0xFF, 0xFF), 1);
}

#[test]
fn named_codes_are_the_tags_of_their_letters() {
    assert_eq!(AVERROR_BSF_NOT_FOUND, FFERRTAG(0xF8, b'B', b'S', b'F'));
    assert_eq!(AVERROR_BUG, FFERRTAG(b'B', b'U', b'G', b'!'));
    assert_eq!(AVERROR_BUFFER_TOO_SMALL, FFERRTAG(b'B', b'U', b'F', b'S'));
    assert_eq!(AVERROR_DECODER_NOT_FOUND, FFERRTAG(0xF8, b'D', b'E', b'C'));
    assert_eq!(AVERROR_DEMUXER_NOT_FOUND, FFERRTAG(0xF8, b'D', b'E', b'M'));
    assert_eq!(AVERROR_ENCODER_NOT_FOUND, FFERRTAG(0xF8, b'E', b'N', b'C'));
    assert_eq!(AVERROR_EOF, FFERRTAG(b'E', b'O', b'F', b' '));
    assert_eq!(AVERROR_EXIT, FFERRTAG(b'E', b'X', b'I', b'T'));
    assert_eq!(AVERROR_EXTERNAL, FFERRTAG(b'E', b'X', b'T', b' '));
    assert_eq!(AVERROR_FILTER_NOT_FOUND, FFERRTAG(0xF8, b'F', b'I', b'L'));
    assert_eq!(AVERROR_INVALIDDATA, FFERRTAG(b'I', b'N', b'D', b'A'));
    assert_eq!(AVERROR_MUXER_NOT_FOUND, FFERRTAG(0xF8, b'M', b'U', b'X'));
    assert_eq!(AVERROR_OPTION_NOT_FOUND, FFERRTAG(0xF8, b'O', b'P', b'T'));
    assert_eq!(AVERROR_PATCHWELCOME, FFERRTAG(b'P', b'A', b'W', b'E'));
    assert_eq!(AVERROR_PROTOCOL_NOT_FOUND, FFERRTAG(0xF8, b'P', b'R', b'O'));
    assert_eq!(AVERROR_STREAM_NOT_FOUND, FFERRTAG(0xF8, b'S', b'T', b'R'));
    assert_eq!(AVERROR_BUG2, FFERRTAG(b'B', b'U', b'G', b' '));
    assert_eq!(AVERROR_UNKNOWN, FFERRTAG(b'U', b'N', b'K', b'N'));
    assert_eq!(AVERROR_HTTP_BAD_REQUEST, FFERRTAG(0xF8, b'4', b'0', b'0'));
    assert_eq!(AVERROR_HTTP_UNAUTHORIZED, FFERRTAG(0xF8, b'4', b'0', b'1'));
    assert_eq!(AVERROR_HTTP_FORBIDDEN, FFERRTAG(0xF8, b'4', b'0', b'3'));
    assert_eq!(AVERROR_HTTP_NOT_FOUND, FFERRTAG(0xF8, b'4', b'0', b'4'));
    assert_eq!(AVERROR_HTTP_OTHER_4XX, FFERRTAG(0xF8, b'4', b'X', b'X'));
    assert_eq!(AVERROR_HTTP_SERVER_ERROR, FFERRTAG(0xF8, b'5', b'X', b'X'));
}

#[test]
fn named_codes_have_their_known_values() {
    assert_eq!(AVERROR_EOF, -541478725);
    assert_eq!(AVERROR_BUG, -558323010);
    assert_eq!(AVERROR_INVALIDDATA, -1094995529);
    assert_eq!(AVERROR_BSF_NOT_FOUND, -1179861752);
    assert_eq!(AVERROR_UNKNOWN, -1313558101);
    assert_eq!(AVERROR_HTTP_NOT_FOUND, -875574520);
}

#[test]
fn time_constants() {
    assert_eq!(AV_NOPTS_VALUE, 0x8000000000000000u64 as i64);
    assert_eq!(AV_NOPTS_VALUE, i64::MIN);
    assert_eq!(AV_TIME_BASE, 1_000_000);
    assert_eq!(AV_TIME_BASE_Q(), AVRational { num: 1, den: 1_000_000 });
}
