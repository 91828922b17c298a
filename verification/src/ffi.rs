//! Everything the library offers to a caller, in one flat namespace.

pub use crate::avutil::_avutil::{AV_NOPTS_VALUE, AV_TIME_BASE, AV_TIME_BASE_Q};
pub use crate::avutil::common::{MKBETAG, MKTAG};
pub use crate::avutil::error::{
    c_string_len, errbuf_to_string, AVERROR, AVERROR_BSF_NOT_FOUND, AVERROR_BUFFER_TOO_SMALL,
    AVERROR_BUG, AVERROR_BUG2, AVERROR_DECODER_NOT_FOUND, AVERROR_DEMUXER_NOT_FOUND,
    AVERROR_ENCODER_NOT_FOUND, AVERROR_EOF, AVERROR_EXIT, AVERROR_EXTERNAL,
    AVERROR_FILTER_NOT_FOUND, AVERROR_HTTP_BAD_REQUEST, AVERROR_HTTP_FORBIDDEN,
    AVERROR_HTTP_NOT_FOUND, AVERROR_HTTP_OTHER_4XX, AVERROR_HTTP_SERVER_ERROR,
    AVERROR_HTTP_UNAUTHORIZED, AVERROR_INVALIDDATA, AVERROR_MUXER_NOT_FOUND,
    AVERROR_OPTION_NOT_FOUND, AVERROR_PATCHWELCOME, AVERROR_PROTOCOL_NOT_FOUND,
    AVERROR_STREAM_NOT_FOUND, AVERROR_UNKNOWN, AVUNERROR, AV_ERROR_MAX_STRING_SIZE, FFERRTAG,
};
pub use crate::avutil::pixfmt::{AVPixelFormat, AVPixelFormatNE};
pub use crate::avutil::rational::{av_cmp_q, av_inv_q, av_make_q, AVRational};
