//! Pixel formats named without a byte order, and the format that each of
//! them stands for on a big-endian and on a little-endian target.
//!
//! Which of the two a build uses is fixed with the target, so the byte order
//! comes in as a flag that the caller knows from its build configuration.

use vstd::prelude::*;

verus! {

/// A pixel format whose name fixes the order of its bytes in memory.
#[allow(non_camel_case_types)]
#[derive(Clone, Copy, Debug, PartialEq, Eq, Hash, Structural)]
pub enum AVPixelFormat {
    AV_PIX_FMT_ARGB,
    AV_PIX_FMT_RGBA,
    AV_PIX_FMT_ABGR,
    AV_PIX_FMT_BGRA,
    AV_PIX_FMT_0RGB,
    AV_PIX_FMT_RGB0,
    AV_PIX_FMT_0BGR,
    AV_PIX_FMT_BGR0,
    AV_PIX_FMT_GRAY9BE,
    AV_PIX_FMT_GRAY9LE,
    AV_PIX_FMT_GRAY10BE,
    AV_PIX_FMT_GRAY10LE,
    AV_PIX_FMT_GRAY12BE,
    AV_PIX_FMT_GRAY12LE,
    AV_PIX_FMT_GRAY16BE,
    AV_PIX_FMT_GRAY16LE,
    AV_PIX_FMT_YA16BE,
    AV_PIX_FMT_YA16LE,
    AV_PIX_FMT_RGB48BE,
    AV_PIX_FMT_RGB48LE,
    AV_PIX_FMT_RGB565BE,
    AV_PIX_FMT_RGB565LE,
    AV_PIX_FMT_RGB555BE,
    AV_PIX_FMT_RGB555LE,
    AV_PIX_FMT_RGB444BE,
    AV_PIX_FMT_RGB444LE,
    AV_PIX_FMT_RGBA64BE,
    AV_PIX_FMT_RGBA64LE,
    AV_PIX_FMT_BGR48BE,
    AV_PIX_FMT_BGR48LE,
    AV_PIX_FMT_BGR565BE,
    AV_PIX_FMT_BGR565LE,
    AV_PIX_FMT_BGR555BE,
    AV_PIX_FMT_BGR555LE,
    AV_PIX_FMT_BGR444BE,
    AV_PIX_FMT_BGR444LE,
    AV_PIX_FMT_BGRA64BE,
    AV_PIX_FMT_BGRA64LE,
    AV_PIX_FMT_YUV420P9BE,
    AV_PIX_FMT_YUV420P9LE,
    AV_PIX_FMT_YUV422P9BE,
    AV_PIX_FMT_YUV422P9LE,
    AV_PIX_FMT_YUV444P9BE,
    AV_PIX_FMT_YUV444P9LE,
    AV_PIX_FMT_YUV420P10BE,
    AV_PIX_FMT_YUV420P10LE,
    AV_PIX_FMT_YUV422P10BE,
    AV_PIX_FMT_YUV422P10LE,
    AV_PIX_FMT_YUV440P10BE,
    AV_PIX_FMT_YUV440P10LE,
    AV_PIX_FMT_YUV444P10BE,
    AV_PIX_FMT_YUV444P10LE,
    AV_PIX_FMT_YUV420P12BE,
    AV_PIX_FMT_YUV420P12LE,
    AV_PIX_FMT_YUV422P12BE,
    AV_PIX_FMT_YUV422P12LE,
    AV_PIX_FMT_YUV440P12BE,
    AV_PIX_FMT_YUV440P12LE,
    AV_PIX_FMT_YUV444P12BE,
    AV_PIX_FMT_YUV444P12LE,
    AV_PIX_FMT_YUV420P14BE,
    AV_PIX_FMT_YUV420P14LE,
    AV_PIX_FMT_YUV422P14BE,
    AV_PIX_FMT_YUV422P14LE,
    AV_PIX_FMT_YUV444P14BE,
    AV_PIX_FMT_YUV444P14LE,
    AV_PIX_FMT_YUV420P16BE,
    AV_PIX_FMT_YUV420P16LE,
    AV_PIX_FMT_YUV422P16BE,
    AV_PIX_FMT_YUV422P16LE,
    AV_PIX_FMT_YUV444P16BE,
    AV_PIX_FMT_YUV444P16LE,
    AV_PIX_FMT_GBRP9BE,
    AV_PIX_FMT_GBRP9LE,
    AV_PIX_FMT_GBRP10BE,
    AV_PIX_FMT_GBRP10LE,
    AV_PIX_FMT_GBRP12BE,
    AV_PIX_FMT_GBRP12LE,
    AV_PIX_FMT_GBRP14BE,
    AV_PIX_FMT_GBRP14LE,
    AV_PIX_FMT_GBRP16BE,
    AV_PIX_FMT_GBRP16LE,
    AV_PIX_FMT_GBRAP10BE,
    AV_PIX_FMT_GBRAP10LE,
    AV_PIX_FMT_GBRAP12BE,
    AV_PIX_FMT_GBRAP12LE,
    AV_PIX_FMT_GBRAP16BE,
    AV_PIX_FMT_GBRAP16LE,
    AV_PIX_FMT_BAYER_BGGR16BE,
    AV_PIX_FMT_BAYER_BGGR16LE,
    AV_PIX_FMT_BAYER_RGGB16BE,
    AV_PIX_FMT_BAYER_RGGB16LE,
    AV_PIX_FMT_BAYER_GBRG16BE,
    AV_PIX_FMT_BAYER_GBRG16LE,
    AV_PIX_FMT_BAYER_GRBG16BE,
    AV_PIX_FMT_BAYER_GRBG16LE,
    AV_PIX_FMT_GBRPF32BE,
    AV_PIX_FMT_GBRPF32LE,
    AV_PIX_FMT_GBRAPF32BE,
    AV_PIX_FMT_GBRAPF32LE,
    AV_PIX_FMT_YUVA420P9BE,
    AV_PIX_FMT_YUVA420P9LE,
    AV_PIX_FMT_YUVA422P9BE,
    AV_PIX_FMT_YUVA422P9LE,
    AV_PIX_FMT_YUVA444P9BE,
    AV_PIX_FMT_YUVA444P9LE,
    AV_PIX_FMT_YUVA420P10BE,
    AV_PIX_FMT_YUVA420P10LE,
    AV_PIX_FMT_YUVA422P10BE,
    AV_PIX_FMT_YUVA422P10LE,
    AV_PIX_FMT_YUVA444P10BE,
    AV_PIX_FMT_YUVA444P10LE,
    AV_PIX_FMT_YUVA420P16BE,
    AV_PIX_FMT_YUVA420P16LE,
    AV_PIX_FMT_YUVA422P16BE,
    AV_PIX_FMT_YUVA422P16LE,
    AV_PIX_FMT_YUVA444P16BE,
    AV_PIX_FMT_YUVA444P16LE,
    AV_PIX_FMT_XYZ12BE,
    AV_PIX_FMT_XYZ12LE,
    AV_PIX_FMT_NV20BE,
    AV_PIX_FMT_NV20LE,
    AV_PIX_FMT_AYUV64BE,
    AV_PIX_FMT_AYUV64LE,
    AV_PIX_FMT_P010BE,
    AV_PIX_FMT_P010LE,
    AV_PIX_FMT_P016BE,
    AV_PIX_FMT_P016LE,
}

/// A pixel format named for the byte order of the target itself.
#[allow(non_camel_case_types)]
#[derive(Clone, Copy, Debug, PartialEq, Eq, Hash, Structural)]
pub enum AVPixelFormatNE {
    AV_PIX_FMT_RGB32,
    AV_PIX_FMT_RGB32_1,
    AV_PIX_FMT_BGR32,
    AV_PIX_FMT_BGR32_1,
    AV_PIX_FMT_0RGB32,
    AV_PIX_FMT_0BGR32,
    AV_PIX_FMT_GRAY9,
    AV_PIX_FMT_GRAY10,
    AV_PIX_FMT_GRAY12,
    AV_PIX_FMT_GRAY16,
    AV_PIX_FMT_YA16,
    AV_PIX_FMT_RGB48,
    AV_PIX_FMT_RGB565,
    AV_PIX_FMT_RGB555,
    AV_PIX_FMT_RGB444,
    AV_PIX_FMT_RGBA64,
    AV_PIX_FMT_BGR48,
    AV_PIX_FMT_BGR565,
    AV_PIX_FMT_BGR555,
    AV_PIX_FMT_BGR444,
    AV_PIX_FMT_BGRA64,
    AV_PIX_FMT_YUV420P9,
    AV_PIX_FMT_YUV422P9,
    AV_PIX_FMT_YUV444P9,
    AV_PIX_FMT_YUV420P10,
    AV_PIX_FMT_YUV422P10,
    AV_PIX_FMT_YUV440P10,
    AV_PIX_FMT_YUV444P10,
    AV_PIX_FMT_YUV420P12,
    AV_PIX_FMT_YUV422P12,
    AV_PIX_FMT_YUV440P12,
    AV_PIX_FMT_YUV444P12,
    AV_PIX_FMT_YUV420P14,
    AV_PIX_FMT_YUV422P14,
    AV_PIX_FMT_YUV444P14,
    AV_PIX_FMT_YUV420P16,
    AV_PIX_FMT_YUV422P16,
    AV_PIX_FMT_YUV444P16,
    AV_PIX_FMT_GBRP9,
    AV_PIX_FMT_GBRP10,
    AV_PIX_FMT_GBRP12,
    AV_PIX_FMT_GBRP14,
    AV_PIX_FMT_GBRP16,
    AV_PIX_FMT_GBRAP10,
    AV_PIX_FMT_GBRAP12,
    AV_PIX_FMT_GBRAP16,
    AV_PIX_FMT_BAYER_BGGR16,
    AV_PIX_FMT_BAYER_RGGB16,
    AV_PIX_FMT_BAYER_GBRG16,
    AV_PIX_FMT_BAYER_GRBG16,
    AV_PIX_FMT_GBRPF32,
    AV_PIX_FMT_GBRAPF32,
    AV_PIX_FMT_YUVA420P9,
    AV_PIX_FMT_YUVA422P9,
    AV_PIX_FMT_YUVA444P9,
    AV_PIX_FMT_YUVA420P10,
    AV_PIX_FMT_YUVA422P10,
    AV_PIX_FMT_YUVA444P10,
    AV_PIX_FMT_YUVA420P16,
    AV_PIX_FMT_YUVA422P16,
    AV_PIX_FMT_YUVA444P16,
    AV_PIX_FMT_XYZ12,
    AV_PIX_FMT_NV20,
    AV_PIX_FMT_AYUV64,
    AV_PIX_FMT_P010,
    AV_PIX_FMT_P016,
}

impl AVPixelFormatNE {
    /// The format that the name stands for on a big-endian target.
    pub open spec fn big_endian(self) -> AVPixelFormat {
        match self {
            Self::AV_PIX_FMT_RGB32 => AVPixelFormat::AV_PIX_FMT_ARGB,
            Self::AV_PIX_FMT_RGB32_1 => AVPixelFormat::AV_PIX_FMT_RGBA,
            Self::AV_PIX_FMT_BGR32 => AVPixelFormat::AV_PIX_FMT_ABGR,
            Self::AV_PIX_FMT_BGR32_1 => AVPixelFormat::AV_PIX_FMT_BGRA,
            Self::AV_PIX_FMT_0RGB32 => AVPixelFormat::AV_PIX_FMT_0RGB,
            Self::AV_PIX_FMT_0BGR32 => AVPixelFormat::AV_PIX_FMT_0BGR,
            Self::AV_PIX_FMT_GRAY9 => AVPixelFormat::AV_PIX_FMT_GRAY9BE,
            Self::AV_PIX_FMT_GRAY10 => AVPixelFormat::AV_PIX_FMT_GRAY10BE,
            Self::AV_PIX_FMT_GRAY12 => AVPixelFormat::AV_PIX_FMT_GRAY12BE,
            Self::AV_PIX_FMT_GRAY16 => AVPixelFormat::AV_PIX_FMT_GRAY16BE,
            Self::AV_PIX_FMT_YA16 => AVPixelFormat::AV_PIX_FMT_YA16BE,
            Self::AV_PIX_FMT_RGB48 => AVPixelFormat::AV_PIX_FMT_RGB48BE,
            Self::AV_PIX_FMT_RGB565 => AVPixelFormat::AV_PIX_FMT_RGB565BE,
            Self::AV_PIX_FMT_RGB555 => AVPixelFormat::AV_PIX_FMT_RGB555BE,
            Self::AV_PIX_FMT_RGB444 => AVPixelFormat::AV_PIX_FMT_RGB444BE,
            Self::AV_PIX_FMT_RGBA64 => AVPixelFormat::AV_PIX_FMT_RGBA64BE,
            Self::AV_PIX_FMT_BGR48 => AVPixelFormat::AV_PIX_FMT_BGR48BE,
            Self::AV_PIX_FMT_BGR565 => AVPixelFormat::AV_PIX_FMT_BGR565BE,
            Self::AV_PIX_FMT_BGR555 => AVPixelFormat::AV_PIX_FMT_BGR555BE,
            Self::AV_PIX_FMT_BGR444 => AVPixelFormat::AV_PIX_FMT_BGR444BE,
            Self::AV_PIX_FMT_BGRA64 => AVPixelFormat::AV_PIX_FMT_BGRA64BE,
            Self::AV_PIX_FMT_YUV420P9 => AVPixelFormat::AV_PIX_FMT_YUV420P9BE,
            Self::AV_PIX_FMT_YUV422P9 => AVPixelFormat::AV_PIX_FMT_YUV422P9BE,
            Self::AV_PIX_FMT_YUV444P9 => AVPixelFormat::AV_PIX_FMT_YUV444P9BE,
            Self::AV_PIX_FMT_YUV420P10 => AVPixelFormat::AV_PIX_FMT_YUV420P10BE,
            Self::AV_PIX_FMT_YUV422P10 => AVPixelFormat::AV_PIX_FMT_YUV422P10BE,
            Self::AV_PIX_FMT_YUV440P10 => AVPixelFormat::AV_PIX_FMT_YUV440P10BE,
            Self::AV_PIX_FMT_YUV444P10 => AVPixelFormat::AV_PIX_FMT_YUV444P10BE,
            Self::AV_PIX_FMT_YUV420P12 => AVPixelFormat::AV_PIX_FMT_YUV420P12BE,
            Self::AV_PIX_FMT_YUV422P12 => AVPixelFormat::AV_PIX_FMT_YUV422P12BE,
            Self::AV_PIX_FMT_YUV440P12 => AVPixelFormat::AV_PIX_FMT_YUV440P12BE,
            Self::AV_PIX_FMT_YUV444P12 => AVPixelFormat::AV_PIX_FMT_YUV444P12BE,
            Self::AV_PIX_FMT_YUV420P14 => AVPixelFormat::AV_PIX_FMT_YUV420P14BE,
            Self::AV_PIX_FMT_YUV422P14 => AVPixelFormat::AV_PIX_FMT_YUV422P14BE,
            Self::AV_PIX_FMT_YUV444P14 => AVPixelFormat::AV_PIX_FMT_YUV444P14BE,
            Self::AV_PIX_FMT_YUV420P16 => AVPixelFormat::AV_PIX_FMT_YUV420P16BE,
            Self::AV_PIX_FMT_YUV422P16 => AVPixelFormat::AV_PIX_FMT_YUV422P16BE,
            Self::AV_PIX_FMT_YUV444P16 => AVPixelFormat::AV_PIX_FMT_YUV444P16BE,
            Self::AV_PIX_FMT_GBRP9 => AVPixelFormat::AV_PIX_FMT_GBRP9BE,
            Self::AV_PIX_FMT_GBRP10 => AVPixelFormat::AV_PIX_FMT_GBRP10BE,
            Self::AV_PIX_FMT_GBRP12 => AVPixelFormat::AV_PIX_FMT_GBRP12BE,
            Self::AV_PIX_FMT_GBRP14 => AVPixelFormat::AV_PIX_FMT_GBRP14BE,
            Self::AV_PIX_FMT_GBRP16 => AVPixelFormat::AV_PIX_FMT_GBRP16BE,
            Self::AV_PIX_FMT_GBRAP10 => AVPixelFormat::AV_PIX_FMT_GBRAP10BE,
            Self::AV_PIX_FMT_GBRAP12 => AVPixelFormat::AV_PIX_FMT_GBRAP12BE,
            Self::AV_PIX_FMT_GBRAP16 => AVPixelFormat::AV_PIX_FMT_GBRAP16BE,
            Self::AV_PIX_FMT_BAYER_BGGR16 => AVPixelFormat::AV_PIX_FMT_BAYER_BGGR16BE,
            Self::AV_PIX_FMT_BAYER_RGGB16 => AVPixelFormat::AV_PIX_FMT_BAYER_RGGB16BE,
            Self::AV_PIX_FMT_BAYER_GBRG16 => AVPixelFormat::AV_PIX_FMT_BAYER_GBRG16BE,
            Self::AV_PIX_FMT_BAYER_GRBG16 => AVPixelFormat::AV_PIX_FMT_BAYER_GRBG16BE,
            Self::AV_PIX_FMT_GBRPF32 => AVPixelFormat::AV_PIX_FMT_GBRPF32BE,
            Self::AV_PIX_FMT_GBRAPF32 => AVPixelFormat::AV_PIX_FMT_GBRAPF32BE,
            Self::AV_PIX_FMT_YUVA420P9 => AVPixelFormat::AV_PIX_FMT_YUVA420P9BE,
            Self::AV_PIX_FMT_YUVA422P9 => AVPixelFormat::AV_PIX_FMT_YUVA422P9BE,
            Self::AV_PIX_FMT_YUVA444P9 => AVPixelFormat::AV_PIX_FMT_YUVA444P9BE,
            Self::AV_PIX_FMT_YUVA420P10 => AVPixelFormat::AV_PIX_FMT_YUVA420P10BE,
            Self::AV_PIX_FMT_YUVA422P10 => AVPixelFormat::AV_PIX_FMT_YUVA422P10BE,
            Self::AV_PIX_FMT_YUVA444P10 => AVPixelFormat::AV_PIX_FMT_YUVA444P10BE,
            Self::AV_PIX_FMT_YUVA420P16 => AVPixelFormat::AV_PIX_FMT_YUVA420P16BE,
            Self::AV_PIX_FMT_YUVA422P16 => AVPixelFormat::AV_PIX_FMT_YUVA422P16BE,
            Self::AV_PIX_FMT_YUVA444P16 => AVPixelFormat::AV_PIX_FMT_YUVA444P16BE,
            Self::AV_PIX_FMT_XYZ12 => AVPixelFormat::AV_PIX_FMT_XYZ12BE,
            Self::AV_PIX_FMT_NV20 => AVPixelFormat::AV_PIX_FMT_NV20BE,
            Self::AV_PIX_FMT_AYUV64 => AVPixelFormat::AV_PIX_FMT_AYUV64BE,
            Self::AV_PIX_FMT_P010 => AVPixelFormat::AV_PIX_FMT_P010BE,
            Self::AV_PIX_FMT_P016 => AVPixelFormat::AV_PIX_FMT_P016BE,
        }
    }

    /// The format that the name stands for on a little-endian target.
    pub open spec fn little_endian(self) -> AVPixelFormat {
        match self {
            Self::AV_PIX_FMT_RGB32 => AVPixelFormat::AV_PIX_FMT_BGRA,
            Self::AV_PIX_FMT_RGB32_1 => AVPixelFormat::AV_PIX_FMT_ABGR,
            Self::AV_PIX_FMT_BGR32 => AVPixelFormat::AV_PIX_FMT_RGBA,
            Self::AV_PIX_FMT_BGR32_1 => AVPixelFormat::AV_PIX_FMT_ARGB,
            Self::AV_PIX_FMT_0RGB32 => AVPixelFormat::AV_PIX_FMT_BGR0,
            Self::AV_PIX_FMT_0BGR32 => AVPixelFormat::AV_PIX_FMT_RGB0,
            Self::AV_PIX_FMT_GRAY9 => AVPixelFormat::AV_PIX_FMT_GRAY9LE,
            Self::AV_PIX_FMT_GRAY10 => AVPixelFormat::AV_PIX_FMT_GRAY10LE,
            Self::AV_PIX_FMT_GRAY12 => AVPixelFormat::AV_PIX_FMT_GRAY12LE,
            Self::AV_PIX_FMT_GRAY16 => AVPixelFormat::AV_PIX_FMT_GRAY16LE,
            Self::AV_PIX_FMT_YA16 => AVPixelFormat::AV_PIX_FMT_YA16LE,
            Self::AV_PIX_FMT_RGB48 => AVPixelFormat::AV_PIX_FMT_RGB48LE,
            Self::AV_PIX_FMT_RGB565 => AVPixelFormat::AV_PIX_FMT_RGB565LE,
            Self::AV_PIX_FMT_RGB555 => AVPixelFormat::AV_PIX_FMT_RGB555LE,
            Self::AV_PIX_FMT_RGB444 => AVPixelFormat::AV_PIX_FMT_RGB444LE,
            Self::AV_PIX_FMT_RGBA64 => AVPixelFormat::AV_PIX_FMT_RGBA64LE,
            Self::AV_PIX_FMT_BGR48 => AVPixelFormat::AV_PIX_FMT_BGR48LE,
            Self::AV_PIX_FMT_BGR565 => AVPixelFormat::AV_PIX_FMT_BGR565LE,
            Self::AV_PIX_FMT_BGR555 => AVPixelFormat::AV_PIX_FMT_BGR555LE,
            Self::AV_PIX_FMT_BGR444 => AVPixelFormat::AV_PIX_FMT_BGR444LE,
            Self::AV_PIX_FMT_BGRA64 => AVPixelFormat::AV_PIX_FMT_BGRA64LE,
            Self::AV_PIX_FMT_YUV420P9 => AVPixelFormat::AV_PIX_FMT_YUV420P9LE,
            Self::AV_PIX_FMT_YUV422P9 => AVPixelFormat::AV_PIX_FMT_YUV422P9LE,
            Self::AV_PIX_FMT_YUV444P9 => AVPixelFormat::AV_PIX_FMT_YUV444P9LE,
            Self::AV_PIX_FMT_YUV420P10 => AVPixelFormat::AV_PIX_FMT_YUV420P10LE,
            Self::AV_PIX_FMT_YUV422P10 => AVPixelFormat::AV_PIX_FMT_YUV422P10LE,
            Self::AV_PIX_FMT_YUV440P10 => AVPixelFormat::AV_PIX_FMT_YUV440P10LE,
            Self::AV_PIX_FMT_YUV444P10 => AVPixelFormat::AV_PIX_FMT_YUV444P10LE,
            Self::AV_PIX_FMT_YUV420P12 => AVPixelFormat::AV_PIX_FMT_YUV420P12LE,
            Self::AV_PIX_FMT_YUV422P12 => AVPixelFormat::AV_PIX_FMT_YUV422P12LE,
            Self::AV_PIX_FMT_YUV440P12 => AVPixelFormat::AV_PIX_FMT_YUV440P12LE,
            Self::AV_PIX_FMT_YUV444P12 => AVPixelFormat::AV_PIX_FMT_YUV444P12LE,
            Self::AV_PIX_FMT_YUV420P14 => AVPixelFormat::AV_PIX_FMT_YUV420P14LE,
            Self::AV_PIX_FMT_YUV422P14 => AVPixelFormat::AV_PIX_FMT_YUV422P14LE,
            Self::AV_PIX_FMT_YUV444P14 => AVPixelFormat::AV_PIX_FMT_YUV444P14LE,
            Self::AV_PIX_FMT_YUV420P16 => AVPixelFormat::AV_PIX_FMT_YUV420P16LE,
            Self::AV_PIX_FMT_YUV422P16 => AVPixelFormat::AV_PIX_FMT_YUV422P16LE,
            Self::AV_PIX_FMT_YUV444P16 => AVPixelFormat::AV_PIX_FMT_YUV444P16LE,
            Self::AV_PIX_FMT_GBRP9 => AVPixelFormat::AV_PIX_FMT_GBRP9LE,
            Self::AV_PIX_FMT_GBRP10 => AVPixelFormat::AV_PIX_FMT_GBRP10LE,
            Self::AV_PIX_FMT_GBRP12 => AVPixelFormat::AV_PIX_FMT_GBRP12LE,
            Self::AV_PIX_FMT_GBRP14 => AVPixelFormat::AV_PIX_FMT_GBRP14LE,
            Self::AV_PIX_FMT_GBRP16 => AVPixelFormat::AV_PIX_FMT_GBRP16LE,
            Self::AV_PIX_FMT_GBRAP10 => AVPixelFormat::AV_PIX_FMT_GBRAP10LE,
            Self::AV_PIX_FMT_GBRAP12 => AVPixelFormat::AV_PIX_FMT_GBRAP12LE,
            Self::AV_PIX_FMT_GBRAP16 => AVPixelFormat::AV_PIX_FMT_GBRAP16LE,
            Self::AV_PIX_FMT_BAYER_BGGR16 => AVPixelFormat::AV_PIX_FMT_BAYER_BGGR16LE,
            Self::AV_PIX_FMT_BAYER_RGGB16 => AVPixelFormat::AV_PIX_FMT_BAYER_RGGB16LE,
            Self::AV_PIX_FMT_BAYER_GBRG16 => AVPixelFormat::AV_PIX_FMT_BAYER_GBRG16LE,
            Self::AV_PIX_FMT_BAYER_GRBG16 => AVPixelFormat::AV_PIX_FMT_BAYER_GRBG16LE,
            Self::AV_PIX_FMT_GBRPF32 => AVPixelFormat::AV_PIX_FMT_GBRPF32LE,
            Self::AV_PIX_FMT_GBRAPF32 => AVPixelFormat::AV_PIX_FMT_GBRAPF32LE,
            Self::AV_PIX_FMT_YUVA420P9 => AVPixelFormat::AV_PIX_FMT_YUVA420P9LE,
            Self::AV_PIX_FMT_YUVA422P9 => AVPixelFormat::AV_PIX_FMT_YUVA422P9LE,
            Self::AV_PIX_FMT_YUVA444P9 => AVPixelFormat::AV_PIX_FMT_YUVA444P9LE,
            Self::AV_PIX_FMT_YUVA420P10 => AVPixelFormat::AV_PIX_FMT_YUVA420P10LE,
            Self::AV_PIX_FMT_YUVA422P10 => AVPixelFormat::AV_PIX_FMT_YUVA422P10LE,
            Self::AV_PIX_FMT_YUVA444P10 => AVPixelFormat::AV_PIX_FMT_YUVA444P10LE,
            Self::AV_PIX_FMT_YUVA420P16 => AVPixelFormat::AV_PIX_FMT_YUVA420P16LE,
            Self::AV_PIX_FMT_YUVA422P16 => AVPixelFormat::AV_PIX_FMT_YUVA422P16LE,
            Self::AV_PIX_FMT_YUVA444P16 => AVPixelFormat::AV_PIX_FMT_YUVA444P16LE,
            Self::AV_PIX_FMT_XYZ12 => AVPixelFormat::AV_PIX_FMT_XYZ12LE,
            Self::AV_PIX_FMT_NV20 => AVPixelFormat::AV_PIX_FMT_NV20LE,
            Self::AV_PIX_FMT_AYUV64 => AVPixelFormat::AV_PIX_FMT_AYUV64LE,
            Self::AV_PIX_FMT_P010 => AVPixelFormat::AV_PIX_FMT_P010LE,
            Self::AV_PIX_FMT_P016 => AVPixelFormat::AV_PIX_FMT_P016LE,
        }
    }

    /// The format that the name stands for on a target of the given byte
    /// order.
    pub open spec fn on_target(self, big_endian: bool) -> AVPixelFormat {
        if big_endian {
            self.big_endian()
        } else {
            self.little_endian()
        }
    }

    /// Looks the name up in the table of `(big-endian, little-endian)` pairs
    /// and takes the one for the target's byte order.
    pub fn resolve(self, big_endian: bool) -> (format: AVPixelFormat)
        ensures
            format == self.on_target(big_endian),
    {
        let (be, le) = match self {
            Self::AV_PIX_FMT_RGB32 => (AVPixelFormat::AV_PIX_FMT_ARGB, AVPixelFormat::AV_PIX_FMT_BGRA),
            Self::AV_PIX_FMT_RGB32_1 => (AVPixelFormat::AV_PIX_FMT_RGBA, AVPixelFormat::AV_PIX_FMT_ABGR),
            Self::AV_PIX_FMT_BGR32 => (AVPixelFormat::AV_PIX_FMT_ABGR, AVPixelFormat::AV_PIX_FMT_RGBA),
            Self::AV_PIX_FMT_BGR32_1 => (AVPixelFormat::AV_PIX_FMT_BGRA, AVPixelFormat::AV_PIX_FMT_ARGB),
            Self::AV_PIX_FMT_0RGB32 => (AVPixelFormat::AV_PIX_FMT_0RGB, AVPixelFormat::AV_PIX_FMT_BGR0),
            Self::AV_PIX_FMT_0BGR32 => (AVPixelFormat::AV_PIX_FMT_0BGR, AVPixelFormat::AV_PIX_FMT_RGB0),
            Self::AV_PIX_FMT_GRAY9 => (AVPixelFormat::AV_PIX_FMT_GRAY9BE, AVPixelFormat::AV_PIX_FMT_GRAY9LE),
            Self::AV_PIX_FMT_GRAY10 => (AVPixelFormat::AV_PIX_FMT_GRAY10BE, AVPixelFormat::AV_PIX_FMT_GRAY10LE),
            Self::AV_PIX_FMT_GRAY12 => (AVPixelFormat::AV_PIX_FMT_GRAY12BE, AVPixelFormat::AV_PIX_FMT_GRAY12LE),
            Self::AV_PIX_FMT_GRAY16 => (AVPixelFormat::AV_PIX_FMT_GRAY16BE, AVPixelFormat::AV_PIX_FMT_GRAY16LE),
            Self::AV_PIX_FMT_YA16 => (AVPixelFormat::AV_PIX_FMT_YA16BE, AVPixelFormat::AV_PIX_FMT_YA16LE),
            Self::AV_PIX_FMT_RGB48 => (AVPixelFormat::AV_PIX_FMT_RGB48BE, AVPixelFormat::AV_PIX_FMT_RGB48LE),
            Self::AV_PIX_FMT_RGB565 => (AVPixelFormat::AV_PIX_FMT_RGB565BE, AVPixelFormat::AV_PIX_FMT_RGB565LE),
            Self::AV_PIX_FMT_RGB555 => (AVPixelFormat::AV_PIX_FMT_RGB555BE, AVPixelFormat::AV_PIX_FMT_RGB555LE),
            Self::AV_PIX_FMT_RGB444 => (AVPixelFormat::AV_PIX_FMT_RGB444BE, AVPixelFormat::AV_PIX_FMT_RGB444LE),
            Self::AV_PIX_FMT_RGBA64 => (AVPixelFormat::AV_PIX_FMT_RGBA64BE, AVPixelFormat::AV_PIX_FMT_RGBA64LE),
            Self::AV_PIX_FMT_BGR48 => (AVPixelFormat::AV_PIX_FMT_BGR48BE, AVPixelFormat::AV_PIX_FMT_BGR48LE),
            Self::AV_PIX_FMT_BGR565 => (AVPixelFormat::AV_PIX_FMT_BGR565BE, AVPixelFormat::AV_PIX_FMT_BGR565LE),
            Self::AV_PIX_FMT_BGR555 => (AVPixelFormat::AV_PIX_FMT_BGR555BE, AVPixelFormat::AV_PIX_FMT_BGR555LE),
            Self::AV_PIX_FMT_BGR444 => (AVPixelFormat::AV_PIX_FMT_BGR444BE, AVPixelFormat::AV_PIX_FMT_BGR444LE),
            Self::AV_PIX_FMT_BGRA64 => (AVPixelFormat::AV_PIX_FMT_BGRA64BE, AVPixelFormat::AV_PIX_FMT_BGRA64LE),
            Self::AV_PIX_FMT_YUV420P9 => (AVPixelFormat::AV_PIX_FMT_YUV420P9BE, AVPixelFormat::AV_PIX_FMT_YUV420P9LE),
            Self::AV_PIX_FMT_YUV422P9 => (AVPixelFormat::AV_PIX_FMT_YUV422P9BE, AVPixelFormat::AV_PIX_FMT_YUV422P9LE),
            Self::AV_PIX_FMT_YUV444P9 => (AVPixelFormat::AV_PIX_FMT_YUV444P9BE, AVPixelFormat::AV_PIX_FMT_YUV444P9LE),
            Self::AV_PIX_FMT_YUV420P10 => (AVPixelFormat::AV_PIX_FMT_YUV420P10BE, AVPixelFormat::AV_PIX_FMT_YUV420P10LE),
            Self::AV_PIX_FMT_YUV422P10 => (AVPixelFormat::AV_PIX_FMT_YUV422P10BE, AVPixelFormat::AV_PIX_FMT_YUV422P10LE),
            Self::AV_PIX_FMT_YUV440P10 => (AVPixelFormat::AV_PIX_FMT_YUV440P10BE, AVPixelFormat::AV_PIX_FMT_YUV440P10LE),
            Self::AV_PIX_FMT_YUV444P10 => (AVPixelFormat::AV_PIX_FMT_YUV444P10BE, AVPixelFormat::AV_PIX_FMT_YUV444P10LE),
            Self::AV_PIX_FMT_YUV420P12 => (AVPixelFormat::AV_PIX_FMT_YUV420P12BE, AVPixelFormat::AV_PIX_FMT_YUV420P12LE),
            Self::AV_PIX_FMT_YUV422P12 => (AVPixelFormat::AV_PIX_FMT_YUV422P12BE, AVPixelFormat::AV_PIX_FMT_YUV422P12LE),
            Self::AV_PIX_FMT_YUV440P12 => (AVPixelFormat::AV_PIX_FMT_YUV440P12BE, AVPixelFormat::AV_PIX_FMT_YUV440P12LE),
            Self::AV_PIX_FMT_YUV444P12 => (AVPixelFormat::AV_PIX_FMT_YUV444P12BE, AVPixelFormat::AV_PIX_FMT_YUV444P12LE),
            Self::AV_PIX_FMT_YUV420P14 => (AVPixelFormat::AV_PIX_FMT_YUV420P14BE, AVPixelFormat::AV_PIX_FMT_YUV420P14LE),
            Self::AV_PIX_FMT_YUV422P14 => (AVPixelFormat::AV_PIX_FMT_YUV422P14BE, AVPixelFormat::AV_PIX_FMT_YUV422P14LE),
            Self::AV_PIX_FMT_YUV444P14 => (AVPixelFormat::AV_PIX_FMT_YUV444P14BE, AVPixelFormat::AV_PIX_FMT_YUV444P14LE),
            Self::AV_PIX_FMT_YUV420P16 => (AVPixelFormat::AV_PIX_FMT_YUV420P16BE, AVPixelFormat::AV_PIX_FMT_YUV420P16LE),
            Self::AV_PIX_FMT_YUV422P16 => (AVPixelFormat::AV_PIX_FMT_YUV422P16BE, AVPixelFormat::AV_PIX_FMT_YUV422P16LE),
            Self::AV_PIX_FMT_YUV444P16 => (AVPixelFormat::AV_PIX_FMT_YUV444P16BE, AVPixelFormat::AV_PIX_FMT_YUV444P16LE),
            Self::AV_PIX_FMT_GBRP9 => (AVPixelFormat::AV_PIX_FMT_GBRP9BE, AVPixelFormat::AV_PIX_FMT_GBRP9LE),
            Self::AV_PIX_FMT_GBRP10 => (AVPixelFormat::AV_PIX_FMT_GBRP10BE, AVPixelFormat::AV_PIX_FMT_GBRP10LE),
            Self::AV_PIX_FMT_GBRP12 => (AVPixelFormat::AV_PIX_FMT_GBRP12BE, AVPixelFormat::AV_PIX_FMT_GBRP12LE),
            Self::AV_PIX_FMT_GBRP14 => (AVPixelFormat::AV_PIX_FMT_GBRP14BE, AVPixelFormat::AV_PIX_FMT_GBRP14LE),
            Self::AV_PIX_FMT_GBRP16 => (AVPixelFormat::AV_PIX_FMT_GBRP16BE, AVPixelFormat::AV_PIX_FMT_GBRP16LE),
            Self::AV_PIX_FMT_GBRAP10 => (AVPixelFormat::AV_PIX_FMT_GBRAP10BE, AVPixelFormat::AV_PIX_FMT_GBRAP10LE),
            Self::AV_PIX_FMT_GBRAP12 => (AVPixelFormat::AV_PIX_FMT_GBRAP12BE, AVPixelFormat::AV_PIX_FMT_GBRAP12LE),
            Self::AV_PIX_FMT_GBRAP16 => (AVPixelFormat::AV_PIX_FMT_GBRAP16BE, AVPixelFormat::AV_PIX_FMT_GBRAP16LE),
            Self::AV_PIX_FMT_BAYER_BGGR16 => (AVPixelFormat::AV_PIX_FMT_BAYER_BGGR16BE, AVPixelFormat::AV_PIX_FMT_BAYER_BGGR16LE),
            Self::AV_PIX_FMT_BAYER_RGGB16 => (AVPixelFormat::AV_PIX_FMT_BAYER_RGGB16BE, AVPixelFormat::AV_PIX_FMT_BAYER_RGGB16LE),
            Self::AV_PIX_FMT_BAYER_GBRG16 => (AVPixelFormat::AV_PIX_FMT_BAYER_GBRG16BE, AVPixelFormat::AV_PIX_FMT_BAYER_GBRG16LE),
            Self::AV_PIX_FMT_BAYER_GRBG16 => (AVPixelFormat::AV_PIX_FMT_BAYER_GRBG16BE, AVPixelFormat::AV_PIX_FMT_BAYER_GRBG16LE),
            Self::AV_PIX_FMT_GBRPF32 => (AVPixelFormat::AV_PIX_FMT_GBRPF32BE, AVPixelFormat::AV_PIX_FMT_GBRPF32LE),
            Self::AV_PIX_FMT_GBRAPF32 => (AVPixelFormat::AV_PIX_FMT_GBRAPF32BE, AVPixelFormat::AV_PIX_FMT_GBRAPF32LE),
            Self::AV_PIX_FMT_YUVA420P9 => (AVPixelFormat::AV_PIX_FMT_YUVA420P9BE, AVPixelFormat::AV_PIX_FMT_YUVA420P9LE),
            Self::AV_PIX_FMT_YUVA422P9 => (AVPixelFormat::AV_PIX_FMT_YUVA422P9BE, AVPixelFormat::AV_PIX_FMT_YUVA422P9LE),
            Self::AV_PIX_FMT_YUVA444P9 => (AVPixelFormat::AV_PIX_FMT_YUVA444P9BE, AVPixelFormat::AV_PIX_FMT_YUVA444P9LE),
            Self::AV_PIX_FMT_YUVA420P10 => (AVPixelFormat::AV_PIX_FMT_YUVA420P10BE, AVPixelFormat::AV_PIX_FMT_YUVA420P10LE),
            Self::AV_PIX_FMT_YUVA422P10 => (AVPixelFormat::AV_PIX_FMT_YUVA422P10BE, AVPixelFormat::AV_PIX_FMT_YUVA422P10LE),
            Self::AV_PIX_FMT_YUVA444P10 => (AVPixelFormat::AV_PIX_FMT_YUVA444P10BE, AVPixelFormat::AV_PIX_FMT_YUVA444P10LE),
            Self::AV_PIX_FMT_YUVA420P16 => (AVPixelFormat::AV_PIX_FMT_YUVA420P16BE, AVPixelFormat::AV_PIX_FMT_YUVA420P16LE),
            Self::AV_PIX_FMT_YUVA422P16 => (AVPixelFormat::AV_PIX_FMT_YUVA422P16BE, AVPixelFormat::AV_PIX_FMT_YUVA422P16LE),
            Self::AV_PIX_FMT_YUVA444P16 => (AVPixelFormat::AV_PIX_FMT_YUVA444P16BE, AVPixelFormat::AV_PIX_FMT_YUVA444P16LE),
            Self::AV_PIX_FMT_XYZ12 => (AVPixelFormat::AV_PIX_FMT_XYZ12BE, AVPixelFormat::AV_PIX_FMT_XYZ12LE),
            Self::AV_PIX_FMT_NV20 => (AVPixelFormat::AV_PIX_FMT_NV20BE, AVPixelFormat::AV_PIX_FMT_NV20LE),
            Self::AV_PIX_FMT_AYUV64 => (AVPixelFormat::AV_PIX_FMT_AYUV64BE, AVPixelFormat::AV_PIX_FMT_AYUV64LE),
            Self::AV_PIX_FMT_P010 => (AVPixelFormat::AV_PIX_FMT_P010BE, AVPixelFormat::AV_PIX_FMT_P010LE),
            Self::AV_PIX_FMT_P016 => (AVPixelFormat::AV_PIX_FMT_P016BE, AVPixelFormat::AV_PIX_FMT_P016LE),
        };
        if big_endian {
            be
        } else {
            le
        }
    }
}

/// No name stands for the same format on both byte orders.
pub proof fn lemma_variants_differ(name: AVPixelFormatNE)
    ensures
        name.big_endian() != name.little_endian(),
{
}

/// On one target, two names stand for the same format only where they are
/// the same name.
pub proof fn lemma_resolution_is_injective(a: AVPixelFormatNE, b: AVPixelFormatNE, big_endian: bool)
    requires
        a.on_target(big_endian) == b.on_target(big_endian),
    ensures
        a == b,
{
}

} // verus!
