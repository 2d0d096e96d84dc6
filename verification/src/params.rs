//! Configuration and per-picture parameter types for the encoder.

use vstd::prelude::*;

use crate::guid::{
    spec_codec_av1_guid, spec_codec_h264_guid, spec_codec_hevc_guid, codec_av1_guid,
    codec_h264_guid, codec_hevc_guid, Guid,
};

verus! {

/// The pixel layout of input frame buffers.
#[derive(Clone, Copy, Debug, Hash, PartialEq, Eq, Structural)]
pub enum BufferFormat {
    /// No format declared.
    Undefined,
    /// Semi-planar 4:2:0, 8 bit.
    Nv12,
    /// Planar 4:2:0 with swapped chroma planes, 8 bit.
    Yv12,
    /// Planar 4:2:0, 8 bit.
    Iyuv,
    /// Planar 4:4:4, 8 bit.
    Yuv444,
    /// Semi-planar 4:2:0, 10 bit.
    Yuv420TenBit,
    /// Planar 4:4:4, 10 bit.
    Yuv444TenBit,
    /// Packed 8-bit ARGB.
    Argb,
    /// Packed 10-bit ARGB.
    Argb10,
    /// Packed 8-bit AYUV.
    Ayuv,
    /// Packed 8-bit ABGR.
    Abgr,
    /// Packed 10-bit ABGR.
    Abgr10,
    /// A single byte stream, used for motion-estimation-only buffers.
    U8,
}

/// The tuning goal of an encoding session.
#[derive(Clone, Copy, Debug, Hash, PartialEq, Eq, Structural)]
pub enum TuningInfo {
    /// No tuning declared; not a valid argument for a preset configuration
    /// query.
    Undefined,
    /// Tune for high quality.
    HighQuality,
    /// Tune for low latency.
    LowLatency,
    /// Tune for ultra low latency.
    UltraLowLatency,
    /// Tune for lossless encoding.
    Lossless,
    /// The number of tuning goals; not a valid argument for a preset
    /// configuration query.
    Count,
}

/// The picture type of a frame.
#[derive(Clone, Copy, Debug, Hash, PartialEq, Eq, Structural)]
pub enum PictureType {
    /// A forward-predicted picture.
    P,
    /// A bidirectionally predicted picture.
    B,
    /// An intra picture.
    I,
    /// An instantaneous decoder refresh picture.
    Idr,
    /// A bidirectionally predicted picture with only intra macroblocks.
    Bi,
    /// A picture that is skipped.
    Skipped,
    /// A picture refreshed gradually over multiple frames.
    IntraRefresh,
    /// A non-reference forward-predicted picture.
    NonRefP,
    /// The picture type is decided by the encoder.
    Unknown,
}

/// The kind of an externally allocated resource registered as encoder input.
#[derive(Clone, Copy, Debug, Hash, PartialEq, Eq, Structural)]
pub enum InputResourceType {
    /// A graphics-interop texture resource.
    DirectxTexture,
    /// A compute-device memory pointer.
    CudaDevicePtr,
    /// A compute-device array.
    CudaArray,
    /// A graphics-library texture.
    OpenGlTexture,
}

/// The part of an encoder configuration that drives the submission protocol:
/// how deep the hardware reorder pipeline is.
///
/// The pipeline buffers `frame_interval_p - 1 + lookahead_depth` submissions
/// before producing output, so a session needs at least
/// `frame_interval_p + lookahead_depth` input/output buffer pairs to keep
/// submitting without waiting on earlier frames.
#[derive(Clone, Copy, Debug, Hash, PartialEq, Eq, Structural)]
pub struct EncodeConfig {
    /// The P-frame interval: 1 means no B frames, n means n - 1 B frames
    /// between consecutive reference frames. Must be at least 1.
    pub frame_interval_p: u32,
    /// How many extra frames the rate-control lookahead buffers.
    pub lookahead_depth: u32,
}

impl Default for EncodeConfig {
    /// The default configuration: no B frames and no lookahead, so output is
    /// produced for every accepted submission immediately.
    fn default() -> (c: EncodeConfig)
        ensures
            c == (EncodeConfig { frame_interval_p: 1, lookahead_depth: 0 }),
    {
        EncodeConfig { frame_interval_p: 1, lookahead_depth: 0 }
    }
}

/// A preset configuration template, as returned by a preset configuration
/// query.
#[derive(Clone, Copy, Debug, Hash, PartialEq, Eq, Structural)]
pub struct PresetConfig {
    /// The configuration the preset stands for; callers may tweak it and pass
    /// it on when starting a session.
    pub preset_cfg: EncodeConfig,
}

/// The parameters an encoder session is initialized with.
///
/// Build one with [`EncoderInitParams::new`] and refine it with the other
/// methods, each of which returns the updated value.
#[derive(Clone, Copy, Debug, Hash, PartialEq, Eq, Structural)]
pub struct EncoderInitParams {
    /// The codec to encode to.
    pub encode_guid: Guid,
    /// Frame width in pixels.
    pub width: u32,
    /// Frame height in pixels.
    pub height: u32,
    /// Display aspect ratio width, or render width for AV1.
    pub dar_width: u32,
    /// Display aspect ratio height, or render height for AV1.
    pub dar_height: u32,
    /// Framerate numerator.
    pub framerate_num: u32,
    /// Framerate denominator.
    pub framerate_den: u32,
    /// Whether the encoder interface decides picture types.
    pub enable_ptd: bool,
    /// The preset applied before any other parameter, if any.
    pub preset_guid: Option<Guid>,
    /// The tuning goal of the session.
    pub tuning_info: TuningInfo,
    /// An advanced codec configuration overriding the preset, if any.
    pub encode_config: Option<EncodeConfig>,
}

impl EncoderInitParams {
    /// Creates initialization parameters for the given codec and frame size,
    /// with every optional field left at its zero value.
    pub fn new(encode_guid: Guid, width: u32, height: u32) -> (p: EncoderInitParams)
        ensures
            p == (EncoderInitParams {
                encode_guid,
                width,
                height,
                dar_width: 0u32,
                dar_height: 0u32,
                framerate_num: 0u32,
                framerate_den: 0u32,
                enable_ptd: false,
                preset_guid: None::<Guid>,
                tuning_info: TuningInfo::Undefined,
                encode_config: None::<EncodeConfig>,
            }),
    {
        EncoderInitParams {
            encode_guid,
            width,
            height,
            dar_width: 0,
            dar_height: 0,
            framerate_num: 0,
            framerate_den: 0,
            enable_ptd: false,
            preset_guid: None,
            tuning_info: TuningInfo::Undefined,
            encode_config: None,
        }
    }

    /// Specifies the preset for encoding. If a preset is set, its
    /// configuration is applied before any other parameter.
    pub fn preset_guid(self, preset_guid: Guid) -> (p: EncoderInitParams)
        ensures
            p == (EncoderInitParams { preset_guid: Some(preset_guid), ..self }),
    {
        EncoderInitParams { preset_guid: Some(preset_guid), ..self }
    }

    /// Specifies the tuning goal of the session.
    pub fn tuning_info(self, tuning_info: TuningInfo) -> (p: EncoderInitParams)
        ensures
            p == (EncoderInitParams { tuning_info, ..self }),
    {
        EncoderInitParams { tuning_info, ..self }
    }

    /// Specifies the advanced codec configuration. If set, it overrides the
    /// parameters the preset would apply; callers are encouraged to start
    /// from the template a preset configuration query returns.
    pub fn encode_config(self, encode_config: EncodeConfig) -> (p: EncoderInitParams)
        ensures
            p == (EncoderInitParams { encode_config: Some(encode_config), ..self }),
    {
        EncoderInitParams { encode_config: Some(encode_config), ..self }
    }

    /// Specifies the display aspect ratio, or the render size for AV1.
    pub fn display_aspect_ratio(self, width: u32, height: u32) -> (p: EncoderInitParams)
        ensures
            p == (EncoderInitParams { dar_width: width, dar_height: height, ..self }),
    {
        EncoderInitParams { dar_width: width, dar_height: height, ..self }
    }

    /// Specifies the framerate in frames per second as the fraction
    /// `numerator / denominator`.
    pub fn framerate(self, numerator: u32, denominator: u32) -> (p: EncoderInitParams)
        ensures
            p == (EncoderInitParams {
                framerate_num: numerator,
                framerate_den: denominator,
                ..self
            }),
    {
        EncoderInitParams { framerate_num: numerator, framerate_den: denominator, ..self }
    }

    /// Enables picture type decision by the encoder interface.
    pub fn enable_picture_type_decision(self) -> (p: EncoderInitParams)
        ensures
            p == (EncoderInitParams { enable_ptd: true, ..self }),
    {
        EncoderInitParams { enable_ptd: true, ..self }
    }

    /// The reorder delay of the pipeline this configuration asks for: how
    /// many submissions the hardware buffers before producing output.
    pub open spec fn spec_reorder_delay(self) -> int {
        let cfg = match self.encode_config {
            Some(c) => c,
            None => EncodeConfig { frame_interval_p: 1, lookahead_depth: 0 },
        };
        cfg.frame_interval_p - 1 + cfg.lookahead_depth
    }
}

/// Codec-specific per-picture parameters. The payload of the raw structures
/// is outside the scope of this model; the variant itself still has to match
/// the codec the session was started with.
#[derive(Clone, Copy, Debug, Hash, PartialEq, Eq, Structural)]
pub enum CodecPictureParams {
    /// Parameters for H.264.
    H264,
    /// Parameters for HEVC (H.265).
    Hevc,
    /// Parameters for AV1.
    Av1,
}

impl CodecPictureParams {
    /// The codec these parameters belong to.
    pub open spec fn spec_codec_guid(self) -> Guid {
        match self {
            CodecPictureParams::H264 => spec_codec_h264_guid(),
            CodecPictureParams::Hevc => spec_codec_hevc_guid(),
            CodecPictureParams::Av1 => spec_codec_av1_guid(),
        }
    }

    /// Returns the identifier of the codec for which the parameters are
    /// specified.
    pub fn get_codec_guid(&self) -> (g: Guid)
        ensures
            g == self.spec_codec_guid(),
    {
        match self {
            CodecPictureParams::H264 => codec_h264_guid(),
            CodecPictureParams::Hevc => codec_hevc_guid(),
            CodecPictureParams::Av1 => codec_av1_guid(),
        }
    }
}

/// Optional per-picture parameters for `Session::encode_picture`.
#[derive(Clone, Copy, Debug, Hash, PartialEq, Eq, Structural)]
pub struct EncodePictureParams {
    /// Opaque data identifying the corresponding encoded frame; echoed back
    /// as the timestamp when the output bitstream is locked.
    pub input_timestamp: u64,
    /// The picture type to use, if picture type decision is disabled in the
    /// encoder.
    pub picture_type: PictureType,
    /// Codec-specific parameters, if any.
    pub codec_params: Option<CodecPictureParams>,
}

impl Default for EncodePictureParams {
    /// The default parameters: timestamp zero and no overrides.
    fn default() -> (p: EncodePictureParams)
        ensures
            p == (EncodePictureParams {
                input_timestamp: 0u64,
                picture_type: PictureType::Unknown,
                codec_params: None::<CodecPictureParams>,
            }),
    {
        EncodePictureParams {
            input_timestamp: 0,
            picture_type: PictureType::Unknown,
            codec_params: None,
        }
    }
}

} // verus!
