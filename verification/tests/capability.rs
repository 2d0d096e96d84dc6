//! Tests of capability queries, error handling, configuration builders, and
//! the version constants.

use nvenc_session::{
    Capabilities, CodecPictureParams, EncodeConfig, EncodePictureParams, Encoder,
    EncoderInitParams, ErrorKind, Guid, NVENCAPI_STRUCT_VERSION, NVENCSTATUS,
    assert_versions_match,
};
use nvenc_session::guid::{codec_av1_guid, codec_h264_guid, codec_hevc_guid};
use nvenc_session::params::{BufferFormat, PictureType, TuningInfo};

fn preset_a() -> Guid {
    Guid { data1: 1, data2: 2, data3: 3, data4: 4 }
}

fn preset_b() -> Guid {
    Guid { data1: 5, data2: 6, data3: 7, data4: 8 }
}

fn caps() -> Capabilities {
    Capabilities {
        max_supported_version: 0xc1,
        encode_guid_capacity: 8,
        encode_guids: vec![codec_h264_guid(), codec_hevc_guid(), codec_av1_guid()],
        preset_guid_capacity: 4,
        preset_guids: vec![preset_a(), preset_b()],
        profile_guid_capacity: 9,
        profile_guids: vec![preset_b()],
        input_format_capacity: 6,
        input_formats: vec![BufferFormat::Argb, BufferFormat::Nv12],
        preset_template: EncodeConfig {
            frame_interval_p: 3,
            lookahead_depth: 2,
        },
    }
}

#[test]
fn capability_truncation() {
    // The counting query reports an upper bound of 8, but only 3 codecs are
    // actually delivered: the returned list has exactly 3 entries, not 8.
    let encoder = Encoder::new(caps());
    let guids = encoder.get_encode_guids().unwrap();
    assert_eq!(guids.len(), 3);
    assert_eq!(guids, vec![codec_h264_guid(), codec_hevc_guid(), codec_av1_guid()]);
}

#[test]
fn capability_queries_report_supported_entries() {
    let encoder = Encoder::new(caps());
    assert_eq!(
        encoder.get_preset_guids(codec_h264_guid()).unwrap(),
        vec![preset_a(), preset_b()]
    );
    assert_eq!(
        encoder.get_profile_guids(codec_hevc_guid()).unwrap(),
        vec![preset_b()]
    );
    assert_eq!(
        encoder.get_supported_input_formats(codec_av1_guid()).unwrap(),
        vec![BufferFormat::Argb, BufferFormat::Nv12]
    );
}

#[test]
fn capability_queries_reject_unsupported_codec() {
    let encoder = Encoder::new(caps());
    let unknown = preset_a();
    assert_eq!(
        encoder.get_preset_guids(unknown).unwrap_err().kind(),
        ErrorKind::InvalidParam
    );
    assert_eq!(
        encoder.get_profile_guids(unknown).unwrap_err().kind(),
        ErrorKind::InvalidParam
    );
    assert_eq!(
        encoder.get_supported_input_formats(unknown).unwrap_err().kind(),
        ErrorKind::InvalidParam
    );
}

#[test]
fn preset_config_returns_template() {
    let encoder = Encoder::new(caps());
    let config = encoder
        .get_preset_config(codec_h264_guid(), preset_a(), TuningInfo::HighQuality)
        .unwrap();
    assert_eq!(
        config.preset_cfg,
        EncodeConfig { frame_interval_p: 3, lookahead_depth: 2 }
    );
}

#[test]
fn preset_config_rejects_placeholder_tuning() {
    let encoder = Encoder::new(caps());
    for tuning in [TuningInfo::Undefined, TuningInfo::Count] {
        let e = encoder
            .get_preset_config(codec_h264_guid(), preset_a(), tuning)
            .unwrap_err();
        assert_eq!(e.kind(), ErrorKind::InvalidParam);
    }
    let e = encoder
        .get_preset_config(codec_h264_guid(), codec_av1_guid(), TuningInfo::LowLatency)
        .unwrap_err();
    assert_eq!(e.kind(), ErrorKind::InvalidParam);
}

#[test]
fn diagnostic_string_attached_to_fatal_errors() {
    let mut encoder = Encoder::new(caps());
    encoder.set_last_error("something went wrong".to_string());
    let e = encoder.get_preset_guids(preset_a()).unwrap_err();
    assert_eq!(e.kind(), ErrorKind::InvalidParam);
    assert_eq!(e.string(), Some("something went wrong"));
}

#[test]
fn diagnostic_string_skipped_on_hot_path() {
    let mut encoder = Encoder::new(caps());
    encoder.set_last_error("not fetched for recoverable kinds".to_string());
    let params = EncoderInitParams::new(codec_h264_guid(), 64, 64);
    let mut s = encoder
        .start_session(BufferFormat::Argb, params)
        .unwrap();
    let input = s.create_input_buffer().unwrap();
    let output = s.create_output_bitstream().unwrap();
    s.inject_busy_responses(1);
    let e = s
        .encode_picture(&input, &output, EncodePictureParams::default())
        .unwrap_err();
    assert_eq!(e.kind(), ErrorKind::EncoderBusy);
    assert!(e.string().is_none());
    s.end_of_stream().unwrap();
    s.close();
}

#[test]
fn start_session_rejects_invalid_parameters() {
    // Zero width.
    let e = Encoder::new(caps())
        .start_session(
            BufferFormat::Argb,
            EncoderInitParams::new(codec_h264_guid(), 0, 64),
        )
        .unwrap_err();
    assert_eq!(e.kind(), ErrorKind::InvalidParam);
    // Unsupported codec.
    let e = Encoder::new(caps())
        .start_session(BufferFormat::Argb, EncoderInitParams::new(preset_a(), 64, 64))
        .unwrap_err();
    assert_eq!(e.kind(), ErrorKind::InvalidParam);
    // A P-frame interval of zero.
    let e = Encoder::new(caps())
        .start_session(
            BufferFormat::Argb,
            EncoderInitParams::new(codec_h264_guid(), 64, 64).encode_config(EncodeConfig {
                frame_interval_p: 0,
                lookahead_depth: 0,
            }),
        )
        .unwrap_err();
    assert_eq!(e.kind(), ErrorKind::InvalidParam);
}

#[test]
fn struct_version_word() {
    // The interface version is 12.0, so the version word is 12; a structure
    // version sits in bits 16..28 under the fixed 0x7 tag.
    assert_eq!(NVENCAPI_STRUCT_VERSION(1), 0x7001_000c);
    assert_eq!(NVENCAPI_STRUCT_VERSION(2), 0x7002_000c);
    assert_eq!(NVENCAPI_STRUCT_VERSION(5) | (1u32 << 31), 0xf005_000c);
}

#[test]
fn versions_match_accepts_newer_driver() {
    // Major 12, minor 0 decode from 0xc0; a newer driver also passes.
    assert_versions_match(0xc0);
    assert_versions_match(0xc1);
    assert_versions_match(0xd0);
}

#[test]
fn status_codes_map_to_error_kinds() {
    assert!(NVENCSTATUS::NV_ENC_SUCCESS.result_without_string().is_ok());
    let cases = [
        (NVENCSTATUS::NV_ENC_ERR_NO_ENCODE_DEVICE, ErrorKind::NoEncodeDevice),
        (NVENCSTATUS::NV_ENC_ERR_UNSUPPORTED_DEVICE, ErrorKind::UnsupportedDevice),
        (NVENCSTATUS::NV_ENC_ERR_INVALID_ENCODERDEVICE, ErrorKind::InvalidEncoderDevice),
        (NVENCSTATUS::NV_ENC_ERR_INVALID_DEVICE, ErrorKind::InvalidDevice),
        (NVENCSTATUS::NV_ENC_ERR_DEVICE_NOT_EXIST, ErrorKind::DeviceNotExist),
        (NVENCSTATUS::NV_ENC_ERR_INVALID_PTR, ErrorKind::InvalidPtr),
        (NVENCSTATUS::NV_ENC_ERR_INVALID_EVENT, ErrorKind::InvalidEvent),
        (NVENCSTATUS::NV_ENC_ERR_INVALID_PARAM, ErrorKind::InvalidParam),
        (NVENCSTATUS::NV_ENC_ERR_INVALID_CALL, ErrorKind::InvalidCall),
        (NVENCSTATUS::NV_ENC_ERR_OUT_OF_MEMORY, ErrorKind::OutOfMemory),
        (NVENCSTATUS::NV_ENC_ERR_ENCODER_NOT_INITIALIZED, ErrorKind::EncoderNotInitialized),
        (NVENCSTATUS::NV_ENC_ERR_UNSUPPORTED_PARAM, ErrorKind::UnsupportedParam),
        (NVENCSTATUS::NV_ENC_ERR_LOCK_BUSY, ErrorKind::LockBusy),
        (NVENCSTATUS::NV_ENC_ERR_NOT_ENOUGH_BUFFER, ErrorKind::NotEnoughBuffer),
        (NVENCSTATUS::NV_ENC_ERR_INVALID_VERSION, ErrorKind::InvalidVersion),
        (NVENCSTATUS::NV_ENC_ERR_MAP_FAILED, ErrorKind::MapFailed),
        (NVENCSTATUS::NV_ENC_ERR_NEED_MORE_INPUT, ErrorKind::NeedMoreInput),
        (NVENCSTATUS::NV_ENC_ERR_ENCODER_BUSY, ErrorKind::EncoderBusy),
        (NVENCSTATUS::NV_ENC_ERR_EVENT_NOT_REGISTERD, ErrorKind::EventNotRegistered),
        (NVENCSTATUS::NV_ENC_ERR_GENERIC, ErrorKind::Generic),
        (NVENCSTATUS::NV_ENC_ERR_INCOMPATIBLE_CLIENT_KEY, ErrorKind::IncompatibleClientKey),
        (NVENCSTATUS::NV_ENC_ERR_UNIMPLEMENTED, ErrorKind::Unimplemented),
        (NVENCSTATUS::NV_ENC_ERR_RESOURCE_REGISTER_FAILED, ErrorKind::ResourceRegisterFailed),
        (NVENCSTATUS::NV_ENC_ERR_RESOURCE_NOT_REGISTERED, ErrorKind::ResourceNotRegistered),
        (NVENCSTATUS::NV_ENC_ERR_RESOURCE_NOT_MAPPED, ErrorKind::ResourceNotMapped),
        (NVENCSTATUS::NV_ENC_ERR_NEED_MORE_OUTPUT, ErrorKind::NeedMoreOutput),
    ];
    for (status, kind) in cases {
        let e = status.result_without_string().unwrap_err();
        assert_eq!(e.kind(), kind);
        assert!(e.string().is_none());
    }
}

#[test]
fn status_result_fetches_encoder_diagnostic() {
    let mut encoder = Encoder::new(caps());
    encoder.set_last_error("bad call".to_string());
    let e = NVENCSTATUS::NV_ENC_ERR_INVALID_CALL
        .result(&encoder)
        .unwrap_err();
    assert_eq!(e.kind(), ErrorKind::InvalidCall);
    assert_eq!(e.string(), Some("bad call"));
    // Hot-path kinds skip the diagnostic even when one is set.
    let e = NVENCSTATUS::NV_ENC_ERR_ENCODER_BUSY
        .result(&encoder)
        .unwrap_err();
    assert!(e.string().is_none());
    assert!(NVENCSTATUS::NV_ENC_SUCCESS.result(&encoder).is_ok());
}

#[test]
fn codec_picture_params_name_their_codec() {
    assert_eq!(CodecPictureParams::H264.get_codec_guid(), codec_h264_guid());
    assert_eq!(CodecPictureParams::Hevc.get_codec_guid(), codec_hevc_guid());
    assert_eq!(CodecPictureParams::Av1.get_codec_guid(), codec_av1_guid());
    assert_eq!(
        codec_h264_guid(),
        Guid {
            data1: 0x6bc82762,
            data2: 0x4e63,
            data3: 0x4ca4,
            data4: 0xaa851e50f321f6bf,
        }
    );
}

#[test]
fn init_params_builder_sets_fields() {
    let p = EncoderInitParams::new(codec_hevc_guid(), 1280, 720)
        .preset_guid(preset_a())
        .tuning_info(TuningInfo::UltraLowLatency)
        .display_aspect_ratio(16, 9)
        .framerate(60, 1)
        .enable_picture_type_decision()
        .encode_config(EncodeConfig {
            frame_interval_p: 2,
            lookahead_depth: 5,
        });
    assert_eq!(p.encode_guid, codec_hevc_guid());
    assert_eq!((p.width, p.height), (1280, 720));
    assert_eq!((p.dar_width, p.dar_height), (16, 9));
    assert_eq!((p.framerate_num, p.framerate_den), (60, 1));
    assert!(p.enable_ptd);
    assert_eq!(p.preset_guid, Some(preset_a()));
    assert_eq!(p.tuning_info, TuningInfo::UltraLowLatency);
    assert_eq!(
        p.encode_config,
        Some(EncodeConfig { frame_interval_p: 2, lookahead_depth: 5 })
    );
}

#[test]
fn picture_params_default() {
    let p = EncodePictureParams::default();
    assert_eq!(p.input_timestamp, 0);
    assert_eq!(p.picture_type, PictureType::Unknown);
    assert!(p.codec_params.is_none());
    assert_eq!(
        EncodeConfig::default(),
        EncodeConfig { frame_interval_p: 1, lookahead_depth: 0 }
    );
}
