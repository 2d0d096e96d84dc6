//! Tests of the lock lifecycle and of registered external resources.

use nvenc_session::{
    Capabilities, EncodeConfig, EncodePictureParams, Encoder, EncoderInitParams, ErrorKind,
    ResourceEvent, Session,
};
use nvenc_session::guid::codec_h264_guid;
use nvenc_session::params::{BufferFormat, InputResourceType};

fn session() -> Session {
    let encoder = Encoder::new(Capabilities {
        max_supported_version: 0xc0,
        encode_guid_capacity: 1,
        encode_guids: vec![codec_h264_guid()],
        preset_guid_capacity: 0,
        preset_guids: vec![],
        profile_guid_capacity: 0,
        profile_guids: vec![],
        input_format_capacity: 1,
        input_formats: vec![BufferFormat::Argb],
        preset_template: EncodeConfig::default(),
    });
    encoder
        .start_session(
            BufferFormat::Argb,
            EncoderInitParams::new(codec_h264_guid(), 64, 48),
        )
        .expect("the session parameters are valid")
}

#[test]
fn second_input_lock_returns_lock_busy() {
    let mut s = session();
    let mut buffer = s.create_input_buffer().unwrap();
    let first = buffer.try_lock(&mut s).unwrap();
    // While the first lock is outstanding, another lock always reports
    // lock-busy, never succeeds.
    for _ in 0..3 {
        let e = buffer.try_lock(&mut s).unwrap_err();
        assert_eq!(e.kind(), ErrorKind::LockBusy);
        assert!(e.string().is_none());
    }
    first.unlock(&mut s);
    // Once the first lock is released, locking succeeds again.
    let second = buffer.try_lock(&mut s).unwrap();
    second.unlock(&mut s);
    s.close();
}

#[test]
fn second_bitstream_lock_returns_lock_busy() {
    let mut s = session();
    let mut buffer = s.create_input_buffer().unwrap();
    let output = s.create_output_bitstream().unwrap();
    // An empty bitstream is not lockable either.
    assert_eq!(
        output.try_lock(&mut s).unwrap_err().kind(),
        ErrorKind::LockBusy
    );
    let lock = buffer.lock(&mut s).unwrap();
    lock.unlock(&mut s);
    s.encode_picture(&buffer, &output, EncodePictureParams::default())
        .unwrap();
    let first = output.try_lock(&mut s).unwrap();
    let e = output.try_lock(&mut s).unwrap_err();
    assert_eq!(e.kind(), ErrorKind::LockBusy);
    first.unlock(&mut s);
    s.end_of_stream().unwrap();
    s.close();
}

#[test]
fn lock_discovers_pitch() {
    let mut s = session();
    let mut buffer = s.create_input_buffer().unwrap();
    let lock = buffer.lock(&mut s).unwrap();
    // Four bytes per packed pixel at width 64.
    assert_eq!(lock.pitch(), 256);
    lock.unlock(&mut s);
    s.close();
}

#[test]
fn locked_buffer_is_not_submittable_data_is_committed_on_unlock() {
    let mut s = session();
    let mut buffer = s.create_input_buffer().unwrap();
    let output = s.create_output_bitstream().unwrap();
    let mut lock = buffer.lock(&mut s).unwrap();
    lock.write(&[1, 2, 3, 4]);
    lock.write(&[9, 9]);
    lock.unlock(&mut s);
    s.encode_picture(&buffer, &output, EncodePictureParams::default())
        .unwrap();
    let lock = output.lock(&mut s).unwrap();
    // The last write wins: the lock replaces the buffer contents.
    assert_eq!(lock.data(), &[9, 9]);
    lock.unlock(&mut s);
    s.end_of_stream().unwrap();
    s.close();
}

#[test]
fn teardown_unmaps_before_unregister() {
    let mut s = session();
    let keep_alive = vec![0u8; 16];
    let resource = s
        .register_generic_resource(keep_alive, InputResourceType::CudaDevicePtr, 0x1000, 256)
        .unwrap();
    resource.release(&mut s);
    assert_eq!(
        s.get_encoder().resource_log(),
        &vec![
            ResourceEvent::Registered(0),
            ResourceEvent::Mapped(0),
            ResourceEvent::Unmapped(0),
            ResourceEvent::Unregistered(0),
        ]
    );
    s.close();
}

#[test]
fn map_failure_rolls_back_registration() {
    let mut s = session();
    s.inject_map_failures(1);
    let e = s
        .register_generic_resource((), InputResourceType::CudaDevicePtr, 0x2000, 64)
        .unwrap_err();
    assert_eq!(e.kind(), ErrorKind::MapFailed);
    // The half-done registration was rolled back before the error surfaced.
    assert_eq!(
        s.get_encoder().resource_log(),
        &vec![ResourceEvent::Registered(0), ResourceEvent::Unregistered(0)]
    );
    // The next registration succeeds.
    let resource = s
        .register_generic_resource((), InputResourceType::CudaDevicePtr, 0x2000, 64)
        .unwrap();
    resource.release(&mut s);
    s.close();
}

#[test]
fn registered_resource_encodes_as_input() {
    let mut s = session();
    let resource = s
        .register_generic_resource(1u64, InputResourceType::CudaDevicePtr, 0x3000, 512)
        .unwrap();
    let output = s.create_output_bitstream().unwrap();
    s.encode_picture(&resource, &output, EncodePictureParams::default())
        .unwrap();
    let lock = output.lock(&mut s).unwrap();
    assert_eq!(lock.frame_index(), 0);
    lock.unlock(&mut s);
    resource.release(&mut s);
    s.end_of_stream().unwrap();
    s.close();
}

#[test]
fn destroyed_buffers_free_their_slots() {
    let mut s = session();
    let buffer = s.create_input_buffer().unwrap();
    let output = s.create_output_bitstream().unwrap();
    s.destroy_input_buffer(buffer);
    s.destroy_output_bitstream(output);
    // The arena keeps handing out fresh slots afterwards.
    let mut buffer = s.create_input_buffer().unwrap();
    let lock = buffer.lock(&mut s).unwrap();
    lock.unlock(&mut s);
    s.close();
}
