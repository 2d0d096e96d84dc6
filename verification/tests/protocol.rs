//! Tests of the submission protocol: ordering, buffer reuse, retries, and
//! end-of-stream flushing.

use std::collections::VecDeque;

use nvenc_session::{
    Buffer, Capabilities, EncodeConfig, EncodePictureParams, Encoder, EncoderInitParams,
    ErrorKind, Session,
};
use nvenc_session::guid::codec_h264_guid;
use nvenc_session::params::BufferFormat;

fn caps() -> Capabilities {
    Capabilities {
        max_supported_version: 0xc0,
        encode_guid_capacity: 4,
        encode_guids: vec![codec_h264_guid()],
        preset_guid_capacity: 0,
        preset_guids: vec![],
        profile_guid_capacity: 0,
        profile_guids: vec![],
        input_format_capacity: 2,
        input_formats: vec![BufferFormat::Argb],
        preset_template: EncodeConfig {
            frame_interval_p: 1,
            lookahead_depth: 0,
        },
    }
}

fn session(width: u32, height: u32, frame_interval_p: u32, lookahead_depth: u32) -> Session {
    let encoder = Encoder::new(caps());
    let params = EncoderInitParams::new(codec_h264_guid(), width, height)
        .framerate(30, 1)
        .enable_picture_type_decision()
        .encode_config(EncodeConfig {
            frame_interval_p,
            lookahead_depth,
        });
    encoder
        .start_session(BufferFormat::Argb, params)
        .expect("the session parameters are valid")
}

/// Runs `frames` submissions through a session with a pool of
/// `frame_interval_p + lookahead_depth` buffer pairs, draining ready outputs
/// as the protocol dictates, and returns the frame indices read back, in
/// drain order, together with the total compressed byte count and how many
/// need-more-input signals occurred.
fn run_stream(
    width: u32,
    height: u32,
    frame_interval_p: u32,
    lookahead_depth: u32,
    frames: u64,
) -> (Vec<u64>, usize, u32) {
    let pool = (frame_interval_p + lookahead_depth) as usize;
    let mut s = session(width, height, frame_interval_p, lookahead_depth);
    let mut inputs: Vec<Buffer> = Vec::new();
    let mut outputs = Vec::new();
    for _ in 0..pool {
        inputs.push(s.create_input_buffer().unwrap());
        outputs.push(s.create_output_bitstream().unwrap());
    }
    // The caller-side FIFO of in-flight (input, output) pairs.
    let mut in_use = VecDeque::new();
    let mut indices: Vec<u64> = Vec::new();
    let mut total_bytes: usize = 0;
    let mut need_more_input: u32 = 0;
    let mut drain =
        |s: &mut Session, in_use: &mut VecDeque<(Buffer, nvenc_session::Bitstream)>,
         indices: &mut Vec<u64>, total: &mut usize| {
            let (in_buf, out_buf) = in_use.pop_front().unwrap();
            let lock = out_buf.lock(s).unwrap();
            indices.push(lock.frame_index());
            *total += lock.data().len();
            lock.unlock(s);
            (in_buf, out_buf)
        };
    for k in 0..frames {
        let mut input = inputs.pop().expect("a pool of this size never runs dry");
        let output = outputs.pop().expect("a pool of this size never runs dry");
        let mut lock = input.lock(&mut s).unwrap();
        let frame = vec![(k % 251) as u8; 64];
        lock.write(&frame);
        lock.unlock(&mut s);
        match s.encode_picture(&input, &output, EncodePictureParams::default()) {
            Ok(()) => {
                in_use.push_back((input, output));
                // One frame left the pipeline; read the oldest pending output.
                let (i, o) = drain(&mut s, &mut in_use, &mut indices, &mut total_bytes);
                inputs.push(i);
                outputs.push(o);
            }
            Err(e) if e.kind() == ErrorKind::NeedMoreInput => {
                need_more_input += 1;
                in_use.push_back((input, output));
            }
            Err(e) => panic!("unexpected submission failure: {:?}", e.kind()),
        }
    }
    // Flush the pipeline and read the rest.
    s.end_of_stream().unwrap();
    while let Some(_) = in_use.front() {
        let (i, o) = drain(&mut s, &mut in_use, &mut indices, &mut total_bytes);
        inputs.push(i);
        outputs.push(o);
    }
    s.close();
    (indices, total_bytes, need_more_input)
}

#[test]
fn outputs_drain_in_submission_order() {
    let (indices, _, need_more_input) = run_stream(64, 64, 2, 1, 8);
    assert_eq!(indices, (0u64..8).collect::<Vec<u64>>());
    // The reorder pipeline really did defer output.
    assert_eq!(need_more_input, 2);
}

#[test]
fn buffer_pool_never_deadlocks() {
    // Ten times the pool size of frames through a pool of exactly
    // frame_interval_p + lookahead_depth pairs completes without stalling.
    let pool = 3 + 4;
    let frames = 10 * pool as u64;
    let (indices, _, _) = run_stream(64, 64, 3, 4, frames);
    assert_eq!(indices, (0u64..frames).collect::<Vec<u64>>());
}

#[test]
fn full_stream_scenario() {
    // A 1920x1080 session, 128 frames, pool size 7.
    let (indices, total_bytes, _) = run_stream(1920, 1080, 3, 4, 128);
    assert!(total_bytes > 0);
    assert_eq!(indices, (0u64..128).collect::<Vec<u64>>());
}

#[test]
fn round_trip_frame_index() {
    // No B frames and no lookahead: every submission is accepted at once and
    // its output is immediately readable, tagged with its submission index.
    let mut s = session(64, 64, 1, 0);
    let mut input = s.create_input_buffer().unwrap();
    let output = s.create_output_bitstream().unwrap();
    for k in 0u64..5 {
        let mut lock = input.lock(&mut s).unwrap();
        let frame = vec![k as u8; 32];
        lock.write(&frame);
        lock.unlock(&mut s);
        let params = EncodePictureParams {
            input_timestamp: 1000 + k,
            ..Default::default()
        };
        s.encode_picture(&input, &output, params).unwrap();
        let lock = output.lock(&mut s).unwrap();
        assert_eq!(lock.frame_index(), k);
        assert_eq!(lock.timestamp(), 1000 + k);
        assert_eq!(lock.data(), &frame[..]);
        lock.unlock(&mut s);
    }
    s.end_of_stream().unwrap();
    s.close();
}

#[test]
fn encoder_busy_submission_is_not_consumed() {
    let mut s = session(64, 64, 1, 0);
    let mut input = s.create_input_buffer().unwrap();
    let output = s.create_output_bitstream().unwrap();
    let lock = input.lock(&mut s).unwrap();
    lock.unlock(&mut s);
    s.inject_busy_responses(2);
    let params = EncodePictureParams::default();
    // Two busy answers; the identical retry then succeeds.
    for _ in 0..2 {
        let e = s.encode_picture(&input, &output, params).unwrap_err();
        assert_eq!(e.kind(), ErrorKind::EncoderBusy);
        assert!(e.string().is_none());
    }
    s.encode_picture(&input, &output, params).unwrap();
    let lock = output.lock(&mut s).unwrap();
    assert_eq!(lock.frame_index(), 0);
    lock.unlock(&mut s);
    s.end_of_stream().unwrap();
    s.close();
}

#[test]
fn eos_flushes_pending_frames() {
    // Reorder delay 2: the first two submissions only buffer.
    let mut s = session(64, 64, 3, 0);
    let mut pairs = Vec::new();
    for _ in 0..3 {
        pairs.push((
            s.create_input_buffer().unwrap(),
            s.create_output_bitstream().unwrap(),
        ));
    }
    for (k, (input, output)) in pairs.iter_mut().enumerate() {
        let mut lock = input.lock(&mut s).unwrap();
        let frame = vec![k as u8 + 1; 16];
        lock.write(&frame);
        lock.unlock(&mut s);
        let r = s.encode_picture(input, output, EncodePictureParams::default());
        if k < 2 {
            assert_eq!(r.unwrap_err().kind(), ErrorKind::NeedMoreInput);
        } else {
            r.unwrap();
        }
    }
    // One frame was delivered by the accepted submission; flush the other two.
    s.end_of_stream().unwrap();
    for (k, (_, output)) in pairs.iter().enumerate() {
        let lock = output.lock(&mut s).unwrap();
        assert_eq!(lock.frame_index(), k as u64);
        assert_eq!(lock.data(), &vec![k as u8 + 1; 16][..]);
        lock.unlock(&mut s);
    }
    s.close();
}

#[test]
fn eos_retried_under_busy_submits_once() {
    let mut s = session(64, 64, 1, 0);
    s.inject_busy_responses(3);
    let mut attempts = 0u32;
    loop {
        attempts += 1;
        match s.end_of_stream() {
            Ok(()) => break,
            Err(e) => {
                assert_eq!(e.kind(), ErrorKind::EncoderBusy);
                // A busy answer consumes no submission.
                assert_eq!(s.eos_submission_count(), 0);
            }
        }
    }
    assert_eq!(attempts, 4);
    assert_eq!(s.eos_submission_count(), 1);
    // Teardown after an explicit end of stream submits no second marker.
    s.close();
}

#[test]
fn close_retries_while_busy() {
    let mut s = session(64, 64, 1, 0);
    s.inject_busy_responses(5);
    // Teardown flushes on its own, retrying through every busy answer.
    s.close();
}

#[test]
fn encoder_works() {
    // 128 blank 1920x1080 frames through a pool of 16 buffer pairs, locking
    // output bitstreams as late as possible and draining front-to-back.
    const FRAMES: usize = 128;
    const BUFFERS: usize = 16;
    let mut s = session(1920, 1080, 1, 0);
    let mut input_buffers = Vec::new();
    let mut output_bitstreams = Vec::new();
    for _ in 0..BUFFERS {
        input_buffers.push(s.create_input_buffer().unwrap());
        output_bitstreams.push(s.create_output_bitstream().unwrap());
    }
    let frame = vec![255u8; 1920 * 1080 * 4];
    let mut in_use = VecDeque::with_capacity(BUFFERS);
    let mut total_bytes: usize = 0;
    'next_frame: for _ in 0..FRAMES {
        assert_eq!(input_buffers.len() + in_use.len(), BUFFERS);
        assert_eq!(output_bitstreams.len() + in_use.len(), BUFFERS);
        let mut input_buffer = input_buffers.pop().unwrap();
        let output_bitstream = output_bitstreams.pop().unwrap();
        let mut lock = input_buffer.lock(&mut s).unwrap();
        lock.write(&frame);
        lock.unlock(&mut s);
        loop {
            match s.encode_picture(&input_buffer, &output_bitstream, Default::default()) {
                Ok(()) => {
                    in_use.push_back((input_buffer, output_bitstream));
                    break;
                }
                Err(e) if e.kind() == ErrorKind::EncoderBusy => {}
                Err(e) if e.kind() == ErrorKind::NeedMoreInput => {
                    in_use.push_back((input_buffer, output_bitstream));
                    continue 'next_frame;
                }
                Err(e) => panic!("fatal submission failure: {:?}", e.kind()),
            }
        }
        // Delay locking output bitstreams as long as possible.
        if in_use.len() < BUFFERS {
            continue;
        }
        let (in_buf, out_buf) = in_use.pop_front().unwrap();
        let lock = out_buf.lock(&mut s).unwrap();
        total_bytes += lock.data().len();
        lock.unlock(&mut s);
        input_buffers.push(in_buf);
        output_bitstreams.push(out_buf);
    }
    s.end_of_stream().unwrap();
    for (_, out_buf) in in_use {
        let lock = out_buf.lock(&mut s).unwrap();
        total_bytes += lock.data().len();
        lock.unlock(&mut s);
    }
    s.close();
    assert!(total_bytes > 0);
}
