//! The encoder session: the submission protocol and its invariants.
//!
//! A session owns an arena of input and output buffer slots and drives the
//! hardware pipeline. Submissions enter a first-in first-out pipeline of
//! depth `frame_interval_p - 1 + lookahead_depth`; once the pipeline is full,
//! each further accepted submission delivers the oldest buffered frame to its
//! output bitstream. Output bitstreams become ready strictly in submission
//! order and must be locked in that order.

use vstd::prelude::*;

use crate::encoder::{Encoder, EncoderView, ResourceEvent, spec_error_with};
use crate::guid::Guid;
use crate::params::{BufferFormat, EncodeConfig, EncodePictureParams, EncoderInitParams,
    InputResourceType, PictureType};
use crate::result::{EncodeError, ErrorKind};

verus! {

/// The largest frame width or height a session accepts. Keeps every pitch
/// and byte-capacity computation inside the machine integer ranges.
pub const MAX_DIMENSION: u32 = 16384;

/// An input slot of a session's arena: either an encoder-allocated frame
/// buffer or a registered external resource.
#[derive(Debug)]
pub struct InputSlot {
    pub(crate) alive: bool,
    pub(crate) is_resource: bool,
    pub(crate) mapped: bool,
    pub(crate) locked: bool,
    pub(crate) in_flight: bool,
    pub(crate) data: Vec<u8>,
}

/// The mathematical state of an input slot.
#[verifier::ext_equal]
pub ghost struct InputSlotView {
    /// Whether the slot still backs a live buffer or resource.
    pub alive: bool,
    /// Whether the slot backs a registered external resource rather than an
    /// encoder-allocated buffer.
    pub is_resource: bool,
    /// Whether the registered resource is mapped into the encoder's input
    /// address space.
    pub mapped: bool,
    /// Whether an exclusive lock on the buffer is outstanding.
    pub locked: bool,
    /// Whether the buffer sits in a submission still buffered in the
    /// pipeline.
    pub in_flight: bool,
    /// The frame bytes last committed to the buffer.
    pub data: Seq<u8>,
}

impl View for InputSlot {
    type V = InputSlotView;

    closed spec fn view(&self) -> InputSlotView {
        InputSlotView {
            alive: self.alive,
            is_resource: self.is_resource,
            mapped: self.mapped,
            locked: self.locked,
            in_flight: self.in_flight,
            data: self.data@,
        }
    }
}

/// A frame delivered to an output slot and not yet locked and read.
#[derive(Debug)]
pub struct ReadyFrame {
    pub(crate) data: Vec<u8>,
    pub(crate) frame_index: u64,
    pub(crate) timestamp: u64,
    pub(crate) duration: u64,
    pub(crate) picture_type: PictureType,
}

/// The mathematical content of a delivered frame.
#[verifier::ext_equal]
pub ghost struct ReadyFrameView {
    /// The compressed frame bytes.
    pub data: Seq<u8>,
    /// The position of the frame in submission order, counted from zero.
    pub frame_index: int,
    /// The timestamp given at submission.
    pub timestamp: u64,
    /// The duration reported by the device.
    pub duration: u64,
    /// The picture type of the frame.
    pub picture_type: PictureType,
}

impl View for ReadyFrame {
    type V = ReadyFrameView;

    closed spec fn view(&self) -> ReadyFrameView {
        ReadyFrameView {
            data: self.data@,
            frame_index: self.frame_index as int,
            timestamp: self.timestamp,
            duration: self.duration,
            picture_type: self.picture_type,
        }
    }
}

/// An output slot of a session's arena.
#[derive(Debug)]
pub struct OutputSlot {
    pub(crate) alive: bool,
    pub(crate) locked: bool,
    pub(crate) in_flight: bool,
    pub(crate) ready: Option<ReadyFrame>,
}

/// The mathematical state of an output slot.
#[verifier::ext_equal]
pub ghost struct OutputSlotView {
    /// Whether the slot still backs a live bitstream buffer.
    pub alive: bool,
    /// Whether an exclusive lock on the bitstream is outstanding.
    pub locked: bool,
    /// Whether the bitstream sits in a submission still buffered in the
    /// pipeline.
    pub in_flight: bool,
    /// The delivered frame waiting to be locked and read, if any.
    pub ready: Option<ReadyFrameView>,
}

impl View for OutputSlot {
    type V = OutputSlotView;

    closed spec fn view(&self) -> OutputSlotView {
        OutputSlotView {
            alive: self.alive,
            locked: self.locked,
            in_flight: self.in_flight,
            ready: match self.ready {
                Some(ref f) => Some(f@),
                None => None,
            },
        }
    }
}

/// A type implementing this trait is a valid input for an encode submission.
pub trait EncoderInput {
    /// The input slot this handle stands for.
    spec fn spec_id(&self) -> usize;

    /// The pitch (row stride) of the input resource, as last discovered.
    spec fn spec_pitch(&self) -> u32;

    /// Gets the handle of the input resource.
    fn handle(&self) -> (h: usize)
        ensures
            h == self.spec_id(),
    ;

    /// Gets the pitch (row stride) of the input resource.
    fn pitch(&self) -> (p: u32)
        ensures
            p == self.spec_pitch(),
    ;
}

/// A type implementing this trait is a valid output for an encode
/// submission.
pub trait EncoderOutput {
    /// The output slot this handle stands for.
    spec fn spec_id(&self) -> usize;

    /// Gets the handle of the output resource.
    fn handle(&self) -> (h: usize)
        ensures
            h == self.spec_id(),
    ;
}

/// Copies the bytes of a slice into a fresh vector.
pub(crate) fn copy_bytes(src: &[u8]) -> (r: Vec<u8>)
    ensures
        r@ == src@,
{
    let mut out: Vec<u8> = Vec::new();
    let mut i: usize = 0;
    while i < src.len()
        invariant
            i <= src@.len(),
            out@ == src@.subrange(0, i as int),
        decreases src@.len() - i,
    {
        out.push(src[i]);
        i += 1;
        proof {
            assert(out@ =~= src@.subrange(0, i as int));
        }
    }
    proof {
        assert(out@ =~= src@);
    }
    out
}

/// One submission buffered inside the hardware pipeline, waiting for enough
/// further input before its compressed frame is delivered.
#[derive(Debug)]
pub(crate) struct PendingFrame {
    pub(crate) input_id: usize,
    pub(crate) output_id: usize,
    pub(crate) frame_index: u64,
    pub(crate) timestamp: u64,
    pub(crate) picture_type: PictureType,
    pub(crate) payload: Vec<u8>,
}

/// The mathematical content of a buffered submission.
#[verifier::ext_equal]
pub ghost struct FrameInfo {
    /// The input slot the frame was submitted from.
    pub input_id: int,
    /// The output slot the compressed frame will be delivered to.
    pub output_id: int,
    /// The position of this frame in submission order, counted from zero.
    pub frame_index: int,
    /// The caller's timestamp, echoed back at delivery.
    pub timestamp: u64,
    /// The caller's picture type, echoed back at delivery.
    pub picture_type: PictureType,
    /// The frame bytes read from the input slot at submission time.
    pub payload: Seq<u8>,
}

impl View for PendingFrame {
    type V = FrameInfo;

    closed spec fn view(&self) -> FrameInfo {
        FrameInfo {
            input_id: self.input_id as int,
            output_id: self.output_id as int,
            frame_index: self.frame_index as int,
            timestamp: self.timestamp,
            picture_type: self.picture_type,
            payload: self.payload@,
        }
    }
}

/// The mathematical state of a [`Session`].
#[verifier::ext_equal]
pub ghost struct SessionView {
    /// The encoder handle the session owns.
    pub encoder: EncoderView,
    /// Frame width in pixels, fixed for the session's lifetime.
    pub width: u32,
    /// Frame height in pixels, fixed for the session's lifetime.
    pub height: u32,
    /// The input pixel format, fixed for the session's lifetime.
    pub buffer_format: BufferFormat,
    /// The codec negotiated at initialization.
    pub encode_guid: Guid,
    /// How many submissions the pipeline buffers before delivering output.
    pub reorder_delay: int,
    /// The input buffer and registered resource slots, in creation order.
    pub inputs: Seq<InputSlotView>,
    /// The output bitstream slots, in creation order.
    pub outputs: Seq<OutputSlotView>,
    /// The submissions buffered in the pipeline, oldest first.
    pub pending: Seq<FrameInfo>,
    /// The output slots holding a delivered, not yet locked frame, in
    /// delivery order.
    pub ready: Seq<int>,
    /// How many submissions were accepted into the pipeline so far.
    pub submitted: int,
    /// How many delivered frames were locked and read so far.
    pub delivered: int,
    /// Whether the end-of-stream marker has been submitted.
    pub eos_done: bool,
    /// How many end-of-stream markers were ever submitted.
    pub eos_submissions: int,
}

impl SessionView {
    /// Well-formedness of the `i`-th buffered submission: its slots exist,
    /// are alive and marked in flight, and its frame index sits right where
    /// submission order dictates.
    pub open spec fn pending_entry_ok(self, i: int) -> bool {
        let e = self.pending[i];
        &&& 0 <= e.input_id < self.inputs.len()
        &&& 0 <= e.output_id < self.outputs.len()
        &&& e.frame_index == self.submitted - self.pending.len() + i
        &&& self.inputs[e.input_id].alive
        &&& self.inputs[e.input_id].in_flight
        &&& !self.inputs[e.input_id].locked
        &&& self.outputs[e.output_id].alive
        &&& self.outputs[e.output_id].in_flight
        &&& !self.outputs[e.output_id].locked
        &&& self.outputs[e.output_id].ready is None
    }

    /// Well-formedness of the `i`-th ready output: the slot exists, holds a
    /// delivered frame, and that frame's index is the `i`-th not yet read.
    pub open spec fn ready_entry_ok(self, i: int) -> bool {
        let o = self.ready[i];
        &&& 0 <= o < self.outputs.len()
        &&& self.outputs[o].alive
        &&& !self.outputs[o].in_flight
        &&& !self.outputs[o].locked
        &&& self.outputs[o].ready matches Some(f) && f.frame_index == self.delivered + i
    }

    /// The session invariant, except for the bound on the pipeline depth.
    /// It holds momentarily while a submission is pushed through a full
    /// pipeline.
    pub open spec fn inv_core(self) -> bool {
        &&& 1 <= self.width <= MAX_DIMENSION
        &&& 1 <= self.height <= MAX_DIMENSION
        &&& self.reorder_delay >= 0
        &&& self.delivered >= 0
        &&& self.submitted == self.delivered + self.ready.len() + self.pending.len()
        &&& forall|i: int| 0 <= i < self.pending.len() ==> #[trigger] self.pending_entry_ok(i)
        &&& forall|i: int| 0 <= i < self.ready.len() ==> #[trigger] self.ready_entry_ok(i)
        &&& forall|i: int, j: int|
            #![trigger self.pending[i], self.pending[j]]
            0 <= i < j < self.pending.len() ==> self.pending[i].input_id
                != self.pending[j].input_id && self.pending[i].output_id
                != self.pending[j].output_id
        &&& forall|i: int, j: int|
            #![trigger self.ready[i], self.ready[j]]
            0 <= i < j < self.ready.len() ==> self.ready[i] != self.ready[j]
        &&& forall|s: int|
            0 <= s < self.inputs.len() && (#[trigger] self.inputs[s]).in_flight
                ==> exists|k: int|
                0 <= k < self.pending.len() && (#[trigger] self.pending[k]).input_id == s
        &&& forall|o: int|
            0 <= o < self.outputs.len() && (#[trigger] self.outputs[o]).in_flight
                ==> exists|k: int|
                0 <= k < self.pending.len() && (#[trigger] self.pending[k]).output_id == o
        &&& forall|o: int|
            0 <= o < self.outputs.len() && (#[trigger] self.outputs[o]).ready is Some
                ==> exists|j: int| 0 <= j < self.ready.len() && (#[trigger] self.ready[j]) == o
        &&& (self.eos_done ==> self.pending.len() == 0)
        &&& self.eos_submissions == if self.eos_done { 1int } else { 0int }
    }

    /// The session invariant: every state a caller can observe satisfies it.
    /// In particular the pipeline never buffers more than `reorder_delay`
    /// submissions, so a pool of `reorder_delay + 1` buffer pairs always has
    /// a free pair.
    pub open spec fn inv(self) -> bool {
        &&& self.inv_core()
        &&& self.pending.len() <= self.reorder_delay
    }
}

/// The session invariant does not depend on the encoder's device state:
/// two session views that agree on everything but the encoder are either
/// both invariant or both not.
pub proof fn lemma_inv_ignores_encoder(v1: SessionView, v2: SessionView)
    requires
        v1.inv(),
        v2 == (SessionView { encoder: v2.encoder, ..v1 }),
    ensures
        v2.inv(),
{
    assert forall|i: int| 0 <= i < v2.pending.len() implies #[trigger] v2.pending_entry_ok(i) by {
        assert(v1.pending_entry_ok(i));
    }
    assert forall|i: int| 0 <= i < v2.ready.len() implies #[trigger] v2.ready_entry_ok(i) by {
        assert(v1.ready_entry_ok(i));
    }
}

/// The buffered submission created when frame data is read from input slot
/// `i` for delivery to output slot `o`.
pub open spec fn spec_submit_entry(v: SessionView, i: int, o: int, params: EncodePictureParams)
    -> FrameInfo {
    FrameInfo {
        input_id: i,
        output_id: o,
        frame_index: v.submitted,
        timestamp: params.input_timestamp,
        picture_type: params.picture_type,
        payload: v.inputs[i].data,
    }
}

/// The state after the device answered a submission with a transient busy
/// status: one budgeted busy answer is consumed and nothing else changes. In
/// particular the submission's buffers are not consumed, and the caller
/// should retry the identical call.
pub open spec fn spec_consume_busy(v: SessionView) -> SessionView {
    SessionView {
        encoder: EncoderView { busy_responses: v.encoder.busy_responses - 1, ..v.encoder },
        ..v
    }
}

/// The state after the submission from input slot `i` to output slot `o`
/// entered the pipeline: both slots go in flight and the entry joins the back
/// of the pipeline.
pub open spec fn spec_push_submission(
    v: SessionView,
    i: int,
    o: int,
    params: EncodePictureParams,
) -> SessionView {
    SessionView {
        inputs: v.inputs.update(i, InputSlotView { in_flight: true, ..v.inputs[i] }),
        outputs: v.outputs.update(o, OutputSlotView { in_flight: true, ..v.outputs[o] }),
        pending: v.pending.push(spec_submit_entry(v, i, o, params)),
        submitted: v.submitted + 1,
        ..v
    }
}

/// The state after the oldest buffered submission left the pipeline: its
/// compressed frame lands in its output slot, both of its slots leave the in
/// flight state, and the output slot joins the back of the ready queue.
pub open spec fn spec_deliver_front(v: SessionView) -> SessionView
    recommends
        v.pending.len() > 0,
{
    let e = v.pending[0];
    SessionView {
        pending: v.pending.drop_first(),
        inputs: v.inputs.update(e.input_id, InputSlotView { in_flight: false, ..v.inputs[e.input_id] }),
        outputs: v.outputs.update(
            e.output_id,
            OutputSlotView {
                in_flight: false,
                ready: Some(ReadyFrameView {
                    data: e.payload,
                    frame_index: e.frame_index,
                    timestamp: e.timestamp,
                    duration: 0,
                    picture_type: e.picture_type,
                }),
                ..v.outputs[e.output_id]
            },
        ),
        ready: v.ready.push(e.output_id),
        ..v
    }
}

/// The state after the pipeline was flushed: every buffered submission is
/// delivered, oldest first.
pub open spec fn spec_drain(v: SessionView) -> SessionView
    decreases v.pending.len(),
{
    if v.pending.len() == 0 {
        v
    } else {
        spec_drain(spec_deliver_front(v))
    }
}

/// Holds when the given initialization parameters are acceptable for an
/// encoder with capability view `e`: positive frame dimensions within
/// [`MAX_DIMENSION`], a supported codec, and a P-frame interval of at least
/// one if an advanced configuration is given.
pub open spec fn spec_init_params_valid(e: EncoderView, p: EncoderInitParams) -> bool {
    &&& 1 <= p.width <= MAX_DIMENSION
    &&& 1 <= p.height <= MAX_DIMENSION
    &&& e.encode_guids.contains(p.encode_guid)
    &&& match p.encode_config {
        Some(c) => c.frame_interval_p >= 1,
        None => true,
    }
}

/// The view of a freshly started session: no buffers, an empty pipeline, and
/// the configuration fixed from the initialization parameters.
pub open spec fn spec_fresh_session(
    e: EncoderView,
    buffer_format: BufferFormat,
    p: EncoderInitParams,
) -> SessionView {
    SessionView {
        encoder: e,
        width: p.width,
        height: p.height,
        buffer_format,
        encode_guid: p.encode_guid,
        reorder_delay: p.spec_reorder_delay(),
        inputs: Seq::empty(),
        outputs: Seq::empty(),
        pending: Seq::empty(),
        ready: Seq::empty(),
        submitted: 0,
        delivered: 0,
        eos_done: false,
        eos_submissions: 0,
    }
}

/// An encoding session: the only component allowed to submit encode work.
///
/// A session is created by [`Encoder::start_session`], owns its encoder and
/// an arena of buffer slots, and fixes the frame size, pixel format, and
/// codec for its whole lifetime. Before the session is closed the caller
/// must flush the pipeline with [`Session::end_of_stream`]; [`Session::close`]
/// does so on its own, retrying while the device reports busy.
#[derive(Debug)]
pub struct Session {
    pub(crate) encoder: Encoder,
    pub(crate) width: u32,
    pub(crate) height: u32,
    pub(crate) buffer_format: BufferFormat,
    pub(crate) encode_guid: Guid,
    pub(crate) reorder_delay: u64,
    pub(crate) input_slots: Vec<InputSlot>,
    pub(crate) output_slots: Vec<OutputSlot>,
    pub(crate) pending: Vec<PendingFrame>,
    pub(crate) ready_order: Vec<usize>,
    pub(crate) submitted: u64,
    pub(crate) delivered: u64,
    pub(crate) eos_done: bool,
    pub(crate) eos_submissions: u64,
}

impl View for Session {
    type V = SessionView;

    closed spec fn view(&self) -> SessionView {
        SessionView {
            encoder: self.encoder@,
            width: self.width,
            height: self.height,
            buffer_format: self.buffer_format,
            encode_guid: self.encode_guid,
            reorder_delay: self.reorder_delay as int,
            inputs: self.input_slots@.map_values(|s: InputSlot| s@),
            outputs: self.output_slots@.map_values(|s: OutputSlot| s@),
            pending: self.pending@.map_values(|e: PendingFrame| e@),
            ready: self.ready_order@.map_values(|o: usize| o as int),
            submitted: self.submitted as int,
            delivered: self.delivered as int,
            eos_done: self.eos_done,
            eos_submissions: self.eos_submissions as int,
        }
    }
}

impl Encoder {
    /// Initializes an encoder session with the given input format and
    /// configuration, consuming the handle.
    ///
    /// Succeeds exactly when the parameters are acceptable
    /// ([`spec_init_params_valid`]): the frame dimensions are positive and at
    /// most [`MAX_DIMENSION`], the codec is supported by this encoder, and
    /// the P-frame interval of an explicit advanced configuration is at
    /// least one. Otherwise the session is not created and an
    /// invalid-parameter error is reported.
    pub fn start_session(self, buffer_format: BufferFormat, initialize_params: EncoderInitParams)
        -> (r: Result<Session, EncodeError>)
        ensures
            match r {
                Ok(s) => spec_init_params_valid(self@, initialize_params) && s@
                    == spec_fresh_session(self@, buffer_format, initialize_params) && s@.inv(),
                Err(e) => !spec_init_params_valid(self@, initialize_params) && spec_error_with(
                    e,
                    ErrorKind::InvalidParam,
                    self@.last_error,
                ),
            },
    {
        let cfg = match initialize_params.encode_config {
            Some(c) => c,
            None => EncodeConfig { frame_interval_p: 1, lookahead_depth: 0 },
        };
        let dims_ok = 1 <= initialize_params.width && initialize_params.width <= MAX_DIMENSION
            && 1 <= initialize_params.height && initialize_params.height <= MAX_DIMENSION;
        if !dims_ok || cfg.frame_interval_p < 1 || !self.supports_codec(initialize_params.encode_guid) {
            return Err(self.make_error(ErrorKind::InvalidParam));
        }
        let reorder_delay: u64 = (cfg.frame_interval_p as u64 - 1) + cfg.lookahead_depth as u64;
        let s = Session {
            encoder: self,
            width: initialize_params.width,
            height: initialize_params.height,
            buffer_format,
            encode_guid: initialize_params.encode_guid,
            reorder_delay,
            input_slots: Vec::new(),
            output_slots: Vec::new(),
            pending: Vec::new(),
            ready_order: Vec::new(),
            submitted: 0,
            delivered: 0,
            eos_done: false,
            eos_submissions: 0,
        };
        proof {
            assert(s@ =~~= spec_fresh_session(self@, buffer_format, initialize_params));
        }
        Ok(s)
    }
}

impl Session {
    /// Gets the encoder used for this session, for example to run capability
    /// queries against it.
    pub fn get_encoder(&self) -> (e: &Encoder)
        ensures
            e@ == self@.encoder,
    {
        &self.encoder
    }

    /// How many end-of-stream markers this session has submitted: zero
    /// before a successful [`Session::end_of_stream`], one after — never
    /// more, however often a busy device forced a retry.
    pub fn eos_submission_count(&self) -> (n: u64)
        ensures
            n == self@.eos_submissions,
    {
        self.eos_submissions
    }

    /// Makes the device answer the next `count` submissions with a transient
    /// busy status. This is a model device knob for exercising the
    /// caller-driven retry protocol.
    pub fn inject_busy_responses(&mut self, count: u32)
        ensures
            final(self)@ == (SessionView {
                encoder: EncoderView { busy_responses: count as int, ..old(self)@.encoder },
                ..old(self)@
            }),
            old(self)@.inv() ==> final(self)@.inv(),
    {
        self.encoder.inject_busy_responses(count);
        proof {
            assert(self@ =~~= (SessionView {
                encoder: EncoderView { busy_responses: count as int, ..old(self)@.encoder },
                ..old(self)@
            }));
            if old(self)@.inv() {
                lemma_inv_ignores_encoder(old(self)@, self@);
            }
        }
    }

    /// Makes the device fail the next `count` attempts to map a registered
    /// resource. This is a model device knob.
    pub fn inject_map_failures(&mut self, count: u32)
        ensures
            final(self)@ == (SessionView {
                encoder: EncoderView { map_failures: count as int, ..old(self)@.encoder },
                ..old(self)@
            }),
            old(self)@.inv() ==> final(self)@.inv(),
    {
        self.encoder.inject_map_failures(count);
        proof {
            assert(self@ =~~= (SessionView {
                encoder: EncoderView { map_failures: count as int, ..old(self)@.encoder },
                ..old(self)@
            }));
            if old(self)@.inv() {
                lemma_inv_ignores_encoder(old(self)@, self@);
            }
        }
    }

    /// Delivers the oldest buffered submission to its output slot.
    fn deliver_front(&mut self)
        requires
            old(self)@.inv_core(),
            old(self)@.pending.len() >= 1,
        ensures
            final(self)@ == spec_deliver_front(old(self)@),
            final(self)@.inv_core(),
            final(self)@.pending.len() == old(self)@.pending.len() - 1,
    {
        proof {
            assert(old(self)@.pending_entry_ok(0));
        }
        let entry = self.pending.remove(0);
        let input_id = entry.input_id;
        let output_id = entry.output_id;
        self.input_slots[input_id].in_flight = false;
        self.output_slots[output_id].in_flight = false;
        self.output_slots[output_id].ready = Some(ReadyFrame {
            data: entry.payload,
            frame_index: entry.frame_index,
            timestamp: entry.timestamp,
            duration: 0,
            picture_type: entry.picture_type,
        });
        self.ready_order.push(output_id);
        proof {
            assert(self@ =~~= spec_deliver_front(old(self)@));
            lemma_deliver_front_preserves_inv(old(self)@);
        }
    }
}

/// Holds when input slot `i` and output slot `o` of session view `v` can
/// carry a submission: both exist, are alive, are not locked, are not already
/// in flight, a registered resource is mapped, and the output slot holds no
/// undrained frame.
pub open spec fn spec_submission_slots_ok(v: SessionView, i: int, o: int) -> bool {
    &&& 0 <= i < v.inputs.len()
    &&& v.inputs[i].alive
    &&& !v.inputs[i].locked
    &&& !v.inputs[i].in_flight
    &&& (v.inputs[i].is_resource ==> v.inputs[i].mapped)
    &&& 0 <= o < v.outputs.len()
    &&& v.outputs[o].alive
    &&& !v.outputs[o].locked
    &&& !v.outputs[o].in_flight
    &&& v.outputs[o].ready is None
}

/// What `Session::encode_picture` does, as a relation between the session
/// view before (`v`) and after (`v2`) a submission from input slot `i` to
/// output slot `o`:
/// - a budgeted transient busy answer consumes nothing but that budget and
///   reports an encoder-busy error, leaving the buffers untouched for an
///   identical retry;
/// - while the pipeline is below its reorder depth, the submission is
///   buffered and a need-more-input signal asks the caller to keep
///   submitting;
/// - otherwise the submission is buffered and the oldest buffered frame is
///   delivered to its output slot, which joins the ready queue.
pub open spec fn spec_encode_picture_post(
    v: SessionView,
    v2: SessionView,
    i: int,
    o: int,
    params: EncodePictureParams,
    r: Result<(), EncodeError>,
) -> bool {
    if v.encoder.busy_responses > 0 {
        &&& v2 == spec_consume_busy(v)
        &&& r matches Err(e) && e.spec_kind() == ErrorKind::EncoderBusy && e.spec_string() is None
    } else if v.pending.len() < v.reorder_delay {
        &&& v2 == spec_push_submission(v, i, o, params)
        &&& r matches Err(e) && e.spec_kind() == ErrorKind::NeedMoreInput && e.spec_string()
            is None
    } else {
        &&& v2 == spec_deliver_front(spec_push_submission(v, i, o, params))
        &&& r is Ok
    }
}

/// Buffering a fresh submission preserves the session invariant, except that
/// the pipeline may momentarily exceed its depth by the one new entry.
pub proof fn lemma_push_submission_inv(v: SessionView, i: int, o: int, params: EncodePictureParams)
    requires
        v.inv(),
        !v.eos_done,
        spec_submission_slots_ok(v, i, o),
    ensures
        spec_push_submission(v, i, o, params).inv_core(),
        spec_push_submission(v, i, o, params).pending.len() == v.pending.len() + 1,
{
    let w = spec_push_submission(v, i, o, params);
    assert forall|k: int| 0 <= k < w.pending.len() implies #[trigger] w.pending_entry_ok(k) by {
        if k < v.pending.len() {
            assert(v.pending_entry_ok(k));
            assert(v.pending[k].input_id != i);
            assert(v.pending[k].output_id != o);
        }
    }
    assert forall|k: int| 0 <= k < w.ready.len() implies #[trigger] w.ready_entry_ok(k) by {
        assert(v.ready_entry_ok(k));
        assert(v.ready[k] != o);
    }
    assert forall|a: int, b: int|
        0 <= a < b < w.pending.len() implies w.pending[a].input_id != w.pending[b].input_id
        && w.pending[a].output_id != w.pending[b].output_id by {
        if b < v.pending.len() {
            assert(v.pending[a].input_id != v.pending[b].input_id);
            assert(v.pending[a].output_id != v.pending[b].output_id);
        } else {
            assert(v.pending_entry_ok(a));
        }
    }
    assert forall|s: int|
        0 <= s < w.inputs.len() && (#[trigger] w.inputs[s]).in_flight implies exists|k: int|
        0 <= k < w.pending.len() && (#[trigger] w.pending[k]).input_id == s by {
        if s == i {
            assert(w.pending[v.pending.len() as int].input_id == s);
        } else {
            assert(v.inputs[s].in_flight);
            let k = choose|k: int|
                0 <= k < v.pending.len() && (#[trigger] v.pending[k]).input_id == s;
            assert(0 <= k < w.pending.len() && w.pending[k].input_id == s);
        }
    }
    assert forall|t: int|
        0 <= t < w.outputs.len() && (#[trigger] w.outputs[t]).in_flight implies exists|k: int|
        0 <= k < w.pending.len() && (#[trigger] w.pending[k]).output_id == t by {
        if t == o {
            assert(w.pending[v.pending.len() as int].output_id == t);
        } else {
            assert(v.outputs[t].in_flight);
            let k = choose|k: int|
                0 <= k < v.pending.len() && (#[trigger] v.pending[k]).output_id == t;
            assert(0 <= k < w.pending.len() && w.pending[k].output_id == t);
        }
    }
    assert forall|t: int|
        0 <= t < w.outputs.len() && (#[trigger] w.outputs[t]).ready is Some implies exists|
            j: int,
        | 0 <= j < w.ready.len() && (#[trigger] w.ready[j]) == t by {
        assert(t != o && v.outputs[t].ready is Some);
        let j = choose|j: int| 0 <= j < v.ready.len() && (#[trigger] v.ready[j]) == t;
        assert(0 <= j < w.ready.len() && w.ready[j] == t);
    }
}

impl Session {
    /// Submits one frame: the contents of the input buffer (or registered
    /// resource) are read into the pipeline for delivery to the given output
    /// bitstream.
    ///
    /// The call never blocks; instead it reports, exactly as
    /// [`spec_encode_picture_post`] states:
    /// - an encoder-busy error when the device is busy; nothing is consumed,
    ///   and the caller should retry the identical call after a few
    ///   milliseconds;
    /// - a need-more-input signal while the reorder pipeline is still
    ///   filling; the submission is buffered, the caller must not lock this
    ///   output bitstream yet and should keep submitting frames;
    /// - success otherwise, which also delivers the oldest buffered frame to
    ///   its output bitstream; ready bitstreams must be locked in submission
    ///   order.
    ///
    /// Neither buffer may be locked, in flight, or destroyed, the output must
    /// be drained, the end of the stream must not have been declared yet, and
    /// codec-specific parameters, if given, must name the codec the session
    /// was started with.
    pub fn encode_picture<I: EncoderInput, O: EncoderOutput>(
        &mut self,
        input_buffer: &I,
        output_bitstream: &O,
        params: EncodePictureParams,
    ) -> (r: Result<(), EncodeError>)
        requires
            old(self)@.inv(),
            !old(self)@.eos_done,
            old(self)@.submitted < u64::MAX,
            spec_submission_slots_ok(
                old(self)@,
                input_buffer.spec_id() as int,
                output_bitstream.spec_id() as int,
            ),
            match params.codec_params {
                Some(cp) => cp.spec_codec_guid() == old(self)@.encode_guid,
                None => true,
            },
        ensures
            final(self)@.inv(),
            spec_encode_picture_post(
                old(self)@,
                final(self)@,
                input_buffer.spec_id() as int,
                output_bitstream.spec_id() as int,
                params,
                r,
            ),
    {
        if self.encoder.consume_busy_response() {
            let e = self.encoder.make_error(ErrorKind::EncoderBusy);
            proof {
                assert(self@ =~~= spec_consume_busy(old(self)@));
                lemma_inv_ignores_encoder(old(self)@, self@);
            }
            return Err(e);
        }
        let input_id = input_buffer.handle();
        let output_id = output_bitstream.handle();
        let payload = copy_bytes(self.input_slots[input_id].data.as_slice());
        let entry = PendingFrame {
            input_id,
            output_id,
            frame_index: self.submitted,
            timestamp: params.input_timestamp,
            picture_type: params.picture_type,
            payload,
        };
        self.input_slots[input_id].in_flight = true;
        self.output_slots[output_id].in_flight = true;
        self.submitted = self.submitted + 1;
        self.pending.push(entry);
        proof {
            assert(self@ =~~= spec_push_submission(
                old(self)@,
                input_id as int,
                output_id as int,
                params,
            ));
            lemma_push_submission_inv(old(self)@, input_id as int, output_id as int, params);
        }
        if (self.pending.len() as u64) <= self.reorder_delay {
            return Err(self.encoder.make_error(ErrorKind::NeedMoreInput));
        }
        self.deliver_front();
        Ok(())
    }

    /// Submits the end-of-stream marker, flushing the pipeline: every
    /// buffered frame is delivered to its output bitstream, oldest first, and
    /// the caller should drain them all.
    ///
    /// When the device is busy an encoder-busy error is reported instead,
    /// nothing changes, and the caller should retry after a few milliseconds.
    /// The marker is submitted at most once per session: after a success the
    /// session only accepts draining and teardown.
    ///
    /// This is also done, with retries, by [`Session::close`]; callers who
    /// want the flushed frames call this themselves and drain before closing.
    pub fn end_of_stream(&mut self) -> (r: Result<(), EncodeError>)
        requires
            old(self)@.inv(),
            !old(self)@.eos_done,
        ensures
            final(self)@.inv(),
            ({
                let v = old(self)@;
                if v.encoder.busy_responses > 0 {
                    &&& final(self)@ == spec_consume_busy(v)
                    &&& r matches Err(e) && e.spec_kind() == ErrorKind::EncoderBusy
                        && e.spec_string() is None
                } else {
                    &&& final(self)@ == (SessionView {
                        eos_done: true,
                        eos_submissions: 1,
                        ..spec_drain(v)
                    })
                    &&& r is Ok
                }
            }),
    {
        if self.encoder.consume_busy_response() {
            let e = self.encoder.make_error(ErrorKind::EncoderBusy);
            proof {
                assert(self@ =~~= spec_consume_busy(old(self)@));
                lemma_inv_ignores_encoder(old(self)@, self@);
            }
            return Err(e);
        }
        while self.pending.len() > 0
            invariant
                self@.inv(),
                !self@.eos_done,
                spec_drain(self@) == spec_drain(old(self)@),
            decreases self@.pending.len(),
        {
            proof {
                assert(spec_drain(self@) == spec_drain(spec_deliver_front(self@)));
            }
            self.deliver_front();
        }
        let ghost drained = self@;
        proof {
            assert(spec_drain(drained) == drained);
            assert(drained == spec_drain(old(self)@));
        }
        self.eos_done = true;
        self.eos_submissions = self.eos_submissions + 1;
        proof {
            assert(self@ =~~= (SessionView {
                eos_done: true,
                eos_submissions: 1,
                ..spec_drain(old(self)@)
            }));
            assert forall|k: int| 0 <= k < self@.ready.len() implies #[trigger] self@
                .ready_entry_ok(k) by {
                assert(drained.ready_entry_ok(k));
            }
        }
        Ok(())
    }

    /// Tears the session down: submits the end-of-stream marker if the
    /// caller has not already done so, retrying while the device is busy,
    /// and releases the session with its encoder. Frames flushed by the
    /// marker are discarded; callers who want them call
    /// [`Session::end_of_stream`] and drain before closing.
    pub fn close(self)
        requires
            self@.inv(),
    {
        let mut s = self;
        if !s.eos_done {
            loop
                invariant_except_break
                    s@.inv(),
                    !s@.eos_done,
                decreases s@.encoder.busy_responses,
            {
                proof {
                    s.encoder.lemma_device_counters_nonneg();
                }
                let r = s.end_of_stream();
                if r.is_ok() {
                    break;
                }
            }
        }
    }
}

/// The bytes one pixel of the given format occupies in a packed row of an
/// input buffer. Planar and semi-planar formats count their luma plane.
pub open spec fn spec_format_bpp(f: BufferFormat) -> u32 {
    match f {
        BufferFormat::Argb => 4u32,
        BufferFormat::Argb10 => 4u32,
        BufferFormat::Abgr => 4u32,
        BufferFormat::Abgr10 => 4u32,
        BufferFormat::Ayuv => 4u32,
        _ => 1u32,
    }
}

/// Computes the bytes one pixel of the given format occupies in a packed row.
fn format_bpp(f: BufferFormat) -> (b: u32)
    ensures
        b == spec_format_bpp(f),
{
    match f {
        BufferFormat::Argb => 4,
        BufferFormat::Argb10 => 4,
        BufferFormat::Abgr => 4,
        BufferFormat::Abgr10 => 4,
        BufferFormat::Ayuv => 4,
        _ => 1,
    }
}

/// The pitch (row stride in bytes) the device reports when an input buffer of
/// the session is locked.
pub open spec fn spec_session_pitch(v: SessionView) -> int {
    v.width * spec_format_bpp(v.buffer_format)
}

/// Growing the input arena preserves the session invariant.
proof fn lemma_inv_push_input(v: SessionView, slot: InputSlotView)
    requires
        v.inv(),
        !slot.in_flight,
    ensures
        (SessionView { inputs: v.inputs.push(slot), ..v }).inv(),
{
    let w = SessionView { inputs: v.inputs.push(slot), ..v };
    assert forall|k: int| 0 <= k < w.pending.len() implies #[trigger] w.pending_entry_ok(k) by {
        assert(v.pending_entry_ok(k));
    }
    assert forall|k: int| 0 <= k < w.ready.len() implies #[trigger] w.ready_entry_ok(k) by {
        assert(v.ready_entry_ok(k));
    }
    assert forall|s: int|
        0 <= s < w.inputs.len() && (#[trigger] w.inputs[s]).in_flight implies exists|k: int|
        0 <= k < w.pending.len() && (#[trigger] w.pending[k]).input_id == s by {
        assert(s < v.inputs.len() && v.inputs[s].in_flight);
        let k = choose|k: int|
            0 <= k < v.pending.len() && (#[trigger] v.pending[k]).input_id == s;
        assert(0 <= k < w.pending.len() && w.pending[k].input_id == s);
    }
    assert forall|o: int|
        0 <= o < w.outputs.len() && (#[trigger] w.outputs[o]).in_flight implies exists|k: int|
        0 <= k < w.pending.len() && (#[trigger] w.pending[k]).output_id == o by {
        assert(v.outputs[o].in_flight);
        let k = choose|k: int|
            0 <= k < v.pending.len() && (#[trigger] v.pending[k]).output_id == o;
        assert(0 <= k < w.pending.len() && w.pending[k].output_id == o);
    }
    assert forall|o: int|
        0 <= o < w.outputs.len() && (#[trigger] w.outputs[o]).ready is Some implies exists|
            j: int,
        | 0 <= j < w.ready.len() && (#[trigger] w.ready[j]) == o by {
        assert(v.outputs[o].ready is Some);
        let j = choose|j: int| 0 <= j < v.ready.len() && (#[trigger] v.ready[j]) == o;
        assert(0 <= j < w.ready.len() && w.ready[j] == o);
    }
}

/// Growing the output arena preserves the session invariant.
proof fn lemma_inv_push_output(v: SessionView, slot: OutputSlotView)
    requires
        v.inv(),
        !slot.in_flight,
        slot.ready is None,
    ensures
        (SessionView { outputs: v.outputs.push(slot), ..v }).inv(),
{
    let w = SessionView { outputs: v.outputs.push(slot), ..v };
    assert forall|k: int| 0 <= k < w.pending.len() implies #[trigger] w.pending_entry_ok(k) by {
        assert(v.pending_entry_ok(k));
    }
    assert forall|k: int| 0 <= k < w.ready.len() implies #[trigger] w.ready_entry_ok(k) by {
        assert(v.ready_entry_ok(k));
    }
    assert forall|o: int|
        0 <= o < w.outputs.len() && (#[trigger] w.outputs[o]).in_flight implies exists|k: int|
        0 <= k < w.pending.len() && (#[trigger] w.pending[k]).output_id == o by {
        assert(o < v.outputs.len() && v.outputs[o].in_flight);
        let k = choose|k: int|
            0 <= k < v.pending.len() && (#[trigger] v.pending[k]).output_id == o;
        assert(0 <= k < w.pending.len() && w.pending[k].output_id == o);
    }
    assert forall|o: int|
        0 <= o < w.outputs.len() && (#[trigger] w.outputs[o]).ready is Some implies exists|
            j: int,
        | 0 <= j < w.ready.len() && (#[trigger] w.ready[j]) == o by {
        assert(o < v.outputs.len() && v.outputs[o].ready is Some);
        let j = choose|j: int| 0 <= j < v.ready.len() && (#[trigger] v.ready[j]) == o;
        assert(0 <= j < w.ready.len() && w.ready[j] == o);
    }
}

/// Updating an input slot that carries no buffered submission preserves the
/// session invariant.
proof fn lemma_inv_input_update(v: SessionView, i: int, slot: InputSlotView)
    requires
        v.inv(),
        0 <= i < v.inputs.len(),
        !v.inputs[i].in_flight,
        !slot.in_flight,
    ensures
        (SessionView { inputs: v.inputs.update(i, slot), ..v }).inv(),
{
    let w = SessionView { inputs: v.inputs.update(i, slot), ..v };
    assert forall|k: int| 0 <= k < w.pending.len() implies #[trigger] w.pending_entry_ok(k) by {
        assert(v.pending_entry_ok(k));
        assert(v.pending[k].input_id != i);
    }
    assert forall|k: int| 0 <= k < w.ready.len() implies #[trigger] w.ready_entry_ok(k) by {
        assert(v.ready_entry_ok(k));
    }
    assert forall|s: int|
        0 <= s < w.inputs.len() && (#[trigger] w.inputs[s]).in_flight implies exists|k: int|
        0 <= k < w.pending.len() && (#[trigger] w.pending[k]).input_id == s by {
        assert(s != i && v.inputs[s].in_flight);
        let k = choose|k: int|
            0 <= k < v.pending.len() && (#[trigger] v.pending[k]).input_id == s;
        assert(0 <= k < w.pending.len() && w.pending[k].input_id == s);
    }
    assert forall|t: int|
        0 <= t < w.outputs.len() && (#[trigger] w.outputs[t]).in_flight implies exists|k: int|
        0 <= k < w.pending.len() && (#[trigger] w.pending[k]).output_id == t by {
        assert(v.outputs[t].in_flight);
        let k = choose|k: int|
            0 <= k < v.pending.len() && (#[trigger] v.pending[k]).output_id == t;
        assert(0 <= k < w.pending.len() && w.pending[k].output_id == t);
    }
    assert forall|t: int|
        0 <= t < w.outputs.len() && (#[trigger] w.outputs[t]).ready is Some implies exists|
            j: int,
        | 0 <= j < w.ready.len() && (#[trigger] w.ready[j]) == t by {
        assert(v.outputs[t].ready is Some);
        let j = choose|j: int| 0 <= j < v.ready.len() && (#[trigger] v.ready[j]) == t;
        assert(0 <= j < w.ready.len() && w.ready[j] == t);
    }
}

/// Updating an output slot that carries neither a buffered submission nor a
/// delivered frame preserves the session invariant.
proof fn lemma_inv_output_update(v: SessionView, o: int, slot: OutputSlotView)
    requires
        v.inv(),
        0 <= o < v.outputs.len(),
        !v.outputs[o].in_flight,
        v.outputs[o].ready is None,
        !slot.in_flight,
        slot.ready is None,
    ensures
        (SessionView { outputs: v.outputs.update(o, slot), ..v }).inv(),
{
    let w = SessionView { outputs: v.outputs.update(o, slot), ..v };
    assert forall|k: int| 0 <= k < w.pending.len() implies #[trigger] w.pending_entry_ok(k) by {
        assert(v.pending_entry_ok(k));
        assert(v.pending[k].output_id != o);
    }
    assert forall|k: int| 0 <= k < w.ready.len() implies #[trigger] w.ready_entry_ok(k) by {
        assert(v.ready_entry_ok(k));
        assert(v.ready[k] != o);
    }
    assert forall|t: int|
        0 <= t < w.outputs.len() && (#[trigger] w.outputs[t]).in_flight implies exists|k: int|
        0 <= k < w.pending.len() && (#[trigger] w.pending[k]).output_id == t by {
        assert(t != o && v.outputs[t].in_flight);
        let k = choose|k: int|
            0 <= k < v.pending.len() && (#[trigger] v.pending[k]).output_id == t;
        assert(0 <= k < w.pending.len() && w.pending[k].output_id == t);
    }
    assert forall|t: int|
        0 <= t < w.outputs.len() && (#[trigger] w.outputs[t]).ready is Some implies exists|
            j: int,
        | 0 <= j < w.ready.len() && (#[trigger] w.ready[j]) == t by {
        assert(t != o && v.outputs[t].ready is Some);
        let j = choose|j: int| 0 <= j < v.ready.len() && (#[trigger] v.ready[j]) == t;
        assert(0 <= j < w.ready.len() && w.ready[j] == t);
    }
}

/// The state after the frame at the front of the ready queue was locked: the
/// slot leaves the ready queue and holds the lock, and the count of read
/// frames goes up by one.
pub open spec fn spec_lock_output(v: SessionView, o: int) -> SessionView {
    SessionView {
        outputs: v.outputs.update(
            o,
            OutputSlotView { locked: true, ready: None, ..v.outputs[o] },
        ),
        ready: v.ready.drop_first(),
        delivered: v.delivered + 1,
        ..v
    }
}

/// Locking the frame at the front of the ready queue preserves the session
/// invariant.
proof fn lemma_inv_lock_output(v: SessionView, o: int)
    requires
        v.inv(),
        v.ready.len() > 0,
        o == v.ready[0],
    ensures
        spec_lock_output(v, o).inv(),
{
    let w = spec_lock_output(v, o);
    assert(v.ready_entry_ok(0));
    assert forall|k: int| 0 <= k < w.pending.len() implies #[trigger] w.pending_entry_ok(k) by {
        assert(v.pending_entry_ok(k));
        assert(v.pending[k].output_id != o);
    }
    assert forall|k: int| 0 <= k < w.ready.len() implies #[trigger] w.ready_entry_ok(k) by {
        assert(v.ready_entry_ok(k + 1));
        assert(v.ready[k + 1] != o);
    }
    assert forall|t: int|
        0 <= t < w.outputs.len() && (#[trigger] w.outputs[t]).in_flight implies exists|k: int|
        0 <= k < w.pending.len() && (#[trigger] w.pending[k]).output_id == t by {
        assert(t != o && v.outputs[t].in_flight);
        let k = choose|k: int|
            0 <= k < v.pending.len() && (#[trigger] v.pending[k]).output_id == t;
        assert(0 <= k < w.pending.len() && w.pending[k].output_id == t);
    }
    assert forall|t: int|
        0 <= t < w.outputs.len() && (#[trigger] w.outputs[t]).ready is Some implies exists|
            j: int,
        | 0 <= j < w.ready.len() && (#[trigger] w.ready[j]) == t by {
        assert(t != o && v.outputs[t].ready is Some);
        let j = choose|j: int| 0 <= j < v.ready.len() && (#[trigger] v.ready[j]) == t;
        assert(j != 0);
        assert(0 <= j - 1 < w.ready.len() && w.ready[j - 1] == t);
    }
}

/// An input frame buffer allocated from a session's arena.
///
/// The buffer supports an exclusive lock/write/unlock cycle; its pitch (row
/// stride) is discovered at lock time, not at creation time. Destroy it with
/// `Session::destroy_input_buffer` once it is no longer in flight.
#[derive(Debug)]
pub struct Buffer {
    pub(crate) id: usize,
    pub(crate) pitch: u32,
}

/// An exclusive lock on an input buffer, holding the frame bytes to be
/// committed when the lock is returned with [`BufferLock::unlock`].
#[derive(Debug)]
pub struct BufferLock {
    pub(crate) buffer_id: usize,
    pub(crate) pitch: u32,
    pub(crate) capacity: u64,
    pub(crate) data: Vec<u8>,
}

/// An output bitstream buffer allocated from a session's arena. It receives
/// one compressed frame whenever a submission that names it leaves the
/// pipeline, and must then be locked and read — in submission order — before
/// it can be reused. Destroy it with `Session::destroy_output_bitstream`.
#[derive(Debug)]
pub struct Bitstream {
    pub(crate) id: usize,
}

/// An exclusive lock on an output bitstream, carrying one compressed frame
/// and its metadata. Return it with [`BitstreamLock::unlock`] to free the
/// bitstream for reuse.
#[derive(Debug)]
pub struct BitstreamLock {
    pub(crate) bitstream_id: usize,
    pub(crate) data: Vec<u8>,
    pub(crate) frame_index: u64,
    pub(crate) timestamp: u64,
    pub(crate) duration: u64,
    pub(crate) picture_type: PictureType,
}

/// An externally allocated memory resource registered and mapped as encoder
/// input. The resource holds an opaque `marker` value that keeps the external
/// memory object alive until teardown; release it with
/// [`RegisteredResource::release`], which unmaps before unregistering.
#[derive(Debug)]
pub struct RegisteredResource<T> {
    pub(crate) id: usize,
    pub(crate) pitch: u32,
    pub(crate) marker: T,
}

impl EncoderInput for Buffer {
    closed spec fn spec_id(&self) -> usize {
        self.id
    }

    closed spec fn spec_pitch(&self) -> u32 {
        self.pitch
    }

    fn handle(&self) -> usize {
        self.id
    }

    fn pitch(&self) -> u32 {
        self.pitch
    }
}

impl<T> EncoderInput for RegisteredResource<T> {
    closed spec fn spec_id(&self) -> usize {
        self.id
    }

    closed spec fn spec_pitch(&self) -> u32 {
        self.pitch
    }

    fn handle(&self) -> usize {
        self.id
    }

    fn pitch(&self) -> u32 {
        self.pitch
    }
}

impl EncoderOutput for Bitstream {
    closed spec fn spec_id(&self) -> usize {
        self.id
    }

    fn handle(&self) -> usize {
        self.id
    }
}

/// The fresh state of an encoder-allocated input buffer slot.
pub open spec fn spec_fresh_buffer_slot() -> InputSlotView {
    InputSlotView {
        alive: true,
        is_resource: false,
        mapped: false,
        locked: false,
        in_flight: false,
        data: Seq::empty(),
    }
}

/// The fresh state of an output bitstream slot.
pub open spec fn spec_fresh_bitstream_slot() -> OutputSlotView {
    OutputSlotView { alive: true, locked: false, in_flight: false, ready: None }
}

/// The state of a registered resource slot right after registration: mapped
/// on success, dead when mapping failed and the registration was rolled back.
pub open spec fn spec_resource_slot(mapped: bool) -> InputSlotView {
    InputSlotView {
        alive: mapped,
        is_resource: true,
        mapped,
        locked: false,
        in_flight: false,
        data: Seq::empty(),
    }
}

impl Session {
    /// Creates an input frame buffer sized to the session's frame size and
    /// pixel format. The new buffer is free: not locked, not in flight, and
    /// initially empty.
    pub fn create_input_buffer(&mut self) -> (r: Result<Buffer, EncodeError>)
        requires
            old(self)@.inv(),
        ensures
            final(self)@.inv(),
            r matches Ok(b) && b.spec_id() == old(self)@.inputs.len() && b.spec_pitch() == old(
                self,
            )@.width,
            final(self)@ == (SessionView {
                inputs: old(self)@.inputs.push(spec_fresh_buffer_slot()),
                ..old(self)@
            }),
    {
        let id = self.input_slots.len();
        self.input_slots.push(InputSlot {
            alive: true,
            is_resource: false,
            mapped: false,
            locked: false,
            in_flight: false,
            data: Vec::new(),
        });
        proof {
            assert(self@ =~~= (SessionView {
                inputs: old(self)@.inputs.push(spec_fresh_buffer_slot()),
                ..old(self)@
            }));
            lemma_inv_push_input(old(self)@, spec_fresh_buffer_slot());
        }
        Ok(Buffer { id, pitch: self.width })
    }

    /// Creates an output bitstream buffer. The new bitstream is free: not
    /// locked, not in flight, and holding no frame.
    pub fn create_output_bitstream(&mut self) -> (r: Result<Bitstream, EncodeError>)
        requires
            old(self)@.inv(),
        ensures
            final(self)@.inv(),
            r matches Ok(b) && b.spec_id() == old(self)@.outputs.len(),
            final(self)@ == (SessionView {
                outputs: old(self)@.outputs.push(spec_fresh_bitstream_slot()),
                ..old(self)@
            }),
    {
        let id = self.output_slots.len();
        self.output_slots.push(OutputSlot {
            alive: true,
            locked: false,
            in_flight: false,
            ready: None,
        });
        proof {
            assert(self@ =~~= (SessionView {
                outputs: old(self)@.outputs.push(spec_fresh_bitstream_slot()),
                ..old(self)@
            }));
            lemma_inv_push_output(old(self)@, spec_fresh_bitstream_slot());
        }
        Ok(Bitstream { id })
    }

    /// Registers an externally allocated memory object as encoder input and
    /// maps it into the encoder's input address space, in that order. The
    /// `marker` value is held by the returned resource so the external object
    /// outlives its registration; `resource_handle` is the external object's
    /// opaque device handle, and `pitch` its row stride in bytes.
    ///
    /// When mapping fails after a successful registration, the registration
    /// is unregistered before the error is reported, as the resource log
    /// shows: no half-registered resource is left behind.
    pub fn register_generic_resource<T>(
        &mut self,
        marker: T,
        resource_type: InputResourceType,
        resource_handle: u64,
        pitch: u32,
    ) -> (r: Result<RegisteredResource<T>, EncodeError>)
        requires
            old(self)@.inv(),
        ensures
            final(self)@.inv(),
            ({
                let v = old(self)@;
                let id = v.inputs.len() as usize;
                if v.encoder.map_failures > 0 {
                    &&& r matches Err(e) && spec_error_with(
                        e,
                        ErrorKind::MapFailed,
                        v.encoder.last_error,
                    )
                    &&& final(self)@ == (SessionView {
                        inputs: v.inputs.push(spec_resource_slot(false)),
                        encoder: EncoderView {
                            map_failures: v.encoder.map_failures - 1,
                            resource_log: v.encoder.resource_log.push(
                                ResourceEvent::Registered(id),
                            ).push(ResourceEvent::Unregistered(id)),
                            ..v.encoder
                        },
                        ..v
                    })
                } else {
                    &&& r matches Ok(res) && res.spec_id() == v.inputs.len() && res.spec_pitch()
                        == pitch
                    &&& final(self)@ == (SessionView {
                        inputs: v.inputs.push(spec_resource_slot(true)),
                        encoder: EncoderView {
                            resource_log: v.encoder.resource_log.push(
                                ResourceEvent::Registered(id),
                            ).push(ResourceEvent::Mapped(id)),
                            ..v.encoder
                        },
                        ..v
                    })
                }
            }),
    {
        let id = self.input_slots.len();
        self.encoder.log_resource_event(ResourceEvent::Registered(id));
        if self.encoder.consume_map_failure() {
            self.encoder.log_resource_event(ResourceEvent::Unregistered(id));
            self.input_slots.push(InputSlot {
                alive: false,
                is_resource: true,
                mapped: false,
                locked: false,
                in_flight: false,
                data: Vec::new(),
            });
            let e = self.encoder.make_error(ErrorKind::MapFailed);
            proof {
                let v = old(self)@;
                let target = SessionView {
                    inputs: v.inputs.push(spec_resource_slot(false)),
                    encoder: EncoderView {
                        map_failures: v.encoder.map_failures - 1,
                        resource_log: v.encoder.resource_log.push(
                            ResourceEvent::Registered(id),
                        ).push(ResourceEvent::Unregistered(id)),
                        ..v.encoder
                    },
                    ..v
                };
                assert(self@ =~~= target);
                lemma_inv_push_input(v, spec_resource_slot(false));
                lemma_inv_ignores_encoder(
                    SessionView { inputs: v.inputs.push(spec_resource_slot(false)), ..v },
                    self@,
                );
            }
            return Err(e);
        }
        self.encoder.log_resource_event(ResourceEvent::Mapped(id));
        self.input_slots.push(InputSlot {
            alive: true,
            is_resource: true,
            mapped: true,
            locked: false,
            in_flight: false,
            data: Vec::new(),
        });
        proof {
            let v = old(self)@;
            let target = SessionView {
                inputs: v.inputs.push(spec_resource_slot(true)),
                encoder: EncoderView {
                    resource_log: v.encoder.resource_log.push(ResourceEvent::Registered(id)).push(
                        ResourceEvent::Mapped(id),
                    ),
                    ..v.encoder
                },
                ..v
            };
            assert(self@ =~~= target);
            lemma_inv_push_input(v, spec_resource_slot(true));
            lemma_inv_ignores_encoder(
                SessionView { inputs: v.inputs.push(spec_resource_slot(true)), ..v },
                self@,
            );
        }
        Ok(RegisteredResource { id, pitch, marker })
    }

    /// Destroys an input frame buffer, freeing its slot. The buffer must not
    /// be locked or sitting in a submission still buffered in the pipeline.
    pub fn destroy_input_buffer(&mut self, buffer: Buffer)
        requires
            old(self)@.inv(),
            buffer.spec_id() < old(self)@.inputs.len(),
            ({
                let s = old(self)@.inputs[buffer.spec_id() as int];
                s.alive && !s.is_resource && !s.locked && !s.in_flight
            }),
        ensures
            final(self)@.inv(),
            final(self)@ == (SessionView {
                inputs: old(self)@.inputs.update(
                    buffer.spec_id() as int,
                    InputSlotView {
                        alive: false,
                        ..old(self)@.inputs[buffer.spec_id() as int]
                    },
                ),
                ..old(self)@
            }),
    {
        let id = buffer.handle();
        self.input_slots[id].alive = false;
        proof {
            let v = old(self)@;
            let i = buffer.spec_id() as int;
            assert(self@ =~~= (SessionView {
                inputs: v.inputs.update(i, InputSlotView { alive: false, ..v.inputs[i] }),
                ..v
            }));
            lemma_inv_input_update(v, i, InputSlotView { alive: false, ..v.inputs[i] });
        }
    }

    /// Destroys an output bitstream buffer, freeing its slot. The bitstream
    /// must not be locked, sitting in the pipeline, or holding an undrained
    /// frame.
    pub fn destroy_output_bitstream(&mut self, bitstream: Bitstream)
        requires
            old(self)@.inv(),
            bitstream.spec_id() < old(self)@.outputs.len(),
            ({
                let s = old(self)@.outputs[bitstream.spec_id() as int];
                s.alive && !s.locked && !s.in_flight && s.ready is None
            }),
        ensures
            final(self)@.inv(),
            final(self)@ == (SessionView {
                outputs: old(self)@.outputs.update(
                    bitstream.spec_id() as int,
                    OutputSlotView {
                        alive: false,
                        ..old(self)@.outputs[bitstream.spec_id() as int]
                    },
                ),
                ..old(self)@
            }),
    {
        let id = bitstream.handle();
        self.output_slots[id].alive = false;
        proof {
            let v = old(self)@;
            let o = bitstream.spec_id() as int;
            assert(self@ =~~= (SessionView {
                outputs: v.outputs.update(o, OutputSlotView { alive: false, ..v.outputs[o] }),
                ..v
            }));
            lemma_inv_output_update(v, o, OutputSlotView { alive: false, ..v.outputs[o] });
        }
    }
}

impl Buffer {
    /// Locks the input buffer for writing, blocking until exclusive access
    /// is granted. Because a buffer that is locked or in flight would make
    /// the single caller thread wait on itself, those states are ruled out
    /// here; for the polling variant see [`Buffer::try_lock`].
    ///
    /// Locking discovers the buffer's pitch (row stride): the lock and the
    /// buffer both carry it afterwards. The lock starts out holding the
    /// bytes last committed to the buffer.
    pub fn lock(&mut self, session: &mut Session) -> (r: Result<BufferLock, EncodeError>)
        requires
            old(session)@.inv(),
            old(self).spec_id() < old(session)@.inputs.len(),
            ({
                let s = old(session)@.inputs[old(self).spec_id() as int];
                s.alive && !s.is_resource && !s.locked && !s.in_flight
            }),
        ensures
            final(session)@.inv(),
            ({
                let v = old(session)@;
                let i = old(self).spec_id() as int;
                &&& r matches Ok(l) && l.spec_buffer_id() == i && l.spec_pitch()
                    == spec_session_pitch(v) && l.spec_capacity() == spec_session_pitch(v)
                    * v.height && l.spec_data() == v.inputs[i].data
                &&& final(self).spec_id() == i && final(self).spec_pitch() == spec_session_pitch(
                    v,
                )
                &&& final(session)@ == (SessionView {
                    inputs: v.inputs.update(i, InputSlotView { locked: true, ..v.inputs[i] }),
                    ..v
                })
            }),
    {
        self.lock_inner(session, true)
    }

    /// Non-blocking version of [`Buffer::lock`]: if the buffer is locked or
    /// in flight, a lock-busy error is reported immediately and nothing
    /// changes; the caller should retry in a few milliseconds.
    pub fn try_lock(&mut self, session: &mut Session) -> (r: Result<BufferLock, EncodeError>)
        requires
            old(session)@.inv(),
            old(self).spec_id() < old(session)@.inputs.len(),
            ({
                let s = old(session)@.inputs[old(self).spec_id() as int];
                s.alive && !s.is_resource
            }),
        ensures
            final(session)@.inv(),
            ({
                let v = old(session)@;
                let i = old(self).spec_id() as int;
                if v.inputs[i].locked || v.inputs[i].in_flight {
                    &&& r matches Err(e) && e.spec_kind() == ErrorKind::LockBusy
                        && e.spec_string() is None
                    &&& final(session)@ == v
                    &&& final(self).spec_id() == i && final(self).spec_pitch() == old(
                        self,
                    ).spec_pitch()
                } else {
                    &&& r matches Ok(l) && l.spec_buffer_id() == i && l.spec_pitch()
                        == spec_session_pitch(v) && l.spec_capacity() == spec_session_pitch(v)
                        * v.height && l.spec_data() == v.inputs[i].data
                    &&& final(self).spec_id() == i && final(self).spec_pitch()
                        == spec_session_pitch(v)
                    &&& final(session)@ == (SessionView {
                        inputs: v.inputs.update(
                            i,
                            InputSlotView { locked: true, ..v.inputs[i] },
                        ),
                        ..v
                    })
                }
            }),
    {
        self.lock_inner(session, false)
    }

    /// Locks the input buffer; `wait` is the blocking variant, whose callers
    /// must rule out contention beforehand.
    fn lock_inner(&mut self, session: &mut Session, wait: bool) -> (r: Result<
        BufferLock,
        EncodeError,
    >)
        requires
            old(session)@.inv(),
            old(self).spec_id() < old(session)@.inputs.len(),
            ({
                let s = old(session)@.inputs[old(self).spec_id() as int];
                s.alive && !s.is_resource
            }),
            wait ==> !old(session)@.inputs[old(self).spec_id() as int].locked && !old(
                session,
            )@.inputs[old(self).spec_id() as int].in_flight,
        ensures
            final(session)@.inv(),
            ({
                let v = old(session)@;
                let i = old(self).spec_id() as int;
                if v.inputs[i].locked || v.inputs[i].in_flight {
                    &&& r matches Err(e) && e.spec_kind() == ErrorKind::LockBusy
                        && e.spec_string() is None
                    &&& final(session)@ == v
                    &&& final(self).spec_id() == i && final(self).spec_pitch() == old(
                        self,
                    ).spec_pitch()
                } else {
                    &&& r matches Ok(l) && l.spec_buffer_id() == i && l.spec_pitch()
                        == spec_session_pitch(v) && l.spec_capacity() == spec_session_pitch(v)
                        * v.height && l.spec_data() == v.inputs[i].data
                    &&& final(self).spec_id() == i && final(self).spec_pitch()
                        == spec_session_pitch(v)
                    &&& final(session)@ == (SessionView {
                        inputs: v.inputs.update(
                            i,
                            InputSlotView { locked: true, ..v.inputs[i] },
                        ),
                        ..v
                    })
                }
            }),
    {
        let i = self.id;
        if session.input_slots[i].locked || session.input_slots[i].in_flight {
            return Err(session.encoder.make_error(ErrorKind::LockBusy));
        }
        let bpp = format_bpp(session.buffer_format);
        proof {
            assert(spec_format_bpp(old(session)@.buffer_format) <= 4);
            assert((session.width as int) * (bpp as int) <= 65536) by (nonlinear_arith)
                requires
                    session.width <= 16384,
                    bpp <= 4,
            ;
        }
        let pitch = session.width * bpp;
        self.pitch = pitch;
        let data = copy_bytes(session.input_slots[i].data.as_slice());
        session.input_slots[i].locked = true;
        proof {
            assert((pitch as int) * (session.height as int) <= 0x4000_0000) by (nonlinear_arith)
                requires
                    pitch <= 65536,
                    session.height <= 16384,
            ;
        }
        let capacity = (pitch as u64) * (session.height as u64);
        proof {
            let v = old(session)@;
            assert(session@ =~~= (SessionView {
                inputs: v.inputs.update(
                    i as int,
                    InputSlotView { locked: true, ..v.inputs[i as int] },
                ),
                ..v
            }));
            lemma_inv_input_update(
                v,
                i as int,
                InputSlotView { locked: true, ..v.inputs[i as int] },
            );
        }
        Ok(BufferLock { buffer_id: i, pitch, capacity, data })
    }
}

impl BufferLock {
    /// The input slot this lock belongs to.
    pub closed spec fn spec_buffer_id(self) -> int {
        self.buffer_id as int
    }

    /// The pitch (row stride in bytes) discovered at lock time.
    pub closed spec fn spec_pitch(self) -> int {
        self.pitch as int
    }

    /// The byte capacity of the locked buffer: pitch times frame height.
    pub closed spec fn spec_capacity(self) -> int {
        self.capacity as int
    }

    /// The frame bytes the lock holds.
    pub closed spec fn spec_data(self) -> Seq<u8> {
        self.data@
    }

    /// Getter for the pitch (row stride in bytes) of the locked buffer.
    pub fn pitch(&self) -> (p: u32)
        ensures
            p == self.spec_pitch(),
    {
        self.pitch
    }

    /// Writes frame data to the locked buffer, replacing its contents. At
    /// most `pitch * height` bytes fit; the caller lays rows out at the
    /// discovered pitch, which may exceed the logical row width.
    pub fn write(&mut self, data: &[u8])
        requires
            data@.len() <= old(self).spec_capacity(),
        ensures
            final(self).spec_data() == data@,
            final(self).spec_buffer_id() == old(self).spec_buffer_id(),
            final(self).spec_pitch() == old(self).spec_pitch(),
            final(self).spec_capacity() == old(self).spec_capacity(),
    {
        self.data = copy_bytes(data);
    }

    /// Unlocks the buffer, committing the bytes the lock holds. A failed
    /// unlock would mean the hardware and software state have diverged, so
    /// the protocol treats unlocking an unlocked slot as a caller error
    /// ruled out here.
    pub fn unlock(self, session: &mut Session)
        requires
            old(session)@.inv(),
            self.spec_buffer_id() < old(session)@.inputs.len(),
            ({
                let s = old(session)@.inputs[self.spec_buffer_id()];
                s.alive && s.locked && !s.in_flight
            }),
        ensures
            final(session)@.inv(),
            final(session)@ == (SessionView {
                inputs: old(session)@.inputs.update(
                    self.spec_buffer_id(),
                    InputSlotView {
                        locked: false,
                        data: self.spec_data(),
                        ..old(session)@.inputs[self.spec_buffer_id()]
                    },
                ),
                ..old(session)@
            }),
    {
        let i = self.buffer_id;
        session.input_slots[i].locked = false;
        session.input_slots[i].data = self.data;
        proof {
            let v = old(session)@;
            let slot = InputSlotView {
                locked: false,
                data: self.spec_data(),
                ..v.inputs[i as int]
            };
            assert(session@ =~~= (SessionView {
                inputs: v.inputs.update(i as int, slot),
                ..v
            }));
            lemma_inv_input_update(v, i as int, slot);
        }
    }
}

/// Holds when output slot `o` can be locked in session view `v`: it is not
/// already locked, and it is the oldest delivered frame not yet read —
/// outputs are read in exactly the order their submissions were made.
pub open spec fn spec_output_available(v: SessionView, o: int) -> bool {
    &&& !v.outputs[o].locked
    &&& v.ready.len() > 0
    &&& v.ready[0] == o
}

impl Bitstream {
    /// Locks the output bitstream for reading, blocking until the frame is
    /// available. Because a frame that has not been delivered would make the
    /// single caller thread wait forever, callers must know the slot holds
    /// the oldest undrained frame; for the polling variant see
    /// [`Bitstream::try_lock`].
    ///
    /// The returned lock carries the compressed bytes and the frame's
    /// metadata; its frame index is exactly the count of frames read before
    /// it, so outputs come back in submission order.
    pub fn lock(&self, session: &mut Session) -> (r: Result<BitstreamLock, EncodeError>)
        requires
            old(session)@.inv(),
            self.spec_id() < old(session)@.outputs.len(),
            old(session)@.outputs[self.spec_id() as int].alive,
            spec_output_available(old(session)@, self.spec_id() as int),
        ensures
            final(session)@.inv(),
            ({
                let v = old(session)@;
                let o = self.spec_id() as int;
                &&& r matches Ok(l) && l.spec_bitstream_id() == o && (v.outputs[o].ready
                    matches Some(f) && l.spec_data() == f.data && l.spec_frame_index()
                    == f.frame_index && l.spec_timestamp() == f.timestamp && l.spec_duration()
                    == f.duration && l.spec_picture_type() == f.picture_type)
                    && l.spec_frame_index() == v.delivered
                &&& final(session)@ == spec_lock_output(v, o)
            }),
    {
        self.lock_inner(session, true)
    }

    /// Non-blocking version of [`Bitstream::lock`]: if the bitstream is
    /// locked, holds no delivered frame yet, or is not the oldest undrained
    /// frame, a lock-busy error is reported immediately and nothing changes;
    /// the caller should retry in a few milliseconds.
    pub fn try_lock(&self, session: &mut Session) -> (r: Result<BitstreamLock, EncodeError>)
        requires
            old(session)@.inv(),
            self.spec_id() < old(session)@.outputs.len(),
            old(session)@.outputs[self.spec_id() as int].alive,
        ensures
            final(session)@.inv(),
            ({
                let v = old(session)@;
                let o = self.spec_id() as int;
                if spec_output_available(v, o) {
                    &&& r matches Ok(l) && l.spec_bitstream_id() == o && (v.outputs[o].ready
                        matches Some(f) && l.spec_data() == f.data && l.spec_frame_index()
                        == f.frame_index && l.spec_timestamp() == f.timestamp
                        && l.spec_duration() == f.duration && l.spec_picture_type()
                        == f.picture_type) && l.spec_frame_index() == v.delivered
                    &&& final(session)@ == spec_lock_output(v, o)
                } else {
                    &&& r matches Err(e) && e.spec_kind() == ErrorKind::LockBusy
                        && e.spec_string() is None
                    &&& final(session)@ == v
                }
            }),
    {
        self.lock_inner(session, false)
    }

    /// Locks the output bitstream; `wait` is the blocking variant, whose
    /// callers must know the frame is available.
    fn lock_inner(&self, session: &mut Session, wait: bool) -> (r: Result<
        BitstreamLock,
        EncodeError,
    >)
        requires
            old(session)@.inv(),
            self.spec_id() < old(session)@.outputs.len(),
            old(session)@.outputs[self.spec_id() as int].alive,
            wait ==> spec_output_available(old(session)@, self.spec_id() as int),
        ensures
            final(session)@.inv(),
            ({
                let v = old(session)@;
                let o = self.spec_id() as int;
                if spec_output_available(v, o) {
                    &&& r matches Ok(l) && l.spec_bitstream_id() == o && (v.outputs[o].ready
                        matches Some(f) && l.spec_data() == f.data && l.spec_frame_index()
                        == f.frame_index && l.spec_timestamp() == f.timestamp
                        && l.spec_duration() == f.duration && l.spec_picture_type()
                        == f.picture_type) && l.spec_frame_index() == v.delivered
                    &&& final(session)@ == spec_lock_output(v, o)
                } else {
                    &&& r matches Err(e) && e.spec_kind() == ErrorKind::LockBusy
                        && e.spec_string() is None
                    &&& final(session)@ == v
                }
            }),
    {
        let o = self.id;
        let front_is_o = session.ready_order.len() > 0 && *vstd::std_specs::vec::vec_index(
            &session.ready_order,
            0,
        ) == o;
        if session.output_slots[o].locked || !front_is_o {
            return Err(session.encoder.make_error(ErrorKind::LockBusy));
        }
        proof {
            assert(old(session)@.ready_entry_ok(0));
        }
        let (data, frame_index, timestamp, duration, picture_type) = match &session.output_slots[
            o
        ].ready {
            Some(f) => (
                copy_bytes(f.data.as_slice()),
                f.frame_index,
                f.timestamp,
                f.duration,
                f.picture_type,
            ),
            None => {
                proof {
                    assert(false);
                }
                (Vec::new(), 0, 0, 0, PictureType::Unknown)
            },
        };
        session.output_slots[o].locked = true;
        session.output_slots[o].ready = None;
        session.ready_order.remove(0);
        session.delivered = session.delivered + 1;
        proof {
            let v = old(session)@;
            assert(session@ =~~= spec_lock_output(v, o as int));
            lemma_inv_lock_output(v, o as int);
        }
        Ok(BitstreamLock { bitstream_id: o, data, frame_index, timestamp, duration, picture_type })
    }
}

impl BitstreamLock {
    /// The output slot this lock belongs to.
    pub closed spec fn spec_bitstream_id(self) -> int {
        self.bitstream_id as int
    }

    /// The compressed frame bytes the lock carries.
    pub closed spec fn spec_data(self) -> Seq<u8> {
        self.data@
    }

    /// The frame's position in submission order.
    pub closed spec fn spec_frame_index(self) -> int {
        self.frame_index as int
    }

    /// The timestamp given when the frame was submitted.
    pub closed spec fn spec_timestamp(self) -> u64 {
        self.timestamp
    }

    /// The duration the device reports for the frame.
    pub closed spec fn spec_duration(self) -> u64 {
        self.duration
    }

    /// The picture type of the frame.
    pub closed spec fn spec_picture_type(self) -> PictureType {
        self.picture_type
    }

    /// Getter for the compressed frame bytes.
    pub fn data(&self) -> (d: &[u8])
        ensures
            d@ == self.spec_data(),
    {
        self.data.as_slice()
    }

    /// Getter for the frame index: the frame's position in submission order.
    pub fn frame_index(&self) -> (i: u64)
        ensures
            i == self.spec_frame_index(),
    {
        self.frame_index
    }

    /// Getter for the timestamp.
    pub fn timestamp(&self) -> (t: u64)
        ensures
            t == self.spec_timestamp(),
    {
        self.timestamp
    }

    /// Getter for the duration.
    pub fn duration(&self) -> (d: u64)
        ensures
            d == self.spec_duration(),
    {
        self.duration
    }

    /// Getter for the picture type.
    pub fn picture_type(&self) -> (p: PictureType)
        ensures
            p == self.spec_picture_type(),
    {
        self.picture_type
    }

    /// Unlocks the bitstream, freeing it for reuse in later submissions. A
    /// failed unlock would mean the hardware and software state have
    /// diverged, so the protocol treats unlocking an unlocked slot as a
    /// caller error ruled out here.
    pub fn unlock(self, session: &mut Session)
        requires
            old(session)@.inv(),
            self.spec_bitstream_id() < old(session)@.outputs.len(),
            ({
                let s = old(session)@.outputs[self.spec_bitstream_id()];
                s.alive && s.locked && !s.in_flight && s.ready is None
            }),
        ensures
            final(session)@.inv(),
            final(session)@ == (SessionView {
                outputs: old(session)@.outputs.update(
                    self.spec_bitstream_id(),
                    OutputSlotView {
                        locked: false,
                        ..old(session)@.outputs[self.spec_bitstream_id()]
                    },
                ),
                ..old(session)@
            }),
    {
        let o = self.bitstream_id;
        session.output_slots[o].locked = false;
        proof {
            let v = old(session)@;
            let slot = OutputSlotView { locked: false, ..v.outputs[o as int] };
            assert(session@ =~~= (SessionView {
                outputs: v.outputs.update(o as int, slot),
                ..v
            }));
            lemma_inv_output_update(v, o as int, slot);
        }
    }
}

impl<T> RegisteredResource<T> {
    /// Tears the registered resource down: the mapping is undone first, the
    /// registration second, in that mandated order, as the resource log
    /// shows. The resource must no longer sit in a submission buffered in
    /// the pipeline. The opaque marker value is released with the resource,
    /// never before, so the external memory object outlives its
    /// registration.
    pub fn release(self, session: &mut Session)
        requires
            old(session)@.inv(),
            self.spec_id() < old(session)@.inputs.len(),
            ({
                let s = old(session)@.inputs[self.spec_id() as int];
                s.alive && s.is_resource && s.mapped && !s.in_flight && !s.locked
            }),
        ensures
            final(session)@.inv(),
            final(session)@ == (SessionView {
                inputs: old(session)@.inputs.update(
                    self.spec_id() as int,
                    InputSlotView {
                        alive: false,
                        mapped: false,
                        ..old(session)@.inputs[self.spec_id() as int]
                    },
                ),
                encoder: EncoderView {
                    resource_log: old(session)@.encoder.resource_log.push(
                        ResourceEvent::Unmapped(self.spec_id()),
                    ).push(ResourceEvent::Unregistered(self.spec_id())),
                    ..old(session)@.encoder
                },
                ..old(session)@
            }),
    {
        let i = self.id;
        session.encoder.log_resource_event(ResourceEvent::Unmapped(i));
        session.encoder.log_resource_event(ResourceEvent::Unregistered(i));
        session.input_slots[i].alive = false;
        session.input_slots[i].mapped = false;
        proof {
            let v = old(session)@;
            let slot = InputSlotView { alive: false, mapped: false, ..v.inputs[i as int] };
            let target = SessionView {
                inputs: v.inputs.update(i as int, slot),
                encoder: EncoderView {
                    resource_log: v.encoder.resource_log.push(ResourceEvent::Unmapped(i)).push(
                        ResourceEvent::Unregistered(i),
                    ),
                    ..v.encoder
                },
                ..v
            };
            assert(session@ =~~= target);
            lemma_inv_input_update(v, i as int, slot);
            lemma_inv_ignores_encoder(
                SessionView { inputs: v.inputs.update(i as int, slot), ..v },
                session@,
            );
        }
    }
}

/// Delivering the oldest buffered submission preserves the session invariant
/// and shortens the pipeline by one.
pub proof fn lemma_deliver_front_preserves_inv(v: SessionView)
    requires
        v.inv_core(),
        v.pending.len() >= 1,
    ensures
        spec_deliver_front(v).inv_core(),
{
    let w = spec_deliver_front(v);
    let e = v.pending[0];
    assert(v.pending_entry_ok(0));
    assert forall|i: int| 0 <= i < w.pending.len() implies #[trigger] w.pending_entry_ok(i) by {
        assert(v.pending_entry_ok(i + 1));
        assert(v.pending[i + 1].input_id != e.input_id);
        assert(v.pending[i + 1].output_id != e.output_id);
    }
    assert forall|i: int| 0 <= i < w.ready.len() implies #[trigger] w.ready_entry_ok(i) by {
        if i < v.ready.len() {
            assert(v.ready_entry_ok(i));
            assert(v.outputs[v.ready[i]].ready is Some);
        } else {
            assert(w.ready[i] == e.output_id);
        }
    }
    assert forall|i: int, j: int| 0 <= i < j < w.ready.len() implies w.ready[i] != w.ready[j] by {
        if j < v.ready.len() {
            assert(v.ready[i] != v.ready[j]);
        } else {
            assert(v.ready_entry_ok(i));
            assert(v.outputs[v.ready[i]].ready is Some);
        }
    }
    assert forall|s: int|
        0 <= s < w.inputs.len() && (#[trigger] w.inputs[s]).in_flight implies exists|k: int|
        0 <= k < w.pending.len() && (#[trigger] w.pending[k]).input_id == s by {
        assert(s != e.input_id && v.inputs[s].in_flight);
        let k = choose|k: int|
            0 <= k < v.pending.len() && (#[trigger] v.pending[k]).input_id == s;
        assert(k != 0);
        assert(0 <= k - 1 < w.pending.len() && w.pending[k - 1].input_id == s);
    }
    assert forall|t: int|
        0 <= t < w.outputs.len() && (#[trigger] w.outputs[t]).in_flight implies exists|k: int|
        0 <= k < w.pending.len() && (#[trigger] w.pending[k]).output_id == t by {
        assert(t != e.output_id && v.outputs[t].in_flight);
        let k = choose|k: int|
            0 <= k < v.pending.len() && (#[trigger] v.pending[k]).output_id == t;
        assert(k != 0);
        assert(0 <= k - 1 < w.pending.len() && w.pending[k - 1].output_id == t);
    }
    assert forall|t: int|
        0 <= t < w.outputs.len() && (#[trigger] w.outputs[t]).ready is Some implies exists|
            j: int,
        | 0 <= j < w.ready.len() && (#[trigger] w.ready[j]) == t by {
        if t == e.output_id {
            assert(w.ready[v.ready.len() as int] == t);
        } else {
            assert(v.outputs[t].ready is Some);
            let j = choose|j: int| 0 <= j < v.ready.len() && (#[trigger] v.ready[j]) == t;
            assert(0 <= j < w.ready.len() && w.ready[j] == t);
        }
    }
}

} // verus!
