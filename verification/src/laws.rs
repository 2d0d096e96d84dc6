//! The protocol laws: properties of every reachable session state.
//!
//! Every law takes a session view satisfying the invariant that every
//! operation of [`Session`](crate::session::Session) maintains, so the laws
//! hold in every state a caller can observe.

use vstd::prelude::*;

use crate::session::{FrameInfo, SessionView};

verus! {

/// Ordering law: delivered frames are drained in exactly the order their
/// submissions were made. The `i`-th output in the ready queue holds the
/// frame submitted `i`-th among those not yet read — the front of the queue
/// is always the next frame in submission order, whatever mixture of
/// need-more-input signals and accepted submissions produced the queue.
pub proof fn lemma_outputs_drain_in_submission_order(v: SessionView, i: int, j: int)
    requires
        v.inv(),
        0 <= i <= j < v.ready.len(),
    ensures
        v.outputs[v.ready[i]].ready->Some_0.frame_index == v.delivered + i,
        i < j ==> v.outputs[v.ready[i]].ready->Some_0.frame_index < v.outputs[v.ready[j]].ready
            ->Some_0.frame_index,
{
    assert(v.ready_entry_ok(i));
    assert(v.ready_entry_ok(j));
}

/// Pipeline depth law: the hardware pipeline never buffers more than
/// `reorder_delay` (that is, `frame_interval_p - 1 + lookahead_depth`)
/// submissions, so at most that many input/output buffer pairs are in flight
/// at any time.
pub proof fn lemma_pipeline_depth_bounded(v: SessionView)
    requires
        v.inv(),
    ensures
        v.pending.len() <= v.reorder_delay,
{
}

/// Buffer pool law: a pool of more than `reorder_delay` input buffers — that
/// is, of at least `frame_interval_p + lookahead_depth` buffers — is never
/// exhausted: however long the stream, some buffer is free for the next
/// submission, so the pipeline cannot deadlock for want of input buffers.
pub proof fn lemma_buffer_pool_never_exhausts(v: SessionView)
    requires
        v.inv(),
        v.inputs.len() > v.reorder_delay,
    ensures
        exists|s: int| 0 <= s < v.inputs.len() && !(#[trigger] v.inputs[s]).in_flight,
{
    broadcast use vstd::seq_lib::seq_to_set_is_finite;

    let n = v.inputs.len() as int;
    let ids = v.pending.map_values(|e: FrameInfo| e.input_id);
    let inflight = Set::new(|s: int| 0 <= s < n && v.inputs[s].in_flight);
    assert(inflight.subset_of(ids.to_set())) by {
        assert forall|s: int| inflight.contains(s) implies ids.to_set().contains(s) by {
            let k = choose|k: int|
                0 <= k < v.pending.len() && (#[trigger] v.pending[k]).input_id == s;
            assert(ids[k] == s);
        }
    }
    ids.lemma_cardinality_of_set();
    vstd::set_lib::lemma_len_subset(inflight, ids.to_set());
    assert(exists|s: int| 0 <= s < n && !(#[trigger] v.inputs[s]).in_flight) by {
        if forall|s: int| 0 <= s < n ==> (#[trigger] v.inputs[s]).in_flight {
            let all = vstd::set_lib::set_int_range(0, n);
            vstd::set_lib::lemma_int_range(0, n);
            assert(all =~= inflight);
            assert(false);
        }
    }
}

/// Buffer pool law, output side: a pool of more than `reorder_delay` output
/// bitstreams is never exhausted either, provided the caller drains delivered
/// frames and holds no lock — some bitstream is then free for the next
/// submission.
pub proof fn lemma_bitstream_pool_never_exhausts(v: SessionView)
    requires
        v.inv(),
        v.outputs.len() > v.reorder_delay,
        v.ready.len() == 0,
        forall|o: int| 0 <= o < v.outputs.len() ==> !(#[trigger] v.outputs[o]).locked,
    ensures
        exists|o: int|
            0 <= o < v.outputs.len() && !(#[trigger] v.outputs[o]).in_flight && v.outputs[
                o
            ].ready is None && !v.outputs[o].locked,
{
    broadcast use vstd::seq_lib::seq_to_set_is_finite;

    let n = v.outputs.len() as int;
    let ids = v.pending.map_values(|e: FrameInfo| e.output_id);
    let inflight = Set::new(|o: int| 0 <= o < n && v.outputs[o].in_flight);
    assert(inflight.subset_of(ids.to_set())) by {
        assert forall|o: int| inflight.contains(o) implies ids.to_set().contains(o) by {
            let k = choose|k: int|
                0 <= k < v.pending.len() && (#[trigger] v.pending[k]).output_id == o;
            assert(ids[k] == o);
        }
    }
    ids.lemma_cardinality_of_set();
    vstd::set_lib::lemma_len_subset(inflight, ids.to_set());
    assert(exists|o: int| 0 <= o < n && !(#[trigger] v.outputs[o]).in_flight) by {
        if forall|o: int| 0 <= o < n ==> (#[trigger] v.outputs[o]).in_flight {
            let all = vstd::set_lib::set_int_range(0, n);
            vstd::set_lib::lemma_int_range(0, n);
            assert(all =~= inflight);
            assert(false);
        }
    }
    let o = choose|o: int| 0 <= o < n && !(#[trigger] v.outputs[o]).in_flight;
    // With the ready queue drained, no slot holds an unread frame.
    assert(v.outputs[o].ready is None);
}

/// End-of-stream law: the end-of-stream marker is submitted at most once per
/// session, however often a busy device forced the call to be retried — a
/// busy answer consumes no submission, and after the one successful
/// submission the session refuses further markers.
pub proof fn lemma_eos_submitted_at_most_once(v: SessionView)
    requires
        v.inv(),
    ensures
        v.eos_submissions <= 1,
{
}

} // verus!
