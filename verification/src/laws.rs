//! Session-wide guarantees, proved over the transition relation
//! [`crate::session::step_model`].
//!
//! [`run_session`] folds a whole event trace through the transition
//! relation; the lemmas here state what holds of every such run: cleanup is
//! requested exactly once, transient results are delivered at most once, a
//! wrong-variant host message always fails the session, a previous
//! transaction is accepted exactly when its contents check out, a valid
//! transaction runs to completion with one signature per input, and every
//! screen pushed on the stack is dropped again by the time the session
//! ends, whichever way it ends.

use vstd::prelude::*;

use crate::encode::{ser_prevtx, ser_prevtx_header, ser_prevtx_inputs, ser_prevtx_outputs};
use crate::model::{
    ActionView, EventView, HostRequestView, Phase, PrevTxInputView, PrevTxOutputView,
    SessionView, TxInputView, TxOutputView,
};
use crate::session::{
    empty_screen_open, init_valid, initial_session, progress_screen_open, screen_closes,
    session_wf, step_model, SEQUENCE_FLOOR,
};
use crate::sha256::spec_txid;
use crate::types::{Error, InitRequest, NextType, PrevTxInit, UiEffect};

verus! {

/// Feeds a trace of events through the session, collecting the action of
/// every step; stops at the first terminal state.
pub open spec fn run_session(s: SessionView, events: Seq<EventView>) -> (SessionView, Seq<
    ActionView,
>)
    decreases events.len(),
{
    if events.len() == 0 || s.terminal() {
        (s, Seq::empty())
    } else {
        let t = step_model(s, events.first());
        let rest = run_session(t.sess, events.drop_first());
        (rest.0, seq![t.action] + rest.1)
    }
}

/// True when the session is never terminal before an event of the trace is
/// consumed, so that the whole trace is processed.
pub open spec fn run_alive(s: SessionView, events: Seq<EventView>) -> bool
    decreases events.len(),
{
    if events.len() == 0 {
        true
    } else {
        !s.terminal() && run_alive(step_model(s, events.first()).sess, events.drop_first())
    }
}

/// Processing a concatenated trace splits into processing its two halves,
/// as long as the first half is fully consumed.
pub proof fn lemma_run_append(s: SessionView, e1: Seq<EventView>, e2: Seq<EventView>)
    requires
        run_alive(s, e1),
    ensures
        run_session(s, e1 + e2).0 == run_session(run_session(s, e1).0, e2).0,
        run_session(s, e1 + e2).1 == run_session(s, e1).1 + run_session(run_session(s, e1).0,
            e2,
        ).1,
        run_alive(s, e1 + e2) == run_alive(run_session(s, e1).0, e2),
    decreases e1.len(),
{
    if e1.len() == 0 {
        assert(e1 + e2 =~= e2);
        assert(run_session(s, e1).1 + run_session(s, e2).1 =~= run_session(s, e2).1);
    } else {
        let t = step_model(s, e1.first());
        assert((e1 + e2).first() == e1.first());
        assert((e1 + e2).drop_first() =~= e1.drop_first() + e2);
        lemma_run_append(t.sess, e1.drop_first(), e2);
        assert(run_session(s, e1 + e2).1 =~= run_session(s, e1).1 + run_session(run_session(
            s,
            e1,
        ).0, e2).1);
    }
}

/// How many actions of a trace are the final cleanup action.
pub open spec fn count_finish(actions: Seq<ActionView>) -> int
    decreases actions.len(),
{
    if actions.len() == 0 {
        0
    } else {
        (if actions.first() is Finish {
            1int
        } else {
            0int
        }) + count_finish(actions.drop_first())
    }
}

/// A step ends in a terminal state exactly when its action is the cleanup
/// action `Finish`.
pub proof fn lemma_finish_iff_terminal(s: SessionView, e: EventView)
    ensures
        step_model(s, e).sess.terminal() <==> step_model(s, e).action is Finish,
{
}

/// The driver is told to clean up (release the native signing state, and
/// show the cancel notice on a user abort) exactly once per session: every
/// run from a live state carries exactly one `Finish` action if it reaches
/// a terminal state, and none while the session is still live.
pub proof fn lemma_finish_exactly_once(s: SessionView, events: Seq<EventView>)
    requires
        !s.terminal(),
    ensures
        count_finish(run_session(s, events).1) == if run_session(s, events).0.terminal() {
            1int
        } else {
            0int
        },
    decreases events.len(),
{
    if events.len() == 0 {
    } else {
        let t = step_model(s, events.first());
        let rest = run_session(t.sess, events.drop_first());
        lemma_finish_iff_terminal(s, events.first());
        let acts = seq![t.action] + rest.1;
        assert(run_session(s, events).1 == acts);
        assert(acts.first() == t.action);
        assert(acts.drop_first() =~= rest.1);
        assert(count_finish(acts) == (if t.action is Finish {
            1int
        } else {
            0int
        }) + count_finish(rest.1));
        if t.sess.terminal() {
            lemma_terminal_is_absorbing(t.sess, events.drop_first());
            assert(count_finish(rest.1) == 0);
        } else {
            lemma_finish_exactly_once(t.sess, events.drop_first());
        }
    }
}

/// Once a session is terminal, nothing more happens: a run from a terminal
/// state performs no action at all.
pub proof fn lemma_terminal_is_absorbing(s: SessionView, events: Seq<EventView>)
    requires
        s.terminal(),
    ensures
        run_session(s, events).0 == s,
        run_session(s, events).1 == Seq::<ActionView>::empty(),
{
}

/// Transient results are delivered at most once: whenever a step sends a
/// hint to the host, the stored hint is back at its defaults — no
/// signature, no signer commitment — before the next one is composed.
pub proof fn lemma_transients_cleared(s: SessionView, e: EventView)
    requires
        step_model(s, e).action is Exchange,
    ensures
        step_model(s, e).sess.next.transients_cleared(),
{
}

/// True when an action hands a signature out of the device: a hint with
/// `has_signature` set, or the final response carrying one.
pub open spec fn delivers_signature(a: ActionView) -> bool {
    match a {
        ActionView::Exchange(env) => env.msg.has_signature,
        ActionView::Finish { result, .. } => match result {
            Ok(env) => env.msg.has_signature,
            Err(_) => false,
        },
        _ => false,
    }
}

/// How many actions of a trace deliver a signature.
pub open spec fn sig_count(actions: Seq<ActionView>) -> int
    decreases actions.len(),
{
    if actions.len() == 0 {
        0
    } else {
        (if delivers_signature(actions.first()) {
            1int
        } else {
            0int
        }) + sig_count(actions.drop_first())
    }
}

pub proof fn lemma_sig_count_cons(a: ActionView, rest: Seq<ActionView>)
    ensures
        sig_count(seq![a] + rest) == (if delivers_signature(a) {
            1int
        } else {
            0int
        }) + sig_count(rest),
{
    assert((seq![a] + rest).first() == a);
    assert((seq![a] + rest).drop_first() =~= rest);
}

/// The host message variant each awaiting phase demands.
pub open spec fn host_request_matches(phase: Phase, req: HostRequestView) -> bool {
    match phase {
        Phase::AwaitInput1 | Phase::AwaitInput2 => req is Input,
        Phase::AwaitPrevtxInit => req is PrevtxInit,
        Phase::AwaitPrevtxInput => req is PrevtxInput,
        Phase::AwaitPrevtxOutput => req is PrevtxOutput,
        Phase::AwaitOutput => req is Output,
        Phase::AwaitHostNonce => req is AntikleptoSignature,
        _ => false,
    }
}

/// A host message of the wrong variant for the current step fails the
/// session with `InvalidState`, delivering nothing: no signature leaves the
/// device on that step, and — with `lemma_terminal_is_absorbing` — none
/// ever after. The only screen activity is the drop of whatever screen the
/// session still held open.
pub proof fn lemma_wrong_variant_rejected(s: SessionView, req: HostRequestView)
    requires
        !host_request_matches(s.phase, req),
    ensures
        step_model(s, EventView::Host(req)).sess.phase == Phase::Failed,
        step_model(s, EventView::Host(req)).action == (ActionView::Finish {
            result: Err::<crate::model::EnvelopeView, Error>(Error::InvalidState),
            cancel_toast: false,
        }),
        step_model(s, EventView::Host(req)).ui == screen_closes(s),
{
}

/// One previous transaction, as the host streams it.
pub struct PrevTxDesc {
    pub init: PrevTxInit,
    pub inputs: Seq<PrevTxInputView>,
    pub outputs: Seq<PrevTxOutputView>,
}

/// The host messages that stream `p`, in protocol order.
pub open spec fn prevtx_events(p: PrevTxDesc) -> Seq<EventView> {
    seq![EventView::Host(HostRequestView::PrevtxInit(p.init))] + Seq::new(
        p.inputs.len(),
        |k: int| EventView::Host(HostRequestView::PrevtxInput(p.inputs[k])),
    ) + Seq::new(
        p.outputs.len(),
        |k: int| EventView::Host(HostRequestView::PrevtxOutput(p.outputs[k])),
    )
}

/// The session while the previous transaction's inputs stream in: the hash
/// has been fed the header and the first `k` inputs.
pub open spec fn prevtx_input_state(s0: SessionView, p: PrevTxDesc, k: int) -> SessionView {
    SessionView {
        phase: Phase::AwaitPrevtxInput,
        prevtx: Some(p.init),
        prevtx_index: k as u32,
        fed: ser_prevtx_header(p.init) + ser_prevtx_inputs(p.inputs.take(k)),
        next: crate::model::SignNextView::cleared(),
        wrap: true,
        ..s0
    }
}

/// The session while the previous transaction's outputs stream in.
pub open spec fn prevtx_output_state(s0: SessionView, p: PrevTxDesc, k: int) -> SessionView {
    SessionView {
        phase: Phase::AwaitPrevtxOutput,
        prevtx: Some(p.init),
        prevtx_index: k as u32,
        fed: ser_prevtx_header(p.init) + ser_prevtx_inputs(p.inputs) + crate::encode::spec_varint(
            p.init.num_outputs as u64,
        ) + ser_prevtx_outputs(p.outputs.take(k)),
        next: crate::model::SignNextView::cleared(),
        wrap: true,
        ..s0
    }
}

/// The session after a previous transaction verified: on to the next input
/// of the first pass, or to the outputs once every input is done.
pub open spec fn prevtx_done_state(s0: SessionView) -> SessionView {
    if s0.input_index + 1 < s0.init.num_inputs {
        SessionView {
            phase: Phase::AwaitInput1,
            input_index: (s0.input_index + 1) as u32,
            cur_input: None,
            prevtx: None,
            prevtx_index: 0,
            fed: Seq::empty(),
            next: crate::model::SignNextView::cleared(),
            wrap: false,
            ..s0
        }
    } else {
        SessionView {
            phase: Phase::AwaitOutput,
            output_index: 0,
            cur_input: None,
            prevtx: None,
            prevtx_index: 0,
            fed: Seq::empty(),
            next: crate::model::SignNextView::cleared(),
            wrap: false,
            ..s0
        }
    }
}

/// Still to be caught at or after output `k`: the streamed value of the
/// spent output does not match the input's declared value.
pub open spec fn mismatch_pending(inp: TxInputView, p: PrevTxDesc, k: int) -> bool {
    &&& k <= inp.prev_out_index
    &&& inp.prev_out_index < p.init.num_outputs
    &&& p.outputs[inp.prev_out_index as int].value != inp.prev_out_value
}

/// The run ended in failure with `InvalidInput`, delivering no signature.
pub open spec fn fails_invalid_input(s1: SessionView, acts: Seq<ActionView>) -> bool {
    &&& s1.phase == Phase::Failed
    &&& acts.len() >= 1
    &&& acts.last() == ActionView::Finish {
        result: Err::<crate::model::EnvelopeView, Error>(Error::InvalidInput),
        cancel_toast: false,
    }
    &&& sig_count(acts) == 0
}

pub proof fn lemma_ser_inputs_snoc(s: Seq<PrevTxInputView>, k: int)
    requires
        0 <= k < s.len(),
    ensures
        ser_prevtx_inputs(s.take(k + 1)) == ser_prevtx_inputs(s.take(k))
            + crate::encode::ser_prevtx_input(s[k]),
{
    assert(s.take(k + 1).drop_last() =~= s.take(k));
    assert(s.take(k + 1).last() == s[k]);
}

pub proof fn lemma_ser_outputs_snoc(s: Seq<PrevTxOutputView>, k: int)
    requires
        0 <= k < s.len(),
    ensures
        ser_prevtx_outputs(s.take(k + 1)) == ser_prevtx_outputs(s.take(k))
            + crate::encode::ser_prevtx_output(s[k]),
{
    assert(s.take(k + 1).drop_last() =~= s.take(k));
    assert(s.take(k + 1).last() == s[k]);
}

/// Streaming the previous transaction's inputs never fails and feeds the
/// hash exactly their serialization, ending ready for the first output.
pub proof fn lemma_prevtx_inputs_run(s0: SessionView, p: PrevTxDesc, k: int)
    requires
        init_valid(s0.init),
        s0.input_index < s0.init.num_inputs,
        s0.cur_input is Some,
        0 <= k < p.init.num_inputs,
        p.inputs.len() == p.init.num_inputs,
        p.init.num_outputs >= 1,
    ensures
        ({
            let events = Seq::new(
                (p.inputs.len() - k) as nat,
                |d: int| EventView::Host(HostRequestView::PrevtxInput(p.inputs[k + d])),
            );
            let start = prevtx_input_state(s0, p, k);
            &&& run_alive(start, events)
            &&& run_session(start, events).0 == prevtx_output_state(s0, p, 0)
            &&& sig_count(run_session(start, events).1) == 0
        }),
    decreases p.init.num_inputs - k,
{
    let events = Seq::new(
        (p.inputs.len() - k) as nat,
        |d: int| EventView::Host(HostRequestView::PrevtxInput(p.inputs[k + d])),
    );
    let start = prevtx_input_state(s0, p, k);
    assert(events.first() == EventView::Host(HostRequestView::PrevtxInput(p.inputs[k])));
    let t = step_model(start, events.first());
    lemma_ser_inputs_snoc(p.inputs, k);
    assert(run_alive(start, events) == run_alive(t.sess, events.drop_first()));
    if k + 1 < p.init.num_inputs {
        assert(t.sess =~= prevtx_input_state(s0, p, k + 1));
        lemma_prevtx_inputs_run(s0, p, k + 1);
        assert(events.drop_first() =~= Seq::new(
            (p.inputs.len() - (k + 1)) as nat,
            |d: int| EventView::Host(HostRequestView::PrevtxInput(p.inputs[k + 1 + d])),
        ));
        assert(run_alive(t.sess, events.drop_first()));
        lemma_sig_count_cons(t.action, run_session(t.sess, events.drop_first()).1);
    } else {
        assert(p.inputs.take(k + 1) =~= p.inputs);
        assert(t.sess =~= prevtx_output_state(s0, p, 0)) by {
            assert(p.outputs.take(0) =~= Seq::<PrevTxOutputView>::empty());
            assert(t.sess.fed =~= prevtx_output_state(s0, p, 0).fed);
        }
        assert(events.drop_first() =~= Seq::<EventView>::empty());
        assert(run_alive(t.sess, events.drop_first()));
        lemma_sig_count_cons(t.action, run_session(t.sess, events.drop_first()).1);
    }
}

/// Streaming the previous transaction's outputs: the run fails with
/// `InvalidInput` exactly when the spent output's value disagrees with the
/// input or the finished txid disagrees with the input's hash; otherwise it
/// verifies and moves on. No signature is delivered either way.
pub proof fn lemma_prevtx_outputs_run(s0: SessionView, p: PrevTxDesc, k: int)
    requires
        init_valid(s0.init),
        s0.input_index < s0.init.num_inputs,
        s0.cur_input is Some,
        0 <= k < p.init.num_outputs,
        p.inputs.len() == p.init.num_inputs,
        p.outputs.len() == p.init.num_outputs,
        p.init.num_inputs >= 1,
    ensures
        ({
            let events = Seq::new(
                (p.outputs.len() - k) as nat,
                |d: int| EventView::Host(HostRequestView::PrevtxOutput(p.outputs[k + d])),
            );
            let start = prevtx_output_state(s0, p, k);
            let s1 = run_session(start, events).0;
            let acts = run_session(start, events).1;
            let inp = s0.cur_input.unwrap();
            let txid_ok = spec_txid(ser_prevtx(p.init, p.inputs, p.outputs))
                == inp.prev_out_hash;
            &&& sig_count(acts) == 0
            &&& mismatch_pending(inp, p, k) ==> fails_invalid_input(s1, acts)
            &&& !mismatch_pending(inp, p, k) && !txid_ok ==> fails_invalid_input(s1, acts)
            &&& !mismatch_pending(inp, p, k) && txid_ok ==> {
                &&& run_alive(start, events)
                &&& s1 == prevtx_done_state(s0)
            }
        }),
    decreases p.init.num_outputs - k,
{
    let events = Seq::new(
        (p.outputs.len() - k) as nat,
        |d: int| EventView::Host(HostRequestView::PrevtxOutput(p.outputs[k + d])),
    );
    let start = prevtx_output_state(s0, p, k);
    let inp = s0.cur_input.unwrap();
    assert(events.first() == EventView::Host(HostRequestView::PrevtxOutput(p.outputs[k])));
    let t = step_model(start, events.first());
    if k == inp.prev_out_index && inp.prev_out_value != p.outputs[k].value {
        // caught here: the session fails at this very output
        assert(t.sess.terminal());
        assert(run_session(t.sess, events.drop_first()).1 =~= Seq::<ActionView>::empty());
        let acts = run_session(start, events).1;
        assert(acts =~= seq![t.action]);
        lemma_sig_count_cons(t.action, Seq::<ActionView>::empty());
        assert(sig_count(Seq::<ActionView>::empty()) == 0);
        assert(acts.last() == t.action);
    } else {
        lemma_ser_outputs_snoc(p.outputs, k);
        assert(run_alive(start, events) == run_alive(t.sess, events.drop_first()));
        if k + 1 < p.init.num_outputs {
            assert(t.sess =~= prevtx_output_state(s0, p, k + 1));
            lemma_prevtx_outputs_run(s0, p, k + 1);
            assert(events.drop_first() =~= Seq::new(
                (p.outputs.len() - (k + 1)) as nat,
                |d: int| EventView::Host(HostRequestView::PrevtxOutput(p.outputs[k + 1 + d])),
            ));
            let rest_acts = run_session(t.sess, events.drop_first()).1;
            let acts = run_session(start, events).1;
            assert(acts == seq![t.action] + rest_acts);
            lemma_sig_count_cons(t.action, rest_acts);
            assert(!delivers_signature(t.action));
            if rest_acts.len() >= 1 {
                assert(acts.last() == rest_acts.last());
            }
            // a pending mismatch lies strictly beyond this output
            assert(mismatch_pending(inp, p, k) ==> mismatch_pending(inp, p, k + 1));
            assert(mismatch_pending(inp, p, k + 1) ==> mismatch_pending(inp, p, k));
        } else {
            assert(p.outputs.take(k + 1) =~= p.outputs);
            // the hash is complete: the fed bytes are the whole serialization
            let fed_full = start.fed + crate::encode::ser_prevtx_output(p.outputs[k])
                + vstd::bytes::spec_u32_to_le_bytes(p.init.locktime);
            assert(fed_full =~= ser_prevtx(p.init, p.inputs, p.outputs));
            assert(!mismatch_pending(inp, p, k + 1));
            let rest_acts = run_session(t.sess, events.drop_first()).1;
            let acts = run_session(start, events).1;
            assert(events.drop_first() =~= Seq::<EventView>::empty());
            if spec_txid(ser_prevtx(p.init, p.inputs, p.outputs)) != inp.prev_out_hash {
                assert(t.sess.terminal());
                assert(acts =~= seq![t.action]);
                lemma_sig_count_cons(t.action, Seq::<ActionView>::empty());
                assert(acts.last() == t.action);
            } else {
                assert(t.sess =~= prevtx_done_state(s0));
                assert(acts =~= seq![t.action]);
                lemma_sig_count_cons(t.action, Seq::<ActionView>::empty());
                assert(run_alive(t.sess, events.drop_first()));
            }
        }
    }
}

/// The previous-transaction verification, whole: from the moment the
/// session asks for a previous transaction's header, streaming `p` ends in
/// `InvalidInput` if the transaction is empty, if the value of the spent
/// output disagrees with the input's declared value, or if the recomputed
/// txid — the double SHA-256 of the canonical serialization — disagrees
/// with the input's previous-output hash; and only then. No signature is
/// ever delivered during verification.
pub proof fn lemma_prevtx_verification(s0: SessionView, p: PrevTxDesc)
    requires
        session_wf(s0),
        s0.phase == Phase::AwaitPrevtxInit,
        s0.fed == Seq::<u8>::empty(),
        s0.next.transients_cleared(),
        p.inputs.len() == p.init.num_inputs,
        p.outputs.len() == p.init.num_outputs,
    ensures
        ({
            let s1 = run_session(s0, prevtx_events(p)).0;
            let acts = run_session(s0, prevtx_events(p)).1;
            let inp = s0.cur_input.unwrap();
            let txid_ok = spec_txid(ser_prevtx(p.init, p.inputs, p.outputs))
                == inp.prev_out_hash;
            let empty_tx = p.init.num_inputs < 1 || p.init.num_outputs < 1;
            &&& sig_count(acts) == 0
            &&& empty_tx ==> fails_invalid_input(s1, acts)
            &&& !empty_tx && mismatch_pending(inp, p, 0) ==> fails_invalid_input(s1, acts)
            &&& !empty_tx && !mismatch_pending(inp, p, 0) && !txid_ok ==> fails_invalid_input(
                s1,
                acts,
            )
            &&& !empty_tx && !mismatch_pending(inp, p, 0) && txid_ok ==> {
                &&& run_alive(s0, prevtx_events(p))
                &&& s1 == prevtx_done_state(s0)
            }
        }),
{
    let events = prevtx_events(p);
    let in_events = Seq::new(
        p.inputs.len(),
        |k: int| EventView::Host(HostRequestView::PrevtxInput(p.inputs[k])),
    );
    let out_events = Seq::new(
        p.outputs.len(),
        |k: int| EventView::Host(HostRequestView::PrevtxOutput(p.outputs[k])),
    );
    assert(events.first() == EventView::Host(HostRequestView::PrevtxInit(p.init)));
    let t = step_model(s0, events.first());
    let inp = s0.cur_input.unwrap();
    if p.init.num_inputs < 1 || p.init.num_outputs < 1 {
        assert(t.sess.terminal());
        lemma_terminal_is_absorbing(t.sess, events.drop_first());
        let acts = run_session(s0, events).1;
        assert(acts == seq![t.action] + run_session(t.sess, events.drop_first()).1);
        assert(acts =~= seq![t.action]);
        lemma_sig_count_cons(t.action, Seq::<ActionView>::empty());
        assert(acts.last() == t.action);
    } else {
        assert(t.sess =~= prevtx_input_state(s0, p, 0)) by {
            assert(p.inputs.take(0) =~= Seq::<PrevTxInputView>::empty());
            assert(t.sess.fed =~= prevtx_input_state(s0, p, 0).fed);
        }
        assert(events.drop_first() =~= in_events + out_events);
        lemma_prevtx_inputs_run(s0, p, 0);
        assert(in_events =~= Seq::new(
            (p.inputs.len() - 0) as nat,
            |d: int| EventView::Host(HostRequestView::PrevtxInput(p.inputs[0 + d])),
        ));
        lemma_run_append(prevtx_input_state(s0, p, 0), in_events, out_events);
        lemma_prevtx_outputs_run(s0, p, 0);
        assert(out_events =~= Seq::new(
            (p.outputs.len() - 0) as nat,
            |d: int| EventView::Host(HostRequestView::PrevtxOutput(p.outputs[0 + d])),
        ));
        let mid = prevtx_output_state(s0, p, 0);
        let in_acts = run_session(prevtx_input_state(s0, p, 0), in_events).1;
        let out_acts = run_session(mid, out_events).1;
        let acts = run_session(s0, events).1;
        assert(t.sess == prevtx_input_state(s0, p, 0));
        assert(events.drop_first() == in_events + out_events);
        assert(run_session(t.sess, events.drop_first()).1 == in_acts + out_acts);
        assert(run_session(t.sess, events.drop_first()).0 == run_session(mid, out_events).0);
        assert(acts == seq![t.action] + (in_acts + out_acts));
        lemma_sig_count_cons(t.action, in_acts + out_acts);
        lemma_sig_count_append(in_acts, out_acts);
        assert(!delivers_signature(t.action));
        if !mismatch_pending(inp, p, 0) && spec_txid(ser_prevtx(p.init, p.inputs, p.outputs))
            == inp.prev_out_hash {
            assert(run_alive(t.sess, events.drop_first()));
            assert(run_alive(s0, events) == run_alive(t.sess, events.drop_first()));
        } else {
            assert(out_acts.len() >= 1);
            assert((in_acts + out_acts).last() == out_acts.last());
            assert(acts.last() == out_acts.last());
            assert(acts.len() >= 1);
        }
    }
}

pub proof fn lemma_sig_count_append(a: Seq<ActionView>, b: Seq<ActionView>)
    ensures
        sig_count(a + b) == sig_count(a) + sig_count(b),
    decreases a.len(),
{
    if a.len() == 0 {
        assert(a + b =~= b);
    } else {
        assert((a + b).first() == a.first());
        assert((a + b).drop_first() =~= a.drop_first() + b);
        lemma_sig_count_append(a.drop_first(), b);
    }
}

/// A run over exactly two events, spelled out.
pub proof fn lemma_run_two(s: SessionView, e1: EventView, e2: EventView)
    requires
        !s.terminal(),
        !step_model(s, e1).sess.terminal(),
    ensures
        run_alive(s, seq![e1, e2]),
        run_session(s, seq![e1, e2]).0 == step_model(step_model(s, e1).sess, e2).sess,
        run_session(s, seq![e1, e2]).1 == seq![
            step_model(s, e1).action,
            step_model(step_model(s, e1).sess, e2).action,
        ],
{
    reveal_with_fuel(run_session, 3);
    reveal_with_fuel(run_alive, 3);
    let t1 = step_model(s, e1);
    let t2 = step_model(t1.sess, e2);
    assert(seq![e1, e2].first() == e1);
    assert(seq![e1, e2].drop_first() =~= seq![e2]);
    assert(seq![e2].first() == e2);
    assert(seq![e2].drop_first() =~= Seq::<EventView>::empty());
    assert(run_session(t1.sess, seq![e2]).1 =~= seq![t2.action]);
    assert(run_session(s, seq![e1, e2]).1 =~= seq![t1.action, t2.action]);
    assert(run_alive(t1.sess, seq![e2]));
}

/// A transaction as a well-behaved host streams it, together with what the
/// native signer returns for each input.
pub struct TxStream {
    pub init: InitRequest,
    pub inputs: Seq<TxInputView>,
    pub prevtxs: Seq<PrevTxDesc>,
    pub outputs: Seq<TxOutputView>,
    /// Per input: the native second-pass signature.
    pub signatures: Seq<Seq<u8>>,
    /// Per input: the native anti-klepto signer commitment.
    pub commitments: Seq<Seq<u8>>,
    /// Per input with anti-klepto armed: the host's nonce.
    pub host_nonces: Seq<Seq<u8>>,
    /// Per input with anti-klepto armed: the final combined signature.
    pub final_signatures: Seq<Seq<u8>>,
}

/// Input `i` of the stream is one the session accepts: its sequence number
/// is in range and its previous transaction is non-empty, carries the
/// declared value at the spent index, and hashes to the declared id.
pub open spec fn tx_input_valid(t: TxStream, i: int) -> bool {
    let inp = t.inputs[i];
    let p = t.prevtxs[i];
    &&& inp.sequence >= SEQUENCE_FLOOR
    &&& p.inputs.len() == p.init.num_inputs
    &&& p.outputs.len() == p.init.num_outputs
    &&& p.init.num_inputs >= 1
    &&& p.init.num_outputs >= 1
    &&& !mismatch_pending(inp, p, 0)
    &&& inp.prev_out_hash == spec_txid(ser_prevtx(p.init, p.inputs, p.outputs))
}

/// The whole stream is one the session accepts.
pub open spec fn tx_stream_valid(t: TxStream) -> bool {
    &&& init_valid(t.init)
    &&& t.inputs.len() == t.init.num_inputs
    &&& t.prevtxs.len() == t.init.num_inputs
    &&& t.outputs.len() == t.init.num_outputs
    &&& t.signatures.len() == t.init.num_inputs
    &&& t.commitments.len() == t.init.num_inputs
    &&& t.host_nonces.len() == t.init.num_inputs
    &&& t.final_signatures.len() == t.init.num_inputs
    &&& forall|i: int| 0 <= i < t.init.num_inputs ==> #[trigger] tx_input_valid(t, i)
    &&& forall|j: int| 0 <= j < t.init.num_outputs ==> #[trigger] t.outputs[j].value != 0
}

/// The events of the first pass over input `i`: the input record, the
/// native accumulator's answer, and the streamed previous transaction.
pub open spec fn input1_events(t: TxStream, i: int) -> Seq<EventView> {
    seq![EventView::Host(HostRequestView::Input(t.inputs[i])), EventView::NativeOk]
        + prevtx_events(t.prevtxs[i])
}

pub open spec fn pass1_events_from(t: TxStream, i: int) -> Seq<EventView>
    decreases t.init.num_inputs - i,
{
    if i < 0 || i >= t.init.num_inputs {
        Seq::empty()
    } else {
        input1_events(t, i) + pass1_events_from(t, i + 1)
    }
}

pub open spec fn output_events_from(t: TxStream, j: int) -> Seq<EventView>
    decreases t.init.num_outputs - j,
{
    if j < 0 || j >= t.init.num_outputs {
        Seq::empty()
    } else {
        seq![
            EventView::Host(HostRequestView::Output(t.outputs[j])),
            EventView::NativeOk,
        ] + output_events_from(t, j + 1)
    }
}

/// The events of the second pass over input `i`: the input record, the
/// native signature — and, with anti-klepto armed, the nonce exchange.
pub open spec fn input2_events(t: TxStream, i: int) -> Seq<EventView> {
    seq![
        EventView::Host(HostRequestView::Input(t.inputs[i])),
        EventView::SignedInput {
            signature: t.signatures[i],
            signer_commitment: t.commitments[i],
        },
    ] + if t.inputs[i].host_nonce_commitment is Some {
        seq![
            EventView::Host(HostRequestView::AntikleptoSignature(t.host_nonces[i])),
            EventView::AntikleptoSigned { signature: t.final_signatures[i] },
        ]
    } else {
        Seq::<EventView>::empty()
    }
}

pub open spec fn pass2_events_from(t: TxStream, i: int) -> Seq<EventView>
    decreases t.init.num_inputs - i,
{
    if i < 0 || i >= t.init.num_inputs {
        Seq::empty()
    } else {
        input2_events(t, i) + pass2_events_from(t, i + 1)
    }
}

/// The whole session's events, from entry to the last signature.
pub open spec fn tx_events(t: TxStream) -> Seq<EventView> {
    seq![EventView::Begin { keystore_locked: false }, EventView::NativeOk] + pass1_events_from(
        t,
        0,
    ) + output_events_from(t, 0) + pass2_events_from(t, 0)
}

/// The session about to request input `i` of the first pass.
pub open spec fn pass1_state(t: TxStream, i: int) -> SessionView {
    SessionView {
        init: t.init,
        phase: Phase::AwaitInput1,
        input_index: i as u32,
        output_index: 0,
        prevtx_index: 0,
        cur_input: None,
        prevtx: None,
        antiklepto: false,
        fed: Seq::empty(),
        next: crate::model::SignNextView::cleared(),
        wrap: false,
    }
}

/// The session about to request output `j`.
pub open spec fn output_state(t: TxStream, j: int) -> SessionView {
    SessionView {
        init: t.init,
        phase: Phase::AwaitOutput,
        input_index: (t.init.num_inputs - 1) as u32,
        output_index: j as u32,
        prevtx_index: 0,
        cur_input: None,
        prevtx: None,
        antiklepto: false,
        fed: Seq::empty(),
        next: crate::model::SignNextView::cleared(),
        wrap: false,
    }
}

/// The session about to request input `i` of the second pass.
pub open spec fn pass2_state(t: TxStream, i: int) -> SessionView {
    SessionView {
        init: t.init,
        phase: Phase::AwaitInput2,
        input_index: i as u32,
        output_index: (t.init.num_outputs - 1) as u32,
        prevtx_index: 0,
        cur_input: None,
        prevtx: None,
        antiklepto: if i == 0 {
            false
        } else {
            t.inputs[i - 1].host_nonce_commitment is Some
        },
        fed: Seq::empty(),
        next: crate::model::SignNextView::cleared(),
        wrap: false,
    }
}

/// The first pass runs through, input by input, delivering no signature.
pub proof fn lemma_pass1_loop(t: TxStream, i: int)
    requires
        tx_stream_valid(t),
        0 <= i < t.init.num_inputs,
    ensures
        run_alive(pass1_state(t, i), pass1_events_from(t, i)),
        run_session(pass1_state(t, i), pass1_events_from(t, i)).0 == output_state(t, 0),
        sig_count(run_session(pass1_state(t, i), pass1_events_from(t, i)).1) == 0,
    decreases t.init.num_inputs - i,
{
    let s0 = pass1_state(t, i);
    let e1 = EventView::Host(HostRequestView::Input(t.inputs[i]));
    let e2 = EventView::NativeOk;
    let c = seq![e1, e2];
    let d = prevtx_events(t.prevtxs[i]);
    let b = pass1_events_from(t, i + 1);
    assert(tx_input_valid(t, i));
    let t1 = step_model(s0, e1);
    lemma_run_two(s0, e1, e2);
    let s2 = step_model(t1.sess, e2).sess;
    let a2 = step_model(t1.sess, e2).action;
    assert(pass1_events_from(t, i) =~= c + (d + b));
    lemma_run_append(s0, c, d + b);
    lemma_prevtx_verification(s2, t.prevtxs[i]);
    assert(s2.cur_input.unwrap() == t.inputs[i]);
    lemma_run_append(s2, d, b);
    let s3 = run_session(s2, d).0;
    assert(s3 == prevtx_done_state(s2));
    let c_acts = run_session(s0, c).1;
    let d_acts = run_session(s2, d).1;
    let b_acts = run_session(s3, b).1;
    lemma_sig_count_append(c_acts, run_session(s2, d + b).1);
    lemma_sig_count_append(d_acts, b_acts);
    lemma_sig_count_cons(t1.action, seq![a2]);
    assert(seq![t1.action, a2] =~= seq![t1.action] + seq![a2]);
    lemma_sig_count_cons(a2, Seq::<ActionView>::empty());
    assert(seq![a2] =~= seq![a2] + Seq::<ActionView>::empty());
    assert(sig_count(c_acts) == 0);
    if i + 1 < t.init.num_inputs {
        assert(s3 =~= pass1_state(t, i + 1));
        lemma_pass1_loop(t, i + 1);
    } else {
        assert(s3 =~= output_state(t, 0));
        assert(b =~= Seq::<EventView>::empty());
    }
}

/// The outputs run through, one confirmation each, delivering no signature.
pub proof fn lemma_output_loop(t: TxStream, j: int)
    requires
        tx_stream_valid(t),
        0 <= j < t.init.num_outputs,
    ensures
        run_alive(output_state(t, j), output_events_from(t, j)),
        run_session(output_state(t, j), output_events_from(t, j)).0 == pass2_state(t, 0),
        sig_count(run_session(output_state(t, j), output_events_from(t, j)).1) == 0,
    decreases t.init.num_outputs - j,
{
    let s0 = output_state(t, j);
    let e1 = EventView::Host(HostRequestView::Output(t.outputs[j]));
    let e2 = EventView::NativeOk;
    let c = seq![e1, e2];
    let b = output_events_from(t, j + 1);
    let t1 = step_model(s0, e1);
    lemma_run_two(s0, e1, e2);
    let s2 = step_model(t1.sess, e2).sess;
    let a2 = step_model(t1.sess, e2).action;
    assert(output_events_from(t, j) =~= c + b);
    lemma_run_append(s0, c, b);
    let c_acts = run_session(s0, c).1;
    lemma_sig_count_append(c_acts, run_session(s2, b).1);
    lemma_sig_count_cons(t1.action, seq![a2]);
    assert(seq![t1.action, a2] =~= seq![t1.action] + seq![a2]);
    lemma_sig_count_cons(a2, Seq::<ActionView>::empty());
    assert(seq![a2] =~= seq![a2] + Seq::<ActionView>::empty());
    if j + 1 < t.init.num_outputs {
        assert(s2 =~= output_state(t, j + 1));
        lemma_output_loop(t, j + 1);
    } else {
        assert(s2 =~= pass2_state(t, 0));
        assert(b =~= Seq::<EventView>::empty());
    }
}

/// The action that ends a completed session: the final response, marked
/// `Done` and carrying the last signature, with no cancel notice.
pub open spec fn is_done_finish(a: ActionView) -> bool {
    match a {
        ActionView::Finish { result, cancel_toast } => match result {
            Ok(env) => env.msg.next_type == NextType::Done && env.msg.has_signature
                && !cancel_toast,
            Err(_) => false,
        },
        _ => false,
    }
}

/// The second pass signs every remaining input, delivering exactly one
/// signature per input, and ends the session in `Done` with the final
/// response as its last action.
#[verifier::rlimit(100)]
pub proof fn lemma_pass2_loop(t: TxStream, i: int)
    requires
        tx_stream_valid(t),
        0 <= i < t.init.num_inputs,
        session_wf(pass2_state(t, i)),
    ensures
        run_alive(pass2_state(t, i), pass2_events_from(t, i)),
        run_session(pass2_state(t, i), pass2_events_from(t, i)).0.phase == Phase::Done,
        sig_count(run_session(pass2_state(t, i), pass2_events_from(t, i)).1)
            == t.init.num_inputs - i,
        run_session(pass2_state(t, i), pass2_events_from(t, i)).1.len() >= 1,
        is_done_finish(run_session(pass2_state(t, i), pass2_events_from(t, i)).1.last()),
    decreases t.init.num_inputs - i,
{
    let s0 = pass2_state(t, i);
    let e1 = EventView::Host(HostRequestView::Input(t.inputs[i]));
    let e2 = EventView::SignedInput {
        signature: t.signatures[i],
        signer_commitment: t.commitments[i],
    };
    let b = pass2_events_from(t, i + 1);
    assert(tx_input_valid(t, i));
    let t1 = step_model(s0, e1);
    lemma_run_two(s0, e1, e2);
    let s2 = step_model(t1.sess, e2).sess;
    let a2 = step_model(t1.sess, e2).action;
    if t.inputs[i].host_nonce_commitment is Some {
        let e3 = EventView::Host(HostRequestView::AntikleptoSignature(t.host_nonces[i]));
        let e4 = EventView::AntikleptoSigned { signature: t.final_signatures[i] };
        lemma_run_two(s2, e3, e4);
        let t3 = step_model(s2, e3);
        let s4 = step_model(t3.sess, e4).sess;
        let a4 = step_model(t3.sess, e4).action;
        assert(input2_events(t, i) =~= seq![e1, e2] + seq![e3, e4]);
        assert(pass2_events_from(t, i) =~= seq![e1, e2] + (seq![e3, e4] + b));
        lemma_run_append(s0, seq![e1, e2], seq![e3, e4] + b);
        lemma_run_append(s2, seq![e3, e4], b);
        let c_acts = run_session(s0, seq![e1, e2]).1;
        let d_acts = run_session(s2, seq![e3, e4]).1;
        let tail = run_session(s4, b).1;
        let acts = run_session(s0, pass2_events_from(t, i)).1;
        assert(acts == c_acts + (d_acts + tail));
        lemma_sig_count_append(c_acts, run_session(s2, seq![e3, e4] + b).1);
        lemma_sig_count_append(d_acts, run_session(s4, b).1);
        lemma_sig_count_cons(t1.action, seq![a2]);
        assert(seq![t1.action, a2] =~= seq![t1.action] + seq![a2]);
        lemma_sig_count_cons(a2, Seq::<ActionView>::empty());
        assert(seq![a2] =~= seq![a2] + Seq::<ActionView>::empty());
        lemma_sig_count_cons(t3.action, seq![a4]);
        assert(seq![t3.action, a4] =~= seq![t3.action] + seq![a4]);
        lemma_sig_count_cons(a4, Seq::<ActionView>::empty());
        assert(seq![a4] =~= seq![a4] + Seq::<ActionView>::empty());
        assert(sig_count(c_acts) == 0);
        assert(delivers_signature(a4));
        assert(sig_count(d_acts) == 1);
        if i + 1 < t.init.num_inputs {
            assert(s4 =~= pass2_state(t, i + 1));
            lemma_pass2_loop(t, i + 1);
            assert((d_acts + tail).last() == tail.last());
            assert(acts.last() == tail.last());
        } else {
            assert(s4.phase == Phase::Done);
            assert(b =~= Seq::<EventView>::empty());
            assert(tail =~= Seq::<ActionView>::empty());
            assert(d_acts + tail =~= d_acts);
            assert(d_acts.last() == a4);
            assert(acts.last() == a4);
            assert(is_done_finish(a4));
        }
    } else {
        assert(pass2_events_from(t, i) =~= seq![e1, e2] + b);
        lemma_run_append(s0, seq![e1, e2], b);
        let c_acts = run_session(s0, seq![e1, e2]).1;
        let tail = run_session(s2, b).1;
        let acts = run_session(s0, pass2_events_from(t, i)).1;
        assert(acts == c_acts + tail);
        lemma_sig_count_append(c_acts, run_session(s2, b).1);
        lemma_sig_count_cons(t1.action, seq![a2]);
        assert(seq![t1.action, a2] =~= seq![t1.action] + seq![a2]);
        lemma_sig_count_cons(a2, Seq::<ActionView>::empty());
        assert(seq![a2] =~= seq![a2] + Seq::<ActionView>::empty());
        assert(delivers_signature(a2));
        assert(sig_count(c_acts) == 1);
        if i + 1 < t.init.num_inputs {
            assert(s2 =~= pass2_state(t, i + 1));
            lemma_pass2_loop(t, i + 1);
            assert(acts.last() == tail.last());
        } else {
            assert(s2.phase == Phase::Done);
            assert(b =~= Seq::<EventView>::empty());
            assert(tail =~= Seq::<ActionView>::empty());
            assert(c_acts + tail =~= c_acts);
            assert(c_acts.last() == a2);
            assert(acts.last() == a2);
            assert(is_done_finish(a2));
        }
    }
}

/// A valid transaction with `n` inputs runs from entry to completion: the
/// session ends in `Done`, exactly `n` signatures are delivered — one per
/// input — and the last action is the final response, marked `Done` and
/// carrying the last signature.
pub proof fn lemma_valid_transaction_completes(t: TxStream)
    requires
        tx_stream_valid(t),
    ensures
        run_session(crate::session::initial_session(t.init), tx_events(t)).0.phase
            == Phase::Done,
        sig_count(run_session(crate::session::initial_session(t.init), tx_events(t)).1)
            == t.init.num_inputs,
        run_session(crate::session::initial_session(t.init), tx_events(t)).1.len() >= 1,
        is_done_finish(
            run_session(crate::session::initial_session(t.init), tx_events(t)).1.last(),
        ),
{
    let s0 = crate::session::initial_session(t.init);
    let e1 = EventView::Begin { keystore_locked: false };
    let e2 = EventView::NativeOk;
    let pass1_ev = pass1_events_from(t, 0);
    let out_ev = output_events_from(t, 0);
    let pass2_ev = pass2_events_from(t, 0);
    let t1 = step_model(s0, e1);
    lemma_run_two(s0, e1, e2);
    let s2 = step_model(t1.sess, e2).sess;
    let a2 = step_model(t1.sess, e2).action;
    assert(s2 =~= pass1_state(t, 0));
    assert(tx_events(t) =~= seq![e1, e2] + (pass1_ev + (out_ev + pass2_ev)));
    lemma_run_append(s0, seq![e1, e2], pass1_ev + (out_ev + pass2_ev));
    lemma_pass1_loop(t, 0);
    lemma_run_append(pass1_state(t, 0), pass1_ev, out_ev + pass2_ev);
    lemma_output_loop(t, 0);
    lemma_run_append(output_state(t, 0), out_ev, pass2_ev);
    lemma_pass2_loop(t, 0);
    let c_acts = run_session(s0, seq![e1, e2]).1;
    let pass1_acts = run_session(pass1_state(t, 0), pass1_ev).1;
    let out_acts2 = run_session(output_state(t, 0), out_ev).1;
    let pass2_acts = run_session(pass2_state(t, 0), pass2_ev).1;
    lemma_sig_count_append(c_acts, run_session(pass1_state(t, 0), pass1_ev + (out_ev + pass2_ev)).1);
    lemma_sig_count_append(pass1_acts, run_session(output_state(t, 0), out_ev + pass2_ev).1);
    lemma_sig_count_append(out_acts2, pass2_acts);
    lemma_sig_count_cons(t1.action, seq![a2]);
    assert(seq![t1.action, a2] =~= seq![t1.action] + seq![a2]);
    lemma_sig_count_cons(a2, Seq::<ActionView>::empty());
    assert(seq![a2] =~= seq![a2] + Seq::<ActionView>::empty());
    assert(sig_count(c_acts) == 0);
    let acts = run_session(s0, tx_events(t)).1;
    assert(acts == c_acts + (pass1_acts + (out_acts2 + pass2_acts)));
    assert((out_acts2 + pass2_acts).last() == pass2_acts.last());
    assert((pass1_acts + (out_acts2 + pass2_acts)).last() == pass2_acts.last());
    assert(acts.last() == pass2_acts.last());
}

/// The screen effects of a whole run, in order; stops at the first
/// terminal state, like [`run_session`].
pub open spec fn run_ui(s: SessionView, events: Seq<EventView>) -> Seq<UiEffect>
    decreases events.len(),
{
    if events.len() == 0 || s.terminal() {
        Seq::empty()
    } else {
        step_model(s, events.first()).ui + run_ui(
            step_model(s, events.first()).sess,
            events.drop_first(),
        )
    }
}

/// The net number of screens a trace of effects leaves on the stack: each
/// push counts one, each drop counts one back.
pub open spec fn screen_delta(effects: Seq<UiEffect>) -> int
    decreases effects.len(),
{
    if effects.len() == 0 {
        0
    } else {
        (match effects.first() {
            UiEffect::ShowLoadingProgress | UiEffect::ShowEmpty
                | UiEffect::ShowSigningProgress => 1int,
            UiEffect::CloseProgress | UiEffect::CloseEmpty => -1int,
            _ => 0int,
        }) + screen_delta(effects.drop_first())
    }
}

/// How many screens a session state holds open.
pub open spec fn open_screens(s: SessionView) -> int {
    (if progress_screen_open(s) {
        1int
    } else {
        0int
    }) + (if empty_screen_open(s) {
        1int
    } else {
        0int
    })
}

pub proof fn lemma_screen_delta_append(a: Seq<UiEffect>, b: Seq<UiEffect>)
    ensures
        screen_delta(a + b) == screen_delta(a) + screen_delta(b),
    decreases a.len(),
{
    if a.len() == 0 {
        assert(a + b =~= b);
    } else {
        assert((a + b).first() == a.first());
        assert((a + b).drop_first() =~= a.drop_first() + b);
        lemma_screen_delta_append(a.drop_first(), b);
    }
}

/// Each step's screen effects move the number of open screens exactly from
/// the old state's count to the new state's.
#[verifier::rlimit(100)]
pub proof fn lemma_step_screen_delta(s: SessionView, e: EventView)
    requires
        !s.terminal(),
    ensures
        screen_delta(step_model(s, e).ui) == open_screens(step_model(s, e).sess)
            - open_screens(s),
{
    reveal_with_fuel(screen_delta, 5);
}

/// Screen pushes and drops balance across any run: the screen effects
/// change the number of open screens exactly from the start state's count
/// to the end state's.
pub proof fn lemma_screens_balanced(s: SessionView, events: Seq<EventView>)
    ensures
        screen_delta(run_ui(s, events)) == open_screens(run_session(s, events).0)
            - open_screens(s),
    decreases events.len(),
{
    if events.len() == 0 || s.terminal() {
    } else {
        let t = step_model(s, events.first());
        lemma_step_screen_delta(s, events.first());
        lemma_screens_balanced(t.sess, events.drop_first());
        lemma_screen_delta_append(t.ui, run_ui(t.sess, events.drop_first()));
    }
}

/// A session that ends — in success, failure or user abort — leaves no
/// screen behind: driven from entry to any terminal state, it emits
/// exactly as many screen drops as pushes.
pub proof fn lemma_session_screens_closed(init: InitRequest, events: Seq<EventView>)
    requires
        run_session(initial_session(init), events).0.terminal(),
    ensures
        screen_delta(run_ui(initial_session(init), events)) == 0,
{
    lemma_screens_balanced(initial_session(init), events);
}

} // verus!
