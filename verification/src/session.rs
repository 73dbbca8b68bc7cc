//! The signing session: a verified state machine over host messages and
//! native-call results.
//!
//! A session is driven one [`Event`] at a time through [`Session::step`],
//! which returns the screen updates and the one blocking [`Action`] the
//! driver must perform next. The whole transition relation is written out
//! as the specification function [`step_model`]; `step` is proved to
//! implement it exactly, so every protocol decision — which record is
//! demanded next, when a previous transaction is rejected, when a signature
//! is released, when the session ends — is pinned down.
//!
//! The flow has three phases over the transaction: a first pass over the
//! inputs (feeding the native BIP143 pre-commitment accumulator and
//! verifying each input's previous transaction), a pass over the outputs
//! (driving the user confirmations), and a second pass over the inputs that
//! produces one signature each, optionally finishing with the anti-klepto
//! nonce exchange.

use vstd::prelude::*;

use vstd::bytes::{spec_u32_to_le_bytes, u32_to_le_bytes, u64_to_le_bytes};

use crate::encode::{
    ser_prevtx_header, ser_prevtx_input, ser_prevtx_output, serialize_varint, spec_varint,
};
use crate::model::{
    ActionView, EnvelopeView, EventView, HostRequestView, Phase, SessionView, SignNextView,
    StepView,
};
use crate::sha256::{sha256, spec_txid, Sha256Ctx};
use crate::types::{
    bytes_equal, Error, InitRequest, NextType, PrevTxInit, PrevTxInput, PrevTxOutput, SignNext,
    TxInput, TxOutput, UiEffect,
};

verus! {

/// Inputs must signal finality, replace-by-fee, or replace-by-fee with
/// locktime: any sequence number below this is rejected.
pub const SEQUENCE_FLOOR: u32 = 0xffffffff - 2;

/// Locktimes at or above this value denote timestamps, which are rejected;
/// below it, a block height.
pub const LOCKTIME_LIMIT: u32 = 500000000;

/// A message from the host, demultiplexed into its variant.
#[derive(Debug)]
pub enum HostRequest {
    Input(TxInput),
    Output(TxOutput),
    PrevtxInit(PrevTxInit),
    PrevtxInput(PrevTxInput),
    PrevtxOutput(PrevTxOutput),
    /// The host's full anti-klepto nonce.
    AntikleptoSignature(Vec<u8>),
}

impl View for HostRequest {
    type V = HostRequestView;

    open spec fn view(&self) -> HostRequestView {
        match self {
            HostRequest::Input(x) => HostRequestView::Input(x@),
            HostRequest::Output(x) => HostRequestView::Output(x@),
            HostRequest::PrevtxInit(x) => HostRequestView::PrevtxInit(*x),
            HostRequest::PrevtxInput(x) => HostRequestView::PrevtxInput(x@),
            HostRequest::PrevtxOutput(x) => HostRequestView::PrevtxOutput(x@),
            HostRequest::AntikleptoSignature(x) => HostRequestView::AntikleptoSignature(x@),
        }
    }
}

/// What the driver feeds into the session: a host message, or the outcome
/// of the native call the session asked for.
#[derive(Debug)]
pub enum Event {
    /// Starts the session; carries whether the keystore is locked.
    Begin { keystore_locked: bool },
    /// The host answered the last hint with this message.
    Host(HostRequest),
    /// The native call (init, first-pass input, output) succeeded.
    NativeOk,
    /// The native call failed, or a confirmation dialog was declined.
    NativeErr(Error),
    /// The second-pass signing call returned a signature and the
    /// anti-klepto signer commitment.
    SignedInput { signature: Vec<u8>, signer_commitment: Vec<u8> },
    /// The anti-klepto finishing call returned the final signature.
    AntikleptoSigned { signature: Vec<u8> },
}

impl View for Event {
    type V = EventView;

    open spec fn view(&self) -> EventView {
        match self {
            Event::Begin { keystore_locked } => EventView::Begin {
                keystore_locked: *keystore_locked,
            },
            Event::Host(r) => EventView::Host(r@),
            Event::NativeOk => EventView::NativeOk,
            Event::NativeErr(e) => EventView::NativeErr(*e),
            Event::SignedInput { signature, signer_commitment } => EventView::SignedInput {
                signature: signature@,
                signer_commitment: signer_commitment@,
            },
            Event::AntikleptoSigned { signature } => EventView::AntikleptoSigned {
                signature: signature@,
            },
        }
    }
}

/// A hint together with the envelope shape it is sent in.
#[derive(Debug)]
pub struct Envelope {
    pub msg: SignNext,
    /// True: nested in the wrapping response envelope; false: sent bare.
    pub wrap: bool,
}

impl View for Envelope {
    type V = EnvelopeView;

    open spec fn view(&self) -> EnvelopeView {
        EnvelopeView { msg: self.msg@, wrap: self.wrap }
    }
}

/// The one blocking piece of work the driver performs after a step.
#[derive(Debug)]
pub enum Action {
    /// Send the hint to the host and feed back the host's answer.
    Exchange(Envelope),
    /// Call the native init validator on the full init message.
    CallSignInit,
    /// Feed an input into the native first-pass accumulator.
    CallPass1 { input: TxInput, last: bool },
    /// Hand an output to the native handler, which drives the user dialogs.
    CallOutput { output: TxOutput, last: bool },
    /// Ask the native side to sign an input (second pass).
    CallPass2 { input: TxInput, last: bool },
    /// Finish the anti-klepto exchange with the host's nonce.
    CallAntiklepto { host_nonce: Vec<u8> },
    /// The session is over: release native signing state exactly once, show
    /// the cancel notice iff the user aborted, and deliver the result.
    Finish { result: Result<Envelope, Error>, cancel_toast: bool },
}

impl View for Action {
    type V = ActionView;

    open spec fn view(&self) -> ActionView {
        match self {
            Action::Exchange(env) => ActionView::Exchange(env@),
            Action::CallSignInit => ActionView::CallSignInit,
            Action::CallPass1 { input, last } => ActionView::CallPass1 {
                input: input@,
                last: *last,
            },
            Action::CallOutput { output, last } => ActionView::CallOutput {
                output: output@,
                last: *last,
            },
            Action::CallPass2 { input, last } => ActionView::CallPass2 {
                input: input@,
                last: *last,
            },
            Action::CallAntiklepto { host_nonce } => ActionView::CallAntiklepto {
                host_nonce: host_nonce@,
            },
            Action::Finish { result, cancel_toast } => ActionView::Finish {
                result: match result {
                    Ok(env) => Ok(env@),
                    Err(e) => Err(*e),
                },
                cancel_toast: *cancel_toast,
            },
        }
    }
}

/// Screen updates plus the blocking action of one step.
#[derive(Debug)]
pub struct Reaction {
    pub ui: Vec<UiEffect>,
    pub action: Action,
}

/// The transaction-level parameters the session accepts.
pub open spec fn init_valid(init: InitRequest) -> bool {
    &&& init.version == 1 || init.version == 2
    &&& init.num_inputs >= 1
    &&& init.num_outputs >= 1
    &&& init.locktime < LOCKTIME_LIMIT
}

/// True while a progress screen is on the stack: the loading bar from the
/// first input until the first output arrives, and the signing bar through
/// the second pass when there are more than two inputs.
pub open spec fn progress_screen_open(s: SessionView) -> bool {
    match s.phase {
        Phase::AwaitInput1 | Phase::Pass1Pending | Phase::AwaitPrevtxInit
            | Phase::AwaitPrevtxInput | Phase::AwaitPrevtxOutput => true,
        Phase::AwaitOutput => s.output_index == 0,
        Phase::AwaitInput2 | Phase::Pass2Pending | Phase::AwaitHostNonce
            | Phase::AntikleptoPending => s.init.num_inputs > 2,
        _ => false,
    }
}

/// True while the empty placeholder is on the stack: from the first output
/// until the last output is confirmed.
pub open spec fn empty_screen_open(s: SessionView) -> bool {
    match s.phase {
        Phase::AwaitOutput => s.output_index > 0,
        Phase::OutputPending => true,
        _ => false,
    }
}

/// The drops that release whatever screen the session holds open, so that
/// every push is matched by a drop on every exit path.
pub open spec fn screen_closes(s: SessionView) -> Seq<UiEffect> {
    if progress_screen_open(s) {
        seq![UiEffect::CloseProgress]
    } else if empty_screen_open(s) {
        seq![UiEffect::CloseEmpty]
    } else {
        Seq::empty()
    }
}

/// Every transition that ends the session in failure: the phase flips to
/// `Failed`, any screen still on the stack is dropped, and the driver is
/// told to clean up, with the cancel notice shown iff the user aborted.
pub open spec fn fail_step(s: SessionView, err: Error) -> StepView {
    StepView {
        sess: SessionView { phase: Phase::Failed, ..s },
        ui: screen_closes(s),
        action: ActionView::Finish {
            result: Err(err),
            cancel_toast: err == Error::UserAbort,
        },
    }
}

/// The hint sent on the next round-trip: the staged transient results with
/// the demanded record type and indices filled in, in the current envelope.
pub open spec fn composed_env(
    s: SessionView,
    t: NextType,
    index: u32,
    prev_index: u32,
) -> EnvelopeView {
    EnvelopeView {
        msg: SignNextView { next_type: t, index: index, prev_index: prev_index, ..s.next },
        wrap: s.wrap,
    }
}

/// The session right after composing a hint: the transient fields are back
/// at their defaults — they are delivered at most once — and the envelope
/// shape for the round-trip after this one is recorded.
pub open spec fn composed_sess(s: SessionView, wrap_after: bool) -> SessionView {
    SessionView { next: SignNextView::cleared(), wrap: wrap_after, ..s }
}

/// Progress through one previous transaction: record `pos` of the prevtx's
/// combined input and output count, within input `i` of `n`.
pub open spec fn prevtx_progress(i: u32, n: u32, pi: PrevTxInit, pos: u64) -> UiEffect {
    UiEffect::SetProgress {
        index: i,
        count: n,
        pos: pos,
        total: (pi.num_inputs + pi.num_outputs) as u64,
    }
}

/// `Begin`: refuse a locked keystore, validate the transaction-level
/// parameters, then hand the full init message to the native validator.
pub open spec fn m_begin(s: SessionView, keystore_locked: bool) -> StepView {
    if keystore_locked {
        fail_step(s, Error::InvalidState)
    } else if !init_valid(s.init) {
        fail_step(s, Error::InvalidInput)
    } else {
        StepView {
            sess: SessionView { phase: Phase::InitPending, ..s },
            ui: Seq::empty(),
            action: ActionView::CallSignInit,
        }
    }
}

/// Init accepted: show the loading screen and ask for the first input.
pub open spec fn m_init_ok(s: SessionView) -> StepView {
    StepView {
        sess: SessionView {
            phase: Phase::AwaitInput1,
            input_index: 0,
            ..composed_sess(s, false)
        },
        ui: seq![
            UiEffect::ShowLoadingProgress,
            UiEffect::SetProgress { index: 0, count: s.init.num_inputs, pos: 0, total: 1 },
        ],
        action: ActionView::Exchange(composed_env(s, NextType::Input, 0, 0)),
    }
}

/// First-pass input received: check its sequence number and feed it to the
/// native accumulator.
pub open spec fn m_input1(s: SessionView, inp: crate::model::TxInputView) -> StepView {
    if inp.sequence < SEQUENCE_FLOOR {
        fail_step(s, Error::InvalidInput)
    } else {
        StepView {
            sess: SessionView { phase: Phase::Pass1Pending, cur_input: Some(inp), ..s },
            ui: Seq::empty(),
            action: ActionView::CallPass1 {
                input: inp,
                last: s.input_index + 1 == s.init.num_inputs,
            },
        }
    }
}

/// First-pass input accumulated: ask for its previous transaction's header.
pub open spec fn m_pass1_ok(s: SessionView) -> StepView {
    StepView {
        sess: SessionView { phase: Phase::AwaitPrevtxInit, ..composed_sess(s, true) },
        ui: Seq::empty(),
        action: ActionView::Exchange(composed_env(s, NextType::PrevtxInit, s.input_index, 0)),
    }
}

/// Previous transaction's header received: refuse an empty transaction,
/// start the txid hash with version and input count, and ask for its first
/// input.
pub open spec fn m_prevtx_init(s: SessionView, pi: PrevTxInit) -> StepView {
    if pi.num_inputs < 1 || pi.num_outputs < 1 {
        fail_step(s, Error::InvalidInput)
    } else {
        StepView {
            sess: SessionView {
                phase: Phase::AwaitPrevtxInput,
                prevtx: Some(pi),
                prevtx_index: 0,
                fed: s.fed + ser_prevtx_header(pi),
                ..composed_sess(s, true)
            },
            ui: seq![prevtx_progress(s.input_index, s.init.num_inputs, pi, 0)],
            action: ActionView::Exchange(
                composed_env(s, NextType::PrevtxInput, s.input_index, 0),
            ),
        }
    }
}

/// A previous transaction's input received: feed it into the txid hash and
/// ask for the next input, or for the first output once all inputs are in.
pub open spec fn m_prevtx_input(s: SessionView, x: crate::model::PrevTxInputView) -> StepView {
    match s.prevtx {
        Some(pi) => {
            let fed2 = s.fed + ser_prevtx_input(x);
            if s.prevtx_index + 1 < pi.num_inputs {
                StepView {
                    sess: SessionView {
                        prevtx_index: (s.prevtx_index + 1) as u32,
                        fed: fed2,
                        ..composed_sess(s, true)
                    },
                    ui: seq![
                        prevtx_progress(
                            s.input_index,
                            s.init.num_inputs,
                            pi,
                            (s.prevtx_index + 1) as u64,
                        ),
                    ],
                    action: ActionView::Exchange(
                        composed_env(
                            s,
                            NextType::PrevtxInput,
                            s.input_index,
                            (s.prevtx_index + 1) as u32,
                        ),
                    ),
                }
            } else {
                StepView {
                    sess: SessionView {
                        phase: Phase::AwaitPrevtxOutput,
                        prevtx_index: 0,
                        fed: fed2 + spec_varint(pi.num_outputs as u64),
                        ..composed_sess(s, true)
                    },
                    ui: seq![
                        prevtx_progress(
                            s.input_index,
                            s.init.num_inputs,
                            pi,
                            pi.num_inputs as u64,
                        ),
                    ],
                    action: ActionView::Exchange(
                        composed_env(s, NextType::PrevtxOutput, s.input_index, 0),
                    ),
                }
            }
        },
        None => fail_step(s, Error::InvalidState),
    }
}

/// A previous transaction's output received: verify the spent output's
/// value against the input, feed the output into the txid hash, and either
/// continue streaming or finish the txid and verify it against the input's
/// previous-output hash.
pub open spec fn m_prevtx_output(s: SessionView, x: crate::model::PrevTxOutputView) -> StepView {
    match (s.prevtx, s.cur_input) {
        (Some(pi), Some(inp)) => {
            if s.prevtx_index == inp.prev_out_index && inp.prev_out_value != x.value {
                fail_step(s, Error::InvalidInput)
            } else {
                let fed2 = s.fed + ser_prevtx_output(x);
                if s.prevtx_index + 1 < pi.num_outputs {
                    StepView {
                        sess: SessionView {
                            prevtx_index: (s.prevtx_index + 1) as u32,
                            fed: fed2,
                            ..composed_sess(s, true)
                        },
                        ui: seq![
                            prevtx_progress(
                                s.input_index,
                                s.init.num_inputs,
                                pi,
                                (pi.num_inputs + s.prevtx_index + 1) as u64,
                            ),
                        ],
                        action: ActionView::Exchange(
                            composed_env(
                                s,
                                NextType::PrevtxOutput,
                                s.input_index,
                                (s.prevtx_index + 1) as u32,
                            ),
                        ),
                    }
                } else {
                    let fed3 = fed2 + spec_u32_to_le_bytes(pi.locktime);
                    if spec_txid(fed3) != inp.prev_out_hash {
                        fail_step(SessionView { fed: Seq::empty(), ..s }, Error::InvalidInput)
                    } else {
                        let s1 = SessionView {
                            cur_input: None,
                            prevtx: None,
                            prevtx_index: 0,
                            fed: Seq::empty(),
                            ..composed_sess(s, false)
                        };
                        if s.input_index + 1 < s.init.num_inputs {
                            StepView {
                                sess: SessionView {
                                    phase: Phase::AwaitInput1,
                                    input_index: (s.input_index + 1) as u32,
                                    ..s1
                                },
                                ui: seq![
                                    UiEffect::SetProgress {
                                        index: (s.input_index + 1) as u32,
                                        count: s.init.num_inputs,
                                        pos: 0,
                                        total: 1,
                                    },
                                ],
                                action: ActionView::Exchange(
                                    composed_env(
                                        s,
                                        NextType::Input,
                                        (s.input_index + 1) as u32,
                                        0,
                                    ),
                                ),
                            }
                        } else {
                            StepView {
                                sess: SessionView {
                                    phase: Phase::AwaitOutput,
                                    output_index: 0,
                                    ..s1
                                },
                                ui: seq![
                                    UiEffect::SetProgress {
                                        index: s.init.num_inputs,
                                        count: s.init.num_inputs,
                                        pos: 0,
                                        total: 1,
                                    },
                                ],
                                action: ActionView::Exchange(
                                    composed_env(s, NextType::Output, 0, 0),
                                ),
                            }
                        }
                    }
                }
            }
        },
        _ => fail_step(s, Error::InvalidState),
    }
}

/// An output of the transaction received: refuse a zero value, swap the
/// loading screen for the placeholder on the first output, and hand the
/// output to the native handler for the user confirmations.
pub open spec fn m_output(s: SessionView, out: crate::model::TxOutputView) -> StepView {
    if out.value == 0 {
        fail_step(s, Error::InvalidInput)
    } else {
        StepView {
            sess: SessionView { phase: Phase::OutputPending, ..s },
            ui: if s.output_index == 0 {
                seq![UiEffect::CloseProgress, UiEffect::ShowEmpty]
            } else {
                Seq::empty()
            },
            action: ActionView::CallOutput {
                output: out,
                last: s.output_index + 1 == s.init.num_outputs,
            },
        }
    }
}

/// Output confirmed: ask for the next output, or — after the last one —
/// show the confirmation status and start the signing pass.
pub open spec fn m_output_ok(s: SessionView) -> StepView {
    if s.output_index + 1 < s.init.num_outputs {
        StepView {
            sess: SessionView {
                phase: Phase::AwaitOutput,
                output_index: (s.output_index + 1) as u32,
                ..composed_sess(s, false)
            },
            ui: Seq::empty(),
            action: ActionView::Exchange(
                composed_env(s, NextType::Output, (s.output_index + 1) as u32, 0),
            ),
        }
    } else {
        StepView {
            sess: SessionView {
                phase: Phase::AwaitInput2,
                input_index: 0,
                ..composed_sess(s, false)
            },
            ui: if s.init.num_inputs > 2 {
                seq![
                    UiEffect::StatusConfirmed,
                    UiEffect::CloseEmpty,
                    UiEffect::ShowSigningProgress,
                ]
            } else {
                seq![UiEffect::StatusConfirmed, UiEffect::CloseEmpty]
            },
            action: ActionView::Exchange(composed_env(s, NextType::Input, 0, 0)),
        }
    }
}

/// Second-pass input received: check its sequence number, note whether the
/// host armed anti-klepto, and ask the native side to sign.
pub open spec fn m_input2(s: SessionView, inp: crate::model::TxInputView) -> StepView {
    if inp.sequence < SEQUENCE_FLOOR {
        fail_step(s, Error::InvalidInput)
    } else {
        StepView {
            sess: SessionView {
                phase: Phase::Pass2Pending,
                antiklepto: inp.host_nonce_commitment is Some,
                ..s
            },
            ui: Seq::empty(),
            action: ActionView::CallPass2 {
                input: inp,
                last: s.input_index + 1 == s.init.num_inputs,
            },
        }
    }
}

/// A signature is staged on the hint; deliver it with the next round-trip —
/// the next input's request, or the final `Done` response after the last
/// input, which also drops the signing progress screen if one was shown.
pub open spec fn m_advance_pass2(s: SessionView) -> StepView {
    let prog = if s.init.num_inputs > 2 {
        seq![
            UiEffect::SetProgress {
                index: (s.input_index + 1) as u32,
                count: s.init.num_inputs,
                pos: 0,
                total: 1,
            },
        ]
    } else {
        Seq::<UiEffect>::empty()
    };
    if s.input_index + 1 < s.init.num_inputs {
        StepView {
            sess: SessionView {
                phase: Phase::AwaitInput2,
                input_index: (s.input_index + 1) as u32,
                ..composed_sess(s, false)
            },
            ui: prog,
            action: ActionView::Exchange(
                composed_env(s, NextType::Input, (s.input_index + 1) as u32, 0),
            ),
        }
    } else {
        StepView {
            sess: SessionView { phase: Phase::Done, ..s },
            ui: if s.init.num_inputs > 2 {
                prog + seq![UiEffect::CloseProgress]
            } else {
                prog
            },
            action: ActionView::Finish {
                result: Ok(
                    EnvelopeView {
                        msg: SignNextView { next_type: NextType::Done, ..s.next },
                        wrap: s.wrap,
                    },
                ),
                cancel_toast: false,
            },
        }
    }
}

/// The native signer returned: with anti-klepto armed, stage the signer
/// commitment and ask the host for its nonce; otherwise stage the signature
/// for delivery.
pub open spec fn m_signed(
    s: SessionView,
    signature: Seq<u8>,
    signer_commitment: Seq<u8>,
) -> StepView {
    if s.antiklepto {
        let s1 = SessionView {
            next: SignNextView {
                anti_klepto_signer_commitment: Some(signer_commitment),
                ..s.next
            },
            ..s
        };
        StepView {
            sess: SessionView { phase: Phase::AwaitHostNonce, ..composed_sess(s1, true) },
            ui: Seq::empty(),
            action: ActionView::Exchange(
                composed_env(s1, NextType::HostNonce, s.input_index, 0),
            ),
        }
    } else {
        m_advance_pass2(
            SessionView {
                next: SignNextView { has_signature: true, signature: signature, ..s.next },
                ..s
            },
        )
    }
}

/// The host's anti-klepto nonce received: hand it to the native finisher.
pub open spec fn m_host_nonce(s: SessionView, nonce: Seq<u8>) -> StepView {
    StepView {
        sess: SessionView { phase: Phase::AntikleptoPending, ..s },
        ui: Seq::empty(),
        action: ActionView::CallAntiklepto { host_nonce: nonce },
    }
}

/// The anti-klepto finisher returned the final signature: stage it.
pub open spec fn m_antiklepto_ok(s: SessionView, signature: Seq<u8>) -> StepView {
    m_advance_pass2(
        SessionView {
            next: SignNextView { has_signature: true, signature: signature, ..s.next },
            ..s
        },
    )
}

/// The complete transition relation of the session. Any event that does not
/// fit the current phase — in particular a host message of the wrong
/// variant — fails the session with `InvalidState`.
pub open spec fn step_model(s: SessionView, e: EventView) -> StepView {
    match s.phase {
        Phase::Ready => match e {
            EventView::Begin { keystore_locked } => m_begin(s, keystore_locked),
            _ => fail_step(s, Error::InvalidState),
        },
        Phase::InitPending => match e {
            EventView::NativeOk => m_init_ok(s),
            EventView::NativeErr(err) => fail_step(s, err),
            _ => fail_step(s, Error::InvalidState),
        },
        Phase::AwaitInput1 => match e {
            EventView::Host(HostRequestView::Input(inp)) => m_input1(s, inp),
            _ => fail_step(s, Error::InvalidState),
        },
        Phase::Pass1Pending => match e {
            EventView::NativeOk => m_pass1_ok(s),
            EventView::NativeErr(err) => fail_step(s, err),
            _ => fail_step(s, Error::InvalidState),
        },
        Phase::AwaitPrevtxInit => match e {
            EventView::Host(HostRequestView::PrevtxInit(pi)) => m_prevtx_init(s, pi),
            _ => fail_step(s, Error::InvalidState),
        },
        Phase::AwaitPrevtxInput => match e {
            EventView::Host(HostRequestView::PrevtxInput(x)) => m_prevtx_input(s, x),
            _ => fail_step(s, Error::InvalidState),
        },
        Phase::AwaitPrevtxOutput => match e {
            EventView::Host(HostRequestView::PrevtxOutput(x)) => m_prevtx_output(s, x),
            _ => fail_step(s, Error::InvalidState),
        },
        Phase::AwaitOutput => match e {
            EventView::Host(HostRequestView::Output(out)) => m_output(s, out),
            _ => fail_step(s, Error::InvalidState),
        },
        Phase::OutputPending => match e {
            EventView::NativeOk => m_output_ok(s),
            EventView::NativeErr(err) => fail_step(s, err),
            _ => fail_step(s, Error::InvalidState),
        },
        Phase::AwaitInput2 => match e {
            EventView::Host(HostRequestView::Input(inp)) => m_input2(s, inp),
            _ => fail_step(s, Error::InvalidState),
        },
        Phase::Pass2Pending => match e {
            EventView::SignedInput { signature, signer_commitment } => m_signed(
                s,
                signature,
                signer_commitment,
            ),
            EventView::NativeErr(err) => fail_step(s, err),
            _ => fail_step(s, Error::InvalidState),
        },
        Phase::AwaitHostNonce => match e {
            EventView::Host(HostRequestView::AntikleptoSignature(nonce)) => m_host_nonce(
                s,
                nonce,
            ),
            _ => fail_step(s, Error::InvalidState),
        },
        Phase::AntikleptoPending => match e {
            EventView::AntikleptoSigned { signature } => m_antiklepto_ok(s, signature),
            EventView::NativeErr(err) => fail_step(s, err),
            _ => fail_step(s, Error::InvalidState),
        },
        Phase::Done => fail_step(s, Error::InvalidState),
        Phase::Failed => fail_step(s, Error::InvalidState),
    }
}

/// The state a fresh session starts in.
pub open spec fn initial_session(init: InitRequest) -> SessionView {
    SessionView {
        init: init,
        phase: Phase::Ready,
        input_index: 0,
        output_index: 0,
        prevtx_index: 0,
        cur_input: None,
        prevtx: None,
        antiklepto: false,
        fed: Seq::empty(),
        next: SignNextView::cleared(),
        wrap: false,
    }
}

/// What holds of every reachable session state. In particular: while the
/// parameters of the transaction have been accepted, the indices being
/// worked on lie inside its bounds.
pub open spec fn session_wf(s: SessionView) -> bool {
    match s.phase {
        Phase::Ready | Phase::Done | Phase::Failed => true,
        Phase::InitPending => init_valid(s.init),
        Phase::AwaitInput1 | Phase::AwaitInput2 => init_valid(s.init) && s.input_index
            < s.init.num_inputs,
        Phase::Pass1Pending | Phase::AwaitPrevtxInit => init_valid(s.init) && s.input_index
            < s.init.num_inputs && s.cur_input is Some,
        Phase::AwaitPrevtxInput => init_valid(s.init) && s.input_index < s.init.num_inputs
            && s.cur_input is Some && (s.prevtx matches Some(pi) && s.prevtx_index
            < pi.num_inputs && pi.num_outputs >= 1),
        Phase::AwaitPrevtxOutput => init_valid(s.init) && s.input_index < s.init.num_inputs
            && s.cur_input is Some && (s.prevtx matches Some(pi) && s.prevtx_index
            < pi.num_outputs && pi.num_inputs >= 1),
        Phase::AwaitOutput | Phase::OutputPending => init_valid(s.init) && s.output_index
            < s.init.num_outputs,
        Phase::Pass2Pending | Phase::AwaitHostNonce | Phase::AntikleptoPending => init_valid(
            s.init,
        ) && s.input_index < s.init.num_inputs,
    }
}

/// A signing session. Create one with [`Session::new`], then feed it events
/// with [`Session::step`] until it emits [`Action::Finish`].
pub struct Session {
    init: InitRequest,
    phase: Phase,
    input_index: u32,
    output_index: u32,
    prevtx_index: u32,
    cur_input: Option<TxInput>,
    prevtx: Option<PrevTxInit>,
    antiklepto: bool,
    hasher: Sha256Ctx,
    next: SignNext,
    wrap: bool,
}

impl View for Session {
    type V = SessionView;

    closed spec fn view(&self) -> SessionView {
        SessionView {
            init: self.init,
            phase: self.phase,
            input_index: self.input_index,
            output_index: self.output_index,
            prevtx_index: self.prevtx_index,
            cur_input: match &self.cur_input {
                Some(x) => Some(x@),
                None => None,
            },
            prevtx: self.prevtx,
            antiklepto: self.antiklepto,
            fed: self.hasher@,
            next: self.next@,
            wrap: self.wrap,
        }
    }
}

impl Session {
    /// The session's state invariant; established by `new` and preserved by
    /// `step`.
    pub open spec fn wf(&self) -> bool {
        session_wf(self@)
    }

    /// Creates a session for a transaction with these parameters.
    pub fn new(init: InitRequest) -> (s: Session)
        ensures
            s@ == initial_session(init),
            s.wf(),
    {
        let s = Session {
            init: init,
            phase: Phase::Ready,
            input_index: 0,
            output_index: 0,
            prevtx_index: 0,
            cur_input: None,
            prevtx: None,
            antiklepto: false,
            hasher: Sha256Ctx::new(),
            next: SignNext::cleared(),
            wrap: false,
        };
        proof {
            assert(s@ =~= initial_session(init));
        }
        s
    }

    /// True when the session has delivered its final action and accepts no
    /// further event.
    pub fn is_terminal(&self) -> (r: bool)
        ensures
            r == self@.terminal(),
    {
        match self.phase {
            Phase::Done => true,
            Phase::Failed => true,
            _ => false,
        }
    }

    /// Composes the hint for the next round-trip and clears the transient
    /// fields, so that a signature or commitment is delivered at most once.
    fn compose(&mut self, t: NextType, index: u32, prev_index: u32, wrap_after: bool) -> (env:
        Envelope)
        ensures
            env@ == composed_env(old(self)@, t, index, prev_index),
            final(self)@ == composed_sess(old(self)@, wrap_after),
    {
        let mut staged = SignNext::cleared();
        core::mem::swap(&mut self.next, &mut staged);
        let msg = SignNext {
            next_type: t,
            index: index,
            prev_index: prev_index,
            has_signature: staged.has_signature,
            signature: staged.signature,
            anti_klepto_signer_commitment: staged.anti_klepto_signer_commitment,
        };
        let env = Envelope { msg: msg, wrap: self.wrap };
        self.wrap = wrap_after;
        proof {
            assert(env@ =~= composed_env(old(self)@, t, index, prev_index));
            assert(self@ =~= composed_sess(old(self)@, wrap_after));
        }
        env
    }

    /// Ends the session in failure, dropping whatever screen is still on
    /// the stack.
    fn fail(&mut self, err: Error) -> (r: Reaction)
        ensures
            final(self)@ == fail_step(old(self)@, err).sess,
            r.ui@ == fail_step(old(self)@, err).ui,
            r.action@ == fail_step(old(self)@, err).action,
    {
        let mut ui: Vec<UiEffect> = Vec::new();
        match self.phase {
            Phase::AwaitInput1 | Phase::Pass1Pending | Phase::AwaitPrevtxInit
                | Phase::AwaitPrevtxInput | Phase::AwaitPrevtxOutput => {
                ui.push(UiEffect::CloseProgress);
            },
            Phase::AwaitOutput => {
                if self.output_index == 0 {
                    ui.push(UiEffect::CloseProgress);
                } else {
                    ui.push(UiEffect::CloseEmpty);
                }
            },
            Phase::OutputPending => {
                ui.push(UiEffect::CloseEmpty);
            },
            Phase::AwaitInput2 | Phase::Pass2Pending | Phase::AwaitHostNonce
                | Phase::AntikleptoPending => {
                if self.init.num_inputs > 2 {
                    ui.push(UiEffect::CloseProgress);
                }
            },
            Phase::Ready | Phase::InitPending | Phase::Done | Phase::Failed => {},
        }
        self.phase = Phase::Failed;
        let r = Reaction {
            ui: ui,
            action: Action::Finish {
                result: Err(err),
                cancel_toast: err == Error::UserAbort,
            },
        };
        proof {
            assert(self@ =~= fail_step(old(self)@, err).sess);
            assert(r.ui@ =~= fail_step(old(self)@, err).ui);
        }
        r
    }

    /// Consumes one event and returns the screen updates and the blocking
    /// action the driver performs next. Implements [`step_model`] exactly.
    pub fn step(&mut self, event: Event) -> (r: Reaction)
        requires
            old(self).wf(),
            !old(self)@.terminal(),
        ensures
            final(self).wf(),
            final(self)@ == step_model(old(self)@, event@).sess,
            r.ui@ == step_model(old(self)@, event@).ui,
            r.action@ == step_model(old(self)@, event@).action,
    {
        match self.phase {
            Phase::Ready => self.st_ready(event),
            Phase::InitPending => self.st_init_pending(event),
            Phase::AwaitInput1 => self.st_await_input1(event),
            Phase::Pass1Pending => self.st_pass1_pending(event),
            Phase::AwaitPrevtxInit => self.st_await_prevtx_init(event),
            Phase::AwaitPrevtxInput => self.st_await_prevtx_input(event),
            Phase::AwaitPrevtxOutput => self.st_await_prevtx_output(event),
            Phase::AwaitOutput => self.st_await_output(event),
            Phase::OutputPending => self.st_output_pending(event),
            Phase::AwaitInput2 => self.st_await_input2(event),
            Phase::Pass2Pending => self.st_pass2_pending(event),
            Phase::AwaitHostNonce => self.st_await_host_nonce(event),
            Phase::AntikleptoPending => self.st_antiklepto_pending(event),
            Phase::Done => self.fail(Error::InvalidState),
            Phase::Failed => self.fail(Error::InvalidState),
        }
    }

    fn st_ready(&mut self, event: Event) -> (r: Reaction)
        requires
            old(self).wf(),
            old(self)@.phase == Phase::Ready,
        ensures
            final(self).wf(),
            final(self)@ == step_model(old(self)@, event@).sess,
            r.ui@ == step_model(old(self)@, event@).ui,
            r.action@ == step_model(old(self)@, event@).action,
    {
        match event {
            Event::Begin { keystore_locked } => self.tr_begin(keystore_locked),
            _ => self.fail(Error::InvalidState),
        }
    }

    fn st_init_pending(&mut self, event: Event) -> (r: Reaction)
        requires
            old(self).wf(),
            old(self)@.phase == Phase::InitPending,
        ensures
            final(self).wf(),
            final(self)@ == step_model(old(self)@, event@).sess,
            r.ui@ == step_model(old(self)@, event@).ui,
            r.action@ == step_model(old(self)@, event@).action,
    {
        match event {
            Event::NativeOk => self.tr_init_ok(),
            Event::NativeErr(err) => self.fail(err),
            _ => self.fail(Error::InvalidState),
        }
    }

    fn st_await_input1(&mut self, event: Event) -> (r: Reaction)
        requires
            old(self).wf(),
            old(self)@.phase == Phase::AwaitInput1,
        ensures
            final(self).wf(),
            final(self)@ == step_model(old(self)@, event@).sess,
            r.ui@ == step_model(old(self)@, event@).ui,
            r.action@ == step_model(old(self)@, event@).action,
    {
        match event {
            Event::Host(HostRequest::Input(inp)) => self.tr_input1(inp),
            _ => self.fail(Error::InvalidState),
        }
    }

    fn st_pass1_pending(&mut self, event: Event) -> (r: Reaction)
        requires
            old(self).wf(),
            old(self)@.phase == Phase::Pass1Pending,
        ensures
            final(self).wf(),
            final(self)@ == step_model(old(self)@, event@).sess,
            r.ui@ == step_model(old(self)@, event@).ui,
            r.action@ == step_model(old(self)@, event@).action,
    {
        match event {
            Event::NativeOk => self.tr_pass1_ok(),
            Event::NativeErr(err) => self.fail(err),
            _ => self.fail(Error::InvalidState),
        }
    }

    fn st_await_prevtx_init(&mut self, event: Event) -> (r: Reaction)
        requires
            old(self).wf(),
            old(self)@.phase == Phase::AwaitPrevtxInit,
        ensures
            final(self).wf(),
            final(self)@ == step_model(old(self)@, event@).sess,
            r.ui@ == step_model(old(self)@, event@).ui,
            r.action@ == step_model(old(self)@, event@).action,
    {
        match event {
            Event::Host(HostRequest::PrevtxInit(pi)) => self.tr_prevtx_init(pi),
            _ => self.fail(Error::InvalidState),
        }
    }

    fn st_await_prevtx_input(&mut self, event: Event) -> (r: Reaction)
        requires
            old(self).wf(),
            old(self)@.phase == Phase::AwaitPrevtxInput,
        ensures
            final(self).wf(),
            final(self)@ == step_model(old(self)@, event@).sess,
            r.ui@ == step_model(old(self)@, event@).ui,
            r.action@ == step_model(old(self)@, event@).action,
    {
        match event {
            Event::Host(HostRequest::PrevtxInput(x)) => self.tr_prevtx_input(x),
            _ => self.fail(Error::InvalidState),
        }
    }

    fn st_await_prevtx_output(&mut self, event: Event) -> (r: Reaction)
        requires
            old(self).wf(),
            old(self)@.phase == Phase::AwaitPrevtxOutput,
        ensures
            final(self).wf(),
            final(self)@ == step_model(old(self)@, event@).sess,
            r.ui@ == step_model(old(self)@, event@).ui,
            r.action@ == step_model(old(self)@, event@).action,
    {
        match event {
            Event::Host(HostRequest::PrevtxOutput(x)) => self.tr_prevtx_output(x),
            _ => self.fail(Error::InvalidState),
        }
    }

    fn st_await_output(&mut self, event: Event) -> (r: Reaction)
        requires
            old(self).wf(),
            old(self)@.phase == Phase::AwaitOutput,
        ensures
            final(self).wf(),
            final(self)@ == step_model(old(self)@, event@).sess,
            r.ui@ == step_model(old(self)@, event@).ui,
            r.action@ == step_model(old(self)@, event@).action,
    {
        match event {
            Event::Host(HostRequest::Output(out)) => self.tr_output(out),
            _ => self.fail(Error::InvalidState),
        }
    }

    fn st_output_pending(&mut self, event: Event) -> (r: Reaction)
        requires
            old(self).wf(),
            old(self)@.phase == Phase::OutputPending,
        ensures
            final(self).wf(),
            final(self)@ == step_model(old(self)@, event@).sess,
            r.ui@ == step_model(old(self)@, event@).ui,
            r.action@ == step_model(old(self)@, event@).action,
    {
        match event {
            Event::NativeOk => self.tr_output_ok(),
            Event::NativeErr(err) => self.fail(err),
            _ => self.fail(Error::InvalidState),
        }
    }

    fn st_await_input2(&mut self, event: Event) -> (r: Reaction)
        requires
            old(self).wf(),
            old(self)@.phase == Phase::AwaitInput2,
        ensures
            final(self).wf(),
            final(self)@ == step_model(old(self)@, event@).sess,
            r.ui@ == step_model(old(self)@, event@).ui,
            r.action@ == step_model(old(self)@, event@).action,
    {
        match event {
            Event::Host(HostRequest::Input(inp)) => self.tr_input2(inp),
            _ => self.fail(Error::InvalidState),
        }
    }

    fn st_pass2_pending(&mut self, event: Event) -> (r: Reaction)
        requires
            old(self).wf(),
            old(self)@.phase == Phase::Pass2Pending,
        ensures
            final(self).wf(),
            final(self)@ == step_model(old(self)@, event@).sess,
            r.ui@ == step_model(old(self)@, event@).ui,
            r.action@ == step_model(old(self)@, event@).action,
    {
        match event {
            Event::SignedInput { signature, signer_commitment } => self.tr_signed(
                signature,
                signer_commitment,
            ),
            Event::NativeErr(err) => self.fail(err),
            _ => self.fail(Error::InvalidState),
        }
    }

    fn st_await_host_nonce(&mut self, event: Event) -> (r: Reaction)
        requires
            old(self).wf(),
            old(self)@.phase == Phase::AwaitHostNonce,
        ensures
            final(self).wf(),
            final(self)@ == step_model(old(self)@, event@).sess,
            r.ui@ == step_model(old(self)@, event@).ui,
            r.action@ == step_model(old(self)@, event@).action,
    {
        match event {
            Event::Host(HostRequest::AntikleptoSignature(nonce)) => self.tr_host_nonce(nonce),
            _ => self.fail(Error::InvalidState),
        }
    }

    fn st_antiklepto_pending(&mut self, event: Event) -> (r: Reaction)
        requires
            old(self).wf(),
            old(self)@.phase == Phase::AntikleptoPending,
        ensures
            final(self).wf(),
            final(self)@ == step_model(old(self)@, event@).sess,
            r.ui@ == step_model(old(self)@, event@).ui,
            r.action@ == step_model(old(self)@, event@).action,
    {
        match event {
            Event::AntikleptoSigned { signature } => self.tr_antiklepto_ok(signature),
            Event::NativeErr(err) => self.fail(err),
            _ => self.fail(Error::InvalidState),
        }
    }

    fn tr_begin(&mut self, keystore_locked: bool) -> (r: Reaction)
        requires
            old(self)@.phase == Phase::Ready,
        ensures
            final(self).wf(),
            final(self)@ == m_begin(old(self)@, keystore_locked).sess,
            r.ui@ == m_begin(old(self)@, keystore_locked).ui,
            r.action@ == m_begin(old(self)@, keystore_locked).action,
    {
        if keystore_locked {
            return self.fail(Error::InvalidState);
        }
        let ok = (self.init.version == 1 || self.init.version == 2) && self.init.num_inputs >= 1
            && self.init.num_outputs >= 1 && self.init.locktime < LOCKTIME_LIMIT;
        if !ok {
            return self.fail(Error::InvalidInput);
        }
        self.phase = Phase::InitPending;
        let r = Reaction { ui: Vec::new(), action: Action::CallSignInit };
        proof {
            assert(self@ =~= m_begin(old(self)@, keystore_locked).sess);
            assert(r.ui@ =~= m_begin(old(self)@, keystore_locked).ui);
        }
        r
    }

    fn tr_init_ok(&mut self) -> (r: Reaction)
        requires
            old(self).wf(),
            old(self)@.phase == Phase::InitPending,
        ensures
            final(self).wf(),
            final(self)@ == m_init_ok(old(self)@).sess,
            r.ui@ == m_init_ok(old(self)@).ui,
            r.action@ == m_init_ok(old(self)@).action,
    {
        self.phase = Phase::AwaitInput1;
        self.input_index = 0;
        let env = self.compose(NextType::Input, 0, 0, false);
        let mut ui: Vec<UiEffect> = Vec::new();
        ui.push(UiEffect::ShowLoadingProgress);
        ui.push(UiEffect::SetProgress { index: 0, count: self.init.num_inputs, pos: 0, total: 1 });
        let r = Reaction { ui: ui, action: Action::Exchange(env) };
        proof {
            assert(self@ =~= m_init_ok(old(self)@).sess);
            assert(r.ui@ =~= m_init_ok(old(self)@).ui);
        }
        r
    }

    fn tr_input1(&mut self, inp: TxInput) -> (r: Reaction)
        requires
            old(self).wf(),
            old(self)@.phase == Phase::AwaitInput1,
        ensures
            final(self).wf(),
            final(self)@ == m_input1(old(self)@, inp@).sess,
            r.ui@ == m_input1(old(self)@, inp@).ui,
            r.action@ == m_input1(old(self)@, inp@).action,
    {
        if inp.sequence < SEQUENCE_FLOOR {
            return self.fail(Error::InvalidInput);
        }
        let last = self.input_index + 1 == self.init.num_inputs;
        self.phase = Phase::Pass1Pending;
        self.cur_input = Some(inp.duplicate());
        let r = Reaction { ui: Vec::new(), action: Action::CallPass1 { input: inp, last: last } };
        proof {
            assert(self@ =~= m_input1(old(self)@, inp@).sess);
            assert(r.ui@ =~= m_input1(old(self)@, inp@).ui);
        }
        r
    }

    fn tr_pass1_ok(&mut self) -> (r: Reaction)
        requires
            old(self).wf(),
            old(self)@.phase == Phase::Pass1Pending,
        ensures
            final(self).wf(),
            final(self)@ == m_pass1_ok(old(self)@).sess,
            r.ui@ == m_pass1_ok(old(self)@).ui,
            r.action@ == m_pass1_ok(old(self)@).action,
    {
        self.phase = Phase::AwaitPrevtxInit;
        let i = self.input_index;
        let env = self.compose(NextType::PrevtxInit, i, 0, true);
        let r = Reaction { ui: Vec::new(), action: Action::Exchange(env) };
        proof {
            assert(self@ =~= m_pass1_ok(old(self)@).sess);
            assert(r.ui@ =~= m_pass1_ok(old(self)@).ui);
        }
        r
    }

    fn tr_prevtx_init(&mut self, pi: PrevTxInit) -> (r: Reaction)
        requires
            old(self).wf(),
            old(self)@.phase == Phase::AwaitPrevtxInit,
        ensures
            final(self).wf(),
            final(self)@ == m_prevtx_init(old(self)@, pi).sess,
            r.ui@ == m_prevtx_init(old(self)@, pi).ui,
            r.action@ == m_prevtx_init(old(self)@, pi).action,
    {
        if pi.num_inputs < 1 || pi.num_outputs < 1 {
            return self.fail(Error::InvalidInput);
        }
        let ghost fed0 = self.hasher@;
        let version_bytes = u32_to_le_bytes(pi.version);
        self.hasher.update(version_bytes.as_slice());
        let count_bytes = serialize_varint(pi.num_inputs as u64);
        self.hasher.update(count_bytes.as_slice());
        proof {
            assert(self.hasher@ =~= fed0 + ser_prevtx_header(pi));
        }
        self.phase = Phase::AwaitPrevtxInput;
        self.prevtx = Some(pi);
        self.prevtx_index = 0;
        let i = self.input_index;
        let env = self.compose(NextType::PrevtxInput, i, 0, true);
        let mut ui: Vec<UiEffect> = Vec::new();
        ui.push(UiEffect::SetProgress {
            index: i,
            count: self.init.num_inputs,
            pos: 0,
            total: pi.num_inputs as u64 + pi.num_outputs as u64,
        });
        let r = Reaction { ui: ui, action: Action::Exchange(env) };
        proof {
            assert(self@ =~= m_prevtx_init(old(self)@, pi).sess);
            assert(r.ui@ =~= m_prevtx_init(old(self)@, pi).ui);
        }
        r
    }

    fn tr_prevtx_input(&mut self, x: PrevTxInput) -> (r: Reaction)
        requires
            old(self).wf(),
            old(self)@.phase == Phase::AwaitPrevtxInput,
        ensures
            final(self).wf(),
            final(self)@ == m_prevtx_input(old(self)@, x@).sess,
            r.ui@ == m_prevtx_input(old(self)@, x@).ui,
            r.action@ == m_prevtx_input(old(self)@, x@).action,
    {
        let pi = self.prevtx.unwrap();
        let k = self.prevtx_index;
        let i = self.input_index;
        let ghost fed0 = self.hasher@;
        self.hasher.update(x.prev_out_hash.as_slice());
        let idx_bytes = u32_to_le_bytes(x.prev_out_index);
        self.hasher.update(idx_bytes.as_slice());
        let len_bytes = serialize_varint(x.signature_script.len() as u64);
        self.hasher.update(len_bytes.as_slice());
        self.hasher.update(x.signature_script.as_slice());
        let seq_bytes = u32_to_le_bytes(x.sequence);
        self.hasher.update(seq_bytes.as_slice());
        proof {
            assert(self.hasher@ =~= fed0 + ser_prevtx_input(x@));
        }
        if k + 1 < pi.num_inputs {
            self.prevtx_index = k + 1;
            let env = self.compose(NextType::PrevtxInput, i, k + 1, true);
            let mut ui: Vec<UiEffect> = Vec::new();
            ui.push(UiEffect::SetProgress {
                index: i,
                count: self.init.num_inputs,
                pos: (k + 1) as u64,
                total: pi.num_inputs as u64 + pi.num_outputs as u64,
            });
            let r = Reaction { ui: ui, action: Action::Exchange(env) };
            proof {
                assert(self@ =~= m_prevtx_input(old(self)@, x@).sess);
                assert(r.ui@ =~= m_prevtx_input(old(self)@, x@).ui);
            }
            r
        } else {
            let ghost fed1 = self.hasher@;
            let count_bytes = serialize_varint(pi.num_outputs as u64);
            self.hasher.update(count_bytes.as_slice());
            proof {
                assert(self.hasher@ =~= fed1 + spec_varint(pi.num_outputs as u64));
            }
            self.phase = Phase::AwaitPrevtxOutput;
            self.prevtx_index = 0;
            let env = self.compose(NextType::PrevtxOutput, i, 0, true);
            let mut ui: Vec<UiEffect> = Vec::new();
            ui.push(UiEffect::SetProgress {
                index: i,
                count: self.init.num_inputs,
                pos: pi.num_inputs as u64,
                total: pi.num_inputs as u64 + pi.num_outputs as u64,
            });
            let r = Reaction { ui: ui, action: Action::Exchange(env) };
            proof {
                assert(self@ =~= m_prevtx_input(old(self)@, x@).sess);
                assert(r.ui@ =~= m_prevtx_input(old(self)@, x@).ui);
            }
            r
        }
    }

    fn tr_prevtx_output(&mut self, x: PrevTxOutput) -> (r: Reaction)
        requires
            old(self).wf(),
            old(self)@.phase == Phase::AwaitPrevtxOutput,
        ensures
            final(self).wf(),
            final(self)@ == m_prevtx_output(old(self)@, x@).sess,
            r.ui@ == m_prevtx_output(old(self)@, x@).ui,
            r.action@ == m_prevtx_output(old(self)@, x@).action,
    {
        let pi = self.prevtx.unwrap();
        let k = self.prevtx_index;
        let i = self.input_index;
        let (po_index, po_value) = match &self.cur_input {
            Some(inp) => (inp.prev_out_index, inp.prev_out_value),
            None => (0u32, 0u64),
        };
        if k == po_index && po_value != x.value {
            return self.fail(Error::InvalidInput);
        }
        let ghost fed0 = self.hasher@;
        let value_bytes = u64_to_le_bytes(x.value);
        self.hasher.update(value_bytes.as_slice());
        let len_bytes = serialize_varint(x.pubkey_script.len() as u64);
        self.hasher.update(len_bytes.as_slice());
        self.hasher.update(x.pubkey_script.as_slice());
        proof {
            assert(self.hasher@ =~= fed0 + ser_prevtx_output(x@));
        }
        if k + 1 < pi.num_outputs {
            self.prevtx_index = k + 1;
            let env = self.compose(NextType::PrevtxOutput, i, k + 1, true);
            let mut ui: Vec<UiEffect> = Vec::new();
            ui.push(UiEffect::SetProgress {
                index: i,
                count: self.init.num_inputs,
                pos: pi.num_inputs as u64 + (k + 1) as u64,
                total: pi.num_inputs as u64 + pi.num_outputs as u64,
            });
            let r = Reaction { ui: ui, action: Action::Exchange(env) };
            proof {
                assert(self@ =~= m_prevtx_output(old(self)@, x@).sess);
                assert(r.ui@ =~= m_prevtx_output(old(self)@, x@).ui);
            }
            r
        } else {
            let ghost fed1 = self.hasher@;
            let locktime_bytes = u32_to_le_bytes(pi.locktime);
            self.hasher.update(locktime_bytes.as_slice());
            proof {
                assert(self.hasher@ =~= fed1 + spec_u32_to_le_bytes(pi.locktime));
            }
            let inner = self.hasher.finalize_reset();
            let txid = sha256(inner.as_slice());
            let hash_matches = match &self.cur_input {
                Some(inp) => bytes_equal(&txid, &inp.prev_out_hash),
                None => false,
            };
            if !hash_matches {
                return self.fail(Error::InvalidInput);
            }
            self.cur_input = None;
            self.prevtx = None;
            self.prevtx_index = 0;
            if i + 1 < self.init.num_inputs {
                self.phase = Phase::AwaitInput1;
                self.input_index = i + 1;
                let env = self.compose(NextType::Input, i + 1, 0, false);
                let mut ui: Vec<UiEffect> = Vec::new();
                ui.push(UiEffect::SetProgress {
                    index: i + 1,
                    count: self.init.num_inputs,
                    pos: 0,
                    total: 1,
                });
                let r = Reaction { ui: ui, action: Action::Exchange(env) };
                proof {
                    assert(self@ =~= m_prevtx_output(old(self)@, x@).sess);
                    assert(r.ui@ =~= m_prevtx_output(old(self)@, x@).ui);
                }
                r
            } else {
                self.phase = Phase::AwaitOutput;
                self.output_index = 0;
                let env = self.compose(NextType::Output, 0, 0, false);
                let mut ui: Vec<UiEffect> = Vec::new();
                ui.push(UiEffect::SetProgress {
                    index: self.init.num_inputs,
                    count: self.init.num_inputs,
                    pos: 0,
                    total: 1,
                });
                let r = Reaction { ui: ui, action: Action::Exchange(env) };
                proof {
                    assert(self@ =~= m_prevtx_output(old(self)@, x@).sess);
                    assert(r.ui@ =~= m_prevtx_output(old(self)@, x@).ui);
                }
                r
            }
        }
    }

    fn tr_output(&mut self, out: TxOutput) -> (r: Reaction)
        requires
            old(self).wf(),
            old(self)@.phase == Phase::AwaitOutput,
        ensures
            final(self).wf(),
            final(self)@ == m_output(old(self)@, out@).sess,
            r.ui@ == m_output(old(self)@, out@).ui,
            r.action@ == m_output(old(self)@, out@).action,
    {
        if out.value == 0 {
            return self.fail(Error::InvalidInput);
        }
        let last = self.output_index + 1 == self.init.num_outputs;
        let mut ui: Vec<UiEffect> = Vec::new();
        if self.output_index == 0 {
            ui.push(UiEffect::CloseProgress);
            ui.push(UiEffect::ShowEmpty);
        }
        self.phase = Phase::OutputPending;
        let r = Reaction { ui: ui, action: Action::CallOutput { output: out, last: last } };
        proof {
            assert(self@ =~= m_output(old(self)@, out@).sess);
            assert(r.ui@ =~= m_output(old(self)@, out@).ui);
        }
        r
    }

    fn tr_output_ok(&mut self) -> (r: Reaction)
        requires
            old(self).wf(),
            old(self)@.phase == Phase::OutputPending,
        ensures
            final(self).wf(),
            final(self)@ == m_output_ok(old(self)@).sess,
            r.ui@ == m_output_ok(old(self)@).ui,
            r.action@ == m_output_ok(old(self)@).action,
    {
        let j = self.output_index;
        if j + 1 < self.init.num_outputs {
            self.phase = Phase::AwaitOutput;
            self.output_index = j + 1;
            let env = self.compose(NextType::Output, j + 1, 0, false);
            let r = Reaction { ui: Vec::new(), action: Action::Exchange(env) };
            proof {
                assert(self@ =~= m_output_ok(old(self)@).sess);
                assert(r.ui@ =~= m_output_ok(old(self)@).ui);
            }
            r
        } else {
            self.phase = Phase::AwaitInput2;
            self.input_index = 0;
            let env = self.compose(NextType::Input, 0, 0, false);
            let mut ui: Vec<UiEffect> = Vec::new();
            ui.push(UiEffect::StatusConfirmed);
            ui.push(UiEffect::CloseEmpty);
            if self.init.num_inputs > 2 {
                ui.push(UiEffect::ShowSigningProgress);
            }
            let r = Reaction { ui: ui, action: Action::Exchange(env) };
            proof {
                assert(self@ =~= m_output_ok(old(self)@).sess);
                assert(r.ui@ =~= m_output_ok(old(self)@).ui);
            }
            r
        }
    }

    fn tr_input2(&mut self, inp: TxInput) -> (r: Reaction)
        requires
            old(self).wf(),
            old(self)@.phase == Phase::AwaitInput2,
        ensures
            final(self).wf(),
            final(self)@ == m_input2(old(self)@, inp@).sess,
            r.ui@ == m_input2(old(self)@, inp@).ui,
            r.action@ == m_input2(old(self)@, inp@).action,
    {
        if inp.sequence < SEQUENCE_FLOOR {
            return self.fail(Error::InvalidInput);
        }
        let last = self.input_index + 1 == self.init.num_inputs;
        self.phase = Phase::Pass2Pending;
        self.antiklepto = inp.host_nonce_commitment.is_some();
        let r = Reaction { ui: Vec::new(), action: Action::CallPass2 { input: inp, last: last } };
        proof {
            assert(self@ =~= m_input2(old(self)@, inp@).sess);
            assert(r.ui@ =~= m_input2(old(self)@, inp@).ui);
        }
        r
    }

    /// A signature is staged on the hint: deliver it with the next
    /// round-trip, or with the final `Done` response after the last input.
    fn advance_pass2(&mut self) -> (r: Reaction)
        requires
            old(self).wf(),
            old(self)@.phase == Phase::Pass2Pending || old(self)@.phase
                == Phase::AntikleptoPending,
        ensures
            final(self).wf(),
            final(self)@ == m_advance_pass2(old(self)@).sess,
            r.ui@ == m_advance_pass2(old(self)@).ui,
            r.action@ == m_advance_pass2(old(self)@).action,
    {
        let i = self.input_index;
        let n = self.init.num_inputs;
        let mut ui: Vec<UiEffect> = Vec::new();
        if n > 2 {
            ui.push(UiEffect::SetProgress { index: i + 1, count: n, pos: 0, total: 1 });
        }
        if i + 1 < n {
            self.phase = Phase::AwaitInput2;
            self.input_index = i + 1;
            let env = self.compose(NextType::Input, i + 1, 0, false);
            let r = Reaction { ui: ui, action: Action::Exchange(env) };
            proof {
                assert(self@ =~= m_advance_pass2(old(self)@).sess);
                assert(r.ui@ =~= m_advance_pass2(old(self)@).ui);
            }
            r
        } else {
            self.phase = Phase::Done;
            if n > 2 {
                ui.push(UiEffect::CloseProgress);
            }
            let mut msg = self.next.duplicate();
            msg.next_type = NextType::Done;
            let env = Envelope { msg: msg, wrap: self.wrap };
            let r = Reaction {
                ui: ui,
                action: Action::Finish { result: Ok(env), cancel_toast: false },
            };
            proof {
                assert(self@ =~= m_advance_pass2(old(self)@).sess);
                assert(r.ui@ =~= m_advance_pass2(old(self)@).ui);
                assert(env@ =~= m_advance_pass2(old(self)@).action->Finish_result->Ok_0);
            }
            r
        }
    }

    fn tr_signed(&mut self, signature: Vec<u8>, signer_commitment: Vec<u8>) -> (r: Reaction)
        requires
            old(self).wf(),
            old(self)@.phase == Phase::Pass2Pending,
        ensures
            final(self).wf(),
            final(self)@ == m_signed(old(self)@, signature@, signer_commitment@).sess,
            r.ui@ == m_signed(old(self)@, signature@, signer_commitment@).ui,
            r.action@ == m_signed(old(self)@, signature@, signer_commitment@).action,
    {
        if self.antiklepto {
            self.next.anti_klepto_signer_commitment = Some(signer_commitment);
            self.phase = Phase::AwaitHostNonce;
            let i = self.input_index;
            let env = self.compose(NextType::HostNonce, i, 0, true);
            let r = Reaction { ui: Vec::new(), action: Action::Exchange(env) };
            proof {
                assert(self@ =~= m_signed(old(self)@, signature@, signer_commitment@).sess);
                assert(r.ui@ =~= m_signed(old(self)@, signature@, signer_commitment@).ui);
            }
            r
        } else {
            self.next.has_signature = true;
            self.next.signature = signature;
            self.advance_pass2()
        }
    }

    fn tr_host_nonce(&mut self, nonce: Vec<u8>) -> (r: Reaction)
        requires
            old(self).wf(),
            old(self)@.phase == Phase::AwaitHostNonce,
        ensures
            final(self).wf(),
            final(self)@ == m_host_nonce(old(self)@, nonce@).sess,
            r.ui@ == m_host_nonce(old(self)@, nonce@).ui,
            r.action@ == m_host_nonce(old(self)@, nonce@).action,
    {
        self.phase = Phase::AntikleptoPending;
        let r = Reaction { ui: Vec::new(), action: Action::CallAntiklepto { host_nonce: nonce } };
        proof {
            assert(self@ =~= m_host_nonce(old(self)@, nonce@).sess);
            assert(r.ui@ =~= m_host_nonce(old(self)@, nonce@).ui);
        }
        r
    }

    fn tr_antiklepto_ok(&mut self, signature: Vec<u8>) -> (r: Reaction)
        requires
            old(self).wf(),
            old(self)@.phase == Phase::AntikleptoPending,
        ensures
            final(self).wf(),
            final(self)@ == m_antiklepto_ok(old(self)@, signature@).sess,
            r.ui@ == m_antiklepto_ok(old(self)@, signature@).ui,
            r.action@ == m_antiklepto_ok(old(self)@, signature@).action,
    {
        self.next.has_signature = true;
        self.next.signature = signature;
        self.advance_pass2()
    }
}

} // verus!
