//! Mathematical views of the protocol records and of the session state.
//!
//! Contracts and proofs speak about these types; each executable record in
//! [`crate::types`] and the session state in [`crate::session`] views to one
//! of them.

use vstd::prelude::*;

use crate::types::{Error, InitRequest, NextType, PrevTxInit, UiEffect};

verus! {

#[verifier::ext_equal]
pub struct TxInputView {
    pub prev_out_hash: Seq<u8>,
    pub prev_out_index: u32,
    pub prev_out_value: u64,
    pub sequence: u32,
    pub keypath: Seq<u32>,
    pub script_config_index: u32,
    pub host_nonce_commitment: Option<Seq<u8>>,
}

#[verifier::ext_equal]
pub struct PrevTxInputView {
    pub prev_out_hash: Seq<u8>,
    pub prev_out_index: u32,
    pub signature_script: Seq<u8>,
    pub sequence: u32,
}

#[verifier::ext_equal]
pub struct PrevTxOutputView {
    pub value: u64,
    pub pubkey_script: Seq<u8>,
}

#[verifier::ext_equal]
pub struct TxOutputView {
    pub ours: bool,
    pub output_type: u32,
    pub value: u64,
    pub payload: Seq<u8>,
    pub keypath: Seq<u32>,
    pub script_config_index: u32,
}

#[verifier::ext_equal]
pub struct SignNextView {
    pub next_type: NextType,
    pub index: u32,
    pub prev_index: u32,
    pub has_signature: bool,
    pub signature: Seq<u8>,
    pub anti_klepto_signer_commitment: Option<Seq<u8>>,
}

impl SignNextView {
    /// The hint with every field at its default. Transient fields are put
    /// back to these values right after every host round-trip.
    pub open spec fn cleared() -> SignNextView {
        SignNextView {
            next_type: NextType::Input,
            index: 0,
            prev_index: 0,
            has_signature: false,
            signature: Seq::empty(),
            anti_klepto_signer_commitment: None,
        }
    }

    /// True when the transient result fields carry nothing.
    pub open spec fn transients_cleared(self) -> bool {
        &&& !self.has_signature
        &&& self.signature == Seq::<u8>::empty()
        &&& self.anti_klepto_signer_commitment is None
    }
}

/// A message from the host, demultiplexed into its variant.
#[verifier::ext_equal]
pub enum HostRequestView {
    Input(TxInputView),
    Output(TxOutputView),
    PrevtxInit(PrevTxInit),
    PrevtxInput(PrevTxInputView),
    PrevtxOutput(PrevTxOutputView),
    /// The host's full anti-klepto nonce.
    AntikleptoSignature(Seq<u8>),
}

/// What the driver feeds into the session: either a host message or the
/// outcome of the native call the session asked for.
#[verifier::ext_equal]
pub enum EventView {
    /// Starts the session; carries whether the keystore is locked.
    Begin { keystore_locked: bool },
    /// The host answered the last hint with this message.
    Host(HostRequestView),
    /// The native call (init, first-pass input, output) succeeded.
    NativeOk,
    /// The native call failed, or a confirmation dialog was declined.
    NativeErr(Error),
    /// The second-pass signing call returned a signature and the anti-klepto
    /// signer commitment.
    SignedInput { signature: Seq<u8>, signer_commitment: Seq<u8> },
    /// The anti-klepto finishing call returned the final signature.
    AntikleptoSigned { signature: Seq<u8> },
}

/// A hint together with the envelope shape it is sent in.
#[verifier::ext_equal]
pub struct EnvelopeView {
    pub msg: SignNextView,
    /// True: nested in the wrapping response envelope; false: sent bare.
    pub wrap: bool,
}

/// The one blocking piece of work the driver performs after a step.
#[verifier::ext_equal]
pub enum ActionView {
    /// Send the hint to the host and feed back the host's answer.
    Exchange(EnvelopeView),
    /// Call the native init validator on the full init message.
    CallSignInit,
    /// Feed an input into the native first-pass accumulator.
    CallPass1 { input: TxInputView, last: bool },
    /// Hand an output to the native handler, which drives the user dialogs.
    CallOutput { output: TxOutputView, last: bool },
    /// Ask the native side to sign an input (second pass).
    CallPass2 { input: TxInputView, last: bool },
    /// Finish the anti-klepto exchange with the host's nonce.
    CallAntiklepto { host_nonce: Seq<u8> },
    /// The session is over: release native signing state exactly once, show
    /// the cancel notice iff the user aborted, and deliver the result.
    Finish { result: Result<EnvelopeView, Error>, cancel_toast: bool },
}

/// Where the session stands between two events.
#[derive(Clone, Copy, Debug, PartialEq, Eq, Structural)]
pub enum Phase {
    /// Fresh session; expects `Begin`.
    Ready,
    /// The native init validator is running.
    InitPending,
    /// First pass: an input record was requested from the host.
    AwaitInput1,
    /// First pass: the native accumulator is digesting the input.
    Pass1Pending,
    /// The previous transaction's header was requested.
    AwaitPrevtxInit,
    /// A previous-transaction input record was requested.
    AwaitPrevtxInput,
    /// A previous-transaction output record was requested.
    AwaitPrevtxOutput,
    /// An output record was requested from the host.
    AwaitOutput,
    /// The native output handler (and its user dialogs) is running.
    OutputPending,
    /// Second pass: an input record was requested from the host.
    AwaitInput2,
    /// Second pass: the native signer is producing the signature.
    Pass2Pending,
    /// The host's anti-klepto nonce was requested.
    AwaitHostNonce,
    /// The native anti-klepto finisher is running.
    AntikleptoPending,
    /// Terminal: the session delivered its final response.
    Done,
    /// Terminal: the session failed.
    Failed,
}

/// The session state, as the contracts see it.
#[verifier::ext_equal]
pub struct SessionView {
    pub init: InitRequest,
    pub phase: Phase,
    /// First pass / second pass: index of the input being handled.
    pub input_index: u32,
    /// Index of the output being handled.
    pub output_index: u32,
    /// Index of the previous-transaction record being streamed.
    pub prevtx_index: u32,
    /// The input whose previous transaction is being verified.
    pub cur_input: Option<TxInputView>,
    /// Header of the previous transaction being streamed.
    pub prevtx: Option<PrevTxInit>,
    /// Second pass: whether the current input armed anti-klepto.
    pub antiklepto: bool,
    /// Bytes fed so far into the previous transaction's txid hash.
    pub fed: Seq<u8>,
    /// The hint under construction for the next host round-trip.
    pub next: SignNextView,
    /// Envelope shape of the next hint.
    pub wrap: bool,
}

impl SessionView {
    /// True when no further event is accepted.
    pub open spec fn terminal(self) -> bool {
        self.phase == Phase::Done || self.phase == Phase::Failed
    }
}

/// State and outputs of one transition: the new session state, the screen
/// updates, and the blocking action the driver performs next.
#[verifier::ext_equal]
pub struct StepView {
    pub sess: SessionView,
    pub ui: Seq<UiEffect>,
    pub action: ActionView,
}

} // verus!
