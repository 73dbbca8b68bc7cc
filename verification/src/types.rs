//! The records exchanged with the host during a signing session.
//!
//! These mirror the wire messages of the protocol, with every field the
//! session logic reads held as a plain value. Each record with variable-size
//! fields has a mathematical view in [`crate::model`].

use vstd::prelude::*;

use crate::model;

verus! {

/// Errors that end a signing session.
#[derive(Clone, Copy, Debug, PartialEq, Eq, Structural)]
pub enum Error {
    /// A record carried data the session rejects.
    InvalidInput,
    /// The keystore was locked at entry, the host answered with the wrong
    /// message variant, or the driver fed an event the session cannot accept.
    InvalidState,
    /// The user declined a confirmation dialog.
    UserAbort,
}

/// The kind of record the signer asks the host for next.
#[derive(Clone, Copy, Debug, PartialEq, Eq, Structural)]
pub enum NextType {
    Input,
    Output,
    PrevtxInit,
    PrevtxInput,
    PrevtxOutput,
    HostNonce,
    Done,
}

/// Transaction-level parameters, received once at session entry.
///
/// The script configurations and keypath rules of the full init message are
/// validated by the native signing backend; the session reads only these
/// scalars.
#[derive(Clone, Copy, Debug, PartialEq, Eq, Structural)]
pub struct InitRequest {
    pub coin: u32,
    pub version: u32,
    pub num_inputs: u32,
    pub num_outputs: u32,
    pub locktime: u32,
}

/// One input of the transaction being signed, streamed once per pass.
#[derive(Debug)]
pub struct TxInput {
    /// Hash of the previous transaction whose output this input spends.
    pub prev_out_hash: Vec<u8>,
    /// Index of the spent output within that previous transaction.
    pub prev_out_index: u32,
    /// Value of the spent output in satoshis.
    pub prev_out_value: u64,
    pub sequence: u32,
    pub keypath: Vec<u32>,
    pub script_config_index: u32,
    /// Present iff the host armed the anti-klepto protocol for this input.
    pub host_nonce_commitment: Option<Vec<u8>>,
}

/// Header of an input's previous transaction.
#[derive(Clone, Copy, Debug, PartialEq, Eq, Structural)]
pub struct PrevTxInit {
    pub version: u32,
    pub num_inputs: u32,
    pub num_outputs: u32,
    pub locktime: u32,
}

/// One input of a previous transaction, fed into the txid hash.
#[derive(Debug)]
pub struct PrevTxInput {
    pub prev_out_hash: Vec<u8>,
    pub prev_out_index: u32,
    pub signature_script: Vec<u8>,
    pub sequence: u32,
}

/// One output of a previous transaction, fed into the txid hash.
#[derive(Debug)]
pub struct PrevTxOutput {
    pub value: u64,
    pub pubkey_script: Vec<u8>,
}

/// One output of the transaction being signed.
#[derive(Debug)]
pub struct TxOutput {
    /// True for a change output derived from the signing wallet's own keys.
    pub ours: bool,
    pub output_type: u32,
    pub value: u64,
    pub payload: Vec<u8>,
    pub keypath: Vec<u32>,
    pub script_config_index: u32,
}

/// A screen update the driver performs before the blocking action of the
/// same step. Progress positions are exact fractions so that the session
/// never touches the display's floating-point arithmetic.
#[derive(Clone, Copy, Debug, PartialEq, Eq, Structural)]
pub enum UiEffect {
    /// Create and push the progress screen for loading the transaction.
    ShowLoadingProgress,
    /// Set the current progress bar to `(index + pos / total) / count` of
    /// full: record `index` of `count`, at sub-position `pos` of `total`.
    SetProgress { index: u32, count: u32, pos: u64, total: u64 },
    /// Drop the progress screen.
    CloseProgress,
    /// Create and push the placeholder screen shown while signing.
    ShowEmpty,
    /// Drop the placeholder screen.
    CloseEmpty,
    /// Show the brief "transaction confirmed" status.
    StatusConfirmed,
    /// Create and push the progress screen for signing the inputs.
    ShowSigningProgress,
}

/// The hint sent to the host before every round-trip: which record the signer
/// wants next, plus transient results (a fresh signature, an anti-klepto
/// signer commitment) that are delivered at most once.
#[derive(Debug)]
pub struct SignNext {
    pub next_type: NextType,
    pub index: u32,
    pub prev_index: u32,
    pub has_signature: bool,
    pub signature: Vec<u8>,
    pub anti_klepto_signer_commitment: Option<Vec<u8>>,
}

impl View for TxInput {
    type V = model::TxInputView;

    open spec fn view(&self) -> model::TxInputView {
        model::TxInputView {
            prev_out_hash: self.prev_out_hash@,
            prev_out_index: self.prev_out_index,
            prev_out_value: self.prev_out_value,
            sequence: self.sequence,
            keypath: self.keypath@,
            script_config_index: self.script_config_index,
            host_nonce_commitment: match self.host_nonce_commitment {
                Some(c) => Some(c@),
                None => None,
            },
        }
    }
}

impl View for PrevTxInput {
    type V = model::PrevTxInputView;

    open spec fn view(&self) -> model::PrevTxInputView {
        model::PrevTxInputView {
            prev_out_hash: self.prev_out_hash@,
            prev_out_index: self.prev_out_index,
            signature_script: self.signature_script@,
            sequence: self.sequence,
        }
    }
}

impl View for PrevTxOutput {
    type V = model::PrevTxOutputView;

    open spec fn view(&self) -> model::PrevTxOutputView {
        model::PrevTxOutputView { value: self.value, pubkey_script: self.pubkey_script@ }
    }
}

impl View for TxOutput {
    type V = model::TxOutputView;

    open spec fn view(&self) -> model::TxOutputView {
        model::TxOutputView {
            ours: self.ours,
            output_type: self.output_type,
            value: self.value,
            payload: self.payload@,
            keypath: self.keypath@,
            script_config_index: self.script_config_index,
        }
    }
}

impl View for SignNext {
    type V = model::SignNextView;

    open spec fn view(&self) -> model::SignNextView {
        model::SignNextView {
            next_type: self.next_type,
            index: self.index,
            prev_index: self.prev_index,
            has_signature: self.has_signature,
            signature: self.signature@,
            anti_klepto_signer_commitment: match self.anti_klepto_signer_commitment {
                Some(c) => Some(c@),
                None => None,
            },
        }
    }
}

/// Compares two byte vectors for equality of their contents.
pub(crate) fn bytes_equal(a: &Vec<u8>, b: &Vec<u8>) -> (r: bool)
    ensures
        r == (a@ == b@),
{
    if a.len() != b.len() {
        return false;
    }
    let mut i: usize = 0;
    while i < a.len()
        invariant
            i <= a.len(),
            a.len() == b.len(),
            forall|j: int| 0 <= j < i ==> a@[j] == b@[j],
        decreases a.len() - i,
    {
        if a[i] != b[i] {
            return false;
        }
        i += 1;
    }
    proof {
        assert(a@ =~= b@);
    }
    true
}

/// Copies a byte vector; the copy has the same contents.
fn clone_bytes(v: &Vec<u8>) -> (r: Vec<u8>)
    ensures
        r@ == v@,
{
    let r = v.clone();
    proof {
        assert(r@ =~= v@);
    }
    r
}

/// Copies a derivation path; the copy has the same contents.
fn clone_keypath(v: &Vec<u32>) -> (r: Vec<u32>)
    ensures
        r@ == v@,
{
    let r = v.clone();
    proof {
        assert(r@ =~= v@);
    }
    r
}

impl TxInput {
    /// Copies the record; the copy has the same view.
    pub fn duplicate(&self) -> (r: Self)
        ensures
            r@ == self@,
    {
        TxInput {
            prev_out_hash: clone_bytes(&self.prev_out_hash),
            prev_out_index: self.prev_out_index,
            prev_out_value: self.prev_out_value,
            sequence: self.sequence,
            keypath: clone_keypath(&self.keypath),
            script_config_index: self.script_config_index,
            host_nonce_commitment: match &self.host_nonce_commitment {
                Some(c) => Some(clone_bytes(c)),
                None => None,
            },
        }
    }
}

impl SignNext {
    /// The hint with every field at its default, as it stands right after a
    /// host round-trip: transient results are delivered at most once.
    pub fn cleared() -> (r: Self)
        ensures
            r@ == model::SignNextView::cleared(),
    {
        SignNext {
            next_type: NextType::Input,
            index: 0,
            prev_index: 0,
            has_signature: false,
            signature: Vec::new(),
            anti_klepto_signer_commitment: None,
        }
    }

    /// Copies the hint; the copy has the same view.
    pub fn duplicate(&self) -> (r: Self)
        ensures
            r@ == self@,
    {
        SignNext {
            next_type: self.next_type,
            index: self.index,
            prev_index: self.prev_index,
            has_signature: self.has_signature,
            signature: clone_bytes(&self.signature),
            anti_klepto_signer_commitment: match &self.anti_klepto_signer_commitment {
                Some(c) => Some(clone_bytes(c)),
                None => None,
            },
        }
    }
}

} // verus!
