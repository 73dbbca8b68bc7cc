//! End-to-end tests of the signing session, driven by a simulated host and
//! a simulated native signing backend.

use btc_signtx::encode::serialize_varint;
use btc_signtx::session::{Action, Envelope, Event, HostRequest, Session};
use btc_signtx::types::{
    Error, InitRequest, NextType, PrevTxInit, PrevTxInput, PrevTxOutput, TxInput, TxOutput,
    UiEffect,
};

use sha2::{Digest, Sha256};

const HARDENED: u32 = 0x80000000;

const COIN_BTC: u32 = 0;
const COIN_LTC: u32 = 2;

fn bip44_coin(coin: u32) -> u32 {
    match coin {
        COIN_BTC => HARDENED,
        COIN_LTC => 2 + HARDENED,
        _ => panic!("unexpected coin"),
    }
}

struct TxInputFixture {
    input: TxInput,
    prevtx_version: u32,
    prevtx_inputs: Vec<PrevTxInput>,
    prevtx_outputs: Vec<PrevTxOutput>,
    prevtx_locktime: u32,
}

struct Transaction {
    coin: u32,
    /// How many dialogs the user has to confirm in the test transaction.
    total_confirmations: u32,
    version: u32,
    inputs: Vec<TxInputFixture>,
    outputs: Vec<TxOutput>,
    locktime: u32,
}

fn copy_input(x: &TxInput) -> TxInput {
    TxInput {
        prev_out_hash: x.prev_out_hash.clone(),
        prev_out_index: x.prev_out_index,
        prev_out_value: x.prev_out_value,
        sequence: x.sequence,
        keypath: x.keypath.clone(),
        script_config_index: x.script_config_index,
        host_nonce_commitment: x.host_nonce_commitment.clone(),
    }
}

fn copy_output(x: &TxOutput) -> TxOutput {
    TxOutput {
        ours: x.ours,
        output_type: x.output_type,
        value: x.value,
        payload: x.payload.clone(),
        keypath: x.keypath.clone(),
        script_config_index: x.script_config_index,
    }
}

fn copy_prevtx_input(x: &PrevTxInput) -> PrevTxInput {
    PrevTxInput {
        prev_out_hash: x.prev_out_hash.clone(),
        prev_out_index: x.prev_out_index,
        signature_script: x.signature_script.clone(),
        sequence: x.sequence,
    }
}

fn copy_prevtx_output(x: &PrevTxOutput) -> PrevTxOutput {
    PrevTxOutput { value: x.value, pubkey_script: x.pubkey_script.clone() }
}

fn copy_fixture(f: &TxInputFixture) -> TxInputFixture {
    TxInputFixture {
        input: copy_input(&f.input),
        prevtx_version: f.prevtx_version,
        prevtx_inputs: f.prevtx_inputs.iter().map(copy_prevtx_input).collect(),
        prevtx_outputs: f.prevtx_outputs.iter().map(copy_prevtx_output).collect(),
        prevtx_locktime: f.prevtx_locktime,
    }
}

/// Net screens left on the stack by a trace of effects: pushes minus drops.
fn screen_balance(effects: &[UiEffect]) -> i32 {
    let mut balance = 0i32;
    for effect in effects {
        match effect {
            UiEffect::ShowLoadingProgress | UiEffect::ShowEmpty
            | UiEffect::ShowSigningProgress => balance += 1,
            UiEffect::CloseProgress | UiEffect::CloseEmpty => balance -= 1,
            _ => {}
        }
    }
    balance
}

impl Transaction {
    /// An arbitrary test transaction with some inputs and outputs.
    fn new(coin: u32) -> Self {
        let bip44 = bip44_coin(coin);
        Transaction {
            coin,
            total_confirmations: 6,
            version: 1,
            inputs: vec![
                TxInputFixture {
                    input: TxInput {
                        prev_out_hash: vec![
                            0x45, 0x17, 0x74, 0x50, 0x1b, 0xaf, 0xdf, 0xf7, 0x46, 0x09, 0x0e,
                            0x06, 0x16, 0xd9, 0x5e, 0xd0, 0x80, 0xd7, 0x82, 0x9a, 0xfe, 0xa2,
                            0xbd, 0x97, 0x8a, 0xf8, 0x11, 0xf4, 0x5e, 0x43, 0x81, 0x39,
                        ],
                        prev_out_index: 1,
                        prev_out_value: 1010000000,
                        sequence: 0xffffffff,
                        keypath: vec![84 + HARDENED, bip44, 10 + HARDENED, 0, 5],
                        script_config_index: 0,
                        host_nonce_commitment: None,
                    },
                    prevtx_version: 1,
                    prevtx_inputs: vec![
                        PrevTxInput {
                            prev_out_hash: vec![0x74; 32],
                            prev_out_index: 3,
                            signature_script: b"signature script".to_vec(),
                            sequence: 0xffffffff - 2,
                        },
                        PrevTxInput {
                            prev_out_hash: vec![0x75; 32],
                            prev_out_index: 23,
                            signature_script: b"signature script 2".to_vec(),
                            sequence: 123456,
                        },
                    ],
                    prevtx_outputs: vec![
                        PrevTxOutput {
                            value: 101000000, // btc 1.01
                            pubkey_script: b"pubkey script".to_vec(),
                        },
                        PrevTxOutput {
                            value: 1010000000, // btc 10.1
                            pubkey_script: b"pubkey script 2".to_vec(),
                        },
                    ],
                    prevtx_locktime: 0,
                },
                TxInputFixture {
                    input: TxInput {
                        prev_out_hash: vec![
                            0x40, 0x9b, 0x4f, 0x56, 0xca, 0x9f, 0x06, 0xcb, 0x88, 0x28, 0x03,
                            0xad, 0x55, 0x4b, 0xeb, 0x1d, 0x9e, 0xf8, 0x78, 0x07, 0xf0, 0x52,
                            0x29, 0xe7, 0x55, 0x15, 0xe4, 0xb2, 0xaa, 0x87, 0x69, 0x1d,
                        ],
                        prev_out_index: 0,
                        // btc 10.2, matches the previous transaction's output 0.
                        prev_out_value: 1020000000,
                        sequence: 0xffffffff,
                        keypath: vec![84 + HARDENED, bip44, 10 + HARDENED, 0, 7],
                        script_config_index: 0,
                        host_nonce_commitment: None,
                    },
                    prevtx_version: 2,
                    prevtx_inputs: vec![PrevTxInput {
                        prev_out_hash: vec![0x74; 32],
                        prev_out_index: 3,
                        signature_script: b"signature script".to_vec(),
                        sequence: 0xffffffff - 2,
                    }],
                    prevtx_outputs: vec![PrevTxOutput {
                        value: 1020000000, // btc 10.2
                        pubkey_script: b"pubkey script".to_vec(),
                    }],
                    prevtx_locktime: 87654,
                },
            ],
            outputs: vec![
                TxOutput {
                    ours: false,
                    output_type: 1, // P2PKH
                    value: 100000000, // btc 1
                    payload: vec![0x11; 20],
                    keypath: vec![],
                    script_config_index: 0,
                },
                TxOutput {
                    ours: false,
                    output_type: 2, // P2SH
                    value: 1234567890, // btc 12.3456789
                    payload: vec![0x22; 20],
                    keypath: vec![],
                    script_config_index: 0,
                },
                TxOutput {
                    ours: false,
                    output_type: 3, // P2WPKH
                    value: 6000, // btc .00006
                    payload: vec![0x33; 20],
                    keypath: vec![],
                    script_config_index: 0,
                },
                TxOutput {
                    ours: false,
                    output_type: 4, // P2WSH
                    value: 7000, // btc .00007
                    payload: vec![0x44; 32],
                    keypath: vec![],
                    script_config_index: 0,
                },
                TxOutput {
                    // change
                    ours: true,
                    output_type: 0,
                    value: 690000000, // btc 6.9
                    payload: vec![],
                    keypath: vec![84 + HARDENED, bip44, 10 + HARDENED, 1, 3],
                    script_config_index: 0,
                },
                TxOutput {
                    // change #2
                    ours: true,
                    output_type: 0,
                    value: 100,
                    payload: vec![],
                    keypath: vec![84 + HARDENED, bip44, 10 + HARDENED, 1, 30],
                    script_config_index: 0,
                },
            ],
            locktime: 0,
        }
    }

    fn init_request(&self) -> InitRequest {
        InitRequest {
            coin: self.coin,
            version: self.version,
            num_inputs: self.inputs.len() as u32,
            num_outputs: self.outputs.len() as u32,
            locktime: self.locktime,
        }
    }

    /// Returns the transaction part requested by the device.
    fn make_host_request(&self, env: &Envelope) -> HostRequest {
        let next = &env.msg;
        match next.next_type {
            NextType::Input => {
                HostRequest::Input(copy_input(&self.inputs[next.index as usize].input))
            }
            NextType::Output => {
                HostRequest::Output(copy_output(&self.outputs[next.index as usize]))
            }
            NextType::PrevtxInit => {
                let fixture = &self.inputs[next.index as usize];
                HostRequest::PrevtxInit(PrevTxInit {
                    version: fixture.prevtx_version,
                    num_inputs: fixture.prevtx_inputs.len() as u32,
                    num_outputs: fixture.prevtx_outputs.len() as u32,
                    locktime: fixture.prevtx_locktime,
                })
            }
            NextType::PrevtxInput => HostRequest::PrevtxInput(copy_prevtx_input(
                &self.inputs[next.index as usize].prevtx_inputs[next.prev_index as usize],
            )),
            NextType::PrevtxOutput => HostRequest::PrevtxOutput(copy_prevtx_output(
                &self.inputs[next.index as usize].prevtx_outputs[next.prev_index as usize],
            )),
            NextType::HostNonce => HostRequest::AntikleptoSignature(vec![0x77; 32]),
            NextType::Done => panic!("unexpected next response"),
        }
    }
}

/// One hint sent to the host, as the harness saw it.
struct ExchangeRecord {
    next_type: NextType,
    index: u32,
    has_signature: bool,
    signature: Vec<u8>,
    commitment: Option<Vec<u8>>,
    wrap: bool,
}

/// The simulated native backend and user, plus everything recorded while
/// driving a session.
struct Mock {
    keystore_locked: bool,
    /// Whether the native init validator accepts the full init message
    /// (coin, script configurations, account consistency).
    init_ok: bool,
    /// Native first-pass validation fails at this input index (keypath or
    /// script-config problems the native side checks).
    pass1_fail_at: Option<u32>,
    /// Native output validation fails at this output index.
    output_fail_at: Option<u32>,
    /// The user declines this confirmation (1-based); 0 declines none.
    ui_abort_at: u32,
    /// The expected locktime/RBF dialog body and the user's answer.
    locktime_confirm: Option<(String, bool)>,
    /// What the native signer returns per input in the second pass.
    signatures: Vec<Vec<u8>>,
    commitments: Vec<Vec<u8>>,
    ak_signatures: Vec<Vec<u8>>,
    /// The host answers every request with the first input's record.
    always_first_input: bool,
    /// The host answers this exchange (1-based) with a wrong-variant
    /// message.
    wrong_variant_after: Option<u32>,

    ui_counter: u32,
    locktime_confirmed: bool,
    rbf: bool,
    pass1_calls: u32,
    output_calls: u32,
    pass2_calls: u32,
    antiklepto_calls: u32,
    reset_calls: u32,
    cancel_toasts: u32,
    exchanges: Vec<ExchangeRecord>,
    delivered: Vec<Vec<u8>>,
    ui_effects: Vec<UiEffect>,
}

impl Mock {
    fn new() -> Self {
        Mock {
            keystore_locked: false,
            init_ok: true,
            pass1_fail_at: None,
            output_fail_at: None,
            ui_abort_at: 0,
            locktime_confirm: None,
            signatures: vec![vec![0xaa; 64], vec![0xbb; 64]],
            commitments: vec![vec![0x01; 33], vec![0x02; 33]],
            ak_signatures: vec![vec![0xcc; 64], vec![0xdd; 64]],
            always_first_input: false,
            wrong_variant_after: None,
            ui_counter: 0,
            locktime_confirmed: false,
            rbf: false,
            pass1_calls: 0,
            output_calls: 0,
            pass2_calls: 0,
            antiklepto_calls: 0,
            reset_calls: 0,
            cancel_toasts: 0,
            exchanges: Vec::new(),
            delivered: Vec::new(),
            ui_effects: Vec::new(),
        }
    }

    fn confirm(&mut self) -> bool {
        self.ui_counter += 1;
        self.ui_counter != self.ui_abort_at
    }

    /// What the native output handler does: it renders the recipient,
    /// change-warning, total and locktime dialogs and reports a decline as
    /// a user abort.
    fn sign_output(&mut self, tx: &Transaction, output: &TxOutput, last: bool) -> Result<
        (),
        Error,
    > {
        if let Some(j) = self.output_fail_at {
            if self.output_calls == j + 1 {
                return Err(Error::InvalidInput);
            }
        }
        if !output.ours {
            if !self.confirm() {
                return Err(Error::UserAbort);
            }
        }
        if last {
            let change_count = tx.outputs.iter().filter(|o| o.ours).count();
            if change_count > 1 {
                if !self.confirm() {
                    return Err(Error::UserAbort);
                }
            }
            if !self.confirm() {
                return Err(Error::UserAbort);
            }
            if tx.locktime > 0 {
                let body = format!(
                    "Locktime on block:\n{}\n{}",
                    tx.locktime,
                    if tx.coin == COIN_BTC {
                        if self.rbf {
                            "Transaction is RBF"
                        } else {
                            "Transaction is not RBF"
                        }
                    } else {
                        ""
                    }
                );
                match &self.locktime_confirm {
                    Some((expected, answer)) => {
                        assert_eq!(&body, expected);
                        self.locktime_confirmed = true;
                        if !answer {
                            return Err(Error::UserAbort);
                        }
                    }
                    None => panic!("Unexpected RBF confirmation"),
                }
            }
        }
        Ok(())
    }
}

/// Drives a whole session: performs every action the session asks for
/// against the simulated host and native backend, and returns the final
/// result.
fn drive(tx: &Transaction, mock: &mut Mock) -> Result<Envelope, Error> {
    let mut session = Session::new(tx.init_request());
    let mut event = Event::Begin { keystore_locked: mock.keystore_locked };
    loop {
        let reaction = session.step(event);
        for effect in &reaction.ui {
            mock.ui_effects.push(*effect);
        }
        event = match reaction.action {
            Action::Exchange(env) => {
                mock.exchanges.push(ExchangeRecord {
                    next_type: env.msg.next_type,
                    index: env.msg.index,
                    has_signature: env.msg.has_signature,
                    signature: env.msg.signature.clone(),
                    commitment: env.msg.anti_klepto_signer_commitment.clone(),
                    wrap: env.wrap,
                });
                if env.msg.has_signature {
                    mock.delivered.push(env.msg.signature.clone());
                }
                if mock.wrong_variant_after == Some(mock.exchanges.len() as u32) {
                    Event::Host(HostRequest::PrevtxInit(PrevTxInit {
                        version: 0,
                        num_inputs: 0,
                        num_outputs: 0,
                        locktime: 0,
                    }))
                } else if mock.always_first_input {
                    Event::Host(HostRequest::Input(copy_input(&tx.inputs[0].input)))
                } else {
                    Event::Host(tx.make_host_request(&env))
                }
            }
            Action::CallSignInit => {
                if mock.init_ok {
                    Event::NativeOk
                } else {
                    Event::NativeErr(Error::InvalidInput)
                }
            }
            Action::CallPass1 { input, last: _ } => {
                let index = mock.pass1_calls;
                mock.pass1_calls += 1;
                if input.sequence < 0xffffffff - 1 {
                    mock.rbf = true;
                }
                if mock.pass1_fail_at == Some(index) {
                    Event::NativeErr(Error::InvalidInput)
                } else {
                    Event::NativeOk
                }
            }
            Action::CallOutput { output, last } => {
                mock.output_calls += 1;
                match mock.sign_output(tx, &output, last) {
                    Ok(()) => Event::NativeOk,
                    Err(e) => Event::NativeErr(e),
                }
            }
            Action::CallPass2 { input: _, last: _ } => {
                let index = mock.pass2_calls as usize;
                mock.pass2_calls += 1;
                Event::SignedInput {
                    signature: mock.signatures[index].clone(),
                    signer_commitment: mock.commitments[index].clone(),
                }
            }
            Action::CallAntiklepto { host_nonce } => {
                assert_eq!(host_nonce, vec![0x77; 32]);
                let index = mock.antiklepto_calls as usize;
                mock.antiklepto_calls += 1;
                Event::AntikleptoSigned { signature: mock.ak_signatures[index].clone() }
            }
            Action::Finish { result, cancel_toast } => {
                // The driver releases the native signing state here, on
                // every exit path.
                mock.reset_calls += 1;
                if cancel_toast {
                    mock.cancel_toasts += 1;
                }
                if let Ok(env) = &result {
                    if env.msg.has_signature {
                        mock.delivered.push(env.msg.signature.clone());
                    }
                }
                return result;
            }
        };
    }
}

#[test]
pub fn test_sign_init_fail() {
    let init_req_valid = InitRequest {
        coin: COIN_BTC,
        version: 1,
        num_inputs: 1,
        num_outputs: 1,
        locktime: 0,
    };
    let tx = Transaction::new(COIN_BTC);

    {
        // test keystore locked
        let mut session = Session::new(init_req_valid);
        let reaction = session.step(Event::Begin { keystore_locked: true });
        match reaction.action {
            Action::Finish { result, cancel_toast } => {
                assert_eq!(result.err(), Some(Error::InvalidState));
                assert!(!cancel_toast);
            }
            _ => panic!("wrong result"),
        }
    }
    {
        // test invalid version
        for version in 3..10 {
            let mut init_req_invalid = init_req_valid;
            init_req_invalid.version = version;
            let mut session = Session::new(init_req_invalid);
            let reaction = session.step(Event::Begin { keystore_locked: false });
            match reaction.action {
                Action::Finish { result, .. } => {
                    assert_eq!(result.err(), Some(Error::InvalidInput))
                }
                _ => panic!("wrong result"),
            }
        }
    }
    {
        // test invalid locktime
        let mut init_req_invalid = init_req_valid;
        init_req_invalid.locktime = 500000000;
        let mut session = Session::new(init_req_invalid);
        let reaction = session.step(Event::Begin { keystore_locked: false });
        match reaction.action {
            Action::Finish { result, .. } => {
                assert_eq!(result.err(), Some(Error::InvalidInput))
            }
            _ => panic!("wrong result"),
        }
    }
    {
        // test invalid inputs
        let mut init_req_invalid = init_req_valid;
        init_req_invalid.num_inputs = 0;
        let mut session = Session::new(init_req_invalid);
        let reaction = session.step(Event::Begin { keystore_locked: false });
        match reaction.action {
            Action::Finish { result, .. } => {
                assert_eq!(result.err(), Some(Error::InvalidInput))
            }
            _ => panic!("wrong result"),
        }
    }
    {
        // test invalid outputs
        let mut init_req_invalid = init_req_valid;
        init_req_invalid.num_outputs = 0;
        let mut session = Session::new(init_req_invalid);
        let reaction = session.step(Event::Begin { keystore_locked: false });
        match reaction.action {
            Action::Finish { result, .. } => {
                assert_eq!(result.err(), Some(Error::InvalidInput))
            }
            _ => panic!("wrong result"),
        }
    }
    {
        // test invalid coin: the native init validator rejects it
        let mut mock = Mock::new();
        mock.init_ok = false;
        assert_eq!(drive(&tx, &mut mock).err(), Some(Error::InvalidInput));
        assert_eq!(mock.reset_calls, 1);
    }
    {
        // test invalid account keypath: rejected natively
        let mut mock = Mock::new();
        mock.init_ok = false;
        assert_eq!(drive(&tx, &mut mock).err(), Some(Error::InvalidInput));
    }
    {
        // no script configs is invalid: rejected natively
        let mut mock = Mock::new();
        mock.init_ok = false;
        assert_eq!(drive(&tx, &mut mock).err(), Some(Error::InvalidInput));
    }
    {
        // can't mix script configs from different bip44 accounts: rejected
        // natively
        let mut mock = Mock::new();
        mock.init_ok = false;
        assert_eq!(drive(&tx, &mut mock).err(), Some(Error::InvalidInput));
    }
    {
        // can't mix single-signature and multisig configs: rejected natively
        let mut mock = Mock::new();
        mock.init_ok = false;
        assert_eq!(drive(&tx, &mut mock).err(), Some(Error::InvalidInput));
    }
}

#[test]
pub fn test_process() {
    for coin in [COIN_BTC, COIN_LTC] {
        let tx = Transaction::new(coin);
        let mut mock = Mock::new();
        mock.signatures[1] = vec![
            0x2e, 0x08, 0x4a, 0x0a, 0x5f, 0x9b, 0xab, 0xb3, 0x5d, 0xf6, 0xec, 0x3a, 0x89,
            0x72, 0x0b, 0xcf, 0xc0, 0x88, 0xd4, 0xba, 0x6a, 0xee, 0x47, 0x97, 0x3c, 0x55,
            0xfe, 0xc3, 0xb3, 0xdd, 0xaa, 0x60, 0x07, 0xc7, 0xb1, 0x1c, 0x8b, 0x5a, 0x1a,
            0x68, 0x20, 0xca, 0x74, 0xa8, 0x5a, 0xeb, 0x4c, 0xf5, 0x45, 0xc1, 0xb3, 0x37,
            0x53, 0x70, 0xf4, 0x4f, 0x24, 0xd5, 0x3d, 0x61, 0xfe, 0x67, 0x6e, 0x4c,
        ];
        let expected = mock.signatures[1].clone();
        let result = drive(&tx, &mut mock);
        match result {
            Ok(env) => {
                // the final response is sent bare, carrying the last
                // signature and the end-of-session marker
                assert!(!env.wrap);
                assert!(matches!(env.msg.next_type, NextType::Done));
                assert!(env.msg.has_signature);
                if coin == COIN_BTC {
                    assert_eq!(env.msg.signature, expected);
                }
            }
            _ => panic!("wrong result"),
        }
        // the user confirmed four recipients, the change warning and the
        // total — nothing else
        assert_eq!(mock.ui_counter, tx.total_confirmations);
        // exactly one signature per input left the device
        assert_eq!(mock.delivered.len(), tx.inputs.len());
        assert_eq!(mock.delivered[0], mock.signatures[0]);
        assert_eq!(mock.delivered[1], mock.signatures[1]);
        // the native signing state was released exactly once
        assert_eq!(mock.reset_calls, 1);
        assert_eq!(mock.cancel_toasts, 0);
        // every screen pushed was dropped again
        assert_eq!(screen_balance(&mock.ui_effects), 0);
    }
}

/// An unexpected message from the host results in an invalid-state error.
#[test]
pub fn test_invalid_state() {
    let tx = Transaction::new(COIN_BTC);
    let mut mock = Mock::new();
    mock.always_first_input = true;
    let result = drive(&tx, &mut mock);
    assert_eq!(result.err(), Some(Error::InvalidState));
    // the first input is only expected once; the second request wanted the
    // previous transaction and got an input instead
    assert_eq!(mock.exchanges.len(), 2);
    assert_eq!(mock.reset_calls, 1);
    // the loading screen opened for the first pass was dropped on failure
    assert_eq!(screen_balance(&mock.ui_effects), 0);
}

/// Signing works when all inputs are of the wrapped-segwit script type.
#[test]
pub fn test_script_type_p2wpkh_p2sh() {
    let mut tx = Transaction::new(COIN_BTC);
    for fixture in tx.inputs.iter_mut() {
        fixture.input.keypath[0] = 49 + HARDENED;
    }
    for output in tx.outputs.iter_mut() {
        if output.ours {
            output.keypath[0] = 49 + HARDENED;
        }
    }
    let mut mock = Mock::new();
    mock.signatures[1] = vec![
        0x3a, 0x46, 0x18, 0xf6, 0x16, 0x3c, 0x1d, 0x55, 0x3b, 0xeb, 0xc2, 0xc6, 0xac, 0x08,
        0x86, 0x6d, 0x9f, 0x02, 0x7c, 0xa6, 0x63, 0xee, 0xa7, 0x43, 0x65, 0x8b, 0xb0, 0x58,
        0x1c, 0x42, 0x33, 0xa4, 0x32, 0x98, 0x4c, 0xca, 0xeb, 0x52, 0x04, 0x4f, 0x70, 0x47,
        0x47, 0x94, 0xc5, 0x54, 0x46, 0xa5, 0xd8, 0x23, 0xe1, 0xfb, 0x96, 0x9a, 0x39, 0x13,
        0x2f, 0x7d, 0xa2, 0x30, 0xd2, 0xdd, 0x33, 0x75,
    ];
    let expected = mock.signatures[1].clone();
    match drive(&tx, &mut mock) {
        Ok(env) => {
            assert!(env.msg.has_signature);
            assert_eq!(env.msg.signature, expected);
        }
        _ => panic!("wrong result"),
    }
}

/// Invalid input cases.
#[test]
pub fn test_invalid_input() {
    // Mirrors the cases the native validator and the session reject. The
    // keypath, account and script-config checks live in the native
    // validator, which the mock stands in for; the sequence, value, hash
    // and emptiness checks are the session's own.
    for case in 0..14 {
        let mut tx = Transaction::new(COIN_BTC);
        let mut mock = Mock::new();
        match case {
            0 => {
                // all inputs should be the same coin type
                tx.inputs[0].input.keypath[1] = 1 + HARDENED;
                mock.pass1_fail_at = Some(0);
            }
            1 => {
                // all change outputs should be the same coin type
                tx.outputs[4].keypath[1] = 1 + HARDENED;
                mock.output_fail_at = Some(4);
            }
            2 => {
                // all inputs should be from the same account
                tx.inputs[0].input.keypath[2] += 1;
                mock.pass1_fail_at = Some(0);
            }
            3 => {
                // all change outputs should go to the same account
                tx.outputs[4].keypath[2] += 1;
                mock.output_fail_at = Some(4);
            }
            4 => {
                // change num in bip44 should be 1
                tx.outputs[4].keypath[3] = 0;
                mock.output_fail_at = Some(4);
            }
            5 => {
                tx.outputs[4].keypath[3] = 2;
                mock.output_fail_at = Some(4);
            }
            6 => {
                // referenced input script config does not exist
                tx.inputs[0].input.script_config_index = 1;
                mock.pass1_fail_at = Some(0);
            }
            7 => {
                // referenced change script config does not exist
                tx.outputs[4].script_config_index = 1;
                mock.output_fail_at = Some(4);
            }
            8 => {
                // sequence number below the replace-by-fee floor
                tx.inputs[0].input.sequence = 0;
            }
            9 => {
                // value 0 is invalid
                tx.outputs[0].value = 0;
            }
            10 => {
                // input value does not match the previous output's value
                tx.inputs[0].input.prev_out_value += 1;
            }
            11 => {
                // the streamed previous transaction does not hash to the
                // input's prev_out_hash
                tx.inputs[0].input.prev_out_hash[0] += 1;
            }
            12 => {
                // no inputs in the previous transaction
                tx.inputs[0].prevtx_inputs.clear();
            }
            13 => {
                // no outputs in the previous transaction
                tx.inputs[0].prevtx_outputs.clear();
            }
            _ => unreachable!(),
        }
        let result = drive(&tx, &mut mock);
        assert_eq!(result.err(), Some(Error::InvalidInput));
        assert_eq!(mock.reset_calls, 1);
        assert!(mock.delivered.is_empty());
        // whatever screen was open when the session failed was dropped
        assert_eq!(screen_balance(&mock.ui_effects), 0);
    }
}

/// Signing with mixed input types.
#[test]
pub fn test_mixed_inputs() {
    let mut tx = Transaction::new(COIN_BTC);
    tx.inputs[0].input.script_config_index = 1;
    tx.inputs[0].input.keypath[0] = 49 + HARDENED;
    let mut mock = Mock::new();
    assert!(drive(&tx, &mut mock).is_ok());
}

#[test]
fn test_user_aborts() {
    let tx = Transaction::new(COIN_BTC);
    // Go through all possible user confirmations, declining one at a time.
    for counter in 1..=tx.total_confirmations {
        let mut mock = Mock::new();
        mock.ui_abort_at = counter;
        assert_eq!(drive(&tx, &mut mock).err(), Some(Error::UserAbort));
        // cleanup ran, and the cancel notice was shown
        assert_eq!(mock.reset_calls, 1);
        assert_eq!(mock.cancel_toasts, 1);
        assert!(mock.delivered.is_empty());
        // the abort happens during an output confirmation, so the empty
        // placeholder was open and is dropped with the failure
        assert_eq!(screen_balance(&mock.ui_effects), 0);
        assert!(mock.ui_effects.contains(&UiEffect::CloseEmpty));
    }
}

/// One locktime workflow scenario.
struct LocktimeCase {
    coin: u32,
    locktime: u32,
    sequence: u32,
    // If None: no locktime confirmation expected.
    // If Some: confirmation body and user response.
    confirm: Option<(&'static str, bool)>,
}

/// The workflow when a locktime applies.
#[test]
fn test_locktime() {
    for case in [
        LocktimeCase { coin: COIN_BTC, locktime: 0, sequence: 0xffffffff, confirm: None },
        LocktimeCase { coin: COIN_BTC, locktime: 0, sequence: 0xffffffff - 1, confirm: None },
        LocktimeCase { coin: COIN_BTC, locktime: 0, sequence: 0xffffffff - 2, confirm: None },
        LocktimeCase {
            coin: COIN_BTC,
            locktime: 1,
            sequence: 0xffffffff - 1,
            confirm: Some(("Locktime on block:\n1\nTransaction is not RBF", true)),
        },
        LocktimeCase {
            coin: COIN_BTC,
            locktime: 1,
            sequence: 0xffffffff - 1,
            confirm: Some(("Locktime on block:\n1\nTransaction is not RBF", false)),
        },
        LocktimeCase {
            coin: COIN_BTC,
            locktime: 10,
            sequence: 0xffffffff - 1,
            confirm: Some(("Locktime on block:\n10\nTransaction is not RBF", true)),
        },
        LocktimeCase {
            coin: COIN_BTC,
            locktime: 10,
            sequence: 0xffffffff - 2,
            confirm: Some(("Locktime on block:\n10\nTransaction is RBF", true)),
        },
        LocktimeCase {
            coin: COIN_LTC,
            locktime: 10,
            sequence: 0xffffffff - 1,
            confirm: Some(("Locktime on block:\n10\n", true)),
        },
        LocktimeCase {
            coin: COIN_LTC,
            locktime: 10,
            sequence: 0xffffffff - 2,
            confirm: Some(("Locktime on block:\n10\n", true)),
        },
    ] {
        let mut tx = Transaction::new(case.coin);
        tx.inputs[0].input.sequence = case.sequence;
        tx.locktime = case.locktime;
        let mut mock = Mock::new();
        mock.locktime_confirm = case.confirm.map(|(body, answer)| (body.to_string(), answer));
        let result = drive(&tx, &mut mock);
        if let Some((_, false)) = case.confirm {
            assert_eq!(result.err(), Some(Error::UserAbort));
        } else {
            assert!(result.is_ok());
        }
        assert_eq!(mock.locktime_confirmed, case.confirm.is_some());
        assert_eq!(screen_balance(&mock.ui_effects), 0);
    }
}

/// A pay-to-taproot output signs like any other.
#[test]
fn test_p2tr_output() {
    let mut tx = Transaction::new(COIN_BTC);
    tx.outputs[0].output_type = 5; // P2TR
    tx.outputs[0].payload = vec![
        0xa6, 0x08, 0x69, 0xf0, 0xdb, 0xcf, 0x1d, 0xc6, 0x59, 0xc9, 0xce, 0xcb, 0xaf, 0x80,
        0x50, 0x13, 0x5e, 0xa9, 0xe8, 0xcd, 0xc4, 0x87, 0x05, 0x3f, 0x1d, 0xc6, 0x88, 0x09,
        0x49, 0xdc, 0x68, 0x4c,
    ];
    let mut mock = Mock::new();
    mock.signatures[1] = vec![
        0x8f, 0x1e, 0x0e, 0x8f, 0x98, 0xd3, 0x6d, 0xb1, 0x19, 0x62, 0x64, 0xf1, 0xa3, 0x00,
        0xfa, 0xe3, 0x17, 0xf1, 0x50, 0x8d, 0x2c, 0x48, 0x9f, 0xbb, 0xd6, 0x60, 0xe0, 0x48,
        0xc4, 0x52, 0x9c, 0x61, 0x2f, 0x59, 0x57, 0x6c, 0x86, 0xa2, 0x6f, 0xfa, 0x47, 0x6d,
        0x97, 0x35, 0x1e, 0x46, 0x9e, 0xf6, 0xed, 0x27, 0x84, 0xae, 0xcb, 0x71, 0x05, 0x3a,
        0x51, 0x66, 0x77, 0x5c, 0xcb, 0x4d, 0x7b, 0x9b,
    ];
    let expected = mock.signatures[1].clone();
    match drive(&tx, &mut mock) {
        Ok(env) => {
            assert!(env.msg.has_signature);
            assert_eq!(env.msg.signature, expected);
        }
        _ => panic!("wrong result"),
    }
    assert!(mock.ui_counter >= 1);
}

/// The anti-klepto nonce exchange: one extra round-trip per input, the
/// signer commitment delivered with it, and the combined signature
/// delivered on the round-trip after it.
#[test]
fn test_antiklepto() {
    let mut tx = Transaction::new(COIN_BTC);
    for fixture in tx.inputs.iter_mut() {
        // In the real protocol this is the SHA-256 of the host's nonce; the
        // commitment is opaque to the session.
        fixture.input.host_nonce_commitment = Some(vec![0x42; 32]);
    }
    let mut mock = Mock::new();
    let result = drive(&tx, &mut mock);
    match result {
        Ok(env) => {
            // the last exchange was wrapped, so the final response is too
            assert!(env.wrap);
            assert!(env.msg.has_signature);
            // the anti-klepto signature, not the plain one, is delivered
            assert_eq!(env.msg.signature, mock.ak_signatures[1]);
        }
        _ => panic!("wrong result"),
    }
    assert_eq!(mock.antiklepto_calls, 2);
    assert_eq!(mock.delivered.len(), 2);
    assert_eq!(mock.delivered[0], mock.ak_signatures[0]);
    assert_eq!(mock.delivered[1], mock.ak_signatures[1]);
    // one host-nonce round-trip per input, carrying the signer commitment
    // exactly once and never a signature
    let nonce_requests: Vec<&ExchangeRecord> = mock
        .exchanges
        .iter()
        .filter(|e| matches!(e.next_type, NextType::HostNonce))
        .collect();
    assert_eq!(nonce_requests.len(), 2);
    for (i, record) in nonce_requests.iter().enumerate() {
        assert_eq!(record.index, i as u32);
        assert!(!record.has_signature);
        assert_eq!(record.commitment.as_ref(), Some(&mock.commitments[i]));
        // the preceding hint was a bare pass-two input request, so the
        // host-nonce hint is sent bare as well
        assert!(!record.wrap);
    }
    // every other hint carries no commitment
    for record in &mock.exchanges {
        if !matches!(record.next_type, NextType::HostNonce) {
            assert!(record.commitment.is_none());
        }
    }
    assert_eq!(screen_balance(&mock.ui_effects), 0);
}

/// The previous transaction's id is computed exactly as double SHA-256 of
/// the canonical serialization: a hash computed independently here is
/// accepted, and flipping one byte of it is rejected.
#[test]
fn test_txid_against_reference_hash() {
    let mut tx = Transaction::new(COIN_BTC);
    // replace the second input's previous transaction with fresh records
    tx.inputs[1].prevtx_version = 7;
    tx.inputs[1].prevtx_inputs = vec![PrevTxInput {
        prev_out_hash: vec![0x51; 32],
        prev_out_index: 9,
        signature_script: b"another script".to_vec(),
        sequence: 0xfffffffd,
    }];
    tx.inputs[1].prevtx_outputs = vec![
        PrevTxOutput { value: 5000, pubkey_script: b"p".to_vec() },
        PrevTxOutput { value: 1020000000, pubkey_script: vec![] },
    ];
    tx.inputs[1].prevtx_locktime = 3;
    tx.inputs[1].input.prev_out_index = 1;

    // serialize by the book and hash twice with sha2 directly
    let mut ser: Vec<u8> = Vec::new();
    ser.extend_from_slice(&7u32.to_le_bytes());
    ser.extend_from_slice(&serialize_varint(1));
    ser.extend_from_slice(&[0x51; 32]);
    ser.extend_from_slice(&9u32.to_le_bytes());
    ser.extend_from_slice(&serialize_varint(b"another script".len() as u64));
    ser.extend_from_slice(b"another script");
    ser.extend_from_slice(&0xfffffffdu32.to_le_bytes());
    ser.extend_from_slice(&serialize_varint(2));
    ser.extend_from_slice(&5000u64.to_le_bytes());
    ser.extend_from_slice(&serialize_varint(1));
    ser.extend_from_slice(b"p");
    ser.extend_from_slice(&1020000000u64.to_le_bytes());
    ser.extend_from_slice(&serialize_varint(0));
    ser.extend_from_slice(&3u32.to_le_bytes());
    let txid = Sha256::digest(&Sha256::digest(&ser));
    tx.inputs[1].input.prev_out_hash = txid.to_vec();

    let mut mock = Mock::new();
    assert!(drive(&tx, &mut mock).is_ok());

    // one flipped bit in the expected id and the session rejects it
    tx.inputs[1].input.prev_out_hash[17] ^= 0x01;
    let mut mock2 = Mock::new();
    assert_eq!(drive(&tx, &mut mock2).err(), Some(Error::InvalidInput));
}

/// The Bitcoin variable-length integer encoding, on exact values.
#[test]
fn test_serialize_varint() {
    assert_eq!(serialize_varint(0), vec![0x00]);
    assert_eq!(serialize_varint(0xfc), vec![0xfc]);
    assert_eq!(serialize_varint(0xfd), vec![0xfd, 0xfd, 0x00]);
    assert_eq!(serialize_varint(0xffff), vec![0xfd, 0xff, 0xff]);
    assert_eq!(serialize_varint(0x10000), vec![0xfe, 0x00, 0x00, 0x01, 0x00]);
    assert_eq!(serialize_varint(0xffffffff), vec![0xfe, 0xff, 0xff, 0xff, 0xff]);
    assert_eq!(
        serialize_varint(0x100000000),
        vec![0xff, 0x00, 0x00, 0x00, 0x00, 0x01, 0x00, 0x00, 0x00]
    );
    assert_eq!(
        serialize_varint(u64::MAX),
        vec![0xff, 0xff, 0xff, 0xff, 0xff, 0xff, 0xff, 0xff, 0xff]
    );
}

/// Every screen pushed during a session is dropped again: the progress and
/// placeholder screens are balanced on the happy path, and progress is
/// reported input by input.
#[test]
fn test_screen_effects_balanced() {
    let tx = Transaction::new(COIN_BTC);
    let mut mock = Mock::new();
    assert!(drive(&tx, &mut mock).is_ok());
    // The exact screen activity for the two-input fixture: the loading bar
    // advances through both previous transactions (2+2 and 1+1 records),
    // is swapped for the placeholder at the first output, and — with only
    // two inputs — no signing bar is shown.
    assert_eq!(
        mock.ui_effects,
        vec![
            UiEffect::ShowLoadingProgress,
            UiEffect::SetProgress { index: 0, count: 2, pos: 0, total: 1 },
            UiEffect::SetProgress { index: 0, count: 2, pos: 0, total: 4 },
            UiEffect::SetProgress { index: 0, count: 2, pos: 1, total: 4 },
            UiEffect::SetProgress { index: 0, count: 2, pos: 2, total: 4 },
            UiEffect::SetProgress { index: 0, count: 2, pos: 3, total: 4 },
            UiEffect::SetProgress { index: 1, count: 2, pos: 0, total: 1 },
            UiEffect::SetProgress { index: 1, count: 2, pos: 0, total: 2 },
            UiEffect::SetProgress { index: 1, count: 2, pos: 1, total: 2 },
            UiEffect::SetProgress { index: 2, count: 2, pos: 0, total: 1 },
            UiEffect::CloseProgress,
            UiEffect::ShowEmpty,
            UiEffect::StatusConfirmed,
            UiEffect::CloseEmpty,
        ]
    );
    let mut progress_open = 0i32;
    let mut empty_open = 0i32;
    let mut progress_updates = 0u32;
    for effect in &mock.ui_effects {
        match effect {
            UiEffect::ShowLoadingProgress => progress_open += 1,
            UiEffect::ShowSigningProgress => progress_open += 1,
            UiEffect::CloseProgress => progress_open -= 1,
            UiEffect::ShowEmpty => empty_open += 1,
            UiEffect::CloseEmpty => empty_open -= 1,
            UiEffect::SetProgress { index, count, pos, total } => {
                progress_updates += 1;
                assert!(*total >= 1);
                assert!(*pos <= *total);
                assert!(*index <= *count);
            }
            UiEffect::StatusConfirmed => {}
        }
    }
    // two inputs: no signing progress bar is shown, so the loading bar is
    // the only progress screen, swapped for the placeholder at the first
    // output
    assert_eq!(progress_open, 0);
    assert_eq!(empty_open, 0);
    assert!(progress_updates >= tx.inputs.len() as u32);
    assert_eq!(
        mock.ui_effects.iter().filter(|e| matches!(e, UiEffect::StatusConfirmed)).count(),
        1
    );
}

/// With more than two inputs a signing progress screen is shown for the
/// second pass — and dropped again when the final response is delivered.
#[test]
fn test_signing_progress_closed() {
    let mut tx = Transaction::new(COIN_BTC);
    let extra = copy_fixture(&tx.inputs[1]);
    tx.inputs.push(extra);
    let mut mock = Mock::new();
    mock.signatures.push(vec![0xee; 64]);
    mock.commitments.push(vec![0x03; 33]);
    mock.ak_signatures.push(vec![0xff; 64]);
    assert!(drive(&tx, &mut mock).is_ok());
    assert_eq!(mock.delivered.len(), 3);
    assert_eq!(screen_balance(&mock.ui_effects), 0);
    // the tail of the screen activity: confirmation status, the swap to
    // the signing bar, one progress step per signed input, and the drop of
    // the signing bar with the final response
    let tail_len = 7;
    let tail = &mock.ui_effects[mock.ui_effects.len() - tail_len..];
    assert_eq!(
        tail,
        &[
            UiEffect::StatusConfirmed,
            UiEffect::CloseEmpty,
            UiEffect::ShowSigningProgress,
            UiEffect::SetProgress { index: 1, count: 3, pos: 0, total: 1 },
            UiEffect::SetProgress { index: 2, count: 3, pos: 0, total: 1 },
            UiEffect::SetProgress { index: 3, count: 3, pos: 0, total: 1 },
            UiEffect::CloseProgress,
        ]
    );

    // a failure during the second pass also drops the signing bar: the
    // host swaps in a wrong-variant message at the second pass-two input
    let mut tx2 = Transaction::new(COIN_BTC);
    let extra2 = copy_fixture(&tx2.inputs[1]);
    tx2.inputs.push(extra2);
    let mut mock2 = Mock::new();
    mock2.signatures.push(vec![0xee; 64]);
    mock2.commitments.push(vec![0x03; 33]);
    mock2.ak_signatures.push(vec![0xff; 64]);
    mock2.wrong_variant_after = Some(22);
    let result = drive(&tx2, &mut mock2);
    assert_eq!(result.err(), Some(Error::InvalidState));
    assert_eq!(screen_balance(&mock2.ui_effects), 0);
    assert_eq!(mock2.ui_effects.last(), Some(&UiEffect::CloseProgress));
}
