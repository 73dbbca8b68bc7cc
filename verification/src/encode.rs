//! The canonical (legacy, non-witness) serialization of a previous
//! transaction, whose double SHA-256 is its transaction id.
//!
//! The byte layout is: `version_le32 ‖ varint(n_in) ‖ inputs ‖ varint(n_out)
//! ‖ outputs ‖ locktime_le32`, where each input is `prev_hash ‖ prev_idx_le32
//! ‖ varint(len(script)) ‖ script ‖ sequence_le32` and each output is
//! `value_le64 ‖ varint(len(script)) ‖ script`.

use vstd::prelude::*;

use vstd::bytes::{
    spec_u16_to_le_bytes, spec_u32_to_le_bytes, spec_u64_to_le_bytes, u16_to_le_bytes,
};

use crate::model::{PrevTxInputView, PrevTxOutputView};
use crate::types::PrevTxInit;

verus! {

/// The Bitcoin variable-length integer encoding: one byte below `0xfd`, else
/// a one-byte marker followed by the value in 2, 4 or 8 little-endian bytes.
pub open spec fn spec_varint(n: u64) -> Seq<u8> {
    if n < 0xfd {
        seq![n as u8]
    } else if n <= 0xffff {
        seq![0xfdu8] + spec_u16_to_le_bytes(n as u16)
    } else if n <= 0xffffffff {
        seq![0xfeu8] + spec_u32_to_le_bytes(n as u32)
    } else {
        seq![0xffu8] + spec_u64_to_le_bytes(n)
    }
}

/// Serializes `n` as a Bitcoin variable-length integer.
pub fn serialize_varint(n: u64) -> (r: Vec<u8>)
    ensures
        r@ == spec_varint(n),
{
    let mut r: Vec<u8> = Vec::new();
    if n < 0xfd {
        r.push(n as u8);
        proof {
            assert(r@ =~= spec_varint(n));
        }
    } else if n <= 0xffff {
        r.push(0xfd);
        let mut tail = u16_to_le_bytes(n as u16);
        r.append(&mut tail);
        proof {
            assert(r@ =~= spec_varint(n));
        }
    } else if n <= 0xffffffff {
        r.push(0xfe);
        let mut tail = vstd::bytes::u32_to_le_bytes(n as u32);
        r.append(&mut tail);
        proof {
            assert(r@ =~= spec_varint(n));
        }
    } else {
        r.push(0xff);
        let mut tail = vstd::bytes::u64_to_le_bytes(n);
        r.append(&mut tail);
        proof {
            assert(r@ =~= spec_varint(n));
        }
    }
    r
}

/// The leading bytes of the serialization: version and input count.
pub open spec fn ser_prevtx_header(init: PrevTxInit) -> Seq<u8> {
    spec_u32_to_le_bytes(init.version) + spec_varint(init.num_inputs as u64)
}

/// One serialized input of a previous transaction.
pub open spec fn ser_prevtx_input(x: PrevTxInputView) -> Seq<u8> {
    x.prev_out_hash + spec_u32_to_le_bytes(x.prev_out_index) + spec_varint(
        x.signature_script.len() as u64,
    ) + x.signature_script + spec_u32_to_le_bytes(x.sequence)
}

/// One serialized output of a previous transaction.
pub open spec fn ser_prevtx_output(x: PrevTxOutputView) -> Seq<u8> {
    spec_u64_to_le_bytes(x.value) + spec_varint(x.pubkey_script.len() as u64) + x.pubkey_script
}

/// The serialized inputs, in streaming order.
pub open spec fn ser_prevtx_inputs(s: Seq<PrevTxInputView>) -> Seq<u8>
    decreases s.len(),
{
    if s.len() == 0 {
        Seq::empty()
    } else {
        ser_prevtx_inputs(s.drop_last()) + ser_prevtx_input(s.last())
    }
}

/// The serialized outputs, in streaming order.
pub open spec fn ser_prevtx_outputs(s: Seq<PrevTxOutputView>) -> Seq<u8>
    decreases s.len(),
{
    if s.len() == 0 {
        Seq::empty()
    } else {
        ser_prevtx_outputs(s.drop_last()) + ser_prevtx_output(s.last())
    }
}

/// The complete canonical serialization of a previous transaction.
pub open spec fn ser_prevtx(
    init: PrevTxInit,
    ins: Seq<PrevTxInputView>,
    outs: Seq<PrevTxOutputView>,
) -> Seq<u8> {
    ser_prevtx_header(init) + ser_prevtx_inputs(ins) + spec_varint(init.num_outputs as u64)
        + ser_prevtx_outputs(outs) + spec_u32_to_le_bytes(init.locktime)
}

} // verus!
