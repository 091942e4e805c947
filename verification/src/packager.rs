//! The operation packager: turns one operation and a beneficiary into the
//! unsigned transaction that calls the entry point's batch execution.
use vstd::prelude::*;
use crate::eth::{abi_batch_len, abi_bytes_len, abi_encoded_batch, encode_batch};
use crate::operation::{UserOperation, UserOperationView};
use crate::primitives::Address;
use crate::transaction::{TransactionRequest, TransactionView};

verus! {

/// The four bytes that select the entry point's batch execution.
pub open spec fn handle_ops_selector() -> Seq<u8> {
    seq![0x1fu8, 0xadu8, 0x94u8, 0x8cu8]
}

/// The payload of the call that executes the one-element batch `[op]` and
/// pays `beneficiary`: the selector, then the encoded arguments.
pub open spec fn handle_ops_call(op: UserOperationView, beneficiary: Seq<u8>) -> Seq<u8> {
    handle_ops_selector() + abi_encoded_batch(op, beneficiary)
}

/// The unsigned transaction that carries `op` to `entry_point`.
pub open spec fn packaged(
    op: UserOperationView,
    beneficiary: Seq<u8>,
    entry_point: Seq<u8>,
) -> TransactionView {
    TransactionView {
        to: entry_point,
        data: handle_ops_call(op, beneficiary),
        nonce: None,
        chain_id: None,
    }
}

/// The encoded length of a byte string of `n` bytes, or `None` where it
/// does not fit in 32 bits.
fn padded_len(n: usize) -> (r: Option<u64>)
    ensures
        r == (if abi_bytes_len(n as nat) <= u32::MAX {
            Some(abi_bytes_len(n as nat) as u64)
        } else {
            None
        }),
{
    if n > 0xffff_ffff {
        None
    } else {
        let words: u64 = (n as u64 + 31) / 32;
        let len: u64 = 32 + words * 32;
        if len <= 0xffff_ffff {
            Some(len)
        } else {
            None
        }
    }
}

/// Whether the batch call for `op` can be encoded: the encoder counts its
/// output in 32 bits.
pub fn encodable(op: &UserOperation) -> (r: bool)
    ensures
        r == (abi_batch_len(op@) <= u32::MAX),
{
    let a = padded_len(op.init_code.len());
    let b = padded_len(op.call_data.len());
    let c = padded_len(op.paymaster_and_data.len());
    let d = padded_len(op.signature.len());
    match (a, b, c, d) {
        (Some(a), Some(b), Some(c), Some(d)) => {
            let total: u64 = 480 + a + b + c + d;
            total <= 0xffff_ffff
        },
        _ => false,
    }
}

/// Packages `op` into a call of `entry_point` that pays `beneficiary`. The
/// operation's fields are passed on as they are; nonce and chain id are left
/// for the caller to set.
pub fn package(op: &UserOperation, beneficiary: &Address, entry_point: &Address) -> (tx:
    TransactionRequest)
    requires
        abi_batch_len(op@) <= u32::MAX,
    ensures
        tx@ == packaged(op@, beneficiary@, entry_point@),
{
    let arguments = encode_batch(op, beneficiary);
    let mut data: Vec<u8> = Vec::new();
    data.push(0x1f);
    data.push(0xad);
    data.push(0x94);
    data.push(0x8c);
    assert(data@ =~= handle_ops_selector());
    let mut arguments = arguments;
    data.append(&mut arguments);
    TransactionRequest::call(*entry_point, data)
}

} // verus!
