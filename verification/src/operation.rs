//! The operation a caller submits, and the values returned for it.
use vstd::prelude::*;
use crate::primitives::{Address, H256, U256};

verus! {

/// What a caller asks to have executed on behalf of `sender`. Nothing in it
/// is checked here, and the signature is only passed on.
#[derive(Clone, Debug, PartialEq, Eq)]
pub struct UserOperation {
    pub sender: Address,
    pub nonce: U256,
    pub init_code: Vec<u8>,
    pub call_data: Vec<u8>,
    pub call_gas_limit: U256,
    pub verification_gas_limit: U256,
    pub pre_verification_gas: U256,
    pub max_fee_per_gas: U256,
    pub max_priority_fee_per_gas: U256,
    pub paymaster_and_data: Vec<u8>,
    pub signature: Vec<u8>,
}

/// A `UserOperation` as plain mathematical values.
pub ghost struct UserOperationView {
    pub sender: Seq<u8>,
    pub nonce: int,
    pub init_code: Seq<u8>,
    pub call_data: Seq<u8>,
    pub call_gas_limit: int,
    pub verification_gas_limit: int,
    pub pre_verification_gas: int,
    pub max_fee_per_gas: int,
    pub max_priority_fee_per_gas: int,
    pub paymaster_and_data: Seq<u8>,
    pub signature: Seq<u8>,
}

impl View for UserOperation {
    type V = UserOperationView;

    open spec fn view(&self) -> UserOperationView {
        UserOperationView {
            sender: self.sender@,
            nonce: self.nonce@,
            init_code: self.init_code@,
            call_data: self.call_data@,
            call_gas_limit: self.call_gas_limit@,
            verification_gas_limit: self.verification_gas_limit@,
            pre_verification_gas: self.pre_verification_gas@,
            max_fee_per_gas: self.max_fee_per_gas@,
            max_priority_fee_per_gas: self.max_priority_fee_per_gas@,
            paymaster_and_data: self.paymaster_and_data@,
            signature: self.signature@,
        }
    }
}

impl UserOperation {
    /// An operation from the zero address with every number zero and every
    /// byte string empty.
    pub fn empty() -> (op: UserOperation)
        ensures
            op.sender.bytes@ == Seq::new(20, |i: int| 0u8),
            op@.nonce == 0,
            op@.init_code.len() == 0,
            op@.call_data.len() == 0,
            op@.call_gas_limit == 0,
            op@.verification_gas_limit == 0,
            op@.pre_verification_gas == 0,
            op@.max_fee_per_gas == 0,
            op@.max_priority_fee_per_gas == 0,
            op@.paymaster_and_data.len() == 0,
            op@.signature.len() == 0,
    {
        let op = UserOperation {
            sender: Address::new([0u8; 20]),
            nonce: U256::zero(),
            init_code: Vec::new(),
            call_data: Vec::new(),
            call_gas_limit: U256::zero(),
            verification_gas_limit: U256::zero(),
            pre_verification_gas: U256::zero(),
            max_fee_per_gas: U256::zero(),
            max_priority_fee_per_gas: U256::zero(),
            paymaster_and_data: Vec::new(),
            signature: Vec::new(),
        };
        assert(op.sender.bytes@ =~= Seq::new(20, |i: int| 0u8));
        op
    }
}

/// The handle returned for a submitted operation: the hash that the relay
/// gave the bundle, not a commitment to the operation's contents.
#[derive(Clone, Copy, Debug, PartialEq, Eq)]
pub struct UserOperationHash(pub H256);

/// The gas figures reported for an operation.
#[derive(Clone, Copy, Debug, PartialEq, Eq)]
pub struct EstimateUserOperationGasResponse {
    pub pre_verification_gas: U256,
    pub verification_gas_limit: U256,
    pub call_gas_limit: U256,
}

/// What is known of an operation's inclusion. Nothing tracks inclusion, so
/// no value of this type is ever produced.
#[derive(Clone, Copy, Debug, PartialEq, Eq)]
pub struct UserOperationReceipt {
    pub user_operation_hash: UserOperationHash,
}

} // verus!
