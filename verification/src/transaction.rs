//! The unsigned transaction that carries an operation to the entry point,
//! and the signature made for it.
use vstd::prelude::*;
use crate::primitives::{Address, U256};

verus! {

/// An unsigned fee-market transaction that calls a contract. Gas, fees and
/// value are left unset, as are nonce and chain id until the caller sets them.
#[derive(Clone, Debug, PartialEq, Eq)]
pub struct TransactionRequest {
    pub to: Address,
    pub data: Vec<u8>,
    pub nonce: Option<U256>,
    pub chain_id: Option<u64>,
}

/// A `TransactionRequest` as plain mathematical values.
pub ghost struct TransactionView {
    pub to: Seq<u8>,
    pub data: Seq<u8>,
    pub nonce: Option<int>,
    pub chain_id: Option<int>,
}

/// The number an optional `U256` stands for.
pub open spec fn option_value(n: Option<U256>) -> Option<int> {
    match n {
        Some(n) => Some(n@),
        None => None,
    }
}

/// An optional chain id as an optional mathematical integer.
pub open spec fn option_id(id: Option<u64>) -> Option<int> {
    match id {
        Some(id) => Some(id as int),
        None => None,
    }
}

impl View for TransactionRequest {
    type V = TransactionView;

    open spec fn view(&self) -> TransactionView {
        TransactionView {
            to: self.to@,
            data: self.data@,
            nonce: option_value(self.nonce),
            chain_id: option_id(self.chain_id),
        }
    }
}

impl TransactionRequest {
    /// A call of the contract at `to` with payload `data`, nonce and chain id
    /// unset.
    pub fn call(to: Address, data: Vec<u8>) -> (tx: TransactionRequest)
        ensures
            tx@ == (TransactionView { to: to@, data: data@, nonce: None, chain_id: None }),
    {
        TransactionRequest { to, data, nonce: None, chain_id: None }
    }

    /// Sets the nonce and leaves the rest as it is.
    pub fn set_nonce(&mut self, nonce: U256)
        ensures
            final(self)@ == (TransactionView { nonce: Some(nonce@), ..old(self)@ }),
    {
        self.nonce = Some(nonce);
    }

    /// Sets the chain id and leaves the rest as it is.
    pub fn set_chain_id(&mut self, chain_id: u64)
        ensures
            final(self)@ == (TransactionView { chain_id: Some(chain_id as int), ..old(self)@ }),
    {
        self.chain_id = Some(chain_id);
    }
}

/// A recoverable signature over a transaction.
#[derive(Clone, Copy, Debug, PartialEq, Eq)]
pub struct Signature {
    pub r: U256,
    pub s: U256,
    pub v: u64,
}

/// A `Signature` as plain mathematical values.
pub ghost struct SignatureView {
    pub r: int,
    pub s: int,
    pub v: int,
}

impl View for Signature {
    type V = SignatureView;

    open spec fn view(&self) -> SignatureView {
        SignatureView { r: self.r@, s: self.s@, v: self.v as int }
    }
}

} // verus!
