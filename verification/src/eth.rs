//! The calls into the Ethereum libraries. Each function here hands plain
//! values to one outside routine; what it promises of the result is taken
//! on trust, and the rest of the crate is proved from these promises.
use vstd::prelude::*;
use ethers::abi::Token;
use ethers::signers::{LocalWallet, Signer};
use ethers::types::transaction::eip2718::TypedTransaction;
use ethers::types::{Bytes, Eip1559TransactionRequest, H160};
use ethers_flashbots::BundleRequest;
use crate::operation::{UserOperation, UserOperationView};
use crate::primitives::{Address, H256, U256};
use crate::transaction::{Signature, SignatureView, TransactionRequest, TransactionView};

verus! {

/// The Keccak-256 digest of `data`.
pub uninterp spec fn keccak256(data: Seq<u8>) -> Seq<u8>;

/// The ABI encoding of the argument list of the entry point's batch call: a
/// one-element array that holds `op` as a tuple of its eleven fields, then
/// `beneficiary`.
pub uninterp spec fn abi_encoded_batch(op: UserOperationView, beneficiary: Seq<u8>) -> Seq<u8>;

/// The address that belongs to a secret key given as a big-endian scalar, or
/// `None` where the bytes are no valid key.
pub uninterp spec fn key_address(key: Seq<u8>) -> Option<Seq<u8>>;

/// The hash that is signed for `tx`.
pub uninterp spec fn signing_hash(tx: TransactionView) -> Seq<u8>;

/// The signature that the key makes for `tx`, or `None` where signing fails.
pub uninterp spec fn signature_of(key: Seq<u8>, tx: TransactionView) -> Option<SignatureView>;

/// The address whose key made `sig` over `hash`, or `None` where `sig` is no
/// signature over it.
pub uninterp spec fn recovered_signer(sig: SignatureView, hash: Seq<u8>) -> Option<Seq<u8>>;

/// The wire encoding of `tx` with `sig` appended.
pub uninterp spec fn signed_encoding(tx: TransactionView, sig: SignatureView) -> Seq<u8>;

/// The number of bytes in the ABI encoding of a byte string of length `n`:
/// a length word and the bytes padded to whole words.
pub open spec fn abi_bytes_len(n: nat) -> nat {
    32 + ((n + 31) / 32) * 32
}

/// The number of bytes in `abi_encoded_batch(op, _)`.
pub open spec fn abi_batch_len(op: UserOperationView) -> nat {
    15 * 32 + abi_bytes_len(op.init_code.len()) + abi_bytes_len(op.call_data.len())
        + abi_bytes_len(op.paymaster_and_data.len()) + abi_bytes_len(op.signature.len())
}

/// The chain id that the encoder takes for a transaction: its own, or 1.
pub open spec fn chain_or_one(chain_id: Option<u64>) -> int {
    match chain_id {
        Some(id) => id as int,
        None => 1,
    }
}

/// Hashes a raw signed transaction as `ethers_flashbots::BundleRequest`
/// does for a bundle of that one transaction (`push_transaction`, then
/// `transaction_hashes`): the result is the Keccak-256 digest of the bytes.
#[verifier::external_body]
pub(crate) fn transaction_hash(raw: &Vec<u8>) -> (hash: H256)
    ensures
        hash@ == keccak256(raw@),
{
    let request = BundleRequest::new().push_transaction(Bytes::from(raw.clone()));
    H256 { bytes: request.transaction_hashes()[0].0 }
}

/// Encodes the arguments of the batch call with `ethers::abi::encode`. The
/// encoder counts bytes in 32 bits, so the encoding must fit in that; the
/// result depends on the operation and the beneficiary alone.
#[verifier::external_body]
pub(crate) fn encode_batch(op: &UserOperation, beneficiary: &Address) -> (out: Vec<u8>)
    requires
        abi_batch_len(op@) <= u32::MAX,
    ensures
        out@ == abi_encoded_batch(op@, beneficiary@),
{
    let u = |n: &U256| Token::Uint(ethers::types::U256(n.limbs));
    let b = |v: &Vec<u8>| Token::Bytes(v.clone());
    let fields = vec![Token::Address(H160(op.sender.bytes)), u(&op.nonce), b(&op.init_code),
        b(&op.call_data), u(&op.call_gas_limit), u(&op.verification_gas_limit),
        u(&op.pre_verification_gas), u(&op.max_fee_per_gas), u(&op.max_priority_fee_per_gas),
        b(&op.paymaster_and_data), b(&op.signature)];
    let batch = Token::Array(vec![Token::Tuple(fields)]);
    ethers::abi::encode(&[batch, Token::Address(H160(beneficiary.bytes))])
}

/// Derives the address of a secret key with `LocalWallet::from_bytes`, which
/// fails on bytes that are no valid scalar.
#[verifier::external_body]
pub(crate) fn address_of_key(key: &[u8; 32]) -> (address: Option<Address>)
    ensures
        address is Some <==> key_address(key@) is Some,
        address matches Some(a) ==> key_address(key@) == Some(a@),
{
    LocalWallet::from_bytes(key).ok().map(|wallet| Address { bytes: wallet.address().0 })
}

/// Computes the hash to sign with `TypedTransaction::sighash`, for the
/// fee-market transaction that holds `tx`'s fields and nothing else.
#[verifier::external_body]
pub(crate) fn sighash(tx: &TransactionRequest) -> (hash: H256)
    ensures
        hash@ == signing_hash(tx@),
{
    let request = Eip1559TransactionRequest {
        to: Some(H160(tx.to.bytes).into()),
        data: Some(tx.data.clone().into()),
        nonce: tx.nonce.map(|n| ethers::types::U256(n.limbs)),
        chain_id: tx.chain_id.map(|id| id.into()),
        ..Default::default()
    };
    H256 { bytes: TypedTransaction::Eip1559(request).sighash().0 }
}

/// Signs `tx` with `LocalWallet::sign_transaction_sync`. Signing is
/// deterministic, so the result depends on the key and the transaction
/// alone. The chain id must be set and small enough for the signature's `v`,
/// which is a recovery bit plus 35 plus twice the chain id.
#[verifier::external_body]
pub(crate) fn sign_with_key(key: &[u8; 32], tx: &TransactionRequest) -> (sig: Option<Signature>)
    requires
        tx.chain_id is Some,
        tx.chain_id.unwrap() * 2 + 36 <= u64::MAX,
    ensures
        sig is Some <==> signature_of(key@, tx@) is Some,
        sig matches Some(s) ==> signature_of(key@, tx@) == Some(s@),
{
    let request = Eip1559TransactionRequest {
        to: Some(H160(tx.to.bytes).into()),
        data: Some(tx.data.clone().into()),
        nonce: tx.nonce.map(|n| ethers::types::U256(n.limbs)),
        chain_id: tx.chain_id.map(|id| id.into()),
        ..Default::default()
    };
    let s = LocalWallet::from_bytes(key).ok()?.sign_transaction_sync(&request.into()).ok()?;
    Some(Signature { r: U256 { limbs: s.r.0 }, s: U256 { limbs: s.s.0 }, v: s.v })
}

/// Recovers the signer of `hash` with `Signature::recover`.
#[verifier::external_body]
pub(crate) fn recover_signer(sig: &Signature, hash: &H256) -> (signer: Option<Address>)
    ensures
        signer is Some <==> recovered_signer(sig@, hash@) is Some,
        signer matches Some(a) ==> recovered_signer(sig@, hash@) == Some(a@),
{
    let r = ethers::types::U256(sig.r.limbs);
    let s = ethers::types::U256(sig.s.limbs);
    let signature = ethers::types::Signature { r, s, v: sig.v };
    signature.recover(ethers::types::H256(hash.bytes)).ok().map(|a| Address { bytes: a.0 })
}

/// Encodes the signed transaction with `TypedTransaction::rlp_signed`. The
/// encoder subtracts 35 and twice the chain id from a `v` above 1, so `v`
/// must be at least that much.
#[verifier::external_body]
pub(crate) fn encode_signed(tx: &TransactionRequest, sig: &Signature) -> (raw: Vec<u8>)
    requires
        chain_or_one(tx.chain_id) * 2 + 35 <= u64::MAX,
        sig.v <= 1 || sig.v >= chain_or_one(tx.chain_id) * 2 + 35,
    ensures
        raw@ == signed_encoding(tx@, sig@),
{
    let request = Eip1559TransactionRequest {
        to: Some(H160(tx.to.bytes).into()),
        data: Some(tx.data.clone().into()),
        nonce: tx.nonce.map(|n| ethers::types::U256(n.limbs)),
        chain_id: tx.chain_id.map(|id| id.into()),
        ..Default::default()
    };
    let (r, s) = (ethers::types::U256(sig.r.limbs), ethers::types::U256(sig.s.limbs));
    let signature = ethers::types::Signature { r, s, v: sig.v };
    TypedTransaction::Eip1559(request).rlp_signed(&signature).to_vec()
}

} // verus!
