//! The signing context: the bundler's account, and how a transaction is
//! signed with it.
use vstd::prelude::*;
use crate::error::BundlerError;
use crate::eth::{
    address_of_key, encode_signed, key_address, recover_signer, recovered_signer, sighash,
    sign_with_key, signature_of, signed_encoding, signing_hash,
};
use crate::primitives::Address;
use crate::transaction::{Signature, SignatureView, TransactionRequest, TransactionView};

verus! {

/// The bundler's account: a secret key, the address it is known under, and
/// the chain it signs for.
#[derive(Clone)]
pub struct Wallet {
    key: [u8; 32],
    address: Address,
    chain_id: u64,
}

/// A transaction together with its signature and its wire encoding.
#[derive(Clone, Debug, PartialEq, Eq)]
pub struct SignedTransaction {
    pub request: TransactionRequest,
    pub signature: Signature,
    pub raw: Vec<u8>,
}

/// Whether a signature's `v` can be computed for this chain id in 64 bits:
/// it is a recovery bit plus 35 plus twice the chain id.
pub open spec fn chain_id_fits(chain_id: int) -> bool {
    chain_id * 2 + 36 <= u64::MAX
}

/// `tx` with its chain id set to `chain_id` where it has none.
pub open spec fn with_chain(tx: TransactionView, chain_id: int) -> TransactionView {
    TransactionView {
        chain_id: Some(
            match tx.chain_id {
                Some(id) => id,
                None => chain_id,
            },
        ),
        ..tx
    }
}

/// An optional address as an optional byte sequence.
pub open spec fn address_view(address: Option<Address>) -> Option<Seq<u8>> {
    match address {
        Some(a) => Some(a@),
        None => None,
    }
}

/// Whether a signature is taken as the account's: its recovered signer is
/// the account, and its `v` is a bare recovery bit or carries the chain id.
pub open spec fn accepts(
    account: Seq<u8>,
    chain_id: int,
    sig: SignatureView,
    signer: Option<Seq<u8>>,
) -> bool {
    signer == Some(account) && (sig.v <= 1 || sig.v >= chain_id * 2 + 35)
}

/// What signing `tx`, whose chain id is set, yields for the account with
/// this secret key and address: the signature and the signed encoding, or
/// `None` where no acceptable signature comes out.
pub open spec fn signed(secret: Seq<u8>, account: Seq<u8>, tx: TransactionView) -> Option<
    (SignatureView, Seq<u8>),
> {
    let chain_id = tx.chain_id.unwrap();
    if !chain_id_fits(chain_id) {
        None
    } else {
        match signature_of(secret, tx) {
            None => None,
            Some(sig) => if accepts(
                account,
                chain_id,
                sig,
                recovered_signer(sig, signing_hash(tx)),
            ) {
                Some((sig, signed_encoding(tx, sig)))
            } else {
                None
            },
        }
    }
}

/// Decides whether a signature is taken as the account's, given the signer
/// that was recovered from it.
pub fn accept_signature(
    account: &Address,
    chain_id: u64,
    sig: &Signature,
    signer: &Option<Address>,
) -> (ok: bool)
    ensures
        ok == accepts(account@, chain_id as int, sig@, address_view(*signer)),
{
    let same = match signer {
        Some(a) => *a == *account,
        None => false,
    };
    same && (sig.v <= 1 || sig.v as u128 >= chain_id as u128 * 2 + 35)
}

impl Wallet {
    /// The secret key, as 32 bytes.
    pub closed spec fn secret(&self) -> Seq<u8> {
        self.key@
    }

    /// The address the account is known under, as 20 bytes.
    pub closed spec fn account(&self) -> Seq<u8> {
        self.address@
    }

    /// The chain the account signs for.
    pub closed spec fn chain(&self) -> int {
        self.chain_id as int
    }

    /// The account's address.
    pub fn address(&self) -> (address: Address)
        ensures
            address@ == self.account(),
    {
        self.address
    }

    /// The chain the account signs for.
    pub fn chain_id(&self) -> (chain_id: u64)
        ensures
            chain_id == self.chain(),
    {
        self.chain_id
    }

    /// An account with the given key that is known under `address`.
    pub fn with_address(key: [u8; 32], address: Address, chain_id: u64) -> (wallet: Wallet)
        ensures
            wallet.secret() == key@,
            wallet.account() == address@,
            wallet.chain() == chain_id,
    {
        Wallet { key, address, chain_id }
    }

    /// An account with the given key, under the address that belongs to the
    /// key. Fails with `Configuration` where the bytes are no valid key.
    pub fn from_key(key: [u8; 32], chain_id: u64) -> (r: Result<Wallet, BundlerError>)
        ensures
            match key_address(key@) {
                Some(a) => r matches Ok(w) && w.secret() == key@ && w.account() == a && w.chain()
                    == chain_id,
                None => r == Err::<Wallet, BundlerError>(BundlerError::Configuration),
            },
    {
        match address_of_key(&key) {
            Some(address) => Ok(Wallet::with_address(key, address, chain_id)),
            None => Err(BundlerError::Configuration),
        }
    }

    /// Signs `tx` for the wallet's chain, or for the transaction's own chain
    /// where it names one. The signature is checked before it is returned:
    /// the signer recovered from it must be this account. Every failure is
    /// reported as `Signing`.
    pub fn sign_transaction(&self, tx: &TransactionRequest) -> (r: Result<
        SignedTransaction,
        BundlerError,
    >)
        ensures
            match signed(self.secret(), self.account(), with_chain(tx@, self.chain())) {
                Some((sig, raw)) => r matches Ok(s) && s.signature@ == sig && s.raw@ == raw
                    && s.request@ == with_chain(tx@, self.chain()),
                None => r == Err::<SignedTransaction, BundlerError>(BundlerError::Signing),
            },
            r matches Ok(s) ==> recovered_signer(s.signature@, signing_hash(s.request@)) == Some(
                self.account(),
            ),
    {
        let chain_id = match tx.chain_id {
            Some(id) => id,
            None => self.chain_id,
        };
        if chain_id > (u64::MAX - 36) / 2 {
            return Err(BundlerError::Signing);
        }
        let request = TransactionRequest {
            to: tx.to,
            data: tx.data.clone(),
            nonce: tx.nonce,
            chain_id: Some(chain_id),
        };
        assert(request@ == with_chain(tx@, self.chain_id as int));
        match sign_with_key(&self.key, &request) {
            None => Err(BundlerError::Signing),
            Some(signature) => {
                let hash = sighash(&request);
                let signer = recover_signer(&signature, &hash);
                if accept_signature(&self.address, chain_id, &signature, &signer) {
                    let raw = encode_signed(&request, &signature);
                    Ok(SignedTransaction { request, signature, raw })
                } else {
                    Err(BundlerError::Signing)
                }
            },
        }
    }
}

/// Whatever transaction is signed, and for whatever account: where signing
/// yields a signature, the signer recovered from it over the transaction's
/// signing hash is the account's address.
pub proof fn lemma_signed_by_account(secret: Seq<u8>, account: Seq<u8>, tx: TransactionView)
    requires
        signed(secret, account, tx) is Some,
    ensures
        recovered_signer(signed(secret, account, tx).unwrap().0, signing_hash(tx)) == Some(
            account,
        ),
{
}

} // verus!
