//! The bundle builder: wraps one signed transaction into the payload that
//! is sent to the relay.
use vstd::prelude::*;
use crate::eth::{keccak256, transaction_hash};
use crate::primitives::H256;

verus! {

/// One entry of a bundle.
#[derive(Clone, Debug, PartialEq, Eq)]
pub enum BundleItem {
    /// A reference to a transaction by its hash.
    Hash { hash: H256 },
    /// A raw signed transaction, and whether it may revert.
    Tx { tx: Vec<u8>, can_revert: bool },
}

/// A `BundleItem` as plain mathematical values.
pub ghost enum BundleItemView {
    Hash { hash: Seq<u8> },
    Tx { tx: Seq<u8>, can_revert: bool },
}

impl View for BundleItem {
    type V = BundleItemView;

    open spec fn view(&self) -> BundleItemView {
        match self {
            BundleItem::Hash { hash } => BundleItemView::Hash { hash: hash@ },
            BundleItem::Tx { tx, can_revert } => BundleItemView::Tx {
                tx: tx@,
                can_revert: *can_revert,
            },
        }
    }
}

/// What the relay may disclose of a bundle before it is included.
#[derive(Clone, Copy, Debug, PartialEq, Eq, Structural)]
pub struct PrivacyHint {
    pub calldata: bool,
    pub contract_address: bool,
    pub logs: bool,
    pub function_selector: bool,
    pub hash: bool,
    pub tx_hash: bool,
}

/// The privacy settings of a bundle.
#[derive(Clone, Copy, Debug, PartialEq, Eq, Structural)]
pub struct Privacy {
    pub hints: Option<PrivacyHint>,
}

/// An ordered list of items with optional privacy settings.
#[derive(Clone, Debug, PartialEq, Eq)]
pub struct Bundle {
    pub bundle_body: Vec<BundleItem>,
    pub privacy: Option<Privacy>,
}

/// A `Bundle` as plain mathematical values.
pub ghost struct BundleView {
    pub body: Seq<BundleItemView>,
    pub privacy: Option<Privacy>,
}

impl View for Bundle {
    type V = BundleView;

    open spec fn view(&self) -> BundleView {
        BundleView {
            body: Seq::new(self.bundle_body@.len(), |i: int| self.bundle_body@[i]@),
            privacy: self.privacy,
        }
    }
}

/// The hints of every bundle built here: only the transaction hash may be
/// disclosed.
pub open spec fn tx_hash_only() -> PrivacyHint {
    PrivacyHint {
        calldata: false,
        contract_address: false,
        logs: false,
        function_selector: false,
        hash: false,
        tx_hash: true,
    }
}

/// The bundle for a signed transaction `tx` whose hash is `hash`: a hash
/// reference, then the transaction itself, which may not revert.
pub open spec fn bundle_of(hash: Seq<u8>, tx: Seq<u8>) -> BundleView {
    BundleView {
        body: seq![
            BundleItemView::Hash { hash },
            BundleItemView::Tx { tx, can_revert: false },
        ],
        privacy: Some(Privacy { hints: Some(tx_hash_only()) }),
    }
}

impl Bundle {
    /// Builds the bundle for the signed transaction `tx`, given its hash.
    pub fn with_hash(hash: H256, tx: Vec<u8>) -> (bundle: Bundle)
        ensures
            bundle@ == bundle_of(hash@, tx@),
    {
        let mut bundle_body: Vec<BundleItem> = Vec::new();
        bundle_body.push(BundleItem::Hash { hash });
        bundle_body.push(BundleItem::Tx { tx, can_revert: false });
        let hints = PrivacyHint {
            calldata: false,
            contract_address: false,
            logs: false,
            function_selector: false,
            hash: false,
            tx_hash: true,
        };
        let bundle = Bundle { bundle_body, privacy: Some(Privacy { hints: Some(hints) }) };
        assert(bundle@.body =~= bundle_of(hash@, tx@).body);
        bundle
    }

    /// Builds the bundle for the signed transaction `tx`: its Keccak-256
    /// hash, then the transaction.
    pub fn build(tx: Vec<u8>) -> (bundle: Bundle)
        ensures
            bundle@ == bundle_of(keccak256(tx@), tx@),
    {
        let hash = transaction_hash(&tx);
        Bundle::with_hash(hash, tx)
    }
}

/// A bundle built from signed bytes holds exactly two items: first a hash
/// reference, then a transaction item with those bytes that may not revert.
pub proof fn lemma_bundle_shape(hash: Seq<u8>, tx: Seq<u8>)
    ensures
        bundle_of(hash, tx).body.len() == 2,
        bundle_of(hash, tx).body[0] == (BundleItemView::Hash { hash }),
        bundle_of(hash, tx).body[1] == (BundleItemView::Tx { tx, can_revert: false }),
{
}

} // verus!
