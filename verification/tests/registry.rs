use baby_bundler::bundler::{Action, BabyBundler, Event, Stage};
use baby_bundler::bundle::BundleItem;
use baby_bundler::error::BundlerError;
use baby_bundler::operation::{UserOperation, UserOperationHash};
use baby_bundler::primitives::{Address, H256, U256};
use baby_bundler::signing::Wallet;
use ethers::types::transaction::eip2718::TypedTransaction;
use ethers::utils::rlp::Rlp;

fn unhex(text: &str) -> Vec<u8> {
    let digits: Vec<u8> = text.bytes().map(|b| (b as char).to_digit(16).unwrap() as u8).collect();
    digits.chunks(2).map(|pair| pair[0] * 16 + pair[1]).collect()
}

fn address(text: &str) -> Address {
    let mut bytes = [0u8; 20];
    bytes.copy_from_slice(&unhex(text));
    Address::new(bytes)
}

fn entry_point() -> Address {
    address("5ff137d4b0fdcd49dca30c7cf57e578a026d2789")
}

fn key_one() -> [u8; 32] {
    let mut key = [0u8; 32];
    key[31] = 1;
    key
}

fn bundler(chain_id: u64) -> BabyBundler {
    let wallet = Wallet::from_key(key_one(), chain_id).unwrap();
    BabyBundler::new(entry_point(), U256::max_value(), U256::from_u64(200_000), wallet)
}

fn operation() -> UserOperation {
    let mut op = UserOperation::empty();
    op.sender = address("00000000000000000000000000000000005e4de7");
    op.call_data = vec![0xde, 0xad, 0xbe, 0xef];
    op
}

#[test]
fn supported_entry_points_is_the_configured_one() {
    let points = bundler(80001).supported_entry_points();
    assert_eq!(points, vec![entry_point()]);
    let other = address("0000000000000000000000000000000000000001");
    let wallet = Wallet::from_key(key_one(), 5).unwrap();
    let second = BabyBundler::new(other, U256::zero(), U256::zero(), wallet);
    assert_eq!(second.supported_entry_points(), vec![other]);
}

#[test]
fn chain_id_is_the_configured_one_on_every_call() {
    let b = bundler(80001);
    assert_eq!(b.chain_id(), 80001);
    assert_eq!(b.chain_id(), 80001);
    assert_eq!(b.chain_id(), 0x13881);
    assert_eq!(bundler(5).chain_id(), 5);
}

#[test]
fn estimate_reports_the_call_gas_ceiling_and_zeros() {
    let b = bundler(80001);
    let estimate = b.estimate_user_operation_gas(&operation(), &entry_point());
    assert_eq!(estimate.pre_verification_gas, U256::zero());
    assert_eq!(estimate.verification_gas_limit, U256::zero());
    assert_eq!(estimate.call_gas_limit, U256::from_u64(200_000));
    let empty = b.estimate_user_operation_gas(&UserOperation::empty(), &entry_point());
    assert_eq!(empty, estimate);
}

#[test]
fn receipt_is_never_found() {
    let b = bundler(80001);
    let hash = UserOperationHash(H256::new([0xaa; 32]));
    assert_eq!(b.get_user_operation_receipt(&hash), None);
}

#[test]
fn submission_returns_the_relays_hash() {
    let b = bundler(80001);
    let (s, action) = b.send_user_operation(operation(), entry_point());
    assert_eq!(s.stage, Stage::Connecting);
    assert_eq!(action, Action::Connect);

    let (s, action) = b.advance(s, Event::Connected);
    assert_eq!(s.stage, Stage::AwaitingNonce);
    let account = address("7e5f4552091a69125d5dfcb7b8c2659029395bdf");
    assert_eq!(action, Action::FetchNonce { account });

    let (s, action) = b.advance(s, Event::Nonce(U256::from_u64(7)));
    assert_eq!(s.stage, Stage::AwaitingRelay);
    let bundle = match action {
        Action::SubmitBundle { endpoint, bundle } => {
            assert_eq!(endpoint, "https://relay.flashbots.net:443");
            bundle
        }
        other => panic!("unexpected action {:?}", other),
    };
    assert_eq!(bundle.bundle_body.len(), 2);
    let raw = match &bundle.bundle_body[1] {
        BundleItem::Tx { tx, can_revert } => {
            assert_eq!(*can_revert, false);
            tx.clone()
        }
        other => panic!("unexpected item {:?}", other),
    };
    assert_eq!(
        bundle.bundle_body[0],
        BundleItem::Hash { hash: H256::new(ethers::utils::keccak256(&raw)) }
    );
    let (tx, signature) = TypedTransaction::decode_signed(&Rlp::new(&raw)).unwrap();
    assert_eq!(tx.nonce(), Some(&ethers::types::U256::from(7)));
    assert_eq!(tx.chain_id(), Some(ethers::types::U64::from(80001)));
    assert_eq!(tx.to_addr(), Some(&ethers::types::H160(entry_point().bytes)));
    assert_eq!(&tx.data().unwrap()[..4], &[0x1f, 0xad, 0x94, 0x8c]);
    assert_eq!(signature.recover(tx.sighash()).unwrap(), ethers::types::H160(account.bytes));

    let (s, action) = b.advance(s, Event::RelayAccepted(H256::new([0xaa; 32])));
    assert_eq!(s.stage, Stage::Done);
    assert_eq!(
        action,
        Action::Finish { result: Ok(UserOperationHash(H256::new([0xaa; 32]))) }
    );
}

#[test]
fn relay_rejection_is_a_relay_error() {
    let b = bundler(80001);
    let (s, _) = b.send_user_operation(operation(), entry_point());
    let (s, _) = b.advance(s, Event::Connected);
    let (s, _) = b.advance(s, Event::Nonce(U256::from_u64(7)));
    let (s, action) = b.advance(s, Event::RelayFailed);
    assert_eq!(s.stage, Stage::Done);
    assert_eq!(action, Action::Finish { result: Err(BundlerError::Relay) });
}

#[test]
fn node_failures_are_connectivity_errors() {
    let b = bundler(80001);
    let (s, _) = b.send_user_operation(operation(), entry_point());
    let (s, action) = b.advance(s, Event::ConnectFailed);
    assert_eq!(s.stage, Stage::Done);
    assert_eq!(action, Action::Finish { result: Err(BundlerError::Connectivity) });

    let (s, _) = b.send_user_operation(operation(), entry_point());
    let (s, _) = b.advance(s, Event::Connected);
    let (s, action) = b.advance(s, Event::NonceFailed);
    assert_eq!(s.stage, Stage::Done);
    assert_eq!(action, Action::Finish { result: Err(BundlerError::Connectivity) });
}

#[test]
fn events_out_of_turn_end_the_submission() {
    let b = bundler(80001);
    let (s, _) = b.send_user_operation(operation(), entry_point());
    let (s, action) = b.advance(s, Event::Nonce(U256::from_u64(7)));
    assert_eq!(s.stage, Stage::Done);
    assert_eq!(action, Action::Finish { result: Err(BundlerError::Protocol) });
    let (s, action) = b.advance(s, Event::RelayAccepted(H256::new([0xaa; 32])));
    assert_eq!(s.stage, Stage::Done);
    assert_eq!(action, Action::Finish { result: Err(BundlerError::Protocol) });
}

#[test]
fn a_bundle_goes_out_once() {
    let b = bundler(80001);
    let (s, _) = b.send_user_operation(operation(), entry_point());
    let (s, _) = b.advance(s, Event::Connected);
    let (s, first) = b.advance(s, Event::Nonce(U256::from_u64(7)));
    assert!(matches!(first, Action::SubmitBundle { .. }));
    let (s, second) = b.advance(s, Event::Nonce(U256::from_u64(8)));
    assert_eq!(s.stage, Stage::Done);
    assert_eq!(second, Action::Finish { result: Err(BundlerError::Protocol) });
}

#[test]
fn signing_failure_ends_the_submission() {
    let stranger = address("0000000000000000000000000000000000000bad");
    let wallet = Wallet::with_address(key_one(), stranger, 80001);
    let b = BabyBundler::new(entry_point(), U256::zero(), U256::zero(), wallet);
    let (s, _) = b.send_user_operation(operation(), entry_point());
    let (s, _) = b.advance(s, Event::Connected);
    let (s, action) = b.advance(s, Event::Nonce(U256::from_u64(7)));
    assert_eq!(s.stage, Stage::Done);
    assert_eq!(action, Action::Finish { result: Err(BundlerError::Signing) });
}

#[test]
fn two_submissions_differ_by_their_nonce() {
    let b = bundler(80001);
    let first = b.prepare_bundle(&operation(), U256::from_u64(7)).unwrap();
    let again = b.prepare_bundle(&operation(), U256::from_u64(7)).unwrap();
    let second = b.prepare_bundle(&operation(), U256::from_u64(8)).unwrap();
    assert_eq!(first, again);
    assert_ne!(first, second);
}
