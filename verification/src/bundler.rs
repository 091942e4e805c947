//! The method registry: the bundler object behind the `eth` namespace. Its
//! answers come from configuration, except for the submission of an
//! operation, which runs in steps around the calls to the execution node
//! and the relay.
use vstd::prelude::*;
use crate::bundle::{bundle_of, Bundle, BundleView};
use crate::error::BundlerError;
use crate::eth::{abi_batch_len, keccak256};
use crate::operation::{
    EstimateUserOperationGasResponse, UserOperation, UserOperationHash, UserOperationReceipt,
    UserOperationView,
};
use crate::packager::{encodable, package, packaged};
use crate::primitives::{Address, H256, U256};
use crate::signing::{signed, Wallet};
use crate::transaction::TransactionView;

verus! {

/// The bundler: one entry point, gas ceilings, and the account that signs
/// and is paid. The account's chain is the network the bundler works on.
pub struct BabyBundler {
    pub entry_point: Address,
    pub max_verification_gas: U256,
    pub call_gas_limit: U256,
    pub wallet: Wallet,
}

/// Where the submission of one operation stands.
#[derive(Clone, Copy, Debug, PartialEq, Eq, Structural)]
pub enum Stage {
    /// A connection to the execution node was asked for.
    Connecting,
    /// The account's transaction count was asked for.
    AwaitingNonce,
    /// The bundle was handed over for the relay.
    AwaitingRelay,
    /// The result was given; nothing more happens.
    Done,
}

/// One operation on its way to the relay.
#[derive(Debug)]
pub struct Submission {
    pub stage: Stage,
    pub operation: UserOperation,
}

/// What came back from the outside work that the last action asked for.
#[derive(Clone, Copy, Debug, PartialEq, Eq)]
pub enum Event {
    /// The execution node is connected.
    Connected,
    /// The execution node could not be reached.
    ConnectFailed,
    /// The account's current transaction count.
    Nonce(U256),
    /// The transaction count could not be had.
    NonceFailed,
    /// The relay took the bundle and gave it this hash.
    RelayAccepted(H256),
    /// The relay could not be reached, rejected the call, or gave an answer
    /// that could not be read.
    RelayFailed,
}

/// An `Event` as plain mathematical values.
pub ghost enum EventView {
    Connected,
    ConnectFailed,
    Nonce(int),
    NonceFailed,
    RelayAccepted(Seq<u8>),
    RelayFailed,
}

impl View for Event {
    type V = EventView;

    open spec fn view(&self) -> EventView {
        match self {
            Event::Connected => EventView::Connected,
            Event::ConnectFailed => EventView::ConnectFailed,
            Event::Nonce(n) => EventView::Nonce(n@),
            Event::NonceFailed => EventView::NonceFailed,
            Event::RelayAccepted(h) => EventView::RelayAccepted(h@),
            Event::RelayFailed => EventView::RelayFailed,
        }
    }
}

/// The outside work to do next, or the result to give.
#[derive(Debug, PartialEq, Eq)]
pub enum Action {
    /// Open a fresh connection to the execution node.
    Connect,
    /// Ask the execution node for the transaction count of `account`.
    FetchNonce { account: Address },
    /// Send `bundle` to the relay at `endpoint`, once.
    SubmitBundle { endpoint: String, bundle: Bundle },
    /// Answer the caller.
    Finish { result: Result<UserOperationHash, BundlerError> },
}

/// An `Action` as plain mathematical values.
pub ghost enum ActionView {
    Connect,
    FetchNonce { account: Seq<u8> },
    SubmitBundle { endpoint: Seq<char>, bundle: BundleView },
    Finish { result: Result<Seq<u8>, BundlerError> },
}

impl View for Action {
    type V = ActionView;

    open spec fn view(&self) -> ActionView {
        match self {
            Action::Connect => ActionView::Connect,
            Action::FetchNonce { account } => ActionView::FetchNonce { account: account@ },
            Action::SubmitBundle { endpoint, bundle } => ActionView::SubmitBundle {
                endpoint: endpoint@,
                bundle: bundle@,
            },
            Action::Finish { result } => ActionView::Finish {
                result: match result {
                    Ok(hash) => Ok(hash.0@),
                    Err(e) => Err(*e),
                },
            },
        }
    }
}

/// The one endpoint of the relay that bundles are sent to.
pub open spec fn relay_endpoint() -> Seq<char> {
    "https://relay.flashbots.net:443"@
}

/// The transaction that is signed for `op`: the packaged call of
/// `entry_point` that pays `account`, with nonce and chain id set.
pub open spec fn submitted_transaction(
    account: Seq<u8>,
    chain_id: int,
    entry_point: Seq<u8>,
    op: UserOperationView,
    nonce: int,
) -> TransactionView {
    TransactionView {
        nonce: Some(nonce),
        chain_id: Some(chain_id),
        ..packaged(op, account, entry_point)
    }
}

/// The bundle that goes to the relay for `op`, or why there is none:
/// `Protocol` where the operation is too large to encode, `Signing` where no
/// acceptable signature comes out.
pub open spec fn prepared(
    secret: Seq<u8>,
    account: Seq<u8>,
    chain_id: int,
    entry_point: Seq<u8>,
    op: UserOperationView,
    nonce: int,
) -> Result<BundleView, BundlerError> {
    if abi_batch_len(op) > u32::MAX {
        Err(BundlerError::Protocol)
    } else {
        match signed(
            secret,
            account,
            submitted_transaction(account, chain_id, entry_point, op, nonce),
        ) {
            None => Err(BundlerError::Signing),
            Some((_, raw)) => Ok(bundle_of(keccak256(raw), raw)),
        }
    }
}

/// The stage that follows `stage` on `event`. `bundle` is what preparing
/// the bundle gives for the nonce in the event.
pub open spec fn next_stage(
    stage: Stage,
    event: EventView,
    bundle: Result<BundleView, BundlerError>,
) -> Stage {
    match (stage, event) {
        (Stage::Connecting, EventView::Connected) => Stage::AwaitingNonce,
        (Stage::AwaitingNonce, EventView::Nonce(_)) => if bundle is Ok {
            Stage::AwaitingRelay
        } else {
            Stage::Done
        },
        _ => Stage::Done,
    }
}

/// The action taken in `stage` on `event`. An event that the stage does
/// not wait for ends the submission with `Protocol`.
pub open spec fn next_action(
    stage: Stage,
    event: EventView,
    account: Seq<u8>,
    bundle: Result<BundleView, BundlerError>,
) -> ActionView {
    match (stage, event) {
        (Stage::Connecting, EventView::Connected) => ActionView::FetchNonce { account },
        (Stage::Connecting, EventView::ConnectFailed) => ActionView::Finish {
            result: Err(BundlerError::Connectivity),
        },
        (Stage::AwaitingNonce, EventView::Nonce(_)) => match bundle {
            Ok(bundle) => ActionView::SubmitBundle { endpoint: relay_endpoint(), bundle },
            Err(e) => ActionView::Finish { result: Err(e) },
        },
        (Stage::AwaitingNonce, EventView::NonceFailed) => ActionView::Finish {
            result: Err(BundlerError::Connectivity),
        },
        (Stage::AwaitingRelay, EventView::RelayAccepted(hash)) => ActionView::Finish {
            result: Ok(hash),
        },
        (Stage::AwaitingRelay, EventView::RelayFailed) => ActionView::Finish {
            result: Err(BundlerError::Relay),
        },
        _ => ActionView::Finish { result: Err(BundlerError::Protocol) },
    }
}

/// The nonce that an event carries, or zero.
pub open spec fn event_nonce(event: EventView) -> int {
    match event {
        EventView::Nonce(n) => n,
        _ => 0,
    }
}

impl BabyBundler {
    /// A bundler for `entry_point` that signs with `wallet`.
    pub fn new(
        entry_point: Address,
        max_verification_gas: U256,
        call_gas_limit: U256,
        wallet: Wallet,
    ) -> (bundler: BabyBundler)
        ensures
            bundler.entry_point == entry_point,
            bundler.max_verification_gas == max_verification_gas,
            bundler.call_gas_limit == call_gas_limit,
            bundler.wallet == wallet,
    {
        BabyBundler { entry_point, max_verification_gas, call_gas_limit, wallet }
    }

    /// The network the bundler works on: the chain of its account.
    pub fn chain_id(&self) -> (id: u64)
        ensures
            id == self.wallet.chain(),
    {
        self.wallet.chain_id()
    }

    /// The entry points that are served: the configured one and no other.
    pub fn supported_entry_points(&self) -> (entry_points: Vec<Address>)
        ensures
            entry_points@ == seq![self.entry_point],
    {
        let mut entry_points: Vec<Address> = Vec::new();
        entry_points.push(self.entry_point);
        assert(entry_points@ =~= seq![self.entry_point]);
        entry_points
    }

    /// Reports the configured call gas ceiling and zero for the other two
    /// figures, whatever the operation is. This is no estimate.
    pub fn estimate_user_operation_gas(
        &self,
        user_operation: &UserOperation,
        entry_point: &Address,
    ) -> (response: EstimateUserOperationGasResponse)
        ensures
            response.pre_verification_gas@ == 0,
            response.verification_gas_limit@ == 0,
            response.call_gas_limit == self.call_gas_limit,
    {
        EstimateUserOperationGasResponse {
            pre_verification_gas: U256::zero(),
            verification_gas_limit: U256::zero(),
            call_gas_limit: self.call_gas_limit,
        }
    }

    /// Always answers that no receipt is known: inclusion is not tracked.
    pub fn get_user_operation_receipt(&self, user_operation_hash: &UserOperationHash) -> (receipt:
        Option<UserOperationReceipt>)
        ensures
            receipt is None,
    {
        None
    }

    /// Packages, signs and wraps `op` for the relay, with the account's
    /// transaction count `nonce`. The call goes to the configured entry
    /// point and pays the bundler's own account.
    pub fn prepare_bundle(&self, op: &UserOperation, nonce: U256) -> (r: Result<
        Bundle,
        BundlerError,
    >)
        ensures
            match prepared(
                self.wallet.secret(),
                self.wallet.account(),
                self.wallet.chain(),
                self.entry_point@,
                op@,
                nonce@,
            ) {
                Ok(bundle) => r matches Ok(b) && b@ == bundle,
                Err(e) => r == Err::<Bundle, BundlerError>(e),
            },
    {
        if !encodable(op) {
            return Err(BundlerError::Protocol);
        }
        let account = self.wallet.address();
        let mut tx = package(op, &account, &self.entry_point);
        tx.set_nonce(nonce);
        tx.set_chain_id(self.wallet.chain_id());
        match self.wallet.sign_transaction(&tx) {
            Err(_) => Err(BundlerError::Signing),
            Ok(signed_tx) => Ok(Bundle::build(signed_tx.raw)),
        }
    }

    /// Begins the submission of `user_operation`: the first thing to do is
    /// to connect to the execution node. The call is built for the
    /// configured entry point; `entry_point` is not checked against it.
    pub fn send_user_operation(&self, user_operation: UserOperation, entry_point: Address) -> (r: (
        Submission,
        Action,
    ))
        ensures
            r.0.stage == Stage::Connecting,
            r.0.operation == user_operation,
            r.1@ == ActionView::Connect,
    {
        (Submission { stage: Stage::Connecting, operation: user_operation }, Action::Connect)
    }

    /// Takes the submission one step further on `event` and says what to do
    /// next. No step is ever repeated, and nothing is retried.
    pub fn advance(&self, submission: Submission, event: Event) -> (r: (Submission, Action))
        ensures
            r.0.operation == submission.operation,
            r.0.stage == next_stage(
                submission.stage,
                event@,
                prepared(
                    self.wallet.secret(),
                    self.wallet.account(),
                    self.wallet.chain(),
                    self.entry_point@,
                    submission.operation@,
                    event_nonce(event@),
                ),
            ),
            r.1@ == next_action(
                submission.stage,
                event@,
                self.wallet.account(),
                prepared(
                    self.wallet.secret(),
                    self.wallet.account(),
                    self.wallet.chain(),
                    self.entry_point@,
                    submission.operation@,
                    event_nonce(event@),
                ),
            ),
    {
        let Submission { stage, operation } = submission;
        let (stage, action) = match (stage, event) {
            (Stage::Connecting, Event::Connected) => (
                Stage::AwaitingNonce,
                Action::FetchNonce { account: self.wallet.address() },
            ),
            (Stage::Connecting, Event::ConnectFailed) => (
                Stage::Done,
                Action::Finish { result: Err(BundlerError::Connectivity) },
            ),
            (Stage::AwaitingNonce, Event::Nonce(nonce)) => match self.prepare_bundle(
                &operation,
                nonce,
            ) {
                Ok(bundle) => (
                    Stage::AwaitingRelay,
                    Action::SubmitBundle {
                        endpoint: "https://relay.flashbots.net:443".to_owned(),
                        bundle,
                    },
                ),
                Err(e) => (Stage::Done, Action::Finish { result: Err(e) }),
            },
            (Stage::AwaitingNonce, Event::NonceFailed) => (
                Stage::Done,
                Action::Finish { result: Err(BundlerError::Connectivity) },
            ),
            (Stage::AwaitingRelay, Event::RelayAccepted(hash)) => (
                Stage::Done,
                Action::Finish { result: Ok(UserOperationHash(hash)) },
            ),
            (Stage::AwaitingRelay, Event::RelayFailed) => (
                Stage::Done,
                Action::Finish { result: Err(BundlerError::Relay) },
            ),
            _ => (Stage::Done, Action::Finish { result: Err(BundlerError::Protocol) }),
        };
        (Submission { stage, operation }, action)
    }
}

/// How far a stage is along the way: every step moves forward.
pub open spec fn stage_rank(stage: Stage) -> int {
    match stage {
        Stage::Connecting => 0,
        Stage::AwaitingNonce => 1,
        Stage::AwaitingRelay => 2,
        Stage::Done => 3,
    }
}

/// A submission never goes back and never stays where it is before it is
/// done; once done it stays done. So each stage is left at most once, and
/// no outside work is asked for twice.
pub proof fn lemma_stage_advances(
    stage: Stage,
    event: EventView,
    bundle: Result<BundleView, BundlerError>,
)
    ensures
        stage != Stage::Done ==> stage_rank(next_stage(stage, event, bundle)) > stage_rank(stage),
        stage == Stage::Done ==> next_stage(stage, event, bundle) == Stage::Done,
{
}

/// A bundle is handed over for the relay only on the step from
/// `AwaitingNonce` to `AwaitingRelay`, which by `lemma_stage_advances` is
/// taken at most once: the relay sees at most one attempt per submission.
pub proof fn lemma_submits_at_most_once(
    stage: Stage,
    event: EventView,
    account: Seq<u8>,
    bundle: Result<BundleView, BundlerError>,
)
    ensures
        next_action(stage, event, account, bundle) is SubmitBundle ==> stage
            == Stage::AwaitingNonce && next_stage(stage, event, bundle) == Stage::AwaitingRelay,
        next_action(stage, event, account, bundle) is Finish <==> next_stage(stage, event, bundle)
            == Stage::Done,
{
}

/// The caller gets a hash only from the relay: a submission ends in success
/// exactly when the relay accepted the bundle, and then with the relay's
/// hash. Every failure of a step ends it with that step's error.
pub proof fn lemma_result_is_the_relays(
    stage: Stage,
    event: EventView,
    account: Seq<u8>,
    bundle: Result<BundleView, BundlerError>,
)
    ensures
        next_action(stage, event, account, bundle) matches ActionView::Finish { result: Ok(hash) }
            ==> stage == Stage::AwaitingRelay && event == EventView::RelayAccepted(hash),
        stage == Stage::AwaitingRelay && event == EventView::RelayFailed ==> next_action(
            stage,
            event,
            account,
            bundle,
        ) == (ActionView::Finish { result: Err(BundlerError::Relay) }),
{
}

/// The transaction that is signed names the chain that `chain_id` reports,
/// the entry point that `supported_entry_points` reports, and the nonce
/// that the execution node gave.
pub proof fn lemma_one_configuration(
    bundler: BabyBundler,
    op: UserOperationView,
    nonce: int,
)
    ensures
        ({
            let tx = submitted_transaction(
                bundler.wallet.account(),
                bundler.wallet.chain(),
                bundler.entry_point@,
                op,
                nonce,
            );
            tx.chain_id == Some(bundler.wallet.chain()) && tx.to == bundler.entry_point@
                && tx.nonce == Some(nonce)
        }),
{
}

} // verus!
