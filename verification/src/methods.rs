//! The names under which the bundler's methods are served. Every other
//! method name is unknown to the gateway and left to the upstream node.
use vstd::prelude::*;

verus! {

/// One of the methods that the bundler serves itself.
#[derive(Clone, Copy, Debug, PartialEq, Eq, Structural)]
pub enum RpcMethod {
    ChainId,
    SupportedEntryPoints,
    SendUserOperation,
    EstimateUserOperationGas,
    GetUserOperationReceipt,
}

/// The name of a method on the wire, in the `eth` namespace.
pub open spec fn method_name(method: RpcMethod) -> Seq<char> {
    match method {
        RpcMethod::ChainId => "eth_chainId"@,
        RpcMethod::SupportedEntryPoints => "eth_supportedEntryPoints"@,
        RpcMethod::SendUserOperation => "eth_sendUserOperation"@,
        RpcMethod::EstimateUserOperationGas => "eth_estimateUserOperationGas"@,
        RpcMethod::GetUserOperationReceipt => "eth_getUserOperationReceipt"@,
    }
}

/// Whether a name is that of a method served here.
pub open spec fn is_local(name: Seq<char>) -> bool {
    exists|method: RpcMethod| method_name(method) == name
}

impl RpcMethod {
    /// The name of the method on the wire.
    pub fn name(&self) -> (name: String)
        ensures
            name@ == method_name(*self),
    {
        match self {
            RpcMethod::ChainId => "eth_chainId".to_owned(),
            RpcMethod::SupportedEntryPoints => "eth_supportedEntryPoints".to_owned(),
            RpcMethod::SendUserOperation => "eth_sendUserOperation".to_owned(),
            RpcMethod::EstimateUserOperationGas => "eth_estimateUserOperationGas".to_owned(),
            RpcMethod::GetUserOperationReceipt => "eth_getUserOperationReceipt".to_owned(),
        }
    }

    /// The method that is served under `name`, or `None` where the name is
    /// not served here.
    pub fn from_name(name: &str) -> (method: Option<RpcMethod>)
        ensures
            match method {
                Some(m) => method_name(m) == name@,
                None => !is_local(name@),
            },
    {
        let wanted: String = name.to_owned();
        if wanted == RpcMethod::ChainId.name() {
            Some(RpcMethod::ChainId)
        } else if wanted == RpcMethod::SupportedEntryPoints.name() {
            Some(RpcMethod::SupportedEntryPoints)
        } else if wanted == RpcMethod::SendUserOperation.name() {
            Some(RpcMethod::SendUserOperation)
        } else if wanted == RpcMethod::EstimateUserOperationGas.name() {
            Some(RpcMethod::EstimateUserOperationGas)
        } else if wanted == RpcMethod::GetUserOperationReceipt.name() {
            Some(RpcMethod::GetUserOperationReceipt)
        } else {
            assert forall|m: RpcMethod| method_name(m) != name@ by {
                match m {
                    RpcMethod::ChainId => {},
                    RpcMethod::SupportedEntryPoints => {},
                    RpcMethod::SendUserOperation => {},
                    RpcMethod::EstimateUserOperationGas => {},
                    RpcMethod::GetUserOperationReceipt => {},
                }
            }
            None
        }
    }

    /// Every method that is served here, in the order of their declaration.
    pub fn all() -> (methods: Vec<RpcMethod>)
        ensures
            methods@ == seq![
                RpcMethod::ChainId,
                RpcMethod::SupportedEntryPoints,
                RpcMethod::SendUserOperation,
                RpcMethod::EstimateUserOperationGas,
                RpcMethod::GetUserOperationReceipt,
            ],
    {
        let mut methods: Vec<RpcMethod> = Vec::new();
        methods.push(RpcMethod::ChainId);
        methods.push(RpcMethod::SupportedEntryPoints);
        methods.push(RpcMethod::SendUserOperation);
        methods.push(RpcMethod::EstimateUserOperationGas);
        methods.push(RpcMethod::GetUserOperationReceipt);
        assert(methods@ =~= seq![
            RpcMethod::ChainId,
            RpcMethod::SupportedEntryPoints,
            RpcMethod::SendUserOperation,
            RpcMethod::EstimateUserOperationGas,
            RpcMethod::GetUserOperationReceipt,
        ]);
        methods
    }
}

/// No two methods share a name, so a name stands for at most one method.
pub proof fn lemma_names_differ(a: RpcMethod, b: RpcMethod)
    ensures
        method_name(a) == method_name(b) ==> a == b,
{
    reveal_strlit("eth_chainId");
    reveal_strlit("eth_supportedEntryPoints");
    reveal_strlit("eth_sendUserOperation");
    reveal_strlit("eth_estimateUserOperationGas");
    reveal_strlit("eth_getUserOperationReceipt");
    assert(method_name(a) == method_name(b) ==> method_name(a).len() == method_name(b).len());
}

} // verus!
