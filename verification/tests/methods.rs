use baby_bundler::methods::RpcMethod;

#[test]
fn methods_are_served_under_their_names() {
    assert_eq!(RpcMethod::ChainId.name(), "eth_chainId");
    assert_eq!(RpcMethod::SupportedEntryPoints.name(), "eth_supportedEntryPoints");
    assert_eq!(RpcMethod::SendUserOperation.name(), "eth_sendUserOperation");
    assert_eq!(RpcMethod::EstimateUserOperationGas.name(), "eth_estimateUserOperationGas");
    assert_eq!(RpcMethod::GetUserOperationReceipt.name(), "eth_getUserOperationReceipt");
}

#[test]
fn names_lead_back_to_their_methods() {
    for method in RpcMethod::all() {
        assert_eq!(RpcMethod::from_name(&method.name()), Some(method));
    }
    assert_eq!(RpcMethod::all().len(), 5);
    assert_eq!(RpcMethod::from_name("eth_chainId"), Some(RpcMethod::ChainId));
    assert_eq!(RpcMethod::from_name("eth_sendUserOperation"), Some(RpcMethod::SendUserOperation));
}

#[test]
fn other_names_are_not_served() {
    assert_eq!(RpcMethod::from_name("eth_getBlockByNumber"), None);
    assert_eq!(RpcMethod::from_name("chainId"), None);
    assert_eq!(RpcMethod::from_name("eth_chainid"), None);
    assert_eq!(RpcMethod::from_name(""), None);
}
