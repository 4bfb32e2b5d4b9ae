use cketh_bridge::canister_id::{
    ck_sepolia_eth_ledger_canister_id, ck_sepolia_eth_minter_canister_id,
    ck_sepolia_usdc_index_canister_id, ck_sepolia_usdc_ledger_canister_id, evm_rpc_canister_id,
    Asset,
};

#[test]
fn canister_ids_are_the_registered_ones() {
    assert_eq!(ck_sepolia_eth_ledger_canister_id(), "apia6-jaaaa-aaaar-qabma-cai");
    assert_eq!(ck_sepolia_eth_minter_canister_id(), "jzenf-aiaaa-aaaar-qaa7q-cai");
    assert_eq!(ck_sepolia_usdc_ledger_canister_id(), "yfumr-cyaaa-aaaar-qaela-cai");
    assert_eq!(ck_sepolia_usdc_index_canister_id(), "ycvkf-paaaa-aaaar-qaelq-cai");
}

#[test]
fn evm_rpc_canister_is_known_by_its_bytes() {
    assert_eq!(
        evm_rpc_canister_id().to_vec(),
        candid::Principal::from_text("7hfb6-caaaa-aaaar-qadga-cai").unwrap().as_slice().to_vec()
    );
}

#[test]
fn assets_name_their_ledger_and_counterpart() {
    assert_eq!(Asset::NativeWrappedAsset.symbol(), "ckSepoliaETH");
    assert_eq!(Asset::FungibleWrappedAsset.symbol(), "ckSepoliaUSDC");
    assert_eq!(Asset::NativeWrappedAsset.ledger_canister_id(), "apia6-jaaaa-aaaar-qabma-cai");
    assert_eq!(Asset::FungibleWrappedAsset.ledger_canister_id(), "yfumr-cyaaa-aaaar-qaela-cai");
    for asset in [Asset::NativeWrappedAsset, Asset::FungibleWrappedAsset] {
        assert_eq!(asset.counterpart_address(), "0xb44b5e756a894775fc32eddf3314bb1b1944dc34");
    }
}
