use cketh_bridge::canister_id::Asset;
use cketh_bridge::ck_sepolia_eth::{get_ck_sepolia_eth_hashes, store_ck_sepolia_eth_hash};
use cketh_bridge::ck_sepolia_usdc::{get_ck_sepolia_usdc_hashes, store_ck_sepolia_usdc_hash};
use cketh_bridge::transaction_hash::HashRegistry;

#[test]
fn new_registry_is_empty() {
    let registry = HashRegistry::new();
    assert!(registry.list(Asset::NativeWrappedAsset).is_empty());
    assert!(registry.list(Asset::FungibleWrappedAsset).is_empty());
}

#[test]
fn hashes_are_listed_in_the_order_recorded() {
    let mut registry = HashRegistry::new();
    registry.record(Asset::NativeWrappedAsset, "0xh1".to_string());
    registry.record(Asset::NativeWrappedAsset, "0xh2".to_string());
    assert_eq!(registry.list(Asset::NativeWrappedAsset), vec!["0xh1", "0xh2"]);
    assert!(registry.list(Asset::FungibleWrappedAsset).is_empty());
}

#[test]
fn duplicates_are_kept() {
    let mut registry = HashRegistry::new();
    registry.record(Asset::FungibleWrappedAsset, "0xsame".to_string());
    registry.record(Asset::FungibleWrappedAsset, "0xsame".to_string());
    assert_eq!(registry.list(Asset::FungibleWrappedAsset), vec!["0xsame", "0xsame"]);
}

#[test]
fn anything_is_accepted_as_a_hash() {
    let mut registry = HashRegistry::new();
    registry.record(Asset::NativeWrappedAsset, String::new());
    registry.record(Asset::NativeWrappedAsset, "not a hash at all".to_string());
    assert_eq!(registry.list(Asset::NativeWrappedAsset), vec!["", "not a hash at all"]);
}

#[test]
fn assets_have_logs_of_their_own() {
    let mut registry = HashRegistry::new();
    store_ck_sepolia_eth_hash(&mut registry, "0xe1".to_string());
    store_ck_sepolia_usdc_hash(&mut registry, "0xu1".to_string());
    store_ck_sepolia_eth_hash(&mut registry, "0xe2".to_string());
    assert_eq!(get_ck_sepolia_eth_hashes(&registry), vec!["0xe1", "0xe2"]);
    assert_eq!(get_ck_sepolia_usdc_hashes(&registry), vec!["0xu1"]);
}

#[test]
fn listing_does_not_change_the_registry() {
    let mut registry = HashRegistry::new();
    registry.record(Asset::NativeWrappedAsset, "0xh1".to_string());
    let mut listed = registry.list(Asset::NativeWrappedAsset);
    listed.push("0xforged".to_string());
    assert_eq!(registry.list(Asset::NativeWrappedAsset), vec!["0xh1"]);
}
