//! The registry of transaction hashes that callers claim to have submitted.
//!
//! The registry keeps one log per asset and only ever grows. It takes every
//! hash as it comes, a hash it already holds and a hash of no transaction
//! included: whether a transaction happened is for verification to say, not
//! for this log.

use crate::canister_id::Asset;
use crate::strings::{copy_strings, texts};
use vstd::prelude::*;

verus! {

/// The per-asset logs of claimed transaction hashes.
#[derive(Debug)]
pub struct HashRegistry {
    ck_sepolia_eth_hashes: Vec<String>,
    ck_sepolia_usdc_hashes: Vec<String>,
}

/// A [`HashRegistry`] as plain data: for each asset the hashes in the order
/// in which they were recorded.
pub struct HashRegistryView {
    pub ck_sepolia_eth_hashes: Seq<Seq<char>>,
    pub ck_sepolia_usdc_hashes: Seq<Seq<char>>,
}

impl HashRegistryView {
    /// The registry that holds nothing.
    pub open spec fn empty() -> HashRegistryView {
        HashRegistryView {
            ck_sepolia_eth_hashes: Seq::empty(),
            ck_sepolia_usdc_hashes: Seq::empty(),
        }
    }

    /// The hashes recorded for `asset`, oldest first.
    pub open spec fn list(self, asset: Asset) -> Seq<Seq<char>> {
        match asset {
            Asset::NativeWrappedAsset => self.ck_sepolia_eth_hashes,
            Asset::FungibleWrappedAsset => self.ck_sepolia_usdc_hashes,
        }
    }

    /// The registry after `hash` was recorded for `asset`: the hash stands at
    /// the end of the asset's log, and nothing else has changed.
    pub open spec fn record(self, asset: Asset, hash: Seq<char>) -> HashRegistryView {
        match asset {
            Asset::NativeWrappedAsset => HashRegistryView {
                ck_sepolia_eth_hashes: self.ck_sepolia_eth_hashes.push(hash),
                ..self
            },
            Asset::FungibleWrappedAsset => HashRegistryView {
                ck_sepolia_usdc_hashes: self.ck_sepolia_usdc_hashes.push(hash),
                ..self
            },
        }
    }
}

impl View for HashRegistry {
    type V = HashRegistryView;

    closed spec fn view(&self) -> HashRegistryView {
        HashRegistryView {
            ck_sepolia_eth_hashes: texts(self.ck_sepolia_eth_hashes@),
            ck_sepolia_usdc_hashes: texts(self.ck_sepolia_usdc_hashes@),
        }
    }
}

impl HashRegistry {
    /// A registry that holds nothing.
    pub fn new() -> (registry: HashRegistry)
        ensures
            registry@ == HashRegistryView::empty(),
    {
        let registry = HashRegistry {
            ck_sepolia_eth_hashes: Vec::new(),
            ck_sepolia_usdc_hashes: Vec::new(),
        };
        assert(texts(registry.ck_sepolia_eth_hashes@) =~= Seq::empty());
        assert(texts(registry.ck_sepolia_usdc_hashes@) =~= Seq::empty());
        registry
    }

    /// Appends `hash` to the log of `asset`. The hash is not looked at.
    pub fn record(&mut self, asset: Asset, hash: String)
        ensures
            final(self)@ == old(self)@.record(asset, hash@),
    {
        match asset {
            Asset::NativeWrappedAsset => {
                self.ck_sepolia_eth_hashes.push(hash);
                assert(texts(self.ck_sepolia_eth_hashes@) =~= texts(
                    old(self).ck_sepolia_eth_hashes@,
                ).push(hash@));
            },
            Asset::FungibleWrappedAsset => {
                self.ck_sepolia_usdc_hashes.push(hash);
                assert(texts(self.ck_sepolia_usdc_hashes@) =~= texts(
                    old(self).ck_sepolia_usdc_hashes@,
                ).push(hash@));
            },
        }
    }

    /// The hashes recorded for `asset`, oldest first.
    pub fn list(&self, asset: Asset) -> (hashes: Vec<String>)
        ensures
            texts(hashes@) == self@.list(asset),
    {
        match asset {
            Asset::NativeWrappedAsset => copy_strings(&self.ck_sepolia_eth_hashes),
            Asset::FungibleWrappedAsset => copy_strings(&self.ck_sepolia_usdc_hashes),
        }
    }
}

/// Two hashes recorded for an asset are listed behind what was there, in the
/// order in which they were recorded, also where they are the same hash. In a
/// registry that held nothing they are the whole list. The log of the other
/// asset is as it was.
pub proof fn recorded_hashes_are_listed_in_order(
    registry: HashRegistryView,
    asset: Asset,
    other: Asset,
    first: Seq<char>,
    second: Seq<char>,
)
    requires
        other != asset,
    ensures
        registry.record(asset, first).record(asset, second).list(asset) == registry.list(asset)
            + seq![first, second],
        HashRegistryView::empty().record(asset, first).record(asset, second).list(asset)
            == seq![first, second],
        registry.record(asset, first).record(asset, second).list(other) == registry.list(other),
{
    assert(registry.list(asset).push(first).push(second) =~= registry.list(asset) + seq![
        first,
        second,
    ]);
    assert(Seq::<Seq<char>>::empty().push(first).push(second) =~= seq![first, second]);
}

} // verus!
