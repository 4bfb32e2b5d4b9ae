//! The identity registry: which canister and which Ethereum address stands
//! behind each asset and service of the bridge.

use crate::principal::{principal_text_bytes, PrincipalId, MAX_PRINCIPAL_LENGTH};
use vstd::pervasive::unreached;
use vstd::prelude::*;

verus! {

/// Ethereum address of the ckSepoliaETH minter: deposits go to it.
pub const CK_SEPOLIA_ETH_MINTER_ADDRESS: &'static str =
    "0xb44b5e756a894775fc32eddf3314bb1b1944dc34";

/// Canister of the ckSepoliaETH ledger.
pub const CK_SEPOLIA_ETH_LEDGER: &'static str = "apia6-jaaaa-aaaar-qabma-cai";

/// Canister of the ckSepoliaETH minter, which also mints and burns ckERC20
/// tokens.
pub const CK_SEPOLIA_ETH_MINTER: &'static str = "jzenf-aiaaa-aaaar-qaa7q-cai";

/// Canister of the ckSepolia ERC20 ledger suite orchestrator.
pub const CK_SEPOLIA_ERC20_LEDGER_SUITE_ORCHESTRATOR_CANISTER: &'static str =
    "2s5qh-7aaaa-aaaar-qadya-cai";

pub const SEPOLIA_CHAIN_ID: &'static str = "11155111";

pub const ETHEREUM_CHAIN_ID: &'static str = "1";

pub const SEPOLIA_USDC_ADDRESS: &'static str = "0x1c7D4B196Cb0C7B01d743Fbc6116a902379C7238";

pub const ETHEREUM_USDC_ADDRESS: &'static str = "0xA0b86991c6218b36c1d19D4a2e9Eb0cE3606eB48";

/// Canister of the ckSepoliaUSDC ledger.
pub const CK_SEPOLIA_USDC_LEDGER_CANISTER: &'static str = "yfumr-cyaaa-aaaar-qaela-cai";

/// Canister of the ckSepoliaUSDC index.
pub const CK_SEPOLIA_USDC_INDEX_CANISTER: &'static str = "ycvkf-paaaa-aaaar-qaelq-cai";

/// Returns the canister ID for the ckSepoliaETH ledger.
pub fn ck_sepolia_eth_ledger_canister_id() -> (id: &'static str)
    ensures
        id@ == CK_SEPOLIA_ETH_LEDGER@,
{
    CK_SEPOLIA_ETH_LEDGER
}

/// Returns the canister ID for the ckSepoliaETH minter.
pub fn ck_sepolia_eth_minter_canister_id() -> (id: &'static str)
    ensures
        id@ == CK_SEPOLIA_ETH_MINTER@,
{
    CK_SEPOLIA_ETH_MINTER
}

/// Returns the canister ID for the ckSepoliaUSDC ledger.
pub fn ck_sepolia_usdc_ledger_canister_id() -> (id: &'static str)
    ensures
        id@ == CK_SEPOLIA_USDC_LEDGER_CANISTER@,
{
    CK_SEPOLIA_USDC_LEDGER_CANISTER
}

/// Returns the canister ID for the ckSepoliaUSDC index.
pub fn ck_sepolia_usdc_index_canister_id() -> (id: &'static str)
    ensures
        id@ == CK_SEPOLIA_USDC_INDEX_CANISTER@,
{
    CK_SEPOLIA_USDC_INDEX_CANISTER
}

/// The assets that the bridge moves.
#[derive(Clone, Copy, Debug, PartialEq, Eq, Structural)]
pub enum Asset {
    /// ckSepoliaETH, the wrapped native asset.
    NativeWrappedAsset,
    /// ckSepoliaUSDC, the wrapped fungible (ERC20) asset.
    FungibleWrappedAsset,
}

impl Asset {
    /// The symbol under which the asset is shown.
    pub open spec fn spec_symbol(self) -> Seq<char> {
        match self {
            Asset::NativeWrappedAsset => "ckSepoliaETH"@,
            Asset::FungibleWrappedAsset => "ckSepoliaUSDC"@,
        }
    }

    /// The text of the canister ID of the asset's ledger.
    pub open spec fn spec_ledger_canister_id(self) -> Seq<char> {
        match self {
            Asset::NativeWrappedAsset => CK_SEPOLIA_ETH_LEDGER@,
            Asset::FungibleWrappedAsset => CK_SEPOLIA_USDC_LEDGER_CANISTER@,
        }
    }

    /// The Ethereum address that a deposit of the asset must be sent to. Both
    /// assets are minted by the same minter, so both have its address.
    pub open spec fn spec_counterpart_address(self) -> Seq<char> {
        CK_SEPOLIA_ETH_MINTER_ADDRESS@
    }

    /// The symbol under which the asset is shown.
    pub fn symbol(self) -> (symbol: &'static str)
        ensures
            symbol@ == self.spec_symbol(),
    {
        match self {
            Asset::NativeWrappedAsset => "ckSepoliaETH",
            Asset::FungibleWrappedAsset => "ckSepoliaUSDC",
        }
    }

    /// The text of the canister ID of the asset's ledger.
    pub fn ledger_canister_id(self) -> (id: &'static str)
        ensures
            id@ == self.spec_ledger_canister_id(),
    {
        match self {
            Asset::NativeWrappedAsset => CK_SEPOLIA_ETH_LEDGER,
            Asset::FungibleWrappedAsset => CK_SEPOLIA_USDC_LEDGER_CANISTER,
        }
    }

    /// The Ethereum address that a deposit of the asset must be sent to.
    pub fn counterpart_address(self) -> (address: &'static str)
        ensures
            address@ == self.spec_counterpart_address(),
    {
        CK_SEPOLIA_ETH_MINTER_ADDRESS
    }
}

/// The principal of the EVM RPC canister, `7hfb6-caaaa-aaaar-qadga-cai`.
pub open spec fn evm_rpc_principal() -> Seq<u8> {
    seq![0u8, 0u8, 0u8, 0u8, 0x02u8, 0x30u8, 0u8, 0xCCu8, 0x01u8, 0x01u8]
}

/// The canisters that the bridge calls, by principal.
#[derive(Debug, PartialEq, Eq)]
pub struct Identities {
    /// The EVM RPC canister, through which receipts are fetched.
    pub evm_rpc: PrincipalId,
    /// The minter, which burns both assets and is the spender of approvals.
    pub minter: PrincipalId,
    /// The ledger of ckSepoliaETH.
    pub eth_ledger: PrincipalId,
    /// The ledger of ckSepoliaUSDC.
    pub usdc_ledger: PrincipalId,
}

/// [`Identities`] as plain data.
pub struct IdentitiesView {
    pub evm_rpc: Seq<u8>,
    pub minter: Seq<u8>,
    pub eth_ledger: Seq<u8>,
    pub usdc_ledger: Seq<u8>,
}

impl View for Identities {
    type V = IdentitiesView;

    open spec fn view(&self) -> IdentitiesView {
        IdentitiesView {
            evm_rpc: self.evm_rpc@,
            minter: self.minter@,
            eth_ledger: self.eth_ledger@,
            usdc_ledger: self.usdc_ledger@,
        }
    }
}

impl IdentitiesView {
    /// The ledger of an asset.
    pub open spec fn ledger(self, asset: Asset) -> Seq<u8> {
        match asset {
            Asset::NativeWrappedAsset => self.eth_ledger,
            Asset::FungibleWrappedAsset => self.usdc_ledger,
        }
    }
}

/// The principal that a canister ID denotes, where it denotes one that is a
/// principal's length.
pub open spec fn canister_principal(id: Seq<char>) -> Option<Seq<u8>> {
    match principal_text_bytes(id) {
        Some(bytes) => if bytes.len() <= MAX_PRINCIPAL_LENGTH {
            Some(bytes)
        } else {
            None
        },
        None => None,
    }
}

/// The identities that the registry's texts denote, where each denotes one.
pub open spec fn registered_identities() -> Option<IdentitiesView> {
    match (
        canister_principal(CK_SEPOLIA_ETH_MINTER@),
        canister_principal(CK_SEPOLIA_ETH_LEDGER@),
        canister_principal(CK_SEPOLIA_USDC_LEDGER_CANISTER@),
    ) {
        (Some(minter), Some(eth_ledger), Some(usdc_ledger)) => Some(
            IdentitiesView { evm_rpc: evm_rpc_principal(), minter, eth_ledger, usdc_ledger },
        ),
        _ => None,
    }
}

/// The view of optional identities.
pub open spec fn optional_identities(ids: Option<Identities>) -> Option<IdentitiesView> {
    match ids {
        Some(ids) => Some(ids@),
        None => None,
    }
}

/// The principal of the EVM RPC canister.
pub fn evm_rpc_canister_id() -> (id: PrincipalId)
    ensures
        id@ == evm_rpc_principal(),
{
    let bytes: [u8; 10] = [0, 0, 0, 0, 0x02, 0x30, 0, 0xCC, 0x01, 0x01];
    match PrincipalId::from_slice(bytes.as_slice()) {
        Some(id) => {
            assert(id@ =~= evm_rpc_principal());
            id
        },
        None => unreached(),
    }
}

impl Identities {
    /// Reads the registry: the principals of the minter and of the two
    /// ledgers from their canister IDs, and that of the EVM RPC canister.
    pub fn resolve() -> (ids: Option<Identities>)
        ensures
            optional_identities(ids) == registered_identities(),
    {
        let minter = match PrincipalId::from_text(CK_SEPOLIA_ETH_MINTER) {
            Some(p) => p,
            None => {
                return None;
            },
        };
        let eth_ledger = match PrincipalId::from_text(CK_SEPOLIA_ETH_LEDGER) {
            Some(p) => p,
            None => {
                return None;
            },
        };
        let usdc_ledger = match PrincipalId::from_text(CK_SEPOLIA_USDC_LEDGER_CANISTER) {
            Some(p) => p,
            None => {
                return None;
            },
        };
        Some(Identities { evm_rpc: evm_rpc_canister_id(), minter, eth_ledger, usdc_ledger })
    }

    /// The ledger of an asset.
    pub fn ledger(&self, asset: Asset) -> (ledger: PrincipalId)
        ensures
            ledger@ == self@.ledger(asset),
    {
        match asset {
            Asset::NativeWrappedAsset => self.eth_ledger.clone(),
            Asset::FungibleWrappedAsset => self.usdc_ledger.clone(),
        }
    }
}

} // verus!
