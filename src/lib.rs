//! Hero asset generation: rarity and variant selection from entropy bytes,
//! asset identity construction, and a per-asset progression ledger kept next
//! to a NEAR NFT ledger.
pub mod catalog;
pub mod contract;
pub mod host;
pub mod identity;
pub mod rarity;
pub mod text;

pub use catalog::{select_variant, HeroData};
pub use contract::{
    roll, Contract, CraftError, Crafted, PlayError, TransferRequest, ONE_NEAR, ONE_YOCTO,
    SINGLE_CALL_GAS,
};
pub use identity::{build_identity, Identity};
pub use rarity::{select_rarity, Rarity};
pub use text::decimal_string;
