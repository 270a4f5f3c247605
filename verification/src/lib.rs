//! A minimal on-chain style registry that mints uniquely numbered
//! collectible records under a single-administrator gate and governs
//! transfer of ownership of those records.
//!
//! The heart of the library is [`machine::NFTMintingMachine`], a state
//! machine with three transitions: one-time oracle activation
//! ([`machine::NFTMintingMachine::setup_oracle`]), sequential minting
//! ([`machine::NFTMintingMachine::mint_token`]), and owner-authenticated
//! transfer ([`machine::NFTMintingMachine::transfer_nft`]). Every
//! transition is specified against a mathematical model of the registry
//! ([`machine::MachineView`]) and verified; [`laws`] states and proves
//! the global guarantees that follow.
//!
//! The hosting runtime (message dispatch, persistence, the ambient caller
//! identity) is an external collaborator: each operation takes the caller
//! identity as an explicit [`account::AccountId`] parameter and returns
//! plain values, so a dispatcher can drive the machine directly.

pub mod account;
pub mod laws;
pub mod machine;
pub mod naming;

pub use account::AccountId;
pub use machine::{Error, MachineView, NFTMintingMachine, Nft, NftView, OracleData};
pub use naming::make_nft_name;
