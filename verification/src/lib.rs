//! Bookkeeping core of an NFT-collateralised lending pool: the pool
//! configuration, the standing bids of lenders, the life cycle of a deposited
//! collateral and its loan, and the money arithmetic that ties them together.
//!
//! Nothing here touches a ledger. Every entry point takes the records and
//! account facts it needs as plain values, decides, and answers with the new
//! records and the list of token movements the host has to carry out.

pub mod accounts;
pub mod address;
pub mod error;
pub mod events;
pub mod instructions;
pub mod laws;
pub mod ledger;
pub mod nft_bid;
pub mod nft_deposit;
pub mod nft_pool;
pub mod utils;
pub mod wire;

pub use address::Address;
pub use address::DerivedAccountIdentifier;
pub use error::liqzError;
pub use error::ProtocolError;
pub use nft_bid::NFTBid;
pub use nft_deposit::DepositOp;
pub use nft_deposit::DepositState;
pub use nft_deposit::LoanActiveState;
pub use nft_deposit::LoanRepayedState;
pub use nft_deposit::NFTDeposit;
pub use nft_pool::NFTPool;
