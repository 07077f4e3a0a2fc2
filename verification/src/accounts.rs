//! The accounts an operation is handed, as the plain values it reads.

use crate::address::Address;
use crate::nft_bid::NFTBid;
use crate::nft_deposit::NFTDeposit;
use crate::nft_pool::NFTPool;
use vstd::prelude::*;

verus! {

/// An account as the host holds it.
#[derive(Clone, Debug, PartialEq, Eq)]
pub struct AccountInfo {
    pub key: Address,
    /// Balance of the account.
    pub lamports: u64,
    /// What the account stores.
    pub data: Vec<u8>,
    /// The program the account belongs to.
    pub owner: Address,
}

/// The mint of a token.
#[derive(Clone, Copy, Debug, PartialEq, Eq)]
pub struct Mint {
    pub key: Address,
    /// Tokens in existence.
    pub supply: u64,
    /// Decimal places of one token; an NFT has none.
    pub decimals: u8,
}

/// An account that holds tokens of one mint for one owner.
#[derive(Clone, Copy, Debug, PartialEq, Eq)]
pub struct TokenAccount {
    pub key: Address,
    pub mint: Address,
    pub owner: Address,
}

/// An account of the program, with the record it stores.
#[derive(Clone, Copy, Debug, PartialEq, Eq)]
pub struct ProgramAccount<T> {
    pub key: Address,
    pub data: T,
}

/// The host's clock.
#[derive(Clone, Copy, Debug, PartialEq, Eq)]
pub struct Clock {
    /// Now, in seconds.
    pub unix_timestamp: i64,
}

/// Accounts of `initialize`.
#[derive(Clone, Copy, Debug, PartialEq, Eq)]
pub struct AccountsInitialize {
    /// Signs, pays, and will collect the fees.
    pub pool_owner: Address,
    /// Where the pool's record will be.
    pub pool: Address,
    pub liz_mint: Mint,
    pub pool_liz_account: Address,
    pub tai_mint: Mint,
    pub pool_tai_account: Address,
    pub dai_mint: Mint,
    pub pool_dai_account: Address,
}

/// Accounts of `change_loan_settings`.
#[derive(Clone, Copy, Debug, PartialEq, Eq)]
pub struct AccountsChangeLoanSetting {
    /// Who signed the request.
    pub owner: Address,
    pub pool: ProgramAccount<NFTPool>,
}

/// Accounts of `deposit_nft`.
#[derive(Clone, Debug, PartialEq, Eq)]
pub struct AccountsDepositNFT {
    pub pool: ProgramAccount<NFTPool>,
    /// Signs and pays.
    pub borrower_wallet_account: Address,
    pub nft_mint: Mint,
    pub liz_mint: Mint,
    pub borrower_nft_account: TokenAccount,
    /// May not exist yet.
    pub pool_nft_account: AccountInfo,
    /// May not exist yet.
    pub borrower_liz_account: AccountInfo,
    pub pool_liz_account: TokenAccount,
    /// Where the deposit's record will be; must not exist yet.
    pub deposit_account: AccountInfo,
}

/// Accounts of `withdraw_nft`.
#[derive(Clone, Copy, Debug, PartialEq, Eq)]
pub struct AccountsWithdrawNFT {
    pub pool: ProgramAccount<NFTPool>,
    /// Signs.
    pub borrower_wallet_account: Address,
    pub nft_mint: Mint,
    pub pool_nft_account: TokenAccount,
    pub borrower_nft_account: TokenAccount,
    pub deposit_account: ProgramAccount<NFTDeposit>,
}

/// Accounts of `place_bid`.
#[derive(Clone, Debug, PartialEq, Eq)]
pub struct AccountsPlaceBid {
    pub pool: ProgramAccount<NFTPool>,
    /// Signs and pays.
    pub lender_wallet_account: Address,
    pub nft_mint: Mint,
    pub lender_dai_account: TokenAccount,
    /// Where the bid's record is or will be.
    pub bid_account: AccountInfo,
}

/// Accounts of `cancel_bid`.
#[derive(Clone, Copy, Debug, PartialEq, Eq)]
pub struct AccountsCancelBid {
    /// Signs.
    pub lender_wallet_account: Address,
    pub nft_mint: Mint,
    pub lender_dai_account: TokenAccount,
    pub bid_account: ProgramAccount<NFTBid>,
}

/// Accounts of `borrow`.
#[derive(Clone, Copy, Debug, PartialEq, Eq)]
pub struct AccountsBorrow {
    pub pool: ProgramAccount<NFTPool>,
    /// Signs.
    pub borrower_wallet_account: Address,
    pub lender_wallet_account: Address,
    pub nft_mint: Mint,
    pub pool_dai_account: TokenAccount,
    pub borrower_dai_account: TokenAccount,
    pub lender_dai_account: TokenAccount,
    pub lender_tai_account: TokenAccount,
    pub pool_tai_account: TokenAccount,
    pub deposit_account: ProgramAccount<NFTDeposit>,
    pub bid_account: ProgramAccount<NFTBid>,
    pub clock: Clock,
}

/// Accounts of `repay`.
#[derive(Clone, Copy, Debug, PartialEq, Eq)]
pub struct AccountsRepay {
    pub pool: ProgramAccount<NFTPool>,
    /// Signs.
    pub borrower_wallet_account: Address,
    /// Collects the fee.
    pub pool_owner_dai_account: TokenAccount,
    pub borrower_dai_account: TokenAccount,
    pub lender_dai_account: TokenAccount,
    pub borrower_nft_account: TokenAccount,
    pub pool_nft_account: TokenAccount,
    pub deposit_account: ProgramAccount<NFTDeposit>,
    pub clock: Clock,
}

/// Accounts of `liquidate`.
#[derive(Clone, Debug, PartialEq, Eq)]
pub struct AccountsLiquidate {
    pub pool: ProgramAccount<NFTPool>,
    /// Signs and pays.
    pub lender_wallet_account: Address,
    pub pool_dai_account: TokenAccount,
    /// Collects the fee.
    pub pool_owner_dai_account: TokenAccount,
    pub lender_dai_account: TokenAccount,
    pub nft_mint: Mint,
    pub pool_nft_account: TokenAccount,
    /// May not exist yet.
    pub lender_nft_account: AccountInfo,
    pub lender_tai_account: TokenAccount,
    pub pool_tai_account: TokenAccount,
    pub deposit_account: ProgramAccount<NFTDeposit>,
    pub clock: Clock,
}

/// Accounts of `withdraw_locked_asset`.
#[derive(Clone, Copy, Debug, PartialEq, Eq)]
pub struct AccountsWithdrawLockedAsset {
    pub pool: ProgramAccount<NFTPool>,
    /// Signs.
    pub lender_wallet_account: Address,
    pub lender_tai_account: TokenAccount,
    pub pool_tai_account: TokenAccount,
    pub lender_dai_account: TokenAccount,
    pub pool_dai_account: TokenAccount,
    pub deposit_account: ProgramAccount<NFTDeposit>,
}

} // verus!
