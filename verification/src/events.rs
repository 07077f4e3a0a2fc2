//! The audit trail: one event for each operation that went through.

use crate::address::Address;
use vstd::prelude::*;

verus! {

/// The pool was set up at `account`.
#[derive(Clone, Copy, Debug, PartialEq, Eq)]
pub struct EventInitialized {
    pub account: Address,
}

/// The owner changed the terms; these are the terms that hold now.
#[derive(Clone, Copy, Debug, PartialEq, Eq)]
pub struct EventLoanSettingChanged {
    pub incentive: u64,
    pub interest_rate: u64,
    pub service_fee_rate: u64,
    pub max_loan_duration: i64,
    pub mortgage_rate: u64,
}

/// A collateral of `mint` came in from `from`.
#[derive(Clone, Copy, Debug, PartialEq, Eq)]
pub struct EventNFTDeposited {
    pub mint: Address,
    pub from: Address,
}

/// A collateral of `mint` went back to `to`.
#[derive(Clone, Copy, Debug, PartialEq, Eq)]
pub struct EventNFTWithdrawn {
    pub mint: Address,
    pub to: Address,
}

/// `from` offers `price` for each of `qty` units of `mint`.
#[derive(Clone, Copy, Debug, PartialEq, Eq)]
pub struct EventNFTBidPlaced {
    pub mint: Address,
    pub from: Address,
    pub price: u64,
    pub qty: u64,
}

/// `from` withdrew the offer on `mint` that stood at `price` and `qty`.
#[derive(Clone, Copy, Debug, PartialEq, Eq)]
pub struct EventNFTBidCancelled {
    pub mint: Address,
    pub from: Address,
    pub price: u64,
    pub qty: u64,
}

/// `borrower` drew `amount` from `lender` for `length` seconds.
#[derive(Clone, Copy, Debug, PartialEq, Eq)]
pub struct EventBorrowed {
    pub borrower: Address,
    pub lender: Address,
    pub amount: u64,
    pub length: i64,
}

/// `borrower` paid `amount` to `lender` and `fee` to the pool's owner.
#[derive(Clone, Copy, Debug, PartialEq, Eq)]
pub struct EventRepayed {
    pub borrower: Address,
    pub lender: Address,
    pub amount: u64,
    pub fee: u64,
    pub lender_income: u64,
}

/// `lender` took the collateral of deposit `loan_id` and `withdrawable`.
#[derive(Clone, Copy, Debug, PartialEq, Eq)]
pub struct EventLiquidated {
    pub lender: Address,
    pub loan_id: Address,
    pub withdrawable: u64,
}

/// `lender` collected `amount` from a repaid loan.
#[derive(Clone, Copy, Debug, PartialEq, Eq)]
pub struct EventWithDrawLockedAsset {
    pub lender: Address,
    pub amount: u64,
}

/// Any event of the protocol.
#[derive(Clone, Copy, Debug, PartialEq, Eq)]
pub enum Event {
    Initialized(EventInitialized),
    LoanSettingChanged(EventLoanSettingChanged),
    NFTDeposited(EventNFTDeposited),
    NFTWithdrawn(EventNFTWithdrawn),
    NFTBidPlaced(EventNFTBidPlaced),
    NFTBidCancelled(EventNFTBidCancelled),
    Borrowed(EventBorrowed),
    Repayed(EventRepayed),
    Liquidated(EventLiquidated),
    WithDrawLockedAsset(EventWithDrawLockedAsset),
}

} // verus!
