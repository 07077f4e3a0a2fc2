//! What can go wrong, and the numeric codes under which the protocol's own
//! errors reach a caller.

use vstd::prelude::*;

verus! {

/// The code of the first error of the list; each later one adds one.
pub const ERROR_CODE_OFFSET: u32 = 100;

/// Number of errors in the list.
pub const ERROR_COUNT: u32 = 21;

/// A broken rule of the protocol. The order of the list fixes the codes.
#[allow(non_camel_case_types)]
#[derive(Clone, Copy, Debug, PartialEq, Eq, Structural)]
pub enum liqzError {
    NotAuthorized,
    ContractAddressNotCorrect,
    NFTListingAddressNotCorrect,
    NFTBidAddressNotCorrect,
    NFTLoanAddressNotCorrect,
    NFTOverdrawn,
    EmptyNFTReserve,
    NFTOvertrade,
    NFTBidQtyLargerThanSupply,
    NFTBorrowExceedBidAmount,
    BorrowAlreadyStarted,
    LoanLiquidated,
    LoanNotExpired,
    LoanAlreadyExist,
    LoanFinialized,
    LoanNotActive,
    NotEnoughNFTInPool,
    NFTAlreadyWithdrawn,
    NFTLocked,
    BorrowedAmountTooSmall,
    LoanNotRepayed,
}

impl liqzError {
    /// Place of the error in the list, from 0.
    pub open spec fn index(self) -> nat {
        match self {
            liqzError::NotAuthorized => 0,
            liqzError::ContractAddressNotCorrect => 1,
            liqzError::NFTListingAddressNotCorrect => 2,
            liqzError::NFTBidAddressNotCorrect => 3,
            liqzError::NFTLoanAddressNotCorrect => 4,
            liqzError::NFTOverdrawn => 5,
            liqzError::EmptyNFTReserve => 6,
            liqzError::NFTOvertrade => 7,
            liqzError::NFTBidQtyLargerThanSupply => 8,
            liqzError::NFTBorrowExceedBidAmount => 9,
            liqzError::BorrowAlreadyStarted => 10,
            liqzError::LoanLiquidated => 11,
            liqzError::LoanNotExpired => 12,
            liqzError::LoanAlreadyExist => 13,
            liqzError::LoanFinialized => 14,
            liqzError::LoanNotActive => 15,
            liqzError::NotEnoughNFTInPool => 16,
            liqzError::NFTAlreadyWithdrawn => 17,
            liqzError::NFTLocked => 18,
            liqzError::BorrowedAmountTooSmall => 19,
            liqzError::LoanNotRepayed => 20,
        }
    }

    /// The error at a place of the list.
    pub open spec fn at(index: nat) -> Option<liqzError> {
        if index == 0 {
            Some(liqzError::NotAuthorized)
        } else if index == 1 {
            Some(liqzError::ContractAddressNotCorrect)
        } else if index == 2 {
            Some(liqzError::NFTListingAddressNotCorrect)
        } else if index == 3 {
            Some(liqzError::NFTBidAddressNotCorrect)
        } else if index == 4 {
            Some(liqzError::NFTLoanAddressNotCorrect)
        } else if index == 5 {
            Some(liqzError::NFTOverdrawn)
        } else if index == 6 {
            Some(liqzError::EmptyNFTReserve)
        } else if index == 7 {
            Some(liqzError::NFTOvertrade)
        } else if index == 8 {
            Some(liqzError::NFTBidQtyLargerThanSupply)
        } else if index == 9 {
            Some(liqzError::NFTBorrowExceedBidAmount)
        } else if index == 10 {
            Some(liqzError::BorrowAlreadyStarted)
        } else if index == 11 {
            Some(liqzError::LoanLiquidated)
        } else if index == 12 {
            Some(liqzError::LoanNotExpired)
        } else if index == 13 {
            Some(liqzError::LoanAlreadyExist)
        } else if index == 14 {
            Some(liqzError::LoanFinialized)
        } else if index == 15 {
            Some(liqzError::LoanNotActive)
        } else if index == 16 {
            Some(liqzError::NotEnoughNFTInPool)
        } else if index == 17 {
            Some(liqzError::NFTAlreadyWithdrawn)
        } else if index == 18 {
            Some(liqzError::NFTLocked)
        } else if index == 19 {
            Some(liqzError::BorrowedAmountTooSmall)
        } else if index == 20 {
            Some(liqzError::LoanNotRepayed)
        } else {
            None
        }
    }

    /// The code under which the error reaches a caller.
    pub open spec fn code_spec(self) -> u32 {
        (ERROR_CODE_OFFSET + self.index()) as u32
    }

    /// What the error says to a reader.
    pub open spec fn message_spec(self) -> Seq<char> {
        match self {
            liqzError::NotAuthorized => "Not Authorized"@,
            liqzError::ContractAddressNotCorrect => "Contract address not correct"@,
            liqzError::NFTListingAddressNotCorrect => "NFT listing address not correct"@,
            liqzError::NFTBidAddressNotCorrect => "NFT bid address not correct"@,
            liqzError::NFTLoanAddressNotCorrect => "NFT loan address not correct"@,
            liqzError::NFTOverdrawn => "NFT overdrawn"@,
            liqzError::EmptyNFTReserve => "Empty NFT Reserve"@,
            liqzError::NFTOvertrade => "NFT overtrade"@,
            liqzError::NFTBidQtyLargerThanSupply => "NFT bid qty larger than NFT supply"@,
            liqzError::NFTBorrowExceedBidAmount => "NFT borrow amount larger than bid amount"@,
            liqzError::BorrowAlreadyStarted => "NFT borrow already started"@,
            liqzError::LoanLiquidated => "Loan is liquidated"@,
            liqzError::LoanNotExpired => "Loan is not expired yet"@,
            liqzError::LoanAlreadyExist => "Loan record already exist"@,
            liqzError::LoanFinialized => "Loan already finalized"@,
            liqzError::LoanNotActive => "Loan is not active"@,
            liqzError::NotEnoughNFTInPool => "Not enough NFT in pool"@,
            liqzError::NFTAlreadyWithdrawn => "NFT already withdrawn"@,
            liqzError::NFTLocked => "NFT is locked"@,
            liqzError::BorrowedAmountTooSmall => "The borrowed amount is too small"@,
            liqzError::LoanNotRepayed => "Loan has not been repayed"@,
        }
    }

    /// The code under which the error reaches a caller: the offset plus the
    /// error's place in the list.
    pub fn code(&self) -> (r: u32)
        ensures
            r == self.code_spec(),
            ERROR_CODE_OFFSET <= r < ERROR_CODE_OFFSET + ERROR_COUNT,
    {
        let index: u32 = match self {
            liqzError::NotAuthorized => 0,
            liqzError::ContractAddressNotCorrect => 1,
            liqzError::NFTListingAddressNotCorrect => 2,
            liqzError::NFTBidAddressNotCorrect => 3,
            liqzError::NFTLoanAddressNotCorrect => 4,
            liqzError::NFTOverdrawn => 5,
            liqzError::EmptyNFTReserve => 6,
            liqzError::NFTOvertrade => 7,
            liqzError::NFTBidQtyLargerThanSupply => 8,
            liqzError::NFTBorrowExceedBidAmount => 9,
            liqzError::BorrowAlreadyStarted => 10,
            liqzError::LoanLiquidated => 11,
            liqzError::LoanNotExpired => 12,
            liqzError::LoanAlreadyExist => 13,
            liqzError::LoanFinialized => 14,
            liqzError::LoanNotActive => 15,
            liqzError::NotEnoughNFTInPool => 16,
            liqzError::NFTAlreadyWithdrawn => 17,
            liqzError::NFTLocked => 18,
            liqzError::BorrowedAmountTooSmall => 19,
            liqzError::LoanNotRepayed => 20,
        };
        ERROR_CODE_OFFSET + index
    }

    /// The error that a code stands for: the one at place `c - 100` of the
    /// list, and `None` for a code outside the list.
    pub fn from_code(c: u32) -> (r: Option<liqzError>)
        ensures
            r == (if c >= ERROR_CODE_OFFSET {
                liqzError::at((c - ERROR_CODE_OFFSET) as nat)
            } else {
                None
            }),
            r is Some <==> ERROR_CODE_OFFSET <= c < ERROR_CODE_OFFSET + ERROR_COUNT,
            r matches Some(e) ==> e.code_spec() == c,
    {
        if c < ERROR_CODE_OFFSET {
            return None;
        }
        let index: u32 = c - ERROR_CODE_OFFSET;
        if index == 0 {
            Some(liqzError::NotAuthorized)
        } else if index == 1 {
            Some(liqzError::ContractAddressNotCorrect)
        } else if index == 2 {
            Some(liqzError::NFTListingAddressNotCorrect)
        } else if index == 3 {
            Some(liqzError::NFTBidAddressNotCorrect)
        } else if index == 4 {
            Some(liqzError::NFTLoanAddressNotCorrect)
        } else if index == 5 {
            Some(liqzError::NFTOverdrawn)
        } else if index == 6 {
            Some(liqzError::EmptyNFTReserve)
        } else if index == 7 {
            Some(liqzError::NFTOvertrade)
        } else if index == 8 {
            Some(liqzError::NFTBidQtyLargerThanSupply)
        } else if index == 9 {
            Some(liqzError::NFTBorrowExceedBidAmount)
        } else if index == 10 {
            Some(liqzError::BorrowAlreadyStarted)
        } else if index == 11 {
            Some(liqzError::LoanLiquidated)
        } else if index == 12 {
            Some(liqzError::LoanNotExpired)
        } else if index == 13 {
            Some(liqzError::LoanAlreadyExist)
        } else if index == 14 {
            Some(liqzError::LoanFinialized)
        } else if index == 15 {
            Some(liqzError::LoanNotActive)
        } else if index == 16 {
            Some(liqzError::NotEnoughNFTInPool)
        } else if index == 17 {
            Some(liqzError::NFTAlreadyWithdrawn)
        } else if index == 18 {
            Some(liqzError::NFTLocked)
        } else if index == 19 {
            Some(liqzError::BorrowedAmountTooSmall)
        } else if index == 20 {
            Some(liqzError::LoanNotRepayed)
        } else {
            None
        }
    }

    /// What the error says to a reader.
    pub fn message(&self) -> (r: String)
        ensures
            r@ == self.message_spec(),
    {
        match self {
            liqzError::NotAuthorized => "Not Authorized".to_owned(),
            liqzError::ContractAddressNotCorrect => "Contract address not correct".to_owned(),
            liqzError::NFTListingAddressNotCorrect => "NFT listing address not correct".to_owned(),
            liqzError::NFTBidAddressNotCorrect => "NFT bid address not correct".to_owned(),
            liqzError::NFTLoanAddressNotCorrect => "NFT loan address not correct".to_owned(),
            liqzError::NFTOverdrawn => "NFT overdrawn".to_owned(),
            liqzError::EmptyNFTReserve => "Empty NFT Reserve".to_owned(),
            liqzError::NFTOvertrade => "NFT overtrade".to_owned(),
            liqzError::NFTBidQtyLargerThanSupply => "NFT bid qty larger than NFT supply".to_owned(),
            liqzError::NFTBorrowExceedBidAmount => "NFT borrow amount larger than bid amount".to_owned(),
            liqzError::BorrowAlreadyStarted => "NFT borrow already started".to_owned(),
            liqzError::LoanLiquidated => "Loan is liquidated".to_owned(),
            liqzError::LoanNotExpired => "Loan is not expired yet".to_owned(),
            liqzError::LoanAlreadyExist => "Loan record already exist".to_owned(),
            liqzError::LoanFinialized => "Loan already finalized".to_owned(),
            liqzError::LoanNotActive => "Loan is not active".to_owned(),
            liqzError::NotEnoughNFTInPool => "Not enough NFT in pool".to_owned(),
            liqzError::NFTAlreadyWithdrawn => "NFT already withdrawn".to_owned(),
            liqzError::NFTLocked => "NFT is locked".to_owned(),
            liqzError::BorrowedAmountTooSmall => "The borrowed amount is too small".to_owned(),
            liqzError::LoanNotRepayed => "Loan has not been repayed".to_owned(),
        }
    }

    /// A code decodes to the error it was made from, and to no other.
    pub proof fn lemma_code_round_trip(e: liqzError)
        ensures
            ERROR_CODE_OFFSET <= e.code_spec() < ERROR_CODE_OFFSET + ERROR_COUNT,
            liqzError::at((e.code_spec() - ERROR_CODE_OFFSET) as nat) == Some(e),
    {
    }

    /// Two errors with the same code are the same error.
    pub proof fn lemma_code_injective(a: liqzError, b: liqzError)
        requires
            a.code_spec() == b.code_spec(),
        ensures
            a == b,
    {
    }
}

/// Why an operation of the protocol was refused. Whatever the reason, the
/// records it was handed are as they were.
#[derive(Clone, Copy, Debug, PartialEq, Eq, Structural)]
pub enum ProtocolError {
    /// A rule of the protocol was broken.
    Liqz(liqzError),
    /// A money computation left the range of its integer type, or a duration
    /// was negative.
    ArithmeticOverflow,
    /// No bump derives an address for the record.
    AddressNotDerivable,
    /// The seeds are too many or too long for a derivation.
    MaxSeedLengthExceeded,
    /// The seeds with the bump that was handed in derive no address.
    InvalidSeeds,
    /// A token account or mint is not of the mint the pool is set up with.
    MintMismatch,
    /// The collateral's mint has decimals: it is no NFT.
    FractionalCollateral,
    /// The account that collects the fee does not belong to the pool's owner.
    FeeAccountMismatch,
    /// The mortgage rate is above 100%: more would be lent than the bid pays.
    MortgageExceedsPrincipal,
    /// An account that should hold a record holds something else.
    InvalidAccountData,
}

} // verus!
