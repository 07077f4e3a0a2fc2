use liqz::liqzError;

fn all_errors() -> Vec<liqzError> {
    vec![
        liqzError::NotAuthorized,
        liqzError::ContractAddressNotCorrect,
        liqzError::NFTListingAddressNotCorrect,
        liqzError::NFTBidAddressNotCorrect,
        liqzError::NFTLoanAddressNotCorrect,
        liqzError::NFTOverdrawn,
        liqzError::EmptyNFTReserve,
        liqzError::NFTOvertrade,
        liqzError::NFTBidQtyLargerThanSupply,
        liqzError::NFTBorrowExceedBidAmount,
        liqzError::BorrowAlreadyStarted,
        liqzError::LoanLiquidated,
        liqzError::LoanNotExpired,
        liqzError::LoanAlreadyExist,
        liqzError::LoanFinialized,
        liqzError::LoanNotActive,
        liqzError::NotEnoughNFTInPool,
        liqzError::NFTAlreadyWithdrawn,
        liqzError::NFTLocked,
        liqzError::BorrowedAmountTooSmall,
        liqzError::LoanNotRepayed,
    ]
}

#[test]
fn codes_follow_the_list_from_one_hundred() {
    for (i, e) in all_errors().into_iter().enumerate() {
        assert_eq!(e.code(), 100 + i as u32);
    }
}

#[test]
fn a_code_decodes_to_its_error() {
    for e in all_errors() {
        assert_eq!(liqzError::from_code(e.code()), Some(e));
    }
    assert_eq!(liqzError::from_code(100), Some(liqzError::NotAuthorized));
    assert_eq!(liqzError::from_code(107), Some(liqzError::NFTOvertrade));
    assert_eq!(liqzError::from_code(120), Some(liqzError::LoanNotRepayed));
}

#[test]
fn codes_outside_the_list_decode_to_nothing() {
    assert_eq!(liqzError::from_code(0), None);
    assert_eq!(liqzError::from_code(99), None);
    assert_eq!(liqzError::from_code(121), None);
    assert_eq!(liqzError::from_code(u32::MAX), None);
}

#[test]
fn every_error_has_its_message() {
    assert_eq!(liqzError::NotAuthorized.message(), "Not Authorized");
    assert_eq!(liqzError::ContractAddressNotCorrect.message(), "Contract address not correct");
    assert_eq!(liqzError::NFTListingAddressNotCorrect.message(), "NFT listing address not correct");
    assert_eq!(liqzError::NFTBidAddressNotCorrect.message(), "NFT bid address not correct");
    assert_eq!(liqzError::NFTLoanAddressNotCorrect.message(), "NFT loan address not correct");
    assert_eq!(liqzError::NFTOverdrawn.message(), "NFT overdrawn");
    assert_eq!(liqzError::EmptyNFTReserve.message(), "Empty NFT Reserve");
    assert_eq!(liqzError::NFTOvertrade.message(), "NFT overtrade");
    assert_eq!(
        liqzError::NFTBidQtyLargerThanSupply.message(),
        "NFT bid qty larger than NFT supply"
    );
    assert_eq!(
        liqzError::NFTBorrowExceedBidAmount.message(),
        "NFT borrow amount larger than bid amount"
    );
    assert_eq!(liqzError::BorrowAlreadyStarted.message(), "NFT borrow already started");
    assert_eq!(liqzError::LoanLiquidated.message(), "Loan is liquidated");
    assert_eq!(liqzError::LoanNotExpired.message(), "Loan is not expired yet");
    assert_eq!(liqzError::LoanAlreadyExist.message(), "Loan record already exist");
    assert_eq!(liqzError::LoanFinialized.message(), "Loan already finalized");
    assert_eq!(liqzError::LoanNotActive.message(), "Loan is not active");
    assert_eq!(liqzError::NotEnoughNFTInPool.message(), "Not enough NFT in pool");
    assert_eq!(liqzError::NFTAlreadyWithdrawn.message(), "NFT already withdrawn");
    assert_eq!(liqzError::NFTLocked.message(), "NFT is locked");
    assert_eq!(liqzError::BorrowedAmountTooSmall.message(), "The borrowed amount is too small");
    assert_eq!(liqzError::LoanNotRepayed.message(), "Loan has not been repayed");
}
