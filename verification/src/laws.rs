//! What holds of the protocol across its operations.

use crate::accounts::AccountInfo;
use crate::accounts::AccountsBorrow;
use crate::accounts::AccountsCancelBid;
use crate::accounts::AccountsDepositNFT;
use crate::accounts::AccountsLiquidate;
use crate::accounts::AccountsPlaceBid;
use crate::accounts::AccountsRepay;
use crate::accounts::AccountsWithdrawLockedAsset;
use crate::accounts::AccountsWithdrawNFT;
use crate::address::Address;
use crate::error::liqzError;
use crate::error::ProtocolError;
use crate::instructions::borrow_failure;
use crate::instructions::borrowed_amount_of;
use crate::instructions::cancel_bid_failure;
use crate::instructions::cancel_bid_outcome;
use crate::instructions::deposit_nft_failure;
use crate::instructions::elapsed;
use crate::instructions::lender_income_of;
use crate::instructions::liquidate_failure;
use crate::instructions::liquidation_fee_of;
use crate::instructions::place_bid_failure;
use crate::instructions::repay_failure;
use crate::instructions::repayed_amount_of;
use crate::instructions::withdraw_locked_asset_failure;
use crate::instructions::withdraw_nft_failure;
use crate::instructions::withdrawable_of;
use crate::nft_bid::NFTBid;
use crate::nft_deposit::DepositOp;
use crate::nft_deposit::DepositState;
use crate::nft_deposit::NFTDeposit;
use crate::nft_pool::fee_of;
use crate::nft_pool::BASIS_POINTS;
use vstd::prelude::*;

verus! {

/// Taking `n` units out of a bid that has `n` or more leaves the others, and
/// no price with the last; taking more than it has is refused with
/// `NFTOvertrade`.
pub proof fn lemma_trade(bid: NFTBid, n: u64)
    ensures
        n <= bid.qty ==> (bid.traded(n) matches Ok(after) && after.qty == bid.qty - n && (after.qty
            == 0 ==> after.price == 0) && (after.qty != 0 ==> after.price == bid.price)),
        n > bid.qty ==> bid.traded(n) == Err::<NFTBid, liqzError>(liqzError::NFTOvertrade),
{
}

/// An offer that was placed and then cancelled leaves the bid without price
/// and quantity: where `place_bid` accepts an offer with quantity, `cancel_bid`
/// on the record that was stored, for the same mint and lender, is accepted
/// too and leaves the empty bid.
pub proof fn lemma_place_then_cancel(
    program_id: Address,
    placing: AccountsPlaceBid,
    price: u64,
    qty: u64,
    cancelling: AccountsCancelBid,
)
    requires
        qty > 0,
        place_bid_failure(program_id, placing, price, qty) is None,
        cancelling.nft_mint == placing.nft_mint,
        cancelling.lender_wallet_account == placing.lender_wallet_account,
        cancelling.bid_account.key == placing.bid_account.key,
        cancelling.bid_account.data == (NFTBid { price, qty }),
    ensures
        cancel_bid_failure(program_id, cancelling) is None,
        cancel_bid_outcome(cancelling).bid_account.data.price == 0,
        cancel_bid_outcome(cancelling).bid_account.data.qty == 0,
{
}

/// The table of the loan's life is closed. An operation is accepted in the
/// one state that the table gives for it and refused in every other; nothing
/// is accepted in a final state; and what is accepted leads where the table
/// says.
pub proof fn lemma_state_machine_closure(state: DepositState, op: DepositOp)
    ensures
        state.accepts(op) <==> state.step(op) is Ok,
        state.is_final() ==> state.step(op) is Err,
        state.step(op) matches Ok(next) ==> match op {
            DepositOp::Withdraw => state is PendingLoan && next is Withdrawn,
            DepositOp::Borrow(terms) => state is PendingLoan && next == DepositState::LoanActive(
                terms,
            ),
            DepositOp::Repay(_) => state is LoanActive && next is LoanRepayed,
            DepositOp::Liquidate => state is LoanActive && next is LoanLiquidated,
            DepositOp::Clear => state is LoanRepayed && next is LoanCleared,
        },
        state.step(op) matches Err(e) ==> match op {
            DepositOp::Withdraw => e == liqzError::NFTAlreadyWithdrawn || e == liqzError::NFTLocked,
            DepositOp::Borrow(_) => e == liqzError::BorrowAlreadyStarted,
            DepositOp::Repay(_) => e == liqzError::LoanNotActive,
            DepositOp::Liquidate => e == liqzError::LoanNotActive,
            DepositOp::Clear => e == liqzError::LoanNotRepayed,
        },
{
}

/// The operations follow the table: whatever else they are handed, each is
/// refused unless the deposit is in the one state in which the table
/// accepts it. (A refusal leaves every record as it was: each operation
/// says so of itself.)
pub proof fn lemma_operations_follow_the_table(
    program_id: Address,
    deposit_id: Address,
    amount: u64,
    withdrawing: AccountsWithdrawNFT,
    borrowing: AccountsBorrow,
    repaying: AccountsRepay,
    liquidating: AccountsLiquidate,
    collecting: AccountsWithdrawLockedAsset,
)
    ensures
        !(withdrawing.deposit_account.data.state is PendingLoan) ==> withdraw_nft_failure(
            program_id,
            withdrawing,
            deposit_id,
        ) is Some,
        !(borrowing.deposit_account.data.state is PendingLoan) ==> borrow_failure(
            program_id,
            borrowing,
            amount,
        ) is Some,
        !(repaying.deposit_account.data.state is LoanActive) ==> repay_failure(repaying) is Some,
        !(liquidating.deposit_account.data.state is LoanActive) ==> liquidate_failure(liquidating)
            is Some,
        !(collecting.deposit_account.data.state is LoanRepayed) ==> withdraw_locked_asset_failure(
            collecting,
        ) is Some,
{
}

/// An account that was created with room for a deposit exists.
pub proof fn lemma_created_account_exists(account: AccountInfo)
    requires
        account.data@.len() == NFTDeposit::account_size_spec(),
    ensures
        account.allocated(),
{
}

/// A deposit is made once. Where `deposit_nft` accepted a deposit, a second
/// request for the same collateral mint, borrower and identifier, with the
/// pool's accounts in order, is refused with `LoanAlreadyExist` as long as
/// the account of the first exists, whatever the record in it says by then.
pub proof fn lemma_redeposit_refused(
    program_id: Address,
    first: AccountsDepositNFT,
    second: AccountsDepositNFT,
    deposit_id: Address,
)
    requires
        deposit_nft_failure(program_id, first, deposit_id) is None,
        second.nft_mint.key == first.nft_mint.key,
        second.borrower_wallet_account == first.borrower_wallet_account,
        second.deposit_account.key == first.deposit_account.key,
        second.deposit_account.allocated(),
        second.liz_mint.key@ == second.pool.data.liz_mint@,
        second.pool_liz_account.mint@ == second.pool.data.liz_mint@,
        second.nft_mint.decimals == 0,
    ensures
        deposit_nft_failure(program_id, second, deposit_id) == Some(
            ProtocolError::Liqz(liqzError::LoanAlreadyExist),
        ),
{
}

/// A share of at most the whole is at most the amount it is taken of:
/// `amount * rate / 10000 <= amount` for a rate of no more than 10000 basis
/// points.
pub proof fn lemma_share_within_amount(amount: int, rate: int)
    requires
        0 <= amount,
        0 <= rate <= BASIS_POINTS,
    ensures
        0 <= amount * rate / (BASIS_POINTS as int) <= amount,
{
    assert(0 <= amount * rate <= amount * 10000) by (nonlinear_arith)
        requires
            0 <= amount,
            0 <= rate <= 10000,
    ;
}

/// With a service fee of no more than the whole, the fee is never more
/// than the interest it is taken of.
pub proof fn lemma_fee_within_interest(interest: int, fee_rate: int)
    requires
        0 <= interest,
        0 <= fee_rate <= BASIS_POINTS,
    ensures
        0 <= fee_of(interest, fee_rate) <= interest,
{
    lemma_share_within_amount(interest, fee_rate);
}

/// With a mortgage rate of no more than the whole, no more is lent than
/// the bid pays.
pub proof fn lemma_mortgage_within_principal(total_amount: u64, mortgage_rate: u64)
    requires
        mortgage_rate <= BASIS_POINTS,
    ensures
        0 <= borrowed_amount_of(total_amount, mortgage_rate) <= total_amount,
{
    lemma_share_within_amount(total_amount as int, mortgage_rate as int);
}

/// On a repayment the borrower pays, in fee and repayment together, what
/// the lender paid in and the whole interest; the lender gets back at least
/// what was paid in.
pub proof fn lemma_repayment_is_principal_and_interest(accounts: AccountsRepay)
    requires
        repay_failure(accounts) is None,
    ensures
        accounts.deposit_account.data.state matches DepositState::LoanActive(loan) && ({
            let duration = elapsed(accounts.clock.unix_timestamp, loan.started_at);
            let pool = accounts.pool.data;
            &&& pool.fee_spec(loan.borrowed_amount, duration) + repayed_amount_of(accounts, loan)
                == loan.total_amount + pool.interest_spec(loan.borrowed_amount, duration)
            &&& loan.total_amount <= repayed_amount_of(accounts, loan) <= u64::MAX
            &&& 0 <= lender_income_of(accounts, loan)
        }),
{
}

/// On a liquidation the pool pays out, in fee and rest together, exactly
/// what it kept of the lender's payment when the loan was drawn.
pub proof fn lemma_liquidation_pays_out_what_was_kept(accounts: AccountsLiquidate)
    requires
        liquidate_failure(accounts) is None,
    ensures
        accounts.deposit_account.data.state matches DepositState::LoanActive(loan) && ({
            &&& liquidation_fee_of(accounts, loan) + withdrawable_of(accounts, loan)
                == loan.total_amount - loan.borrowed_amount
            &&& 0 <= withdrawable_of(accounts, loan) <= loan.total_amount
            &&& 0 <= liquidation_fee_of(accounts, loan) <= u64::MAX
        }),
{
    let loan = accounts.deposit_account.data.state->LoanActive_0;
    let pool = accounts.pool.data;
    let interest = pool.interest_spec(loan.borrowed_amount, pool.max_loan_duration);
    assert(0 <= loan.borrowed_amount * pool.interest_rate * pool.max_loan_duration)
        by (nonlinear_arith)
        requires
            0 <= pool.max_loan_duration,
    ;
    assert(0 <= interest * pool.service_fee_rate) by (nonlinear_arith)
        requires
            0 <= interest,
    ;
}

} // verus!
