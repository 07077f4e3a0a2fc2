use liqz::liqzError;
use liqz::Address;
use liqz::DepositState;
use liqz::LoanActiveState;
use liqz::LoanRepayedState;
use liqz::NFTDeposit;

fn key(n: u8) -> Address {
    Address::new([n; 32])
}

fn active() -> LoanActiveState {
    LoanActiveState {
        total_amount: 1000,
        borrowed_amount: 900,
        started_at: 50,
        expired_at: 150,
        lender: key(7),
    }
}

fn repayed() -> LoanRepayedState {
    LoanRepayedState { tai_required_to_unlock: 900, lender_withdrawable: 1010, lender: key(7) }
}

fn all_states() -> Vec<DepositState> {
    vec![
        DepositState::PendingLoan,
        DepositState::LoanActive(active()),
        DepositState::LoanRepayed(repayed()),
        DepositState::Withdrawn,
        DepositState::LoanLiquidated,
        DepositState::LoanCleared,
    ]
}

fn deposit(state: DepositState) -> NFTDeposit {
    NFTDeposit { deposit_id: key(9), state }
}

#[test]
fn fresh_deposit_waits_for_a_loan() {
    let d = NFTDeposit::new(key(9));
    assert_eq!(d.deposit_id, key(9));
    assert_eq!(d.state, DepositState::PendingLoan);
}

#[test]
fn withdraw_in_every_state() {
    for state in all_states() {
        let mut d = deposit(state);
        let r = d.withdraw();
        match state {
            DepositState::PendingLoan => {
                assert_eq!(r, Ok(()));
                assert_eq!(d, deposit(DepositState::Withdrawn));
            }
            DepositState::Withdrawn | DepositState::LoanRepayed(_) | DepositState::LoanCleared => {
                assert_eq!(r, Err(liqzError::NFTAlreadyWithdrawn));
                assert_eq!(d, deposit(state));
            }
            DepositState::LoanActive(_) | DepositState::LoanLiquidated => {
                assert_eq!(r, Err(liqzError::NFTLocked));
                assert_eq!(d, deposit(state));
            }
        }
    }
}

#[test]
fn start_borrow_in_every_state() {
    for state in all_states() {
        let mut d = deposit(state);
        let r = d.start_borrow(key(7), 1000, 900, 50, 100);
        match state {
            DepositState::PendingLoan => {
                assert_eq!(r, Ok(()));
                assert_eq!(d, deposit(DepositState::LoanActive(active())));
            }
            _ => {
                assert_eq!(r, Err(liqzError::BorrowAlreadyStarted));
                assert_eq!(d, deposit(state));
            }
        }
    }
}

#[test]
fn repay_in_every_state() {
    for state in all_states() {
        let mut d = deposit(state);
        let r = d.repay(1010);
        match state {
            DepositState::LoanActive(_) => {
                assert_eq!(r, Ok(()));
                assert_eq!(d, deposit(DepositState::LoanRepayed(repayed())));
            }
            _ => {
                assert_eq!(r, Err(liqzError::LoanNotActive));
                assert_eq!(d, deposit(state));
            }
        }
    }
}

#[test]
fn liquidate_in_every_state() {
    for state in all_states() {
        let mut d = deposit(state);
        let r = d.liquidate();
        match state {
            DepositState::LoanActive(_) => {
                assert_eq!(r, Ok(()));
                assert_eq!(d, deposit(DepositState::LoanLiquidated));
            }
            _ => {
                assert_eq!(r, Err(liqzError::LoanNotActive));
                assert_eq!(d, deposit(state));
            }
        }
    }
}

#[test]
fn clear_in_every_state() {
    for state in all_states() {
        let mut d = deposit(state);
        let r = d.clear();
        match state {
            DepositState::LoanRepayed(_) => {
                assert_eq!(r, Ok(()));
                assert_eq!(d, deposit(DepositState::LoanCleared));
            }
            _ => {
                assert_eq!(r, Err(liqzError::LoanNotRepayed));
                assert_eq!(d, deposit(state));
            }
        }
    }
}

#[test]
fn active_state_in_every_state() {
    for state in all_states() {
        let d = deposit(state);
        match state {
            DepositState::LoanActive(loan) => assert_eq!(d.get_active_state(), Ok(loan)),
            _ => assert_eq!(d.get_active_state(), Err(liqzError::LoanNotActive)),
        }
    }
}

#[test]
fn repayed_state_in_every_state() {
    for state in all_states() {
        let d = deposit(state);
        match state {
            DepositState::LoanRepayed(owed) => assert_eq!(d.get_repayed_state(), Ok(owed)),
            DepositState::LoanActive(_) => {
                assert_eq!(d.get_repayed_state(), Err(liqzError::LoanNotRepayed))
            }
            _ => assert_eq!(d.get_repayed_state(), Err(liqzError::LoanNotActive)),
        }
    }
}

#[test]
fn final_states_accept_nothing() {
    for state in [DepositState::Withdrawn, DepositState::LoanLiquidated, DepositState::LoanCleared] {
        let mut d = deposit(state);
        assert!(d.withdraw().is_err());
        assert!(d.start_borrow(key(7), 10, 9, 0, 1).is_err());
        assert!(d.repay(1).is_err());
        assert!(d.liquidate().is_err());
        assert!(d.clear().is_err());
        assert_eq!(d, deposit(state));
    }
}

#[test]
fn repay_keeps_lender_and_asks_for_what_was_lent() {
    let mut d = deposit(DepositState::LoanActive(active()));
    assert_eq!(d.repay(12345), Ok(()));
    assert_eq!(
        d.state,
        DepositState::LoanRepayed(LoanRepayedState {
            tai_required_to_unlock: 900,
            lender_withdrawable: 12345,
            lender: key(7),
        })
    );
}

#[test]
fn deposit_account_is_sized_for_the_running_loan() {
    assert_eq!(NFTDeposit::account_size(), 105);
}
