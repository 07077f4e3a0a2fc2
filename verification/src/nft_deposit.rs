//! One deposited collateral and the loan drawn against it.

use crate::accounts::AccountInfo;
use crate::address::derived_address;
use crate::address::found_address;
use crate::address::lemma_bump_admissible;
use crate::address::locate_derived_address;
use crate::address::located_address;
use crate::address::seeds_admissible;
use crate::address::seeds_view;
use crate::address::try_find_program_address;
use crate::address::verify_derived_address;
use crate::address::with_bump;
use crate::address::Address;
use crate::address::DerivedAccountIdentifier;
use crate::error::liqzError;
use crate::error::ProtocolError;
use crate::ledger::creation;
use crate::ledger::Action;
use crate::ledger::CreateAccount;
use crate::ledger::DerivedSeeds;
use crate::ledger::Record;
use crate::utils::is_account_allocated;
use vstd::prelude::*;

verus! {

/// A loan that is running.
#[derive(Clone, Copy, Debug, PartialEq, Eq)]
pub struct LoanActiveState {
    /// What the lender paid into the pool.
    pub total_amount: u64,
    /// What the borrower drew out of it.
    pub borrowed_amount: u64,
    /// Start of the loan, in seconds.
    pub started_at: i64,
    /// Last second at which the loan can be repaid.
    pub expired_at: i64,
    pub lender: Address,
}

/// A loan that the borrower has repaid and the lender has not yet collected.
#[derive(Clone, Copy, Debug, PartialEq, Eq)]
pub struct LoanRepayedState {
    /// Credit tokens that the lender hands back to collect.
    pub tai_required_to_unlock: u64,
    /// Currency that the lender collects.
    pub lender_withdrawable: u64,
    pub lender: Address,
}

/// Where a deposit stands.
#[derive(Clone, Copy, Debug, PartialEq, Eq)]
pub enum DepositState {
    /// The collateral is held; no loan yet.
    PendingLoan,
    /// A loan is running; the collateral is locked.
    LoanActive(LoanActiveState),
    /// The borrower repaid and has the collateral back.
    LoanRepayed(LoanRepayedState),
    /// Final: the collateral went back without a loan.
    Withdrawn,
    /// Final: the loan ran out and the lender took the collateral.
    LoanLiquidated,
    /// Final: the lender collected what the repaid loan owed.
    LoanCleared,
}

/// What can be asked of a deposit.
#[derive(Clone, Copy, Debug, PartialEq, Eq)]
pub enum DepositOp {
    /// Take the collateral back.
    Withdraw,
    /// Start a loan with these terms.
    Borrow(LoanActiveState),
    /// Repay the loan; the lender can then collect this much.
    Repay(u64),
    /// Take the collateral of a loan that ran out.
    Liquidate,
    /// Collect what a repaid loan owes.
    Clear,
}

impl DepositState {
    /// The transition table: the state that follows `self` under `op`, or the
    /// error with which `op` is refused in `self`.
    pub open spec fn step(self, op: DepositOp) -> Result<DepositState, liqzError> {
        match op {
            DepositOp::Withdraw => match self {
                DepositState::PendingLoan => Ok(DepositState::Withdrawn),
                DepositState::Withdrawn
                | DepositState::LoanRepayed(_)
                | DepositState::LoanCleared => Err(liqzError::NFTAlreadyWithdrawn),
                DepositState::LoanActive(_) | DepositState::LoanLiquidated => Err(
                    liqzError::NFTLocked,
                ),
            },
            DepositOp::Borrow(terms) => match self {
                DepositState::PendingLoan => Ok(DepositState::LoanActive(terms)),
                _ => Err(liqzError::BorrowAlreadyStarted),
            },
            DepositOp::Repay(lender_withdrawable) => match self {
                DepositState::LoanActive(loan) => Ok(
                    DepositState::LoanRepayed(
                        LoanRepayedState {
                            tai_required_to_unlock: loan.borrowed_amount,
                            lender_withdrawable,
                            lender: loan.lender,
                        },
                    ),
                ),
                _ => Err(liqzError::LoanNotActive),
            },
            DepositOp::Liquidate => match self {
                DepositState::LoanActive(_) => Ok(DepositState::LoanLiquidated),
                _ => Err(liqzError::LoanNotActive),
            },
            DepositOp::Clear => match self {
                DepositState::LoanRepayed(_) => Ok(DepositState::LoanCleared),
                _ => Err(liqzError::LoanNotRepayed),
            },
        }
    }

    /// A state that nothing leaves.
    pub open spec fn is_final(self) -> bool {
        self is Withdrawn || self is LoanLiquidated || self is LoanCleared
    }

    /// The states in which `op` is accepted.
    pub open spec fn accepts(self, op: DepositOp) -> bool {
        match op {
            DepositOp::Withdraw => self is PendingLoan,
            DepositOp::Borrow(_) => self is PendingLoan,
            DepositOp::Repay(_) => self is LoanActive,
            DepositOp::Liquidate => self is LoanActive,
            DepositOp::Clear => self is LoanRepayed,
        }
    }

    /// The terms of the running loan, or why there is none.
    pub open spec fn active(self) -> Result<LoanActiveState, liqzError> {
        match self {
            DepositState::LoanActive(s) => Ok(s),
            _ => Err(liqzError::LoanNotActive),
        }
    }

    /// What a repaid loan owes, or why nothing is owed.
    pub open spec fn repayed(self) -> Result<LoanRepayedState, liqzError> {
        match self {
            DepositState::LoanRepayed(r) => Ok(r),
            DepositState::LoanActive(_) => Err(liqzError::LoanNotRepayed),
            _ => Err(liqzError::LoanNotActive),
        }
    }
}

/// The record of one deposit: the identifier its depositor chose and where it
/// stands.
#[derive(Clone, Copy, Debug, PartialEq, Eq)]
pub struct NFTDeposit {
    pub deposit_id: Address,
    pub state: DepositState,
}

impl NFTDeposit {
    /// A running loan never lent more than the lender paid in.
    pub open spec fn wf(&self) -> bool {
        self.state matches DepositState::LoanActive(loan) ==> loan.borrowed_amount
            <= loan.total_amount
    }

    /// The record of a fresh deposit.
    pub fn new(deposit_id: Address) -> (r: NFTDeposit)
        ensures
            r == (NFTDeposit { deposit_id, state: DepositState::PendingLoan }),
            r.wf(),
    {
        NFTDeposit { deposit_id, state: DepositState::PendingLoan }
    }

    /// Hands the collateral back where no loan was drawn. Refused with
    /// `NFTLocked` while a loan runs or after it was liquidated, and with
    /// `NFTAlreadyWithdrawn` where the collateral has left already.
    pub fn withdraw(&mut self) -> (r: Result<(), liqzError>)
        ensures
            final(self).deposit_id == old(self).deposit_id,
            match r {
                Ok(()) => old(self).state.step(DepositOp::Withdraw) == Ok::<
                    DepositState,
                    liqzError,
                >(final(self).state),
                Err(e) => old(self).state.step(DepositOp::Withdraw) == Err::<
                    DepositState,
                    liqzError,
                >(e) && *final(self) == *old(self),
            },
            old(self).wf() ==> final(self).wf(),
    {
        match self.state {
            DepositState::PendingLoan => {
                self.state = DepositState::Withdrawn;
                Ok(())
            },
            DepositState::Withdrawn | DepositState::LoanRepayed(_) | DepositState::LoanCleared => Err(
                liqzError::NFTAlreadyWithdrawn,
            ),
            DepositState::LoanActive(_) | DepositState::LoanLiquidated => Err(liqzError::NFTLocked),
        }
    }

    /// Starts a loan of `borrowed_amount` out of the `total_amount` that
    /// `lender` pays in, from `start` for `length` seconds. Refused with
    /// `BorrowAlreadyStarted` unless the deposit waits for a loan.
    pub fn start_borrow(
        &mut self,
        lender: Address,
        total_amount: u64,
        borrowed_amount: u64,
        start: i64,
        length: i64,
    ) -> (r: Result<(), liqzError>)
        requires
            total_amount >= borrowed_amount,
            i64::MIN <= start + length <= i64::MAX,
        ensures
            final(self).deposit_id == old(self).deposit_id,
            match r {
                Ok(()) => old(self).state.step(
                    DepositOp::Borrow(
                        LoanActiveState {
                            total_amount,
                            borrowed_amount,
                            started_at: start,
                            expired_at: (start + length) as i64,
                            lender,
                        },
                    ),
                ) == Ok::<DepositState, liqzError>(final(self).state),
                Err(e) => e == liqzError::BorrowAlreadyStarted && !(old(self).state is PendingLoan)
                    && *final(self) == *old(self),
            },
            r is Ok <==> old(self).state is PendingLoan,
            r is Ok ==> final(self).wf(),
    {
        match self.state {
            DepositState::PendingLoan => {},
            _ => {
                return Err(liqzError::BorrowAlreadyStarted);
            },
        }
        self.state = DepositState::LoanActive(
            LoanActiveState {
                lender,
                total_amount,
                borrowed_amount,
                started_at: start,
                expired_at: start + length,
            },
        );
        Ok(())
    }

    /// Records that the running loan was repaid and that the lender can
    /// collect `lender_withdrawable`. Refused with `LoanNotActive` unless a
    /// loan runs.
    pub fn repay(&mut self, lender_withdrawable: u64) -> (r: Result<(), liqzError>)
        ensures
            final(self).deposit_id == old(self).deposit_id,
            match r {
                Ok(()) => old(self).state.step(DepositOp::Repay(lender_withdrawable)) == Ok::<
                    DepositState,
                    liqzError,
                >(final(self).state),
                Err(e) => old(self).state.step(DepositOp::Repay(lender_withdrawable)) == Err::<
                    DepositState,
                    liqzError,
                >(e) && *final(self) == *old(self),
            },
            r is Ok ==> final(self).wf(),
    {
        match self.state {
            DepositState::LoanActive(loan) => {
                self.state = DepositState::LoanRepayed(
                    LoanRepayedState {
                        tai_required_to_unlock: loan.borrowed_amount,
                        lender_withdrawable,
                        lender: loan.lender,
                    },
                );
                Ok(())
            },
            _ => Err(liqzError::LoanNotActive),
        }
    }

    /// Records that the running loan was liquidated. Refused with
    /// `LoanNotActive` unless a loan runs.
    pub fn liquidate(&mut self) -> (r: Result<(), liqzError>)
        ensures
            final(self).deposit_id == old(self).deposit_id,
            match r {
                Ok(()) => old(self).state.step(DepositOp::Liquidate) == Ok::<
                    DepositState,
                    liqzError,
                >(final(self).state),
                Err(e) => old(self).state.step(DepositOp::Liquidate) == Err::<
                    DepositState,
                    liqzError,
                >(e) && *final(self) == *old(self),
            },
            r is Ok ==> final(self).wf(),
    {
        match self.state {
            DepositState::LoanActive(_) => {
                self.state = DepositState::LoanLiquidated;
                Ok(())
            },
            _ => Err(liqzError::LoanNotActive),
        }
    }

    /// Records that the lender collected what the repaid loan owed. Refused
    /// with `LoanNotRepayed` unless the loan was repaid and not yet collected.
    pub fn clear(&mut self) -> (r: Result<(), liqzError>)
        ensures
            final(self).deposit_id == old(self).deposit_id,
            match r {
                Ok(()) => old(self).state.step(DepositOp::Clear) == Ok::<DepositState, liqzError>(
                    final(self).state,
                ),
                Err(e) => old(self).state.step(DepositOp::Clear) == Err::<DepositState, liqzError>(
                    e,
                ) && *final(self) == *old(self),
            },
            r is Ok ==> final(self).wf(),
    {
        match self.state {
            DepositState::LoanRepayed(_) => {
                self.state = DepositState::LoanCleared;
                Ok(())
            },
            _ => Err(liqzError::LoanNotRepayed),
        }
    }

    /// The terms of the running loan; `LoanNotActive` where none runs.
    pub fn get_active_state(&self) -> (r: Result<LoanActiveState, liqzError>)
        ensures
            r == self.state.active(),
    {
        match self.state {
            DepositState::LoanActive(s) => Ok(s),
            _ => Err(liqzError::LoanNotActive),
        }
    }

    /// What the repaid loan owes; `LoanNotRepayed` while the loan still runs,
    /// `LoanNotActive` in every other state.
    pub fn get_repayed_state(&self) -> (r: Result<LoanRepayedState, liqzError>)
        ensures
            r == self.state.repayed(),
    {
        match self.state {
            DepositState::LoanRepayed(r) => Ok(r),
            DepositState::LoanActive(_) => Err(liqzError::LoanNotRepayed),
            _ => Err(liqzError::LoanNotActive),
        }
    }
}

impl DerivedAccountIdentifier for NFTDeposit {
    /// The bytes of `liqzNFTDeposit`.
    open spec fn seed_spec() -> Seq<u8> {
        seq![
            108u8,
            105u8,
            113u8,
            122u8,
            78u8,
            70u8,
            84u8,
            68u8,
            101u8,
            112u8,
            111u8,
            115u8,
            105u8,
            116u8,
        ]
    }

    fn seed() -> (r: Vec<u8>) {
        let r: Vec<u8> = vec![
            108u8,
            105u8,
            113u8,
            122u8,
            78u8,
            70u8,
            84u8,
            68u8,
            101u8,
            112u8,
            111u8,
            115u8,
            105u8,
            116u8,
        ];
        assert(r@ =~= Self::seed_spec());
        r
    }
}

impl NFTDeposit {
    /// The seeds of the address of the deposit `deposit_id` that
    /// `borrower_wallet` made of a collateral of `nft_mint`, before the bump.
    pub open spec fn seeds_spec(
        nft_mint: Seq<u8>,
        borrower_wallet: Seq<u8>,
        deposit_id: Seq<u8>,
    ) -> Seq<Seq<u8>> {
        seq![Self::seed_spec(), nft_mint, borrower_wallet, deposit_id]
    }

    /// The address of the deposit under `program_id`, and the bump it is
    /// found with.
    pub open spec fn address_spec(
        program_id: Seq<u8>,
        nft_mint: Seq<u8>,
        borrower_wallet: Seq<u8>,
        deposit_id: Seq<u8>,
    ) -> Option<(Seq<u8>, u8)> {
        found_address(Self::seeds_spec(nft_mint, borrower_wallet, deposit_id), program_id)
    }

    /// The address that `bump` derives for the deposit.
    pub open spec fn address_with(
        program_id: Seq<u8>,
        nft_mint: Seq<u8>,
        borrower_wallet: Seq<u8>,
        deposit_id: Seq<u8>,
        bump: u8,
    ) -> Option<Seq<u8>> {
        derived_address(
            with_bump(Self::seeds_spec(nft_mint, borrower_wallet, deposit_id), bump),
            program_id,
        )
    }

    fn seeds(nft_mint: &Address, borrower_wallet: &Address, deposit_id: &Address) -> (r: Vec<
        Vec<u8>,
    >)
        ensures
            seeds_view(&r) == Self::seeds_spec(nft_mint@, borrower_wallet@, deposit_id@),
            seeds_admissible(
                with_bump(Self::seeds_spec(nft_mint@, borrower_wallet@, deposit_id@), 255),
            ),
    {
        let mut seeds: Vec<Vec<u8>> = Vec::new();
        seeds.push(Self::seed());
        seeds.push(nft_mint.to_vec());
        seeds.push(borrower_wallet.to_vec());
        seeds.push(deposit_id.to_vec());
        assert(seeds_view(&seeds) =~= Self::seeds_spec(nft_mint@, borrower_wallet@, deposit_id@));
        proof {
            let s = with_bump(Self::seeds_spec(nft_mint@, borrower_wallet@, deposit_id@), 255);
            assert(s.len() == 5);
            assert(s[0] == Self::seed_spec());
            assert(s[1] == nft_mint@);
            assert(s[2] == borrower_wallet@);
            assert(s[3] == deposit_id@);
            assert(s[4] == seq![255u8]);
        }
        seeds
    }

    /// The address of the deposit; `None` where no bump derives one.
    pub fn get_address(
        program_id: &Address,
        nft_mint: &Address,
        borrower_wallet: &Address,
        deposit_id: &Address,
    ) -> (r: Option<Address>)
        ensures
            match r {
                Some(a) => Self::address_spec(
                    program_id@,
                    nft_mint@,
                    borrower_wallet@,
                    deposit_id@,
                ) matches Some((found, _)) && found == a@,
                None => Self::address_spec(program_id@, nft_mint@, borrower_wallet@, deposit_id@)
                    is None,
            },
    {
        match Self::get_address_with_bump(program_id, nft_mint, borrower_wallet, deposit_id) {
            Some((address, _)) => Some(address),
            None => None,
        }
    }

    /// The address of the deposit and the bump it is found with; `None`
    /// where no bump derives one.
    pub fn get_address_with_bump(
        program_id: &Address,
        nft_mint: &Address,
        borrower_wallet: &Address,
        deposit_id: &Address,
    ) -> (r: Option<(Address, u8)>)
        ensures
            match r {
                Some((a, bump)) => Self::address_spec(
                    program_id@,
                    nft_mint@,
                    borrower_wallet@,
                    deposit_id@,
                ) == Some((a@, bump)),
                None => Self::address_spec(program_id@, nft_mint@, borrower_wallet@, deposit_id@)
                    is None,
            },
    {
        let seeds = Self::seeds(nft_mint, borrower_wallet, deposit_id);
        try_find_program_address(&seeds, program_id)
    }

    /// Checks that `address` is the address that `bump` derives for the
    /// deposit. A different address is refused with
    /// `NFTLoanAddressNotCorrect`; a bump that derives no address, with
    /// `InvalidSeeds`.
    pub fn verify_address(
        program_id: &Address,
        nft_mint: &Address,
        borrower_wallet: &Address,
        deposit_id: &Address,
        bump: u8,
        address: &Address,
    ) -> (r: Result<(), ProtocolError>)
        ensures
            r == (match Self::address_with(
                program_id@,
                nft_mint@,
                borrower_wallet@,
                deposit_id@,
                bump,
            ) {
                Some(a) => if a == address@ {
                    Ok(())
                } else {
                    Err(ProtocolError::Liqz(liqzError::NFTLoanAddressNotCorrect))
                },
                None => Err(ProtocolError::InvalidSeeds),
            }),
    {
        proof {
            lemma_bump_admissible(
                Self::seeds_spec(nft_mint@, borrower_wallet@, deposit_id@),
                255,
                bump,
            );
        }
        verify_derived_address(
            Self::seeds(nft_mint, borrower_wallet, deposit_id),
            program_id,
            bump,
            address,
            liqzError::NFTLoanAddressNotCorrect,
        )
    }

    /// What `locate` answers.
    pub open spec fn located(
        program_id: Seq<u8>,
        nft_mint: Seq<u8>,
        borrower_wallet: Seq<u8>,
        deposit_id: Seq<u8>,
        address: Seq<u8>,
    ) -> Result<u8, ProtocolError> {
        located_address(
            Self::seeds_spec(nft_mint, borrower_wallet, deposit_id),
            program_id,
            address,
            liqzError::NFTLoanAddressNotCorrect,
        )
    }

    /// Finds the address of the deposit and checks `address` against it.
    /// Answers with the bump of the address, with `NFTLoanAddressNotCorrect`
    /// where `address` is another, and with `AddressNotDerivable` where no
    /// bump derives an address.
    pub fn locate(
        program_id: &Address,
        nft_mint: &Address,
        borrower_wallet: &Address,
        deposit_id: &Address,
        address: &Address,
    ) -> (r: Result<u8, ProtocolError>)
        ensures
            r == Self::located(program_id@, nft_mint@, borrower_wallet@, deposit_id@, address@),
    {
        locate_derived_address(
            Self::seeds(nft_mint, borrower_wallet, deposit_id),
            program_id,
            address,
            liqzError::NFTLoanAddressNotCorrect,
        )
    }
}

impl NFTDeposit {
    /// Bytes of the account that stores a deposit.
    pub open spec fn account_size_spec() -> u64 {
        105
    }

    /// Bytes of the account that stores a deposit. The account cannot grow,
    /// so it is made for the largest state, the running loan: the kind tag,
    /// the deposit's identifier, the byte that tells the state, four integers
    /// and the lender's address.
    pub fn account_size() -> (r: u64)
        ensures
            r == Self::account_size_spec(),
            r == Self::ENCODED_LEN,
            r == 8 + 32 + 1 + 4 * 8 + 32,
    {
        105
    }

    /// What `deposit` answers: the error of the address check; or
    /// `LoanAlreadyExist` where the account exists already; or the fresh
    /// record and the actions that create and store it.
    pub open spec fn deposited(
        program_id: Address,
        deposit_id: Address,
        nft_mint: Address,
        borrower_wallet: Address,
        deposit_account: AccountInfo,
    ) -> Result<(NFTDeposit, Seq<Action>), ProtocolError> {
        match Self::located(
            program_id@,
            nft_mint@,
            borrower_wallet@,
            deposit_id@,
            deposit_account.key@,
        ) {
            Err(e) => Err(e),
            Ok(bump) => if deposit_account.allocated() {
                Err(ProtocolError::Liqz(liqzError::LoanAlreadyExist))
            } else {
                let record = NFTDeposit { deposit_id, state: DepositState::PendingLoan };
                Ok(
                    (
                        record,
                        creation(
                            program_id,
                            borrower_wallet,
                            deposit_account.key,
                            Self::account_size_spec(),
                            DerivedSeeds::Deposit {
                                mint: nft_mint,
                                wallet: borrower_wallet,
                                deposit_id,
                                bump,
                            },
                            Record::Deposit(record),
                        ),
                    ),
                )
            },
        }
    }

    /// Opens the record of the deposit `deposit_id` that `borrower_wallet`
    /// makes of a collateral of `nft_mint`. `deposit_account` must be the
    /// account at the deposit's derived address, and must not exist yet: a
    /// record is made once and never again, whatever became of it. The answer
    /// is the fresh record with the actions that create and store it, paid
    /// for by `borrower_wallet`.
    pub fn deposit(
        program_id: &Address,
        deposit_id: &Address,
        nft_mint: &Address,
        borrower_wallet: &Address,
        deposit_account: &AccountInfo,
    ) -> (r: Result<(NFTDeposit, Vec<Action>), ProtocolError>)
        ensures
            match r {
                Ok((record, actions)) => Self::deposited(
                    *program_id,
                    *deposit_id,
                    *nft_mint,
                    *borrower_wallet,
                    *deposit_account,
                ) == Ok::<(NFTDeposit, Seq<Action>), ProtocolError>((record, actions@)),
                Err(e) => Self::deposited(
                    *program_id,
                    *deposit_id,
                    *nft_mint,
                    *borrower_wallet,
                    *deposit_account,
                ) == Err::<(NFTDeposit, Seq<Action>), ProtocolError>(e),
            },
    {
        let bump: u8 = match Self::locate(
            program_id,
            nft_mint,
            borrower_wallet,
            deposit_id,
            &deposit_account.key,
        ) {
            Ok(bump) => bump,
            Err(e) => {
                return Err(e);
            },
        };
        if is_account_allocated(deposit_account) {
            return Err(ProtocolError::Liqz(liqzError::LoanAlreadyExist));
        }
        let instance = NFTDeposit::new(*deposit_id);
        let seeds = DerivedSeeds::Deposit {
            mint: *nft_mint,
            wallet: *borrower_wallet,
            deposit_id: *deposit_id,
            bump,
        };
        let mut actions: Vec<Action> = Vec::new();
        actions.push(
            Action::CreateAccount(
                CreateAccount {
                    funder: *borrower_wallet,
                    account: deposit_account.key,
                    space: Self::account_size(),
                    owner: *program_id,
                    seeds,
                },
            ),
        );
        actions.push(
            Action::WriteRecord { account: deposit_account.key, record: Record::Deposit(instance) },
        );
        assert(actions@ =~= creation(
            *program_id,
            *borrower_wallet,
            deposit_account.key,
            Self::account_size_spec(),
            seeds,
            Record::Deposit(instance),
        ));
        Ok((instance, actions))
    }
}

} // verus!
