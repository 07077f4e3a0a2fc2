//! The operations of the protocol.
//!
//! Each one is handed the accounts it works on as plain values. It checks
//! every address it is about to trust and every rule of the protocol, and
//! only then changes the records and answers with what the host has to do.
//! Where it refuses, it says why, and the records are as they were.

use crate::accounts::AccountsBorrow;
use crate::accounts::AccountsCancelBid;
use crate::accounts::AccountsChangeLoanSetting;
use crate::accounts::AccountsDepositNFT;
use crate::accounts::AccountsInitialize;
use crate::accounts::AccountsLiquidate;
use crate::accounts::AccountsPlaceBid;
use crate::accounts::AccountsRepay;
use crate::accounts::AccountsWithdrawLockedAsset;
use crate::accounts::AccountsWithdrawNFT;
use crate::accounts::ProgramAccount;
use crate::address::Address;
use crate::error::liqzError;
use crate::error::ProtocolError;
use crate::events::Event;
use crate::events::EventBorrowed;
use crate::events::EventInitialized;
use crate::events::EventLiquidated;
use crate::events::EventLoanSettingChanged;
use crate::events::EventNFTBidCancelled;
use crate::events::EventNFTBidPlaced;
use crate::events::EventNFTDeposited;
use crate::events::EventNFTWithdrawn;
use crate::events::EventRepayed;
use crate::events::EventWithDrawLockedAsset;
use crate::ledger::Action;
use crate::ledger::Receipt;
use crate::ledger::Record;
use crate::nft_bid::NFTBid;
use crate::nft_deposit::DepositOp;
use crate::nft_deposit::DepositState;
use crate::nft_deposit::LoanActiveState;
use crate::nft_deposit::LoanRepayedState;
use crate::nft_deposit::NFTDeposit;
use crate::nft_pool::NFTPool;
use crate::nft_pool::BASIS_POINTS;
use vstd::prelude::*;

verus! {

/// A transfer that the owner of the tokens signs for.
pub open spec fn wallet_transfer(
    from: Address,
    to: Address,
    authority: Address,
    amount: u64,
) -> Action {
    Action::Transfer { from, to, authority, amount, pool_bump: None }
}

/// A transfer that the pool signs for.
pub open spec fn pool_transfer(
    pool: ProgramAccount<NFTPool>,
    from: Address,
    to: Address,
    amount: u64,
) -> Action {
    Action::Transfer { from, to, authority: pool.key, amount, pool_bump: Some(pool.data.bump_seed) }
}

fn signed_by_wallet(from: &Address, to: &Address, authority: &Address, amount: u64) -> (r: Action)
    ensures
        r == wallet_transfer(*from, *to, *authority, amount),
{
    Action::Transfer { from: *from, to: *to, authority: *authority, amount, pool_bump: None }
}

fn signed_by_pool(pool: &ProgramAccount<NFTPool>, from: &Address, to: &Address, amount: u64) -> (r:
    Action)
    ensures
        r == pool_transfer(*pool, *from, *to, amount),
{
    Action::Transfer {
        from: *from,
        to: *to,
        authority: pool.key,
        amount,
        pool_bump: Some(pool.data.bump_seed),
    }
}

/// The request for the pool's token account for `mint`.
pub open spec fn pool_token_account(
    accounts: AccountsInitialize,
    mint: Address,
    token_account: Address,
) -> Action {
    Action::CreateAssociatedTokenAccount {
        wallet: accounts.pool,
        funder: accounts.pool_owner,
        mint,
        token_account,
    }
}

/// What `initialize` asks of the host once the pool's record is made: create
/// and store the record, then create the pool's three token accounts.
pub open spec fn initialize_actions(accounts: AccountsInitialize, creation: Seq<Action>) -> Seq<
    Action,
> {
    creation + seq![
        pool_token_account(accounts, accounts.liz_mint.key, accounts.pool_liz_account),
        pool_token_account(accounts, accounts.tai_mint.key, accounts.pool_tai_account),
        pool_token_account(accounts, accounts.dai_mint.key, accounts.pool_dai_account),
    ]
}

/// Sets the pool up: its record at its derived address, owned by
/// `pool_owner`, with the default terms, and its token accounts for the
/// reward, credit and currency mints. Refused with
/// `ContractAddressNotCorrect` where `accounts.pool` is not the pool's
/// derived address.
pub fn initialize(program_id: &Address, accounts: &AccountsInitialize) -> (r: Result<
    Receipt,
    ProtocolError,
>)
    ensures
        match r {
            Ok(receipt) => NFTPool::created(
                *program_id,
                accounts.pool,
                accounts.pool_owner,
                accounts.liz_mint,
                accounts.tai_mint,
                accounts.dai_mint,
            ) matches Ok((_, creation)) && receipt.actions@ == initialize_actions(
                *accounts,
                creation,
            ) && receipt.event == Some(
                Event::Initialized(EventInitialized { account: accounts.pool }),
            ),
            Err(e) => NFTPool::created(
                *program_id,
                accounts.pool,
                accounts.pool_owner,
                accounts.liz_mint,
                accounts.tai_mint,
                accounts.dai_mint,
            ) == Err::<(NFTPool, Seq<Action>), ProtocolError>(e),
        },
{
    let (_, mut actions) = match NFTPool::new_checked(
        program_id,
        &accounts.pool,
        &accounts.pool_owner,
        &accounts.liz_mint,
        &accounts.tai_mint,
        &accounts.dai_mint,
    ) {
        Ok(made) => made,
        Err(e) => {
            return Err(e);
        },
    };
    let ghost creation = actions@;
    actions.push(
        Action::CreateAssociatedTokenAccount {
            wallet: accounts.pool,
            funder: accounts.pool_owner,
            mint: accounts.liz_mint.key,
            token_account: accounts.pool_liz_account,
        },
    );
    actions.push(
        Action::CreateAssociatedTokenAccount {
            wallet: accounts.pool,
            funder: accounts.pool_owner,
            mint: accounts.tai_mint.key,
            token_account: accounts.pool_tai_account,
        },
    );
    actions.push(
        Action::CreateAssociatedTokenAccount {
            wallet: accounts.pool,
            funder: accounts.pool_owner,
            mint: accounts.dai_mint.key,
            token_account: accounts.pool_dai_account,
        },
    );
    assert(actions@ =~= initialize_actions(*accounts, creation));
    Ok(
        Receipt {
            actions,
            event: Some(Event::Initialized(EventInitialized { account: accounts.pool })),
        },
    )
}

impl NFTPool {
    /// The pool with the terms that are given replaced and the others kept.
    pub open spec fn with_settings(
        self,
        incentive: Option<u64>,
        interest_rate: Option<u64>,
        service_fee_rate: Option<u64>,
        max_loan_duration: Option<i64>,
        mortgage_rate: Option<u64>,
    ) -> NFTPool {
        NFTPool {
            incentive: match incentive {
                Some(v) => v,
                None => self.incentive,
            },
            interest_rate: match interest_rate {
                Some(v) => v,
                None => self.interest_rate,
            },
            service_fee_rate: match service_fee_rate {
                Some(v) => v,
                None => self.service_fee_rate,
            },
            max_loan_duration: match max_loan_duration {
                Some(v) => v,
                None => self.max_loan_duration,
            },
            mortgage_rate: match mortgage_rate {
                Some(v) => v,
                None => self.mortgage_rate,
            },
            ..self
        }
    }

    /// The terms of the pool as an event reports them.
    pub open spec fn settings(self) -> EventLoanSettingChanged {
        EventLoanSettingChanged {
            incentive: self.incentive,
            interest_rate: self.interest_rate,
            service_fee_rate: self.service_fee_rate,
            max_loan_duration: self.max_loan_duration,
            mortgage_rate: self.mortgage_rate,
        }
    }
}

/// Changes the terms of the pool on the word of its owner. A term that is
/// given replaces the one in force; one that is not given stays. Anyone but
/// the owner is refused with `NotAuthorized`.
pub fn change_loan_settings(
    accounts: &mut AccountsChangeLoanSetting,
    incentive: Option<u64>,
    interest_rate: Option<u64>,
    service_fee_rate: Option<u64>,
    max_loan_duration: Option<i64>,
    mortgage_rate: Option<u64>,
) -> (r: Result<Receipt, ProtocolError>)
    ensures
        match r {
            Ok(receipt) => old(accounts).owner@ == old(accounts).pool.data.owner@
                && final(accounts).owner == old(accounts).owner && final(accounts).pool.key
                == old(accounts).pool.key && final(accounts).pool.data
                == old(accounts).pool.data.with_settings(
                incentive,
                interest_rate,
                service_fee_rate,
                max_loan_duration,
                mortgage_rate,
            ) && receipt.actions@ == Seq::<Action>::empty() && receipt.event == Some(
                Event::LoanSettingChanged(final(accounts).pool.data.settings()),
            ),
            Err(e) => e == ProtocolError::Liqz(liqzError::NotAuthorized) && old(accounts).owner@
                != old(accounts).pool.data.owner@ && *final(accounts) == *old(accounts),
        },
{
    if accounts.owner != accounts.pool.data.owner {
        return Err(ProtocolError::Liqz(liqzError::NotAuthorized));
    }
    match incentive {
        Some(v) => {
            accounts.pool.data.incentive = v;
        },
        None => {},
    }
    match interest_rate {
        Some(v) => {
            accounts.pool.data.interest_rate = v;
        },
        None => {},
    }
    match service_fee_rate {
        Some(v) => {
            accounts.pool.data.service_fee_rate = v;
        },
        None => {},
    }
    match max_loan_duration {
        Some(v) => {
            accounts.pool.data.max_loan_duration = v;
        },
        None => {},
    }
    match mortgage_rate {
        Some(v) => {
            accounts.pool.data.mortgage_rate = v;
        },
        None => {},
    }
    let pool = accounts.pool.data;
    Ok(
        Receipt {
            actions: Vec::new(),
            event: Some(
                Event::LoanSettingChanged(
                    EventLoanSettingChanged {
                        incentive: pool.incentive,
                        interest_rate: pool.interest_rate,
                        service_fee_rate: pool.service_fee_rate,
                        max_loan_duration: pool.max_loan_duration,
                        mortgage_rate: pool.mortgage_rate,
                    },
                ),
            ),
        },
    )
}

/// Why `deposit_nft` refuses, if it does. In this order: the reward mint or
/// the pool's reward account is not of the pool's reward mint
/// (`MintMismatch`); the collateral's mint has decimals
/// (`FractionalCollateral`); whatever `NFTDeposit::deposit` refuses with.
pub open spec fn deposit_nft_failure(
    program_id: Address,
    accounts: AccountsDepositNFT,
    deposit_id: Address,
) -> Option<ProtocolError> {
    if accounts.liz_mint.key@ != accounts.pool.data.liz_mint@ {
        Some(ProtocolError::MintMismatch)
    } else if accounts.pool_liz_account.mint@ != accounts.pool.data.liz_mint@ {
        Some(ProtocolError::MintMismatch)
    } else if accounts.nft_mint.decimals != 0 {
        Some(ProtocolError::FractionalCollateral)
    } else {
        match NFTDeposit::deposited(
            program_id,
            deposit_id,
            accounts.nft_mint.key,
            accounts.borrower_wallet_account,
            accounts.deposit_account,
        ) {
            Err(e) => Some(e),
            Ok(_) => None,
        }
    }
}

/// What `deposit_nft` asks of the host, given the actions that open the
/// record: make sure the pool can hold the collateral and the depositor the
/// reward, open the record, move the collateral into the pool and pay the
/// reward out of it.
pub open spec fn deposit_nft_actions(accounts: AccountsDepositNFT, creation: Seq<Action>) -> Seq<
    Action,
> {
    NFTPool::token_account_ensured(
        accounts.pool.key,
        accounts.borrower_wallet_account,
        accounts.nft_mint.key,
        accounts.pool_nft_account,
    ) + NFTPool::token_account_ensured(
        accounts.borrower_wallet_account,
        accounts.borrower_wallet_account,
        accounts.liz_mint.key,
        accounts.borrower_liz_account,
    ) + creation + seq![
        wallet_transfer(
            accounts.borrower_nft_account.key,
            accounts.pool_nft_account.key,
            accounts.borrower_wallet_account,
            1,
        ),
        pool_transfer(
            accounts.pool,
            accounts.pool_liz_account.key,
            accounts.borrower_liz_account.key,
            accounts.pool.data.incentive,
        ),
    ]
}

/// Takes a collateral into the pool: opens the record of the deposit at its
/// derived address, in the state `PendingLoan`, moves the collateral from
/// the depositor to the pool and pays the depositor the pool's reward. A
/// deposit whose record exists already is refused with `LoanAlreadyExist`.
pub fn deposit_nft(program_id: &Address, accounts: &AccountsDepositNFT, deposit_id: Address) -> (r:
    Result<Receipt, ProtocolError>)
    ensures
        match r {
            Ok(receipt) => {
                &&& deposit_nft_failure(*program_id, *accounts, deposit_id) is None
                &&& NFTDeposit::deposited(
                    *program_id,
                    deposit_id,
                    accounts.nft_mint.key,
                    accounts.borrower_wallet_account,
                    accounts.deposit_account,
                ) matches Ok((_, creation))
                &&& receipt.actions@ == deposit_nft_actions(*accounts, creation)
                &&& receipt.event == Some(
                    Event::NFTDeposited(
                        EventNFTDeposited {
                            mint: accounts.nft_mint.key,
                            from: accounts.borrower_wallet_account,
                        },
                    ),
                )
            },
            Err(e) => deposit_nft_failure(*program_id, *accounts, deposit_id) == Some(e),
        },
{
    if accounts.liz_mint.key != accounts.pool.data.liz_mint {
        return Err(ProtocolError::MintMismatch);
    }
    if accounts.pool_liz_account.mint != accounts.pool.data.liz_mint {
        return Err(ProtocolError::MintMismatch);
    }
    if accounts.nft_mint.decimals != 0 {
        return Err(ProtocolError::FractionalCollateral);
    }
    let mut actions = NFTPool::ensure_pool_token_account(
        &accounts.pool,
        &accounts.nft_mint,
        &accounts.pool_nft_account,
        &accounts.borrower_wallet_account,
    );
    let mut for_reward = NFTPool::ensure_user_token_account(
        &accounts.borrower_wallet_account,
        &accounts.liz_mint,
        &accounts.borrower_liz_account,
    );
    actions.append(&mut for_reward);
    let (_, mut creation) = match NFTDeposit::deposit(
        program_id,
        &deposit_id,
        &accounts.nft_mint.key,
        &accounts.borrower_wallet_account,
        &accounts.deposit_account,
    ) {
        Ok(made) => made,
        Err(e) => {
            return Err(e);
        },
    };
    let ghost opened = creation@;
    actions.append(&mut creation);
    actions.push(
        signed_by_wallet(
            &accounts.borrower_nft_account.key,
            &accounts.pool_nft_account.key,
            &accounts.borrower_wallet_account,
            1,
        ),
    );
    actions.push(
        signed_by_pool(
            &accounts.pool,
            &accounts.pool_liz_account.key,
            &accounts.borrower_liz_account.key,
            accounts.pool.data.incentive,
        ),
    );
    assert(actions@ =~= deposit_nft_actions(*accounts, opened));
    Ok(
        Receipt {
            actions,
            event: Some(
                Event::NFTDeposited(
                    EventNFTDeposited {
                        mint: accounts.nft_mint.key,
                        from: accounts.borrower_wallet_account,
                    },
                ),
            ),
        },
    )
}

/// Why `withdraw_nft` refuses, if it does: the deposit's account is not at
/// the address that the collateral's mint, the borrower and `deposit_id`
/// derive; or the deposit is in no state to be withdrawn.
pub open spec fn withdraw_nft_failure(
    program_id: Address,
    accounts: AccountsWithdrawNFT,
    deposit_id: Address,
) -> Option<ProtocolError> {
    match NFTDeposit::located(
        program_id@,
        accounts.nft_mint.key@,
        accounts.borrower_wallet_account@,
        deposit_id@,
        accounts.deposit_account.key@,
    ) {
        Err(e) => Some(e),
        Ok(_) => match accounts.deposit_account.data.state.step(DepositOp::Withdraw) {
            Err(e) => Some(ProtocolError::Liqz(e)),
            Ok(_) => None,
        },
    }
}

/// The accounts as `withdraw_nft` leaves them: the deposit is `Withdrawn`.
pub open spec fn withdraw_nft_outcome(accounts: AccountsWithdrawNFT) -> AccountsWithdrawNFT {
    AccountsWithdrawNFT {
        deposit_account: ProgramAccount {
            data: NFTDeposit {
                state: DepositState::Withdrawn,
                ..accounts.deposit_account.data
            },
            ..accounts.deposit_account
        },
        ..accounts
    }
}

/// What `withdraw_nft` asks of the host: the collateral from the pool to the
/// borrower.
pub open spec fn withdraw_nft_actions(accounts: AccountsWithdrawNFT) -> Seq<Action> {
    seq![
        pool_transfer(
            accounts.pool,
            accounts.pool_nft_account.key,
            accounts.borrower_nft_account.key,
            1,
        ),
    ]
}

/// Hands a collateral back to its depositor where no loan was drawn against
/// it: the deposit goes from `PendingLoan` to `Withdrawn`, and the pool moves
/// the collateral to the borrower. Refused with `NFTLocked` while a loan runs
/// or after it was liquidated, and with `NFTAlreadyWithdrawn` where the
/// collateral has left already.
pub fn withdraw_nft(
    program_id: &Address,
    accounts: &mut AccountsWithdrawNFT,
    deposit_id: Address,
) -> (r: Result<Receipt, ProtocolError>)
    ensures
        match r {
            Ok(receipt) => {
                &&& withdraw_nft_failure(*program_id, *old(accounts), deposit_id) is None
                &&& *final(accounts) == withdraw_nft_outcome(*old(accounts))
                &&& receipt.actions@ == withdraw_nft_actions(*old(accounts))
                &&& receipt.event == Some(
                    Event::NFTWithdrawn(
                        EventNFTWithdrawn {
                            mint: old(accounts).nft_mint.key,
                            to: old(accounts).borrower_wallet_account,
                        },
                    ),
                )
            },
            Err(e) => {
                &&& withdraw_nft_failure(*program_id, *old(accounts), deposit_id) == Some(e)
                &&& *final(accounts) == *old(accounts)
            },
        },
{
    match NFTDeposit::locate(
        program_id,
        &accounts.nft_mint.key,
        &accounts.borrower_wallet_account,
        &deposit_id,
        &accounts.deposit_account.key,
    ) {
        Ok(_) => {},
        Err(e) => {
            return Err(e);
        },
    }
    let mut deposit = accounts.deposit_account.data;
    match deposit.withdraw() {
        Ok(()) => {},
        Err(e) => {
            return Err(ProtocolError::Liqz(e));
        },
    }
    accounts.deposit_account.data = deposit;
    let mut actions: Vec<Action> = Vec::new();
    actions.push(
        signed_by_pool(
            &accounts.pool,
            &accounts.pool_nft_account.key,
            &accounts.borrower_nft_account.key,
            1,
        ),
    );
    assert(actions@ =~= withdraw_nft_actions(*old(accounts)));
    Ok(
        Receipt {
            actions,
            event: Some(
                Event::NFTWithdrawn(
                    EventNFTWithdrawn {
                        mint: accounts.nft_mint.key,
                        to: accounts.borrower_wallet_account,
                    },
                ),
            ),
        },
    )
}

/// Why `place_bid` refuses a bid with quantity, if it does. In this order:
/// more units than the collateral's mint has issued
/// (`NFTBidQtyLargerThanSupply`); a mint with decimals
/// (`FractionalCollateral`); an allowance `price * qty` beyond 64 bits
/// (`ArithmeticOverflow`); whatever `NFTBid::ensure` refuses with.
pub open spec fn place_bid_failure(
    program_id: Address,
    accounts: AccountsPlaceBid,
    price: u64,
    qty: u64,
) -> Option<ProtocolError> {
    if qty > accounts.nft_mint.supply {
        Some(ProtocolError::Liqz(liqzError::NFTBidQtyLargerThanSupply))
    } else if accounts.nft_mint.decimals != 0 {
        Some(ProtocolError::FractionalCollateral)
    } else if price * qty > u64::MAX {
        Some(ProtocolError::ArithmeticOverflow)
    } else {
        match NFTBid::ensured(
            program_id,
            accounts.nft_mint.key,
            accounts.lender_wallet_account,
            accounts.bid_account,
        ) {
            Err(e) => Some(e),
            Ok(_) => None,
        }
    }
}

/// What `place_bid` asks of the host, given the actions that bring the bid's
/// record into being: let the pool spend `price * qty` of the lender's
/// currency, make sure the record is there, and store the new offer in it.
pub open spec fn place_bid_actions(
    accounts: AccountsPlaceBid,
    price: u64,
    qty: u64,
    ensured: Seq<Action>,
) -> Seq<Action> {
    seq![
        Action::Approve {
            to: accounts.lender_dai_account.key,
            delegate: accounts.pool.key,
            authority: accounts.lender_wallet_account,
            amount: (price * qty) as u64,
        },
    ] + ensured + seq![
        Action::WriteRecord {
            account: accounts.bid_account.key,
            record: Record::Bid(NFTBid { price, qty }),
        },
    ]
}

/// Places the lender's offer on a collateral mint: up to `price` for each of
/// `qty` units. The pool is allowed to spend `price * qty` of the lender's
/// currency, nothing is moved yet, and the offer replaces whatever the
/// lender offered before. An offer of no units changes nothing and asks for
/// nothing.
pub fn place_bid(program_id: &Address, accounts: &AccountsPlaceBid, price: u64, qty: u64) -> (r:
    Result<Receipt, ProtocolError>)
    ensures
        qty == 0 ==> (r matches Ok(receipt) && receipt.actions@ == Seq::<Action>::empty()
            && receipt.event is None),
        qty != 0 ==> match r {
            Ok(receipt) => {
                &&& place_bid_failure(*program_id, *accounts, price, qty) is None
                &&& NFTBid::ensured(
                    *program_id,
                    accounts.nft_mint.key,
                    accounts.lender_wallet_account,
                    accounts.bid_account,
                ) matches Ok((_, ensured))
                &&& receipt.actions@ == place_bid_actions(*accounts, price, qty, ensured)
                &&& receipt.event == Some(
                    Event::NFTBidPlaced(
                        EventNFTBidPlaced {
                            mint: accounts.nft_mint.key,
                            from: accounts.lender_wallet_account,
                            price,
                            qty,
                        },
                    ),
                )
            },
            Err(e) => place_bid_failure(*program_id, *accounts, price, qty) == Some(e),
        },
{
    if qty == 0 {
        return Ok(Receipt { actions: Vec::new(), event: None });
    }
    if qty > accounts.nft_mint.supply {
        return Err(ProtocolError::Liqz(liqzError::NFTBidQtyLargerThanSupply));
    }
    if accounts.nft_mint.decimals != 0 {
        return Err(ProtocolError::FractionalCollateral);
    }
    let allowance: u64 = match price.checked_mul(qty) {
        Some(v) => v,
        None => {
            return Err(ProtocolError::ArithmeticOverflow);
        },
    };
    let mut actions: Vec<Action> = Vec::new();
    actions.push(
        Action::Approve {
            to: accounts.lender_dai_account.key,
            delegate: accounts.pool.key,
            authority: accounts.lender_wallet_account,
            amount: allowance,
        },
    );
    let (mut bid, mut ensured) = match NFTBid::ensure(
        program_id,
        &accounts.nft_mint.key,
        &accounts.lender_wallet_account,
        &accounts.bid_account,
    ) {
        Ok(found) => found,
        Err(e) => {
            return Err(e);
        },
    };
    let ghost made = ensured@;
    actions.append(&mut ensured);
    bid.set(price, qty);
    actions.push(
        Action::WriteRecord { account: accounts.bid_account.key, record: Record::Bid(bid) },
    );
    assert(actions@ =~= place_bid_actions(*accounts, price, qty, made));
    Ok(
        Receipt {
            actions,
            event: Some(
                Event::NFTBidPlaced(
                    EventNFTBidPlaced {
                        mint: accounts.nft_mint.key,
                        from: accounts.lender_wallet_account,
                        price,
                        qty,
                    },
                ),
            ),
        },
    )
}

/// Why `cancel_bid` refuses, if it does: the collateral's mint has decimals
/// (`FractionalCollateral`), or the bid's account is not at the address that
/// the mint and the lender derive.
pub open spec fn cancel_bid_failure(program_id: Address, accounts: AccountsCancelBid) -> Option<
    ProtocolError,
> {
    if accounts.nft_mint.decimals != 0 {
        Some(ProtocolError::FractionalCollateral)
    } else {
        match NFTBid::located(
            program_id@,
            accounts.nft_mint.key@,
            accounts.lender_wallet_account@,
            accounts.bid_account.key@,
        ) {
            Err(e) => Some(e),
            Ok(_) => None,
        }
    }
}

/// What `cancel_bid` asks of the host: to take the pool's allowance back
/// where `revoke` is set, and nothing else.
pub open spec fn cancel_bid_actions(accounts: AccountsCancelBid, revoke: bool) -> Seq<Action> {
    if revoke {
        seq![
            Action::Revoke {
                source: accounts.lender_dai_account.key,
                owner: accounts.lender_wallet_account,
            },
        ]
    } else {
        Seq::<Action>::empty()
    }
}

/// The accounts as `cancel_bid` leaves them: the bid is empty.
pub open spec fn cancel_bid_outcome(accounts: AccountsCancelBid) -> AccountsCancelBid {
    AccountsCancelBid {
        bid_account: ProgramAccount { data: NFTBid::empty(), ..accounts.bid_account },
        ..accounts
    }
}

/// Withdraws the lender's offer: the bid is left without quantity and
/// price, and where `revoke` is set the pool loses its allowance over the
/// lender's currency. The event reports the offer as it stood.
pub fn cancel_bid(program_id: &Address, accounts: &mut AccountsCancelBid, revoke: bool) -> (r:
    Result<Receipt, ProtocolError>)
    ensures
        match r {
            Ok(receipt) => {
                &&& cancel_bid_failure(*program_id, *old(accounts)) is None
                &&& *final(accounts) == cancel_bid_outcome(*old(accounts))
                &&& receipt.actions@ == cancel_bid_actions(*old(accounts), revoke)
                &&& receipt.event == Some(
                    Event::NFTBidCancelled(
                        EventNFTBidCancelled {
                            mint: old(accounts).nft_mint.key,
                            from: old(accounts).lender_wallet_account,
                            price: old(accounts).bid_account.data.price,
                            qty: old(accounts).bid_account.data.qty,
                        },
                    ),
                )
            },
            Err(e) => {
                &&& cancel_bid_failure(*program_id, *old(accounts)) == Some(e)
                &&& *final(accounts) == *old(accounts)
            },
        },
{
    if accounts.nft_mint.decimals != 0 {
        return Err(ProtocolError::FractionalCollateral);
    }
    match NFTBid::locate(
        program_id,
        &accounts.nft_mint.key,
        &accounts.lender_wallet_account,
        &accounts.bid_account.key,
    ) {
        Ok(_) => {},
        Err(e) => {
            return Err(e);
        },
    }
    let event = Event::NFTBidCancelled(
        EventNFTBidCancelled {
            mint: accounts.nft_mint.key,
            from: accounts.lender_wallet_account,
            price: accounts.bid_account.data.price,
            qty: accounts.bid_account.data.qty,
        },
    );
    let mut bid = accounts.bid_account.data;
    bid.cancel();
    accounts.bid_account.data = bid;
    let mut actions: Vec<Action> = Vec::new();
    if revoke {
        actions.push(
            Action::Revoke {
                source: accounts.lender_dai_account.key,
                owner: accounts.lender_wallet_account,
            },
        );
    }
    assert(actions@ =~= cancel_bid_actions(*old(accounts), revoke));
    Ok(Receipt { actions, event: Some(event) })
}

/// What is lent out of a bid of `total_amount` at `mortgage_rate` basis
/// points, rounded down.
pub open spec fn borrowed_amount_of(total_amount: u64, mortgage_rate: u64) -> int {
    total_amount * mortgage_rate / (BASIS_POINTS as int)
}

/// Why `borrow` refuses, if it does. In this order: more is asked than the
/// bid offers (`NFTBorrowExceedBidAmount`); a token account is not of the
/// pool's credit or currency mint (`MintMismatch`); the deposit's account is
/// not at the address that the collateral's mint, the borrower and the
/// deposit's identifier derive; the bid's account is not at the address that
/// the mint and the lender derive; `amount * mortgage_rate` is beyond 64 bits
/// (`ArithmeticOverflow`); nothing would be lent (`BorrowedAmountTooSmall`);
/// the deposit does not wait for a loan (`BorrowAlreadyStarted`); more
/// would be lent than the bid pays (`MortgageExceedsPrincipal`); the end of
/// the loan is beyond the clock's range (`ArithmeticOverflow`); the bid has
/// no unit left (`NFTOvertrade`).
pub open spec fn borrow_failure(program_id: Address, accounts: AccountsBorrow, amount: u64) -> Option<
    ProtocolError,
> {
    let pool = accounts.pool.data;
    let deposit = accounts.deposit_account.data;
    if amount > accounts.bid_account.data.price {
        Some(ProtocolError::Liqz(liqzError::NFTBorrowExceedBidAmount))
    } else if accounts.lender_tai_account.mint@ != pool.tai_mint@
        || accounts.pool_tai_account.mint@ != pool.tai_mint@
        || accounts.lender_dai_account.mint@ != pool.dai_mint@
        || accounts.borrower_dai_account.mint@ != pool.dai_mint@ {
        Some(ProtocolError::MintMismatch)
    } else {
        match NFTDeposit::located(
            program_id@,
            accounts.nft_mint.key@,
            accounts.borrower_wallet_account@,
            deposit.deposit_id@,
            accounts.deposit_account.key@,
        ) {
            Err(e) => Some(e),
            Ok(_) => if let Err(e) = NFTBid::located(
                program_id@,
                accounts.nft_mint.key@,
                accounts.lender_wallet_account@,
                accounts.bid_account.key@,
            ) {
                Some(e)
            } else if amount * pool.mortgage_rate > u64::MAX {
                Some(ProtocolError::ArithmeticOverflow)
            } else if borrowed_amount_of(amount, pool.mortgage_rate) == 0 {
                Some(ProtocolError::Liqz(liqzError::BorrowedAmountTooSmall))
            } else if !(deposit.state is PendingLoan) {
                Some(ProtocolError::Liqz(liqzError::BorrowAlreadyStarted))
            } else if borrowed_amount_of(amount, pool.mortgage_rate) > amount {
                Some(ProtocolError::MortgageExceedsPrincipal)
            } else if accounts.clock.unix_timestamp + pool.max_loan_duration > i64::MAX
                || accounts.clock.unix_timestamp + pool.max_loan_duration < i64::MIN {
                Some(ProtocolError::ArithmeticOverflow)
            } else if accounts.bid_account.data.qty == 0 {
                Some(ProtocolError::Liqz(liqzError::NFTOvertrade))
            } else {
                None
            },
        }
    }
}

/// The loan that `borrow` starts.
pub open spec fn borrow_terms(accounts: AccountsBorrow, amount: u64) -> LoanActiveState {
    LoanActiveState {
        total_amount: amount,
        borrowed_amount: borrowed_amount_of(amount, accounts.pool.data.mortgage_rate) as u64,
        started_at: accounts.clock.unix_timestamp,
        expired_at: (accounts.clock.unix_timestamp + accounts.pool.data.max_loan_duration) as i64,
        lender: accounts.lender_wallet_account,
    }
}

/// What `borrow` asks of the host: the lender's `amount` into the pool, the
/// lent share of it on to the borrower, and as many credit tokens from the
/// pool to the lender. The pool signs for all three.
pub open spec fn borrow_actions(accounts: AccountsBorrow, amount: u64) -> Seq<Action> {
    let borrowed = borrow_terms(accounts, amount).borrowed_amount;
    seq![
        pool_transfer(
            accounts.pool,
            accounts.lender_dai_account.key,
            accounts.pool_dai_account.key,
            amount,
        ),
        pool_transfer(
            accounts.pool,
            accounts.pool_dai_account.key,
            accounts.borrower_dai_account.key,
            borrowed,
        ),
        pool_transfer(
            accounts.pool,
            accounts.pool_tai_account.key,
            accounts.lender_tai_account.key,
            borrowed,
        ),
    ]
}

/// The accounts as `borrow` leaves them: the loan runs, and the bid has one
/// unit less.
pub open spec fn borrow_outcome(accounts: AccountsBorrow, amount: u64) -> AccountsBorrow {
    AccountsBorrow {
        deposit_account: ProgramAccount {
            data: NFTDeposit {
                state: DepositState::LoanActive(borrow_terms(accounts, amount)),
                ..accounts.deposit_account.data
            },
            ..accounts.deposit_account
        },
        bid_account: ProgramAccount {
            data: accounts.bid_account.data.traded(1)->Ok_0,
            ..accounts.bid_account
        },
        ..accounts
    }
}

/// Draws a loan against a deposited collateral, funded by the lender's bid.
/// The lender pays `amount`, of which the pool lends on the share that the
/// mortgage rate sets, rounded down; the loan starts now and can be repaid
/// until the pool's longest duration has passed; the bid loses one unit, and
/// its price with the last. Loan and bid change together or not at all.
pub fn borrow(program_id: &Address, accounts: &mut AccountsBorrow, amount: u64) -> (r: Result<
    Receipt,
    ProtocolError,
>)
    ensures
        match r {
            Ok(receipt) => {
                &&& borrow_failure(*program_id, *old(accounts), amount) is None
                &&& *final(accounts) == borrow_outcome(*old(accounts), amount)
                &&& receipt.actions@ == borrow_actions(*old(accounts), amount)
                &&& receipt.event == Some(
                    Event::Borrowed(
                        EventBorrowed {
                            borrower: old(accounts).borrower_wallet_account,
                            lender: old(accounts).lender_wallet_account,
                            amount: borrow_terms(*old(accounts), amount).borrowed_amount,
                            length: old(accounts).pool.data.max_loan_duration,
                        },
                    ),
                )
            },
            Err(e) => {
                &&& borrow_failure(*program_id, *old(accounts), amount) == Some(e)
                &&& *final(accounts) == *old(accounts)
            },
        },
        r is Ok ==> final(accounts).deposit_account.data.wf(),
        r is Ok ==> final(accounts).bid_account.data.wf(),
{
    let pool = accounts.pool.data;
    if amount > accounts.bid_account.data.price {
        return Err(ProtocolError::Liqz(liqzError::NFTBorrowExceedBidAmount));
    }
    if accounts.lender_tai_account.mint != pool.tai_mint || accounts.pool_tai_account.mint
        != pool.tai_mint || accounts.lender_dai_account.mint != pool.dai_mint
        || accounts.borrower_dai_account.mint != pool.dai_mint {
        return Err(ProtocolError::MintMismatch);
    }
    match NFTDeposit::locate(
        program_id,
        &accounts.nft_mint.key,
        &accounts.borrower_wallet_account,
        &accounts.deposit_account.data.deposit_id,
        &accounts.deposit_account.key,
    ) {
        Ok(_) => {},
        Err(e) => {
            return Err(e);
        },
    }
    match NFTBid::locate(
        program_id,
        &accounts.nft_mint.key,
        &accounts.lender_wallet_account,
        &accounts.bid_account.key,
    ) {
        Ok(_) => {},
        Err(e) => {
            return Err(e);
        },
    }
    let total_amount: u64 = amount;
    let borrowed_amount: u64 = match total_amount.checked_mul(pool.mortgage_rate) {
        Some(v) => v / BASIS_POINTS,
        None => {
            return Err(ProtocolError::ArithmeticOverflow);
        },
    };
    if borrowed_amount == 0 {
        return Err(ProtocolError::Liqz(liqzError::BorrowedAmountTooSmall));
    }
    match accounts.deposit_account.data.state {
        DepositState::PendingLoan => {},
        _ => {
            return Err(ProtocolError::Liqz(liqzError::BorrowAlreadyStarted));
        },
    }
    if borrowed_amount > total_amount {
        return Err(ProtocolError::MortgageExceedsPrincipal);
    }
    let now: i64 = accounts.clock.unix_timestamp;
    if now.checked_add(pool.max_loan_duration).is_none() {
        return Err(ProtocolError::ArithmeticOverflow);
    }
    let mut deposit = accounts.deposit_account.data;
    let mut bid = accounts.bid_account.data;
    match deposit.start_borrow(
        accounts.lender_wallet_account,
        total_amount,
        borrowed_amount,
        now,
        pool.max_loan_duration,
    ) {
        Ok(()) => {},
        Err(e) => {
            return Err(ProtocolError::Liqz(e));
        },
    }
    match bid.trade(1) {
        Ok(()) => {},
        Err(e) => {
            return Err(ProtocolError::Liqz(e));
        },
    }
    accounts.deposit_account.data = deposit;
    accounts.bid_account.data = bid;
    let mut actions: Vec<Action> = Vec::new();
    actions.push(
        signed_by_pool(
            &accounts.pool,
            &accounts.lender_dai_account.key,
            &accounts.pool_dai_account.key,
            total_amount,
        ),
    );
    actions.push(
        signed_by_pool(
            &accounts.pool,
            &accounts.pool_dai_account.key,
            &accounts.borrower_dai_account.key,
            borrowed_amount,
        ),
    );
    actions.push(
        signed_by_pool(
            &accounts.pool,
            &accounts.pool_tai_account.key,
            &accounts.lender_tai_account.key,
            borrowed_amount,
        ),
    );
    assert(actions@ =~= borrow_actions(*old(accounts), amount));
    Ok(
        Receipt {
            actions,
            event: Some(
                Event::Borrowed(
                    EventBorrowed {
                        borrower: accounts.borrower_wallet_account,
                        lender: accounts.lender_wallet_account,
                        amount: borrowed_amount,
                        length: pool.max_loan_duration,
                    },
                ),
            ),
        },
    )
}

/// Seconds from `started_at` to `now`, kept within the clock's range.
pub open spec fn elapsed(now: i64, started_at: i64) -> i64 {
    if now - started_at > i64::MAX {
        i64::MAX
    } else if now - started_at < i64::MIN {
        i64::MIN
    } else {
        (now - started_at) as i64
    }
}

fn elapsed_seconds(now: i64, started_at: i64) -> (r: i64)
    ensures
        r == elapsed(now, started_at),
{
    match now.checked_sub(started_at) {
        Some(v) => v,
        None => if started_at < 0 {
            i64::MAX
        } else {
            i64::MIN
        },
    }
}

/// What the lender earns on a repayment: the interest less the pool's fee.
pub open spec fn lender_income_of(accounts: AccountsRepay, loan: LoanActiveState) -> int {
    let duration = elapsed(accounts.clock.unix_timestamp, loan.started_at);
    accounts.pool.data.interest_spec(loan.borrowed_amount, duration)
        - accounts.pool.data.fee_spec(loan.borrowed_amount, duration)
}

/// What the borrower pays the lender: what the lender paid in, and the
/// lender's income.
pub open spec fn repayed_amount_of(accounts: AccountsRepay, loan: LoanActiveState) -> int {
    loan.total_amount + lender_income_of(accounts, loan)
}

/// Why `repay` refuses, if it does. In this order: no loan runs
/// (`LoanNotActive`); the loan has run out (`LoanLiquidated`); the fee
/// account does not belong to the pool's owner (`FeeAccountMismatch`);
/// interest or fee cannot be computed in 64 bits, the fee is more than the
/// interest, or the repayment is beyond 64 bits (`ArithmeticOverflow`).
pub open spec fn repay_failure(accounts: AccountsRepay) -> Option<ProtocolError> {
    match accounts.deposit_account.data.state.active() {
        Err(e) => Some(ProtocolError::Liqz(e)),
        Ok(loan) => {
            let duration = elapsed(accounts.clock.unix_timestamp, loan.started_at);
            if accounts.clock.unix_timestamp > loan.expired_at {
                Some(ProtocolError::Liqz(liqzError::LoanLiquidated))
            } else if accounts.pool_owner_dai_account.owner@ != accounts.pool.data.owner@ {
                Some(ProtocolError::FeeAccountMismatch)
            } else if !accounts.pool.data.interest_computable(loan.borrowed_amount, duration) {
                Some(ProtocolError::ArithmeticOverflow)
            } else if lender_income_of(accounts, loan) < 0 {
                Some(ProtocolError::ArithmeticOverflow)
            } else if repayed_amount_of(accounts, loan) > u64::MAX {
                Some(ProtocolError::ArithmeticOverflow)
            } else {
                None
            }
        },
    }
}

/// What `repay` asks of the host: the fee from the borrower to the pool's
/// owner, the repayment from the borrower to the lender, and the collateral
/// from the pool back to the borrower.
pub open spec fn repay_actions(accounts: AccountsRepay, loan: LoanActiveState) -> Seq<Action> {
    let duration = elapsed(accounts.clock.unix_timestamp, loan.started_at);
    seq![
        wallet_transfer(
            accounts.borrower_dai_account.key,
            accounts.pool_owner_dai_account.key,
            accounts.borrower_wallet_account,
            accounts.pool.data.fee_spec(loan.borrowed_amount, duration) as u64,
        ),
        wallet_transfer(
            accounts.borrower_dai_account.key,
            accounts.lender_dai_account.key,
            accounts.borrower_wallet_account,
            repayed_amount_of(accounts, loan) as u64,
        ),
        pool_transfer(
            accounts.pool,
            accounts.pool_nft_account.key,
            accounts.borrower_nft_account.key,
            1,
        ),
    ]
}

/// What `repay` leaves in the record: the lender can collect the repayment
/// once the credit tokens that were lent out with the loan come back.
pub open spec fn repay_state(accounts: AccountsRepay, loan: LoanActiveState) -> DepositState {
    DepositState::LoanRepayed(
        LoanRepayedState {
            tai_required_to_unlock: loan.borrowed_amount,
            lender_withdrawable: repayed_amount_of(accounts, loan) as u64,
            lender: loan.lender,
        },
    )
}

/// The accounts as `repay` leaves them.
pub open spec fn repay_outcome(accounts: AccountsRepay, loan: LoanActiveState) -> AccountsRepay {
    AccountsRepay {
        deposit_account: ProgramAccount {
            data: NFTDeposit {
                state: repay_state(accounts, loan),
                ..accounts.deposit_account.data
            },
            ..accounts.deposit_account
        },
        ..accounts
    }
}

/// The event that records a repayment.
pub open spec fn repay_event(accounts: AccountsRepay, loan: LoanActiveState) -> Event {
    let duration = elapsed(accounts.clock.unix_timestamp, loan.started_at);
    Event::Repayed(
        EventRepayed {
            borrower: accounts.borrower_wallet_account,
            lender: loan.lender,
            amount: repayed_amount_of(accounts, loan) as u64,
            fee: accounts.pool.data.fee_spec(loan.borrowed_amount, duration) as u64,
            lender_income: lender_income_of(accounts, loan) as u64,
        },
    )
}

/// Repays the running loan, no later than at its last second. The borrower
/// pays the pool's fee to the pool's owner and, to the lender, what the
/// lender paid in plus the interest less the fee; the collateral goes back to
/// the borrower. Interest accrues on what was lent, for the seconds since
/// the loan started.
pub fn repay(accounts: &mut AccountsRepay) -> (r: Result<Receipt, ProtocolError>)
    ensures
        match r {
            Ok(receipt) => {
                &&& repay_failure(*old(accounts)) is None
                &&& old(accounts).deposit_account.data.state matches DepositState::LoanActive(loan)
                &&& *final(accounts) == repay_outcome(*old(accounts), loan)
                &&& receipt.actions@ == repay_actions(*old(accounts), loan)
                &&& receipt.event == Some(repay_event(*old(accounts), loan))
            },
            Err(e) => {
                &&& repay_failure(*old(accounts)) == Some(e)
                &&& *final(accounts) == *old(accounts)
            },
        },
{
    let loan = match accounts.deposit_account.data.get_active_state() {
        Ok(loan) => loan,
        Err(e) => {
            return Err(ProtocolError::Liqz(e));
        },
    };
    let now: i64 = accounts.clock.unix_timestamp;
    if now > loan.expired_at {
        return Err(ProtocolError::Liqz(liqzError::LoanLiquidated));
    }
    if accounts.pool_owner_dai_account.owner != accounts.pool.data.owner {
        return Err(ProtocolError::FeeAccountMismatch);
    }
    let (interest, fee) = match accounts.pool.data.calculate_interest_and_fee(
        loan.borrowed_amount,
        elapsed_seconds(now, loan.started_at),
    ) {
        Ok(pair) => pair,
        Err(e) => {
            return Err(e);
        },
    };
    let lender_income: u64 = match interest.checked_sub(fee) {
        Some(v) => v,
        None => {
            return Err(ProtocolError::ArithmeticOverflow);
        },
    };
    let repayed_amount: u64 = match loan.total_amount.checked_add(lender_income) {
        Some(v) => v,
        None => {
            return Err(ProtocolError::ArithmeticOverflow);
        },
    };
    let mut deposit = accounts.deposit_account.data;
    match deposit.repay(repayed_amount) {
        Ok(()) => {},
        Err(e) => {
            return Err(ProtocolError::Liqz(e));
        },
    }
    accounts.deposit_account.data = deposit;
    let mut actions: Vec<Action> = Vec::new();
    actions.push(
        signed_by_wallet(
            &accounts.borrower_dai_account.key,
            &accounts.pool_owner_dai_account.key,
            &accounts.borrower_wallet_account,
            fee,
        ),
    );
    actions.push(
        signed_by_wallet(
            &accounts.borrower_dai_account.key,
            &accounts.lender_dai_account.key,
            &accounts.borrower_wallet_account,
            repayed_amount,
        ),
    );
    actions.push(
        signed_by_pool(
            &accounts.pool,
            &accounts.pool_nft_account.key,
            &accounts.borrower_nft_account.key,
            1,
        ),
    );
    assert(actions@ =~= repay_actions(*old(accounts), loan));
    Ok(
        Receipt {
            actions,
            event: Some(
                Event::Repayed(
                    EventRepayed {
                        borrower: accounts.borrower_wallet_account,
                        lender: loan.lender,
                        amount: repayed_amount,
                        fee,
                        lender_income,
                    },
                ),
            ),
        },
    )
}

/// The fee on a liquidation: the pool's fee on the interest of the longest
/// duration a loan may run, however long this one ran.
pub open spec fn liquidation_fee_of(accounts: AccountsLiquidate, loan: LoanActiveState) -> int {
    accounts.pool.data.fee_spec(loan.borrowed_amount, accounts.pool.data.max_loan_duration)
}

/// What the lender gets back in currency on a liquidation: what was paid
/// in, less what was lent out and the fee.
pub open spec fn withdrawable_of(accounts: AccountsLiquidate, loan: LoanActiveState) -> int {
    loan.total_amount - loan.borrowed_amount - liquidation_fee_of(accounts, loan)
}

/// Why `liquidate` refuses, if it does. In this order: no loan runs
/// (`LoanNotActive`); the loan has not run out (`LoanNotExpired`); the fee
/// cannot be computed in 64 bits, or what was lent and the fee are more than
/// was paid in (`ArithmeticOverflow`).
pub open spec fn liquidate_failure(accounts: AccountsLiquidate) -> Option<ProtocolError> {
    match accounts.deposit_account.data.state.active() {
        Err(e) => Some(ProtocolError::Liqz(e)),
        Ok(loan) => if accounts.clock.unix_timestamp <= loan.expired_at {
            Some(ProtocolError::Liqz(liqzError::LoanNotExpired))
        } else if !accounts.pool.data.interest_computable(
            loan.borrowed_amount,
            accounts.pool.data.max_loan_duration,
        ) {
            Some(ProtocolError::ArithmeticOverflow)
        } else if withdrawable_of(accounts, loan) < 0 {
            Some(ProtocolError::ArithmeticOverflow)
        } else {
            None
        },
    }
}

/// What `liquidate` asks of the host: the credit tokens that were lent out
/// from the lender back to the pool; the fee from the pool to its owner; the
/// rest of what the lender paid in from the pool to the lender; the lender's
/// token account for the collateral, where there is none; and the
/// collateral from the pool to the lender.
pub open spec fn liquidate_actions(accounts: AccountsLiquidate, loan: LoanActiveState) -> Seq<
    Action,
> {
    seq![
        wallet_transfer(
            accounts.lender_tai_account.key,
            accounts.pool_tai_account.key,
            accounts.lender_wallet_account,
            loan.borrowed_amount,
        ),
        pool_transfer(
            accounts.pool,
            accounts.pool_dai_account.key,
            accounts.pool_owner_dai_account.key,
            liquidation_fee_of(accounts, loan) as u64,
        ),
        pool_transfer(
            accounts.pool,
            accounts.pool_dai_account.key,
            accounts.lender_dai_account.key,
            withdrawable_of(accounts, loan) as u64,
        ),
    ] + NFTPool::token_account_ensured(
        accounts.lender_wallet_account,
        accounts.lender_wallet_account,
        accounts.nft_mint.key,
        accounts.lender_nft_account,
    ) + seq![
        pool_transfer(
            accounts.pool,
            accounts.pool_nft_account.key,
            accounts.lender_nft_account.key,
            1,
        ),
    ]
}

/// The accounts as `liquidate` leaves them: the deposit is `LoanLiquidated`.
pub open spec fn liquidate_outcome(accounts: AccountsLiquidate) -> AccountsLiquidate {
    AccountsLiquidate {
        deposit_account: ProgramAccount {
            data: NFTDeposit {
                state: DepositState::LoanLiquidated,
                ..accounts.deposit_account.data
            },
            ..accounts.deposit_account
        },
        ..accounts
    }
}

/// Liquidates a loan that has run out: the lender hands the credit tokens
/// back and takes the collateral, together with what was paid in less what
/// was lent and the pool's fee. The fee is that of the longest duration a
/// loan may run.
pub fn liquidate(accounts: &mut AccountsLiquidate) -> (r: Result<Receipt, ProtocolError>)
    ensures
        match r {
            Ok(receipt) => {
                &&& liquidate_failure(*old(accounts)) is None
                &&& old(accounts).deposit_account.data.state matches DepositState::LoanActive(loan)
                &&& *final(accounts) == liquidate_outcome(*old(accounts))
                &&& receipt.actions@ == liquidate_actions(*old(accounts), loan)
                &&& receipt.event == Some(
                    Event::Liquidated(
                        EventLiquidated {
                            lender: old(accounts).lender_wallet_account,
                            loan_id: old(accounts).deposit_account.data.deposit_id,
                            withdrawable: withdrawable_of(*old(accounts), loan) as u64,
                        },
                    ),
                )
            },
            Err(e) => {
                &&& liquidate_failure(*old(accounts)) == Some(e)
                &&& *final(accounts) == *old(accounts)
            },
        },
{
    let loan = match accounts.deposit_account.data.get_active_state() {
        Ok(loan) => loan,
        Err(e) => {
            return Err(ProtocolError::Liqz(e));
        },
    };
    if accounts.clock.unix_timestamp <= loan.expired_at {
        return Err(ProtocolError::Liqz(liqzError::LoanNotExpired));
    }
    let (_, fee) = match accounts.pool.data.calculate_interest_and_fee(
        loan.borrowed_amount,
        accounts.pool.data.max_loan_duration,
    ) {
        Ok(pair) => pair,
        Err(e) => {
            return Err(e);
        },
    };
    let withdrawable: u64 = match loan.total_amount.checked_sub(loan.borrowed_amount) {
        Some(rest) => match rest.checked_sub(fee) {
            Some(v) => v,
            None => {
                return Err(ProtocolError::ArithmeticOverflow);
            },
        },
        None => {
            return Err(ProtocolError::ArithmeticOverflow);
        },
    };
    let mut deposit = accounts.deposit_account.data;
    match deposit.liquidate() {
        Ok(()) => {},
        Err(e) => {
            return Err(ProtocolError::Liqz(e));
        },
    }
    let mut actions: Vec<Action> = Vec::new();
    actions.push(
        signed_by_wallet(
            &accounts.lender_tai_account.key,
            &accounts.pool_tai_account.key,
            &accounts.lender_wallet_account,
            loan.borrowed_amount,
        ),
    );
    actions.push(
        signed_by_pool(
            &accounts.pool,
            &accounts.pool_dai_account.key,
            &accounts.pool_owner_dai_account.key,
            fee,
        ),
    );
    actions.push(
        signed_by_pool(
            &accounts.pool,
            &accounts.pool_dai_account.key,
            &accounts.lender_dai_account.key,
            withdrawable,
        ),
    );
    let mut for_collateral = NFTPool::ensure_user_token_account(
        &accounts.lender_wallet_account,
        &accounts.nft_mint,
        &accounts.lender_nft_account,
    );
    actions.append(&mut for_collateral);
    actions.push(
        signed_by_pool(
            &accounts.pool,
            &accounts.pool_nft_account.key,
            &accounts.lender_nft_account.key,
            1,
        ),
    );
    assert(actions@ =~= liquidate_actions(*old(accounts), loan));
    let event = Event::Liquidated(
        EventLiquidated {
            lender: accounts.lender_wallet_account,
            loan_id: accounts.deposit_account.data.deposit_id,
            withdrawable,
        },
    );
    accounts.deposit_account.data = deposit;
    Ok(Receipt { actions, event: Some(event) })
}

/// What `withdraw_locked_asset` asks of the host: the credit tokens from
/// the lender back to the pool, and the repayment from the pool to the
/// lender.
pub open spec fn withdraw_locked_asset_actions(
    accounts: AccountsWithdrawLockedAsset,
    owed: LoanRepayedState,
) -> Seq<Action> {
    seq![
        wallet_transfer(
            accounts.lender_tai_account.key,
            accounts.pool_tai_account.key,
            accounts.lender_wallet_account,
            owed.tai_required_to_unlock,
        ),
        pool_transfer(
            accounts.pool,
            accounts.pool_dai_account.key,
            accounts.lender_dai_account.key,
            owed.lender_withdrawable,
        ),
    ]
}

/// Why `withdraw_locked_asset` refuses, if it does: the loan still runs
/// (`LoanNotRepayed`), or the deposit is in another state than `LoanRepayed`
/// (`LoanNotActive`).
pub open spec fn withdraw_locked_asset_failure(accounts: AccountsWithdrawLockedAsset) -> Option<
    ProtocolError,
> {
    match accounts.deposit_account.data.state.repayed() {
        Err(e) => Some(ProtocolError::Liqz(e)),
        Ok(_) => None,
    }
}

/// The accounts as `withdraw_locked_asset` leaves them: the deposit is
/// `LoanCleared`.
pub open spec fn withdraw_locked_asset_outcome(
    accounts: AccountsWithdrawLockedAsset,
) -> AccountsWithdrawLockedAsset {
    AccountsWithdrawLockedAsset {
        deposit_account: ProgramAccount {
            data: NFTDeposit {
                state: DepositState::LoanCleared,
                ..accounts.deposit_account.data
            },
            ..accounts.deposit_account
        },
        ..accounts
    }
}

/// Lets the lender collect what a repaid loan owes: the lender hands the
/// credit tokens back and the pool pays the repayment out. The deposit is
/// then `LoanCleared`. Refused with `LoanNotRepayed` while the loan still
/// runs, and with `LoanNotActive` in every other state but `LoanRepayed`.
pub fn withdraw_locked_asset(accounts: &mut AccountsWithdrawLockedAsset) -> (r: Result<
    Receipt,
    ProtocolError,
>)
    ensures
        match r {
            Ok(receipt) => {
                &&& withdraw_locked_asset_failure(*old(accounts)) is None
                &&& old(accounts).deposit_account.data.state matches DepositState::LoanRepayed(owed)
                &&& *final(accounts) == withdraw_locked_asset_outcome(*old(accounts))
                &&& receipt.actions@ == withdraw_locked_asset_actions(*old(accounts), owed)
                &&& receipt.event == Some(
                    Event::WithDrawLockedAsset(
                        EventWithDrawLockedAsset {
                            lender: old(accounts).lender_wallet_account,
                            amount: owed.lender_withdrawable,
                        },
                    ),
                )
            },
            Err(e) => {
                &&& withdraw_locked_asset_failure(*old(accounts)) == Some(e)
                &&& *final(accounts) == *old(accounts)
            },
        },
{
    let owed = match accounts.deposit_account.data.get_repayed_state() {
        Ok(owed) => owed,
        Err(e) => {
            return Err(ProtocolError::Liqz(e));
        },
    };
    let mut deposit = accounts.deposit_account.data;
    match deposit.clear() {
        Ok(()) => {},
        Err(e) => {
            return Err(ProtocolError::Liqz(e));
        },
    }
    accounts.deposit_account.data = deposit;
    let mut actions: Vec<Action> = Vec::new();
    actions.push(
        signed_by_wallet(
            &accounts.lender_tai_account.key,
            &accounts.pool_tai_account.key,
            &accounts.lender_wallet_account,
            owed.tai_required_to_unlock,
        ),
    );
    actions.push(
        signed_by_pool(
            &accounts.pool,
            &accounts.pool_dai_account.key,
            &accounts.lender_dai_account.key,
            owed.lender_withdrawable,
        ),
    );
    assert(actions@ =~= withdraw_locked_asset_actions(*old(accounts), owed));
    Ok(
        Receipt {
            actions,
            event: Some(
                Event::WithDrawLockedAsset(
                    EventWithDrawLockedAsset {
                        lender: accounts.lender_wallet_account,
                        amount: owed.lender_withdrawable,
                    },
                ),
            ),
        },
    )
}

} // verus!
