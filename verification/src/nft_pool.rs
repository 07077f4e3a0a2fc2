//! The pool's configuration and the interest arithmetic.

use crate::accounts::AccountInfo;
use crate::accounts::Mint;
use crate::accounts::ProgramAccount;
use crate::address::derived_address;
use crate::address::found_address;
use crate::address::lemma_bump_admissible;
use crate::address::locate_derived_address;
use crate::address::located_address;
use crate::address::seeds_admissible;
use crate::address::seeds_view;
use crate::address::try_find_program_address;
use crate::address::verify_derived_address;
use crate::address::with_bump;
use crate::address::Address;
use crate::address::DerivedAccountIdentifier;
use crate::error::liqzError;
use crate::error::ProtocolError;
use crate::ledger::creation;
use crate::ledger::Action;
use crate::ledger::CreateAccount;
use crate::ledger::DerivedSeeds;
use crate::ledger::Record;
use crate::utils::is_account_allocated;
use vstd::prelude::*;

verus! {

/// Seconds in a day: the unit of time of the interest rate.
pub const SECONDS_PER_DAY: u64 = 86400;

/// The whole, in basis points.
pub const BASIS_POINTS: u64 = 10000;

/// The one record of a deployment: who owns the pool, the three mints it
/// works with, and the terms of every loan.
#[derive(Clone, Copy, Debug, PartialEq, Eq)]
pub struct NFTPool {
    /// The bump with which the pool's address was found.
    pub bump_seed: u8,
    pub owner: Address,
    /// Mint of the reward token.
    pub liz_mint: Address,
    /// Mint of the credit token.
    pub tai_mint: Address,
    /// Mint of the loan currency.
    pub dai_mint: Address,
    /// Reward paid for each deposit.
    pub incentive: u64,
    /// Seconds a loan may run before it can be liquidated.
    pub max_loan_duration: i64,
    /// Share of the interest that the pool keeps, in basis points.
    pub service_fee_rate: u64,
    /// Interest per day, in basis points.
    pub interest_rate: u64,
    /// Share of a bid that is lent out, in basis points.
    pub mortgage_rate: u64,
}

impl DerivedAccountIdentifier for NFTPool {
    /// The bytes of `liqzNFTPool`.
    open spec fn seed_spec() -> Seq<u8> {
        seq![108u8, 105u8, 113u8, 122u8, 78u8, 70u8, 84u8, 80u8, 111u8, 111u8, 108u8]
    }

    fn seed() -> (r: Vec<u8>) {
        let r: Vec<u8> = vec![108u8, 105u8, 113u8, 122u8, 78u8, 70u8, 84u8, 80u8, 111u8, 111u8, 108u8];
        assert(r@ =~= Self::seed_spec());
        r
    }
}

/// Reward tokens paid for a deposit, before scaling by the mint's decimals.
pub const DEFAULT_INCENTIVE_TOKENS: u64 = 100;

/// Seconds a loan may run by default: 30 days.
pub const DEFAULT_MAX_LOAN_DURATION: i64 = 2592000;

/// The pool's share of the interest by default: 5%.
pub const DEFAULT_SERVICE_FEE_RATE: u64 = 500;

/// Interest per day by default: 1%.
pub const DEFAULT_INTEREST_RATE: u64 = 100;

/// Share of a bid that is lent out by default: 90%.
pub const DEFAULT_MORTGAGE_RATE: u64 = 9000;

/// Ten to the power of `n`.
pub open spec fn pow10(n: nat) -> nat
    decreases n,
{
    if n == 0 {
        1
    } else {
        10 * pow10((n - 1) as nat)
    }
}

/// Powers of ten grow with the exponent.
pub proof fn lemma_pow10_monotonic(a: nat, b: nat)
    requires
        a <= b,
    ensures
        1 <= pow10(a) <= pow10(b),
    decreases b,
{
    if b == 0 {
    } else if a == b {
        lemma_pow10_monotonic(0, (b - 1) as nat);
        if a > 0 {
            lemma_pow10_monotonic((a - 1) as nat, (b - 1) as nat);
        }
    } else {
        lemma_pow10_monotonic(a, (b - 1) as nat);
    }
}

/// The default reward for a deposit, in the smallest units of a reward token
/// with `decimals` decimal places.
pub open spec fn default_incentive(decimals: u8) -> nat {
    DEFAULT_INCENTIVE_TOKENS as nat * pow10(decimals as nat)
}

/// The default reward for a deposit; `None` where it does not fit in 64
/// bits.
pub fn scaled_incentive(decimals: u8) -> (r: Option<u64>)
    ensures
        match r {
            Some(v) => v == default_incentive(decimals),
            None => default_incentive(decimals) > u64::MAX,
        },
{
    let mut value: u64 = DEFAULT_INCENTIVE_TOKENS;
    let mut i: u8 = 0;
    while i < decimals
        invariant
            i <= decimals,
            value == DEFAULT_INCENTIVE_TOKENS as nat * pow10(i as nat),
        decreases decimals - i,
    {
        proof {
            reveal_with_fuel(pow10, 2);
            assert(DEFAULT_INCENTIVE_TOKENS as nat * pow10((i + 1) as nat) == value * 10)
                by (nonlinear_arith)
                requires
                    value == DEFAULT_INCENTIVE_TOKENS as nat * pow10(i as nat),
                    pow10((i + 1) as nat) == 10 * pow10(i as nat),
            ;
        }
        value = match value.checked_mul(10) {
            Some(v) => v,
            None => {
                proof {
                    lemma_pow10_monotonic((i + 1) as nat, decimals as nat);
                    assert(DEFAULT_INCENTIVE_TOKENS as nat * pow10(decimals as nat)
                        >= DEFAULT_INCENTIVE_TOKENS as nat * pow10((i + 1) as nat))
                        by (nonlinear_arith)
                        requires
                            pow10(decimals as nat) >= pow10((i + 1) as nat),
                    ;
                }
                return None;
            },
        };
        i += 1;
    }
    Some(value)
}

/// Interest on `borrowed` at `rate` basis points a day over `duration`
/// seconds, rounded down.
pub open spec fn interest_of(borrowed: int, rate: int, duration: int) -> int {
    borrowed * rate * duration / (SECONDS_PER_DAY as int) / (BASIS_POINTS as int)
}

/// The share of `interest` that `fee_rate` basis points take, rounded down.
pub open spec fn fee_of(interest: int, fee_rate: int) -> int {
    interest * fee_rate / (BASIS_POINTS as int)
}

impl NFTPool {
    /// Whether interest and fee can be computed in 64 bits without leaving
    /// the range on the way: the duration is not negative and no product
    /// exceeds `u64::MAX`.
    pub open spec fn interest_computable(&self, borrowed_amount: u64, duration: i64) -> bool {
        &&& duration >= 0
        &&& borrowed_amount * self.interest_rate <= u64::MAX
        &&& borrowed_amount * self.interest_rate * duration <= u64::MAX
        &&& interest_of(borrowed_amount as int, self.interest_rate as int, duration as int)
            * self.service_fee_rate <= u64::MAX
    }

    /// The interest that `calculate_interest_and_fee` returns.
    pub open spec fn interest_spec(&self, borrowed_amount: u64, duration: i64) -> int {
        interest_of(borrowed_amount as int, self.interest_rate as int, duration as int)
    }

    /// The fee that `calculate_interest_and_fee` returns.
    pub open spec fn fee_spec(&self, borrowed_amount: u64, duration: i64) -> int {
        fee_of(self.interest_spec(borrowed_amount, duration), self.service_fee_rate as int)
    }

    /// Interest accrued on `borrowed_amount` over `duration` seconds, and the
    /// pool's fee on that interest. Every product is checked: where one
    /// leaves the range of `u64`, or the duration is negative, the answer is
    /// `ArithmeticOverflow`.
    pub fn calculate_interest_and_fee(&self, borrowed_amount: u64, duration: i64) -> (r: Result<
        (u64, u64),
        ProtocolError,
    >)
        ensures
            match r {
                Ok((interest, fee)) => self.interest_computable(borrowed_amount, duration)
                    && interest == self.interest_spec(borrowed_amount, duration) && fee
                    == self.fee_spec(borrowed_amount, duration),
                Err(e) => e == ProtocolError::ArithmeticOverflow && !self.interest_computable(
                    borrowed_amount,
                    duration,
                ),
            },
    {
        if duration < 0 {
            return Err(ProtocolError::ArithmeticOverflow);
        }
        let seconds: u64 = duration as u64;
        let with_rate: u64 = match borrowed_amount.checked_mul(self.interest_rate) {
            Some(v) => v,
            None => {
                return Err(ProtocolError::ArithmeticOverflow);
            },
        };
        let over_time: u64 = match with_rate.checked_mul(seconds) {
            Some(v) => v,
            None => {
                return Err(ProtocolError::ArithmeticOverflow);
            },
        };
        let interest: u64 = over_time / SECONDS_PER_DAY / BASIS_POINTS;
        let with_fee_rate: u64 = match interest.checked_mul(self.service_fee_rate) {
            Some(v) => v,
            None => {
                return Err(ProtocolError::ArithmeticOverflow);
            },
        };
        let fee: u64 = with_fee_rate / BASIS_POINTS;
        Ok((interest, fee))
    }

    /// The seeds of the pool's address, before the bump.
    pub open spec fn seeds_spec() -> Seq<Seq<u8>> {
        seq![Self::seed_spec()]
    }

    /// The pool's address under `program_id` and the bump it is found with.
    pub open spec fn address_spec(program_id: Seq<u8>) -> Option<(Seq<u8>, u8)> {
        found_address(Self::seeds_spec(), program_id)
    }

    /// The address that `bump` derives for the pool under `program_id`.
    pub open spec fn address_with(program_id: Seq<u8>, bump: u8) -> Option<Seq<u8>> {
        derived_address(with_bump(Self::seeds_spec(), bump), program_id)
    }

    fn seeds() -> (r: Vec<Vec<u8>>)
        ensures
            seeds_view(&r) == Self::seeds_spec(),
            seeds_admissible(with_bump(Self::seeds_spec(), 255)),
    {
        let mut seeds: Vec<Vec<u8>> = Vec::new();
        seeds.push(Self::seed());
        assert(seeds_view(&seeds) =~= Self::seeds_spec());
        proof {
            let s = with_bump(Self::seeds_spec(), 255);
            assert(s.len() == 2);
            assert(s[0] == Self::seed_spec());
            assert(s[1] == seq![255u8]);
        }
        seeds
    }

    /// The pool's address under `program_id`; `None` where no bump derives
    /// one.
    pub fn get_address(program_id: &Address) -> (r: Option<Address>)
        ensures
            match r {
                Some(a) => Self::address_spec(program_id@) matches Some((found, _)) && found
                    == a@,
                None => Self::address_spec(program_id@) is None,
            },
    {
        match Self::get_address_with_bump(program_id) {
            Some((address, _)) => Some(address),
            None => None,
        }
    }

    /// The pool's address under `program_id` and the bump it is found with;
    /// `None` where no bump derives one.
    pub fn get_address_with_bump(program_id: &Address) -> (r: Option<(Address, u8)>)
        ensures
            match r {
                Some((a, bump)) => Self::address_spec(program_id@) == Some((a@, bump)),
                None => Self::address_spec(program_id@) is None,
            },
    {
        let seeds = Self::seeds();
        try_find_program_address(&seeds, program_id)
    }

    /// Checks that `pool_address` is the address that `bump` derives for the
    /// pool. A different address is refused with `ContractAddressNotCorrect`;
    /// a bump that derives no address, with `InvalidSeeds`.
    pub fn verify_address(program_id: &Address, bump: u8, pool_address: &Address) -> (r: Result<
        (),
        ProtocolError,
    >)
        ensures
            r == (match Self::address_with(program_id@, bump) {
                Some(a) => if a == pool_address@ {
                    Ok(())
                } else {
                    Err(ProtocolError::Liqz(liqzError::ContractAddressNotCorrect))
                },
                None => Err(ProtocolError::InvalidSeeds),
            }),
    {
        proof {
            lemma_bump_admissible(Self::seeds_spec(), 255, bump);
        }
        verify_derived_address(
            Self::seeds(),
            program_id,
            bump,
            pool_address,
            liqzError::ContractAddressNotCorrect,
        )
    }

    /// What `locate` answers.
    pub open spec fn located(program_id: Seq<u8>, pool_address: Seq<u8>) -> Result<
        u8,
        ProtocolError,
    > {
        located_address(
            Self::seeds_spec(),
            program_id,
            pool_address,
            liqzError::ContractAddressNotCorrect,
        )
    }

    /// Finds the pool's address and checks `pool_address` against it.
    /// Answers with the bump of the address, with `ContractAddressNotCorrect`
    /// where `pool_address` is another, and with `AddressNotDerivable` where
    /// no bump derives an address.
    pub fn locate(program_id: &Address, pool_address: &Address) -> (r: Result<u8, ProtocolError>)
        ensures
            r == Self::located(program_id@, pool_address@),
    {
        locate_derived_address(
            Self::seeds(),
            program_id,
            pool_address,
            liqzError::ContractAddressNotCorrect,
        )
    }
}

impl NFTPool {
    /// Bytes of the account that stores the pool.
    pub open spec fn account_size_spec() -> u64 {
        177
    }

    /// Bytes of the account that stores the pool: the kind tag, the bump,
    /// four addresses and five integers.
    pub fn account_size() -> (r: u64)
        ensures
            r == Self::account_size_spec(),
            r == Self::ENCODED_LEN,
            r == 8 + 1 + 4 * 32 + 5 * 8,
    {
        177
    }

    /// The pool as it is set up: the given owner and mints, and the default
    /// terms.
    pub open spec fn initial(
        bump_seed: u8,
        owner: Address,
        liz_mint: Mint,
        tai_mint: Mint,
        dai_mint: Mint,
    ) -> NFTPool {
        NFTPool {
            bump_seed,
            owner,
            liz_mint: liz_mint.key,
            tai_mint: tai_mint.key,
            dai_mint: dai_mint.key,
            incentive: default_incentive(liz_mint.decimals) as u64,
            max_loan_duration: DEFAULT_MAX_LOAN_DURATION,
            service_fee_rate: DEFAULT_SERVICE_FEE_RATE,
            interest_rate: DEFAULT_INTEREST_RATE,
            mortgage_rate: DEFAULT_MORTGAGE_RATE,
        }
    }

    /// What `new_checked` answers: the error of the address check; or
    /// `ArithmeticOverflow` where the default reward does not fit in 64
    /// bits; or the pool as it is set up and the actions that create and
    /// store it.
    pub open spec fn created(
        program_id: Address,
        pool: Address,
        pool_owner: Address,
        liz_mint: Mint,
        tai_mint: Mint,
        dai_mint: Mint,
    ) -> Result<(NFTPool, Seq<Action>), ProtocolError> {
        match Self::located(program_id@, pool@) {
            Err(e) => Err(e),
            Ok(bump) => if default_incentive(liz_mint.decimals) > u64::MAX {
                Err(ProtocolError::ArithmeticOverflow)
            } else {
                let record = Self::initial(bump, pool_owner, liz_mint, tai_mint, dai_mint);
                Ok(
                    (
                        record,
                        creation(
                            program_id,
                            pool_owner,
                            pool,
                            Self::account_size_spec(),
                            DerivedSeeds::Pool { bump },
                            Record::Pool(record),
                        ),
                    ),
                )
            },
        }
    }

    /// Sets the pool up at `pool`, which must be the pool's derived address:
    /// `pool_owner` owns it and pays for its account, the three mints are
    /// the ones it works with, the terms are the defaults. The answer is the
    /// record with the actions that create and store it.
    pub fn new_checked(
        program_id: &Address,
        pool: &Address,
        pool_owner: &Address,
        liz_mint: &Mint,
        tai_mint: &Mint,
        dai_mint: &Mint,
    ) -> (r: Result<(NFTPool, Vec<Action>), ProtocolError>)
        ensures
            match r {
                Ok((record, actions)) => Self::created(
                    *program_id,
                    *pool,
                    *pool_owner,
                    *liz_mint,
                    *tai_mint,
                    *dai_mint,
                ) == Ok::<(NFTPool, Seq<Action>), ProtocolError>((record, actions@)),
                Err(e) => Self::created(
                    *program_id,
                    *pool,
                    *pool_owner,
                    *liz_mint,
                    *tai_mint,
                    *dai_mint,
                ) == Err::<(NFTPool, Seq<Action>), ProtocolError>(e),
            },
    {
        let bump: u8 = match Self::locate(program_id, pool) {
            Ok(bump) => bump,
            Err(e) => {
                return Err(e);
            },
        };
        let incentive: u64 = match scaled_incentive(liz_mint.decimals) {
            Some(v) => v,
            None => {
                return Err(ProtocolError::ArithmeticOverflow);
            },
        };
        let instance = NFTPool {
            bump_seed: bump,
            owner: *pool_owner,
            liz_mint: liz_mint.key,
            tai_mint: tai_mint.key,
            dai_mint: dai_mint.key,
            incentive,
            max_loan_duration: DEFAULT_MAX_LOAN_DURATION,
            service_fee_rate: DEFAULT_SERVICE_FEE_RATE,
            interest_rate: DEFAULT_INTEREST_RATE,
            mortgage_rate: DEFAULT_MORTGAGE_RATE,
        };
        let seeds = DerivedSeeds::Pool { bump };
        let mut actions: Vec<Action> = Vec::new();
        actions.push(
            Action::CreateAccount(
                CreateAccount {
                    funder: *pool_owner,
                    account: *pool,
                    space: Self::account_size(),
                    owner: *program_id,
                    seeds,
                },
            ),
        );
        actions.push(Action::WriteRecord { account: *pool, record: Record::Pool(instance) });
        assert(actions@ =~= creation(
            *program_id,
            *pool_owner,
            *pool,
            Self::account_size_spec(),
            seeds,
            Record::Pool(instance),
        ));
        Ok((instance, actions))
    }

    /// What it takes to make sure that the token account `token_account` of
    /// `wallet` for `mint` exists: nothing where it does, its creation on
    /// `funder`'s account where it does not.
    pub open spec fn token_account_ensured(
        wallet: Address,
        funder: Address,
        mint: Address,
        token_account: AccountInfo,
    ) -> Seq<Action> {
        if token_account.allocated() {
            Seq::<Action>::empty()
        } else {
            seq![
                Action::CreateAssociatedTokenAccount {
                    wallet,
                    funder,
                    mint,
                    token_account: token_account.key,
                },
            ]
        }
    }

    /// Makes sure that the pool has its token account for `mint`: asks for
    /// its creation, paid for by `user_wallet_account`, unless it exists.
    pub fn ensure_pool_token_account(
        pool: &ProgramAccount<NFTPool>,
        mint: &Mint,
        pool_token_account: &AccountInfo,
        user_wallet_account: &Address,
    ) -> (r: Vec<Action>)
        ensures
            r@ == Self::token_account_ensured(
                pool.key,
                *user_wallet_account,
                mint.key,
                *pool_token_account,
            ),
    {
        let mut actions: Vec<Action> = Vec::new();
        if !is_account_allocated(pool_token_account) {
            actions.push(
                Action::CreateAssociatedTokenAccount {
                    wallet: pool.key,
                    funder: *user_wallet_account,
                    mint: mint.key,
                    token_account: pool_token_account.key,
                },
            );
        }
        assert(actions@ =~= Self::token_account_ensured(
            pool.key,
            *user_wallet_account,
            mint.key,
            *pool_token_account,
        ));
        actions
    }

    /// Makes sure that `user_wallet_account` has its token account for
    /// `mint`: asks for its creation, paid for by the user, unless it exists.
    pub fn ensure_user_token_account(
        user_wallet_account: &Address,
        mint: &Mint,
        user_token_account: &AccountInfo,
    ) -> (r: Vec<Action>)
        ensures
            r@ == Self::token_account_ensured(
                *user_wallet_account,
                *user_wallet_account,
                mint.key,
                *user_token_account,
            ),
    {
        let mut actions: Vec<Action> = Vec::new();
        if !is_account_allocated(user_token_account) {
            actions.push(
                Action::CreateAssociatedTokenAccount {
                    wallet: *user_wallet_account,
                    funder: *user_wallet_account,
                    mint: mint.key,
                    token_account: user_token_account.key,
                },
            );
        }
        assert(actions@ =~= Self::token_account_ensured(
            *user_wallet_account,
            *user_wallet_account,
            mint.key,
            *user_token_account,
        ));
        actions
    }
}

} // verus!
