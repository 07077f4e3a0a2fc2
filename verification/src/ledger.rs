//! What an operation asks of the host: accounts to create, records to store
//! and tokens to move. The host carries the actions out in order, within the
//! one indivisible unit in which the operation runs; where one of them fails,
//! nothing of the operation takes effect.

use crate::address::seeds_view;
use crate::address::with_bump;
use crate::address::Address;
use crate::address::DerivedAccountIdentifier;
use crate::events::Event;
use crate::nft_bid::NFTBid;
use crate::nft_deposit::NFTDeposit;
use crate::nft_pool::NFTPool;
use crate::utils::create_account_accounts;
use crate::utils::create_account_data;
use crate::utils::create_derived_account_with_seed;
use crate::utils::system_program_id;
use crate::utils::Instruction;
use vstd::prelude::*;

verus! {

/// The seeds with which the program signs for an account of its own.
#[derive(Clone, Copy, Debug, PartialEq, Eq)]
pub enum DerivedSeeds {
    /// The pool.
    Pool { bump: u8 },
    /// The bid of `wallet` on `mint`.
    Bid { mint: Address, wallet: Address, bump: u8 },
    /// The deposit `deposit_id` of `wallet` of a collateral of `mint`.
    Deposit { mint: Address, wallet: Address, deposit_id: Address, bump: u8 },
}

impl DerivedSeeds {
    /// The seeds as the derivation takes them: domain tag, identities, bump.
    pub open spec fn seeds_spec(self) -> Seq<Seq<u8>> {
        match self {
            DerivedSeeds::Pool { bump } => with_bump(NFTPool::seeds_spec(), bump),
            DerivedSeeds::Bid { mint, wallet, bump } => with_bump(
                NFTBid::seeds_spec(mint@, wallet@),
                bump,
            ),
            DerivedSeeds::Deposit { mint, wallet, deposit_id, bump } => with_bump(
                NFTDeposit::seeds_spec(mint@, wallet@, deposit_id@),
                bump,
            ),
        }
    }

    /// The seeds as bytes, for the host to sign with.
    pub fn to_seeds(&self) -> (r: Vec<Vec<u8>>)
        ensures
            seeds_view(&r) == self.seeds_spec(),
    {
        let mut seeds: Vec<Vec<u8>> = Vec::new();
        let ghost expected = self.seeds_spec();
        match self {
            DerivedSeeds::Pool { bump } => {
                seeds.push(NFTPool::seed());
                let mut last: Vec<u8> = Vec::new();
                last.push(*bump);
                assert(last@ =~= seq![*bump]);
                seeds.push(last);
            },
            DerivedSeeds::Bid { mint, wallet, bump } => {
                seeds.push(NFTBid::seed());
                seeds.push(mint.to_vec());
                seeds.push(wallet.to_vec());
                let mut last: Vec<u8> = Vec::new();
                last.push(*bump);
                assert(last@ =~= seq![*bump]);
                seeds.push(last);
            },
            DerivedSeeds::Deposit { mint, wallet, deposit_id, bump } => {
                seeds.push(NFTDeposit::seed());
                seeds.push(mint.to_vec());
                seeds.push(wallet.to_vec());
                seeds.push(deposit_id.to_vec());
                let mut last: Vec<u8> = Vec::new();
                last.push(*bump);
                assert(last@ =~= seq![*bump]);
                seeds.push(last);
            },
        }
        assert(seeds_view(&seeds) =~= expected);
        seeds
    }
}

/// An account of the program to be created: `space` bytes at `account`, paid
/// for by `funder`, owned by `owner`, signed for with `seeds`.
#[derive(Clone, Copy, Debug, PartialEq, Eq)]
pub struct CreateAccount {
    pub funder: Address,
    pub account: Address,
    pub space: u64,
    pub owner: Address,
    pub seeds: DerivedSeeds,
}

impl CreateAccount {
    /// The instruction that carries the request out, given the least
    /// balance that keeps an account of `space` bytes alive. The program
    /// signs it with `seeds`.
    pub fn instruction(&self, minimum_balance: u64) -> (r: Instruction)
        ensures
            r.program_id@ == system_program_id(),
            r.accounts@ == create_account_accounts(self.funder, self.account),
            r.data@ == create_account_data(
                if minimum_balance == 0 {
                    1
                } else {
                    minimum_balance
                },
                self.space,
                self.owner@,
            ),
    {
        create_derived_account_with_seed(
            &self.owner,
            &self.funder,
            &self.account,
            self.space,
            minimum_balance,
        )
    }
}

/// A record of the protocol.
#[derive(Clone, Copy, Debug, PartialEq, Eq)]
pub enum Record {
    Pool(NFTPool),
    Bid(NFTBid),
    Deposit(NFTDeposit),
}

/// One thing the host is asked to do.
#[derive(Clone, Copy, Debug, PartialEq, Eq)]
pub enum Action {
    /// Create an account of the program.
    CreateAccount(CreateAccount),
    /// Store `record` in `account`.
    WriteRecord { account: Address, record: Record },
    /// Create the token account `token_account` of `wallet` for `mint`, paid
    /// for by `funder`.
    CreateAssociatedTokenAccount {
        wallet: Address,
        funder: Address,
        mint: Address,
        token_account: Address,
    },
    /// Move `amount` tokens from `from` to `to` on the word of `authority`.
    /// Where `pool_bump` is given, `authority` is the pool and the program
    /// signs for it with that bump.
    Transfer { from: Address, to: Address, authority: Address, amount: u64, pool_bump: Option<u8> },
    /// Let `delegate` spend up to `amount` out of `to`, on the word of its
    /// owner `authority`.
    Approve { to: Address, delegate: Address, authority: Address, amount: u64 },
    /// Take back what `owner` let a delegate spend out of `source`.
    Revoke { source: Address, owner: Address },
}

/// The two actions that bring a record of the program into being: create its
/// account, then store the record in it.
pub open spec fn creation(
    program_id: Address,
    funder: Address,
    account: Address,
    space: u64,
    seeds: DerivedSeeds,
    record: Record,
) -> Seq<Action> {
    seq![
        Action::CreateAccount(CreateAccount { funder, account, space, owner: program_id, seeds }),
        Action::WriteRecord { account, record },
    ]
}

/// What an operation that went through asks of the host, and the event that
/// records it.
#[derive(Clone, Debug, PartialEq, Eq)]
pub struct Receipt {
    pub actions: Vec<Action>,
    pub event: Option<Event>,
}

} // verus!
