//! Accounts on the host: whether one exists, and the instructions for the
//! programs that create accounts and keep tokens.

use crate::accounts::AccountInfo;
use crate::address::Address;
use solana_program::pubkey::Pubkey;
use solana_program::system_instruction;
use vstd::prelude::*;

verus! {

/// The address of the system program, which owns every account that no
/// program has taken: 32 zero bytes.
pub open spec fn system_program_id() -> Seq<u8> {
    Seq::new(32, |i: int| 0u8)
}

/// The address of the program that creates associated token accounts.
pub open spec fn associated_token_program_id() -> Seq<u8> {
    seq![
        140u8, 151u8, 37u8, 143u8, 78u8, 36u8, 137u8, 241u8,
        187u8, 61u8, 16u8, 41u8, 20u8, 142u8, 13u8, 131u8,
        11u8, 90u8, 19u8, 153u8, 218u8, 255u8, 16u8, 132u8,
        4u8, 142u8, 123u8, 216u8, 219u8, 233u8, 248u8, 89u8,
    ]
}

/// The address of the token program.
pub open spec fn token_program_id() -> Seq<u8> {
    seq![
        6u8, 221u8, 246u8, 225u8, 215u8, 101u8, 161u8, 147u8,
        217u8, 203u8, 225u8, 70u8, 206u8, 235u8, 121u8, 172u8,
        28u8, 180u8, 133u8, 237u8, 95u8, 91u8, 55u8, 145u8,
        58u8, 140u8, 245u8, 133u8, 126u8, 255u8, 0u8, 169u8,
    ]
}

/// What the system program is sent to create an account with a balance of
/// `lamports` and `space` bytes for `owner`. It stands for the data of the
/// instruction that `system_instruction::create_account` builds.
pub uninterp spec fn create_account_data(lamports: u64, space: u64, owner: Seq<u8>) -> Seq<u8>;

/// Calls `solana_program::system_program::check_id`, which compares an
/// address with that of the system program. The contract claims that the
/// system program's address, written `11111111111111111111111111111111` in
/// base 58, is 32 zero bytes.
#[verifier::external_body]
fn is_system_program(id: &Address) -> (r: bool)
    ensures
        r == (id@ == system_program_id()),
{
    solana_program::system_program::check_id(&Pubkey::new_from_array(id.bytes))
}

/// Calls `spl_associated_token_account::id`. The contract claims the bytes
/// of the address that the crate declares in base 58 as
/// `ATokenGPvbdGVxr1b2hvZbsiqW5xWH25efTNsLJA8knL`.
#[verifier::external_body]
fn associated_token_program() -> (r: Address)
    ensures
        r@ == associated_token_program_id(),
{
    Address { bytes: spl_associated_token_account::id().to_bytes() }
}

/// The accounts of the instruction that creates an account: who pays, and
/// the account to be. Both sign, and both are changed.
pub open spec fn create_account_accounts(from: Address, to: Address) -> Seq<AccountMeta> {
    seq![AccountMeta::writable(from, true), AccountMeta::writable(to, true)]
}

/// The accounts of the instruction that takes an allowance back: the token
/// account, which is changed; its owner; and the owner again, as the one
/// who signs.
pub open spec fn revoke_accounts(source: Address, owner: Address) -> Seq<AccountMeta> {
    seq![
        AccountMeta::writable(source, false),
        AccountMeta::readonly(owner, false),
        AccountMeta::readonly(owner, true),
    ]
}

/// The data of the instruction that takes an allowance back: the one byte
/// that tells the token program what to do.
pub open spec fn revoke_data() -> Seq<u8> {
    seq![5u8]
}

/// Calls `solana_program::system_instruction::create_account`. The contract
/// claims what its source shows: the instruction is for the system program,
/// names payer and new account as signers that it changes, and carries the
/// data named [`create_account_data`].
#[verifier::external_body]
fn system_create_account(
    from: &Address,
    to: &Address,
    lamports: u64,
    space: u64,
    owner: &Address,
) -> (r: Instruction)
    ensures
        r.program_id@ == system_program_id(),
        r.accounts@ == create_account_accounts(*from, *to),
        r.data@ == create_account_data(lamports, space, owner@),
{
    let (from, to) = (Pubkey::new_from_array(from.bytes), Pubkey::new_from_array(to.bytes));
    let owner = Pubkey::new_from_array(owner.bytes);
    let made = system_instruction::create_account(&from, &to, lamports, space, &owner);
    let accounts = made.accounts.iter().map(|m| AccountMeta {
        pubkey: Address { bytes: m.pubkey.to_bytes() },
        is_signer: m.is_signer,
        is_writable: m.is_writable,
    }).collect();
    Instruction { program_id: Address { bytes: made.program_id.to_bytes() }, accounts, data: made.data }
}

/// Calls `spl_token::instruction::revoke` for the token program
/// `spl_token::id`, with the owner as the one signer. The contract claims
/// what its source shows: for that program the call succeeds; the
/// instruction names the source account, which it changes, the owner, and
/// the owner again as signer; its data is the one byte 5. The bytes of the
/// token program's address are those of
/// `TokenkegQfeZyiNwAJbNbGKPFXCWuBvf9Ss623VQ5DA` in base 58.
#[verifier::external_body]
fn token_revoke(source: &Address, owner: &Address) -> (r: Option<Instruction>)
    ensures
        r is Some,
        r matches Some(ix) ==> ix.program_id@ == token_program_id(),
        r matches Some(ix) ==> ix.accounts@ == revoke_accounts(*source, *owner),
        r matches Some(ix) ==> ix.data@ == revoke_data(),
{
    let (source, owner) = (Pubkey::new_from_array(source.bytes), Pubkey::new_from_array(owner.bytes));
    let made = spl_token::instruction::revoke(&spl_token::id(), &source, &owner, &[&owner]).ok()?;
    let accounts = made.accounts.iter().map(|m| AccountMeta {
        pubkey: Address { bytes: m.pubkey.to_bytes() },
        is_signer: m.is_signer,
        is_writable: m.is_writable,
    }).collect();
    Some(Instruction { program_id: Address { bytes: made.program_id.to_bytes() }, accounts, data: made.data })
}

impl AccountInfo {
    /// An account exists once it holds a balance, stores data, or belongs to
    /// a program other than the system program.
    pub open spec fn allocated(&self) -> bool {
        self.lamports != 0 || self.data@.len() != 0 || self.owner@ != system_program_id()
    }
}

/// Whether the account exists already.
pub fn is_account_allocated(acc: &AccountInfo) -> (r: bool)
    ensures
        r == acc.allocated(),
{
    acc.lamports != 0 || acc.data.len() != 0 || !is_system_program(&acc.owner)
}

/// The balance to create an account with, given the least balance that keeps
/// an account of its size alive: that balance, and never nothing, so that the
/// account exists afterwards.
pub fn required_lamports(minimum_balance: u64) -> (r: u64)
    ensures
        r == if minimum_balance == 0 {
            1
        } else {
            minimum_balance
        },
        r >= 1,
        r >= minimum_balance,
{
    if minimum_balance == 0 {
        1
    } else {
        minimum_balance
    }
}

/// The instruction that creates the account `account` of `acc_size` bytes,
/// owned by `program_id` and paid for by `funder`, given the least balance
/// that keeps an account of that size alive. The account gets that balance,
/// and never nothing. The program signs the instruction with the seeds that
/// derive `account`.
pub fn create_derived_account_with_seed(
    program_id: &Address,
    funder: &Address,
    account: &Address,
    acc_size: u64,
    minimum_balance: u64,
) -> (r: Instruction)
    ensures
        r.program_id@ == system_program_id(),
        r.accounts@ == create_account_accounts(*funder, *account),
        r.data@ == create_account_data(
            if minimum_balance == 0 {
                1
            } else {
                minimum_balance
            },
            acc_size,
            program_id@,
        ),
{
    let lamports: u64 = required_lamports(minimum_balance);
    system_create_account(funder, account, lamports, acc_size, program_id)
}

/// The instruction that takes back what `owner` let a delegate spend out of
/// the token account `source`: for the token program, on the source account,
/// signed by the owner. `None` is never the answer.
pub fn revoke_instruction(source: &Address, owner: &Address) -> (r: Option<Instruction>)
    ensures
        r is Some,
        r matches Some(ix) ==> ix.program_id@ == token_program_id(),
        r matches Some(ix) ==> ix.accounts@ == revoke_accounts(*source, *owner),
        r matches Some(ix) ==> ix.data@ == revoke_data(),
{
    token_revoke(source, owner)
}

/// One account of an instruction, and what the instruction may do with it.
#[derive(Clone, Copy, Debug, PartialEq, Eq)]
pub struct AccountMeta {
    pub pubkey: Address,
    /// The account signs the instruction.
    pub is_signer: bool,
    /// The instruction may change the account.
    pub is_writable: bool,
}

impl AccountMeta {
    /// An account that the instruction may change.
    pub open spec fn writable(pubkey: Address, is_signer: bool) -> AccountMeta {
        AccountMeta { pubkey, is_signer, is_writable: true }
    }

    /// An account that the instruction only reads.
    pub open spec fn readonly(pubkey: Address, is_signer: bool) -> AccountMeta {
        AccountMeta { pubkey, is_signer, is_writable: false }
    }
}

/// An instruction for another program.
#[derive(Clone, Debug, PartialEq, Eq)]
pub struct Instruction {
    /// The program that carries the instruction out.
    pub program_id: Address,
    pub accounts: Vec<AccountMeta>,
    pub data: Vec<u8>,
}

/// The instruction that creates the token account `token_account` of
/// `wallet` for `mint`, paid for by `funder`. Its accounts are, in order: the
/// funder (signs, changes), the new token account (changes), the wallet, the
/// mint, the system program, the token program and the rent account. It
/// carries no data.
pub fn create_associated_token_account(
    wallet: &Address,
    funder: &Address,
    mint: &Address,
    token_account: &Address,
    spl_program: &Address,
    system_program: &Address,
    rent: &Address,
) -> (r: Instruction)
    ensures
        r.program_id@ == associated_token_program_id(),
        r.accounts@ == seq![
            AccountMeta::writable(*funder, true),
            AccountMeta::writable(*token_account, false),
            AccountMeta::readonly(*wallet, false),
            AccountMeta::readonly(*mint, false),
            AccountMeta::readonly(*system_program, false),
            AccountMeta::readonly(*spl_program, false),
            AccountMeta::readonly(*rent, false),
        ],
        r.data@.len() == 0,
{
    let mut accounts: Vec<AccountMeta> = Vec::new();
    accounts.push(AccountMeta { pubkey: *funder, is_signer: true, is_writable: true });
    accounts.push(AccountMeta { pubkey: *token_account, is_signer: false, is_writable: true });
    accounts.push(AccountMeta { pubkey: *wallet, is_signer: false, is_writable: false });
    accounts.push(AccountMeta { pubkey: *mint, is_signer: false, is_writable: false });
    accounts.push(AccountMeta { pubkey: *system_program, is_signer: false, is_writable: false });
    accounts.push(AccountMeta { pubkey: *spl_program, is_signer: false, is_writable: false });
    accounts.push(AccountMeta { pubkey: *rent, is_signer: false, is_writable: false });
    let r = Instruction { program_id: associated_token_program(), accounts, data: Vec::new() };
    assert(r.accounts@ =~= seq![
        AccountMeta::writable(*funder, true),
        AccountMeta::writable(*token_account, false),
        AccountMeta::readonly(*wallet, false),
        AccountMeta::readonly(*mint, false),
        AccountMeta::readonly(*system_program, false),
        AccountMeta::readonly(*spl_program, false),
        AccountMeta::readonly(*rent, false),
    ]);
    r
}

} // verus!
