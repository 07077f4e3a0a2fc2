//! How the records are laid out in the accounts that store them.
//!
//! A stored record starts with the eight bytes that tell its kind. Its fields
//! follow in the order of their declaration: an integer as eight bytes, lowest
//! first; an address as its 32 bytes; the state of a deposit as one byte that
//! tells the variant, then the variant's fields. Bytes after the last field
//! are not read, so a record can sit in an account that is larger than it.

use crate::address::Address;
use crate::nft_bid::NFTBid;
use crate::nft_deposit::DepositState;
use crate::nft_deposit::LoanActiveState;
use crate::nft_deposit::LoanRepayedState;
use crate::nft_deposit::NFTDeposit;
use crate::nft_pool::NFTPool;
use vstd::bytes::spec_u64_from_le_bytes;
use vstd::bytes::spec_u64_to_le_bytes;
use vstd::bytes::u64_from_le_bytes;
use vstd::bytes::u64_to_le_bytes;
use vstd::prelude::*;
use vstd::slice::slice_subrange;

verus! {

/// Bytes at the start of a stored record that tell its kind.
pub const TAG_LEN: usize = 8;

/// The kind tag of a stored bid.
pub open spec fn bid_tag() -> Seq<u8> {
    seq![186u8, 167u8, 220u8, 208u8, 109u8, 99u8, 128u8, 148u8]
}

/// The kind tag of the stored pool.
pub open spec fn pool_tag() -> Seq<u8> {
    seq![1u8, 164u8, 189u8, 105u8, 215u8, 136u8, 98u8, 179u8]
}

/// The kind tag of a stored deposit.
pub open spec fn deposit_tag() -> Seq<u8> {
    seq![8u8, 177u8, 223u8, 189u8, 61u8, 8u8, 120u8, 121u8]
}

/// The integer stored in the eight bytes of `data` that start at `at`.
pub open spec fn u64_at(data: Seq<u8>, at: int) -> u64 {
    spec_u64_from_le_bytes(data.subrange(at, at + 8))
}

/// The signed integer stored in the eight bytes of `data` that start at `at`.
pub open spec fn i64_at(data: Seq<u8>, at: int) -> i64 {
    u64_at(data, at) as i64
}

/// The address stored in the 32 bytes of `data` that start at `at`.
pub open spec fn address_at(data: Seq<u8>, at: int) -> Address {
    Address::from_seq(data.subrange(at, at + 32))
}

/// The eight bytes of a signed integer.
pub open spec fn i64_bytes(x: i64) -> Seq<u8> {
    spec_u64_to_le_bytes(x as u64)
}

/// Whether `data` starts with `tag`.
pub open spec fn tagged(data: Seq<u8>, tag: Seq<u8>) -> bool {
    data.len() >= TAG_LEN && data.subrange(0, TAG_LEN as int) == tag
}

pub(crate) fn read_u64(data: &[u8], at: usize) -> (r: u64)
    requires
        at + 8 <= data@.len(),
    ensures
        r == u64_at(data@, at as int),
{
    let len: usize = data.len();
    assert(at + 8 <= len);
    u64_from_le_bytes(slice_subrange(data, at, at + 8))
}

pub(crate) fn read_i64(data: &[u8], at: usize) -> (r: i64)
    requires
        at + 8 <= data@.len(),
    ensures
        r == i64_at(data@, at as int),
{
    read_u64(data, at) as i64
}

pub(crate) fn write_u64(out: &mut Vec<u8>, x: u64)
    ensures
        final(out)@ == old(out)@ + spec_u64_to_le_bytes(x),
{
    let mut bytes = u64_to_le_bytes(x);
    out.append(&mut bytes);
}

pub(crate) fn write_i64(out: &mut Vec<u8>, x: i64)
    ensures
        final(out)@ == old(out)@ + i64_bytes(x),
{
    write_u64(out, x as u64);
}

pub(crate) fn write_address(out: &mut Vec<u8>, a: &Address)
    ensures
        final(out)@ == old(out)@ + a@,
{
    let mut bytes = a.to_vec();
    out.append(&mut bytes);
}

pub(crate) fn has_tag(data: &[u8], tag: &Vec<u8>) -> (r: bool)
    requires
        tag@.len() == TAG_LEN,
    ensures
        r == tagged(data@, tag@),
{
    if data.len() < TAG_LEN {
        return false;
    }
    let mut i: usize = 0;
    while i < TAG_LEN
        invariant
            i <= TAG_LEN,
            tag@.len() == TAG_LEN,
            data@.len() >= TAG_LEN,
            forall|j: int| 0 <= j < i ==> data@[j] == tag@[j],
        decreases TAG_LEN - i,
    {
        if data[i] != tag[i] {
            assert(data@.subrange(0, TAG_LEN as int)[i as int] != tag@[i as int]);
            return false;
        }
        i += 1;
    }
    assert(data@.subrange(0, TAG_LEN as int) =~= tag@);
    true
}

/// What was stored with `write_u64` is read back with `read_u64`.
pub proof fn lemma_u64_at(before: Seq<u8>, x: u64, after: Seq<u8>)
    ensures
        u64_at(before + spec_u64_to_le_bytes(x) + after, before.len() as int) == x,
        spec_u64_to_le_bytes(x).len() == 8,
{
    vstd::bytes::lemma_auto_spec_u64_to_from_le_bytes();
    let all = before + spec_u64_to_le_bytes(x) + after;
    assert(all.subrange(before.len() as int, before.len() as int + 8) =~= spec_u64_to_le_bytes(x));
}

impl NFTBid {
    /// Bytes that a stored bid takes.
    pub const ENCODED_LEN: usize = 24;

    /// The bid as it is stored.
    pub open spec fn encoding(self) -> Seq<u8> {
        bid_tag() + spec_u64_to_le_bytes(self.price) + spec_u64_to_le_bytes(self.qty)
    }

    /// The bid that `data` stores, if it stores one.
    pub open spec fn decoding(data: Seq<u8>) -> Option<NFTBid> {
        if tagged(data, bid_tag()) && data.len() >= Self::ENCODED_LEN {
            Some(NFTBid { price: u64_at(data, 8), qty: u64_at(data, 16) })
        } else {
            None
        }
    }

    /// The bid as it is stored.
    pub fn encode(&self) -> (r: Vec<u8>)
        ensures
            r@ == self.encoding(),
            r@.len() == Self::ENCODED_LEN,
    {
        let mut out: Vec<u8> = vec![186u8, 167u8, 220u8, 208u8, 109u8, 99u8, 128u8, 148u8];
        assert(out@ =~= bid_tag());
        write_u64(&mut out, self.price);
        write_u64(&mut out, self.qty);
        proof {
            vstd::bytes::lemma_auto_spec_u64_to_from_le_bytes();
        }
        out
    }

    /// The bid that `data` stores; `None` where `data` is too short or does
    /// not start with the tag of a bid.
    pub fn decode(data: &[u8]) -> (r: Option<NFTBid>)
        ensures
            r == Self::decoding(data@),
    {
        let tag: Vec<u8> = vec![186u8, 167u8, 220u8, 208u8, 109u8, 99u8, 128u8, 148u8];
        assert(tag@ =~= bid_tag());
        if data.len() < Self::ENCODED_LEN || !has_tag(data, &tag) {
            return None;
        }
        Some(NFTBid { price: read_u64(data, 8), qty: read_u64(data, 16) })
    }

    /// A stored bid is read back as it was, whatever follows it.
    pub proof fn lemma_round_trip(bid: NFTBid, rest: Seq<u8>)
        ensures
            NFTBid::decoding(bid.encoding() + rest) == Some(bid),
            bid.encoding().len() == NFTBid::ENCODED_LEN,
    {
        let data = bid.encoding() + rest;
        let after_price = spec_u64_to_le_bytes(bid.qty) + rest;
        lemma_u64_at(bid_tag(), bid.price, after_price);
        lemma_u64_at(bid_tag() + spec_u64_to_le_bytes(bid.price), bid.qty, rest);
        assert(data =~= bid_tag() + spec_u64_to_le_bytes(bid.price) + after_price);
        assert(data =~= bid_tag() + spec_u64_to_le_bytes(bid.price) + spec_u64_to_le_bytes(bid.qty)
            + rest);
        assert(data.subrange(0, TAG_LEN as int) =~= bid_tag());
    }
}

impl NFTPool {
    /// Bytes that the stored pool takes.
    pub const ENCODED_LEN: usize = 177;

    /// The pool as it is stored.
    pub open spec fn encoding(self) -> Seq<u8> {
        pool_tag() + seq![self.bump_seed] + self.owner@ + self.liz_mint@ + self.tai_mint@
            + self.dai_mint@ + spec_u64_to_le_bytes(self.incentive) + i64_bytes(
            self.max_loan_duration,
        ) + spec_u64_to_le_bytes(self.service_fee_rate) + spec_u64_to_le_bytes(self.interest_rate)
            + spec_u64_to_le_bytes(self.mortgage_rate)
    }

    /// The pool that `data` stores, if it stores one.
    pub open spec fn decoding(data: Seq<u8>) -> Option<NFTPool> {
        if tagged(data, pool_tag()) && data.len() >= Self::ENCODED_LEN {
            Some(
                NFTPool {
                    bump_seed: data[8],
                    owner: address_at(data, 9),
                    liz_mint: address_at(data, 41),
                    tai_mint: address_at(data, 73),
                    dai_mint: address_at(data, 105),
                    incentive: u64_at(data, 137),
                    max_loan_duration: i64_at(data, 145),
                    service_fee_rate: u64_at(data, 153),
                    interest_rate: u64_at(data, 161),
                    mortgage_rate: u64_at(data, 169),
                },
            )
        } else {
            None
        }
    }

    /// The pool as it is stored.
    pub fn encode(&self) -> (r: Vec<u8>)
        ensures
            r@ == self.encoding(),
            r@.len() == Self::ENCODED_LEN,
    {
        let mut out: Vec<u8> = vec![1u8, 164u8, 189u8, 105u8, 215u8, 136u8, 98u8, 179u8];
        assert(out@ =~= pool_tag());
        out.push(self.bump_seed);
        assert(out@ =~= pool_tag() + seq![self.bump_seed]);
        write_address(&mut out, &self.owner);
        write_address(&mut out, &self.liz_mint);
        write_address(&mut out, &self.tai_mint);
        write_address(&mut out, &self.dai_mint);
        write_u64(&mut out, self.incentive);
        write_i64(&mut out, self.max_loan_duration);
        write_u64(&mut out, self.service_fee_rate);
        write_u64(&mut out, self.interest_rate);
        write_u64(&mut out, self.mortgage_rate);
        proof {
            vstd::bytes::lemma_auto_spec_u64_to_from_le_bytes();
        }
        out
    }

    /// The pool that `data` stores; `None` where `data` is too short or does
    /// not start with the tag of the pool.
    pub fn decode(data: &[u8]) -> (r: Option<NFTPool>)
        ensures
            r == Self::decoding(data@),
    {
        let tag: Vec<u8> = vec![1u8, 164u8, 189u8, 105u8, 215u8, 136u8, 98u8, 179u8];
        assert(tag@ =~= pool_tag());
        if data.len() < Self::ENCODED_LEN || !has_tag(data, &tag) {
            return None;
        }
        Some(
            NFTPool {
                bump_seed: data[8],
                owner: Address::from_slice(data, 9),
                liz_mint: Address::from_slice(data, 41),
                tai_mint: Address::from_slice(data, 73),
                dai_mint: Address::from_slice(data, 105),
                incentive: read_u64(data, 137),
                max_loan_duration: read_i64(data, 145),
                service_fee_rate: read_u64(data, 153),
                interest_rate: read_u64(data, 161),
                mortgage_rate: read_u64(data, 169),
            },
        )
    }

    /// The stored pool is read back as it was, whatever follows it.
    pub proof fn lemma_round_trip(pool: NFTPool, rest: Seq<u8>)
        ensures
            NFTPool::decoding(pool.encoding() + rest) == Some(pool),
            pool.encoding().len() == NFTPool::ENCODED_LEN,
    {
        vstd::bytes::lemma_auto_spec_u64_to_from_le_bytes();
        let data = pool.encoding() + rest;
        assert(data.subrange(0, 8) =~= pool_tag());
        assert(data[8] == pool.bump_seed);
        assert(data.subrange(9, 41) =~= pool.owner@);
        assert(data.subrange(41, 73) =~= pool.liz_mint@);
        assert(data.subrange(73, 105) =~= pool.tai_mint@);
        assert(data.subrange(105, 137) =~= pool.dai_mint@);
        assert(data.subrange(137, 145) =~= spec_u64_to_le_bytes(pool.incentive));
        assert(data.subrange(145, 153) =~= i64_bytes(pool.max_loan_duration));
        assert(data.subrange(153, 161) =~= spec_u64_to_le_bytes(pool.service_fee_rate));
        assert(data.subrange(161, 169) =~= spec_u64_to_le_bytes(pool.interest_rate));
        assert(data.subrange(169, 177) =~= spec_u64_to_le_bytes(pool.mortgage_rate));
        Address::lemma_from_seq(pool.owner);
        Address::lemma_from_seq(pool.liz_mint);
        Address::lemma_from_seq(pool.tai_mint);
        Address::lemma_from_seq(pool.dai_mint);
        let d = pool.max_loan_duration;
        assert((d as u64) as i64 == d) by (bit_vector);
    }
}

impl DepositState {
    /// The byte that tells the state.
    pub open spec fn tag(self) -> u8 {
        match self {
            DepositState::PendingLoan => 0,
            DepositState::LoanActive(_) => 1,
            DepositState::LoanRepayed(_) => 2,
            DepositState::Withdrawn => 3,
            DepositState::LoanLiquidated => 4,
            DepositState::LoanCleared => 5,
        }
    }

    /// The state as it is stored: its tag, then its fields.
    pub open spec fn encoding(self) -> Seq<u8> {
        match self {
            DepositState::LoanActive(loan) => seq![1u8] + spec_u64_to_le_bytes(loan.total_amount)
                + spec_u64_to_le_bytes(loan.borrowed_amount) + i64_bytes(loan.started_at)
                + i64_bytes(loan.expired_at) + loan.lender@,
            DepositState::LoanRepayed(owed) => seq![2u8] + spec_u64_to_le_bytes(
                owed.tai_required_to_unlock,
            ) + spec_u64_to_le_bytes(owed.lender_withdrawable) + owed.lender@,
            _ => seq![self.tag()],
        }
    }

    /// The state that `data` stores from `at` on, if it stores one.
    pub open spec fn decoding(data: Seq<u8>, at: int) -> Option<DepositState> {
        if data.len() < at + 1 {
            None
        } else if data[at] == 0 {
            Some(DepositState::PendingLoan)
        } else if data[at] == 1 {
            if data.len() < at + 65 {
                None
            } else {
                Some(
                    DepositState::LoanActive(
                        LoanActiveState {
                            total_amount: u64_at(data, at + 1),
                            borrowed_amount: u64_at(data, at + 9),
                            started_at: i64_at(data, at + 17),
                            expired_at: i64_at(data, at + 25),
                            lender: address_at(data, at + 33),
                        },
                    ),
                )
            }
        } else if data[at] == 2 {
            if data.len() < at + 49 {
                None
            } else {
                Some(
                    DepositState::LoanRepayed(
                        LoanRepayedState {
                            tai_required_to_unlock: u64_at(data, at + 1),
                            lender_withdrawable: u64_at(data, at + 9),
                            lender: address_at(data, at + 17),
                        },
                    ),
                )
            }
        } else if data[at] == 3 {
            Some(DepositState::Withdrawn)
        } else if data[at] == 4 {
            Some(DepositState::LoanLiquidated)
        } else if data[at] == 5 {
            Some(DepositState::LoanCleared)
        } else {
            None
        }
    }
}

impl NFTDeposit {
    /// Bytes that the largest stored deposit takes.
    pub const ENCODED_LEN: usize = 105;

    /// Place of the state in a stored deposit.
    pub const STATE_AT: usize = 40;

    /// The deposit as it is stored.
    pub open spec fn encoding(self) -> Seq<u8> {
        deposit_tag() + self.deposit_id@ + self.state.encoding()
    }

    /// The deposit that `data` stores, if it stores one.
    pub open spec fn decoding(data: Seq<u8>) -> Option<NFTDeposit> {
        if tagged(data, deposit_tag()) && data.len() >= Self::STATE_AT {
            match DepositState::decoding(data, Self::STATE_AT as int) {
                Some(state) => Some(NFTDeposit { deposit_id: address_at(data, 8), state }),
                None => None,
            }
        } else {
            None
        }
    }

    /// The deposit as it is stored. It never takes more than the account
    /// that is made for it holds.
    pub fn encode(&self) -> (r: Vec<u8>)
        ensures
            r@ == self.encoding(),
            r@.len() <= Self::ENCODED_LEN,
            self.state is LoanActive ==> r@.len() == Self::ENCODED_LEN,
    {
        let mut out: Vec<u8> = vec![8u8, 177u8, 223u8, 189u8, 61u8, 8u8, 120u8, 121u8];
        assert(out@ =~= deposit_tag());
        write_address(&mut out, &self.deposit_id);
        let ghost head = out@;
        proof {
            vstd::bytes::lemma_auto_spec_u64_to_from_le_bytes();
        }
        match self.state {
            DepositState::PendingLoan => {
                out.push(0);
                assert(out@ =~= head + self.state.encoding());
            },
            DepositState::LoanActive(loan) => {
                out.push(1);
                write_u64(&mut out, loan.total_amount);
                write_u64(&mut out, loan.borrowed_amount);
                write_i64(&mut out, loan.started_at);
                write_i64(&mut out, loan.expired_at);
                write_address(&mut out, &loan.lender);
                assert(out@ =~= head + self.state.encoding());
            },
            DepositState::LoanRepayed(owed) => {
                out.push(2);
                write_u64(&mut out, owed.tai_required_to_unlock);
                write_u64(&mut out, owed.lender_withdrawable);
                write_address(&mut out, &owed.lender);
                assert(out@ =~= head + self.state.encoding());
            },
            DepositState::Withdrawn => {
                out.push(3);
                assert(out@ =~= head + self.state.encoding());
            },
            DepositState::LoanLiquidated => {
                out.push(4);
                assert(out@ =~= head + self.state.encoding());
            },
            DepositState::LoanCleared => {
                out.push(5);
                assert(out@ =~= head + self.state.encoding());
            },
        }
        out
    }

    /// The deposit that `data` stores; `None` where `data` is too short for
    /// the state it tells, tells no state, or does not start with the tag of
    /// a deposit.
    pub fn decode(data: &[u8]) -> (r: Option<NFTDeposit>)
        ensures
            r == Self::decoding(data@),
    {
        let tag: Vec<u8> = vec![8u8, 177u8, 223u8, 189u8, 61u8, 8u8, 120u8, 121u8];
        assert(tag@ =~= deposit_tag());
        let len: usize = data.len();
        if len < Self::STATE_AT + 1 || !has_tag(data, &tag) {
            return None;
        }
        let deposit_id = Address::from_slice(data, 8);
        let which: u8 = data[Self::STATE_AT];
        let state = if which == 0 {
            DepositState::PendingLoan
        } else if which == 1 {
            if len < Self::STATE_AT + 65 {
                return None;
            }
            DepositState::LoanActive(
                LoanActiveState {
                    total_amount: read_u64(data, Self::STATE_AT + 1),
                    borrowed_amount: read_u64(data, Self::STATE_AT + 9),
                    started_at: read_i64(data, Self::STATE_AT + 17),
                    expired_at: read_i64(data, Self::STATE_AT + 25),
                    lender: Address::from_slice(data, Self::STATE_AT + 33),
                },
            )
        } else if which == 2 {
            if len < Self::STATE_AT + 49 {
                return None;
            }
            DepositState::LoanRepayed(
                LoanRepayedState {
                    tai_required_to_unlock: read_u64(data, Self::STATE_AT + 1),
                    lender_withdrawable: read_u64(data, Self::STATE_AT + 9),
                    lender: Address::from_slice(data, Self::STATE_AT + 17),
                },
            )
        } else if which == 3 {
            DepositState::Withdrawn
        } else if which == 4 {
            DepositState::LoanLiquidated
        } else if which == 5 {
            DepositState::LoanCleared
        } else {
            return None;
        };
        Some(NFTDeposit { deposit_id, state })
    }

    /// A stored deposit is read back as it was, whatever follows it, and it
    /// fits in the account that is made for deposits.
    pub proof fn lemma_round_trip(deposit: NFTDeposit, rest: Seq<u8>)
        ensures
            NFTDeposit::decoding(deposit.encoding() + rest) == Some(deposit),
            deposit.encoding().len() <= NFTDeposit::ENCODED_LEN,
            NFTDeposit::ENCODED_LEN == NFTDeposit::account_size_spec(),
    {
        vstd::bytes::lemma_auto_spec_u64_to_from_le_bytes();
        let data = deposit.encoding() + rest;
        assert(data.subrange(0, 8) =~= deposit_tag());
        assert(data.subrange(8, 40) =~= deposit.deposit_id@);
        Address::lemma_from_seq(deposit.deposit_id);
        assert(data[40] == deposit.state.tag());
        match deposit.state {
            DepositState::LoanActive(loan) => {
                assert(data.subrange(41, 49) =~= spec_u64_to_le_bytes(loan.total_amount));
                assert(data.subrange(49, 57) =~= spec_u64_to_le_bytes(loan.borrowed_amount));
                assert(data.subrange(57, 65) =~= i64_bytes(loan.started_at));
                assert(data.subrange(65, 73) =~= i64_bytes(loan.expired_at));
                assert(data.subrange(73, 105) =~= loan.lender@);
                Address::lemma_from_seq(loan.lender);
                let s = loan.started_at;
                let e = loan.expired_at;
                assert((s as u64) as i64 == s) by (bit_vector);
                assert((e as u64) as i64 == e) by (bit_vector);
            },
            DepositState::LoanRepayed(owed) => {
                assert(data.subrange(41, 49) =~= spec_u64_to_le_bytes(owed.tai_required_to_unlock));
                assert(data.subrange(49, 57) =~= spec_u64_to_le_bytes(owed.lender_withdrawable));
                assert(data.subrange(57, 89) =~= owed.lender@);
                Address::lemma_from_seq(owed.lender);
            },
            _ => {},
        }
    }
}

} // verus!
