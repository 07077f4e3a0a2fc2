//! The standing offer of one lender on one collateral mint.

use crate::accounts::AccountInfo;
use crate::address::derived_address;
use crate::address::found_address;
use crate::address::lemma_bump_admissible;
use crate::address::locate_derived_address;
use crate::address::located_address;
use crate::address::seeds_admissible;
use crate::address::seeds_view;
use crate::address::try_find_program_address;
use crate::address::verify_derived_address;
use crate::address::with_bump;
use crate::address::Address;
use crate::address::DerivedAccountIdentifier;
use crate::error::liqzError;
use crate::error::ProtocolError;
use crate::ledger::creation;
use crate::ledger::Action;
use crate::ledger::CreateAccount;
use crate::ledger::DerivedSeeds;
use crate::ledger::Record;
use crate::utils::is_account_allocated;
use vstd::prelude::*;

verus! {

/// A lender's offer to fund loans against one collateral mint: up to `price`
/// for each of `qty` units. An offer without quantity has no price.
#[derive(Clone, Copy, Debug, PartialEq, Eq, Structural)]
pub struct NFTBid {
    pub price: u64,
    pub qty: u64,
}

impl DerivedAccountIdentifier for NFTBid {
    /// The bytes of `liqzNFTBid`.
    open spec fn seed_spec() -> Seq<u8> {
        seq![108u8, 105u8, 113u8, 122u8, 78u8, 70u8, 84u8, 66u8, 105u8, 100u8]
    }

    fn seed() -> (r: Vec<u8>) {
        let r: Vec<u8> = vec![108u8, 105u8, 113u8, 122u8, 78u8, 70u8, 84u8, 66u8, 105u8, 100u8];
        assert(r@ =~= Self::seed_spec());
        r
    }
}

impl NFTBid {
    /// An offer without quantity has no price.
    pub open spec fn wf(&self) -> bool {
        self.qty == 0 ==> self.price == 0
    }

    /// The bid after `qty` of its units were taken, or the error that refuses
    /// the trade.
    pub open spec fn traded(self, qty: u64) -> Result<NFTBid, liqzError> {
        if qty > self.qty {
            Err(liqzError::NFTOvertrade)
        } else if self.qty - qty == 0 {
            Ok(NFTBid { price: 0, qty: 0 })
        } else {
            Ok(NFTBid { price: self.price, qty: (self.qty - qty) as u64 })
        }
    }

    /// The bid that has never been placed, or was cancelled.
    pub open spec fn empty() -> NFTBid {
        NFTBid { price: 0, qty: 0 }
    }

    /// Takes `qty` units out of the bid. More than the bid has left is refused
    /// with `NFTOvertrade`, and the bid stays as it was. A bid that is used up
    /// loses its price.
    pub fn trade(&mut self, qty: u64) -> (r: Result<(), liqzError>)
        ensures
            match r {
                Ok(()) => old(self).traded(qty) == Ok::<NFTBid, liqzError>(*final(self)),
                Err(e) => old(self).traded(qty) == Err::<NFTBid, liqzError>(e) && *final(self)
                    == *old(self),
            },
            r is Ok <==> qty <= old(self).qty,
            r is Ok ==> final(self).qty == old(self).qty - qty,
            r is Ok ==> final(self).wf(),
    {
        if qty > self.qty {
            return Err(liqzError::NFTOvertrade);
        }
        self.qty -= qty;
        if self.qty == 0 {
            self.price = 0;
        }
        Ok(())
    }

    /// Overwrites the offer.
    pub fn set(&mut self, price: u64, qty: u64)
        ensures
            *final(self) == (NFTBid { price, qty }),
    {
        self.price = price;
        self.qty = qty;
    }

    /// Withdraws the offer: no quantity, no price.
    pub fn cancel(&mut self)
        ensures
            *final(self) == NFTBid::empty(),
            final(self).wf(),
    {
        self.price = 0;
        self.qty = 0;
    }
}

impl NFTBid {
    /// The seeds of the address of the bid of `wallet` on `nft_mint`, before
    /// the bump.
    pub open spec fn seeds_spec(nft_mint: Seq<u8>, wallet: Seq<u8>) -> Seq<Seq<u8>> {
        seq![Self::seed_spec(), nft_mint, wallet]
    }

    /// The address of the bid of `wallet` on `nft_mint` under `program_id`,
    /// and the bump it is found with.
    pub open spec fn address_spec(program_id: Seq<u8>, nft_mint: Seq<u8>, wallet: Seq<u8>) -> Option<
        (Seq<u8>, u8),
    > {
        found_address(Self::seeds_spec(nft_mint, wallet), program_id)
    }

    /// The address that `bump` derives for the bid.
    pub open spec fn address_with(
        program_id: Seq<u8>,
        nft_mint: Seq<u8>,
        wallet: Seq<u8>,
        bump: u8,
    ) -> Option<Seq<u8>> {
        derived_address(with_bump(Self::seeds_spec(nft_mint, wallet), bump), program_id)
    }

    fn seeds(nft_mint: &Address, wallet: &Address) -> (r: Vec<Vec<u8>>)
        ensures
            seeds_view(&r) == Self::seeds_spec(nft_mint@, wallet@),
            seeds_admissible(with_bump(Self::seeds_spec(nft_mint@, wallet@), 255)),
    {
        let mut seeds: Vec<Vec<u8>> = Vec::new();
        seeds.push(Self::seed());
        seeds.push(nft_mint.to_vec());
        seeds.push(wallet.to_vec());
        assert(seeds_view(&seeds) =~= Self::seeds_spec(nft_mint@, wallet@));
        proof {
            let s = with_bump(Self::seeds_spec(nft_mint@, wallet@), 255);
            assert(s.len() == 4);
            assert(s[0] == Self::seed_spec());
            assert(s[1] == nft_mint@);
            assert(s[2] == wallet@);
            assert(s[3] == seq![255u8]);
        }
        seeds
    }

    /// The address of the bid of `wallet` on `nft_mint`; `None` where no bump
    /// derives one.
    pub fn get_address(program_id: &Address, nft_mint: &Address, wallet: &Address) -> (r: Option<
        Address,
    >)
        ensures
            match r {
                Some(a) => Self::address_spec(program_id@, nft_mint@, wallet@) matches Some(
                    (found, _),
                ) && found == a@,
                None => Self::address_spec(program_id@, nft_mint@, wallet@) is None,
            },
    {
        match Self::get_address_with_bump(program_id, nft_mint, wallet) {
            Some((address, _)) => Some(address),
            None => None,
        }
    }

    /// The address of the bid of `wallet` on `nft_mint` and the bump it is
    /// found with; `None` where no bump derives one.
    pub fn get_address_with_bump(program_id: &Address, nft_mint: &Address, wallet: &Address) -> (r:
        Option<(Address, u8)>)
        ensures
            match r {
                Some((a, bump)) => Self::address_spec(program_id@, nft_mint@, wallet@) == Some(
                    (a@, bump),
                ),
                None => Self::address_spec(program_id@, nft_mint@, wallet@) is None,
            },
    {
        let seeds = Self::seeds(nft_mint, wallet);
        try_find_program_address(&seeds, program_id)
    }

    /// Checks that `address` is the address that `bump` derives for the bid
    /// of `wallet` on `nft_mint`. A different address is refused with
    /// `NFTBidAddressNotCorrect`; a bump that derives no address, with
    /// `InvalidSeeds`.
    pub fn verify_address(
        program_id: &Address,
        nft_mint: &Address,
        wallet: &Address,
        bump: u8,
        address: &Address,
    ) -> (r: Result<(), ProtocolError>)
        ensures
            r == (match Self::address_with(program_id@, nft_mint@, wallet@, bump) {
                Some(a) => if a == address@ {
                    Ok(())
                } else {
                    Err(ProtocolError::Liqz(liqzError::NFTBidAddressNotCorrect))
                },
                None => Err(ProtocolError::InvalidSeeds),
            }),
    {
        proof {
            lemma_bump_admissible(Self::seeds_spec(nft_mint@, wallet@), 255, bump);
        }
        verify_derived_address(
            Self::seeds(nft_mint, wallet),
            program_id,
            bump,
            address,
            liqzError::NFTBidAddressNotCorrect,
        )
    }

    /// What `locate` answers.
    pub open spec fn located(
        program_id: Seq<u8>,
        nft_mint: Seq<u8>,
        wallet: Seq<u8>,
        address: Seq<u8>,
    ) -> Result<u8, ProtocolError> {
        located_address(
            Self::seeds_spec(nft_mint, wallet),
            program_id,
            address,
            liqzError::NFTBidAddressNotCorrect,
        )
    }

    /// Finds the address of the bid of `wallet` on `nft_mint` and checks
    /// `address` against it. Answers with the bump of the address, with
    /// `NFTBidAddressNotCorrect` where `address` is another, and with
    /// `AddressNotDerivable` where no bump derives an address.
    pub fn locate(program_id: &Address, nft_mint: &Address, wallet: &Address, address: &Address) -> (r:
        Result<u8, ProtocolError>)
        ensures
            r == Self::located(program_id@, nft_mint@, wallet@, address@),
    {
        locate_derived_address(
            Self::seeds(nft_mint, wallet),
            program_id,
            address,
            liqzError::NFTBidAddressNotCorrect,
        )
    }
}

impl NFTBid {
    /// Bytes of the account that stores a bid.
    pub open spec fn account_size_spec() -> u64 {
        24
    }

    /// Bytes of the account that stores a bid: the kind tag and two integers.
    pub fn account_size() -> (r: u64)
        ensures
            r == Self::account_size_spec(),
            r == Self::ENCODED_LEN,
    {
        24
    }

    /// What `ensure` answers: the error of the address check; or, where the
    /// account does not exist yet, the empty bid and the actions that create
    /// it; or the bid that the account stores, and nothing to do.
    pub open spec fn ensured(
        program_id: Address,
        nft_mint: Address,
        wallet: Address,
        bid_account: AccountInfo,
    ) -> Result<(NFTBid, Seq<Action>), ProtocolError> {
        match Self::located(program_id@, nft_mint@, wallet@, bid_account.key@) {
            Err(e) => Err(e),
            Ok(bump) => if !bid_account.allocated() {
                Ok(
                    (
                        NFTBid::empty(),
                        creation(
                            program_id,
                            wallet,
                            bid_account.key,
                            Self::account_size_spec(),
                            DerivedSeeds::Bid { mint: nft_mint, wallet, bump },
                            Record::Bid(NFTBid::empty()),
                        ),
                    ),
                )
            } else {
                match Self::decoding(bid_account.data@) {
                    Some(bid) => Ok((bid, Seq::<Action>::empty())),
                    None => Err(ProtocolError::InvalidAccountData),
                }
            },
        }
    }

    /// The bid of `wallet` on `nft_mint`, brought into being where it is not
    /// there yet. `bid_account` must be the account at the bid's derived
    /// address. Where it does not exist, the answer is the empty bid with the
    /// actions that create and store it, paid for by `wallet`; where it
    /// exists, the bid it stores, with nothing to do.
    pub fn ensure(
        program_id: &Address,
        nft_mint: &Address,
        wallet: &Address,
        bid_account: &AccountInfo,
    ) -> (r: Result<(NFTBid, Vec<Action>), ProtocolError>)
        ensures
            match r {
                Ok((bid, actions)) => Self::ensured(*program_id, *nft_mint, *wallet, *bid_account)
                    == Ok::<(NFTBid, Seq<Action>), ProtocolError>((bid, actions@)),
                Err(e) => Self::ensured(*program_id, *nft_mint, *wallet, *bid_account) == Err::<
                    (NFTBid, Seq<Action>),
                    ProtocolError,
                >(e),
            },
    {
        let bump: u8 = match Self::locate(program_id, nft_mint, wallet, &bid_account.key) {
            Ok(bump) => bump,
            Err(e) => {
                return Err(e);
            },
        };
        let mut actions: Vec<Action> = Vec::new();
        if !is_account_allocated(bid_account) {
            let instance = NFTBid { price: 0, qty: 0 };
            let seeds = DerivedSeeds::Bid { mint: *nft_mint, wallet: *wallet, bump };
            actions.push(
                Action::CreateAccount(
                    CreateAccount {
                        funder: *wallet,
                        account: bid_account.key,
                        space: Self::account_size(),
                        owner: *program_id,
                        seeds,
                    },
                ),
            );
            actions.push(
                Action::WriteRecord { account: bid_account.key, record: Record::Bid(instance) },
            );
            assert(actions@ =~= creation(
                *program_id,
                *wallet,
                bid_account.key,
                Self::account_size_spec(),
                seeds,
                Record::Bid(NFTBid::empty()),
            ));
            Ok((instance, actions))
        } else {
            match Self::decode(bid_account.data.as_slice()) {
                Some(bid) => {
                    assert(actions@ =~= Seq::<Action>::empty());
                    Ok((bid, actions))
                },
                None => Err(ProtocolError::InvalidAccountData),
            }
        }
    }
}

} // verus!
