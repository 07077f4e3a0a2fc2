//! Account addresses and their derivation from seeds.
//!
//! A record of the protocol lives at an address that anyone can recompute from
//! a domain tag, the identities the record belongs to and the program that owns
//! it. The derivation itself (a hash and a curve test) is done by
//! `solana_program`; this module names its result and proves what the callers
//! rely on: an address that was found is derived again from the same seeds and
//! the bump that was found with it.

use crate::error::liqzError;
use crate::error::ProtocolError;
use solana_program::pubkey::Pubkey;
use solana_program::pubkey::PubkeyError;
use vstd::prelude::*;
use vstd::std_specs::cmp::PartialEqSpecImpl;

verus! {

/// Largest number of seeds a derivation accepts, the bump seed included.
pub const MAX_SEEDS: usize = 16;

/// Largest number of bytes in one seed.
pub const MAX_SEED_LEN: usize = 32;

/// The address of an account: 32 bytes, compared byte by byte.
#[derive(Clone, Copy, Debug)]
pub struct Address {
    pub bytes: [u8; 32],
}

impl View for Address {
    type V = Seq<u8>;

    open spec fn view(&self) -> Seq<u8> {
        self.bytes@
    }
}

impl PartialEq for Address {
    fn eq(&self, other: &Self) -> (r: bool) {
        let mut i: usize = 0;
        while i < 32
            invariant
                i <= 32,
                forall|j: int| 0 <= j < i ==> self.bytes[j] == other.bytes[j],
            decreases 32 - i,
        {
            if self.bytes[i] != other.bytes[i] {
                return false;
            }
            i += 1;
        }
        assert(self.bytes@ =~= other.bytes@);
        true
    }
}

impl Eq for Address {

}

impl PartialEqSpecImpl for Address {
    open spec fn obeys_eq_spec() -> bool {
        true
    }

    open spec fn eq_spec(&self, other: &Self) -> bool {
        self@ == other@
    }
}

impl Address {
    /// The address with the given bytes.
    pub fn new(bytes: [u8; 32]) -> (r: Address)
        ensures
            r.bytes == bytes,
            r@ == bytes@,
    {
        Address { bytes }
    }

    /// The bytes of the address, as a seed of a derivation takes them.
    pub fn to_vec(&self) -> (r: Vec<u8>)
        ensures
            r@ == self@,
            r@.len() == 32,
    {
        let mut out: Vec<u8> = Vec::new();
        let mut i: usize = 0;
        while i < 32
            invariant
                i <= 32,
                out@.len() == i,
                forall|j: int| 0 <= j < i ==> out@[j] == self.bytes[j],
            decreases 32 - i,
        {
            out.push(self.bytes[i]);
            i += 1;
        }
        assert(out@ =~= self@);
        out
    }

    /// The address whose bytes are `s`, for a sequence of 32 bytes.
    pub closed spec fn from_seq(s: Seq<u8>) -> Address {
        choose|a: Address| a@ == s
    }

    /// `from_seq` undoes the view.
    pub proof fn lemma_from_seq(a: Address)
        ensures
            Address::from_seq(a@) == a,
    {
        Address::lemma_view_decides(Address::from_seq(a@), a);
    }

    /// The address made of the 32 bytes of `data` that start at `at`.
    pub fn from_slice(data: &[u8], at: usize) -> (r: Address)
        requires
            at + 32 <= data@.len(),
        ensures
            r@ == data@.subrange(at as int, at + 32),
            r == Address::from_seq(data@.subrange(at as int, at + 32)),
    {
        let mut bytes: [u8; 32] = [0u8; 32];
        let len: usize = data.len();
        let mut i: usize = 0;
        while i < 32
            invariant
                i <= 32,
                len == data@.len(),
                at + 32 <= len,
                forall|j: int| 0 <= j < i ==> bytes[j] == data@[at + j],
            decreases 32 - i,
        {
            bytes[i] = data[at + i];
            i += 1;
        }
        let r = Address { bytes };
        assert(r@ =~= data@.subrange(at as int, at + 32));
        proof {
            Address::lemma_from_seq(r);
        }
        r
    }

    /// Two addresses with the same bytes are the same value.
    pub proof fn lemma_view_decides(a: Address, b: Address)
        ensures
            (a@ == b@) <==> (a == b),
    {
        if a@ == b@ {
            assert(a.bytes =~= b.bytes);
        }
    }
}

/// A kind of record whose address is derived from a domain tag of its own.
pub trait DerivedAccountIdentifier {
    /// The domain tag: the first seed of every address of this kind.
    spec fn seed_spec() -> Seq<u8>;

    /// The domain tag as bytes.
    fn seed() -> (r: Vec<u8>)
        ensures
            r@ == Self::seed_spec(),
            r@.len() <= MAX_SEED_LEN,
    ;
}

/// Why a list of seeds derives no address.
#[derive(Clone, Copy, Debug, PartialEq, Eq, Structural)]
pub enum SeedError {
    /// More than [`MAX_SEEDS`] seeds, or a seed of more than [`MAX_SEED_LEN`] bytes.
    MaxSeedLengthExceeded,
    /// The seeds hash to a point of the curve, which is no program address.
    InvalidSeeds,
    /// The owner is not allowed.
    IllegalOwner,
}

/// The address that `seeds` derive for `program_id`, or `None` where their
/// hash is a point of the curve. It stands for what
/// `Pubkey::create_program_address` computes on seeds it admits.
pub uninterp spec fn derived_address(seeds: Seq<Seq<u8>>, program_id: Seq<u8>) -> Option<Seq<u8>>;

/// The seeds as sequences of bytes.
pub open spec fn seeds_view(seeds: &Vec<Vec<u8>>) -> Seq<Seq<u8>> {
    Seq::new(seeds@.len(), |i: int| seeds@[i]@)
}

/// Seeds that a derivation admits: at most [`MAX_SEEDS`] of them, each of at
/// most [`MAX_SEED_LEN`] bytes.
pub open spec fn seeds_admissible(seeds: Seq<Seq<u8>>) -> bool {
    &&& seeds.len() <= MAX_SEEDS
    &&& forall|i: int| 0 <= i < seeds.len() ==> (#[trigger] seeds[i]).len() <= MAX_SEED_LEN
}

/// The seeds with one more seed of a single byte, the bump.
pub open spec fn with_bump(seeds: Seq<Seq<u8>>, bump: u8) -> Seq<Seq<u8>> {
    seeds.push(seq![bump])
}

/// The first bump, counting down from `bump` to 1, with which the seeds derive
/// an address, and that address.
pub open spec fn search_bump(seeds: Seq<Seq<u8>>, program_id: Seq<u8>, bump: u8) -> Option<
    (Seq<u8>, u8),
>
    decreases bump,
{
    if bump == 0 {
        None
    } else {
        match derived_address(with_bump(seeds, bump), program_id) {
            Some(a) => Some((a, bump)),
            None => search_bump(seeds, program_id, (bump - 1) as u8),
        }
    }
}

/// The address and bump that a search over all bumps finds for the seeds:
/// the greatest bump from 255 down to 1 that derives an address. `None` where
/// the seeds with a bump are not admissible, or no bump derives one.
pub open spec fn found_address(seeds: Seq<Seq<u8>>, program_id: Seq<u8>) -> Option<(Seq<u8>, u8)> {
    if seeds_admissible(with_bump(seeds, 255)) {
        search_bump(seeds, program_id, 255)
    } else {
        None
    }
}

/// Calls `Pubkey::create_program_address` on seeds that it admits. The
/// contract claims what its source shows of such seeds: they give the address
/// named [`derived_address`], or `InvalidSeeds` where there is none.
#[verifier::external_body]
pub(crate) fn create_program_address(seeds: &Vec<Vec<u8>>, program_id: &Address) -> (r: Result<
    Address,
    SeedError,
>)
    requires
        seeds_admissible(seeds_view(seeds)),
    ensures
        match r {
            Ok(a) => derived_address(seeds_view(seeds), program_id@) == Some(a@),
            Err(e) => e == SeedError::InvalidSeeds && derived_address(
                seeds_view(seeds),
                program_id@,
            ) is None,
        },
{
    let parts: Vec<&[u8]> = seeds.iter().map(|s| s.as_slice()).collect();
    match Pubkey::create_program_address(&parts, &Pubkey::new_from_array(program_id.bytes)) {
        Ok(key) => Ok(Address { bytes: key.to_bytes() }),
        Err(PubkeyError::MaxSeedLengthExceeded) => Err(SeedError::MaxSeedLengthExceeded),
        Err(PubkeyError::InvalidSeeds) => Err(SeedError::InvalidSeeds),
        Err(PubkeyError::IllegalOwner) => Err(SeedError::IllegalOwner),
    }
}

/// Calls `Pubkey::try_find_program_address` on seeds that are admitted with a
/// bump. It tries the bumps from 255 down to 1 with `create_program_address`
/// and returns the first address that comes out, with its bump. The contract
/// claims exactly that search, over [`derived_address`].
#[verifier::external_body]
pub(crate) fn try_find_program_address(seeds: &Vec<Vec<u8>>, program_id: &Address) -> (r: Option<
    (Address, u8),
>)
    requires
        seeds_admissible(with_bump(seeds_view(seeds), 255)),
    ensures
        match r {
            Some((a, bump)) => found_address(seeds_view(seeds), program_id@) == Some((a@, bump)),
            None => found_address(seeds_view(seeds), program_id@) is None,
        },
{
    let parts: Vec<&[u8]> = seeds.iter().map(|s| s.as_slice()).collect();
    match Pubkey::try_find_program_address(&parts, &Pubkey::new_from_array(program_id.bytes)) {
        Some((key, bump)) => Some((Address { bytes: key.to_bytes() }, bump)),
        None => None,
    }
}

/// Whether the seeds are admitted once a bump is added to them: fewer than
/// [`MAX_SEEDS`] seeds, none longer than [`MAX_SEED_LEN`].
pub fn admits_with_bump(seeds: &Vec<Vec<u8>>) -> (r: bool)
    ensures
        r == seeds_admissible(with_bump(seeds_view(seeds), 255)),
{
    let ghost extended = with_bump(seeds_view(seeds), 255);
    if seeds.len() >= MAX_SEEDS {
        return false;
    }
    let mut i: usize = 0;
    while i < seeds.len()
        invariant
            i <= seeds.len(),
            seeds.len() < MAX_SEEDS,
            extended == with_bump(seeds_view(seeds), 255),
            forall|j: int| 0 <= j < i ==> (#[trigger] extended[j]).len() <= MAX_SEED_LEN,
        decreases seeds.len() - i,
    {
        if seeds[i].len() > MAX_SEED_LEN {
            assert(extended[i as int] == seeds@[i as int]@);
            return false;
        }
        assert(extended[i as int] == seeds@[i as int]@);
        i += 1;
    }
    assert forall|j: int| 0 <= j < extended.len() implies (#[trigger] extended[j]).len()
        <= MAX_SEED_LEN by {
        if j == seeds.len() {
            assert(extended[j] == seq![255u8]);
        }
    }
    true
}

/// Admissibility of seeds with a bump does not depend on the bump.
pub proof fn lemma_bump_admissible(seeds: Seq<Seq<u8>>, b1: u8, b2: u8)
    requires
        seeds_admissible(with_bump(seeds, b1)),
    ensures
        seeds_admissible(with_bump(seeds, b2)),
{
    let s1 = with_bump(seeds, b1);
    let s2 = with_bump(seeds, b2);
    assert forall|i: int| 0 <= i < s2.len() implies (#[trigger] s2[i]).len() <= MAX_SEED_LEN by {
        if i < seeds.len() {
            assert(s2[i] == s1[i]);
        } else {
            assert(s2[i] == seq![b2]);
        }
    }
}

/// What a search from `bump` downwards finds is derived by the bump it found.
pub proof fn lemma_search_bump_rederives(seeds: Seq<Seq<u8>>, program_id: Seq<u8>, bump: u8)
    ensures
        search_bump(seeds, program_id, bump) matches Some((a, b)) ==> 1 <= b <= bump
            && derived_address(with_bump(seeds, b), program_id) == Some(a),
    decreases bump,
{
    if bump != 0 {
        if derived_address(with_bump(seeds, bump), program_id) is None {
            lemma_search_bump_rederives(seeds, program_id, (bump - 1) as u8);
        }
    }
}

/// An address that was found is the address that the same seeds derive with
/// the bump that was found: whoever holds the seeds and the bump can check a
/// supplied address without searching again.
pub proof fn lemma_found_address_rederives(seeds: Seq<Seq<u8>>, program_id: Seq<u8>)
    ensures
        found_address(seeds, program_id) matches Some((a, b)) ==> b >= 1 && seeds_admissible(
            with_bump(seeds, b),
        ) && derived_address(with_bump(seeds, b), program_id) == Some(a),
{
    if seeds_admissible(with_bump(seeds, 255)) {
        lemma_search_bump_rederives(seeds, program_id, 255);
        if let Some((a, b)) = search_bump(seeds, program_id, 255) {
            lemma_bump_admissible(seeds, 255, b);
        }
    }
}

/// What a check of `address` against the seeds and a bump answers: the
/// address is the derived one, or it is another (`mismatch`), or the bump
/// derives none.
pub open spec fn checked_address(
    seeds: Seq<Seq<u8>>,
    program_id: Seq<u8>,
    bump: u8,
    address: Seq<u8>,
    mismatch: liqzError,
) -> Result<(), ProtocolError> {
    if !seeds_admissible(with_bump(seeds, bump)) {
        Err(ProtocolError::MaxSeedLengthExceeded)
    } else {
        match derived_address(with_bump(seeds, bump), program_id) {
            Some(a) => if a == address {
                Ok(())
            } else {
                Err(ProtocolError::Liqz(mismatch))
            },
            None => Err(ProtocolError::InvalidSeeds),
        }
    }
}

/// What a search for the record's address and the check of `address`
/// against it answer: the bump, where `address` is the one that was found.
pub open spec fn located_address(
    seeds: Seq<Seq<u8>>,
    program_id: Seq<u8>,
    address: Seq<u8>,
    mismatch: liqzError,
) -> Result<u8, ProtocolError> {
    match found_address(seeds, program_id) {
        Some((a, bump)) => if a == address {
            Ok(bump)
        } else {
            Err(ProtocolError::Liqz(mismatch))
        },
        None => Err(ProtocolError::AddressNotDerivable),
    }
}

/// Checks `address` against the address that the seeds derive with `bump`.
/// Seeds that are too many or too long are refused before anything is
/// derived.
pub fn verify_derived_address(
    seeds: Vec<Vec<u8>>,
    program_id: &Address,
    bump: u8,
    address: &Address,
    mismatch: liqzError,
) -> (r: Result<(), ProtocolError>)
    ensures
        r == checked_address(seeds_view(&seeds), program_id@, bump, address@, mismatch),
{
    if !admits_with_bump(&seeds) {
        proof {
            if seeds_admissible(with_bump(seeds_view(&seeds), bump)) {
                lemma_bump_admissible(seeds_view(&seeds), bump, 255);
            }
        }
        return Err(ProtocolError::MaxSeedLengthExceeded);
    }
    proof {
        lemma_bump_admissible(seeds_view(&seeds), 255, bump);
    }
    let seeds = seeds_with_bump(seeds, bump);
    match create_program_address(&seeds, program_id) {
        Ok(derived) => {
            if derived == *address {
                Ok(())
            } else {
                Err(ProtocolError::Liqz(mismatch))
            }
        },
        Err(_) => Err(ProtocolError::InvalidSeeds),
    }
}

/// Searches the address that the seeds derive and checks `address` against
/// it, deriving once more with the bump that was found. Answers with that
/// bump. Seeds that are too many or too long derive nothing.
pub fn locate_derived_address(
    seeds: Vec<Vec<u8>>,
    program_id: &Address,
    address: &Address,
    mismatch: liqzError,
) -> (r: Result<u8, ProtocolError>)
    ensures
        r == located_address(seeds_view(&seeds), program_id@, address@, mismatch),
{
    if !admits_with_bump(&seeds) {
        return Err(ProtocolError::AddressNotDerivable);
    }
    let bump: u8 = match try_find_program_address(&seeds, program_id) {
        Some((_, bump)) => bump,
        None => {
            return Err(ProtocolError::AddressNotDerivable);
        },
    };
    proof {
        lemma_found_address_rederives(seeds_view(&seeds), program_id@);
    }
    match verify_derived_address(seeds, program_id, bump, address, mismatch) {
        Ok(()) => Ok(bump),
        Err(e) => Err(e),
    }
}

/// The seeds of a derivation as the host takes them: the given seeds followed
/// by the bump.
pub fn seeds_with_bump(seeds: Vec<Vec<u8>>, bump: u8) -> (r: Vec<Vec<u8>>)
    ensures
        seeds_view(&r) == with_bump(seeds_view(&seeds), bump),
{
    let mut out = seeds;
    let mut last: Vec<u8> = Vec::new();
    last.push(bump);
    assert(last@ =~= seq![bump]);
    out.push(last);
    assert(seeds_view(&out) =~= with_bump(seeds_view(&seeds), bump));
    out
}

} // verus!
