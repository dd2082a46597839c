use vstd::prelude::*;
use solana_program::pubkey::Pubkey;

verus! {

/// Number of bytes in an on-chain address.
pub const ADDRESS_LEN: usize = 32;

/// A 32-byte on-chain address. The all-zero value is the "absent" sentinel.
#[derive(Clone, Copy, Debug, PartialEq, Eq)]
pub struct Address {
    pub bytes: [u8; 32],
}

/// The seed of the escrow account address: the bytes of "escrow".
pub open spec fn escrow_seed() -> Seq<u8> {
    seq![101u8, 115u8, 99u8, 114u8, 111u8, 119u8]
}

/// The identifier of the relayer program that owns escrow accounts.
pub open spec fn relayer_program() -> Seq<u8> {
    seq![
        187u8, 166u8, 39u8, 208u8, 93u8, 176u8, 85u8, 220u8,
        174u8, 30u8, 191u8, 59u8, 55u8, 152u8, 16u8, 153u8,
        37u8, 224u8, 22u8, 180u8, 56u8, 150u8, 7u8, 194u8,
        60u8, 163u8, 236u8, 166u8, 228u8, 42u8, 118u8, 172u8,
    ]
}

/// The address that a program derives from a list of seeds, or `None` when no
/// bump seed gives a valid program address.
pub uninterp spec fn program_address_of(seeds: Seq<Seq<u8>>, program: Seq<u8>) -> Option<Seq<u8>>;

/// The address of the escrow account of `authority`.
pub open spec fn escrow_address_of(authority: Seq<u8>) -> Option<Seq<u8>> {
    program_address_of(seq![escrow_seed(), authority], relayer_program())
}

impl Address {
    pub open spec fn is_zero_spec(&self) -> bool {
        forall|i: int| 0 <= i < 32 ==> self.bytes@[i] == 0
    }

    /// The zero sentinel.
    pub fn zero() -> (r: Address)
        ensures
            r.is_zero_spec(),
    {
        Address { bytes: [0u8; 32] }
    }

    pub fn from_bytes(bytes: [u8; 32]) -> (r: Address)
        ensures
            r.bytes@ == bytes@,
    {
        Address { bytes }
    }

    /// Whether two addresses are the same.
    pub fn same(&self, other: &Address) -> (r: bool)
        ensures
            r == (*self == *other),
    {
        let mut i: usize = 0;
        while i < ADDRESS_LEN
            invariant
                i <= 32,
                forall|j: int| 0 <= j < i ==> self.bytes@[j] == other.bytes@[j],
            decreases 32 - i,
        {
            if self.bytes[i] != other.bytes[i] {
                return false;
            }
            i = i + 1;
        }
        proof {
            broadcast use vstd::array::axiom_array_ext_equal;
            assert(self.bytes@ =~= other.bytes@);
            assert(self.bytes == other.bytes);
        }
        true
    }

    /// Whether this is the zero sentinel.
    pub fn is_zero(&self) -> (r: bool)
        ensures
            r == self.is_zero_spec(),
    {
        let mut i: usize = 0;
        while i < ADDRESS_LEN
            invariant
                i <= 32,
                forall|j: int| 0 <= j < i ==> self.bytes@[j] == 0,
            decreases 32 - i,
        {
            if self.bytes[i] != 0 {
                return false;
            }
            i = i + 1;
        }
        true
    }
}

/// Relies on ore_relayer_api::consts::ESCROW, the seed of escrow addresses.
#[verifier::external_body]
fn escrow_seed_bytes() -> (r: &'static [u8])
    ensures
        r@ == escrow_seed(),
{
    ore_relayer_api::consts::ESCROW
}

/// Relies on ore_relayer_api::id, the relayer program's identifier.
#[verifier::external_body]
fn relayer_program_id() -> (r: [u8; 32])
    ensures
        r@ == relayer_program(),
{
    ore_relayer_api::id().to_bytes()
}

/// Relies on Pubkey::try_find_program_address: the derived address for the
/// two seeds, or `None` where no bump seed yields one. The bump is dropped.
#[verifier::external_body]
fn find_program_address(seed: &[u8], key: &[u8; 32], program: &[u8; 32]) -> (r: Option<[u8; 32]>)
    ensures
        match r {
            Some(a) => program_address_of(seq![seed@, key@], program@) == Some(a@),
            None => program_address_of(seq![seed@, key@], program@) is None,
        },
{
    Pubkey::try_find_program_address(&[seed, key.as_slice()], &Pubkey::new_from_array(*program))
        .map(|found| found.0.to_bytes())
}

/// Derives the address of the escrow account that belongs to `authority`.
pub fn escrow_address(authority: &Address) -> (r: Option<Address>)
    ensures
        match r {
            Some(a) => escrow_address_of(authority.bytes@) == Some(a.bytes@),
            None => escrow_address_of(authority.bytes@) is None,
        },
{
    let seed = escrow_seed_bytes();
    let program = relayer_program_id();
    match find_program_address(seed, &authority.bytes, &program) {
        Some(found) => Some(Address { bytes: found }),
        None => None,
    }
}

} // verus!
