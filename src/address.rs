//! Addresses, program-derived addressing and native balances.
use anchor_lang::prelude::Pubkey;
use vstd::prelude::*;

verus! {

/// The longest seed, in bytes, that program-address derivation accepts.
pub const MAX_SEED_LEN: usize = 32;

/// A 32-byte ledger address (a public key or a program-derived address).
#[derive(Clone, Copy, Debug, PartialEq, Eq)]
pub struct Address {
    pub bytes: [u8; 32],
}

impl View for Address {
    type V = Seq<u8>;

    open spec fn view(&self) -> Seq<u8> {
        self.bytes@
    }
}

impl Address {
    pub fn new(bytes: [u8; 32]) -> (r: Address)
        ensures
            r@ == bytes@,
    {
        Address { bytes }
    }

    /// Byte-for-byte equality of two addresses.
    pub fn same_as(&self, other: &Address) -> (r: bool)
        ensures
            r == (self@ == other@),
    {
        let mut i: usize = 0;
        while i < 32
            invariant
                0 <= i <= 32,
                self@.len() == 32,
                other@.len() == 32,
                forall|j: int| 0 <= j < i ==> self@[j] == other@[j],
            decreases 32 - i,
        {
            if self.bytes[i] != other.bytes[i] {
                return false;
            }
            i = i + 1;
        }
        assert(self@ =~= other@);
        true
    }
}

/// Number of bytes in the UTF-8 encoding of `s`, as a machine word.
pub open spec fn byte_len(s: Seq<char>) -> usize {
    vstd::utf8::encode_utf8(s).len() as usize
}

/// Length of `s` in UTF-8 bytes.
pub fn str_byte_len(s: &String) -> (r: usize)
    ensures
        r == byte_len(s@),
{
    s.as_str().len()
}

/// The program-derived address (and its bump) of `seeds` under `program`, or
/// `None` where no viable bump exists or a seed is malformed.
pub uninterp spec fn program_address_of(seeds: Seq<Seq<u8>>, program: Seq<u8>) -> Option<(Seq<u8>, u8)>;

/// Relies on `Pubkey::try_find_program_address`: a pure function of the seeds
/// and the program id, which gives `None` when a seed is longer than
/// `MAX_SEED_LEN` bytes.
#[verifier::external_body]
fn try_find_program_address(seeds: &Vec<Vec<u8>>, program: &Address) -> (r: Option<(Address, u8)>)
    ensures
        r matches Some(p) ==> program_address_of(seeds@.map_values(|s: Vec<u8>| s@), program@)
            == Some((p.0@, p.1)),
        r is None ==> program_address_of(seeds@.map_values(|s: Vec<u8>| s@), program@) is None,
        (exists|i: int| 0 <= i < seeds@.len() && seeds@[i]@.len() > MAX_SEED_LEN) ==> r is None,
{
    let parts: Vec<&[u8]> = seeds.iter().map(|s| s.as_slice()).collect();
    Pubkey::try_find_program_address(&parts, &Pubkey::new_from_array(program.bytes)).map(
        |(k, b)| (Address { bytes: k.to_bytes() }, b),
    )
}

/// The address derived from a namespace tag and one seed under `program`.
pub open spec fn derived_address(tag: Seq<u8>, seed: Seq<u8>, program: Seq<u8>) -> Option<(Seq<u8>, u8)> {
    program_address_of(seq![tag, seed], program)
}

/// Derives the address of the record with namespace `tag` and key `seed`.
pub fn derive_address(tag: &[u8], seed: &[u8], program: &Address) -> (r: Option<(Address, u8)>)
    ensures
        r matches Some(p) ==> derived_address(tag@, seed@, program@) == Some((p.0@, p.1)),
        r is None ==> derived_address(tag@, seed@, program@) is None,
        seed@.len() > MAX_SEED_LEN ==> r is None,
{
    let mut seeds: Vec<Vec<u8>> = Vec::new();
    seeds.push(slice_to_vec(tag));
    seeds.push(slice_to_vec(seed));
    let ghost views = seeds@.map_values(|s: Vec<u8>| s@);
    assert(views =~= seq![tag@, seed@]);
    if seed.len() > MAX_SEED_LEN {
        assert(seeds@[1]@.len() > MAX_SEED_LEN);
    }
    try_find_program_address(&seeds, program)
}

fn slice_to_vec(s: &[u8]) -> (r: Vec<u8>)
    ensures
        r@ == s@,
{
    let mut v: Vec<u8> = Vec::new();
    let mut i: usize = 0;
    while i < s.len()
        invariant
            i <= s@.len(),
            v@ == s@.subrange(0, i as int),
        decreases s@.len() - i,
    {
        v.push(s[i]);
        i = i + 1;
    }
    assert(v@ =~= s@);
    v
}

/// Tests whether `key` is the address derived from `tag` and `seed` under `program`.
pub fn is_derived_address(key: &Address, tag: &[u8], seed: &[u8], program: &Address) -> (r: bool)
    ensures
        r == (derived_address(tag@, seed@, program@) matches Some(p) && p.0 == key@),
{
    match derive_address(tag, seed, program) {
        Some(p) => p.0.same_as(key),
        None => false,
    }
}

/// A native account as the ledger presents it to an operation: its address, its
/// balance, and whether the transaction carries its signature.
#[derive(Clone, Copy, Debug, PartialEq, Eq)]
pub struct Wallet {
    pub key: Address,
    pub lamports: u64,
    pub is_signer: bool,
}

/// Whether `amount` can move from `from` to `to`: the payer holds it and the
/// payee's balance does not overflow.
pub open spec fn can_move(from: Wallet, to: Wallet, amount: u64) -> bool {
    from.lamports >= amount && to.lamports + amount <= u64::MAX
}

/// Moves `amount` from `from` to `to`.
pub fn move_lamports(from: &mut Wallet, to: &mut Wallet, amount: u64)
    requires
        can_move(*old(from), *old(to), amount),
    ensures
        *final(from) == (Wallet { lamports: (old(from).lamports - amount) as u64, ..*old(from) }),
        *final(to) == (Wallet { lamports: (old(to).lamports + amount) as u64, ..*old(to) }),
{
    from.lamports = from.lamports - amount;
    to.lamports = to.lamports + amount;
}

} // verus!
