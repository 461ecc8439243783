//! Deterministic identity derivation.
//!
//! Every record of the escrow lives at an address computed from a fixed
//! sequence of byte-string seeds, so a pool, its treasury and each employee
//! record can be located again without any lookup index.  The derivation
//! itself is Solana's program-derived-address search; its result is a pure
//! function of the program id and the seeds, named here by `derived_of`.

use vstd::prelude::*;

verus! {

/// A 32-byte storage address, as the derivation scheme produces it.
#[derive(Clone, Copy)]
pub struct Address {
    pub bytes: [u8; 32],
}

impl View for Address {
    type V = Seq<u8>;

    open spec fn view(&self) -> Seq<u8> {
        self.bytes@
    }
}

impl Address {
    /// Wraps 32 raw bytes as an address.
    pub fn new(bytes: [u8; 32]) -> (r: Address)
        ensures
            r@ == bytes@,
    {
        Address { bytes }
    }
}

/// Byte-for-byte equality of two addresses.
pub fn address_eq(a: &Address, b: &Address) -> (r: bool)
    ensures
        r == (a@ == b@),
{
    let mut i: usize = 0;
    while i < 32
        invariant
            i <= 32,
            forall|j: int| 0 <= j < i ==> a@[j] == b@[j],
        decreases 32 - i,
    {
        if a.bytes[i] != b.bytes[i] {
            return false;
        }
        i += 1;
    }
    assert(a@ =~= b@);
    true
}

/// The view of a seed list: each seed as its byte sequence.
pub open spec fn seeds_view(seeds: Seq<Vec<u8>>) -> Seq<Seq<u8>> {
    seeds.map_values(|s: Vec<u8>| s@)
}

/// What the program-derived-address search returns for a program id and a
/// seed list: the derived address and its disambiguation nonce ("bump"), or
/// nothing when no viable nonce exists or a seed is over the scheme's length
/// bound.  The result is a pure function of the two arguments.
pub uninterp spec fn derived_of(program: Seq<u8>, seeds: Seq<Seq<u8>>) -> Option<(Seq<u8>, u8)>;

/// Relies on solana_pubkey::Pubkey::try_find_program_address: a deterministic
/// search over bump seeds, a pure function of the seeds and the program id,
/// returning None when a seed exceeds the scheme's length bound, when there
/// are too many seeds, or when no bump yields a viable address.
#[verifier::external_body]
pub(crate) fn find_derived_address(program: &Address, seeds: &Vec<Vec<u8>>) -> (r: Option<(
    Address,
    u8,
)>)
    ensures
        (match r {
            Some(p) => Some((p.0@, p.1)),
            None => None,
        }) == derived_of(program@, seeds_view(seeds@)),
{
    let seed_refs: Vec<&[u8]> = seeds.iter().map(|s| s.as_slice()).collect();
    let program_key = solana_pubkey::Pubkey::new_from_array(program.bytes);
    solana_pubkey::Pubkey::try_find_program_address(&seed_refs, &program_key).map(
        |(key, bump)| (Address { bytes: key.to_bytes() }, bump),
    )
}

/// Seed tag of a vesting pool: the bytes of "vesting_account".
pub open spec fn pool_tag() -> Seq<u8> {
    seq![118u8, 101, 115, 116, 105, 110, 103, 95, 97, 99, 99, 111, 117, 110, 116]
}

/// Seed tag of a pool treasury: the bytes of "treasury_token".
pub open spec fn treasury_tag() -> Seq<u8> {
    seq![116u8, 114, 101, 97, 115, 117, 114, 121, 95, 116, 111, 107, 101, 110]
}

/// Seed tag of an employee record: the bytes of "employee_account".
pub open spec fn employee_tag() -> Seq<u8> {
    seq![101u8, 109, 112, 108, 111, 121, 101, 101, 95, 97, 99, 99, 111, 117, 110, 116]
}

/// Seed tag of a beneficiary custody record: the bytes of "token_account".
pub open spec fn custody_tag() -> Seq<u8> {
    seq![116u8, 111, 107, 101, 110, 95, 97, 99, 99, 111, 117, 110, 116]
}

/// The seed list that addresses the pool of a company name.
pub open spec fn pool_seeds(name: Seq<u8>) -> Seq<Seq<u8>> {
    seq![pool_tag(), name]
}

/// The seed list that addresses the treasury of a company name.
pub open spec fn treasury_seeds(name: Seq<u8>) -> Seq<Seq<u8>> {
    seq![treasury_tag(), name]
}

/// The seed list that addresses the employee record of a beneficiary under a
/// pool.
pub open spec fn employee_seeds(beneficiary: Seq<u8>, pool: Seq<u8>) -> Seq<Seq<u8>> {
    seq![employee_tag(), beneficiary, pool]
}

/// The seed list that addresses the custody record of a beneficiary for a
/// mint.
pub open spec fn custody_seeds(beneficiary: Seq<u8>, mint: Seq<u8>) -> Seq<Seq<u8>> {
    seq![custody_tag(), beneficiary, mint]
}

/// The derived pool address and nonce for a company name.
pub open spec fn derived_pool(program: Seq<u8>, name: Seq<u8>) -> Option<(Seq<u8>, u8)> {
    derived_of(program, pool_seeds(name))
}

/// The derived treasury address and nonce for a company name.
pub open spec fn derived_treasury(program: Seq<u8>, name: Seq<u8>) -> Option<(Seq<u8>, u8)> {
    derived_of(program, treasury_seeds(name))
}

/// The derived employee-record address and nonce for a beneficiary and a
/// pool address.
pub open spec fn derived_employee(program: Seq<u8>, beneficiary: Seq<u8>, pool: Seq<u8>) -> Option<
    (Seq<u8>, u8),
> {
    derived_of(program, employee_seeds(beneficiary, pool))
}

/// The derived custody address and nonce for a beneficiary and a mint.
pub open spec fn derived_custody(program: Seq<u8>, beneficiary: Seq<u8>, mint: Seq<u8>) -> Option<
    (Seq<u8>, u8),
> {
    derived_of(program, custody_seeds(beneficiary, mint))
}

fn pool_tag_bytes() -> (r: Vec<u8>)
    ensures
        r@ == pool_tag(),
{
    let r: Vec<u8> = vec![118u8, 101, 115, 116, 105, 110, 103, 95, 97, 99, 99, 111, 117, 110, 116];
    assert(r@ =~= pool_tag());
    r
}

fn treasury_tag_bytes() -> (r: Vec<u8>)
    ensures
        r@ == treasury_tag(),
{
    let r: Vec<u8> = vec![116u8, 114, 101, 97, 115, 117, 114, 121, 95, 116, 111, 107, 101, 110];
    assert(r@ =~= treasury_tag());
    r
}

fn employee_tag_bytes() -> (r: Vec<u8>)
    ensures
        r@ == employee_tag(),
{
    let r: Vec<u8> = vec![
        101u8,
        109,
        112,
        108,
        111,
        121,
        101,
        101,
        95,
        97,
        99,
        99,
        111,
        117,
        110,
        116,
    ];
    assert(r@ =~= employee_tag());
    r
}

fn custody_tag_bytes() -> (r: Vec<u8>)
    ensures
        r@ == custody_tag(),
{
    let r: Vec<u8> = vec![116u8, 111, 107, 101, 110, 95, 97, 99, 99, 111, 117, 110, 116];
    assert(r@ =~= custody_tag());
    r
}

fn bytes_of_address(a: &Address) -> (r: Vec<u8>)
    ensures
        r@ == a@,
{
    let mut r: Vec<u8> = Vec::new();
    let mut i: usize = 0;
    while i < 32
        invariant
            i <= 32,
            r@ =~= a@.subrange(0, i as int),
        decreases 32 - i,
    {
        r.push(a.bytes[i]);
        i += 1;
    }
    assert(r@ =~= a@);
    r
}

/// Derives the pool address and nonce for a company name.
pub(crate) fn derive_pool_address(program: &Address, name: &Vec<u8>) -> (r: Option<(Address, u8)>)
    ensures
        (match r {
            Some(p) => Some((p.0@, p.1)),
            None => None,
        }) == derived_pool(program@, name@),
{
    let mut seeds: Vec<Vec<u8>> = Vec::new();
    seeds.push(pool_tag_bytes());
    seeds.push(clone_bytes(name));
    assert(seeds_view(seeds@) =~= pool_seeds(name@));
    find_derived_address(program, &seeds)
}

/// Derives the treasury address and nonce for a company name.
pub(crate) fn derive_treasury_address(program: &Address, name: &Vec<u8>) -> (r: Option<(
    Address,
    u8,
)>)
    ensures
        (match r {
            Some(p) => Some((p.0@, p.1)),
            None => None,
        }) == derived_treasury(program@, name@),
{
    let mut seeds: Vec<Vec<u8>> = Vec::new();
    seeds.push(treasury_tag_bytes());
    seeds.push(clone_bytes(name));
    assert(seeds_view(seeds@) =~= treasury_seeds(name@));
    find_derived_address(program, &seeds)
}

/// Derives the employee-record address and nonce for a beneficiary under a
/// pool.
pub(crate) fn derive_employee_address(program: &Address, beneficiary: &Address, pool: &Address) -> (r:
    Option<(Address, u8)>)
    ensures
        (match r {
            Some(p) => Some((p.0@, p.1)),
            None => None,
        }) == derived_employee(program@, beneficiary@, pool@),
{
    let mut seeds: Vec<Vec<u8>> = Vec::new();
    seeds.push(employee_tag_bytes());
    seeds.push(bytes_of_address(beneficiary));
    seeds.push(bytes_of_address(pool));
    assert(seeds_view(seeds@) =~= employee_seeds(beneficiary@, pool@));
    find_derived_address(program, &seeds)
}

/// Derives the custody address and nonce for a beneficiary and a mint.
pub(crate) fn derive_custody_address(program: &Address, beneficiary: &Address, mint: &Address) -> (r:
    Option<(Address, u8)>)
    ensures
        (match r {
            Some(p) => Some((p.0@, p.1)),
            None => None,
        }) == derived_custody(program@, beneficiary@, mint@),
{
    let mut seeds: Vec<Vec<u8>> = Vec::new();
    seeds.push(custody_tag_bytes());
    seeds.push(bytes_of_address(beneficiary));
    seeds.push(bytes_of_address(mint));
    assert(seeds_view(seeds@) =~= custody_seeds(beneficiary@, mint@));
    find_derived_address(program, &seeds)
}

/// Copies a byte vector.
pub fn clone_bytes(v: &Vec<u8>) -> (r: Vec<u8>)
    ensures
        r@ == v@,
{
    let mut r: Vec<u8> = Vec::new();
    let mut i: usize = 0;
    while i < v.len()
        invariant
            i <= v@.len(),
            r@ =~= v@.subrange(0, i as int),
        decreases v@.len() - i,
    {
        r.push(v[i]);
        i += 1;
    }
    assert(r@ =~= v@);
    r
}

} // verus!
