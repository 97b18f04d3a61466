//! Account addresses and their deterministic derivation.

use anchor_lang::prelude::Pubkey;
use vstd::prelude::*;

verus! {

/// A 32-byte account address.
#[derive(Clone, Copy, Debug, PartialEq, Eq)]
pub struct Address {
    pub bytes: [u8; 32],
}

impl View for Address {
    type V = Seq<u8>;

    open spec fn view(&self) -> Seq<u8> {
        self.bytes@
    }
}

impl Address {
    pub fn new(bytes: [u8; 32]) -> (r: Address)
        ensures
            r.bytes == bytes,
    {
        Address { bytes }
    }

    /// Byte-wise comparison of two addresses.
    pub fn same(&self, other: &Address) -> (r: bool)
        ensures
            r == (self@ == other@),
    {
        let mut i: usize = 0;
        while i < 32
            invariant
                i <= 32,
                forall|j: int| 0 <= j < i ==> self.bytes@[j] == other.bytes@[j],
            decreases 32 - i,
        {
            if self.bytes[i] != other.bytes[i] {
                return false;
            }
            i += 1;
        }
        proof {
            assert(self@ =~= other@);
        }
        true
    }
}

/// The bytes of the label `state`, the first seed of a state record's address.
pub open spec fn state_label() -> Seq<u8> {
    seq![115u8, 116u8, 97u8, 116u8, 101u8]
}

/// The bytes of the label `vault`, the first seed of a vault's address.
pub open spec fn vault_label() -> Seq<u8> {
    seq![118u8, 97u8, 117u8, 108u8, 116u8]
}

/// The address that `Pubkey::create_program_address` gives for a list of
/// seeds under a program, `None` where it refuses them.
pub uninterp spec fn program_address(seeds: Seq<Seq<u8>>, program_id: Seq<u8>) -> Option<Seq<u8>>;

/// The address and bump that `Pubkey::try_find_program_address` gives for a
/// list of seeds under a program, `None` where it finds none.
pub uninterp spec fn found_program_address(seeds: Seq<Seq<u8>>, program_id: Seq<u8>) -> Option<
    (Seq<u8>, u8),
>;

/// An optional address as the bytes it holds.
pub open spec fn address_bytes(a: Option<Address>) -> Option<Seq<u8>> {
    match a {
        Some(a) => Some(a@),
        None => None,
    }
}

/// An optional address with its bump, the address as the bytes it holds.
pub open spec fn derived_bytes(d: Option<(Address, u8)>) -> Option<(Seq<u8>, u8)> {
    match d {
        Some((a, bump)) => Some((a@, bump)),
        None => None,
    }
}

/// Where a state record lives for a user: the address found from the label
/// `state` and the user's identity, with the bump that was found.
pub open spec fn state_address(user: Seq<u8>, program_id: Seq<u8>) -> Option<(Seq<u8>, u8)> {
    found_program_address(seq![state_label(), user], program_id)
}

/// Where the vault of a state record lives: the address found from the label
/// `vault` and the state record's address, with the bump that was found.
pub open spec fn vault_address(state: Seq<u8>, program_id: Seq<u8>) -> Option<(Seq<u8>, u8)> {
    found_program_address(seq![vault_label(), state], program_id)
}

/// The state address rebuilt from a user's identity and a stored bump.
pub open spec fn state_address_at(user: Seq<u8>, bump: u8, program_id: Seq<u8>) -> Option<Seq<u8>> {
    program_address(seq![state_label(), user, seq![bump]], program_id)
}

/// The vault address rebuilt from a state record's address and a stored bump.
pub open spec fn vault_address_at(state: Seq<u8>, bump: u8, program_id: Seq<u8>) -> Option<
    Seq<u8>,
> {
    program_address(seq![vault_label(), state, seq![bump]], program_id)
}

/// Calls `Pubkey::create_program_address` on the three seeds `label`, the
/// bytes of `seed` and the single byte `bump`. The contract claims only that
/// the outcome is the one named by `program_address` for those seeds and that
/// program, an error of the call read as `None`.
#[verifier::external_body]
fn create_address(label: &[u8], seed: &Address, bump: u8, program_id: &Address) -> (r: Option<
    Address,
>)
    ensures
        address_bytes(r) == program_address(seq![label@, seed@, seq![bump]], program_id@),
{
    let id = Pubkey::new_from_array(program_id.bytes);
    match Pubkey::create_program_address(&[label, &seed.bytes, &[bump]], &id) {
        Ok(key) => Some(Address { bytes: key.to_bytes() }),
        Err(_) => None,
    }
}

/// Calls `Pubkey::try_find_program_address` on the two seeds `label` and the
/// bytes of `seed`. The contract claims that the outcome is the one named by
/// `found_program_address`, and that an address it finds is the one that
/// `Pubkey::create_program_address` gives for the same seeds followed by the
/// bump it returns: the search tries bumps until that call succeeds and
/// returns what it gave.
#[verifier::external_body]
fn find_address(label: &[u8], seed: &Address, program_id: &Address) -> (r: Option<(Address, u8)>)
    ensures
        derived_bytes(r) == found_program_address(seq![label@, seed@], program_id@),
        r matches Some((a, bump)) ==> program_address(
            seq![label@, seed@, seq![bump]],
            program_id@,
        ) == Some(a@),
{
    let id = Pubkey::new_from_array(program_id.bytes);
    match Pubkey::try_find_program_address(&[label, &seed.bytes], &id) {
        Some((key, bump)) => Some((Address { bytes: key.to_bytes() }, bump)),
        None => None,
    }
}

fn state_seed() -> (r: [u8; 5])
    ensures
        r@ == state_label(),
{
    let r: [u8; 5] = [115, 116, 97, 116, 101];
    proof {
        assert(r@ =~= state_label());
    }
    r
}

fn vault_seed() -> (r: [u8; 5])
    ensures
        r@ == vault_label(),
{
    let r: [u8; 5] = [118, 97, 117, 108, 116];
    proof {
        assert(r@ =~= vault_label());
    }
    r
}

/// Finds the address of a user's state record and its bump.
pub fn derive_state_address(user: &Address, program_id: &Address) -> (r: Option<(Address, u8)>)
    ensures
        derived_bytes(r) == state_address(user@, program_id@),
        r matches Some((a, bump)) ==> state_address_at(user@, bump, program_id@) == Some(a@),
{
    let label = state_seed();
    find_address(label.as_slice(), user, program_id)
}

/// Finds the address of the vault that belongs to a state record, and its bump.
pub fn derive_vault_address(state: &Address, program_id: &Address) -> (r: Option<(Address, u8)>)
    ensures
        derived_bytes(r) == vault_address(state@, program_id@),
        r matches Some((a, bump)) ==> vault_address_at(state@, bump, program_id@) == Some(a@),
{
    let label = vault_seed();
    find_address(label.as_slice(), state, program_id)
}

/// Rebuilds the address of a user's state record from a stored bump.
pub fn rebuild_state_address(user: &Address, bump: u8, program_id: &Address) -> (r: Option<
    Address,
>)
    ensures
        address_bytes(r) == state_address_at(user@, bump, program_id@),
{
    let label = state_seed();
    create_address(label.as_slice(), user, bump, program_id)
}

/// Rebuilds the address of a state record's vault from a stored bump.
pub fn rebuild_vault_address(state: &Address, bump: u8, program_id: &Address) -> (r: Option<
    Address,
>)
    ensures
        address_bytes(r) == vault_address_at(state@, bump, program_id@),
{
    let label = vault_seed();
    create_address(label.as_slice(), state, bump, program_id)
}

/// Whether a claimed address is the one that a derivation found; the bump on
/// a match.
pub fn matching_bump(claimed: &Address, derived: Option<(Address, u8)>) -> (r: Option<u8>)
    ensures
        r == matching_bump_of(claimed@, derived_bytes(derived)),
{
    match derived {
        Some((a, bump)) => {
            if a.same(claimed) {
                Some(bump)
            } else {
                None
            }
        },
        None => None,
    }
}

/// The bump of a derivation whose address is the claimed one.
pub open spec fn matching_bump_of(claimed: Seq<u8>, derived: Option<(Seq<u8>, u8)>) -> Option<u8> {
    match derived {
        Some((a, bump)) => if a == claimed {
            Some(bump)
        } else {
            None
        },
        None => None,
    }
}

/// Whether a claimed address is the one that was rebuilt from a stored bump.
pub fn matches_rebuilt(claimed: &Address, rebuilt: Option<Address>) -> (r: bool)
    ensures
        r == (address_bytes(rebuilt) == Some(claimed@)),
{
    match rebuilt {
        Some(a) => a.same(claimed),
        None => false,
    }
}

} // verus!
