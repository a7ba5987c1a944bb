use vstd::prelude::*;
use vstd::bytes::{spec_u64_to_le_bytes, u64_to_le_bytes};
use anchor_lang::prelude::Pubkey;
use crate::identity::Identity;

verus! {

/// The program address, and the bump that makes it fall off the curve, that
/// the host derives from a list of seeds and the deriving program's key;
/// `None` where no bump in the search space gives one.
pub uninterp spec fn program_address(seeds: Seq<Seq<u8>>, program_id: Seq<u8>) -> Option<(Seq<u8>, u8)>;

/// Namespace of the singleton ledger state: `payment_state`.
pub open spec fn state_tag() -> Seq<u8> {
    seq![112u8, 97, 121, 109, 101, 110, 116, 95, 115, 116, 97, 116, 101]
}

/// Namespace of the custody vault: `vault`.
pub open spec fn vault_tag() -> Seq<u8> {
    seq![118u8, 97, 117, 108, 116]
}

/// Namespace of the payment receipts: `payment`.
pub open spec fn payment_tag() -> Seq<u8> {
    seq![112u8, 97, 121, 109, 101, 110, 116]
}

fn state_tag_bytes() -> (r: Vec<u8>)
    ensures
        r@ == state_tag(),
{
    let r = vec![112u8, 97, 121, 109, 101, 110, 116, 95, 115, 116, 97, 116, 101];
    assert(r@ =~= state_tag());
    r
}

fn vault_tag_bytes() -> (r: Vec<u8>)
    ensures
        r@ == vault_tag(),
{
    let r = vec![118u8, 97, 117, 108, 116];
    assert(r@ =~= vault_tag());
    r
}

fn payment_tag_bytes() -> (r: Vec<u8>)
    ensures
        r@ == payment_tag(),
{
    let r = vec![112u8, 97, 121, 109, 101, 110, 116];
    assert(r@ =~= payment_tag());
    r
}

/// Seeds of the ledger state record: its tag alone.
pub open spec fn state_seeds() -> Seq<Seq<u8>> {
    seq![state_tag()]
}

/// Seeds of the custody vault: its tag and the state record's address.
pub open spec fn vault_seeds(state_address: Seq<u8>) -> Seq<Seq<u8>> {
    seq![vault_tag(), state_address]
}

/// Seeds of a receipt: its tag and the payment id as eight little-endian bytes.
pub open spec fn payment_seeds(payment_id: u64) -> Seq<Seq<u8>> {
    seq![payment_tag(), spec_u64_to_le_bytes(payment_id)]
}

/// The byte strings of a list of seeds.
pub open spec fn seeds_view(seeds: Seq<Vec<u8>>) -> Seq<Seq<u8>> {
    seeds.map_values(|s: Vec<u8>| s@)
}

/// The view of a derivation's outcome.
pub open spec fn derived_view(r: Option<(Identity, u8)>) -> Option<(Seq<u8>, u8)> {
    match r {
        Some((a, b)) => Some((a@, b)),
        None => None,
    }
}

/// Relies on `Pubkey::try_find_program_address`: it searches the bumps from
/// 255 down and returns the first address off the curve, or `None`; the
/// outcome depends on the seeds and the program key alone.
#[verifier::external_body]
fn find_program_address(seeds: &Vec<Vec<u8>>, program_id: &Identity) -> (r: Option<(Identity, u8)>)
    ensures
        derived_view(r) == program_address(seeds_view(seeds@), program_id@),
{
    let slices: Vec<&[u8]> = seeds.iter().map(|s| s.as_slice()).collect();
    let program = Pubkey::new_from_array(program_id.bytes);
    Pubkey::try_find_program_address(&slices, &program).map(|(a, b)| (Identity { bytes: a.to_bytes() }, b))
}

fn bytes_of(s: &[u8]) -> (r: Vec<u8>)
    ensures
        r@ == s@,
{
    let mut r: Vec<u8> = Vec::new();
    let mut i: usize = 0;
    while i < s.len()
        invariant
            0 <= i <= s@.len(),
            r@ == s@.subrange(0, i as int),
        decreases s@.len() - i,
    {
        r.push(s[i]);
        i = i + 1;
        assert(r@ =~= s@.subrange(0, i as int));
    }
    assert(r@ =~= s@);
    r
}

/// Address and bump of the ledger state record.
pub fn derive_state_address(program_id: &Identity) -> (r: Option<(Identity, u8)>)
    ensures
        derived_view(r) == program_address(state_seeds(), program_id@),
{
    let tag = state_tag_bytes();
    let seeds: Vec<Vec<u8>> = vec![tag];
    assert(seeds_view(seeds@) =~= state_seeds());
    find_program_address(&seeds, program_id)
}

/// Address and bump of the custody vault that belongs to a state record.
pub fn derive_vault_address(state_address: &Identity, program_id: &Identity) -> (r: Option<(Identity, u8)>)
    ensures
        derived_view(r) == program_address(vault_seeds(state_address@), program_id@),
{
    let tag = vault_tag_bytes();
    let key = bytes_of(state_address.bytes.as_slice());
    let seeds: Vec<Vec<u8>> = vec![tag, key];
    assert(seeds_view(seeds@) =~= vault_seeds(state_address@));
    find_program_address(&seeds, program_id)
}

/// Address and bump of the receipt of a payment.
pub fn derive_payment_address(payment_id: u64, program_id: &Identity) -> (r: Option<(Identity, u8)>)
    ensures
        derived_view(r) == program_address(payment_seeds(payment_id), program_id@),
{
    let tag = payment_tag_bytes();
    let id = u64_to_le_bytes(payment_id);
    let seeds: Vec<Vec<u8>> = vec![tag, id];
    assert(seeds_view(seeds@) =~= payment_seeds(payment_id));
    find_program_address(&seeds, program_id)
}

} // verus!
