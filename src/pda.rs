use vstd::prelude::*;

use crate::state::Pubkey;

verus! {

/// The address that the runtime derives from `seeds` for `program_id`, or
/// `None` where no such address exists.
pub uninterp spec fn program_address_of(seeds: Seq<Seq<u8>>, program_id: Seq<u8>) -> Option<
    Seq<u8>,
>;

/// The byte sequences that a list of seeds holds.
pub open spec fn seeds_view(seeds: Seq<Vec<u8>>) -> Seq<Seq<u8>> {
    seeds.map_values(|s: Vec<u8>| s@)
}

/// Relies on `Pubkey::create_program_address` of anchor-lang: it hashes the
/// seeds and the program id, and fails where the seeds are too many or too
/// long or the hash is a curve point; the result depends on its arguments
/// alone.
#[verifier::external_body]
fn create_program_address(seeds: &Vec<Vec<u8>>, program_id: &Pubkey) -> (r: Option<Pubkey>)
    ensures
        match r {
            Some(k) => program_address_of(seeds_view(seeds@), program_id@) == Some(k@),
            None => program_address_of(seeds_view(seeds@), program_id@) is None,
        },
{
    let s: Vec<&[u8]> = seeds.iter().map(|x| x.as_slice()).collect();
    let id = anchor_lang::prelude::Pubkey::new_from_array(program_id.bytes);
    match anchor_lang::prelude::Pubkey::create_program_address(&s, &id) {
        Ok(k) => Some(Pubkey { bytes: k.to_bytes() }),
        Err(_) => None,
    }
}

/// The marker that every escrow record's address is derived from.
pub open spec fn escrow_marker() -> Seq<u8> {
    seq![101u8, 115u8, 99u8, 114u8, 111u8, 119u8]
}

/// The seeds of an escrow record's signing authority: the marker, the two
/// holding accounts, and the bump.
pub open spec fn escrow_seeds(offered_holder: Seq<u8>, requested_holder: Seq<u8>, bump: u8) -> Seq<
    Seq<u8>,
> {
    seq![escrow_marker(), offered_holder, requested_holder, seq![bump]]
}

/// Whether the escrow at `escrow_key` can sign for the given holding
/// accounts and bump: its address is the one derived from those seeds.
pub open spec fn escrow_signs(
    escrow_key: Pubkey,
    offered_holder: Pubkey,
    requested_holder: Pubkey,
    bump: u8,
    program_id: Pubkey,
) -> bool {
    program_address_of(escrow_seeds(offered_holder@, requested_holder@, bump), program_id@)
        == Some(escrow_key@)
}

/// The bytes of a key, as a vector.
fn key_bytes(k: &Pubkey) -> (r: Vec<u8>)
    ensures
        r@ == k@,
{
    let mut r: Vec<u8> = Vec::new();
    let mut i: usize = 0;
    while i < 32
        invariant
            0 <= i <= 32,
            k@.len() == 32,
            r@ == k@.subrange(0, i as int),
        decreases 32 - i,
    {
        r.push(k.bytes[i]);
        i = i + 1;
        assert(r@ =~= k@.subrange(0, i as int));
    }
    assert(k@.subrange(0, 32) =~= k@);
    r
}

/// Builds the escrow's signer seeds.
fn escrow_signer_seeds(offered_holder: &Pubkey, requested_holder: &Pubkey, bump: u8) -> (r: Vec<
    Vec<u8>,
>)
    ensures
        seeds_view(r@) == escrow_seeds(offered_holder@, requested_holder@, bump),
{
    let marker: Vec<u8> = vec![101u8, 115u8, 99u8, 114u8, 111u8, 119u8];
    let off: Vec<u8> = key_bytes(offered_holder);
    let req: Vec<u8> = key_bytes(requested_holder);
    let b: Vec<u8> = vec![bump];
    assert(marker@ =~= escrow_marker());
    assert(b@ =~= seq![bump]);
    let r: Vec<Vec<u8>> = vec![marker, off, req, b];
    assert(r@.len() == 4);
    assert(seeds_view(r@) =~= escrow_seeds(offered_holder@, requested_holder@, bump));
    r
}

/// Re-derives the escrow's signing authority from the holding accounts and
/// the bump, and tells whether it is the escrow's own address.
pub fn escrow_can_sign(
    escrow_key: &Pubkey,
    offered_holder: &Pubkey,
    requested_holder: &Pubkey,
    bump: u8,
    program_id: &Pubkey,
) -> (r: bool)
    ensures
        r == escrow_signs(*escrow_key, *offered_holder, *requested_holder, bump, *program_id),
{
    let seeds = escrow_signer_seeds(offered_holder, requested_holder, bump);
    match create_program_address(&seeds, program_id) {
        Some(k) => k == *escrow_key,
        None => false,
    }
}

} // verus!
