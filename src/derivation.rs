use vstd::prelude::*;
use crate::pubkey::Pubkey;

verus! {

/// The program address and bump byte that the search over bump bytes finds
/// for `seeds` under `program_id`, or `None` where no bump byte gives one.
pub uninterp spec fn program_address(seeds: Seq<Seq<u8>>, program_id: Seq<u8>) -> Option<(Seq<u8>, u8)>;

/// The address and bump of a derivation result, as plain values.
pub open spec fn found_view(r: Option<(Pubkey, u8)>) -> Option<(Seq<u8>, u8)> {
    match r {
        Some((k, b)) => Some((k@, b)),
        None => None,
    }
}

/// The byte strings of a list of seeds.
pub open spec fn seeds_view(seeds: Seq<Vec<u8>>) -> Seq<Seq<u8>> {
    seeds.map_values(|s: Vec<u8>| s@)
}

/// Relies on `Pubkey::try_find_program_address` of solana-program (through
/// anchor-lang): a deterministic search, from bump 255 down, for the first
/// bump byte whose address lies off the curve; `None` where none does.
#[verifier::external_body]
fn try_find_program_address(seeds: &Vec<Vec<u8>>, program_id: &Pubkey) -> (r: Option<(Pubkey, u8)>)
    ensures
        found_view(r) == program_address(seeds_view(seeds@), program_id@),
{
    let slices: Vec<&[u8]> = seeds.iter().map(|s| s.as_slice()).collect();
    let id = anchor_lang::prelude::Pubkey::new_from_array(program_id.bytes);
    anchor_lang::prelude::Pubkey::try_find_program_address(&slices, &id).map(
        |(k, b)| (Pubkey { bytes: k.to_bytes() }, b),
    )
}

/// The tag of the configuration account: "config".
pub open spec fn config_tag() -> Seq<u8> {
    seq![99u8, 111, 110, 102, 105, 103]
}

/// The tag of a streamer account: "streamer".
pub open spec fn streamer_tag() -> Seq<u8> {
    seq![115u8, 116, 114, 101, 97, 109, 101, 114]
}

/// The tag of a donation account: "donation".
pub open spec fn donation_tag() -> Seq<u8> {
    seq![100u8, 111, 110, 97, 116, 105, 111, 110]
}

/// The little-endian bytes of `n`.
pub open spec fn le_bytes(n: u64) -> Seq<u8> {
    Seq::new(8, |i: int| ((n >> (8 * i) as u64) & 0xff) as u8)
}

/// The seeds of the single configuration account.
pub open spec fn config_seeds() -> Seq<Seq<u8>> {
    seq![config_tag()]
}

/// The seeds of the account of the streamer with the given wallet.
pub open spec fn streamer_seeds(wallet: Seq<u8>) -> Seq<Seq<u8>> {
    seq![streamer_tag(), wallet]
}

/// The seeds of the donation numbered `donation_id` to the given wallet.
pub open spec fn donation_seeds(wallet: Seq<u8>, donation_id: u64) -> Seq<Seq<u8>> {
    seq![donation_tag(), wallet, le_bytes(donation_id)]
}

fn tag_config() -> (r: Vec<u8>)
    ensures
        r@ == config_tag(),
{
    let r = vec![99u8, 111, 110, 102, 105, 103];
    assert(r@ =~= config_tag());
    r
}

fn tag_streamer() -> (r: Vec<u8>)
    ensures
        r@ == streamer_tag(),
{
    let r = vec![115u8, 116, 114, 101, 97, 109, 101, 114];
    assert(r@ =~= streamer_tag());
    r
}

fn tag_donation() -> (r: Vec<u8>)
    ensures
        r@ == donation_tag(),
{
    let r = vec![100u8, 111, 110, 97, 116, 105, 111, 110];
    assert(r@ =~= donation_tag());
    r
}

/// The little-endian encoding of `n`.
pub fn to_le_bytes(n: u64) -> (r: Vec<u8>)
    ensures
        r@ == le_bytes(n),
{
    let mut r: Vec<u8> = Vec::new();
    let mut i: u64 = 0;
    while i < 8
        invariant
            0 <= i <= 8,
            r@.len() == i,
            forall|j: int| 0 <= j < i ==> r@[j] == le_bytes(n)[j],
        decreases 8 - i,
    {
        r.push(((n >> (8 * i)) & 0xff) as u8);
        i = i + 1;
    }
    assert(r@ =~= le_bytes(n));
    r
}

/// Derives the address and bump of the configuration account.
pub fn config_address(program_id: &Pubkey) -> (r: Option<(Pubkey, u8)>)
    ensures
        found_view(r) == program_address(config_seeds(), program_id@),
{
    let seeds: Vec<Vec<u8>> = vec![tag_config()];
    assert(seeds_view(seeds@) =~= config_seeds());
    try_find_program_address(&seeds, program_id)
}

/// Derives the address and bump of the account of the streamer with the given wallet.
pub fn streamer_address(program_id: &Pubkey, wallet: &Pubkey) -> (r: Option<(Pubkey, u8)>)
    ensures
        found_view(r) == program_address(streamer_seeds(wallet@), program_id@),
{
    let seeds: Vec<Vec<u8>> = vec![tag_streamer(), wallet.to_bytes()];
    assert(seeds_view(seeds@) =~= streamer_seeds(wallet@));
    try_find_program_address(&seeds, program_id)
}

/// Derives the address and bump of the donation numbered `donation_id` to the
/// streamer with the given wallet.
pub fn donation_address(program_id: &Pubkey, wallet: &Pubkey, donation_id: u64) -> (r: Option<(Pubkey, u8)>)
    ensures
        found_view(r) == program_address(donation_seeds(wallet@, donation_id), program_id@),
{
    let seeds: Vec<Vec<u8>> = vec![tag_donation(), wallet.to_bytes(), to_le_bytes(donation_id)];
    assert(seeds_view(seeds@) =~= donation_seeds(wallet@, donation_id));
    try_find_program_address(&seeds, program_id)
}

} // verus!
