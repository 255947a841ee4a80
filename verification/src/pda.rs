use vstd::prelude::*;
use vstd::slice::slice_to_vec;

use crate::state::{App, Asset, Payment, Pubkey};

verus! {

// ---------------------------------------------------------------------------
// Byte encodings used as derivation seeds
// ---------------------------------------------------------------------------

/// Byte `i` of the little-endian encoding of `x`.
pub open spec fn u64_byte(x: u64, i: int) -> u8 {
    ((x >> ((8 * i) as u64)) & 0xff) as u8
}

/// The 8-byte little-endian encoding of `x`.
pub open spec fn u64_le_seq(x: u64) -> Seq<u8> {
    Seq::new(8, |i: int| u64_byte(x, i))
}

/// Byte `i` of the little-endian encoding of `x`.
pub open spec fn u128_byte(x: u128, i: int) -> u8 {
    ((x >> ((8 * i) as u128)) & 0xff) as u8
}

/// The 16-byte little-endian encoding of `x`.
pub open spec fn u128_le_seq(x: u128) -> Seq<u8> {
    Seq::new(16, |i: int| u128_byte(x, i))
}

/// The 32 bytes of an address, low half first.
pub open spec fn key_bytes_seq(key: Pubkey) -> Seq<u8> {
    u128_le_seq(key.hi) + u128_le_seq(key.lo)
}

/// The 8-byte little-endian encoding of `x`.
pub fn u64_le_bytes(x: u64) -> (r: Vec<u8>)
    ensures
        r@ == u64_le_seq(x),
        r@.len() == 8,
{
    let mut out: Vec<u8> = Vec::new();
    let mut i: usize = 0;
    while i < 8
        invariant
            0 <= i <= 8,
            out@.len() == i,
            forall|j: int| 0 <= j < i ==> out@[j] == u64_byte(x, j),
        decreases 8 - i,
    {
        let sh: u64 = (8 * i) as u64;
        let b: u8 = ((x >> sh) & 0xff) as u8;
        out.push(b);
        i += 1;
    }
    assert(out@ =~= u64_le_seq(x));
    out
}

/// The 16-byte little-endian encoding of `x`.
pub fn u128_le_bytes(x: u128) -> (r: Vec<u8>)
    ensures
        r@ == u128_le_seq(x),
        r@.len() == 16,
{
    let mut out: Vec<u8> = Vec::new();
    let mut i: usize = 0;
    while i < 16
        invariant
            0 <= i <= 16,
            out@.len() == i,
            forall|j: int| 0 <= j < i ==> out@[j] == u128_byte(x, j),
        decreases 16 - i,
    {
        let sh: u128 = (8 * i) as u128;
        let b: u8 = ((x >> sh) & 0xff) as u8;
        out.push(b);
        i += 1;
    }
    assert(out@ =~= u128_le_seq(x));
    out
}

/// The 32 bytes of an address, as used in seed position.
pub fn key_bytes(key: &Pubkey) -> (r: Vec<u8>)
    ensures
        r@ == key_bytes_seq(*key),
        r@.len() == 32,
{
    let mut out = u128_le_bytes(key.hi);
    let mut low = u128_le_bytes(key.lo);
    out.append(&mut low);
    assert(out@ =~= key_bytes_seq(*key));
    out
}

// ---------------------------------------------------------------------------
// Seed layouts, one per account kind
// ---------------------------------------------------------------------------

/// ASCII "app".
pub open spec fn app_tag() -> Seq<u8> {
    seq![97u8, 112u8, 112u8]
}

/// ASCII "asset".
pub open spec fn asset_tag() -> Seq<u8> {
    seq![97u8, 115u8, 115u8, 101u8, 116u8]
}

/// ASCII "asset_mint".
pub open spec fn asset_mint_tag() -> Seq<u8> {
    seq![97u8, 115u8, 115u8, 101u8, 116u8, 95u8, 109u8, 105u8, 110u8, 116u8]
}

/// ASCII "payment".
pub open spec fn payment_tag() -> Seq<u8> {
    seq![112u8, 97u8, 121u8, 109u8, 101u8, 110u8, 116u8]
}

/// ASCII "payment_vault".
pub open spec fn payment_vault_tag() -> Seq<u8> {
    seq![
        112u8,
        97u8,
        121u8,
        109u8,
        101u8,
        110u8,
        116u8,
        95u8,
        118u8,
        97u8,
        117u8,
        108u8,
        116u8,
    ]
}

/// ASCII "metadata".
pub open spec fn metadata_tag() -> Seq<u8> {
    seq![109u8, 101u8, 116u8, 97u8, 100u8, 97u8, 116u8, 97u8]
}

/// Seeds of a platform account: tag "app" and the padded platform name.
pub open spec fn spec_app_seeds(app_name: Seq<u8>) -> Seq<Seq<u8>> {
    seq![app_tag(), app_name]
}

/// Seeds of a listing account: tag "asset" and the access-token mint.
pub open spec fn spec_asset_seeds(asset_mint: Pubkey) -> Seq<Seq<u8>> {
    seq![asset_tag(), key_bytes_seq(asset_mint)]
}

/// Seeds of an access-token mint: tag "asset_mint" and the padded identifier.
pub open spec fn spec_asset_mint_seeds(off_chain_id: Seq<u8>) -> Seq<Seq<u8>> {
    seq![asset_mint_tag(), off_chain_id]
}

/// Seeds of an escrow record: tag "payment", the access-token mint, the buyer,
/// and the purchase timestamp, so one buyer can hold many concurrent payments.
pub open spec fn spec_payment_seeds(asset_mint: Pubkey, buyer: Pubkey, timestamp: u64) -> Seq<
    Seq<u8>,
> {
    seq![payment_tag(), key_bytes_seq(asset_mint), key_bytes_seq(buyer), u64_le_seq(timestamp)]
}

/// Seeds of an escrow vault: tag "payment_vault" and the escrow record.
pub open spec fn spec_payment_vault_seeds(payment: Pubkey) -> Seq<Seq<u8>> {
    seq![payment_vault_tag(), key_bytes_seq(payment)]
}

/// Seeds of a mint's display-metadata account: tag "metadata", the external
/// metadata program, and the mint. The account lives under the metadata
/// program's id, not this protocol's.
pub open spec fn spec_metadata_seeds(metadata_program: Pubkey, asset_mint: Pubkey) -> Seq<
    Seq<u8>,
> {
    seq![metadata_tag(), key_bytes_seq(metadata_program), key_bytes_seq(asset_mint)]
}

fn app_tag_bytes() -> (r: Vec<u8>)
    ensures
        r@ == app_tag(),
{
    let r: Vec<u8> = vec![97u8, 112u8, 112u8];
    assert(r@ =~= app_tag());
    r
}

fn asset_tag_bytes() -> (r: Vec<u8>)
    ensures
        r@ == asset_tag(),
{
    let r: Vec<u8> = vec![97u8, 115u8, 115u8, 101u8, 116u8];
    assert(r@ =~= asset_tag());
    r
}

fn asset_mint_tag_bytes() -> (r: Vec<u8>)
    ensures
        r@ == asset_mint_tag(),
{
    let r: Vec<u8> = vec![97u8, 115u8, 115u8, 101u8, 116u8, 95u8, 109u8, 105u8, 110u8, 116u8];
    assert(r@ =~= asset_mint_tag());
    r
}

fn payment_tag_bytes() -> (r: Vec<u8>)
    ensures
        r@ == payment_tag(),
{
    let r: Vec<u8> = vec![112u8, 97u8, 121u8, 109u8, 101u8, 110u8, 116u8];
    assert(r@ =~= payment_tag());
    r
}

fn payment_vault_tag_bytes() -> (r: Vec<u8>)
    ensures
        r@ == payment_vault_tag(),
{
    let r: Vec<u8> = vec![
        112u8,
        97u8,
        121u8,
        109u8,
        101u8,
        110u8,
        116u8,
        95u8,
        118u8,
        97u8,
        117u8,
        108u8,
        116u8,
    ];
    assert(r@ =~= payment_vault_tag());
    r
}

/// Build the seed vector of a platform account.
pub fn app_seeds(app_name: &Vec<u8>) -> (r: Vec<Vec<u8>>)
    ensures
        r.deep_view() == spec_app_seeds(app_name@),
{
    let mut seeds: Vec<Vec<u8>> = Vec::new();
    seeds.push(app_tag_bytes());
    seeds.push(slice_to_vec(app_name.as_slice()));
    assert(seeds.deep_view() =~~= spec_app_seeds(app_name@));
    seeds
}

/// Build the seed vector of a listing account.
pub fn asset_seeds(asset_mint: &Pubkey) -> (r: Vec<Vec<u8>>)
    ensures
        r.deep_view() == spec_asset_seeds(*asset_mint),
{
    let mut seeds: Vec<Vec<u8>> = Vec::new();
    seeds.push(asset_tag_bytes());
    seeds.push(key_bytes(asset_mint));
    assert(seeds.deep_view() =~~= spec_asset_seeds(*asset_mint));
    seeds
}

/// Build the seed vector of an access-token mint.
pub fn asset_mint_seeds(off_chain_id: &Vec<u8>) -> (r: Vec<Vec<u8>>)
    ensures
        r.deep_view() == spec_asset_mint_seeds(off_chain_id@),
{
    let mut seeds: Vec<Vec<u8>> = Vec::new();
    seeds.push(asset_mint_tag_bytes());
    seeds.push(slice_to_vec(off_chain_id.as_slice()));
    assert(seeds.deep_view() =~~= spec_asset_mint_seeds(off_chain_id@));
    seeds
}

/// Build the seed vector of an escrow record.
pub fn payment_seeds(asset_mint: &Pubkey, buyer: &Pubkey, timestamp: u64) -> (r: Vec<Vec<u8>>)
    ensures
        r.deep_view() == spec_payment_seeds(*asset_mint, *buyer, timestamp),
{
    let mut seeds: Vec<Vec<u8>> = Vec::new();
    seeds.push(payment_tag_bytes());
    seeds.push(key_bytes(asset_mint));
    seeds.push(key_bytes(buyer));
    seeds.push(u64_le_bytes(timestamp));
    assert(seeds.deep_view() =~~= spec_payment_seeds(*asset_mint, *buyer, timestamp));
    seeds
}

/// Build the seed vector of an escrow vault.
pub fn payment_vault_seeds(payment: &Pubkey) -> (r: Vec<Vec<u8>>)
    ensures
        r.deep_view() == spec_payment_vault_seeds(*payment),
{
    let mut seeds: Vec<Vec<u8>> = Vec::new();
    seeds.push(payment_vault_tag_bytes());
    seeds.push(key_bytes(payment));
    assert(seeds.deep_view() =~~= spec_payment_vault_seeds(*payment));
    seeds
}

fn metadata_tag_bytes() -> (r: Vec<u8>)
    ensures
        r@ == metadata_tag(),
{
    let r: Vec<u8> = vec![109u8, 101u8, 116u8, 97u8, 100u8, 97u8, 116u8, 97u8];
    assert(r@ =~= metadata_tag());
    r
}

/// Build the seed vector of a mint's display-metadata account.
pub fn metadata_seeds(metadata_program: &Pubkey, asset_mint: &Pubkey) -> (r: Vec<Vec<u8>>)
    ensures
        r.deep_view() == spec_metadata_seeds(*metadata_program, *asset_mint),
{
    let mut seeds: Vec<Vec<u8>> = Vec::new();
    seeds.push(metadata_tag_bytes());
    seeds.push(key_bytes(metadata_program));
    seeds.push(key_bytes(asset_mint));
    assert(seeds.deep_view() =~~= spec_metadata_seeds(*metadata_program, *asset_mint));
    seeds
}

// ---------------------------------------------------------------------------
// The host's program-derived-address scheme
// ---------------------------------------------------------------------------

/// The address, if any, that the host derives from these seeds and program id
/// without a bump search. `None` stands for a rejected derivation: seeds over
/// the host's limits, or an address that lands on the ed25519 curve.
pub uninterp spec fn created_address(seeds: Seq<Seq<u8>>, program_hi: u128, program_lo: u128) -> Option<
    (u128, u128),
>;

/// The address and canonical bump, if any, that the host's bump search derives
/// from these seeds and program id.
pub uninterp spec fn found_address(seeds: Seq<Seq<u8>>, program_hi: u128, program_lo: u128) -> Option<
    (u128, u128, u8),
>;

/// A found address/bump pair, flattened to plain values.
pub open spec fn found_view(r: Option<(Pubkey, u8)>) -> Option<(u128, u128, u8)> {
    match r {
        Some(p) => Some((p.0.hi, p.0.lo, p.1)),
        None => None,
    }
}

#[verifier::external_type_specification]
#[verifier::external_body]
pub struct ExPubkeyError(solana_pubkey::PubkeyError);

/// Relies on `solana_pubkey::Pubkey::try_find_program_address`: the derived
/// address and bump are a pure function of the seeds and program id, and the
/// returned pair re-derives through `create_program_address` with the bump
/// appended as a final one-byte seed.
#[verifier::external_body]
fn find_program_address(seeds: &Vec<Vec<u8>>, program_id: &Pubkey) -> (r: Option<(Pubkey, u8)>)
    ensures
        found_view(r) == found_address(seeds.deep_view(), program_id.hi, program_id.lo),
        r matches Some(p) ==> created_address(
            seeds.deep_view().push(seq![p.1]),
            program_id.hi,
            program_id.lo,
        ) == Some((p.0.hi, p.0.lo)),
{
    let mut pid = [0u8; 32];
    pid[..16].copy_from_slice(&program_id.hi.to_le_bytes());
    pid[16..].copy_from_slice(&program_id.lo.to_le_bytes());
    let refs: Vec<&[u8]> = seeds.iter().map(|s| s.as_slice()).collect();
    let sol_id = solana_pubkey::Pubkey::new_from_array(pid);
    let (addr, bump) = solana_pubkey::Pubkey::try_find_program_address(&refs, &sol_id)?;
    let b = addr.to_bytes();
    let hi = u128::from_le_bytes(b[..16].try_into().unwrap());
    let lo = u128::from_le_bytes(b[16..].try_into().unwrap());
    Some((Pubkey { hi, lo }, bump))
}

/// Relies on `solana_pubkey::Pubkey::create_program_address`: the derived
/// address is a pure function of the seeds and program id; the call fails on
/// seeds over the host's limits or on an address that lands on the ed25519
/// curve.
#[verifier::external_body]
fn create_program_address(seeds: &Vec<Vec<u8>>, program_id: &Pubkey) -> (r: Result<
    Pubkey,
    solana_pubkey::PubkeyError,
>)
    ensures
        (match r {
            Ok(a) => Some((a.hi, a.lo)),
            Err(_) => None,
        }) == created_address(seeds.deep_view(), program_id.hi, program_id.lo),
{
    let mut pid = [0u8; 32];
    pid[..16].copy_from_slice(&program_id.hi.to_le_bytes());
    pid[16..].copy_from_slice(&program_id.lo.to_le_bytes());
    let refs: Vec<&[u8]> = seeds.iter().map(|s| s.as_slice()).collect();
    let sol_id = solana_pubkey::Pubkey::new_from_array(pid);
    let addr = solana_pubkey::Pubkey::create_program_address(&refs, &sol_id)?;
    let b = addr.to_bytes();
    let hi = u128::from_le_bytes(b[..16].try_into().unwrap());
    let lo = u128::from_le_bytes(b[16..].try_into().unwrap());
    Ok(Pubkey { hi, lo })
}

/// Re-derive an address from seeds plus a stored bump and compare it with the
/// expected address; this is how a persisted bump is bound to its derivation
/// instead of being searched again.
pub fn check_derived_address(
    expected: &Pubkey,
    seeds: Vec<Vec<u8>>,
    bump: u8,
    program_id: &Pubkey,
) -> (ok: bool)
    ensures
        ok == (created_address(
            seeds.deep_view().push(seq![bump]),
            program_id.hi,
            program_id.lo,
        ) == Some((expected.hi, expected.lo))),
{
    let ghost orig = seeds.deep_view();
    let mut seeds = seeds;
    let bump_seed: Vec<u8> = vec![bump];
    assert(bump_seed@ =~= seq![bump]);
    seeds.push(bump_seed);
    assert(seeds.deep_view() =~~= orig.push(seq![bump]));
    match create_program_address(&seeds, program_id) {
        Ok(addr) => addr == *expected,
        Err(_) => false,
    }
}

/// Re-check a platform account against its stored bump, as the host does on
/// every instruction that touches it: the padded name plus the persisted bump
/// must re-derive the supplied address.
pub fn check_app_account(app: &App, app_key: &Pubkey, program_id: &Pubkey) -> (ok: bool)
    ensures
        ok == (created_address(
            spec_app_seeds(app@.app_name).push(seq![app@.bump]),
            program_id.hi,
            program_id.lo,
        ) == Some((app_key.hi, app_key.lo))),
{
    check_derived_address(app_key, app_seeds(&app.app_name), app.bump, program_id)
}

/// Re-check a listing and its access-token mint against their stored bumps:
/// the listing derives from its mint, and the mint from the off-chain
/// identifier, so a listing found at this address is one this program created.
pub fn check_asset_accounts(
    asset: &Asset,
    asset_key: &Pubkey,
    asset_mint_key: &Pubkey,
    program_id: &Pubkey,
) -> (ok: bool)
    ensures
        ok == ({
            &&& created_address(
                spec_asset_seeds(asset@.asset_mint).push(seq![asset@.bump]),
                program_id.hi,
                program_id.lo,
            ) == Some((asset_key.hi, asset_key.lo))
            &&& created_address(
                spec_asset_mint_seeds(asset@.off_chain_id).push(seq![asset@.mint_bump]),
                program_id.hi,
                program_id.lo,
            ) == Some((asset_mint_key.hi, asset_mint_key.lo))
        }),
{
    let listing_ok = check_derived_address(
        asset_key,
        asset_seeds(&asset.asset_mint),
        asset.bump,
        program_id,
    );
    let mint_ok = check_derived_address(
        asset_mint_key,
        asset_mint_seeds(&asset.off_chain_id),
        asset.mint_bump,
        program_id,
    );
    listing_ok && mint_ok
}

/// Re-check an escrow record and its vault against their stored bumps: the
/// record derives from the mint, the buyer, and the purchase timestamp, and
/// the vault from the record's address.
pub fn check_payment_accounts(
    payment: &Payment,
    payment_key: &Pubkey,
    vault_key: &Pubkey,
    program_id: &Pubkey,
) -> (ok: bool)
    ensures
        ok == ({
            &&& created_address(
                spec_payment_seeds(
                    payment.asset_mint,
                    payment.buyer,
                    payment.payment_timestamp,
                ).push(seq![payment.bump]),
                program_id.hi,
                program_id.lo,
            ) == Some((payment_key.hi, payment_key.lo))
            &&& created_address(
                spec_payment_vault_seeds(*payment_key).push(seq![payment.bump_vault]),
                program_id.hi,
                program_id.lo,
            ) == Some((vault_key.hi, vault_key.lo))
        }),
{
    let record_ok = check_derived_address(
        payment_key,
        payment_seeds(&payment.asset_mint, &payment.buyer, payment.payment_timestamp),
        payment.bump,
        program_id,
    );
    let vault_ok = check_derived_address(
        vault_key,
        payment_vault_seeds(payment_key),
        payment.bump_vault,
        program_id,
    );
    record_ok && vault_ok
}

/// Derive a platform account's address and canonical bump.
pub fn derive_app_address(app_name: &Vec<u8>, program_id: &Pubkey) -> (r: Option<(Pubkey, u8)>)
    ensures
        found_view(r) == found_address(spec_app_seeds(app_name@), program_id.hi, program_id.lo),
        r matches Some(p) ==> created_address(
            spec_app_seeds(app_name@).push(seq![p.1]),
            program_id.hi,
            program_id.lo,
        ) == Some((p.0.hi, p.0.lo)),
{
    let seeds = app_seeds(app_name);
    find_program_address(&seeds, program_id)
}

/// Derive a listing account's address and canonical bump.
pub fn derive_asset_address(asset_mint: &Pubkey, program_id: &Pubkey) -> (r: Option<(Pubkey, u8)>)
    ensures
        found_view(r) == found_address(
            spec_asset_seeds(*asset_mint),
            program_id.hi,
            program_id.lo,
        ),
        r matches Some(p) ==> created_address(
            spec_asset_seeds(*asset_mint).push(seq![p.1]),
            program_id.hi,
            program_id.lo,
        ) == Some((p.0.hi, p.0.lo)),
{
    let seeds = asset_seeds(asset_mint);
    find_program_address(&seeds, program_id)
}

/// Derive an access-token mint's address and canonical bump.
pub fn derive_asset_mint_address(off_chain_id: &Vec<u8>, program_id: &Pubkey) -> (r: Option<
    (Pubkey, u8),
>)
    ensures
        found_view(r) == found_address(
            spec_asset_mint_seeds(off_chain_id@),
            program_id.hi,
            program_id.lo,
        ),
        r matches Some(p) ==> created_address(
            spec_asset_mint_seeds(off_chain_id@).push(seq![p.1]),
            program_id.hi,
            program_id.lo,
        ) == Some((p.0.hi, p.0.lo)),
{
    let seeds = asset_mint_seeds(off_chain_id);
    find_program_address(&seeds, program_id)
}

/// Derive an escrow record's address and canonical bump.
pub fn derive_payment_address(
    asset_mint: &Pubkey,
    buyer: &Pubkey,
    timestamp: u64,
    program_id: &Pubkey,
) -> (r: Option<(Pubkey, u8)>)
    ensures
        found_view(r) == found_address(
            spec_payment_seeds(*asset_mint, *buyer, timestamp),
            program_id.hi,
            program_id.lo,
        ),
        r matches Some(p) ==> created_address(
            spec_payment_seeds(*asset_mint, *buyer, timestamp).push(seq![p.1]),
            program_id.hi,
            program_id.lo,
        ) == Some((p.0.hi, p.0.lo)),
{
    let seeds = payment_seeds(asset_mint, buyer, timestamp);
    find_program_address(&seeds, program_id)
}

/// Derive the address and canonical bump of a mint's display-metadata account,
/// under the external metadata program's id.
pub fn derive_metadata_address(metadata_program: &Pubkey, asset_mint: &Pubkey) -> (r: Option<
    (Pubkey, u8),
>)
    ensures
        found_view(r) == found_address(
            spec_metadata_seeds(*metadata_program, *asset_mint),
            metadata_program.hi,
            metadata_program.lo,
        ),
        r matches Some(p) ==> created_address(
            spec_metadata_seeds(*metadata_program, *asset_mint).push(seq![p.1]),
            metadata_program.hi,
            metadata_program.lo,
        ) == Some((p.0.hi, p.0.lo)),
{
    let seeds = metadata_seeds(metadata_program, asset_mint);
    find_program_address(&seeds, metadata_program)
}

/// Derive an escrow vault's address and canonical bump.
pub fn derive_payment_vault_address(payment: &Pubkey, program_id: &Pubkey) -> (r: Option<
    (Pubkey, u8),
>)
    ensures
        found_view(r) == found_address(
            spec_payment_vault_seeds(*payment),
            program_id.hi,
            program_id.lo,
        ),
        r matches Some(p) ==> created_address(
            spec_payment_vault_seeds(*payment).push(seq![p.1]),
            program_id.hi,
            program_id.lo,
        ) == Some((p.0.hi, p.0.lo)),
{
    let seeds = payment_vault_seeds(payment);
    find_program_address(&seeds, program_id)
}

} // verus!
