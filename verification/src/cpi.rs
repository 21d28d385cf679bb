//! The trusted boundary to the execution environment's primitives.
//!
//! Everything here either names what an outside computation returns or wraps
//! a pure call into an outside crate: the canonical program-derived-address
//! search, the token service's well-known identifier, and the builders that
//! assemble cross-program requests. The requests themselves are issued by the
//! runtime shell, never from the library.

use vstd::prelude::*;

use crate::keys::{is_key, PubkeyData};
use solana_program::instruction::Instruction;

verus! {

/// A cross-program request, opaque to the library; the runtime shell issues
/// it. From `solana_program`.
#[verifier::external_type_specification]
#[verifier::external_body]
pub struct ExInstruction(Instruction);

/// What the canonical program-derived-address search returns for a seed and a
/// program identifier. The derivation is a repeated hash of its two
/// arguments, so it is a function of them alone; `None` in the statistically
/// improbable event that no bump value yields a valid address.
pub uninterp spec fn pda_of(seed: Seq<u8>, program_id: Seq<u8>) -> Option<(Seq<u8>, u8)>;

/// The derived address of `pda_of`'s result, when the search succeeds.
pub open spec fn pda_key(seed: Seq<u8>, program_id: Seq<u8>) -> Seq<u8> {
    pda_of(seed, program_id).unwrap().0
}

/// The bump value of `pda_of`'s result, when the search succeeds.
pub open spec fn pda_bump(seed: Seq<u8>, program_id: Seq<u8>) -> u8 {
    pda_of(seed, program_id).unwrap().1
}

/// Relies on `Pubkey::try_find_program_address`: the deterministic,
/// collision-resistant derivation of the storage address bound to a seed, for
/// which no private key exists.
#[verifier::external_body]
pub fn derive_address(seed: &Vec<u8>, program_id: &PubkeyData) -> (r: Option<(PubkeyData, u8)>)
    requires
        is_key(program_id@),
    ensures
        match r {
            Some(p) => pda_of(seed@, program_id@) == Some((p.0@, p.1)) && is_key(p.0@),
            None => pda_of(seed@, program_id@) is None,
        },
{
    let pk = solana_program::pubkey::Pubkey::try_from(program_id.as_slice()).unwrap();
    match solana_program::pubkey::Pubkey::try_find_program_address(&[seed.as_slice()], &pk) {
        Some((addr, bump)) => Some((addr.to_bytes().to_vec(), bump)),
        None => None,
    }
}

/// Byte `i` of the token service's fixed, well-known program identifier.
pub uninterp spec fn token_program_key_byte(i: int) -> u8;

/// The token service's identifier as a 32-byte value.
pub open spec fn token_program_key_seq() -> Seq<u8> {
    Seq::new(32, |i: int| token_program_key_byte(i))
}

/// Relies on `spl_token::id()`: the token service's fixed program identifier.
#[verifier::external_body]
pub fn spl_token_program_key() -> (r: PubkeyData)
    ensures
        r@.len() == 32,
        forall|i: int| 0 <= i < 32 ==> r@[i] == token_program_key_byte(i),
        r@ == token_program_key_seq(),
{
    spl_token::id().to_bytes().to_vec()
}

/// Relies on `solana_program::system_instruction::create_account`: builds the
/// allocation request for a fresh storage slot at `new_account`, funded by
/// `funder`, with `space` bytes, owned by `owner`. The environment refuses to
/// apply it to an already-occupied address.
#[verifier::external_body]
pub fn sys_create_account_instruction(
    funder: &PubkeyData,
    new_account: &PubkeyData,
    lamports: u64,
    space: u64,
    owner: &PubkeyData,
) -> Instruction
    requires
        is_key(funder@),
        is_key(new_account@),
        is_key(owner@),
{
    let p = |k: &PubkeyData| solana_program::pubkey::Pubkey::try_from(k.as_slice()).unwrap();
    solana_program::system_instruction::create_account(
        &p(funder),
        &p(new_account),
        lamports,
        space,
        &p(owner),
    )
}

/// Relies on `spl_token::instruction::transfer` with the canonical token
/// program identifier, under which the builder cannot fail: builds the
/// request that moves `amount` from `source` to `destination` under
/// `authority`'s signature.
#[verifier::external_body]
pub fn token_transfer_instruction(
    source: &PubkeyData,
    destination: &PubkeyData,
    authority: &PubkeyData,
    amount: u64,
) -> Instruction
    requires
        is_key(source@),
        is_key(destination@),
        is_key(authority@),
{
    let p = |k: &PubkeyData| solana_program::pubkey::Pubkey::try_from(k.as_slice()).unwrap();
    spl_token::instruction::transfer(
        &spl_token::id(),
        &p(source),
        &p(destination),
        &p(authority),
        &[&p(authority)],
        amount,
    ).unwrap()
}

/// Relies on `spl_token::instruction::approve` with the canonical token
/// program identifier, under which the builder cannot fail: builds the
/// request that lets `delegate` pull up to `amount` from `source`, authorized
/// by `owner`.
#[verifier::external_body]
pub fn token_approve_instruction(
    source: &PubkeyData,
    delegate: &PubkeyData,
    owner: &PubkeyData,
    amount: u64,
) -> Instruction
    requires
        is_key(source@),
        is_key(delegate@),
        is_key(owner@),
{
    let p = |k: &PubkeyData| solana_program::pubkey::Pubkey::try_from(k.as_slice()).unwrap();
    spl_token::instruction::approve(
        &spl_token::id(),
        &p(source),
        &p(delegate),
        &p(owner),
        &[],
        amount,
    ).unwrap()
}

/// Relies on `spl_token::instruction::initialize_account` with the canonical
/// token program identifier, under which the builder cannot fail: builds the
/// request that turns the slot at `account` into a token account for `mint`
/// owned by `owner`.
#[verifier::external_body]
pub fn token_initialize_account_instruction(
    account: &PubkeyData,
    mint: &PubkeyData,
    owner: &PubkeyData,
) -> Instruction
    requires
        is_key(account@),
        is_key(mint@),
        is_key(owner@),
{
    let p = |k: &PubkeyData| solana_program::pubkey::Pubkey::try_from(k.as_slice()).unwrap();
    spl_token::instruction::initialize_account(&spl_token::id(), &p(account), &p(mint), &p(owner))
        .unwrap()
}

/// Relies on `spl_token_swap::instruction::swap`, which cannot fail: builds
/// the request that trades `amount_in` of the source asset for at least
/// `minimum_amount_out` of the destination asset at the given venue.
#[verifier::external_body]
pub fn swap_instruction(
    swap_program: &PubkeyData,
    token_program: &PubkeyData,
    swap_venue: &PubkeyData,
    venue_authority: &PubkeyData,
    user_transfer_authority: &PubkeyData,
    source: &PubkeyData,
    swap_source: &PubkeyData,
    swap_destination: &PubkeyData,
    destination: &PubkeyData,
    pool_mint: &PubkeyData,
    pool_fee: &PubkeyData,
    amount_in: u64,
    minimum_amount_out: u64,
) -> Instruction
    requires
        is_key(swap_program@),
        is_key(token_program@),
        is_key(swap_venue@),
        is_key(venue_authority@),
        is_key(user_transfer_authority@),
        is_key(source@),
        is_key(swap_source@),
        is_key(swap_destination@),
        is_key(destination@),
        is_key(pool_mint@),
        is_key(pool_fee@),
{
    let p = |k: &PubkeyData| solana_program::pubkey::Pubkey::try_from(k.as_slice()).unwrap();
    spl_token_swap::instruction::swap(
        &p(swap_program), &p(token_program), &p(swap_venue), &p(venue_authority),
        &p(user_transfer_authority), &p(source), &p(swap_source), &p(swap_destination),
        &p(destination), &p(pool_mint), &p(pool_fee), None,
        spl_token_swap::instruction::Swap { amount_in, minimum_amount_out },
    ).unwrap()
}

} // verus!
