use vstd::prelude::*;

use crate::error::{MarketError, MarketplaceError};
use crate::key::Key;
use crate::pda::{
    canonical_address, canonical_bump, create_program_address, lemma_canonical_bump, pda_exists,
    program_address, seeds_view, try_find_program_address, with_bump,
};
use crate::accounts::TokenAccount;
use crate::ids::{ASSOCIATED_TOKEN_PROGRAM_ID, SYSTEM_PROGRAM_ID, TOKEN_2022_PROGRAM_ID, TOKEN_PROGRAM_ID};
use crate::seeds::{associated_token_seeds, build_associated_token_seeds, push_bump};

verus! {

/// `first`, if it is an error; else `rest`.
pub open spec fn then<T>(first: Result<(), MarketError>, rest: Result<T, MarketError>) -> Result<T, MarketError> {
    match first {
        Err(e) => Err(e),
        Ok(_) => rest,
    }
}

/// A `seeds` constraint with a stored bump: the account must be the address
/// that the seeds and the bump derive.
pub open spec fn seeds_check(account: Seq<u8>, seeds: Seq<Seq<u8>>, bump: u8, program_id: Seq<u8>) -> Result<(), MarketError> {
    if program_address(with_bump(seeds, bump), program_id) == Some(account) {
        Ok(())
    } else {
        Err(MarketError::ConstraintSeeds)
    }
}

/// A `seeds` constraint on an account being created: the account must be the
/// address derived with the canonical bump, which is handed back.
pub open spec fn init_seeds_check(account: Seq<u8>, seeds: Seq<Seq<u8>>, program_id: Seq<u8>) -> Result<u8, MarketError> {
    if !pda_exists(seeds, program_id) {
        Err(MarketError::BumpNotFound)
    } else if canonical_address(seeds, program_id) == account {
        Ok(canonical_bump(seeds, program_id))
    } else {
        Err(MarketError::ConstraintSeeds)
    }
}

/// The account must be the associated token account of `wallet` for `mint`
/// under `token_program`: the canonical address of `[wallet, token_program,
/// mint]` under the associated token program. `err` is the error where it is not.
pub open spec fn ata_check(
    account: Seq<u8>,
    wallet: Seq<u8>,
    token_program: Seq<u8>,
    mint: Seq<u8>,
    err: MarketError,
) -> Result<(), MarketError> {
    let seeds = associated_token_seeds(wallet, token_program, mint);
    if !pda_exists(seeds, ASSOCIATED_TOKEN_PROGRAM_ID@) {
        Err(MarketError::BumpNotFound)
    } else if canonical_address(seeds, ASSOCIATED_TOKEN_PROGRAM_ID@) == account {
        Ok(())
    } else {
        Err(err)
    }
}

/// A signer account must have signed the transaction.
pub open spec fn signer_check(is_signer: bool) -> Result<(), MarketError> {
    if is_signer {
        Ok(())
    } else {
        Err(MarketError::AccountNotSigner)
    }
}

/// An account of the program's own types must be owned by the program.
pub open spec fn owned_by_check(owner: Seq<u8>, program_id: Seq<u8>) -> Result<(), MarketError> {
    if owner == program_id {
        Ok(())
    } else {
        Err(MarketError::AccountOwnedByWrongProgram)
    }
}

/// A wallet account must be owned by the system program.
pub open spec fn system_owned_check(owner: Seq<u8>) -> Result<(), MarketError> {
    if owner == SYSTEM_PROGRAM_ID@ {
        Ok(())
    } else {
        Err(MarketError::AccountNotSystemOwned)
    }
}

/// A mint or token account must be owned by one of the two token programs.
pub open spec fn token_owned_check(owner: Seq<u8>) -> Result<(), MarketError> {
    if owner == TOKEN_PROGRAM_ID@ || owner == TOKEN_2022_PROGRAM_ID@ {
        Ok(())
    } else {
        Err(MarketError::AccountOwnedByWrongProgram)
    }
}

/// An `associated_token` constraint that names no token program: the token
/// account must belong to `wallet`, and be the associated token account of
/// `wallet` for `mint` under the SPL Token program.
pub open spec fn associated_check(account: TokenAccount, wallet: Seq<u8>, mint: Seq<u8>) -> Result<(), MarketError> {
    if account.owner@ != wallet {
        Err(MarketError::ConstraintTokenOwner)
    } else {
        ata_check(account.key@, wallet, TOKEN_PROGRAM_ID@, mint, MarketError::ConstraintAssociated)
    }
}

/// A token account created here, as the associated token program creates it:
/// it must be the associated token account of `wallet` for `mint` under the
/// token program passed (the associated token program creates no other), be
/// owned by a token program, and meet its `associated_token` constraint.
pub open spec fn init_associated_check(
    account: TokenAccount,
    wallet: Seq<u8>,
    mint: Seq<u8>,
    token_program: Seq<u8>,
) -> Result<(), MarketError> {
    then(
        ata_check(account.key@, wallet, token_program, mint, MarketError::AccountNotAssociatedTokenAccount),
        then(token_owned_check(account.program@), associated_check(account, wallet, mint)),
    )
}

/// The fields of a token account created where needed, as they are checked:
/// its mint, its wallet, the token program owning it, its address under that
/// token program.
pub open spec fn if_needed_fields_check(
    account: TokenAccount,
    wallet: Seq<u8>,
    mint: Seq<u8>,
    token_program: Seq<u8>,
) -> Result<(), MarketError> {
    if account.mint@ != mint {
        Err(MarketError::ConstraintTokenMint)
    } else if account.owner@ != wallet {
        Err(MarketError::ConstraintTokenOwner)
    } else if account.program@ != token_program {
        Err(MarketError::ConstraintAssociatedTokenTokenProgram)
    } else {
        ata_check(account.key@, wallet, token_program, mint, MarketError::AccountNotAssociatedTokenAccount)
    }
}

/// A token account created where needed (as it stands once created, where it
/// did not exist): owned by a token program, its fields those required, and
/// then its `associated_token` constraint.
pub open spec fn init_if_needed_associated_check(
    account: TokenAccount,
    wallet: Seq<u8>,
    mint: Seq<u8>,
    token_program: Seq<u8>,
) -> Result<(), MarketError> {
    then(
        token_owned_check(account.program@),
        then(
            if_needed_fields_check(account, wallet, mint, token_program),
            associated_check(account, wallet, mint),
        ),
    )
}

/// A `close` constraint: the account closed must not be its own destination.
pub open spec fn close_check(account: Seq<u8>, destination: Seq<u8>) -> Result<(), MarketError> {
    if account != destination {
        Ok(())
    } else {
        Err(MarketError::ConstraintClose)
    }
}

/// The addresses of a sequence of accounts.
pub open spec fn keys_view(keys: Seq<Key>) -> Seq<Seq<u8>> {
    keys.map_values(|k: Key| k@)
}

/// Some address occurs twice.
pub open spec fn has_duplicate(keys: Seq<Seq<u8>>) -> bool {
    exists|i: int, j: int| 0 <= i < j < keys.len() && #[trigger] keys[i] == #[trigger] keys[j]
}

/// The accounts written back at the end must all differ.
pub open spec fn distinct_check(keys: Seq<Seq<u8>>) -> Result<(), MarketError> {
    if has_duplicate(keys) {
        Err(MarketError::ConstraintDuplicateMutableAccount)
    } else {
        Ok(())
    }
}

/// A `has_one` constraint: the stored key must be the account passed beside it.
pub open spec fn has_one_check(stored: Seq<u8>, account: Seq<u8>) -> Result<(), MarketError> {
    if stored == account {
        Ok(())
    } else {
        Err(MarketError::ConstraintHasOne)
    }
}

/// The stored mint must be the mint account passed beside it.
pub open spec fn mint_check(stored: Seq<u8>, mint: Seq<u8>) -> Result<(), MarketError> {
    if stored == mint {
        Ok(())
    } else {
        Err(MarketError::Program(MarketplaceError::TokenAccountsMismatch))
    }
}

/// Where the accounts written back all differ, any two of them differ.
pub proof fn lemma_distinct_at(keys: Seq<Seq<u8>>, i: int, j: int)
    requires
        distinct_check(keys) is Ok,
        0 <= i < j < keys.len(),
    ensures
        keys[i] != keys[j],
{
}

/// Checks a `seeds` constraint with a stored bump.
pub fn check_seeds(account: &Key, seeds: Vec<Vec<u8>>, bump: u8, program_id: &Key) -> (r: Result<(), MarketError>)
    ensures
        r == seeds_check(account@, seeds_view(seeds@), bump, program_id@),
{
    let mut seeds = seeds;
    push_bump(&mut seeds, bump);
    match create_program_address(&seeds, program_id) {
        Some(k) => {
            if k.equals(account) {
                Ok(())
            } else {
                Err(MarketError::ConstraintSeeds)
            }
        },
        None => Err(MarketError::ConstraintSeeds),
    }
}

/// Checks a `seeds` constraint on an account being created and finds its bump.
pub fn find_bump(account: &Key, seeds: &Vec<Vec<u8>>, program_id: &Key) -> (r: Result<u8, MarketError>)
    ensures
        r == init_seeds_check(account@, seeds_view(seeds@), program_id@),
{
    match try_find_program_address(seeds, program_id) {
        None => Err(MarketError::BumpNotFound),
        Some((k, b)) => {
            proof {
                lemma_canonical_bump(seeds_view(seeds@), program_id@);
            }
            if k.equals(account) {
                Ok(b)
            } else {
                Err(MarketError::ConstraintSeeds)
            }
        },
    }
}

/// Checks that `account` is the associated token account of `wallet` for
/// `mint` under `token_program`.
fn check_ata(
    account: &Key,
    wallet: &Key,
    token_program: &Key,
    mint: &Key,
    err: MarketError,
) -> (r: Result<(), MarketError>)
    ensures
        r == ata_check(account@, wallet@, token_program@, mint@, err),
{
    let seeds = build_associated_token_seeds(wallet, token_program, mint);
    let ata_program = Key::new(ASSOCIATED_TOKEN_PROGRAM_ID);
    match try_find_program_address(&seeds, &ata_program) {
        None => Err(MarketError::BumpNotFound),
        Some((k, b)) => {
            proof {
                lemma_canonical_bump(seeds_view(seeds@), ata_program@);
            }
            if k.equals(account) {
                Ok(())
            } else {
                Err(err)
            }
        },
    }
}

/// Checks that a signer account signed.
pub fn check_signer(is_signer: bool) -> (r: Result<(), MarketError>)
    ensures
        r == signer_check(is_signer),
{
    if is_signer {
        Ok(())
    } else {
        Err(MarketError::AccountNotSigner)
    }
}

/// Checks that an account of the program's own types is owned by the program.
pub fn check_owned_by(owner: &Key, program_id: &Key) -> (r: Result<(), MarketError>)
    ensures
        r == owned_by_check(owner@, program_id@),
{
    if owner.equals(program_id) {
        Ok(())
    } else {
        Err(MarketError::AccountOwnedByWrongProgram)
    }
}

/// Checks that a wallet account is owned by the system program.
pub fn check_system_owned(owner: &Key) -> (r: Result<(), MarketError>)
    ensures
        r == system_owned_check(owner@),
{
    if owner.equals(&Key::new(SYSTEM_PROGRAM_ID)) {
        Ok(())
    } else {
        Err(MarketError::AccountNotSystemOwned)
    }
}

/// Checks that a mint or token account is owned by a token program.
pub fn check_token_owned(owner: &Key) -> (r: Result<(), MarketError>)
    ensures
        r == token_owned_check(owner@),
{
    if owner.equals(&Key::new(TOKEN_PROGRAM_ID)) || owner.equals(&Key::new(TOKEN_2022_PROGRAM_ID)) {
        Ok(())
    } else {
        Err(MarketError::AccountOwnedByWrongProgram)
    }
}

/// Checks an `associated_token` constraint that names no token program.
pub fn check_associated(account: &TokenAccount, wallet: &Key, mint: &Key) -> (r: Result<(), MarketError>)
    ensures
        r == associated_check(*account, wallet@, mint@),
{
    if !account.owner.equals(wallet) {
        return Err(MarketError::ConstraintTokenOwner);
    }
    check_ata(&account.key, wallet, &Key::new(TOKEN_PROGRAM_ID), mint, MarketError::ConstraintAssociated)
}

/// Checks a token account created here.
pub fn check_init_associated(
    account: &TokenAccount,
    wallet: &Key,
    mint: &Key,
    token_program: &Key,
) -> (r: Result<(), MarketError>)
    ensures
        r == init_associated_check(*account, wallet@, mint@, token_program@),
{
    check_ata(&account.key, wallet, token_program, mint, MarketError::AccountNotAssociatedTokenAccount)?;
    check_token_owned(&account.program)?;
    check_associated(account, wallet, mint)
}

/// Checks a token account created where needed.
pub fn check_init_if_needed_associated(
    account: &TokenAccount,
    wallet: &Key,
    mint: &Key,
    token_program: &Key,
) -> (r: Result<(), MarketError>)
    ensures
        r == init_if_needed_associated_check(*account, wallet@, mint@, token_program@),
{
    check_token_owned(&account.program)?;
    if !account.mint.equals(mint) {
        return Err(MarketError::ConstraintTokenMint);
    }
    if !account.owner.equals(wallet) {
        return Err(MarketError::ConstraintTokenOwner);
    }
    if !account.program.equals(token_program) {
        return Err(MarketError::ConstraintAssociatedTokenTokenProgram);
    }
    check_ata(&account.key, wallet, token_program, mint, MarketError::AccountNotAssociatedTokenAccount)?;
    check_associated(account, wallet, mint)
}

/// Checks a `close` constraint.
pub fn check_close(account: &Key, destination: &Key) -> (r: Result<(), MarketError>)
    ensures
        r == close_check(account@, destination@),
{
    if !account.equals(destination) {
        Ok(())
    } else {
        Err(MarketError::ConstraintClose)
    }
}

/// Checks that the accounts written back at the end all differ.
pub fn check_distinct(keys: &Vec<Key>) -> (r: Result<(), MarketError>)
    ensures
        r == distinct_check(keys_view(keys@)),
{
    let ghost ks = keys_view(keys@);
    let n = keys.len();
    let mut i: usize = 0;
    while i < n
        invariant
            n == keys.len(),
            ks == keys_view(keys@),
            ks.len() == n,
            i <= n,
            forall|a: int, b: int| 0 <= a < i && a < b < n ==> ks[a] != ks[b],
        decreases n - i,
    {
        let mut j: usize = i + 1;
        while j < n
            invariant
                n == keys.len(),
                ks == keys_view(keys@),
                ks.len() == n,
                i < n,
                i + 1 <= j <= n,
                forall|a: int, b: int| 0 <= a < i && a < b < n ==> ks[a] != ks[b],
                forall|b: int| i < b < j ==> ks[i as int] != ks[b],
            decreases n - j,
        {
            if keys[i].equals(&keys[j]) {
                assert(ks[i as int] == ks[j as int]);
                return Err(MarketError::ConstraintDuplicateMutableAccount);
            }
            j = j + 1;
        }
        i = i + 1;
    }
    Ok(())
}

/// Checks a `has_one` constraint.
pub fn check_has_one(stored: &Key, account: &Key) -> (r: Result<(), MarketError>)
    ensures
        r == has_one_check(stored@, account@),
{
    if stored.equals(account) {
        Ok(())
    } else {
        Err(MarketError::ConstraintHasOne)
    }
}

/// Checks that a stored mint is the mint account passed beside it.
pub fn check_mint(stored: &Key, mint: &Key) -> (r: Result<(), MarketError>)
    ensures
        r == mint_check(stored@, mint@),
{
    if stored.equals(mint) {
        Ok(())
    } else {
        Err(MarketError::Program(MarketplaceError::TokenAccountsMismatch))
    }
}

} // verus!
