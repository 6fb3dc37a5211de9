use vstd::prelude::*;

use crate::constraints::then;
use crate::error::MarketError;
use crate::key::Key;

verus! {

/// The system program: `11111111111111111111111111111111`.
pub const SYSTEM_PROGRAM_ID: [u8; 32] = [
    0u8, 0u8, 0u8, 0u8, 0u8, 0u8, 0u8, 0u8, 0u8, 0u8, 0u8, 0u8, 0u8, 0u8, 0u8, 0u8,
    0u8, 0u8, 0u8, 0u8, 0u8, 0u8, 0u8, 0u8, 0u8, 0u8, 0u8, 0u8, 0u8, 0u8, 0u8, 0u8,
];

/// The SPL Token program: `TokenkegQfeZyiNwAJbNbGKPFXCWuBvf9Ss623VQ5DA`.
pub const TOKEN_PROGRAM_ID: [u8; 32] = [
    6u8, 221u8, 246u8, 225u8, 215u8, 101u8, 161u8, 147u8, 217u8, 203u8, 225u8, 70u8, 206u8, 235u8, 121u8, 172u8,
    28u8, 180u8, 133u8, 237u8, 95u8, 91u8, 55u8, 145u8, 58u8, 140u8, 245u8, 133u8, 126u8, 255u8, 0u8, 169u8,
];

/// The Token-2022 program: `TokenzQdBNbLqP5VEhdkAS6EPFLC1PHnBqCXEpPxuEb`.
pub const TOKEN_2022_PROGRAM_ID: [u8; 32] = [
    6u8, 221u8, 246u8, 225u8, 238u8, 117u8, 143u8, 222u8, 24u8, 66u8, 93u8, 188u8, 228u8, 108u8, 205u8, 218u8,
    182u8, 26u8, 252u8, 77u8, 131u8, 185u8, 13u8, 39u8, 254u8, 189u8, 249u8, 40u8, 216u8, 161u8, 139u8, 252u8,
];

/// The associated token account program: `ATokenGPvbdGVxr1b2hvZbsiqW5xWH25efTNsLJA8knL`.
pub const ASSOCIATED_TOKEN_PROGRAM_ID: [u8; 32] = [
    140u8, 151u8, 37u8, 143u8, 78u8, 36u8, 137u8, 241u8, 187u8, 61u8, 16u8, 41u8, 20u8, 142u8, 13u8, 131u8,
    11u8, 90u8, 19u8, 153u8, 218u8, 255u8, 16u8, 132u8, 4u8, 142u8, 123u8, 216u8, 219u8, 233u8, 248u8, 89u8,
];

/// A program account must be the one program it stands for.
pub open spec fn program_check(account: Seq<u8>, id: Seq<u8>) -> Result<(), MarketError> {
    if account == id {
        Ok(())
    } else {
        Err(MarketError::InvalidProgramId)
    }
}

/// The token program account must be the SPL Token or the Token-2022 program.
pub open spec fn token_interface_check(account: Seq<u8>) -> Result<(), MarketError> {
    if account == TOKEN_PROGRAM_ID@ || account == TOKEN_2022_PROGRAM_ID@ {
        Ok(())
    } else {
        Err(MarketError::InvalidProgramId)
    }
}

/// Checks that a program account is the program `id`.
pub fn check_program(account: &Key, id: [u8; 32]) -> (r: Result<(), MarketError>)
    ensures
        r == program_check(account@, id@),
{
    if account.equals(&Key::new(id)) {
        Ok(())
    } else {
        Err(MarketError::InvalidProgramId)
    }
}

/// Checks that the token program account is one of the two token programs.
pub fn check_token_interface(account: &Key) -> (r: Result<(), MarketError>)
    ensures
        r == token_interface_check(account@),
{
    if account.equals(&Key::new(TOKEN_PROGRAM_ID)) || account.equals(&Key::new(TOKEN_2022_PROGRAM_ID)) {
        Ok(())
    } else {
        Err(MarketError::InvalidProgramId)
    }
}

/// The three program accounts, in order: the system program, a token
/// program, the associated token account program.
pub open spec fn programs_check(system_program: Seq<u8>, token_program: Seq<u8>, associated_token_program: Seq<u8>) -> Result<(), MarketError> {
    then(
        program_check(system_program, SYSTEM_PROGRAM_ID@),
        then(
            token_interface_check(token_program),
            program_check(associated_token_program, ASSOCIATED_TOKEN_PROGRAM_ID@),
        ),
    )
}

/// Checks the three program accounts.
pub fn check_programs(system_program: &Key, token_program: &Key, associated_token_program: &Key) -> (r: Result<(), MarketError>)
    ensures
        r == programs_check(system_program@, token_program@, associated_token_program@),
{
    check_program(system_program, SYSTEM_PROGRAM_ID)?;
    check_token_interface(token_program)?;
    check_program(associated_token_program, ASSOCIATED_TOKEN_PROGRAM_ID)
}

} // verus!
