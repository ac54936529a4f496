//! Mint accounts: the key a mint address stands for, and the decoding of the
//! account's 82 bytes into supply, decimals, authorities and initialisation.

use std::str::FromStr;
use solana_program::program_pack::Pack;
use solana_program::pubkey::Pubkey;
use spl_token::state::Mint;
use vstd::prelude::*;
use crate::error::EventError;

verus! {

/// Number of bytes in a mint account.
pub const MINT_ACCOUNT_LEN: usize = 82;

/// A decoded snapshot of a mint account. Authorities are account keys.
#[derive(Clone, Copy, Debug, PartialEq, Eq)]
pub struct MintInfo {
    pub mint_authority: Option<[u8; 32]>,
    pub supply: u64,
    pub decimals: u8,
    pub is_initialized: bool,
    pub freeze_authority: Option<[u8; 32]>,
}

/// The mathematical form of a `MintInfo`.
pub struct MintView {
    pub mint_authority: Option<Seq<u8>>,
    pub supply: nat,
    pub decimals: u8,
    pub is_initialized: bool,
    pub freeze_authority: Option<Seq<u8>>,
}

/// The bytes of an optional key.
pub open spec fn key_bytes(key: Option<[u8; 32]>) -> Option<Seq<u8>> {
    match key {
        Some(bytes) => Some(bytes@),
        None => None,
    }
}

impl View for MintInfo {
    type V = MintView;

    open spec fn view(&self) -> MintView {
        MintView {
            mint_authority: key_bytes(self.mint_authority),
            supply: self.supply as nat,
            decimals: self.decimals,
            is_initialized: self.is_initialized,
            freeze_authority: key_bytes(self.freeze_authority),
        }
    }
}

/// The number that bytes stand for, least significant byte first.
pub open spec fn little_endian(bytes: Seq<u8>) -> nat
    decreases bytes.len(),
{
    if bytes.len() == 0 {
        0
    } else {
        bytes[0] as nat + 256 * little_endian(bytes.drop_first())
    }
}

/// The reading of a 36-byte optional-key field: a four-byte presence flag,
/// 0 or 1 least significant byte first, then the 32 bytes of the key. The
/// outer `None` marks a flag that is neither.
pub open spec fn optional_key(field: Seq<u8>) -> Option<Option<Seq<u8>>> {
    if field.subrange(0, 4) == seq![0u8, 0u8, 0u8, 0u8] {
        Some(None)
    } else if field.subrange(0, 4) == seq![1u8, 0u8, 0u8, 0u8] {
        Some(Some(field.subrange(4, 36)))
    } else {
        None
    }
}

/// The mint that account data holds, `None` where the data is not that of an
/// initialised mint.
///
/// The layout is fixed: the optional mint authority in bytes 0 to 35, the
/// supply in bytes 36 to 43, least significant byte first, the decimals in
/// byte 44, the initialisation flag in byte 45, and the optional freeze
/// authority in bytes 46 to 81.
pub open spec fn mint_layout(data: Seq<u8>) -> Option<MintView> {
    if data.len() != MINT_ACCOUNT_LEN || data[45] != 1 {
        None
    } else {
        match (optional_key(data.subrange(0, 36)), optional_key(data.subrange(46, 82))) {
            (Some(mint_authority), Some(freeze_authority)) => Some(
                MintView {
                    mint_authority,
                    supply: little_endian(data.subrange(36, 44)),
                    decimals: data[44],
                    is_initialized: true,
                    freeze_authority,
                },
            ),
            _ => None,
        }
    }
}

/// Decoding of mint account data, by `spl_token::state::Mint::unpack`.
///
/// Trusted: the result is claimed to follow `mint_layout`. The unpacking
/// refuses data of any length but 82, a presence flag other than 0 and 1, an
/// initialisation byte other than 0 and 1, and a mint that is not
/// initialised; it reads the supply with `u64::from_le_bytes`.
#[verifier::external_body]
fn unpack_mint(data: &[u8]) -> (mint: Option<MintInfo>)
    ensures
        match mint {
            Some(info) => mint_layout(data@) == Some(info@),
            None => mint_layout(data@) is None,
        },
{
    let mint = Mint::unpack(data).ok()?;
    Some(MintInfo {
        mint_authority: Option::from(mint.mint_authority).map(Pubkey::to_bytes),
        supply: mint.supply,
        decimals: mint.decimals,
        is_initialized: mint.is_initialized,
        freeze_authority: Option::from(mint.freeze_authority).map(Pubkey::to_bytes),
    })
}

/// The account key that an address stands for, `None` where it stands for
/// none.
pub uninterp spec fn address_key(address: Seq<char>) -> Option<Seq<u8>>;

/// Parsing of an address, by `Pubkey::from_str`.
///
/// Trusted: the result is claimed to depend on the text alone.
#[verifier::external_body]
fn parse_address(address: &str) -> (key: Option<[u8; 32]>)
    ensures
        address_key(address@) == key_bytes(key),
{
    match Pubkey::from_str(address) {
        Ok(key) => Some(key.to_bytes()),
        Err(_) => None,
    }
}

/// What an account query returned.
#[derive(Clone, Debug, PartialEq, Eq)]
pub enum FetchedAccount {
    /// The request failed, or there is no account at the address.
    Unavailable,
    /// The raw data of the account.
    Data(Vec<u8>),
}

/// The mathematical form of a `FetchedAccount`.
pub enum AccountView {
    Unavailable,
    Data(Seq<u8>),
}

impl View for FetchedAccount {
    type V = AccountView;

    open spec fn view(&self) -> AccountView {
        match self {
            FetchedAccount::Unavailable => AccountView::Unavailable,
            FetchedAccount::Data(data) => AccountView::Data(data@),
        }
    }
}

/// The mint that a fetched account holds: `NotFound` where nothing was
/// fetched, `DecodeError` where the data is not that of an initialised mint.
pub open spec fn decoded_mint(fetched: AccountView) -> Result<MintView, EventError> {
    match fetched {
        AccountView::Unavailable => Err(EventError::NotFound),
        AccountView::Data(data) => match mint_layout(data) {
            Some(mint) => Ok(mint),
            None => Err(EventError::DecodeError),
        },
    }
}

/// The key to query, of the outcome of parsing an address: the key that was
/// parsed, and `NotFound` where none was. An address that stands for no key
/// names no account.
pub fn key_or_not_found(parsed: Option<[u8; 32]>) -> (result: Result<[u8; 32], EventError>)
    ensures
        result == match parsed {
            Some(key) => Ok::<[u8; 32], EventError>(key),
            None => Err::<[u8; 32], EventError>(EventError::NotFound),
        },
{
    match parsed {
        Some(key) => Ok(key),
        None => Err(EventError::NotFound),
    }
}

/// The key to query for a mint address, and `NotFound` for an address that
/// stands for no key.
pub fn mint_key(address: &str) -> (result: Result<[u8; 32], EventError>)
    ensures
        match result {
            Ok(key) => address_key(address@) == Some(key@),
            Err(error) => error == EventError::NotFound && address_key(address@) is None,
        },
{
    key_or_not_found(parse_address(address))
}

/// Decodes what an account query returned into the mint it holds.
pub fn decode_mint(fetched: &FetchedAccount) -> (result: Result<MintInfo, EventError>)
    ensures
        match result {
            Ok(info) => decoded_mint(fetched@) == Ok::<MintView, EventError>(info@),
            Err(error) => decoded_mint(fetched@) == Err::<MintView, EventError>(error),
        },
{
    match fetched {
        FetchedAccount::Unavailable => Err(EventError::NotFound),
        FetchedAccount::Data(data) => match unpack_mint(data.as_slice()) {
            Some(info) => Ok(info),
            None => Err(EventError::DecodeError),
        },
    }
}

} // verus!
