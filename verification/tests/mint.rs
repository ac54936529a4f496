use mint_watch::error::EventError;
use mint_watch::mint::{
    decode_mint, key_or_not_found, mint_key, FetchedAccount, MintInfo, MINT_ACCOUNT_LEN,
};
use solana_program::program_option::COption;
use solana_program::program_pack::Pack;
use solana_program::pubkey::Pubkey;
use spl_token::state::Mint;

fn authority() -> [u8; 32] {
    let mut key = [0u8; 32];
    for (i, b) in key.iter_mut().enumerate() {
        *b = i as u8 + 1;
    }
    key
}

fn mint_bytes() -> Vec<u8> {
    let mut data = vec![0u8; 82];
    data[0] = 1;
    data[4..36].copy_from_slice(&authority());
    data[36..44].copy_from_slice(&[1, 2, 3, 4, 5, 6, 7, 8]);
    data[44] = 6;
    data[45] = 1;
    data
}

#[test]
fn layout_lengths() {
    assert_eq!(MINT_ACCOUNT_LEN, 82);
    assert_eq!(Mint::LEN, MINT_ACCOUNT_LEN);
}

#[test]
fn decode_mint_reads_every_field() {
    let info = decode_mint(&FetchedAccount::Data(mint_bytes())).expect("a mint");
    assert_eq!(
        info,
        MintInfo {
            mint_authority: Some(authority()),
            supply: 0x0807_0605_0403_0201,
            decimals: 6,
            is_initialized: true,
            freeze_authority: None,
        }
    );
}

#[test]
fn decode_mint_reads_the_freeze_authority() {
    let mut data = mint_bytes();
    data[0] = 0;
    data[46] = 1;
    data[50..82].copy_from_slice(&[0xabu8; 32]);
    let info = decode_mint(&FetchedAccount::Data(data)).expect("a mint");
    assert_eq!(info.mint_authority, None);
    assert_eq!(info.freeze_authority, Some([0xabu8; 32]));
}

#[test]
fn decode_mint_reads_the_supply_least_significant_byte_first() {
    let mut data = mint_bytes();
    data[36..44].copy_from_slice(&[0xe8, 0x03, 0, 0, 0, 0, 0, 0]);
    assert_eq!(decode_mint(&FetchedAccount::Data(data.clone())).expect("a mint").supply, 1000);
    data[36..44].copy_from_slice(&[0xff; 8]);
    assert_eq!(decode_mint(&FetchedAccount::Data(data)).expect("a mint").supply, u64::MAX);
}

#[test]
fn decode_mint_agrees_with_a_packed_mint() {
    let mint = Mint {
        mint_authority: COption::Some(Pubkey::new_from_array([7u8; 32])),
        supply: 1_000_000_000_000_000,
        decimals: 9,
        is_initialized: true,
        freeze_authority: COption::Some(Pubkey::new_from_array([8u8; 32])),
    };
    let mut data = vec![0u8; Mint::LEN];
    Mint::pack(mint, &mut data).expect("packs");
    assert_eq!(
        decode_mint(&FetchedAccount::Data(data)),
        Ok(MintInfo {
            mint_authority: Some([7u8; 32]),
            supply: 1_000_000_000_000_000,
            decimals: 9,
            is_initialized: true,
            freeze_authority: Some([8u8; 32]),
        })
    );
}

#[test]
fn decode_mint_reports_an_unavailable_account_as_not_found() {
    assert_eq!(decode_mint(&FetchedAccount::Unavailable), Err(EventError::NotFound));
}

#[test]
fn decode_mint_rejects_other_lengths() {
    let data = mint_bytes();
    assert_eq!(decode_mint(&FetchedAccount::Data(Vec::new())), Err(EventError::DecodeError));
    assert_eq!(decode_mint(&FetchedAccount::Data(data[..81].to_vec())), Err(EventError::DecodeError));
    let mut longer = data.clone();
    longer.push(0);
    assert_eq!(decode_mint(&FetchedAccount::Data(longer)), Err(EventError::DecodeError));
    assert_eq!(decode_mint(&FetchedAccount::Data(vec![0u8; 165])), Err(EventError::DecodeError));
}

#[test]
fn decode_mint_rejects_an_uninitialised_mint() {
    let mut data = mint_bytes();
    data[45] = 0;
    assert_eq!(decode_mint(&FetchedAccount::Data(data)), Err(EventError::DecodeError));
    assert_eq!(decode_mint(&FetchedAccount::Data(vec![0u8; 82])), Err(EventError::DecodeError));
}

#[test]
fn decode_mint_rejects_an_unknown_initialisation_byte() {
    let mut data = mint_bytes();
    data[45] = 2;
    assert_eq!(decode_mint(&FetchedAccount::Data(data)), Err(EventError::DecodeError));
}

#[test]
fn decode_mint_rejects_unknown_presence_flags() {
    for position in [0usize, 1, 2, 3, 46, 47, 48, 49] {
        let mut data = mint_bytes();
        data[position] = 2;
        assert_eq!(
            decode_mint(&FetchedAccount::Data(data)),
            Err(EventError::DecodeError),
            "byte {}",
            position
        );
    }
}

#[test]
fn key_or_not_found_passes_a_key_on() {
    assert_eq!(key_or_not_found(Some([9u8; 32])), Ok([9u8; 32]));
    assert_eq!(key_or_not_found(None), Err(EventError::NotFound));
}

#[test]
fn mint_key_gives_the_key_of_an_address() {
    assert_eq!(mint_key("11111111111111111111111111111111"), Ok([0u8; 32]));
    let address = "6EF8rrecthR5Dkzon8Nwu78hRvfCKubJ14M5uBEwF6P";
    let key = mint_key(address).expect("an address");
    assert_eq!(key.to_vec(), bs58::decode(address).into_vec().expect("base58"));
    assert_eq!(Pubkey::new_from_array(key).to_string(), address);
}

#[test]
fn mint_key_reports_what_is_no_address_as_not_found() {
    assert_eq!(mint_key(""), Err(EventError::NotFound));
    assert_eq!(mint_key("mintAddr"), Err(EventError::NotFound));
    assert_eq!(mint_key("6EF8rrecthR5Dkzon8Nwu78hRvfCKubJ14M5uBEwF60"), Err(EventError::NotFound));
    assert_eq!(mint_key(&"1".repeat(31)), Err(EventError::NotFound));
    assert_eq!(mint_key(&"1".repeat(33)), Err(EventError::NotFound));
    assert_eq!(mint_key(&"1".repeat(64)), Err(EventError::NotFound));
}
