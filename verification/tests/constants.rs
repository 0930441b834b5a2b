use anchor_lang::solana_program::system_program;
use anchor_lang::solana_program::sysvar::rent;
use metaplex_cpi::state::creators_are_encodable;
use metaplex_cpi::state::text_is_encodable;
use metaplex_cpi::Data;
use metaplex_cpi::DataV2;
use metaplex_cpi::ASSOCIATED_TOKEN_PROGRAM_ID;
use metaplex_cpi::EDITION;
use metaplex_cpi::EDITION_MARKER_BIT_SIZE;
use metaplex_cpi::ID;
use metaplex_cpi::PREFIX;
use metaplex_cpi::RENT_SYSVAR_ID;
use metaplex_cpi::SYSTEM_PROGRAM_ID;
use metaplex_cpi::TOKEN_PROGRAM_ID;
use mpl_token_metadata::solana_program::pubkey::Pubkey;
use mpl_token_metadata::state::Creator;

#[test]
fn id_is_the_token_metadata_program() {
    assert_eq!(ID, mpl_token_metadata::ID.to_bytes());
    assert_eq!(ID, mpl_token_metadata::id().to_bytes());
    assert_eq!(
        Pubkey::new_from_array(ID).to_string(),
        "metaqbxxUerdq28cj1RbAWkYQm3ybzjb6a8bt518x1s"
    );
}

#[test]
fn system_program_id_is_the_system_program() {
    assert_eq!(SYSTEM_PROGRAM_ID, system_program::id().to_bytes());
    assert_eq!(SYSTEM_PROGRAM_ID, [0u8; 32]);
}

#[test]
fn rent_sysvar_id_is_the_rent_sysvar() {
    assert_eq!(RENT_SYSVAR_ID, rent::id().to_bytes());
    assert_eq!(
        Pubkey::new_from_array(RENT_SYSVAR_ID).to_string(),
        "SysvarRent111111111111111111111111111111111"
    );
}

#[test]
fn token_program_id_is_the_token_program() {
    assert_eq!(TOKEN_PROGRAM_ID, anchor_spl::token::ID.to_bytes());
    assert_eq!(
        Pubkey::new_from_array(TOKEN_PROGRAM_ID).to_string(),
        "TokenkegQfeZyiNwAJbNbGKPFXCWuBvf9Ss623VQ5DA"
    );
}

#[test]
fn associated_token_program_id_is_the_associated_token_program() {
    assert_eq!(ASSOCIATED_TOKEN_PROGRAM_ID, anchor_spl::associated_token::ID.to_bytes());
    assert_eq!(
        Pubkey::new_from_array(ASSOCIATED_TOKEN_PROGRAM_ID).to_string(),
        "ATokenGPvbdGVxr1b2hvZbsiqW5xWH25efTNsLJA8knL"
    );
}

#[test]
fn seeds_and_marker_size_are_those_of_the_program() {
    assert_eq!(PREFIX, "metadata");
    assert_eq!(EDITION, "edition");
    assert_eq!(EDITION_MARKER_BIT_SIZE, 248);
    assert_eq!(PREFIX, mpl_token_metadata::state::PREFIX);
    assert_eq!(EDITION, mpl_token_metadata::state::EDITION);
    assert_eq!(EDITION_MARKER_BIT_SIZE, mpl_token_metadata::state::EDITION_MARKER_BIT_SIZE);
}

#[test]
fn short_texts_are_encodable() {
    assert!(text_is_encodable(&String::new()));
    assert!(text_is_encodable(&String::from("Mona Lisa")));
    assert!(text_is_encodable(&String::from("caf\u{e9} \u{1f3a8}")));
    assert!(text_is_encodable(&"x".repeat(100_000)));
}

#[test]
fn short_creator_lists_are_encodable() {
    assert!(creators_are_encodable(&Vec::new()));
    let one = Creator { address: Pubkey::new_from_array([7u8; 32]), verified: true, share: 100 };
    assert!(creators_are_encodable(&vec![one]));
}

#[test]
fn short_descriptions_are_encodable() {
    let data = Data {
        name: String::from("Mona Lisa"),
        symbol: String::from("ML"),
        uri: String::from("https://example.org/1.json"),
        seller_fee_basis_points: 250,
        creators: None,
    };
    assert!(data.is_encodable());
    let data = DataV2 {
        name: String::from("Mona Lisa"),
        symbol: String::from("ML"),
        uri: String::from("https://example.org/1.json"),
        seller_fee_basis_points: 250,
        creators: Some(Vec::new()),
        collection: None,
        uses: None,
    };
    assert!(data.is_encodable());
}
