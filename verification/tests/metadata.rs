use metaplex_cpi::AccountMeta;
use metaplex_cpi::AccountRef;
use metaplex_cpi::CreateMetadataAccountV2;
use metaplex_cpi::CreateMetadataAccounts;
use metaplex_cpi::Data;
use metaplex_cpi::DataV2;
use metaplex_cpi::Instruction;
use metaplex_cpi::Invocation;
use metaplex_cpi::UpdateMetadataAccounts;
use metaplex_cpi::UpdateMetadataAccountsV2;
use metaplex_cpi::ID;
use metaplex_cpi::RENT_SYSVAR_ID;
use metaplex_cpi::SYSTEM_PROGRAM_ID;
use mpl_token_metadata::instruction;
use mpl_token_metadata::solana_program::pubkey::Pubkey;
use mpl_token_metadata::state::Collection;
use mpl_token_metadata::state::Creator;
use mpl_token_metadata::state::UseMethod;
use mpl_token_metadata::state::Uses;

const SYSTEM: u8 = 201;
const RENT: u8 = 203;

/// The address that the tests give to the account with this number.
fn key(n: u8) -> [u8; 32] {
    match n {
        SYSTEM => SYSTEM_PROGRAM_ID,
        RENT => RENT_SYSVAR_ID,
        _ => [n; 32],
    }
}

fn pubkey(n: u8) -> Pubkey {
    Pubkey::new_from_array(key(n))
}

/// An account that carries its number, so that it is found again in a list.
fn account(n: u8) -> AccountRef<u8> {
    AccountRef { key: key(n), info: n }
}

fn writable(n: u8, is_signer: bool) -> AccountMeta {
    AccountMeta { pubkey: key(n), is_signer, is_writable: true }
}

fn readonly(n: u8, is_signer: bool) -> AccountMeta {
    AccountMeta { pubkey: key(n), is_signer, is_writable: false }
}

/// What the program's own builder made, as an instruction of the library.
fn built(ix: mpl_token_metadata::solana_program::instruction::Instruction) -> Instruction {
    Instruction {
        program_id: ix.program_id.to_bytes(),
        accounts: ix
            .accounts
            .iter()
            .map(|m| AccountMeta {
                pubkey: m.pubkey.to_bytes(),
                is_signer: m.is_signer,
                is_writable: m.is_writable,
            })
            .collect(),
        data: ix.data,
    }
}

/// The numbers of the accounts that an invocation hands over, in their order.
fn handed_over(call: &Invocation<u8>) -> Vec<u8> {
    call.account_infos.iter().map(|a| a.info).collect()
}

/// A text as the program reads it: its length in four bytes, then its bytes.
fn text(s: &str) -> Vec<u8> {
    let mut bytes = vec![s.len() as u8, (s.len() >> 8) as u8, 0, 0];
    bytes.extend_from_slice(s.as_bytes());
    bytes
}

fn creators() -> Vec<Creator> {
    vec![
        Creator { address: pubkey(9), verified: false, share: 60 },
        Creator { address: pubkey(10), verified: true, share: 40 },
    ]
}

/// The two creators as the program reads them, with the byte that says that
/// there are creators, and their number.
fn creators_bytes() -> Vec<u8> {
    let mut bytes = vec![1u8, 2, 0, 0, 0];
    bytes.extend_from_slice(&[9u8; 32]);
    bytes.extend_from_slice(&[0, 60]);
    bytes.extend_from_slice(&[10u8; 32]);
    bytes.extend_from_slice(&[1, 40]);
    bytes
}

fn collection() -> Collection {
    Collection { verified: false, key: pubkey(11) }
}

fn collection_bytes() -> Vec<u8> {
    let mut bytes = vec![1u8, 0];
    bytes.extend_from_slice(&[11u8; 32]);
    bytes
}

fn uses() -> Uses {
    Uses { use_method: UseMethod::Multiple, remaining: 5, total: 7 }
}

fn uses_bytes() -> Vec<u8> {
    vec![1u8, 1, 5, 0, 0, 0, 0, 0, 0, 0, 7, 0, 0, 0, 0, 0, 0, 0]
}

fn creation_metas(update_authority_is_signer: bool) -> Vec<AccountMeta> {
    vec![
        writable(1, false),
        readonly(2, false),
        readonly(3, true),
        writable(4, true),
        readonly(5, update_authority_is_signer),
        readonly(SYSTEM, false),
        readonly(RENT, false),
    ]
}

#[test]
fn create_metadata_accounts_v2_builds_the_invocation() {
    let call = metaplex_cpi::create_metadata_accounts_v2(
        CreateMetadataAccountV2 {
            metadata_account: account(1),
            mint: account(2),
            mint_authority: account(3),
            payer: account(4),
            update_authority: account(5),
            system_program: account(SYSTEM),
            rent: account(RENT),
        },
        String::from("Mona Lisa"),
        String::from("ML"),
        String::from("https://example.org/1.json"),
        250,
        true,
        true,
        uses(),
        collection(),
        creators(),
    );
    assert_eq!(call.instruction.program_id, ID);
    assert_eq!(call.instruction.accounts, creation_metas(true));
    let mut data = vec![16u8];
    data.extend(text("Mona Lisa"));
    data.extend(text("ML"));
    data.extend(text("https://example.org/1.json"));
    data.extend_from_slice(&[250, 0]);
    data.extend(creators_bytes());
    data.extend(collection_bytes());
    data.extend(uses_bytes());
    data.push(1);
    assert_eq!(call.instruction.data, data);
    assert_eq!(
        call.instruction,
        built(instruction::create_metadata_accounts_v2(
            mpl_token_metadata::ID,
            pubkey(1),
            pubkey(2),
            pubkey(3),
            pubkey(4),
            pubkey(5),
            String::from("Mona Lisa"),
            String::from("ML"),
            String::from("https://example.org/1.json"),
            Some(creators()),
            250,
            true,
            true,
            Some(collection()),
            Some(uses()),
        ))
    );
    assert_eq!(handed_over(&call), vec![1, 2, 3, 4, 5, SYSTEM, RENT]);
}

#[test]
fn create_metadata_accounts_builds_the_invocation() {
    let call = metaplex_cpi::create_metadata_accounts(
        CreateMetadataAccounts {
            metadata_account: account(1),
            mint: account(2),
            mint_authority: account(3),
            payer: account(4),
            update_authority: account(5),
            system_program: account(SYSTEM),
            rent: account(RENT),
        },
        String::from("Mona Lisa"),
        String::from("ML"),
        String::from("https://example.org/1.json"),
        10_000,
        false,
        false,
        creators(),
    );
    assert_eq!(call.instruction.program_id, ID);
    assert_eq!(call.instruction.accounts, creation_metas(false));
    let mut data = vec![0u8];
    data.extend(text("Mona Lisa"));
    data.extend(text("ML"));
    data.extend(text("https://example.org/1.json"));
    data.extend_from_slice(&[16, 39]);
    data.extend(creators_bytes());
    data.push(0);
    assert_eq!(call.instruction.data, data);
    assert_eq!(
        call.instruction,
        built(instruction::create_metadata_accounts(
            mpl_token_metadata::ID,
            pubkey(1),
            pubkey(2),
            pubkey(3),
            pubkey(4),
            pubkey(5),
            String::from("Mona Lisa"),
            String::from("ML"),
            String::from("https://example.org/1.json"),
            Some(creators()),
            10_000,
            false,
            false,
        ))
    );
    assert_eq!(handed_over(&call), vec![1, 2, 3, 4, 5, SYSTEM, RENT]);
}

#[test]
fn create_metadata_accounts_takes_empty_texts_and_no_creators() {
    let call = metaplex_cpi::create_metadata_accounts(
        CreateMetadataAccounts {
            metadata_account: account(1),
            mint: account(2),
            mint_authority: account(3),
            payer: account(4),
            update_authority: account(5),
            system_program: account(SYSTEM),
            rent: account(RENT),
        },
        String::new(),
        String::new(),
        String::new(),
        0,
        true,
        true,
        Vec::new(),
    );
    assert_eq!(
        call.instruction.data,
        vec![0u8, 0, 0, 0, 0, 0, 0, 0, 0, 0, 0, 0, 0, 0, 0, 1, 0, 0, 0, 0, 1]
    );
}

#[test]
fn create_metadata_accounts_v2_counts_a_text_in_bytes() {
    let call = metaplex_cpi::create_metadata_accounts_v2(
        CreateMetadataAccountV2 {
            metadata_account: account(1),
            mint: account(2),
            mint_authority: account(3),
            payer: account(4),
            update_authority: account(5),
            system_program: account(SYSTEM),
            rent: account(RENT),
        },
        String::from("caf\u{e9}"),
        String::new(),
        String::new(),
        0,
        false,
        false,
        Uses { use_method: UseMethod::Single, remaining: 1, total: 1 },
        Collection { verified: true, key: pubkey(11) },
        Vec::new(),
    );
    let mut data = vec![16u8, 5, 0, 0, 0, 99, 97, 102, 195, 169];
    data.extend_from_slice(&[0, 0, 0, 0, 0, 0, 0, 0, 0, 0]);
    data.extend_from_slice(&[1, 0, 0, 0, 0]);
    data.extend_from_slice(&[1, 1]);
    data.extend_from_slice(&[11u8; 32]);
    data.extend_from_slice(&[1, 2, 1, 0, 0, 0, 0, 0, 0, 0, 1, 0, 0, 0, 0, 0, 0, 0]);
    data.push(0);
    assert_eq!(call.instruction.data, data);
}

#[test]
fn update_metadata_accounts_builds_the_invocation() {
    let call = metaplex_cpi::update_metadata_accounts(
        UpdateMetadataAccounts {
            metadata_account: account(1),
            update_authority: account(2),
            new_update_authority: account(3),
            system_program: account(SYSTEM),
            rent: account(RENT),
        },
        true,
        Data {
            name: String::from("Mona Lisa"),
            symbol: String::from("ML"),
            uri: String::from("https://example.org/1.json"),
            seller_fee_basis_points: 250,
            creators: Some(creators()),
        },
    );
    assert_eq!(call.instruction.program_id, ID);
    assert_eq!(call.instruction.accounts, vec![writable(1, false), readonly(2, true)]);
    let mut data = vec![1u8, 1];
    data.extend(text("Mona Lisa"));
    data.extend(text("ML"));
    data.extend(text("https://example.org/1.json"));
    data.extend_from_slice(&[250, 0]);
    data.extend(creators_bytes());
    data.push(1);
    data.extend_from_slice(&[3u8; 32]);
    data.extend_from_slice(&[1, 1]);
    assert_eq!(call.instruction.data, data);
    assert_eq!(
        call.instruction,
        built(instruction::update_metadata_accounts(
            mpl_token_metadata::ID,
            pubkey(1),
            pubkey(2),
            Some(pubkey(3)),
            Some(mpl_token_metadata::state::Data {
                name: String::from("Mona Lisa"),
                symbol: String::from("ML"),
                uri: String::from("https://example.org/1.json"),
                seller_fee_basis_points: 250,
                creators: Some(creators()),
            }),
            Some(true),
        ))
    );
    assert_eq!(handed_over(&call), vec![1, 2]);
}

#[test]
fn update_metadata_accounts_v2_builds_the_invocation() {
    let call = metaplex_cpi::update_metadata_accounts_v2(
        UpdateMetadataAccountsV2 {
            metadata_account: account(1),
            update_authority: account(2),
            new_update_authority: account(3),
        },
        DataV2 {
            name: String::from("Mona Lisa"),
            symbol: String::from("ML"),
            uri: String::from("https://example.org/1.json"),
            seller_fee_basis_points: 250,
            creators: None,
            collection: Some(collection()),
            uses: None,
        },
        false,
        true,
    );
    assert_eq!(call.instruction.program_id, ID);
    assert_eq!(call.instruction.accounts, vec![writable(1, false), readonly(2, true)]);
    let mut data = vec![15u8, 1];
    data.extend(text("Mona Lisa"));
    data.extend(text("ML"));
    data.extend(text("https://example.org/1.json"));
    data.extend_from_slice(&[250, 0]);
    data.push(0);
    data.extend(collection_bytes());
    data.push(0);
    data.push(1);
    data.extend_from_slice(&[3u8; 32]);
    data.extend_from_slice(&[1, 0]);
    data.extend_from_slice(&[1, 1]);
    assert_eq!(call.instruction.data, data);
    assert_eq!(
        call.instruction,
        built(instruction::update_metadata_accounts_v2(
            mpl_token_metadata::ID,
            pubkey(1),
            pubkey(2),
            Some(pubkey(3)),
            Some(mpl_token_metadata::state::DataV2 {
                name: String::from("Mona Lisa"),
                symbol: String::from("ML"),
                uri: String::from("https://example.org/1.json"),
                seller_fee_basis_points: 250,
                creators: None,
                collection: Some(collection()),
                uses: None,
            }),
            Some(false),
            Some(true),
        ))
    );
    assert_eq!(handed_over(&call), vec![1, 2]);
}

#[test]
fn update_metadata_accounts_v2_takes_creators_and_uses() {
    let call = metaplex_cpi::update_metadata_accounts_v2(
        UpdateMetadataAccountsV2 {
            metadata_account: account(1),
            update_authority: account(2),
            new_update_authority: account(3),
        },
        DataV2 {
            name: String::new(),
            symbol: String::new(),
            uri: String::new(),
            seller_fee_basis_points: 1,
            creators: Some(creators()),
            collection: None,
            uses: Some(Uses { use_method: UseMethod::Burn, remaining: 256, total: 257 }),
        },
        true,
        false,
    );
    let mut data = vec![15u8, 1, 0, 0, 0, 0, 0, 0, 0, 0, 0, 0, 0, 0, 1, 0];
    data.extend(creators_bytes());
    data.push(0);
    data.extend_from_slice(&[1, 0, 0, 1, 0, 0, 0, 0, 0, 0, 1, 1, 0, 0, 0, 0, 0, 0]);
    data.push(1);
    data.extend_from_slice(&[3u8; 32]);
    data.extend_from_slice(&[1, 1]);
    data.extend_from_slice(&[1, 0]);
    assert_eq!(call.instruction.data, data);
}

#[test]
fn into_invocation_of_a_creation_keeps_the_instruction() {
    let instruction = Instruction {
        program_id: [9u8; 32],
        accounts: vec![readonly(40, true), writable(41, false)],
        data: vec![16, 2, 3],
    };
    let call = CreateMetadataAccountV2 {
        metadata_account: account(1),
        mint: account(2),
        mint_authority: account(3),
        payer: account(4),
        update_authority: account(5),
        system_program: account(6),
        rent: account(7),
    }
    .into_invocation(instruction);
    assert_eq!(call.instruction.program_id, [9u8; 32]);
    assert_eq!(call.instruction.accounts, vec![readonly(40, true), writable(41, false)]);
    assert_eq!(call.instruction.data, vec![16, 2, 3]);
    assert_eq!(handed_over(&call), vec![1, 2, 3, 4, 5, 6, 7]);
    let call = UpdateMetadataAccounts {
        metadata_account: account(1),
        update_authority: account(2),
        new_update_authority: account(3),
        system_program: account(4),
        rent: account(5),
    }
    .into_invocation(Instruction { program_id: [8u8; 32], accounts: Vec::new(), data: vec![1] });
    assert_eq!(call.instruction.program_id, [8u8; 32]);
    assert_eq!(call.instruction.data, vec![1]);
    assert_eq!(handed_over(&call), vec![1, 2]);
}
