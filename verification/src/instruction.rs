//! Instructions of the token-metadata program, and what each of them holds.
//!
//! For every instruction there is a spec function that gives the program it is
//! for, the accounts it names and its data. The data starts with the number
//! by which the program tells its instructions apart.

use crate::address::Address;
use crate::address::ASSOCIATED_TOKEN_PROGRAM_ID;
use crate::address::RENT_SYSVAR_ID;
use crate::address::SYSTEM_PROGRAM_ID;
use crate::address::TOKEN_PROGRAM_ID;
use crate::state::DataV2View;
use crate::state::DataView;
use mpl_token_metadata::state::Collection;
use mpl_token_metadata::state::Creator;
use mpl_token_metadata::state::Uses;
use vstd::bytes::spec_u64_to_le_bytes;
use vstd::prelude::*;

verus! {

/// How an instruction refers to one account.
#[derive(Clone, Copy, Debug, PartialEq, Eq)]
pub struct AccountMeta {
    /// The address of the account.
    pub pubkey: Address,
    /// Whether the account has to sign the transaction.
    pub is_signer: bool,
    /// Whether the program may change the account.
    pub is_writable: bool,
}

/// An instruction: the program that runs it, the accounts it names and the
/// data that the program reads.
#[derive(Debug, PartialEq, Eq)]
pub struct Instruction {
    pub program_id: Address,
    pub accounts: Vec<AccountMeta>,
    pub data: Vec<u8>,
}

/// An `Instruction` in contracts.
pub struct InstructionView {
    pub program_id: Address,
    pub accounts: Seq<AccountMeta>,
    pub data: Seq<u8>,
}

impl View for Instruction {
    type V = InstructionView;

    open spec fn view(&self) -> InstructionView {
        InstructionView {
            program_id: self.program_id,
            accounts: self.accounts@,
            data: self.data@,
        }
    }
}

/// A reference to an account that the program may change.
pub open spec fn writable(pubkey: Address, is_signer: bool) -> AccountMeta {
    AccountMeta { pubkey, is_signer, is_writable: true }
}

/// A reference to an account that the program only reads.
pub open spec fn readonly(pubkey: Address, is_signer: bool) -> AccountMeta {
    AccountMeta { pubkey, is_signer, is_writable: false }
}

/// The reference that an optional account adds to an instruction: one that
/// may be changed and does not sign, or none.
pub open spec fn optional_writable(pubkey: Option<Address>) -> Seq<AccountMeta> {
    match pubkey {
        Some(key) => seq![writable(key, false)],
        None => seq![],
    }
}

/// The reference that an optional account adds to an instruction: one that
/// is only read and does not sign, or none.
pub open spec fn optional_readonly(pubkey: Option<Address>) -> Seq<AccountMeta> {
    match pubkey {
        Some(key) => seq![readonly(key, false)],
        None => seq![],
    }
}

/// An optional number as instruction data: one byte that says whether it is
/// there, then its eight bytes, lowest first.
pub open spec fn optional_u64_bytes(number: Option<u64>) -> Seq<u8> {
    match number {
        Some(n) => seq![1u8] + spec_u64_to_le_bytes(n),
        None => seq![0u8],
    }
}

/// The accounts that both instructions that create a metadata account name.
pub open spec fn create_metadata_accounts_metas(
    metadata_account: Address,
    mint: Address,
    mint_authority: Address,
    payer: Address,
    update_authority: Address,
    update_authority_is_signer: bool,
) -> Seq<AccountMeta> {
    seq![
        writable(metadata_account, false),
        readonly(mint, false),
        readonly(mint_authority, true),
        writable(payer, true),
        readonly(update_authority, update_authority_is_signer),
        readonly(SYSTEM_PROGRAM_ID, false),
        readonly(RENT_SYSVAR_ID, false),
    ]
}

/// The data of the instruction that creates a metadata account in its first
/// form: what `mpl_token_metadata::instruction::create_metadata_accounts`
/// encodes from these arguments.
pub uninterp spec fn create_metadata_accounts_data(
    name: Seq<char>,
    symbol: Seq<char>,
    uri: Seq<char>,
    creators: Option<Seq<Creator>>,
    seller_fee_basis_points: u16,
    is_mutable: bool,
) -> Seq<u8>;

/// The data of the instruction that creates a metadata account in its second
/// form: what `mpl_token_metadata::instruction::create_metadata_accounts_v2`
/// encodes from these arguments.
pub uninterp spec fn create_metadata_accounts_v2_data(
    name: Seq<char>,
    symbol: Seq<char>,
    uri: Seq<char>,
    creators: Option<Seq<Creator>>,
    seller_fee_basis_points: u16,
    is_mutable: bool,
    collection: Option<Collection>,
    uses: Option<Uses>,
) -> Seq<u8>;

/// The accounts that both instructions that update a metadata account name.
pub open spec fn update_metadata_accounts_metas(
    metadata_account: Address,
    update_authority: Address,
) -> Seq<AccountMeta> {
    seq![writable(metadata_account, false), readonly(update_authority, true)]
}

/// The data of the instruction that updates a metadata account in its first
/// form: what `mpl_token_metadata::instruction::update_metadata_accounts`
/// encodes from these arguments.
pub uninterp spec fn update_metadata_accounts_data(
    new_update_authority: Option<Address>,
    data: Option<DataView>,
    primary_sale_happened: Option<bool>,
) -> Seq<u8>;

/// The data of the instruction that updates a metadata account in its second
/// form: what `mpl_token_metadata::instruction::update_metadata_accounts_v2`
/// encodes from these arguments.
pub uninterp spec fn update_metadata_accounts_v2_data(
    new_update_authority: Option<Address>,
    data: Option<DataV2View>,
    primary_sale_happened: Option<bool>,
    is_mutable: Option<bool>,
) -> Seq<u8>;

/// The instruction by which the owner of a token records that the first sale
/// has happened.
pub open spec fn update_primary_sale_happened_via_token_instruction(
    program_id: Address,
    metadata: Address,
    owner: Address,
    token: Address,
) -> InstructionView {
    InstructionView {
        program_id,
        accounts: seq![writable(metadata, false), readonly(owner, true), readonly(token, false)],
        data: seq![4u8],
    }
}

/// The instruction that makes a mint a master edition, in its first form.
pub open spec fn create_master_edition_instruction(
    program_id: Address,
    edition: Address,
    mint: Address,
    update_authority: Address,
    mint_authority: Address,
    metadata: Address,
    payer: Address,
    max_supply: Option<u64>,
) -> InstructionView {
    InstructionView {
        program_id,
        accounts: seq![
            writable(edition, false),
            writable(mint, false),
            readonly(update_authority, true),
            readonly(mint_authority, true),
            writable(payer, true),
            readonly(metadata, false),
            readonly(TOKEN_PROGRAM_ID, false),
            readonly(SYSTEM_PROGRAM_ID, false),
            readonly(RENT_SYSVAR_ID, false),
        ],
        data: seq![10u8] + optional_u64_bytes(max_supply),
    }
}

/// The instruction that makes a mint a master edition, in its third form: it
/// may change the metadata account.
pub open spec fn create_master_edition_v3_instruction(
    program_id: Address,
    edition: Address,
    mint: Address,
    update_authority: Address,
    mint_authority: Address,
    metadata: Address,
    payer: Address,
    max_supply: Option<u64>,
) -> InstructionView {
    InstructionView {
        program_id,
        accounts: seq![
            writable(edition, false),
            writable(mint, false),
            readonly(update_authority, true),
            readonly(mint_authority, true),
            writable(payer, true),
            writable(metadata, false),
            readonly(TOKEN_PROGRAM_ID, false),
            readonly(SYSTEM_PROGRAM_ID, false),
            readonly(RENT_SYSVAR_ID, false),
        ],
        data: seq![17u8] + optional_u64_bytes(max_supply),
    }
}

/// The instruction by which a creator confirms that an asset is theirs.
pub open spec fn sign_metadata_instruction(
    program_id: Address,
    metadata: Address,
    creator: Address,
) -> InstructionView {
    InstructionView {
        program_id,
        accounts: seq![writable(metadata, false), readonly(creator, true)],
        data: seq![7u8],
    }
}

/// The instruction by which a creator withdraws that confirmation.
pub open spec fn remove_creator_verification_instruction(
    program_id: Address,
    metadata: Address,
    creator: Address,
) -> InstructionView {
    InstructionView {
        program_id,
        accounts: seq![writable(metadata, false), readonly(creator, true)],
        data: seq![28u8],
    }
}

/// The instruction that turns a master edition of the first kind into one of
/// the second.
pub open spec fn convert_master_edition_v1_to_v2_instruction(
    program_id: Address,
    master_edition: Address,
    one_time_auth: Address,
    printing_mint: Address,
) -> InstructionView {
    InstructionView {
        program_id,
        accounts: seq![
            writable(master_edition, false),
            writable(one_time_auth, false),
            writable(printing_mint, false),
        ],
        data: seq![12u8],
    }
}

/// The instruction by which the authority of a collection confirms that an
/// asset belongs to it.
pub open spec fn verify_collection_instruction(
    program_id: Address,
    metadata: Address,
    collection_authority: Address,
    payer: Address,
    collection_mint: Address,
    collection: Address,
    collection_master_edition_account: Address,
    collection_authority_record: Option<Address>,
) -> InstructionView {
    InstructionView {
        program_id,
        accounts: seq![
            writable(metadata, false),
            writable(collection_authority, true),
            writable(payer, true),
            readonly(collection_mint, false),
            readonly(collection, false),
            readonly(collection_master_edition_account, false),
        ] + optional_readonly(collection_authority_record),
        data: seq![18u8],
    }
}

/// The instruction by which the authority of a collection withdraws that
/// confirmation.
pub open spec fn unverify_collection_instruction(
    program_id: Address,
    metadata: Address,
    collection_authority: Address,
    collection_mint: Address,
    collection: Address,
    collection_master_edition_account: Address,
    collection_authority_record: Option<Address>,
) -> InstructionView {
    InstructionView {
        program_id,
        accounts: seq![
            writable(metadata, false),
            writable(collection_authority, true),
            readonly(collection_mint, false),
            readonly(collection, false),
            readonly(collection_master_edition_account, false),
        ] + optional_readonly(collection_authority_record),
        data: seq![22u8],
    }
}

/// The instruction that uses an asset a number of times.
pub open spec fn utilize_instruction(
    program_id: Address,
    metadata: Address,
    token_account: Address,
    mint: Address,
    use_authority_record_pda: Option<Address>,
    use_authority: Address,
    owner: Address,
    burner: Option<Address>,
    number_of_uses: u64,
) -> InstructionView {
    InstructionView {
        program_id,
        accounts: seq![
            writable(metadata, false),
            writable(token_account, false),
            writable(mint, false),
            writable(use_authority, true),
            readonly(owner, false),
            readonly(TOKEN_PROGRAM_ID, false),
            readonly(ASSOCIATED_TOKEN_PROGRAM_ID, false),
            readonly(SYSTEM_PROGRAM_ID, false),
            readonly(RENT_SYSVAR_ID, false),
        ] + optional_writable(use_authority_record_pda) + optional_readonly(burner),
        data: seq![19u8] + spec_u64_to_le_bytes(number_of_uses),
    }
}

/// The instruction by which an owner lets another account use an asset a
/// number of times.
pub open spec fn approve_use_authority_instruction(
    program_id: Address,
    use_authority_record: Address,
    user: Address,
    owner: Address,
    payer: Address,
    owner_token_account: Address,
    metadata: Address,
    mint: Address,
    burner: Address,
    number_of_uses: u64,
) -> InstructionView {
    InstructionView {
        program_id,
        accounts: seq![
            writable(use_authority_record, false),
            writable(owner, true),
            writable(payer, true),
            readonly(user, false),
            writable(owner_token_account, false),
            readonly(metadata, false),
            readonly(mint, false),
            readonly(burner, false),
            readonly(TOKEN_PROGRAM_ID, false),
            readonly(SYSTEM_PROGRAM_ID, false),
            readonly(RENT_SYSVAR_ID, false),
        ],
        data: seq![20u8] + spec_u64_to_le_bytes(number_of_uses),
    }
}

/// The instruction by which an owner takes that permission back.
pub open spec fn revoke_use_authority_instruction(
    program_id: Address,
    use_authority_record: Address,
    user: Address,
    owner: Address,
    owner_token_account: Address,
    metadata: Address,
    mint: Address,
) -> InstructionView {
    InstructionView {
        program_id,
        accounts: seq![
            writable(use_authority_record, false),
            writable(owner, true),
            readonly(user, false),
            writable(owner_token_account, false),
            readonly(mint, false),
            readonly(metadata, false),
            readonly(TOKEN_PROGRAM_ID, false),
            readonly(SYSTEM_PROGRAM_ID, false),
            readonly(RENT_SYSVAR_ID, false),
        ],
        data: seq![21u8],
    }
}

/// The instruction by which the update authority of a collection lets another
/// account confirm its members.
pub open spec fn approve_collection_authority_instruction(
    program_id: Address,
    collection_authority_record: Address,
    new_collection_authority: Address,
    update_authority: Address,
    payer: Address,
    metadata: Address,
    mint: Address,
) -> InstructionView {
    InstructionView {
        program_id,
        accounts: seq![
            writable(collection_authority_record, false),
            readonly(new_collection_authority, false),
            writable(update_authority, true),
            writable(payer, true),
            readonly(metadata, false),
            readonly(mint, false),
            readonly(SYSTEM_PROGRAM_ID, false),
            readonly(RENT_SYSVAR_ID, false),
        ],
        data: seq![23u8],
    }
}

/// The instruction by which the update authority takes that permission back.
pub open spec fn revoke_collection_authority_instruction(
    program_id: Address,
    collection_authority_record: Address,
    delegate_authority: Address,
    update_authority: Address,
    metadata: Address,
    mint: Address,
) -> InstructionView {
    InstructionView {
        program_id,
        accounts: seq![
            writable(collection_authority_record, false),
            readonly(delegate_authority, false),
            writable(update_authority, true),
            readonly(metadata, false),
            readonly(mint, false),
        ],
        data: seq![24u8],
    }
}

/// The instruction that puts an asset into a collection and confirms it there
/// in one step.
pub open spec fn set_and_verify_collection_instruction(
    program_id: Address,
    metadata: Address,
    collection_authority: Address,
    payer: Address,
    update_authority: Address,
    collection_mint: Address,
    collection: Address,
    collection_master_edition_account: Address,
    collection_authority_record: Option<Address>,
) -> InstructionView {
    InstructionView {
        program_id,
        accounts: seq![
            writable(metadata, false),
            writable(collection_authority, true),
            writable(payer, true),
            readonly(update_authority, false),
            readonly(collection_mint, false),
            readonly(collection, false),
            readonly(collection_master_edition_account, false),
        ] + optional_readonly(collection_authority_record),
        data: seq![25u8],
    }
}

} // verus!
