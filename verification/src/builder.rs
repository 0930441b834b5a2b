//! The calls into `mpl_token_metadata::instruction`.
//!
//! Each function here makes one call and hands back what the call built, as
//! an `Instruction` of this library. Verus takes its contract on trust: it
//! says of the instruction what the source of the called function shows.

use crate::address::Address;
use crate::instruction::approve_collection_authority_instruction;
use crate::instruction::approve_use_authority_instruction;
use crate::instruction::convert_master_edition_v1_to_v2_instruction;
use crate::instruction::create_master_edition_instruction;
use crate::instruction::create_master_edition_v3_instruction;
use crate::instruction::create_metadata_accounts_data;
use crate::instruction::create_metadata_accounts_metas;
use crate::instruction::create_metadata_accounts_v2_data;
use crate::instruction::remove_creator_verification_instruction;
use crate::instruction::revoke_collection_authority_instruction;
use crate::instruction::revoke_use_authority_instruction;
use crate::instruction::set_and_verify_collection_instruction;
use crate::instruction::sign_metadata_instruction;
use crate::instruction::unverify_collection_instruction;
use crate::instruction::update_metadata_accounts_data;
use crate::instruction::update_metadata_accounts_metas;
use crate::instruction::update_metadata_accounts_v2_data;
use crate::instruction::update_primary_sale_happened_via_token_instruction;
use crate::instruction::utilize_instruction;
use crate::instruction::verify_collection_instruction;
use crate::instruction::AccountMeta;
use crate::instruction::Instruction;
use crate::state::creators_fit;
use crate::state::creators_view;
use crate::state::data_v2_view;
use crate::state::data_view;
use crate::state::text_fits;
use crate::state::Data;
use crate::state::DataV2;
use mpl_token_metadata::instruction as mpl;
use mpl_token_metadata::solana_program::pubkey::Pubkey;
use mpl_token_metadata::state as mpl_state;
use mpl_token_metadata::state::Collection;
use mpl_token_metadata::state::Creator;
use mpl_token_metadata::state::Uses;
use vstd::prelude::*;

verus! {

/// `mpl_token_metadata::instruction::create_metadata_accounts`. The
/// instruction is for the given program and names the seven accounts of a
/// creation. Its data depends on the description and on `is_mutable` alone,
/// and starts with the number 0. The call fails where a length does not fit
/// four bytes, which `requires` leaves out.
#[verifier::external_body]
pub(crate) fn create_metadata_accounts(
    program_id: Address,
    metadata_account: Address,
    mint: Address,
    mint_authority: Address,
    payer: Address,
    update_authority: Address,
    name: String,
    symbol: String,
    uri: String,
    creators: Option<Vec<Creator>>,
    seller_fee_basis_points: u16,
    update_authority_is_signer: bool,
    is_mutable: bool,
) -> (ix: Instruction)
    requires
        text_fits(name@),
        text_fits(symbol@),
        text_fits(uri@),
        creators matches Some(list) ==> creators_fit(list@),
    ensures
        ix.program_id == program_id,
        ix.accounts@ == create_metadata_accounts_metas(
            metadata_account,
            mint,
            mint_authority,
            payer,
            update_authority,
            update_authority_is_signer,
        ),
        ix.data@ == create_metadata_accounts_data(
            name@,
            symbol@,
            uri@,
            creators_view(creators),
            seller_fee_basis_points,
            is_mutable,
        ),
        ix.data@.len() > 0,
        ix.data@[0] == 0,
{
    let ix = mpl::create_metadata_accounts(
        Pubkey::new_from_array(program_id), Pubkey::new_from_array(metadata_account),
        Pubkey::new_from_array(mint), Pubkey::new_from_array(mint_authority),
        Pubkey::new_from_array(payer), Pubkey::new_from_array(update_authority),
        name, symbol, uri, creators, seller_fee_basis_points, update_authority_is_signer, is_mutable,
    );
    Instruction {
        program_id: ix.program_id.to_bytes(),
        accounts: ix.accounts.iter().map(|m| AccountMeta { pubkey: m.pubkey.to_bytes(), is_signer: m.is_signer, is_writable: m.is_writable }).collect(),
        data: ix.data,
    }
}

/// `mpl_token_metadata::instruction::create_metadata_accounts_v2`. The
/// instruction is for the given program and names the seven accounts of a
/// creation. Its data depends on the description and on `is_mutable` alone,
/// and starts with the number 16. The call fails where a length does not fit
/// four bytes, which `requires` leaves out.
#[verifier::external_body]
pub(crate) fn create_metadata_accounts_v2(
    program_id: Address,
    metadata_account: Address,
    mint: Address,
    mint_authority: Address,
    payer: Address,
    update_authority: Address,
    name: String,
    symbol: String,
    uri: String,
    creators: Option<Vec<Creator>>,
    seller_fee_basis_points: u16,
    update_authority_is_signer: bool,
    is_mutable: bool,
    collection: Option<Collection>,
    uses: Option<Uses>,
) -> (ix: Instruction)
    requires
        text_fits(name@),
        text_fits(symbol@),
        text_fits(uri@),
        creators matches Some(list) ==> creators_fit(list@),
    ensures
        ix.program_id == program_id,
        ix.accounts@ == create_metadata_accounts_metas(
            metadata_account,
            mint,
            mint_authority,
            payer,
            update_authority,
            update_authority_is_signer,
        ),
        ix.data@ == create_metadata_accounts_v2_data(
            name@,
            symbol@,
            uri@,
            creators_view(creators),
            seller_fee_basis_points,
            is_mutable,
            collection,
            uses,
        ),
        ix.data@.len() > 0,
        ix.data@[0] == 16,
{
    let ix = mpl::create_metadata_accounts_v2(
        Pubkey::new_from_array(program_id), Pubkey::new_from_array(metadata_account),
        Pubkey::new_from_array(mint), Pubkey::new_from_array(mint_authority),
        Pubkey::new_from_array(payer), Pubkey::new_from_array(update_authority),
        name, symbol, uri, creators, seller_fee_basis_points, update_authority_is_signer, is_mutable,
        collection, uses,
    );
    Instruction {
        program_id: ix.program_id.to_bytes(),
        accounts: ix.accounts.iter().map(|m| AccountMeta { pubkey: m.pubkey.to_bytes(), is_signer: m.is_signer, is_writable: m.is_writable }).collect(),
        data: ix.data,
    }
}

/// `mpl_token_metadata::instruction::update_metadata_accounts`. The
/// instruction is for the given program and names the metadata account and
/// its update authority, which signs. Its data depends on the new update
/// authority, the description and `primary_sale_happened` alone, and starts
/// with the number 1. The call fails where a length does not fit four bytes,
/// which `requires` leaves out.
#[verifier::external_body]
pub(crate) fn update_metadata_accounts(
    program_id: Address,
    metadata_account: Address,
    update_authority: Address,
    new_update_authority: Option<Address>,
    data: Option<Data>,
    primary_sale_happened: Option<bool>,
) -> (ix: Instruction)
    requires
        data matches Some(d) ==> d@.fits(),
    ensures
        ix.program_id == program_id,
        ix.accounts@ == update_metadata_accounts_metas(metadata_account, update_authority),
        ix.data@ == update_metadata_accounts_data(
            new_update_authority,
            data_view(data),
            primary_sale_happened,
        ),
        ix.data@.len() > 0,
        ix.data@[0] == 1,
{
    let ix = mpl::update_metadata_accounts(
        Pubkey::new_from_array(program_id), Pubkey::new_from_array(metadata_account),
        Pubkey::new_from_array(update_authority), new_update_authority.map(Pubkey::new_from_array),
        data.map(|d| mpl_state::Data { name: d.name, symbol: d.symbol, uri: d.uri, seller_fee_basis_points: d.seller_fee_basis_points, creators: d.creators }),
        primary_sale_happened,
    );
    Instruction {
        program_id: ix.program_id.to_bytes(),
        accounts: ix.accounts.iter().map(|m| AccountMeta { pubkey: m.pubkey.to_bytes(), is_signer: m.is_signer, is_writable: m.is_writable }).collect(),
        data: ix.data,
    }
}

/// `mpl_token_metadata::instruction::update_metadata_accounts_v2`. The
/// instruction is for the given program and names the metadata account and
/// its update authority, which signs. Its data depends on the new update
/// authority, the description, `primary_sale_happened` and `is_mutable`
/// alone, and starts with the number 15. The call fails where a length does
/// not fit four bytes, which `requires` leaves out.
#[verifier::external_body]
pub(crate) fn update_metadata_accounts_v2(
    program_id: Address,
    metadata_account: Address,
    update_authority: Address,
    new_update_authority: Option<Address>,
    data: Option<DataV2>,
    primary_sale_happened: Option<bool>,
    is_mutable: Option<bool>,
) -> (ix: Instruction)
    requires
        data matches Some(d) ==> d@.fits(),
    ensures
        ix.program_id == program_id,
        ix.accounts@ == update_metadata_accounts_metas(metadata_account, update_authority),
        ix.data@ == update_metadata_accounts_v2_data(
            new_update_authority,
            data_v2_view(data),
            primary_sale_happened,
            is_mutable,
        ),
        ix.data@.len() > 0,
        ix.data@[0] == 15,
{
    let ix = mpl::update_metadata_accounts_v2(
        Pubkey::new_from_array(program_id), Pubkey::new_from_array(metadata_account),
        Pubkey::new_from_array(update_authority), new_update_authority.map(Pubkey::new_from_array),
        data.map(|d| mpl_state::DataV2 { name: d.name, symbol: d.symbol, uri: d.uri, seller_fee_basis_points: d.seller_fee_basis_points, creators: d.creators, collection: d.collection, uses: d.uses }),
        primary_sale_happened, is_mutable,
    );
    Instruction {
        program_id: ix.program_id.to_bytes(),
        accounts: ix.accounts.iter().map(|m| AccountMeta { pubkey: m.pubkey.to_bytes(), is_signer: m.is_signer, is_writable: m.is_writable }).collect(),
        data: ix.data,
    }
}

/// `mpl_token_metadata::instruction::update_primary_sale_happened_via_token`.
/// The instruction is for the given program, names the metadata account, the
/// owner, who signs, and the token account, and its data is the number 4.
#[verifier::external_body]
pub(crate) fn update_primary_sale_happened_via_token(
    program_id: Address,
    metadata: Address,
    owner: Address,
    token: Address,
) -> (ix: Instruction)
    ensures
        ix@ == update_primary_sale_happened_via_token_instruction(program_id, metadata, owner, token),
{
    let ix = mpl::update_primary_sale_happened_via_token(
        Pubkey::new_from_array(program_id), Pubkey::new_from_array(metadata),
        Pubkey::new_from_array(owner), Pubkey::new_from_array(token),
    );
    Instruction {
        program_id: ix.program_id.to_bytes(),
        accounts: ix.accounts.iter().map(|m| AccountMeta { pubkey: m.pubkey.to_bytes(), is_signer: m.is_signer, is_writable: m.is_writable }).collect(),
        data: ix.data,
    }
}

/// `mpl_token_metadata::instruction::create_master_edition`. The instruction
/// is for the given program and names nine accounts, the last three of them
/// the token program, the system program and the rent sysvar. Its data is the
/// number 10, then the largest supply as an optional number.
#[verifier::external_body]
pub(crate) fn create_master_edition(
    program_id: Address,
    edition: Address,
    mint: Address,
    update_authority: Address,
    mint_authority: Address,
    metadata: Address,
    payer: Address,
    max_supply: Option<u64>,
) -> (ix: Instruction)
    ensures
        ix@ == create_master_edition_instruction(
            program_id,
            edition,
            mint,
            update_authority,
            mint_authority,
            metadata,
            payer,
            max_supply,
        ),
{
    let ix = mpl::create_master_edition(
        Pubkey::new_from_array(program_id), Pubkey::new_from_array(edition),
        Pubkey::new_from_array(mint), Pubkey::new_from_array(update_authority),
        Pubkey::new_from_array(mint_authority), Pubkey::new_from_array(metadata),
        Pubkey::new_from_array(payer), max_supply,
    );
    Instruction {
        program_id: ix.program_id.to_bytes(),
        accounts: ix.accounts.iter().map(|m| AccountMeta { pubkey: m.pubkey.to_bytes(), is_signer: m.is_signer, is_writable: m.is_writable }).collect(),
        data: ix.data,
    }
}

/// `mpl_token_metadata::instruction::create_master_edition_v3`. The
/// instruction is for the given program and names nine accounts, the metadata
/// account as one that may change, the last three of them the token program,
/// the system program and the rent sysvar. Its data is the number 17, then the
/// largest supply as an optional number.
#[verifier::external_body]
pub(crate) fn create_master_edition_v3(
    program_id: Address,
    edition: Address,
    mint: Address,
    update_authority: Address,
    mint_authority: Address,
    metadata: Address,
    payer: Address,
    max_supply: Option<u64>,
) -> (ix: Instruction)
    ensures
        ix@ == create_master_edition_v3_instruction(
            program_id,
            edition,
            mint,
            update_authority,
            mint_authority,
            metadata,
            payer,
            max_supply,
        ),
{
    let ix = mpl::create_master_edition_v3(
        Pubkey::new_from_array(program_id), Pubkey::new_from_array(edition),
        Pubkey::new_from_array(mint), Pubkey::new_from_array(update_authority),
        Pubkey::new_from_array(mint_authority), Pubkey::new_from_array(metadata),
        Pubkey::new_from_array(payer), max_supply,
    );
    Instruction {
        program_id: ix.program_id.to_bytes(),
        accounts: ix.accounts.iter().map(|m| AccountMeta { pubkey: m.pubkey.to_bytes(), is_signer: m.is_signer, is_writable: m.is_writable }).collect(),
        data: ix.data,
    }
}

/// `mpl_token_metadata::instruction::sign_metadata`. The instruction is for
/// the given program, names the metadata account and the creator, who signs,
/// and its data is the number 7.
#[verifier::external_body]
pub(crate) fn sign_metadata(program_id: Address, metadata: Address, creator: Address) -> (ix: Instruction)
    ensures
        ix@ == sign_metadata_instruction(program_id, metadata, creator),
{
    let ix = mpl::sign_metadata(
        Pubkey::new_from_array(program_id), Pubkey::new_from_array(metadata),
        Pubkey::new_from_array(creator),
    );
    Instruction {
        program_id: ix.program_id.to_bytes(),
        accounts: ix.accounts.iter().map(|m| AccountMeta { pubkey: m.pubkey.to_bytes(), is_signer: m.is_signer, is_writable: m.is_writable }).collect(),
        data: ix.data,
    }
}

/// `mpl_token_metadata::instruction::remove_creator_verification`. The
/// instruction is for the given program, names the metadata account and the
/// creator, who signs, and its data is the number 28.
#[verifier::external_body]
pub(crate) fn remove_creator_verification(
    program_id: Address,
    metadata: Address,
    creator: Address,
) -> (ix: Instruction)
    ensures
        ix@ == remove_creator_verification_instruction(program_id, metadata, creator),
{
    let ix = mpl::remove_creator_verification(
        Pubkey::new_from_array(program_id), Pubkey::new_from_array(metadata),
        Pubkey::new_from_array(creator),
    );
    Instruction {
        program_id: ix.program_id.to_bytes(),
        accounts: ix.accounts.iter().map(|m| AccountMeta { pubkey: m.pubkey.to_bytes(), is_signer: m.is_signer, is_writable: m.is_writable }).collect(),
        data: ix.data,
    }
}

/// `mpl_token_metadata::instruction::convert_master_edition_v1_to_v2`. The
/// instruction is for the given program, names the master edition and its two
/// mints as accounts that may change, and its data is the number 12.
#[verifier::external_body]
pub(crate) fn convert_master_edition_v1_to_v2(
    program_id: Address,
    master_edition: Address,
    one_time_auth: Address,
    printing_mint: Address,
) -> (ix: Instruction)
    ensures
        ix@ == convert_master_edition_v1_to_v2_instruction(
            program_id,
            master_edition,
            one_time_auth,
            printing_mint,
        ),
{
    let ix = mpl::convert_master_edition_v1_to_v2(
        Pubkey::new_from_array(program_id), Pubkey::new_from_array(master_edition),
        Pubkey::new_from_array(one_time_auth), Pubkey::new_from_array(printing_mint),
    );
    Instruction {
        program_id: ix.program_id.to_bytes(),
        accounts: ix.accounts.iter().map(|m| AccountMeta { pubkey: m.pubkey.to_bytes(), is_signer: m.is_signer, is_writable: m.is_writable }).collect(),
        data: ix.data,
    }
}

/// `mpl_token_metadata::instruction::verify_collection`. The instruction is
/// for the given program and names six accounts, then the record of the
/// collection authority where one is given. Its data is the number 18.
#[verifier::external_body]
pub(crate) fn verify_collection(
    program_id: Address,
    metadata: Address,
    collection_authority: Address,
    payer: Address,
    collection_mint: Address,
    collection: Address,
    collection_master_edition_account: Address,
    collection_authority_record: Option<Address>,
) -> (ix: Instruction)
    ensures
        ix@ == verify_collection_instruction(
            program_id,
            metadata,
            collection_authority,
            payer,
            collection_mint,
            collection,
            collection_master_edition_account,
            collection_authority_record,
        ),
{
    let ix = mpl::verify_collection(
        Pubkey::new_from_array(program_id), Pubkey::new_from_array(metadata),
        Pubkey::new_from_array(collection_authority), Pubkey::new_from_array(payer),
        Pubkey::new_from_array(collection_mint), Pubkey::new_from_array(collection),
        Pubkey::new_from_array(collection_master_edition_account),
        collection_authority_record.map(Pubkey::new_from_array),
    );
    Instruction {
        program_id: ix.program_id.to_bytes(),
        accounts: ix.accounts.iter().map(|m| AccountMeta { pubkey: m.pubkey.to_bytes(), is_signer: m.is_signer, is_writable: m.is_writable }).collect(),
        data: ix.data,
    }
}

/// `mpl_token_metadata::instruction::unverify_collection`. The instruction is
/// for the given program and names five accounts, then the record of the
/// collection authority where one is given. Its data is the number 22.
#[verifier::external_body]
pub(crate) fn unverify_collection(
    program_id: Address,
    metadata: Address,
    collection_authority: Address,
    collection_mint: Address,
    collection: Address,
    collection_master_edition_account: Address,
    collection_authority_record: Option<Address>,
) -> (ix: Instruction)
    ensures
        ix@ == unverify_collection_instruction(
            program_id,
            metadata,
            collection_authority,
            collection_mint,
            collection,
            collection_master_edition_account,
            collection_authority_record,
        ),
{
    let ix = mpl::unverify_collection(
        Pubkey::new_from_array(program_id), Pubkey::new_from_array(metadata),
        Pubkey::new_from_array(collection_authority), Pubkey::new_from_array(collection_mint),
        Pubkey::new_from_array(collection),
        Pubkey::new_from_array(collection_master_edition_account),
        collection_authority_record.map(Pubkey::new_from_array),
    );
    Instruction {
        program_id: ix.program_id.to_bytes(),
        accounts: ix.accounts.iter().map(|m| AccountMeta { pubkey: m.pubkey.to_bytes(), is_signer: m.is_signer, is_writable: m.is_writable }).collect(),
        data: ix.data,
    }
}

/// `mpl_token_metadata::instruction::utilize`. The instruction is for the
/// given program and names nine accounts, the last four of them the token
/// program, the associated-token-account program, the system program and the
/// rent sysvar; then the record of the use authority and the burner, each
/// where it is given. Its data is the number 19, then the number of uses in
/// eight bytes, lowest first.
#[verifier::external_body]
pub(crate) fn utilize(
    program_id: Address,
    metadata: Address,
    token_account: Address,
    mint: Address,
    use_authority_record_pda: Option<Address>,
    use_authority: Address,
    owner: Address,
    burner: Option<Address>,
    number_of_uses: u64,
) -> (ix: Instruction)
    ensures
        ix@ == utilize_instruction(
            program_id,
            metadata,
            token_account,
            mint,
            use_authority_record_pda,
            use_authority,
            owner,
            burner,
            number_of_uses,
        ),
{
    let ix = mpl::utilize(
        Pubkey::new_from_array(program_id), Pubkey::new_from_array(metadata),
        Pubkey::new_from_array(token_account), Pubkey::new_from_array(mint),
        use_authority_record_pda.map(Pubkey::new_from_array),
        Pubkey::new_from_array(use_authority), Pubkey::new_from_array(owner),
        burner.map(Pubkey::new_from_array), number_of_uses,
    );
    Instruction {
        program_id: ix.program_id.to_bytes(),
        accounts: ix.accounts.iter().map(|m| AccountMeta { pubkey: m.pubkey.to_bytes(), is_signer: m.is_signer, is_writable: m.is_writable }).collect(),
        data: ix.data,
    }
}

/// `mpl_token_metadata::instruction::approve_use_authority`. The instruction
/// is for the given program and names eleven accounts, the last three of them
/// the token program, the system program and the rent sysvar. Its data is the
/// number 20, then the number of uses in eight bytes, lowest first.
#[verifier::external_body]
pub(crate) fn approve_use_authority(
    program_id: Address,
    use_authority_record: Address,
    user: Address,
    owner: Address,
    payer: Address,
    owner_token_account: Address,
    metadata: Address,
    mint: Address,
    burner: Address,
    number_of_uses: u64,
) -> (ix: Instruction)
    ensures
        ix@ == approve_use_authority_instruction(
            program_id,
            use_authority_record,
            user,
            owner,
            payer,
            owner_token_account,
            metadata,
            mint,
            burner,
            number_of_uses,
        ),
{
    let ix = mpl::approve_use_authority(
        Pubkey::new_from_array(program_id), Pubkey::new_from_array(use_authority_record),
        Pubkey::new_from_array(user), Pubkey::new_from_array(owner),
        Pubkey::new_from_array(payer), Pubkey::new_from_array(owner_token_account),
        Pubkey::new_from_array(metadata), Pubkey::new_from_array(mint),
        Pubkey::new_from_array(burner), number_of_uses,
    );
    Instruction {
        program_id: ix.program_id.to_bytes(),
        accounts: ix.accounts.iter().map(|m| AccountMeta { pubkey: m.pubkey.to_bytes(), is_signer: m.is_signer, is_writable: m.is_writable }).collect(),
        data: ix.data,
    }
}

/// `mpl_token_metadata::instruction::revoke_use_authority`. The instruction
/// is for the given program and names nine accounts, the mint before the
/// metadata account, the last three of them the token program, the system
/// program and the rent sysvar. Its data is the number 21.
#[verifier::external_body]
pub(crate) fn revoke_use_authority(
    program_id: Address,
    use_authority_record: Address,
    user: Address,
    owner: Address,
    owner_token_account: Address,
    metadata: Address,
    mint: Address,
) -> (ix: Instruction)
    ensures
        ix@ == revoke_use_authority_instruction(
            program_id,
            use_authority_record,
            user,
            owner,
            owner_token_account,
            metadata,
            mint,
        ),
{
    let ix = mpl::revoke_use_authority(
        Pubkey::new_from_array(program_id), Pubkey::new_from_array(use_authority_record),
        Pubkey::new_from_array(user), Pubkey::new_from_array(owner),
        Pubkey::new_from_array(owner_token_account), Pubkey::new_from_array(metadata),
        Pubkey::new_from_array(mint),
    );
    Instruction {
        program_id: ix.program_id.to_bytes(),
        accounts: ix.accounts.iter().map(|m| AccountMeta { pubkey: m.pubkey.to_bytes(), is_signer: m.is_signer, is_writable: m.is_writable }).collect(),
        data: ix.data,
    }
}

/// `mpl_token_metadata::instruction::approve_collection_authority`. The
/// instruction is for the given program and names eight accounts, the last
/// two of them the system program and the rent sysvar. Its data is the number
/// 23.
#[verifier::external_body]
pub(crate) fn approve_collection_authority(
    program_id: Address,
    collection_authority_record: Address,
    new_collection_authority: Address,
    update_authority: Address,
    payer: Address,
    metadata: Address,
    mint: Address,
) -> (ix: Instruction)
    ensures
        ix@ == approve_collection_authority_instruction(
            program_id,
            collection_authority_record,
            new_collection_authority,
            update_authority,
            payer,
            metadata,
            mint,
        ),
{
    let ix = mpl::approve_collection_authority(
        Pubkey::new_from_array(program_id), Pubkey::new_from_array(collection_authority_record),
        Pubkey::new_from_array(new_collection_authority), Pubkey::new_from_array(update_authority),
        Pubkey::new_from_array(payer), Pubkey::new_from_array(metadata),
        Pubkey::new_from_array(mint),
    );
    Instruction {
        program_id: ix.program_id.to_bytes(),
        accounts: ix.accounts.iter().map(|m| AccountMeta { pubkey: m.pubkey.to_bytes(), is_signer: m.is_signer, is_writable: m.is_writable }).collect(),
        data: ix.data,
    }
}

/// `mpl_token_metadata::instruction::revoke_collection_authority`. The
/// instruction is for the given program and names five accounts. Its data is
/// the number 24.
#[verifier::external_body]
pub(crate) fn revoke_collection_authority(
    program_id: Address,
    collection_authority_record: Address,
    delegate_authority: Address,
    update_authority: Address,
    metadata: Address,
    mint: Address,
) -> (ix: Instruction)
    ensures
        ix@ == revoke_collection_authority_instruction(
            program_id,
            collection_authority_record,
            delegate_authority,
            update_authority,
            metadata,
            mint,
        ),
{
    let ix = mpl::revoke_collection_authority(
        Pubkey::new_from_array(program_id), Pubkey::new_from_array(collection_authority_record),
        Pubkey::new_from_array(delegate_authority), Pubkey::new_from_array(update_authority),
        Pubkey::new_from_array(metadata), Pubkey::new_from_array(mint),
    );
    Instruction {
        program_id: ix.program_id.to_bytes(),
        accounts: ix.accounts.iter().map(|m| AccountMeta { pubkey: m.pubkey.to_bytes(), is_signer: m.is_signer, is_writable: m.is_writable }).collect(),
        data: ix.data,
    }
}

/// `mpl_token_metadata::instruction::set_and_verify_collection`. The
/// instruction is for the given program and names seven accounts, then the
/// record of the collection authority where one is given. Its data is the
/// number 25.
#[verifier::external_body]
pub(crate) fn set_and_verify_collection(
    program_id: Address,
    metadata: Address,
    collection_authority: Address,
    payer: Address,
    update_authority: Address,
    collection_mint: Address,
    collection: Address,
    collection_master_edition_account: Address,
    collection_authority_record: Option<Address>,
) -> (ix: Instruction)
    ensures
        ix@ == set_and_verify_collection_instruction(
            program_id,
            metadata,
            collection_authority,
            payer,
            update_authority,
            collection_mint,
            collection,
            collection_master_edition_account,
            collection_authority_record,
        ),
{
    let ix = mpl::set_and_verify_collection(
        Pubkey::new_from_array(program_id), Pubkey::new_from_array(metadata),
        Pubkey::new_from_array(collection_authority), Pubkey::new_from_array(payer),
        Pubkey::new_from_array(update_authority), Pubkey::new_from_array(collection_mint),
        Pubkey::new_from_array(collection),
        Pubkey::new_from_array(collection_master_edition_account),
        collection_authority_record.map(Pubkey::new_from_array),
    );
    Instruction {
        program_id: ix.program_id.to_bytes(),
        accounts: ix.accounts.iter().map(|m| AccountMeta { pubkey: m.pubkey.to_bytes(), is_signer: m.is_signer, is_writable: m.is_writable }).collect(),
        data: ix.data,
    }
}

} // verus!
