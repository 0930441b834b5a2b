//! One function for each instruction of the token-metadata program.
//!
//! Each takes the accounts of its instruction and what the instruction is to
//! say, and gives back the invocation: the instruction, built for the
//! token-metadata program from the addresses of those accounts, and the
//! accounts to hand over with it.

use crate::accounts::ApproveCollectionAuthority;
use crate::accounts::ApproveUseAuthority;
use crate::accounts::ConvertMasterEditionV1toV2;
use crate::accounts::CreateMasterEdition;
use crate::accounts::CreateMasterEditionV3;
use crate::accounts::CreateMetadataAccountV2;
use crate::accounts::CreateMetadataAccounts;
use crate::accounts::Invocation;
use crate::accounts::RemoveCreatorVerification;
use crate::accounts::RevokeCollectionAuthority;
use crate::accounts::RevokeUseAuthority;
use crate::accounts::SetAndVerifyCollection;
use crate::accounts::SignMetadata;
use crate::accounts::UnverifyCollection;
use crate::accounts::UpdateMetadataAccounts;
use crate::accounts::UpdateMetadataAccountsV2;
use crate::accounts::UpdatePrimarySaleHappenedViaToken;
use crate::accounts::Utilize;
use crate::accounts::VerifyCollection;
use crate::address::ID;
use crate::builder;
use crate::instruction::approve_collection_authority_instruction;
use crate::instruction::approve_use_authority_instruction;
use crate::instruction::convert_master_edition_v1_to_v2_instruction;
use crate::instruction::create_master_edition_instruction;
use crate::instruction::create_master_edition_v3_instruction;
use crate::instruction::create_metadata_accounts_data;
use crate::instruction::create_metadata_accounts_metas;
use crate::instruction::create_metadata_accounts_v2_data;
use crate::instruction::remove_creator_verification_instruction;
use crate::instruction::revoke_collection_authority_instruction;
use crate::instruction::revoke_use_authority_instruction;
use crate::instruction::set_and_verify_collection_instruction;
use crate::instruction::sign_metadata_instruction;
use crate::instruction::unverify_collection_instruction;
use crate::instruction::update_metadata_accounts_data;
use crate::instruction::update_metadata_accounts_metas;
use crate::instruction::update_metadata_accounts_v2_data;
use crate::instruction::update_primary_sale_happened_via_token_instruction;
use crate::instruction::utilize_instruction;
use crate::instruction::verify_collection_instruction;
use crate::state::creators_fit;
use crate::state::text_fits;
use crate::state::Data;
use crate::state::DataV2;
use mpl_token_metadata::state::Collection;
use mpl_token_metadata::state::Creator;
use mpl_token_metadata::state::Uses;
use vstd::prelude::*;

verus! {

/// Creates a metadata account in its second form: with creators, a collection
/// and uses.
///
/// The texts and the list of creators must be short enough to be encoded.
pub fn create_metadata_accounts_v2<T>(
    accounts: CreateMetadataAccountV2<T>,
    name: String,
    symbol: String,
    uri: String,
    seller_fee_basis_points: u16,
    update_authority_is_signer: bool,
    is_mutable: bool,
    uses: Uses,
    collection: Collection,
    creators: Vec<Creator>,
) -> (call: Invocation<T>)
    requires
        text_fits(name@),
        text_fits(symbol@),
        text_fits(uri@),
        creators_fit(creators@),
    ensures
        call.instruction.program_id == ID,
        call.instruction.accounts@ == create_metadata_accounts_metas(
            accounts.metadata_account.key,
            accounts.mint.key,
            accounts.mint_authority.key,
            accounts.payer.key,
            accounts.update_authority.key,
            update_authority_is_signer,
        ),
        call.instruction.data@ == create_metadata_accounts_v2_data(
            name@,
            symbol@,
            uri@,
            Some(creators@),
            seller_fee_basis_points,
            is_mutable,
            Some(collection),
            Some(uses),
        ),
        call.instruction.data@.len() > 0,
        call.instruction.data@[0] == 16,
        call.account_infos@ == accounts.account_infos(),
        call.lines_up() <==> accounts.programs_match(),
{
    let ix = builder::create_metadata_accounts_v2(
        ID,
        accounts.metadata_account.key,
        accounts.mint.key,
        accounts.mint_authority.key,
        accounts.payer.key,
        accounts.update_authority.key,
        name,
        symbol,
        uri,
        Some(creators),
        seller_fee_basis_points,
        update_authority_is_signer,
        is_mutable,
        Some(collection),
        Some(uses),
    );
    accounts.into_invocation(ix)
}

/// Creates a metadata account in its first form: with creators.
///
/// The texts and the list of creators must be short enough to be encoded.
pub fn create_metadata_accounts<T>(
    accounts: CreateMetadataAccounts<T>,
    name: String,
    symbol: String,
    uri: String,
    seller_fee_basis_points: u16,
    update_authority_is_signer: bool,
    is_mutable: bool,
    creators: Vec<Creator>,
) -> (call: Invocation<T>)
    requires
        text_fits(name@),
        text_fits(symbol@),
        text_fits(uri@),
        creators_fit(creators@),
    ensures
        call.instruction.program_id == ID,
        call.instruction.accounts@ == create_metadata_accounts_metas(
            accounts.metadata_account.key,
            accounts.mint.key,
            accounts.mint_authority.key,
            accounts.payer.key,
            accounts.update_authority.key,
            update_authority_is_signer,
        ),
        call.instruction.data@ == create_metadata_accounts_data(
            name@,
            symbol@,
            uri@,
            Some(creators@),
            seller_fee_basis_points,
            is_mutable,
        ),
        call.instruction.data@.len() > 0,
        call.instruction.data@[0] == 0,
        call.account_infos@ == accounts.account_infos(),
        call.lines_up() <==> accounts.programs_match(),
{
    let ix = builder::create_metadata_accounts(
        ID,
        accounts.metadata_account.key,
        accounts.mint.key,
        accounts.mint_authority.key,
        accounts.payer.key,
        accounts.update_authority.key,
        name,
        symbol,
        uri,
        Some(creators),
        seller_fee_basis_points,
        update_authority_is_signer,
        is_mutable,
    );
    accounts.into_invocation(ix)
}

/// Updates a metadata account in its first form: sets the description and
/// whether the first sale has happened, and makes `new_update_authority` the
/// update authority.
///
/// The description must be short enough to be encoded.
pub fn update_metadata_accounts<T>(
    accounts: UpdateMetadataAccounts<T>,
    primary_sale_happened: bool,
    data: Data,
) -> (call: Invocation<T>)
    requires
        data@.fits(),
    ensures
        call.instruction.program_id == ID,
        call.instruction.accounts@ == update_metadata_accounts_metas(
            accounts.metadata_account.key,
            accounts.update_authority.key,
        ),
        call.instruction.data@ == update_metadata_accounts_data(
            Some(accounts.new_update_authority.key),
            Some(data@),
            Some(primary_sale_happened),
        ),
        call.instruction.data@.len() > 0,
        call.instruction.data@[0] == 1,
        call.account_infos@ == accounts.account_infos(),
        call.lines_up(),
{
    let ix = builder::update_metadata_accounts(
        ID,
        accounts.metadata_account.key,
        accounts.update_authority.key,
        Some(accounts.new_update_authority.key),
        Some(data),
        Some(primary_sale_happened),
    );
    accounts.into_invocation(ix)
}

/// Updates a metadata account in its second form: sets the description,
/// whether the first sale has happened and whether the account stays
/// changeable, and makes `new_update_authority` the update authority.
///
/// The description must be short enough to be encoded.
pub fn update_metadata_accounts_v2<T>(
    accounts: UpdateMetadataAccountsV2<T>,
    data: DataV2,
    primary_sale_happened: bool,
    is_mutable: bool,
) -> (call: Invocation<T>)
    requires
        data@.fits(),
    ensures
        call.instruction.program_id == ID,
        call.instruction.accounts@ == update_metadata_accounts_metas(
            accounts.metadata_account.key,
            accounts.update_authority.key,
        ),
        call.instruction.data@ == update_metadata_accounts_v2_data(
            Some(accounts.new_update_authority.key),
            Some(data@),
            Some(primary_sale_happened),
            Some(is_mutable),
        ),
        call.instruction.data@.len() > 0,
        call.instruction.data@[0] == 15,
        call.account_infos@ == accounts.account_infos(),
        call.lines_up(),
{
    let ix = builder::update_metadata_accounts_v2(
        ID,
        accounts.metadata_account.key,
        accounts.update_authority.key,
        Some(accounts.new_update_authority.key),
        Some(data),
        Some(primary_sale_happened),
        Some(is_mutable),
    );
    accounts.into_invocation(ix)
}

/// Records, as the owner of a token, that the first sale has happened.
pub fn update_primary_sale_happened_via_token<T>(
    accounts: UpdatePrimarySaleHappenedViaToken<T>,
) -> (call: Invocation<T>)
    ensures
        call.instruction@ == update_primary_sale_happened_via_token_instruction(
            ID,
            accounts.metadata_account.key,
            accounts.owner.key,
            accounts.token.key,
        ),
        call.account_infos@ == accounts.account_infos(),
        call.lines_up(),
{
    let ix = builder::update_primary_sale_happened_via_token(
        ID,
        accounts.metadata_account.key,
        accounts.owner.key,
        accounts.token.key,
    );
    accounts.into_invocation(ix)
}

/// Makes a mint a master edition of which at most `max_supply` editions can
/// be printed, by the first form of the instruction.
pub fn create_master_edition<T>(
    accounts: CreateMasterEdition<T>,
    max_supply: u64,
) -> (call: Invocation<T>)
    ensures
        call.instruction@ == create_master_edition_instruction(
            ID,
            accounts.edition.key,
            accounts.mint.key,
            accounts.update_authority.key,
            accounts.mint_authority.key,
            accounts.metadata.key,
            accounts.payer.key,
            Some(max_supply),
        ),
        call.account_infos@ == accounts.account_infos(),
        call.lines_up() <==> accounts.programs_match(),
{
    let ix = builder::create_master_edition(
        ID,
        accounts.edition.key,
        accounts.mint.key,
        accounts.update_authority.key,
        accounts.mint_authority.key,
        accounts.metadata.key,
        accounts.payer.key,
        Some(max_supply),
    );
    accounts.into_invocation(ix)
}

/// Makes a mint a master edition of which at most `max_supply` editions can
/// be printed, by the third form of the instruction.
pub fn create_master_edition_v3<T>(
    accounts: CreateMasterEditionV3<T>,
    max_supply: u64,
) -> (call: Invocation<T>)
    ensures
        call.instruction@ == create_master_edition_v3_instruction(
            ID,
            accounts.edition.key,
            accounts.mint.key,
            accounts.update_authority.key,
            accounts.mint_authority.key,
            accounts.metadata.key,
            accounts.payer.key,
            Some(max_supply),
        ),
        call.account_infos@ == accounts.account_infos(),
        call.lines_up() <==> accounts.programs_match(),
{
    let ix = builder::create_master_edition_v3(
        ID,
        accounts.edition.key,
        accounts.mint.key,
        accounts.update_authority.key,
        accounts.mint_authority.key,
        accounts.metadata.key,
        accounts.payer.key,
        Some(max_supply),
    );
    accounts.into_invocation(ix)
}

/// Confirms, as a creator, that an asset is theirs.
pub fn sign_metadata<T>(accounts: SignMetadata<T>) -> (call: Invocation<T>)
    ensures
        call.instruction@ == sign_metadata_instruction(
            ID,
            accounts.metadata.key,
            accounts.creator.key,
        ),
        call.account_infos@ == accounts.account_infos(),
        call.lines_up(),
{
    let ix = builder::sign_metadata(ID, accounts.metadata.key, accounts.creator.key);
    accounts.into_invocation(ix)
}

/// Withdraws, as a creator, the confirmation that an asset is theirs.
pub fn remove_creator_verification<T>(
    accounts: RemoveCreatorVerification<T>,
) -> (call: Invocation<T>)
    ensures
        call.instruction@ == remove_creator_verification_instruction(
            ID,
            accounts.metadata.key,
            accounts.creator.key,
        ),
        call.account_infos@ == accounts.account_infos(),
        call.lines_up(),
{
    let ix = builder::remove_creator_verification(
        ID,
        accounts.metadata.key,
        accounts.creator.key,
    );
    accounts.into_invocation(ix)
}

/// Turns a master edition of the first kind into one of the second.
pub fn convert_master_edition_v1_to_v2<T>(
    accounts: ConvertMasterEditionV1toV2<T>,
) -> (call: Invocation<T>)
    ensures
        call.instruction@ == convert_master_edition_v1_to_v2_instruction(
            ID,
            accounts.master_edition.key,
            accounts.one_time_auth.key,
            accounts.printing_mint.key,
        ),
        call.account_infos@ == accounts.account_infos(),
        call.lines_up(),
{
    let ix = builder::convert_master_edition_v1_to_v2(
        ID,
        accounts.master_edition.key,
        accounts.one_time_auth.key,
        accounts.printing_mint.key,
    );
    accounts.into_invocation(ix)
}

/// Confirms that an asset belongs to a collection.
///
/// The instruction names the record of the collection authority after the
/// accounts that are handed over; the record itself is not among them.
pub fn verify_collection<T>(accounts: VerifyCollection<T>) -> (call: Invocation<T>)
    ensures
        call.instruction@ == verify_collection_instruction(
            ID,
            accounts.metadata.key,
            accounts.collection_authority.key,
            accounts.payer.key,
            accounts.collection_mint.key,
            accounts.collection.key,
            accounts.collection_master_edition_account.key,
            Some(accounts.collection_authority_record.key),
        ),
        call.account_infos@ == accounts.account_infos(),
        call.lines_up(),
{
    let ix = builder::verify_collection(
        ID,
        accounts.metadata.key,
        accounts.collection_authority.key,
        accounts.payer.key,
        accounts.collection_mint.key,
        accounts.collection.key,
        accounts.collection_master_edition_account.key,
        Some(accounts.collection_authority_record.key),
    );
    accounts.into_invocation(ix)
}

/// Withdraws the confirmation that an asset belongs to a collection.
///
/// The instruction names the record of the collection authority after the
/// accounts that are handed over; the record itself is not among them.
pub fn unverify_collection<T>(accounts: UnverifyCollection<T>) -> (call: Invocation<T>)
    ensures
        call.instruction@ == unverify_collection_instruction(
            ID,
            accounts.metadata.key,
            accounts.collection_authority.key,
            accounts.collection_mint.key,
            accounts.collection.key,
            accounts.collection_master_edition_account.key,
            Some(accounts.collection_authority_record.key),
        ),
        call.account_infos@ == accounts.account_infos(),
        call.lines_up(),
{
    let ix = builder::unverify_collection(
        ID,
        accounts.metadata.key,
        accounts.collection_authority.key,
        accounts.collection_mint.key,
        accounts.collection.key,
        accounts.collection_master_edition_account.key,
        Some(accounts.collection_authority_record.key),
    );
    accounts.into_invocation(ix)
}

/// Uses an asset `number_of_uses` times.
///
/// The instruction names the record of the use authority and the burner
/// after the accounts that are handed over; the two are not among them.
pub fn utilize<T>(accounts: Utilize<T>, number_of_uses: u64) -> (call: Invocation<T>)
    ensures
        call.instruction@ == utilize_instruction(
            ID,
            accounts.metadata.key,
            accounts.token_account.key,
            accounts.mint.key,
            Some(accounts.use_authority_record_pda.key),
            accounts.use_authority.key,
            accounts.owner.key,
            Some(accounts.burner.key),
            number_of_uses,
        ),
        call.account_infos@ == accounts.account_infos(),
        call.lines_up() <==> accounts.programs_match(),
{
    let ix = builder::utilize(
        ID,
        accounts.metadata.key,
        accounts.token_account.key,
        accounts.mint.key,
        Some(accounts.use_authority_record_pda.key),
        accounts.use_authority.key,
        accounts.owner.key,
        Some(accounts.burner.key),
        number_of_uses,
    );
    accounts.into_invocation(ix)
}

/// Lets `user` use an asset `number_of_uses` times.
pub fn approve_use_authority<T>(
    accounts: ApproveUseAuthority<T>,
    number_of_uses: u64,
) -> (call: Invocation<T>)
    ensures
        call.instruction@ == approve_use_authority_instruction(
            ID,
            accounts.use_authority_record.key,
            accounts.user.key,
            accounts.owner.key,
            accounts.payer.key,
            accounts.owner_token_account.key,
            accounts.metadata.key,
            accounts.mint.key,
            accounts.burner.key,
            number_of_uses,
        ),
        call.account_infos@ == accounts.account_infos(),
        call.lines_up() <==> accounts.programs_match(),
{
    let ix = builder::approve_use_authority(
        ID,
        accounts.use_authority_record.key,
        accounts.user.key,
        accounts.owner.key,
        accounts.payer.key,
        accounts.owner_token_account.key,
        accounts.metadata.key,
        accounts.mint.key,
        accounts.burner.key,
        number_of_uses,
    );
    accounts.into_invocation(ix)
}

/// Takes back from `user` the permission to use an asset.
pub fn revoke_use_authority<T>(accounts: RevokeUseAuthority<T>) -> (call: Invocation<T>)
    ensures
        call.instruction@ == revoke_use_authority_instruction(
            ID,
            accounts.use_authority_record.key,
            accounts.user.key,
            accounts.owner.key,
            accounts.owner_token_account.key,
            accounts.metadata.key,
            accounts.mint.key,
        ),
        call.account_infos@ == accounts.account_infos(),
        call.lines_up() <==> accounts.programs_match(),
{
    let ix = builder::revoke_use_authority(
        ID,
        accounts.use_authority_record.key,
        accounts.user.key,
        accounts.owner.key,
        accounts.owner_token_account.key,
        accounts.metadata.key,
        accounts.mint.key,
    );
    accounts.into_invocation(ix)
}

/// Lets `new_collection_authority` confirm the members of a collection.
pub fn approve_collection_authority<T>(
    accounts: ApproveCollectionAuthority<T>,
) -> (call: Invocation<T>)
    ensures
        call.instruction@ == approve_collection_authority_instruction(
            ID,
            accounts.collection_authority_record.key,
            accounts.new_collection_authority.key,
            accounts.update_authority.key,
            accounts.payer.key,
            accounts.metadata.key,
            accounts.mint.key,
        ),
        call.account_infos@ == accounts.account_infos(),
        call.lines_up() <==> accounts.programs_match(),
{
    let ix = builder::approve_collection_authority(
        ID,
        accounts.collection_authority_record.key,
        accounts.new_collection_authority.key,
        accounts.update_authority.key,
        accounts.payer.key,
        accounts.metadata.key,
        accounts.mint.key,
    );
    accounts.into_invocation(ix)
}

/// Takes back from `delegate_authority` the permission to confirm the
/// members of a collection.
pub fn revoke_collection_authority<T>(
    accounts: RevokeCollectionAuthority<T>,
) -> (call: Invocation<T>)
    ensures
        call.instruction@ == revoke_collection_authority_instruction(
            ID,
            accounts.collection_authority_record.key,
            accounts.delegate_authority.key,
            accounts.update_authority.key,
            accounts.metadata.key,
            accounts.mint.key,
        ),
        call.account_infos@ == accounts.account_infos(),
        call.lines_up(),
{
    let ix = builder::revoke_collection_authority(
        ID,
        accounts.collection_authority_record.key,
        accounts.delegate_authority.key,
        accounts.update_authority.key,
        accounts.metadata.key,
        accounts.mint.key,
    );
    accounts.into_invocation(ix)
}

/// Puts an asset into a collection and confirms it there.
///
/// The instruction names the record of the collection authority after the
/// accounts that are handed over; the record itself is not among them.
pub fn set_and_verify_collection<T>(accounts: SetAndVerifyCollection<T>) -> (call: Invocation<T>)
    ensures
        call.instruction@ == set_and_verify_collection_instruction(
            ID,
            accounts.metadata.key,
            accounts.collection_authority.key,
            accounts.payer.key,
            accounts.update_authority.key,
            accounts.collection_mint.key,
            accounts.collection.key,
            accounts.collection_master_edition_account.key,
            Some(accounts.collection_authority_record.key),
        ),
        call.account_infos@ == accounts.account_infos(),
        call.lines_up(),
{
    let ix = builder::set_and_verify_collection(
        ID,
        accounts.metadata.key,
        accounts.collection_authority.key,
        accounts.payer.key,
        accounts.update_authority.key,
        accounts.collection_mint.key,
        accounts.collection.key,
        accounts.collection_master_edition_account.key,
        Some(accounts.collection_authority_record.key),
    );
    accounts.into_invocation(ix)
}

} // verus!
