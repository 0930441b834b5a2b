//! Builds the cross-program invocations of the token-metadata program.
//!
//! Each instruction of that program has one function here. The function asks
//! the program's own builder for the instruction, and puts beside it the
//! accounts that the runtime is to receive, in the order in which the caller
//! must hand them over. Sending the invocation is left to the caller.

pub mod accounts;
pub mod address;
mod builder;
pub mod cpi;
pub mod instruction;
pub mod state;

pub use accounts::AccountRef;
pub use accounts::Invocation;
pub use accounts::ApproveCollectionAuthority;
pub use accounts::ApproveUseAuthority;
pub use accounts::ConvertMasterEditionV1toV2;
pub use accounts::CreateMasterEdition;
pub use accounts::CreateMasterEditionV3;
pub use accounts::CreateMetadataAccountV2;
pub use accounts::CreateMetadataAccounts;
pub use accounts::RemoveCreatorVerification;
pub use accounts::RevokeCollectionAuthority;
pub use accounts::RevokeUseAuthority;
pub use accounts::SetAndVerifyCollection;
pub use accounts::SignMetadata;
pub use accounts::UnverifyCollection;
pub use accounts::UpdateMetadataAccounts;
pub use accounts::UpdateMetadataAccountsV2;
pub use accounts::UpdatePrimarySaleHappenedViaToken;
pub use accounts::Utilize;
pub use accounts::VerifyCollection;
pub use address::Address;
pub use address::ASSOCIATED_TOKEN_PROGRAM_ID;
pub use address::EDITION;
pub use address::EDITION_MARKER_BIT_SIZE;
pub use address::ID;
pub use address::PREFIX;
pub use address::RENT_SYSVAR_ID;
pub use address::SYSTEM_PROGRAM_ID;
pub use address::TOKEN_PROGRAM_ID;
pub use cpi::approve_collection_authority;
pub use cpi::approve_use_authority;
pub use cpi::convert_master_edition_v1_to_v2;
pub use cpi::create_master_edition;
pub use cpi::create_master_edition_v3;
pub use cpi::create_metadata_accounts;
pub use cpi::create_metadata_accounts_v2;
pub use cpi::remove_creator_verification;
pub use cpi::revoke_collection_authority;
pub use cpi::revoke_use_authority;
pub use cpi::set_and_verify_collection;
pub use cpi::sign_metadata;
pub use cpi::unverify_collection;
pub use cpi::update_metadata_accounts;
pub use cpi::update_metadata_accounts_v2;
pub use cpi::update_primary_sale_happened_via_token;
pub use cpi::utilize;
pub use cpi::verify_collection;
pub use instruction::AccountMeta;
pub use instruction::Instruction;
pub use instruction::InstructionView;
pub use state::Data;
pub use state::DataV2;
pub use state::DataV2View;
pub use state::DataView;
