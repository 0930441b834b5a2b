//! The accounts that each instruction takes, and the order in which an
//! invocation hands them to the runtime.

use crate::address::Address;
use crate::address::ASSOCIATED_TOKEN_PROGRAM_ID;
use crate::address::RENT_SYSVAR_ID;
use crate::address::SYSTEM_PROGRAM_ID;
use crate::address::TOKEN_PROGRAM_ID;
use crate::instruction::Instruction;
use vstd::prelude::*;

verus! {

/// One account as the library sees it: its address, and `info`, by which the
/// caller's runtime knows the account. The library reads the address and
/// hands `info` on untouched.
pub struct AccountRef<T> {
    pub key: Address,
    pub info: T,
}

/// An invocation that is ready to be sent: the instruction, and the accounts
/// to hand to the runtime with it, in this order.
pub struct Invocation<T> {
    pub instruction: Instruction,
    pub account_infos: Vec<AccountRef<T>>,
}

impl<T> Invocation<T> {
    /// Each account that is handed over stands where the instruction names
    /// it: the account at a place has the address that the instruction names
    /// at that place. The instruction may name more accounts after them.
    pub open spec fn lines_up(self) -> bool {
        &&& self.account_infos@.len() <= self.instruction.accounts@.len()
        &&& forall|i: int|
            0 <= i < self.account_infos@.len() ==> (#[trigger] self.account_infos@[i]).key
                == self.instruction.accounts@[i].pubkey
    }
}

/// The accounts for creating a metadata account in its second form.
pub struct CreateMetadataAccountV2<T> {
    pub metadata_account: AccountRef<T>,
    pub mint: AccountRef<T>,
    pub mint_authority: AccountRef<T>,
    pub payer: AccountRef<T>,
    pub update_authority: AccountRef<T>,
    pub system_program: AccountRef<T>,
    pub rent: AccountRef<T>,
}

impl<T> CreateMetadataAccountV2<T> {
    /// Each program and sysvar that is handed over is the one that its field
    /// is named for.
    pub open spec fn programs_match(self) -> bool {
        &&& self.system_program.key == SYSTEM_PROGRAM_ID
        &&& self.rent.key == RENT_SYSVAR_ID
    }

    /// The accounts that an invocation hands over, in their order.
    pub open spec fn account_infos(self) -> Seq<AccountRef<T>> {
        seq![
            self.metadata_account,
            self.mint,
            self.mint_authority,
            self.payer,
            self.update_authority,
            self.system_program,
            self.rent,
        ]
    }

    /// Puts the accounts, in their order, beside the instruction.
    pub fn into_invocation(self, instruction: Instruction) -> (call: Invocation<T>)
        ensures
            call.instruction == instruction,
            call.account_infos@ == self.account_infos(),
    {
        let account_infos = vec![
            self.metadata_account,
            self.mint,
            self.mint_authority,
            self.payer,
            self.update_authority,
            self.system_program,
            self.rent,
        ];
        Invocation { instruction, account_infos }
    }
}

/// The accounts for creating a metadata account in its first form.
pub struct CreateMetadataAccounts<T> {
    pub metadata_account: AccountRef<T>,
    pub mint: AccountRef<T>,
    pub mint_authority: AccountRef<T>,
    pub payer: AccountRef<T>,
    pub update_authority: AccountRef<T>,
    pub system_program: AccountRef<T>,
    pub rent: AccountRef<T>,
}

impl<T> CreateMetadataAccounts<T> {
    /// Each program and sysvar that is handed over is the one that its field
    /// is named for.
    pub open spec fn programs_match(self) -> bool {
        &&& self.system_program.key == SYSTEM_PROGRAM_ID
        &&& self.rent.key == RENT_SYSVAR_ID
    }

    /// The accounts that an invocation hands over, in their order.
    pub open spec fn account_infos(self) -> Seq<AccountRef<T>> {
        seq![
            self.metadata_account,
            self.mint,
            self.mint_authority,
            self.payer,
            self.update_authority,
            self.system_program,
            self.rent,
        ]
    }

    /// Puts the accounts, in their order, beside the instruction.
    pub fn into_invocation(self, instruction: Instruction) -> (call: Invocation<T>)
        ensures
            call.instruction == instruction,
            call.account_infos@ == self.account_infos(),
    {
        let account_infos = vec![
            self.metadata_account,
            self.mint,
            self.mint_authority,
            self.payer,
            self.update_authority,
            self.system_program,
            self.rent,
        ];
        Invocation { instruction, account_infos }
    }
}

/// The accounts for updating a metadata account in its first form.
pub struct UpdateMetadataAccounts<T> {
    pub metadata_account: AccountRef<T>,
    pub update_authority: AccountRef<T>,
    pub new_update_authority: AccountRef<T>,
    pub system_program: AccountRef<T>,
    pub rent: AccountRef<T>,
}

impl<T> UpdateMetadataAccounts<T> {
    /// The accounts that an invocation hands over, in their order.
    pub open spec fn account_infos(self) -> Seq<AccountRef<T>> {
        seq![self.metadata_account, self.update_authority]
    }

    /// Puts the accounts, in their order, beside the instruction.
    pub fn into_invocation(self, instruction: Instruction) -> (call: Invocation<T>)
        ensures
            call.instruction == instruction,
            call.account_infos@ == self.account_infos(),
    {
        let account_infos = vec![self.metadata_account, self.update_authority];
        Invocation { instruction, account_infos }
    }
}

/// The accounts for updating a metadata account in its second form.
pub struct UpdateMetadataAccountsV2<T> {
    pub metadata_account: AccountRef<T>,
    pub update_authority: AccountRef<T>,
    pub new_update_authority: AccountRef<T>,
}

impl<T> UpdateMetadataAccountsV2<T> {
    /// The accounts that an invocation hands over, in their order.
    pub open spec fn account_infos(self) -> Seq<AccountRef<T>> {
        seq![self.metadata_account, self.update_authority]
    }

    /// Puts the accounts, in their order, beside the instruction.
    pub fn into_invocation(self, instruction: Instruction) -> (call: Invocation<T>)
        ensures
            call.instruction == instruction,
            call.account_infos@ == self.account_infos(),
    {
        let account_infos = vec![self.metadata_account, self.update_authority];
        Invocation { instruction, account_infos }
    }
}

/// The accounts for recording, as the owner of a token, that the first sale has
/// happened.
pub struct UpdatePrimarySaleHappenedViaToken<T> {
    pub metadata_account: AccountRef<T>,
    pub owner: AccountRef<T>,
    pub token: AccountRef<T>,
}

impl<T> UpdatePrimarySaleHappenedViaToken<T> {
    /// The accounts that an invocation hands over, in their order.
    pub open spec fn account_infos(self) -> Seq<AccountRef<T>> {
        seq![self.metadata_account, self.owner, self.token]
    }

    /// Puts the accounts, in their order, beside the instruction.
    pub fn into_invocation(self, instruction: Instruction) -> (call: Invocation<T>)
        ensures
            call.instruction == instruction,
            call.account_infos@ == self.account_infos(),
    {
        let account_infos = vec![self.metadata_account, self.owner, self.token];
        Invocation { instruction, account_infos }
    }
}

/// The accounts for making a mint a master edition, in the first form of that
/// instruction.
pub struct CreateMasterEdition<T> {
    pub edition: AccountRef<T>,
    pub mint: AccountRef<T>,
    pub update_authority: AccountRef<T>,
    pub mint_authority: AccountRef<T>,
    pub metadata: AccountRef<T>,
    pub payer: AccountRef<T>,
    pub system_program: AccountRef<T>,
    pub token_program: AccountRef<T>,
    pub rent: AccountRef<T>,
}

impl<T> CreateMasterEdition<T> {
    /// Each program and sysvar that is handed over is the one that its field
    /// is named for.
    pub open spec fn programs_match(self) -> bool {
        &&& self.system_program.key == SYSTEM_PROGRAM_ID
        &&& self.token_program.key == TOKEN_PROGRAM_ID
        &&& self.rent.key == RENT_SYSVAR_ID
    }

    /// The accounts that an invocation hands over, in their order.
    pub open spec fn account_infos(self) -> Seq<AccountRef<T>> {
        seq![
            self.edition,
            self.mint,
            self.update_authority,
            self.mint_authority,
            self.payer,
            self.metadata,
            self.token_program,
            self.system_program,
            self.rent,
        ]
    }

    /// Puts the accounts, in their order, beside the instruction.
    pub fn into_invocation(self, instruction: Instruction) -> (call: Invocation<T>)
        ensures
            call.instruction == instruction,
            call.account_infos@ == self.account_infos(),
    {
        let account_infos = vec![
            self.edition,
            self.mint,
            self.update_authority,
            self.mint_authority,
            self.payer,
            self.metadata,
            self.token_program,
            self.system_program,
            self.rent,
        ];
        Invocation { instruction, account_infos }
    }
}

/// The accounts for making a mint a master edition, in the third form of that
/// instruction.
pub struct CreateMasterEditionV3<T> {
    pub edition: AccountRef<T>,
    pub mint: AccountRef<T>,
    pub update_authority: AccountRef<T>,
    pub mint_authority: AccountRef<T>,
    pub metadata: AccountRef<T>,
    pub payer: AccountRef<T>,
    pub system_program: AccountRef<T>,
    pub token_program: AccountRef<T>,
    pub rent: AccountRef<T>,
}

impl<T> CreateMasterEditionV3<T> {
    /// Each program and sysvar that is handed over is the one that its field
    /// is named for.
    pub open spec fn programs_match(self) -> bool {
        &&& self.system_program.key == SYSTEM_PROGRAM_ID
        &&& self.token_program.key == TOKEN_PROGRAM_ID
        &&& self.rent.key == RENT_SYSVAR_ID
    }

    /// The accounts that an invocation hands over, in their order.
    pub open spec fn account_infos(self) -> Seq<AccountRef<T>> {
        seq![
            self.edition,
            self.mint,
            self.update_authority,
            self.mint_authority,
            self.payer,
            self.metadata,
            self.token_program,
            self.system_program,
            self.rent,
        ]
    }

    /// Puts the accounts, in their order, beside the instruction.
    pub fn into_invocation(self, instruction: Instruction) -> (call: Invocation<T>)
        ensures
            call.instruction == instruction,
            call.account_infos@ == self.account_infos(),
    {
        let account_infos = vec![
            self.edition,
            self.mint,
            self.update_authority,
            self.mint_authority,
            self.payer,
            self.metadata,
            self.token_program,
            self.system_program,
            self.rent,
        ];
        Invocation { instruction, account_infos }
    }
}

/// The accounts for confirming, as a creator, that an asset is theirs.
pub struct SignMetadata<T> {
    pub metadata: AccountRef<T>,
    pub creator: AccountRef<T>,
}

impl<T> SignMetadata<T> {
    /// The accounts that an invocation hands over, in their order.
    pub open spec fn account_infos(self) -> Seq<AccountRef<T>> {
        seq![self.metadata, self.creator]
    }

    /// Puts the accounts, in their order, beside the instruction.
    pub fn into_invocation(self, instruction: Instruction) -> (call: Invocation<T>)
        ensures
            call.instruction == instruction,
            call.account_infos@ == self.account_infos(),
    {
        let account_infos = vec![self.metadata, self.creator];
        Invocation { instruction, account_infos }
    }
}

/// The accounts for withdrawing, as a creator, that confirmation.
pub struct RemoveCreatorVerification<T> {
    pub metadata: AccountRef<T>,
    pub creator: AccountRef<T>,
}

impl<T> RemoveCreatorVerification<T> {
    /// The accounts that an invocation hands over, in their order.
    pub open spec fn account_infos(self) -> Seq<AccountRef<T>> {
        seq![self.metadata, self.creator]
    }

    /// Puts the accounts, in their order, beside the instruction.
    pub fn into_invocation(self, instruction: Instruction) -> (call: Invocation<T>)
        ensures
            call.instruction == instruction,
            call.account_infos@ == self.account_infos(),
    {
        let account_infos = vec![self.metadata, self.creator];
        Invocation { instruction, account_infos }
    }
}

/// The accounts for turning a master edition of the first kind into one of the
/// second.
pub struct ConvertMasterEditionV1toV2<T> {
    pub master_edition: AccountRef<T>,
    pub one_time_auth: AccountRef<T>,
    pub printing_mint: AccountRef<T>,
}

impl<T> ConvertMasterEditionV1toV2<T> {
    /// The accounts that an invocation hands over, in their order.
    pub open spec fn account_infos(self) -> Seq<AccountRef<T>> {
        seq![self.master_edition, self.one_time_auth, self.printing_mint]
    }

    /// Puts the accounts, in their order, beside the instruction.
    pub fn into_invocation(self, instruction: Instruction) -> (call: Invocation<T>)
        ensures
            call.instruction == instruction,
            call.account_infos@ == self.account_infos(),
    {
        let account_infos = vec![self.master_edition, self.one_time_auth, self.printing_mint];
        Invocation { instruction, account_infos }
    }
}

/// The accounts for confirming that an asset belongs to a collection.
pub struct VerifyCollection<T> {
    pub metadata: AccountRef<T>,
    pub collection_authority: AccountRef<T>,
    pub payer: AccountRef<T>,
    pub collection_mint: AccountRef<T>,
    pub collection: AccountRef<T>,
    pub collection_master_edition_account: AccountRef<T>,
    pub collection_authority_record: AccountRef<T>,
}

impl<T> VerifyCollection<T> {
    /// The accounts that an invocation hands over, in their order.
    pub open spec fn account_infos(self) -> Seq<AccountRef<T>> {
        seq![
            self.metadata,
            self.collection_authority,
            self.payer,
            self.collection_mint,
            self.collection,
            self.collection_master_edition_account,
        ]
    }

    /// Puts the accounts, in their order, beside the instruction.
    pub fn into_invocation(self, instruction: Instruction) -> (call: Invocation<T>)
        ensures
            call.instruction == instruction,
            call.account_infos@ == self.account_infos(),
    {
        let account_infos = vec![
            self.metadata,
            self.collection_authority,
            self.payer,
            self.collection_mint,
            self.collection,
            self.collection_master_edition_account,
        ];
        Invocation { instruction, account_infos }
    }
}

/// The accounts for withdrawing the confirmation that an asset belongs to a
/// collection.
pub struct UnverifyCollection<T> {
    pub metadata: AccountRef<T>,
    pub collection_authority: AccountRef<T>,
    pub collection_mint: AccountRef<T>,
    pub collection: AccountRef<T>,
    pub collection_master_edition_account: AccountRef<T>,
    pub collection_authority_record: AccountRef<T>,
}

impl<T> UnverifyCollection<T> {
    /// The accounts that an invocation hands over, in their order.
    pub open spec fn account_infos(self) -> Seq<AccountRef<T>> {
        seq![
            self.metadata,
            self.collection_authority,
            self.collection_mint,
            self.collection,
            self.collection_master_edition_account,
        ]
    }

    /// Puts the accounts, in their order, beside the instruction.
    pub fn into_invocation(self, instruction: Instruction) -> (call: Invocation<T>)
        ensures
            call.instruction == instruction,
            call.account_infos@ == self.account_infos(),
    {
        let account_infos = vec![
            self.metadata,
            self.collection_authority,
            self.collection_mint,
            self.collection,
            self.collection_master_edition_account,
        ];
        Invocation { instruction, account_infos }
    }
}

/// The accounts for using an asset.
pub struct Utilize<T> {
    pub metadata: AccountRef<T>,
    pub token_account: AccountRef<T>,
    pub mint: AccountRef<T>,
    pub use_authority_record_pda: AccountRef<T>,
    pub use_authority: AccountRef<T>,
    pub owner: AccountRef<T>,
    pub burner: AccountRef<T>,
    pub associated_token: AccountRef<T>,
    pub system_program: AccountRef<T>,
    pub token_program: AccountRef<T>,
    pub rent: AccountRef<T>,
}

impl<T> Utilize<T> {
    /// Each program and sysvar that is handed over is the one that its field
    /// is named for.
    pub open spec fn programs_match(self) -> bool {
        &&& self.associated_token.key == ASSOCIATED_TOKEN_PROGRAM_ID
        &&& self.system_program.key == SYSTEM_PROGRAM_ID
        &&& self.token_program.key == TOKEN_PROGRAM_ID
        &&& self.rent.key == RENT_SYSVAR_ID
    }

    /// The accounts that an invocation hands over, in their order.
    pub open spec fn account_infos(self) -> Seq<AccountRef<T>> {
        seq![
            self.metadata,
            self.token_account,
            self.mint,
            self.use_authority,
            self.owner,
            self.token_program,
            self.associated_token,
            self.system_program,
            self.rent,
        ]
    }

    /// Puts the accounts, in their order, beside the instruction.
    pub fn into_invocation(self, instruction: Instruction) -> (call: Invocation<T>)
        ensures
            call.instruction == instruction,
            call.account_infos@ == self.account_infos(),
    {
        let account_infos = vec![
            self.metadata,
            self.token_account,
            self.mint,
            self.use_authority,
            self.owner,
            self.token_program,
            self.associated_token,
            self.system_program,
            self.rent,
        ];
        Invocation { instruction, account_infos }
    }
}

/// The accounts for letting another account use an asset.
pub struct ApproveUseAuthority<T> {
    pub use_authority_record: AccountRef<T>,
    pub user: AccountRef<T>,
    pub owner: AccountRef<T>,
    pub payer: AccountRef<T>,
    pub owner_token_account: AccountRef<T>,
    pub metadata: AccountRef<T>,
    pub mint: AccountRef<T>,
    pub burner: AccountRef<T>,
    pub system_program: AccountRef<T>,
    pub token_program: AccountRef<T>,
    pub rent: AccountRef<T>,
}

impl<T> ApproveUseAuthority<T> {
    /// Each program and sysvar that is handed over is the one that its field
    /// is named for.
    pub open spec fn programs_match(self) -> bool {
        &&& self.system_program.key == SYSTEM_PROGRAM_ID
        &&& self.token_program.key == TOKEN_PROGRAM_ID
        &&& self.rent.key == RENT_SYSVAR_ID
    }

    /// The accounts that an invocation hands over, in their order.
    pub open spec fn account_infos(self) -> Seq<AccountRef<T>> {
        seq![
            self.use_authority_record,
            self.owner,
            self.payer,
            self.user,
            self.owner_token_account,
            self.metadata,
            self.mint,
            self.burner,
            self.token_program,
            self.system_program,
            self.rent,
        ]
    }

    /// Puts the accounts, in their order, beside the instruction.
    pub fn into_invocation(self, instruction: Instruction) -> (call: Invocation<T>)
        ensures
            call.instruction == instruction,
            call.account_infos@ == self.account_infos(),
    {
        let account_infos = vec![
            self.use_authority_record,
            self.owner,
            self.payer,
            self.user,
            self.owner_token_account,
            self.metadata,
            self.mint,
            self.burner,
            self.token_program,
            self.system_program,
            self.rent,
        ];
        Invocation { instruction, account_infos }
    }
}

/// The accounts for taking back the permission to use an asset.
pub struct RevokeUseAuthority<T> {
    pub use_authority_record: AccountRef<T>,
    pub user: AccountRef<T>,
    pub owner: AccountRef<T>,
    pub owner_token_account: AccountRef<T>,
    pub metadata: AccountRef<T>,
    pub mint: AccountRef<T>,
    pub system_program: AccountRef<T>,
    pub token_program: AccountRef<T>,
    pub rent: AccountRef<T>,
}

impl<T> RevokeUseAuthority<T> {
    /// Each program and sysvar that is handed over is the one that its field
    /// is named for.
    pub open spec fn programs_match(self) -> bool {
        &&& self.system_program.key == SYSTEM_PROGRAM_ID
        &&& self.token_program.key == TOKEN_PROGRAM_ID
        &&& self.rent.key == RENT_SYSVAR_ID
    }

    /// The accounts that an invocation hands over, in their order.
    pub open spec fn account_infos(self) -> Seq<AccountRef<T>> {
        seq![
            self.use_authority_record,
            self.owner,
            self.user,
            self.owner_token_account,
            self.mint,
            self.metadata,
            self.token_program,
            self.system_program,
            self.rent,
        ]
    }

    /// Puts the accounts, in their order, beside the instruction.
    pub fn into_invocation(self, instruction: Instruction) -> (call: Invocation<T>)
        ensures
            call.instruction == instruction,
            call.account_infos@ == self.account_infos(),
    {
        let account_infos = vec![
            self.use_authority_record,
            self.owner,
            self.user,
            self.owner_token_account,
            self.mint,
            self.metadata,
            self.token_program,
            self.system_program,
            self.rent,
        ];
        Invocation { instruction, account_infos }
    }
}

/// The accounts for letting another account confirm the members of a
/// collection.
pub struct ApproveCollectionAuthority<T> {
    pub collection_authority_record: AccountRef<T>,
    pub new_collection_authority: AccountRef<T>,
    pub update_authority: AccountRef<T>,
    pub payer: AccountRef<T>,
    pub metadata: AccountRef<T>,
    pub mint: AccountRef<T>,
    pub system_program: AccountRef<T>,
    pub token_program: AccountRef<T>,
    pub rent: AccountRef<T>,
}

impl<T> ApproveCollectionAuthority<T> {
    /// Each program and sysvar that is handed over is the one that its field
    /// is named for.
    pub open spec fn programs_match(self) -> bool {
        &&& self.system_program.key == SYSTEM_PROGRAM_ID
        &&& self.rent.key == RENT_SYSVAR_ID
    }

    /// The accounts that an invocation hands over, in their order.
    pub open spec fn account_infos(self) -> Seq<AccountRef<T>> {
        seq![
            self.collection_authority_record,
            self.new_collection_authority,
            self.update_authority,
            self.payer,
            self.metadata,
            self.mint,
            self.system_program,
            self.rent,
        ]
    }

    /// Puts the accounts, in their order, beside the instruction.
    pub fn into_invocation(self, instruction: Instruction) -> (call: Invocation<T>)
        ensures
            call.instruction == instruction,
            call.account_infos@ == self.account_infos(),
    {
        let account_infos = vec![
            self.collection_authority_record,
            self.new_collection_authority,
            self.update_authority,
            self.payer,
            self.metadata,
            self.mint,
            self.system_program,
            self.rent,
        ];
        Invocation { instruction, account_infos }
    }
}

/// The accounts for taking back the permission to confirm the members of a
/// collection.
pub struct RevokeCollectionAuthority<T> {
    pub collection_authority_record: AccountRef<T>,
    pub delegate_authority: AccountRef<T>,
    pub update_authority: AccountRef<T>,
    pub metadata: AccountRef<T>,
    pub mint: AccountRef<T>,
    pub system_program: AccountRef<T>,
    pub token_program: AccountRef<T>,
    pub rent: AccountRef<T>,
}

impl<T> RevokeCollectionAuthority<T> {
    /// The accounts that an invocation hands over, in their order.
    pub open spec fn account_infos(self) -> Seq<AccountRef<T>> {
        seq![
            self.collection_authority_record,
            self.delegate_authority,
            self.update_authority,
            self.metadata,
            self.mint,
        ]
    }

    /// Puts the accounts, in their order, beside the instruction.
    pub fn into_invocation(self, instruction: Instruction) -> (call: Invocation<T>)
        ensures
            call.instruction == instruction,
            call.account_infos@ == self.account_infos(),
    {
        let account_infos = vec![
            self.collection_authority_record,
            self.delegate_authority,
            self.update_authority,
            self.metadata,
            self.mint,
        ];
        Invocation { instruction, account_infos }
    }
}

/// The accounts for putting an asset into a collection and confirming it there.
pub struct SetAndVerifyCollection<T> {
    pub metadata: AccountRef<T>,
    pub collection_authority: AccountRef<T>,
    pub payer: AccountRef<T>,
    pub update_authority: AccountRef<T>,
    pub collection_mint: AccountRef<T>,
    pub collection: AccountRef<T>,
    pub collection_master_edition_account: AccountRef<T>,
    pub collection_authority_record: AccountRef<T>,
}

impl<T> SetAndVerifyCollection<T> {
    /// The accounts that an invocation hands over, in their order.
    pub open spec fn account_infos(self) -> Seq<AccountRef<T>> {
        seq![
            self.metadata,
            self.collection_authority,
            self.payer,
            self.update_authority,
            self.collection_mint,
            self.collection,
            self.collection_master_edition_account,
        ]
    }

    /// Puts the accounts, in their order, beside the instruction.
    pub fn into_invocation(self, instruction: Instruction) -> (call: Invocation<T>)
        ensures
            call.instruction == instruction,
            call.account_infos@ == self.account_infos(),
    {
        let account_infos = vec![
            self.metadata,
            self.collection_authority,
            self.payer,
            self.update_authority,
            self.collection_mint,
            self.collection,
            self.collection_master_edition_account,
        ];
        Invocation { instruction, account_infos }
    }
}

} // verus!
