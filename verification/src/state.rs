//! What a metadata account is to hold, as the token-metadata program takes it.

use mpl_token_metadata::state::Collection;
use mpl_token_metadata::state::Creator;
use mpl_token_metadata::state::Uses;
use vstd::prelude::*;
use vstd::utf8::encode_utf8;

verus! {

/// `mpl_token_metadata::state::Creator`: one creator of an asset, with its
/// share. The library hands such a value on and never looks into it.
#[verifier::external_type_specification]
#[verifier::external_body]
pub struct ExCreator(Creator);

/// `mpl_token_metadata::state::Collection`: the collection that an asset
/// belongs to. The library hands such a value on and never looks into it.
#[verifier::external_type_specification]
#[verifier::external_body]
pub struct ExCollection(Collection);

/// `mpl_token_metadata::state::Uses`: how often an asset may be used, and how.
/// The library hands such a value on and never looks into it.
#[verifier::external_type_specification]
#[verifier::external_body]
pub struct ExUses(Uses);

/// Whether a text can be encoded: its UTF-8 form has at most `u32::MAX`
/// bytes, so that its length fits the four bytes that the encoding gives it.
pub open spec fn text_fits(text: Seq<char>) -> bool {
    encode_utf8(text).len() <= u32::MAX
}

/// Whether a list of creators can be encoded: it has at most `u32::MAX`
/// entries, so that their number fits the four bytes that the encoding gives
/// it.
pub open spec fn creators_fit(creators: Seq<Creator>) -> bool {
    creators.len() <= u32::MAX
}

/// The number of bytes that the text takes: the length of its UTF-8 form.
fn byte_len(text: &String) -> (len: usize)
    ensures
        len == encode_utf8(text@).len(),
{
    text.as_str().as_bytes().len()
}

/// Tests whether a text can be encoded.
pub fn text_is_encodable(text: &String) -> (fit: bool)
    ensures
        fit == text_fits(text@),
{
    byte_len(text) <= 0xffff_ffff
}

/// Tests whether a list of creators can be encoded.
pub fn creators_are_encodable(creators: &Vec<Creator>) -> (fit: bool)
    ensures
        fit == creators_fit(creators@),
{
    creators.len() <= 0xffff_ffff
}

/// The creators as a sequence, if there are any.
pub open spec fn creators_view(creators: Option<Vec<Creator>>) -> Option<Seq<Creator>> {
    match creators {
        Some(list) => Some(list@),
        None => None,
    }
}

/// The description of an asset, in its first form.
pub struct Data {
    /// The name of the asset.
    pub name: String,
    /// The symbol of the asset.
    pub symbol: String,
    /// Where the JSON that represents the asset is found.
    pub uri: String,
    /// Royalty, in basis points, that goes to the creators at each resale.
    pub seller_fee_basis_points: u16,
    /// The creators, if they are recorded.
    pub creators: Option<Vec<Creator>>,
}

/// A `Data` in contracts: its texts as sequences of characters.
pub struct DataView {
    pub name: Seq<char>,
    pub symbol: Seq<char>,
    pub uri: Seq<char>,
    pub seller_fee_basis_points: u16,
    pub creators: Option<Seq<Creator>>,
}

impl DataView {
    /// Whether the description can be encoded: each text and the list of
    /// creators is short enough for its length to fit four bytes.
    pub open spec fn fits(self) -> bool {
        &&& text_fits(self.name)
        &&& text_fits(self.symbol)
        &&& text_fits(self.uri)
        &&& self.creators matches Some(list) ==> creators_fit(list)
    }
}

impl Data {
    /// Tests whether the description can be encoded.
    pub fn is_encodable(&self) -> (fit: bool)
        ensures
            fit == self@.fits(),
    {
        text_is_encodable(&self.name) && text_is_encodable(&self.symbol) && text_is_encodable(
            &self.uri,
        ) && match &self.creators {
            Some(list) => creators_are_encodable(list),
            None => true,
        }
    }
}

impl View for Data {
    type V = DataView;

    open spec fn view(&self) -> DataView {
        DataView {
            name: self.name@,
            symbol: self.symbol@,
            uri: self.uri@,
            seller_fee_basis_points: self.seller_fee_basis_points,
            creators: creators_view(self.creators),
        }
    }
}

/// The description as contracts speak of it, if there is one.
pub open spec fn data_view(data: Option<Data>) -> Option<DataView> {
    match data {
        Some(d) => Some(d@),
        None => None,
    }
}

/// The description of an asset, in its second form: with the collection it
/// belongs to and the uses it allows.
pub struct DataV2 {
    /// The name of the asset.
    pub name: String,
    /// The symbol of the asset.
    pub symbol: String,
    /// Where the JSON that represents the asset is found.
    pub uri: String,
    /// Royalty, in basis points, that goes to the creators at each resale.
    pub seller_fee_basis_points: u16,
    /// The creators, if they are recorded.
    pub creators: Option<Vec<Creator>>,
    /// The collection, if the asset belongs to one.
    pub collection: Option<Collection>,
    /// The uses, if the asset can be used.
    pub uses: Option<Uses>,
}

/// A `DataV2` in contracts: its texts as sequences of characters.
pub struct DataV2View {
    pub name: Seq<char>,
    pub symbol: Seq<char>,
    pub uri: Seq<char>,
    pub seller_fee_basis_points: u16,
    pub creators: Option<Seq<Creator>>,
    pub collection: Option<Collection>,
    pub uses: Option<Uses>,
}

impl DataV2View {
    /// Whether the description can be encoded: each text and the list of
    /// creators is short enough for its length to fit four bytes.
    pub open spec fn fits(self) -> bool {
        &&& text_fits(self.name)
        &&& text_fits(self.symbol)
        &&& text_fits(self.uri)
        &&& self.creators matches Some(list) ==> creators_fit(list)
    }
}

impl DataV2 {
    /// Tests whether the description can be encoded.
    pub fn is_encodable(&self) -> (fit: bool)
        ensures
            fit == self@.fits(),
    {
        text_is_encodable(&self.name) && text_is_encodable(&self.symbol) && text_is_encodable(
            &self.uri,
        ) && match &self.creators {
            Some(list) => creators_are_encodable(list),
            None => true,
        }
    }
}

impl View for DataV2 {
    type V = DataV2View;

    open spec fn view(&self) -> DataV2View {
        DataV2View {
            name: self.name@,
            symbol: self.symbol@,
            uri: self.uri@,
            seller_fee_basis_points: self.seller_fee_basis_points,
            creators: creators_view(self.creators),
            collection: self.collection,
            uses: self.uses,
        }
    }
}

/// The description as contracts speak of it, if there is one.
pub open spec fn data_v2_view(data: Option<DataV2>) -> Option<DataV2View> {
    match data {
        Some(d) => Some(d@),
        None => None,
    }
}

} // verus!
