//! The creator-verification records of the outside metadata program, as far
//! as this system reads them: an asset's name and its declared creators.

use crate::key::Key;
use metaplex_token_metadata::state::Key as RecordKind;
use metaplex_token_metadata::state::Metadata;
use metaplex_token_metadata::state::MAX_METADATA_LEN;
use vstd::prelude::*;

verus! {

/// Number of bytes of a creator-verification record.
pub const ASSET_METADATA_LEN: usize = 679;

/// One declared creator of an asset.
#[derive(Clone, Copy, Debug, PartialEq, Eq)]
pub struct AssetCreator {
    pub address: Key,
    /// Whether the creator itself confirmed the declaration.
    pub verified: bool,
}

/// What a creator-verification record says of an asset.
#[derive(Clone, Debug, PartialEq, Eq)]
pub struct AssetMetadata {
    pub name: String,
    pub creators: Option<Vec<AssetCreator>>,
}

/// An asset's metadata as plain values.
pub struct AssetMetadataView {
    pub name: Seq<char>,
    pub creators: Option<Seq<AssetCreator>>,
}

impl View for AssetMetadata {
    type V = AssetMetadataView;

    open spec fn view(&self) -> AssetMetadataView {
        AssetMetadataView {
            name: self.name@,
            creators: match self.creators {
                Some(c) => Some(c@),
                None => None,
            },
        }
    }
}

/// Metadata that was read, or not, as plain values.
pub open spec fn metadata_view(r: Option<AssetMetadata>) -> Option<AssetMetadataView> {
    match r {
        Some(m) => Some(m@),
        None => None,
    }
}

/// What the metadata program's own layout reads out of the non-empty bytes
/// of a record, or `None` where they are no metadata.
pub uninterp spec fn asset_metadata_fields(data: Seq<u8>) -> Option<AssetMetadataView>;

/// Calls `try_from_slice_checked` of the metadata program's crate, as its
/// `Metadata::from_account_info` does on a record's bytes, and copies out the
/// name and the creators.
///
/// Claims that the result depends on the bytes alone, and, as that function's
/// source shows, that bytes of any length but `ASSET_METADATA_LEN` are
/// refused. The function indexes the first byte, so it is not called on
/// empty input.
#[verifier::external_body]
fn try_from_slice_checked(data: &[u8]) -> (r: Option<AssetMetadata>)
    requires
        data@.len() > 0,
    ensures
        metadata_view(r) == asset_metadata_fields(data@),
        data@.len() != ASSET_METADATA_LEN ==> r is None,
{
    let m: Metadata = metaplex_token_metadata::utils::try_from_slice_checked(
        data,
        RecordKind::MetadataV1,
        MAX_METADATA_LEN,
    ).ok()?;
    let creators = m.data.creators.map(
        |list| list.iter().map(
            |c| AssetCreator { address: Key { bytes: c.address.to_bytes() }, verified: c.verified },
        ).collect(),
    );
    Some(AssetMetadata { name: m.data.name, creators })
}

/// What a record's bytes say of an asset: nothing where there are no bytes,
/// else what the metadata program's layout reads out of them.
pub open spec fn asset_metadata_of(data: Seq<u8>) -> Option<AssetMetadataView> {
    if data.len() == 0 {
        None
    } else {
        asset_metadata_fields(data)
    }
}

/// Reads an asset's metadata out of a record's bytes.
pub fn read_asset_metadata(data: &[u8]) -> (r: Option<AssetMetadata>)
    ensures
        metadata_view(r) == asset_metadata_of(data@),
        data@.len() != ASSET_METADATA_LEN ==> r is None,
{
    if data.len() == 0 {
        None
    } else {
        try_from_slice_checked(data)
    }
}

} // verus!
