//! Passive token-metadata schema: field definitions for display and
//! interchange, with no behavior of their own.
//!
//! Numeric token fields are held as plain `u128` values and contract
//! addresses as plain strings, so the whole schema is ordinary data.
//! The serialization layer around the library carries the interchange
//! derives on its own mirror of these types and converts in both
//! directions.

use vstd::prelude::*;

verus! {

/// Token metadata: either a URI pointing at off-chain metadata or the
/// on-chain extension, but not both.
#[derive(Clone, PartialEq, Eq, Debug, Default)]
pub struct Metadata {
    /// Optional URI of off-chain metadata; prefixed with `http://`,
    /// `https://`, `ipfs://`, or `ar://`. Only used when `extension` is
    /// not.
    pub token_uri: Option<String>,
    /// Optional on-chain metadata. Only used when `token_uri` is not.
    pub extension: Option<Extension>,
}

/// On-chain metadata extension: display-oriented fields for a token.
/// URLs should be prefixed with `http://`, `https://`, `ipfs://`, or
/// `ar://`.
#[derive(Clone, PartialEq, Eq, Debug, Default)]
pub struct Extension {
    /// URL of the image.
    pub image: Option<String>,
    /// Raw SVG image data; only used when `image` is not.
    pub image_data: Option<String>,
    /// URL under which users can view the item.
    pub external_url: Option<String>,
    /// Item description.
    pub description: Option<String>,
    /// Name of the item.
    pub name: Option<String>,
    /// Item attributes.
    pub attributes: Option<Vec<Trait>>,
    /// Background color as six hexadecimal digits without a leading `#`.
    pub background_color: Option<String>,
    /// URL of a multimedia attachment.
    pub animation_url: Option<String>,
    /// URL of a YouTube video.
    pub youtube_url: Option<String>,
    /// Media files, with optional basic authentication and decryption
    /// keys.
    pub media: Option<Vec<MediaFile>>,
    /// Trait types that also appear in the private metadata; only ever
    /// used in public metadata.
    pub protected_attributes: Option<Vec<String>>,
    /// NFP data.
    pub nfp: Option<Nfp>,
    /// Raw data stored on chain.
    pub raw_data: Option<Vec<RawData>>,
    /// Genome value.
    pub genome: Option<u128>,
}

/// A single display attribute of a token.
#[derive(Clone, PartialEq, Eq, Debug, Default)]
pub struct Trait {
    /// How the trait should be displayed.
    pub display_type: Option<String>,
    /// Name of the trait.
    pub trait_type: Option<String>,
    /// Value of the trait.
    pub value: String,
    /// Optional maximum for numerical traits.
    pub max_value: Option<String>,
}

/// A media file attached to a token.
#[derive(Clone, PartialEq, Eq, Debug, Default)]
pub struct MediaFile {
    /// File type, such as "image", "video", "audio", "text", "font" or
    /// "application".
    pub file_type: Option<String>,
    /// File extension.
    pub extension: Option<String>,
    /// Authentication information for the file.
    pub authentication: Option<Authentication>,
    /// URL of the file; prefixed with `http://`, `https://`, `ipfs://`,
    /// or `ar://`.
    pub url: String,
}

/// Authentication data of a media file.
#[derive(Clone, PartialEq, Eq, Debug, Default)]
pub struct Authentication {
    /// Decryption key for an encrypted file, or a password for basic
    /// authentication.
    pub key: Option<String>,
    /// Username for basic authentication.
    pub user: Option<String>,
}

/// Raw data stored on chain.
#[derive(Clone, PartialEq, Debug, Default, Eq)]
pub struct RawData {
    /// Data bytes in base64.
    pub data: String,
    /// Encoding of the media data (for example svg, svgz, png, webp).
    pub encoding: Option<String>,
    /// Optional file name.
    pub name: Option<String>,
}

/// NFP data of a token.
#[derive(Clone, PartialEq, Debug, Default, Eq)]
pub struct Nfp {
    /// NFP data bytes and their encoding.
    pub data: Option<Vec<RawData>>,
    /// Program reference in the NFP package manager.
    pub code: Option<PackageReference>,
    /// Off-chain media files for the NFP.
    pub media: Option<Vec<MediaFile>>,
}

/// A stored NFP package reference.
#[derive(Clone, PartialEq, Debug, Eq)]
pub struct PackageReference {
    /// Address of the package manager contract.
    pub package_manager: String,
    /// Program id in the package manager.
    pub id: String,
    /// Version in the package manager.
    pub version: Option<String>,
}

} // verus!
