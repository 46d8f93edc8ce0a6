use permit_registry::metadata::{
    Authentication, Extension, MediaFile, Metadata, Nfp, PackageReference, RawData, Trait,
};

#[test]
fn default_metadata_is_empty() {
    let meta = Metadata::default();
    assert_eq!(meta.token_uri, None);
    assert_eq!(meta.extension, None);
}

#[test]
fn metadata_with_extension_round_trips_clone_and_eq() {
    let meta = Metadata {
        token_uri: None,
        extension: Some(Extension {
            image: Some("ipfs://image".to_string()),
            description: Some("a token".to_string()),
            name: Some("token".to_string()),
            attributes: Some(vec![Trait {
                display_type: None,
                trait_type: Some("color".to_string()),
                value: "blue".to_string(),
                max_value: None,
            }]),
            media: Some(vec![MediaFile {
                file_type: Some("image".to_string()),
                extension: Some("png".to_string()),
                authentication: Some(Authentication {
                    key: Some("decryption-key".to_string()),
                    user: Some("viewer".to_string()),
                }),
                url: "https://media".to_string(),
            }]),
            nfp: Some(Nfp {
                data: Some(vec![RawData {
                    data: "aGVsbG8=".to_string(),
                    encoding: Some("svg".to_string()),
                    name: Some("art".to_string()),
                }]),
                code: Some(PackageReference {
                    package_manager: "secret1manager".to_string(),
                    id: "prog-7".to_string(),
                    version: Some("1.2".to_string()),
                }),
                media: None,
            }),
            genome: Some(12345678901234567890u128),
            ..Extension::default()
        }),
    };
    let copy = meta.clone();
    assert_eq!(meta, copy);
    let other = Metadata {
        token_uri: Some("ar://elsewhere".to_string()),
        extension: None,
    };
    assert_ne!(meta, other);
}
