use tela::bundle::{DevelopmentManifest, BUNDLE_FORMAT_VERSION};
use tela::dev_bundle::{
    check_archive_abi, check_archive_bytes, validate_development_index, BundleRejection,
    ABI_VERSION, MAX_ARCHIVE_BYTES,
};
use tela::digest::sha256_hex;

fn index_for(archive: &[u8]) -> DevelopmentManifest {
    DevelopmentManifest {
        format_version: BUNDLE_FORMAT_VERSION,
        bundle_id: sha256_hex(archive),
        bundle_url: "/tela-dev/app.tela".to_owned(),
        sha256: sha256_hex(archive),
        bytes: archive.len() as u64,
        app_abi: ABI_VERSION,
    }
}

#[test]
fn a_matching_index_and_archive_are_admitted() {
    let archive = b"compressed guest bundle".to_vec();
    let index = index_for(&archive);
    assert!(validate_development_index(&index).is_ok());
    assert!(check_archive_bytes(&index, &archive).is_ok());
    assert!(check_archive_abi(&index, ABI_VERSION).is_ok());
}

#[test]
fn an_archive_with_a_different_hash_is_rejected() {
    let archive = b"compressed guest bundle".to_vec();
    let index = index_for(&archive);
    let mut corrupt = archive.clone();
    corrupt.push(0);
    assert!(matches!(
        check_archive_bytes(&index, &corrupt),
        Err(BundleRejection::SizeMismatch { actual: 24, .. })
    ));
    let mut flipped = archive.clone();
    flipped[0] ^= 1;
    match check_archive_bytes(&index, &flipped) {
        Err(BundleRejection::ChecksumMismatch { expected, actual }) => {
            assert_eq!(expected, index.sha256);
            assert_eq!(actual, sha256_hex(&flipped));
        }
        other => panic!("unexpected {other:?}"),
    }
}

#[test]
fn index_rejections_follow_the_check_order() {
    let archive = b"x".to_vec();
    let mut wrong_abi = index_for(&archive);
    wrong_abi.app_abi = 2;
    assert!(matches!(
        validate_development_index(&wrong_abi),
        Err(BundleRejection::AbiMismatch { host: 1, bundle: 2 })
    ));
    let mut too_large = index_for(&archive);
    too_large.bytes = MAX_ARCHIVE_BYTES as u64 + 1;
    assert!(matches!(
        validate_development_index(&too_large),
        Err(BundleRejection::TooLarge { limit_mib: 64 })
    ));
    let mut malformed = index_for(&archive);
    malformed.bundle_url = String::new();
    assert!(matches!(validate_development_index(&malformed), Err(BundleRejection::Manifest(_))));
}

#[test]
fn archive_abi_must_match_host_and_index() {
    let mut index = index_for(b"x");
    assert!(matches!(
        check_archive_abi(&index, 3),
        Err(BundleRejection::AbiMismatch { host: 1, bundle: 3 })
    ));
    index.app_abi = 5;
    assert!(matches!(
        check_archive_abi(&index, ABI_VERSION),
        Err(BundleRejection::IndexAbiMismatch { index: 5, archive: 1 })
    ));
}
