//! Development bundle admission on the web host: the remote index is checked before anything
//! is downloaded, and the downloaded archive against the index before guest bytes are exposed.
use vstd::prelude::*;

use crate::bundle::{development_manifest_fault, BundleError, BundleFault, DevelopmentManifest};
use crate::digest::{hex_lower, sha256_digest, sha256_hex};
use crate::text::text_equal;

verus! {

/// Application ABI version this host runs.
pub const ABI_VERSION: u32 = 1;
/// Largest compressed development archive accepted, in bytes (64 MiB).
pub const MAX_ARCHIVE_BYTES: usize = 67_108_864;

/// Why a development bundle was refused.
#[derive(Clone, Debug)]
pub enum BundleRejection {
    /// The index manifest is malformed.
    Manifest(BundleError),
    /// The bundle needs another application ABI than the host runs.
    AbiMismatch {
        /// ABI of the host.
        host: u32,
        /// ABI the index or the archive declares.
        bundle: u32,
    },
    /// The archive exceeds `MAX_ARCHIVE_BYTES` (its limit in MiB).
    TooLarge {
        /// The limit in MiB.
        limit_mib: usize,
    },
    /// The archive is not as long as the index declares.
    SizeMismatch {
        /// Length declared by the index.
        expected: u64,
        /// Length downloaded.
        actual: usize,
    },
    /// The archive's SHA-256 differs from the index's.
    ChecksumMismatch {
        /// Digest declared by the index.
        expected: String,
        /// Digest of the downloaded bytes.
        actual: String,
    },
    /// The archive's own manifest declares another ABI than the index.
    IndexAbiMismatch {
        /// ABI declared by the index.
        index: u32,
        /// ABI declared inside the archive.
        archive: u32,
    },
}

/// Whether a rejection is the index manifest fault `fault`.
pub open spec fn is_manifest_rejection(rejection: BundleRejection, fault: BundleFault) -> bool {
    rejection matches BundleRejection::Manifest(error) && error@ == fault
}

/// Checks a development index before the archive is fetched: a valid manifest, the host's ABI,
/// and a declared size within the limit, in that order.
pub fn validate_development_index(manifest: &DevelopmentManifest) -> (result: Result<(), BundleRejection>)
    ensures
        match development_manifest_fault(*manifest) {
            Some(fault) => result matches Err(rejection) && is_manifest_rejection(rejection, fault),
            None => if manifest.app_abi != ABI_VERSION {
                result == Err::<(), BundleRejection>(
                    BundleRejection::AbiMismatch { host: ABI_VERSION, bundle: manifest.app_abi },
                )
            } else if manifest.bytes > MAX_ARCHIVE_BYTES {
                result == Err::<(), BundleRejection>(BundleRejection::TooLarge { limit_mib: 64 })
            } else {
                result is Ok
            },
        },
{
    match manifest.validate() {
        Err(error) => return Err(BundleRejection::Manifest(error)),
        Ok(()) => {},
    }
    if manifest.app_abi != ABI_VERSION {
        return Err(BundleRejection::AbiMismatch { host: ABI_VERSION, bundle: manifest.app_abi });
    }
    if manifest.bytes > MAX_ARCHIVE_BYTES as u64 {
        return Err(BundleRejection::TooLarge { limit_mib: MAX_ARCHIVE_BYTES / 1024 / 1024 });
    }
    Ok(())
}

/// Checks downloaded archive bytes against the index before they are opened: within the limit,
/// exactly the declared length, and the declared SHA-256, in that order.
pub fn check_archive_bytes(manifest: &DevelopmentManifest, bytes: &[u8]) -> (result: Result<(), BundleRejection>)
    ensures
        bytes@.len() > MAX_ARCHIVE_BYTES ==> result == Err::<(), BundleRejection>(
            BundleRejection::TooLarge { limit_mib: 64 },
        ),
        bytes@.len() <= MAX_ARCHIVE_BYTES && bytes@.len() != manifest.bytes ==> result == Err::<
            (),
            BundleRejection,
        >(BundleRejection::SizeMismatch { expected: manifest.bytes, actual: bytes@.len() as usize }),
        bytes@.len() <= MAX_ARCHIVE_BYTES && bytes@.len() == manifest.bytes ==> (if hex_lower(
            sha256_digest(bytes@),
        ) == manifest.sha256@ {
            result is Ok
        } else {
            result matches Err(BundleRejection::ChecksumMismatch { expected, actual })
                && expected@ == manifest.sha256@ && actual@ == hex_lower(sha256_digest(bytes@))
        }),
{
    if bytes.len() > MAX_ARCHIVE_BYTES {
        return Err(BundleRejection::TooLarge { limit_mib: MAX_ARCHIVE_BYTES / 1024 / 1024 });
    }
    if bytes.len() as u64 != manifest.bytes {
        return Err(BundleRejection::SizeMismatch { expected: manifest.bytes, actual: bytes.len() });
    }
    let actual = sha256_hex(bytes);
    if !text_equal(actual.as_str(), manifest.sha256.as_str()) {
        return Err(BundleRejection::ChecksumMismatch { expected: manifest.sha256.clone(), actual });
    }
    Ok(())
}

/// Checks the ABI declared inside an opened archive: the host's, and the index's.
pub fn check_archive_abi(manifest: &DevelopmentManifest, archive_abi: u32) -> (result: Result<(), BundleRejection>)
    ensures
        result == (if archive_abi != ABI_VERSION {
            Err(BundleRejection::AbiMismatch { host: ABI_VERSION, bundle: archive_abi })
        } else if archive_abi != manifest.app_abi {
            Err(BundleRejection::IndexAbiMismatch { index: manifest.app_abi, archive: archive_abi })
        } else {
            Ok(())
        }),
{
    if archive_abi != ABI_VERSION {
        return Err(BundleRejection::AbiMismatch { host: ABI_VERSION, bundle: archive_abi });
    }
    if archive_abi != manifest.app_abi {
        return Err(BundleRejection::IndexAbiMismatch { index: manifest.app_abi, archive: archive_abi });
    }
    Ok(())
}

} // verus!
