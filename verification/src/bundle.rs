//! Manifests of a compressed development bundle and of its remote index, and the checks an SDK
//! runs before it trusts either one.
use vstd::prelude::*;
use vstd::string::StringExecFns;
use vstd::utf8::encode_utf8_decode_utf8;

use crate::digest::{hex_lower, sha256_digest, sha256_hex};
use crate::text::{
    bytes_equal, bytes_lex_less, bytes_less, bytes_start_with, decimal_string, decimal_text,
    is_sha256_hex, is_sha256_hex_text, text_bytes,
};

verus! {

/// Bundle archive protocol version accepted by this library.
pub const BUNDLE_FORMAT_VERSION: u32 = 1;

/// An archive or its manifest is invalid for execution.
#[derive(Clone, Debug)]
pub enum BundleError {
    /// A required field is missing or uses an unsupported protocol version.
    InvalidManifest(String),
    /// A zip path could escape the intended bundle root.
    InvalidPath(String),
    /// The archive is missing an entry declared by its manifest.
    MissingEntry(String),
    /// Bytes do not match their declared SHA-256 checksum.
    ChecksumMismatch {
        /// Bundle or entry name.
        name: String,
        /// Expected SHA-256 hex digest.
        expected: String,
        /// Actual SHA-256 hex digest.
        actual: String,
    },
    /// A byte stream could not be read as an archive.
    Archive(String),
    /// A JSON document could not be encoded or decoded.
    Json(String),
    /// An underlying file operation failed.
    Io(String),
}

/// The texts carried by a [`BundleError`].
pub enum BundleFault {
    /// See [`BundleError::InvalidManifest`].
    InvalidManifest(Seq<char>),
    /// See [`BundleError::InvalidPath`].
    InvalidPath(Seq<char>),
    /// See [`BundleError::MissingEntry`].
    MissingEntry(Seq<char>),
    /// See [`BundleError::ChecksumMismatch`].
    ChecksumMismatch { name: Seq<char>, expected: Seq<char>, actual: Seq<char> },
    /// See [`BundleError::Archive`].
    Archive(Seq<char>),
    /// See [`BundleError::Json`].
    Json(Seq<char>),
    /// See [`BundleError::Io`].
    Io(Seq<char>),
}

impl View for BundleError {
    type V = BundleFault;

    open spec fn view(&self) -> BundleFault {
        match self {
            BundleError::InvalidManifest(m) => BundleFault::InvalidManifest(m@),
            BundleError::InvalidPath(m) => BundleFault::InvalidPath(m@),
            BundleError::MissingEntry(m) => BundleFault::MissingEntry(m@),
            BundleError::ChecksumMismatch { name, expected, actual } => {
                BundleFault::ChecksumMismatch { name: name@, expected: expected@, actual: actual@ }
            },
            BundleError::Archive(m) => BundleFault::Archive(m@),
            BundleError::Json(m) => BundleFault::Json(m@),
            BundleError::Io(m) => BundleFault::Io(m@),
        }
    }
}

/// The human-readable text of a bundle failure.
pub open spec fn fault_message(fault: BundleFault) -> Seq<char> {
    match fault {
        BundleFault::InvalidManifest(m) => "invalid Tela bundle manifest: "@ + m,
        BundleFault::InvalidPath(p) => "invalid Tela bundle path: "@ + p,
        BundleFault::MissingEntry(p) => "Tela bundle is missing required entry: "@ + p,
        BundleFault::ChecksumMismatch { name, expected, actual } => "checksum mismatch for "@
            + name + ": expected "@ + expected + ", got "@ + actual,
        BundleFault::Archive(m) => "invalid Tela bundle archive: "@ + m,
        BundleFault::Json(m) => "invalid Tela bundle JSON: "@ + m,
        BundleFault::Io(m) => "Tela bundle I/O failed: "@ + m,
    }
}

impl BundleError {
    /// The human-readable description of this failure.
    pub fn message(&self) -> (text: String)
        ensures
            text@ == fault_message(self@),
    {
        match self {
            BundleError::InvalidManifest(m) => {
                String::from_str("invalid Tela bundle manifest: ").concat(m.as_str())
            },
            BundleError::InvalidPath(p) => {
                String::from_str("invalid Tela bundle path: ").concat(p.as_str())
            },
            BundleError::MissingEntry(p) => {
                String::from_str("Tela bundle is missing required entry: ").concat(p.as_str())
            },
            BundleError::ChecksumMismatch { name, expected, actual } => {
                let text = String::from_str("checksum mismatch for ").concat(name.as_str());
                let text = text.concat(": expected ").concat(expected.as_str());
                text.concat(", got ").concat(actual.as_str())
            },
            BundleError::Archive(m) => {
                String::from_str("invalid Tela bundle archive: ").concat(m.as_str())
            },
            BundleError::Json(m) => String::from_str("invalid Tela bundle JSON: ").concat(m.as_str()),
            BundleError::Io(m) => String::from_str("Tela bundle I/O failed: ").concat(m.as_str()),
        }
    }
}

/// One content-addressed file declared inside a bundle archive.
#[derive(Clone, Debug)]
pub struct BundleEntry {
    /// Archive-relative path.
    pub path: String,
    /// SHA-256 hex digest of the uncompressed content.
    pub sha256: String,
    /// Uncompressed content length.
    pub bytes: u64,
}

/// The manifest carried in every bundle archive.
#[derive(Clone, Debug)]
pub struct BundleManifest {
    /// Bundle archive protocol version.
    pub format_version: u32,
    /// Application WASM ABI required by this bundle.
    pub app_abi: u32,
    /// Stable identifier derived from the guest module and declared resource hashes.
    pub bundle_id: String,
    /// Application module path, currently always `app.wasm`.
    pub app_entry: BundleEntry,
    /// Optional static resource entries under `assets/`.
    pub assets: Vec<BundleEntry>,
}

/// Small remote index fetched by a development SDK at application startup.
#[derive(Clone, Debug)]
pub struct DevelopmentManifest {
    /// Remote manifest protocol version.
    pub format_version: u32,
    /// Bundle content id.
    pub bundle_id: String,
    /// Relative or absolute URL to the one compressed archive.
    pub bundle_url: String,
    /// SHA-256 of the compressed archive bytes.
    pub sha256: String,
    /// Compressed archive size.
    pub bytes: u64,
    /// Required application WASM ABI.
    pub app_abi: u32,
}

/// Whether an asset path lies strictly below `assets/` (a byte prefix followed by more bytes).
pub open spec fn is_asset_path(path: Seq<char>) -> bool {
    let bytes = text_bytes(path);
    let prefix = text_bytes("assets/"@);
    &&& prefix.len() < bytes.len()
    &&& bytes.subrange(0, prefix.len() as int) == prefix
}

/// The first failed check of one manifest entry, or `None`.
pub open spec fn entry_fault(entry: BundleEntry, asset: bool) -> Option<BundleFault> {
    if asset && !is_asset_path(entry.path@) {
        Some(BundleFault::InvalidManifest("asset path must start with assets/"@))
    } else if !asset && entry.path@ != "app.wasm"@ {
        Some(BundleFault::InvalidManifest("app entry must be app.wasm"@))
    } else if !is_sha256_hex_text(entry.sha256@) {
        Some(BundleFault::InvalidManifest("invalid SHA-256 for "@ + entry.path@))
    } else {
        None
    }
}

/// The first failure among the asset entries, checked in order: each entry's own fields, then
/// that its path sorts strictly after the previous one.
pub open spec fn assets_fault(assets: Seq<BundleEntry>) -> Option<BundleFault>
    decreases assets.len(),
{
    if assets.len() == 0 {
        None
    } else {
        match assets_fault(assets.drop_last()) {
            Some(fault) => Some(fault),
            None => match entry_fault(assets.last(), true) {
                Some(fault) => Some(fault),
                None => if assets.len() >= 2 && !bytes_lex_less(
                    text_bytes(assets[assets.len() - 2].path@),
                    text_bytes(assets.last().path@),
                ) {
                    Some(
                        BundleFault::InvalidManifest(
                            "assets must have unique paths in lexical order"@,
                        ),
                    )
                } else {
                    None
                },
            },
        }
    }
}

/// `:path:sha256` for every asset, in order.
pub open spec fn assets_canonical(assets: Seq<BundleEntry>) -> Seq<char>
    decreases assets.len(),
{
    if assets.len() == 0 {
        Seq::empty()
    } else {
        assets_canonical(assets.drop_last()) + ":"@ + assets.last().path@ + ":"@
            + assets.last().sha256@
    }
}

/// The text whose SHA-256 is the bundle id: `abi:app_path:app_sha256` followed by the assets.
pub open spec fn canonical_text(manifest: BundleManifest) -> Seq<char> {
    decimal_text(manifest.app_abi as nat) + ":"@ + manifest.app_entry.path@ + ":"@
        + manifest.app_entry.sha256@ + assets_canonical(manifest.assets@)
}

/// The bundle id that the declared content determines.
pub open spec fn expected_bundle_id(manifest: BundleManifest) -> Seq<char> {
    hex_lower(sha256_digest(text_bytes(canonical_text(manifest))))
}

/// The first failed check of a bundle manifest, or `None` when it is valid.
pub open spec fn manifest_fault(manifest: BundleManifest) -> Option<BundleFault> {
    if manifest.format_version != BUNDLE_FORMAT_VERSION {
        Some(
            BundleFault::InvalidManifest(
                "unsupported format version "@ + decimal_text(manifest.format_version as nat),
            ),
        )
    } else if manifest.app_abi == 0 {
        Some(BundleFault::InvalidManifest("app_abi must be non-zero"@))
    } else if !is_sha256_hex_text(manifest.bundle_id@) {
        Some(BundleFault::InvalidManifest("bundle_id must be a SHA-256 hex digest"@))
    } else if entry_fault(manifest.app_entry, false) is Some {
        entry_fault(manifest.app_entry, false)
    } else if assets_fault(manifest.assets@) is Some {
        assets_fault(manifest.assets@)
    } else if manifest.bundle_id@ != expected_bundle_id(manifest) {
        Some(BundleFault::InvalidManifest("bundle_id does not match declared content"@))
    } else {
        None
    }
}

/// The first failed check of a development index, or `None` when it is valid.
pub open spec fn development_manifest_fault(manifest: DevelopmentManifest) -> Option<BundleFault> {
    if manifest.format_version != BUNDLE_FORMAT_VERSION {
        Some(
            BundleFault::InvalidManifest(
                "unsupported development manifest version "@ + decimal_text(
                    manifest.format_version as nat,
                ),
            ),
        )
    } else if !is_sha256_hex_text(manifest.bundle_id@) {
        Some(BundleFault::InvalidManifest("bundle_id must be a SHA-256 hex digest"@))
    } else if !is_sha256_hex_text(manifest.sha256@) {
        Some(BundleFault::InvalidManifest("sha256 must be a SHA-256 hex digest"@))
    } else if manifest.bundle_id@ != manifest.sha256@ {
        Some(BundleFault::InvalidManifest("bundle_id must equal archive sha256"@))
    } else if manifest.bundle_url@.len() == 0 {
        Some(BundleFault::InvalidManifest("bundle_url cannot be empty"@))
    } else if manifest.app_abi == 0 {
        Some(BundleFault::InvalidManifest("app_abi must be non-zero"@))
    } else {
        None
    }
}

/// The result a validation returns for a given first failure.
pub open spec fn outcome_matches(result: Result<(), BundleError>, fault: Option<BundleFault>) -> bool {
    match result {
        Ok(()) => fault is None,
        Err(error) => fault == Some(error@),
    }
}

fn invalid_manifest(message: &str) -> (error: BundleError)
    ensures
        error@ == BundleFault::InvalidManifest(message@),
{
    BundleError::InvalidManifest(String::from_str(message))
}

fn validate_entry(entry: &BundleEntry, asset: bool) -> (result: Result<(), BundleError>)
    ensures
        outcome_matches(result, entry_fault(*entry, asset)),
{
    let path = entry.path.as_str().as_bytes();
    if asset {
        let prefix = "assets/".as_bytes();
        if !bytes_start_with(path, prefix) || path.len() <= prefix.len() {
            return Err(invalid_manifest("asset path must start with assets/"));
        }
    } else {
        let expected = "app.wasm".as_bytes();
        if !bytes_equal(path, expected) {
            return Err(invalid_manifest("app entry must be app.wasm"));
        }
        proof {
            encode_utf8_decode_utf8(entry.path@);
            encode_utf8_decode_utf8("app.wasm"@);
        }
    }
    if !is_sha256_hex(entry.sha256.as_str()) {
        return Err(
            BundleError::InvalidManifest(
                String::from_str("invalid SHA-256 for ").concat(entry.path.as_str()),
            ),
        );
    }
    Ok(())
}

impl BundleManifest {
    /// Validates invariant fields before an SDK accepts the archive.
    pub fn validate(&self) -> (result: Result<(), BundleError>)
        ensures
            outcome_matches(result, manifest_fault(*self)),
    {
        if self.format_version != BUNDLE_FORMAT_VERSION {
            return Err(
                BundleError::InvalidManifest(
                    String::from_str("unsupported format version ").concat(
                        decimal_string(self.format_version).as_str(),
                    ),
                ),
            );
        }
        if self.app_abi == 0 {
            return Err(invalid_manifest("app_abi must be non-zero"));
        }
        if !is_sha256_hex(self.bundle_id.as_str()) {
            return Err(invalid_manifest("bundle_id must be a SHA-256 hex digest"));
        }
        match validate_entry(&self.app_entry, false) {
            Err(error) => return Err(error),
            Ok(()) => {},
        }
        let mut canonical = decimal_string(self.app_abi);
        canonical.append(":");
        canonical.append(self.app_entry.path.as_str());
        canonical.append(":");
        canonical.append(self.app_entry.sha256.as_str());
        let ghost head = canonical@;
        let mut i: usize = 0;
        assert(self.assets@.take(0) =~= Seq::<BundleEntry>::empty());
        while i < self.assets.len()
            invariant
                i <= self.assets@.len(),
                self.format_version == BUNDLE_FORMAT_VERSION,
                self.app_abi != 0,
                is_sha256_hex_text(self.bundle_id@),
                entry_fault(self.app_entry, false) is None,
                assets_fault(self.assets@.take(i as int)) is None,
                canonical@ == head + assets_canonical(self.assets@.take(i as int)),
                head == decimal_text(self.app_abi as nat) + ":"@ + self.app_entry.path@ + ":"@
                    + self.app_entry.sha256@,
            decreases self.assets@.len() - i,
        {
            let asset = &self.assets[i];
            let ghost taken = self.assets@.take(i as int + 1);
            assert(taken.drop_last() =~= self.assets@.take(i as int));
            assert(taken.last() == *asset);
            match validate_entry(asset, true) {
                Err(error) => {
                    proof {
                        assert(assets_fault(taken) == Some(error@));
                        lemma_assets_fault_prefix(self.assets@, i as int + 1);
                    }
                    return Err(error);
                },
                Ok(()) => {},
            }
            if i > 0 {
                let previous = &self.assets[i - 1];
                assert(taken[taken.len() - 2] == *previous);
                if !bytes_less(previous.path.as_str().as_bytes(), asset.path.as_str().as_bytes()) {
                    let error = invalid_manifest("assets must have unique paths in lexical order");
                    proof {
                        assert(assets_fault(taken) == Some(error@));
                        lemma_assets_fault_prefix(self.assets@, i as int + 1);
                    }
                    return Err(error);
                }
            }
            canonical.append(":");
            canonical.append(asset.path.as_str());
            canonical.append(":");
            canonical.append(asset.sha256.as_str());
            i = i + 1;
        }
        assert(self.assets@.take(i as int) =~= self.assets@);
        let expected = sha256_hex(canonical.as_str().as_bytes());
        if !(self.bundle_id == expected) {
            return Err(invalid_manifest("bundle_id does not match declared content"));
        }
        Ok(())
    }
}

/// A failure found in a prefix of the assets is the failure of the whole list.
proof fn lemma_assets_fault_prefix(assets: Seq<BundleEntry>, n: int)
    requires
        0 <= n <= assets.len(),
        assets_fault(assets.take(n)) is Some,
    ensures
        assets_fault(assets) == assets_fault(assets.take(n)),
    decreases assets.len() - n,
{
    if n < assets.len() {
        let longer = assets.take(n + 1);
        assert(longer.drop_last() =~= assets.take(n));
        lemma_assets_fault_prefix(assets, n + 1);
    } else {
        assert(assets.take(n) =~= assets);
    }
}

/// Every asset entry is well formed and the paths strictly increase in byte order.
pub open spec fn assets_are_valid(assets: Seq<BundleEntry>) -> bool {
    &&& forall|i: int|
        0 <= i < assets.len() ==> is_asset_path(#[trigger] assets[i].path@) && is_sha256_hex_text(
            assets[i].sha256@,
        )
    &&& forall|i: int|
        1 <= i < assets.len() ==> bytes_lex_less(
            text_bytes(assets[i - 1].path@),
            text_bytes(#[trigger] assets[i].path@),
        )
}

/// A bundle manifest an SDK may accept: the supported format, a non-zero ABI, `app.wasm` as the
/// application entry, sorted `assets/` entries, well-formed digests, and a bundle id equal to
/// the digest of the declared content.
pub open spec fn manifest_is_valid(manifest: BundleManifest) -> bool {
    &&& manifest.format_version == BUNDLE_FORMAT_VERSION
    &&& manifest.app_abi != 0
    &&& is_sha256_hex_text(manifest.bundle_id@)
    &&& manifest.app_entry.path@ == "app.wasm"@
    &&& is_sha256_hex_text(manifest.app_entry.sha256@)
    &&& assets_are_valid(manifest.assets@)
    &&& manifest.bundle_id@ == expected_bundle_id(manifest)
}

proof fn lemma_assets_fault_none(assets: Seq<BundleEntry>)
    ensures
        assets_fault(assets) is None <==> assets_are_valid(assets),
    decreases assets.len(),
{
    if assets.len() > 0 {
        let init = assets.drop_last();
        lemma_assets_fault_none(init);
        if assets_are_valid(assets) {
            assert forall|i: int|
                0 <= i < init.len() implies is_asset_path(#[trigger] init[i].path@)
                && is_sha256_hex_text(init[i].sha256@) by {
                assert(init[i] == assets[i]);
            }
            assert forall|i: int|
                1 <= i < init.len() implies bytes_lex_less(
                text_bytes(init[i - 1].path@),
                text_bytes(#[trigger] init[i].path@),
            ) by {
                assert(init[i] == assets[i]);
                assert(init[i - 1] == assets[i - 1]);
            }
            let last = assets.len() - 1;
            assert(is_asset_path(assets[last].path@));
            if assets.len() >= 2 {
                assert(bytes_lex_less(
                    text_bytes(assets[last - 1].path@),
                    text_bytes(assets[last].path@),
                ));
            }
        }
        if assets_fault(assets) is None {
            assert forall|i: int|
                0 <= i < assets.len() implies is_asset_path(#[trigger] assets[i].path@)
                && is_sha256_hex_text(assets[i].sha256@) by {
                if i < init.len() {
                    assert(init[i] == assets[i]);
                }
            }
            assert forall|i: int|
                1 <= i < assets.len() implies bytes_lex_less(
                text_bytes(assets[i - 1].path@),
                text_bytes(#[trigger] assets[i].path@),
            ) by {
                if i < init.len() {
                    assert(init[i] == assets[i]);
                    assert(init[i - 1] == assets[i - 1]);
                }
            }
        }
    }
}

/// Validation succeeds exactly on the manifests described by [`manifest_is_valid`].
pub proof fn lemma_manifest_validity(manifest: BundleManifest)
    ensures
        manifest_fault(manifest) is None <==> manifest_is_valid(manifest),
{
    lemma_assets_fault_none(manifest.assets@);
}

impl DevelopmentManifest {
    /// Validates an index before an SDK sends the archive request.
    pub fn validate(&self) -> (result: Result<(), BundleError>)
        ensures
            outcome_matches(result, development_manifest_fault(*self)),
    {
        if self.format_version != BUNDLE_FORMAT_VERSION {
            return Err(
                BundleError::InvalidManifest(
                    String::from_str("unsupported development manifest version ").concat(
                        decimal_string(self.format_version).as_str(),
                    ),
                ),
            );
        }
        if !is_sha256_hex(self.bundle_id.as_str()) {
            return Err(invalid_manifest("bundle_id must be a SHA-256 hex digest"));
        }
        if !is_sha256_hex(self.sha256.as_str()) {
            return Err(invalid_manifest("sha256 must be a SHA-256 hex digest"));
        }
        if !(self.bundle_id == self.sha256) {
            return Err(invalid_manifest("bundle_id must equal archive sha256"));
        }
        if self.bundle_url.as_str().is_empty() {
            return Err(invalid_manifest("bundle_url cannot be empty"));
        }
        if self.app_abi == 0 {
            return Err(invalid_manifest("app_abi must be non-zero"));
        }
        Ok(())
    }
}

} // verus!
