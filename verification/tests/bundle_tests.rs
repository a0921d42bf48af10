use tela::bundle::{BundleEntry, BundleError, BundleManifest, DevelopmentManifest, BUNDLE_FORMAT_VERSION};
use tela::digest::sha256_hex;

fn entry(path: &str, content: &[u8]) -> BundleEntry {
    BundleEntry { path: path.to_owned(), sha256: sha256_hex(content), bytes: content.len() as u64 }
}

fn manifest_for(app_abi: u32, app: BundleEntry, assets: Vec<BundleEntry>) -> BundleManifest {
    let mut canonical = format!("{}:{}:{}", app_abi, app.path, app.sha256);
    for asset in &assets {
        canonical.push_str(&format!(":{}:{}", asset.path, asset.sha256));
    }
    BundleManifest {
        format_version: BUNDLE_FORMAT_VERSION,
        app_abi,
        bundle_id: sha256_hex(canonical.as_bytes()),
        app_entry: app,
        assets,
    }
}

fn invalid_manifest(message: &str) -> Result<(), String> {
    Err(BundleError::InvalidManifest(message.to_owned()).message())
}

fn outcome(result: Result<(), BundleError>) -> Result<(), String> {
    result.map_err(|error| error.message())
}

#[test]
fn sha256_hex_is_the_lowercase_digest() {
    assert_eq!(
        sha256_hex(b"abc"),
        "ba7816bf8f01cfea414140de5dae2223b00361a396177a9cb410ff61f20015ad"
    );
    assert_eq!(
        sha256_hex(b""),
        "e3b0c44298fc1c149afbf4c8996fb92427ae41e4649b934ca495991b7852b855"
    );
}

#[test]
fn a_consistent_manifest_validates() {
    let manifest = manifest_for(
        1,
        entry("app.wasm", b"guest"),
        vec![entry("assets/a.png", b"a"), entry("assets/b.png", b"b")],
    );
    assert_eq!(outcome(manifest.validate()), Ok(()));
}

#[test]
fn each_manifest_rule_has_its_error() {
    let good = manifest_for(1, entry("app.wasm", b"guest"), vec![entry("assets/a", b"a")]);

    let mut wrong_version = good.clone();
    wrong_version.format_version = 7;
    assert_eq!(outcome(wrong_version.validate()), invalid_manifest("unsupported format version 7"));

    let zero_abi = manifest_for(0, entry("app.wasm", b"guest"), Vec::new());
    assert_eq!(outcome(zero_abi.validate()), invalid_manifest("app_abi must be non-zero"));

    let mut short_id = good.clone();
    short_id.bundle_id = "abc".to_owned();
    assert_eq!(outcome(short_id.validate()), invalid_manifest("bundle_id must be a SHA-256 hex digest"));

    let wrong_entry = manifest_for(1, entry("main.wasm", b"guest"), Vec::new());
    assert_eq!(outcome(wrong_entry.validate()), invalid_manifest("app entry must be app.wasm"));

    let outside = manifest_for(1, entry("app.wasm", b"guest"), vec![entry("images/a", b"a")]);
    assert_eq!(outcome(outside.validate()), invalid_manifest("asset path must start with assets/"));

    let bare_prefix = manifest_for(1, entry("app.wasm", b"guest"), vec![entry("assets/", b"a")]);
    assert_eq!(outcome(bare_prefix.validate()), invalid_manifest("asset path must start with assets/"));

    let unordered = manifest_for(
        1,
        entry("app.wasm", b"guest"),
        vec![entry("assets/b", b"b"), entry("assets/a", b"a")],
    );
    assert_eq!(
        outcome(unordered.validate()),
        invalid_manifest("assets must have unique paths in lexical order")
    );

    let mut bad_hash = good.clone();
    bad_hash.assets[0].sha256 = "zz".to_owned();
    assert_eq!(outcome(bad_hash.validate()), invalid_manifest("invalid SHA-256 for assets/a"));

    let mut tampered = good.clone();
    tampered.app_entry.sha256 = sha256_hex(b"other");
    assert_eq!(
        outcome(tampered.validate()),
        invalid_manifest("bundle_id does not match declared content")
    );
}

fn development_manifest() -> DevelopmentManifest {
    let archive = sha256_hex(b"archive");
    DevelopmentManifest {
        format_version: BUNDLE_FORMAT_VERSION,
        bundle_id: archive.clone(),
        bundle_url: "/tela-dev/app.tela".to_owned(),
        sha256: archive,
        bytes: 7,
        app_abi: 1,
    }
}

#[test]
fn development_manifest_rules() {
    assert_eq!(outcome(development_manifest().validate()), Ok(()));

    let mut version = development_manifest();
    version.format_version = 2;
    assert_eq!(
        outcome(version.validate()),
        invalid_manifest("unsupported development manifest version 2")
    );

    let mut id = development_manifest();
    id.bundle_id = sha256_hex(b"other");
    assert_eq!(outcome(id.validate()), invalid_manifest("bundle_id must equal archive sha256"));

    let mut url = development_manifest();
    url.bundle_url = String::new();
    assert_eq!(outcome(url.validate()), invalid_manifest("bundle_url cannot be empty"));

    let mut abi = development_manifest();
    abi.app_abi = 0;
    assert_eq!(outcome(abi.validate()), invalid_manifest("app_abi must be non-zero"));

    let mut digest = development_manifest();
    digest.sha256 = "G".repeat(64);
    assert_eq!(outcome(digest.validate()), invalid_manifest("sha256 must be a SHA-256 hex digest"));
}

#[test]
fn error_messages_name_the_failure() {
    let error = BundleError::ChecksumMismatch {
        name: "app.wasm".to_owned(),
        expected: "aa".to_owned(),
        actual: "bb".to_owned(),
    };
    assert_eq!(error.message(), "checksum mismatch for app.wasm: expected aa, got bb");
    assert_eq!(BundleError::MissingEntry("x".to_owned()).message(), "Tela bundle is missing required entry: x");
}
