use oido::updater::backend::{
    InstallerBackend, LinuxAppImageBackend, MacosPkgBackend, WindowsMsiBackend,
};
use oido::updater::error::UpdateError;
use oido::updater::github::{
    check_for_update, find_asset_suffix, split_repo, Release, ReleaseAsset, BIN_NAME, REPO,
};
use oido::updater::scheduler::{check_result_to_event, should_check_now};
use oido::updater::status::{CheckResult, UpdateEvent};
use oido::updater::verify::{verify_minisign, verify_sha256};

#[test]
fn repo_well_formed() {
    assert!(REPO.contains('/'), "REPO debe ser owner/repo");
    let (owner, repo) = split_repo(REPO).unwrap();
    assert!(!owner.is_empty());
    assert!(!repo.is_empty());
}

#[test]
fn bin_name_is_oido() {
    assert_eq!(BIN_NAME, "oido");
}

fn has_update(current: &str, latest: &str) -> bool {
    check_for_update(current, Ok(latest.into())).unwrap().has_update
}

#[test]
fn version_equal_no_update() {
    assert!(!has_update("0.1.0", "0.1.0"));
}

#[test]
fn version_patch_update() {
    assert!(has_update("0.1.0", "0.1.1"));
}

#[test]
fn version_minor_update() {
    assert!(has_update("0.1.0", "0.2.0"));
}

#[test]
fn version_major_update() {
    assert!(has_update("0.1.0", "1.0.0"));
}

#[test]
fn github_releases_url_is_documented() {
    let (owner, repo) = split_repo(REPO).unwrap();
    let url = format!("https://api.github.com/repos/{owner}/{repo}/releases/latest");
    assert_eq!(
        url,
        "https://api.github.com/repos/Santirrini/oido-rs/releases/latest"
    );
}

fn asset(name: &str, download_url: &str) -> ReleaseAsset {
    ReleaseAsset {
        name: name.into(),
        download_url: download_url.into(),
    }
}

#[test]
fn find_asset_suffix_missing_returns_error() {
    let release = Release {
        version: "0.2.0".into(),
        assets: vec![asset("oido-0.2.0.msi", "https://x/oido-0.2.0.msi")],
    };
    let err = find_asset_suffix(&release, ".minisig").unwrap_err();
    assert!(matches!(err, UpdateError::AssetNotFound { .. }));
}

#[test]
fn find_asset_suffix_present_returns_asset() {
    let release = Release {
        version: "0.2.0".into(),
        assets: vec![
            asset("oido-0.2.0.msi", "https://x/oido-0.2.0.msi"),
            asset("oido-0.2.0.msi.sha256", "https://x/oido-0.2.0.msi.sha256"),
        ],
    };
    let found = find_asset_suffix(&release, ".sha256").expect("sha256 debe estar");
    assert_eq!(found.name, "oido-0.2.0.msi.sha256");
    assert_eq!(found.download_url, "https://x/oido-0.2.0.msi.sha256");
}

#[test]
fn should_check_now_first_run() {
    assert!(should_check_now(1_000_000, None, 24));
}

#[test]
fn should_check_now_within_interval() {
    assert!(!should_check_now(1_000_000 + 3600, Some(1_000_000), 24));
}

#[test]
fn should_check_now_past_interval() {
    assert!(should_check_now(1_000_000 + 25 * 3600, Some(1_000_000), 24));
}

#[test]
fn check_to_event_up_to_date() {
    let check = CheckResult {
        current: "0.1.0".into(),
        latest: "0.1.0".into(),
        has_update: false,
    };
    assert_eq!(check_result_to_event(&check, None), UpdateEvent::UpToDate);
}

#[test]
fn check_to_event_skipped() {
    let check = CheckResult {
        current: "0.1.0".into(),
        latest: "0.2.0".into(),
        has_update: true,
    };
    let ev = check_result_to_event(&check, Some("0.2.0"));
    assert!(matches!(ev, UpdateEvent::Skipped { .. }));
}

#[test]
fn check_to_event_available() {
    let check = CheckResult {
        current: "0.1.0".into(),
        latest: "0.2.0".into(),
        has_update: true,
    };
    let ev = check_result_to_event(&check, None);
    assert!(matches!(ev, UpdateEvent::UpdateAvailable { .. }));
}

#[test]
fn sha256_match_ok() {
    let sidecar = "b94d27b9934d3e08a52e52d7da7dabfac484efe37a5380ee9088f7ace2efcde9  a.bin\n";
    verify_sha256(
        "a.sha256",
        Ok(sidecar.into()),
        Ok(b"hello world".to_vec()),
    )
    .expect("match esperado");
}

#[test]
fn sha256_mismatch() {
    let sidecar = "0000000000000000000000000000000000000000000000000000000000000000  a.bin\n";
    let err = verify_sha256(
        "a.sha256",
        Ok(sidecar.into()),
        Ok(b"hello world".to_vec()),
    )
    .unwrap_err();
    assert!(matches!(err, UpdateError::ChecksumMismatch { .. }));
}

#[test]
fn sha256_malformed_sidecar() {
    let err = verify_sha256("a.sha256", Ok("\n".into()), Ok(b"hello world".to_vec())).unwrap_err();
    assert!(matches!(err, UpdateError::Other(_)));
}

#[test]
fn minisign_missing_sidecar_is_signature_invalid() {
    let key = "RWQf6LRCGA9i53mlYecO4IzT51TGPpvWucNSCh1CBM0QTaLn73Y7GFO3";
    let err = verify_minisign(key, "a.minisig", None, Ok(b"x".to_vec())).unwrap_err();
    assert!(
        matches!(
            err,
            UpdateError::SignatureInvalid { .. } | UpdateError::Other(_)
        ),
        "esperaba SignatureInvalid u Other, obtuve {err:?}"
    );
}

#[test]
fn windows_backend_metadata() {
    let b = WindowsMsiBackend::new();
    assert_eq!(b.name(), "windows-msi");
    assert_eq!(b.asset_suffix(), ".msi");
    assert!(b.requires_signature());
}

#[test]
fn macos_stub_rejects_install() {
    let b = MacosPkgBackend;
    let err = b.install("/tmp/oido-0.1.0.pkg").unwrap_err();
    assert!(matches!(err, UpdateError::UnsupportedPlatform("macos")));
}

#[test]
fn linux_stub_rejects_install() {
    let b = LinuxAppImageBackend;
    let err = b.install("/tmp/oido-0.1.0.AppImage").unwrap_err();
    assert!(matches!(err, UpdateError::UnsupportedPlatform("linux")));
}
