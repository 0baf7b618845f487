use oido::updater::apply::{check_and_apply, ApplyAction, ApplyEvent, ApplyRun, Phase};
use oido::updater::backend::{
    launched, InstallCommand, InstallOutcome, InstallerBackend, LinuxAppImageBackend,
    MacosPkgBackend, WindowsMsiBackend,
};
use oido::updater::error::UpdateError;
use oido::updater::github::{
    check_for_update, check_result, check_status, find_asset_suffix, split_repo, Release,
    ReleaseAsset,
};
use oido::updater::scheduler::{
    applied_event, conclude_check, emit_one_shot_check, maybe_check, should_check_now,
    should_emit_error, OneShot, UpdateConfig,
};
use oido::updater::status::{CheckResult, Status, UpdateEvent};
use oido::updater::verify::{
    compare_digests, digest_text, judge_key, judge_signature, looks_like_sha256, verify_minisign,
    verify_sha256, word_of,
};

const EMPTY_DIGEST: &str = "e3b0c44298fc1c149afbf4c8996fb92427ae41e4649b934ca495991b7852b855";
const ABC_DIGEST: &str = "ba7816bf8f01cfea414140de5dae2223b00361a396177a9cb410ff61f20015ad";

const KEY: &str = "untrusted comment: minisign public key E7620F1842B4E81F\n\
    RWQf6LRCGA9i53mlYecO4IzT51TGPpvWucNSCh1CBM0QTaLn73Y7GFO3";

const SIGNATURE: &str = "untrusted comment: signature from minisign secret key\n\
    RUQf6LRCGA9i559r3g7V1qNyJDApGip8MfqcadIgT9CuhV3EMhHoN1mGTkUidF/z7SrlQgXdy8ofjb7bNJJylDOocrCo8KLzZwo=\n\
    trusted comment: timestamp:1633700835\tfile:test\tprehashed\n\
    wLMDjy9FLAuxZ3q4NlEvkgtyhrr0gtTu6KC4KBJdITbbOeAi1zBIYo0v4iTgt8jJpIidRJnp94ABQkJAgAooBQ==";

fn text(s: &str) -> Result<String, String> {
    Ok(s.to_string())
}

fn bytes(s: &str) -> Result<Vec<u8>, String> {
    Ok(s.as_bytes().to_vec())
}

fn checked(current: &str, latest: &str, has_update: bool) -> CheckResult {
    CheckResult {
        current: current.to_string(),
        latest: latest.to_string(),
        has_update,
    }
}

fn settings(last_check: Option<i64>, skipped: Option<&str>) -> UpdateConfig {
    UpdateConfig {
        auto_update: true,
        check_interval_hours: 24,
        skipped_version: skipped.map(str::to_string),
        last_check,
    }
}

#[test]
fn a_digest_is_written_in_lower_case() {
    assert_eq!(digest_text(b""), EMPTY_DIGEST);
    assert_eq!(digest_text(b"abc"), ABC_DIGEST);
    assert!(looks_like_sha256(&digest_text(b"oido")));
}

#[test]
fn a_file_passes_with_its_own_digest_in_any_case() {
    assert_eq!(verify_sha256("a.sha256", text(ABC_DIGEST), bytes("abc")), Ok(()));
    let upper = format!("  {}  oido.msi\n", ABC_DIGEST.to_uppercase());
    assert_eq!(verify_sha256("a.sha256", Ok(upper), bytes("abc")), Ok(()));
}

#[test]
fn a_changed_file_is_refused() {
    assert_eq!(
        verify_sha256("a.sha256", text(ABC_DIGEST), bytes("")),
        Err(UpdateError::ChecksumMismatch {
            expected: ABC_DIGEST.to_string(),
            actual: EMPTY_DIGEST.to_string(),
        })
    );
}

#[test]
fn each_fault_of_a_checksum_is_told_apart() {
    assert_eq!(
        verify_sha256("a.sha256", Err("gone".to_string()), bytes("abc")),
        Err(UpdateError::Io("gone".to_string()))
    );
    assert_eq!(
        verify_sha256("a.sha256", text(" \n\t"), bytes("abc")),
        Err(UpdateError::Other("sidecar SHA-256 vacío o malformado: a.sha256".to_string()))
    );
    assert_eq!(
        verify_sha256("a.sha256", text("NOPE rest"), bytes("abc")),
        Err(UpdateError::Other("SHA-256 con formato inválido en sidecar: 'nope'".to_string()))
    );
    assert_eq!(
        verify_sha256("a.sha256", text("NOPE rest"), Err("gone".to_string())),
        Err(UpdateError::Other("SHA-256 con formato inválido en sidecar: 'nope'".to_string()))
    );
    assert_eq!(
        verify_sha256("a.sha256", text(ABC_DIGEST), Err("gone".to_string())),
        Err(UpdateError::Io("gone".to_string()))
    );
}

#[test]
fn a_digest_has_64_hexadecimal_digits() {
    assert!(looks_like_sha256(ABC_DIGEST));
    assert!(looks_like_sha256(&"F".repeat(64)));
    assert!(!looks_like_sha256(&"f".repeat(63)));
    assert!(!looks_like_sha256(&"f".repeat(65)));
    assert!(!looks_like_sha256(&"g".repeat(64)));
    assert!(compare_digests(ABC_DIGEST.to_string(), ABC_DIGEST.to_string()).is_ok());
}

#[test]
fn the_first_word_stands_between_white_space() {
    assert_eq!(word_of("  uno\tdos "), Some("uno".to_string()));
    assert_eq!(word_of("uno"), Some("uno".to_string()));
    assert_eq!(word_of("\u{3000}\n"), None);
    assert_eq!(word_of(""), None);
}

#[test]
fn a_valid_signature_passes() {
    let key = format!("\n{KEY}\n  ");
    assert_eq!(
        verify_minisign(&key, "a.minisig", Some(SIGNATURE.to_string()), bytes("test")),
        Ok(())
    );
}

#[test]
fn the_signature_of_other_data_is_refused() {
    let r = verify_minisign(KEY, "a.minisig", Some(SIGNATURE.to_string()), bytes("Test"));
    match r {
        Err(UpdateError::SignatureInvalid { detail }) => {
            assert!(detail.starts_with("verificación Ed25519 falló: "), "{detail}");
        }
        other => panic!("{other:?}"),
    }
}

#[test]
fn each_fault_of_a_signature_is_told_apart() {
    match verify_minisign("no key", "a.minisig", None, bytes("test")) {
        Err(UpdateError::Other(e)) => {
            assert!(e.starts_with("PUBLIC_KEY embebida malformada: "), "{e}")
        }
        other => panic!("{other:?}"),
    }
    assert_eq!(
        verify_minisign(KEY, "a.minisig", None, bytes("test")),
        Err(UpdateError::SignatureInvalid {
            detail: "sidecar .minisig ausente: a.minisig".to_string()
        })
    );
    match verify_minisign(KEY, "a.minisig", Some("nada".to_string()), bytes("test")) {
        Err(UpdateError::SignatureInvalid { detail }) => {
            assert!(detail.starts_with("sidecar .minisig malformado: "), "{detail}")
        }
        other => panic!("{other:?}"),
    }
    assert_eq!(
        verify_minisign(KEY, "a.minisig", Some(SIGNATURE.to_string()), Err("gone".to_string())),
        Err(UpdateError::SignatureInvalid {
            detail: "no se pudo leer asset para verificar: gone".to_string()
        })
    );
}

#[test]
fn a_complaint_becomes_an_error() {
    assert_eq!(judge_key(None), Ok(()));
    assert_eq!(
        judge_key(Some("x".to_string())),
        Err(UpdateError::Other("PUBLIC_KEY embebida malformada: x".to_string()))
    );
    assert_eq!(judge_signature("a: ", None), Ok(()));
    assert_eq!(
        judge_signature("a: ", Some("x".to_string())),
        Err(UpdateError::SignatureInvalid { detail: "a: x".to_string() })
    );
}

#[test]
fn a_repository_has_an_owner() {
    assert_eq!(
        split_repo("a/b/c").unwrap(),
        ("a".to_string(), "b/c".to_string())
    );
    assert_eq!(
        split_repo("nada"),
        Err(UpdateError::Config("REPO inválido (esperado owner/repo): nada".to_string()))
    );
}

#[test]
fn versions_that_cannot_be_compared_give_no_update() {
    let found = check_for_update("0.1.0", text("next").map_err(UpdateError::Other)).unwrap();
    assert_eq!(found, checked("0.1.0", "next", false));
    let older = check_for_update("0.2.0", Ok("0.1.9".to_string())).unwrap();
    assert!(!older.has_update);
    assert!(!check_for_update("1.0.0", Ok("1.0.0-rc.1".to_string())).unwrap().has_update);
    assert!(check_for_update("1.0.0-rc.1", Ok("1.0.0".to_string())).unwrap().has_update);
    assert_eq!(check_result("1", "2".to_string(), None), checked("1", "2", false));
    assert_eq!(check_result("1", "2".to_string(), Some(true)), checked("1", "2", true));
}

#[test]
fn a_failed_look_up_is_the_result_of_the_check() {
    assert_eq!(
        check_for_update("0.1.0", Err(UpdateError::SelfUpdate("x".to_string()))),
        Err(UpdateError::SelfUpdate("x".to_string()))
    );
}

fn asset(name: &str) -> ReleaseAsset {
    ReleaseAsset {
        name: name.to_string(),
        download_url: format!("https://example.org/{name}"),
    }
}

fn release(names: &[&str]) -> Release {
    Release {
        version: "0.2.0".to_string(),
        assets: names.iter().map(|n| asset(n)).collect(),
    }
}

#[test]
fn the_first_asset_with_the_ending_is_found() {
    let r = release(&["b.txt", "a.msi", "b.msi"]);
    assert_eq!(find_asset_suffix(&r, ".msi").unwrap().name, "a.msi");
}

#[test]
fn the_installers_say_what_they_take() {
    let windows = WindowsMsiBackend::default();
    assert_eq!(
        windows.install("C:\\oido.msi"),
        Ok(InstallCommand {
            program: "msiexec".to_string(),
            args: ["/i", "C:\\oido.msi", "/qb", "/norestart"]
                .iter()
                .map(|s| s.to_string())
                .collect(),
        })
    );
    assert_eq!(MacosPkgBackend.asset_suffix(), ".pkg");
    assert_eq!(LinuxAppImageBackend.asset_suffix(), ".AppImage");
    assert_eq!(LinuxAppImageBackend.name(), "linux-appimage");
    assert!(MacosPkgBackend.requires_signature());
    assert_eq!(launched(Ok(())), Ok(InstallOutcome::RequiresRestart));
    assert_eq!(
        launched(Err("no".to_string())),
        Err(UpdateError::InstallFailed { detail: "spawn msiexec: no".to_string() })
    );
}

fn to_signature() -> ApplyRun {
    check_and_apply(&WindowsMsiBackend::new(), KEY)
        .step(ApplyEvent::Checked(Ok(checked("0.1.0", "0.2.0", true))))
        .step(ApplyEvent::Fetched(Ok(release(&["a.msi", "a.msi.sha256", "a.msi.minisig"]))))
        .step(ApplyEvent::Downloaded(Ok(())))
        .step(ApplyEvent::Downloaded(Ok(())))
        .step(ApplyEvent::ChecksumRead {
            sha_path: "x".to_string(),
            sidecar: Ok(digest_text(b"test")),
            asset: bytes("test"),
        })
}

#[test]
fn a_signed_update_is_installed() {
    let run = check_and_apply(&WindowsMsiBackend::new(), KEY);
    assert_eq!(run.action(), ApplyAction::CheckForUpdate);
    let run = run.step(ApplyEvent::Checked(Ok(checked("0.1.0", "0.2.0", true))));
    assert_eq!(run.action(), ApplyAction::FetchRelease);
    let run = run.step(ApplyEvent::Fetched(Ok(release(&[
        "a.msi",
        "a.msi.sha256",
        "a.msi.minisig",
    ]))));
    assert_eq!(
        run.action(),
        ApplyAction::Download {
            url: "https://example.org/a.msi".to_string(),
            file: "oido-0.2.0.msi".to_string(),
        }
    );
    let run = run.step(ApplyEvent::Downloaded(Ok(())));
    assert_eq!(
        run.action(),
        ApplyAction::Download {
            url: "https://example.org/a.msi.sha256".to_string(),
            file: "oido-0.2.0.msi.sha256".to_string(),
        }
    );
    let run = run.step(ApplyEvent::Downloaded(Ok(())));
    assert_eq!(
        run.action(),
        ApplyAction::ReadChecksum {
            asset_file: "oido-0.2.0.msi".to_string(),
            sha_file: "oido-0.2.0.msi.sha256".to_string(),
        }
    );
    let run = to_signature();
    assert_eq!(
        run.action(),
        ApplyAction::Download {
            url: "https://example.org/a.msi.minisig".to_string(),
            file: "oido-0.2.0.msi.minisig".to_string(),
        }
    );
    let run = run.step(ApplyEvent::Downloaded(Ok(())));
    assert_eq!(
        run.action(),
        ApplyAction::ReadSignature {
            asset_file: "oido-0.2.0.msi".to_string(),
            sig_file: "oido-0.2.0.msi.minisig".to_string(),
        }
    );
    let run = run.step(ApplyEvent::SignatureRead {
        sig_path: "y".to_string(),
        signature: Some(SIGNATURE.to_string()),
        asset: bytes("test"),
    });
    assert_eq!(
        run.action(),
        ApplyAction::Install { asset_file: "oido-0.2.0.msi".to_string() }
    );
    let run = run.step(ApplyEvent::Installed(Ok(InstallOutcome::RequiresRestart)));
    assert_eq!(run.action(), ApplyAction::Finish);
    let run = run.step(ApplyEvent::Checked(Err(UpdateError::Network("x".to_string()))));
    assert_eq!(
        run.outcome(),
        Some(Ok(Status::DownloadedAndInstalling { version: "0.2.0".to_string() }))
    );
}

#[test]
fn a_wrong_signature_ends_the_run() {
    let run = to_signature().step(ApplyEvent::Downloaded(Ok(()))).step(
        ApplyEvent::SignatureRead {
            sig_path: "y".to_string(),
            signature: Some(SIGNATURE.to_string()),
            asset: bytes("changed"),
        },
    );
    assert!(matches!(
        run.outcome(),
        Some(Err(UpdateError::SignatureInvalid { .. }))
    ));
}

#[test]
fn a_release_without_signature_is_refused() {
    let run = check_and_apply(&WindowsMsiBackend::new(), KEY)
        .step(ApplyEvent::Checked(Ok(checked("0.1.0", "0.2.0", true))))
        .step(ApplyEvent::Fetched(Ok(release(&["a.msi", "a.msi.sha256"]))))
        .step(ApplyEvent::Downloaded(Ok(())))
        .step(ApplyEvent::Downloaded(Ok(())))
        .step(ApplyEvent::ChecksumRead {
            sha_path: "x".to_string(),
            sidecar: Ok(digest_text(b"test")),
            asset: bytes("test"),
        });
    assert_eq!(
        run.outcome(),
        Some(Err(UpdateError::SignatureInvalid {
            detail: "backend windows-msi requiere firma pero release no tiene .minisig"
                .to_string()
        }))
    );
}

#[test]
fn a_run_fails_with_its_first_error() {
    let start = || check_and_apply(&WindowsMsiBackend::new(), KEY);
    assert_eq!(
        start().step(ApplyEvent::Checked(Ok(checked("0.1.0", "0.1.0", false)))).outcome(),
        Some(Ok(Status::UpToDate))
    );
    assert_eq!(
        start().step(ApplyEvent::Checked(Err(UpdateError::Io("x".to_string())))).outcome(),
        Some(Err(UpdateError::Io("x".to_string())))
    );
    let fetching =
        || start().step(ApplyEvent::Checked(Ok(checked("0.1.0", "0.2.0", true))));
    assert_eq!(
        fetching().step(ApplyEvent::Fetched(Ok(release(&["a.msi"])))).outcome(),
        Some(Err(UpdateError::AssetNotFound {
            version: "0.2.0".to_string(),
            suffix: ".sha256"
        }))
    );
    assert_eq!(
        fetching().step(ApplyEvent::Fetched(Ok(release(&["a.sha256"])))).outcome(),
        Some(Err(UpdateError::AssetNotFound { version: "0.2.0".to_string(), suffix: ".msi" }))
    );
    let loading =
        fetching().step(ApplyEvent::Fetched(Ok(release(&["a.msi", "a.sha256"]))));
    assert_eq!(
        loading
            .step(ApplyEvent::Downloaded(Err(UpdateError::DownloadFailed { status: 404 })))
            .outcome(),
        Some(Err(UpdateError::DownloadFailed { status: 404 }))
    );
    assert_eq!(start().outcome(), None);
    assert_eq!(start().step(ApplyEvent::Downloaded(Ok(()))).phase, Phase::Checking);
}

#[test]
fn a_release_without_signature_is_installed_where_none_is_required() {
    let mut run = check_and_apply(&WindowsMsiBackend::new(), KEY);
    run.requires_signature = false;
    let run = run
        .step(ApplyEvent::Checked(Ok(checked("0.1.0", "0.2.0", true))))
        .step(ApplyEvent::Fetched(Ok(release(&["a.msi", "a.msi.sha256"]))))
        .step(ApplyEvent::Downloaded(Ok(())))
        .step(ApplyEvent::Downloaded(Ok(())))
        .step(ApplyEvent::ChecksumRead {
            sha_path: "x".to_string(),
            sidecar: Ok(digest_text(b"test")),
            asset: bytes("test"),
        });
    assert_eq!(
        run.action(),
        ApplyAction::Install { asset_file: "oido-0.2.0.msi".to_string() }
    );
}

#[test]
fn a_signature_that_cannot_be_downloaded_counts_where_it_is_required() {
    let failed = || ApplyEvent::Downloaded(Err(UpdateError::DownloadFailed { status: 500 }));
    let run = to_signature().step(failed());
    assert_eq!(run.action(), ApplyAction::Finish);
    assert_eq!(run.outcome(), Some(Err(UpdateError::DownloadFailed { status: 500 })));
    let mut run = to_signature();
    run.requires_signature = false;
    assert_eq!(
        run.step(failed()).action(),
        ApplyAction::Install { asset_file: "oido-0.2.0.msi".to_string() }
    );
}

#[test]
fn an_optional_signature_that_is_wrong_ends_the_run() {
    let mut run = to_signature();
    run.requires_signature = false;
    let run = run.step(ApplyEvent::Downloaded(Ok(()))).step(ApplyEvent::SignatureRead {
        sig_path: "y".to_string(),
        signature: Some(SIGNATURE.to_string()),
        asset: bytes("changed"),
    });
    assert_eq!(run.action(), ApplyAction::Finish);
    assert!(matches!(
        run.outcome(),
        Some(Err(UpdateError::SignatureInvalid { .. }))
    ));
}

#[test]
fn an_optional_signature_that_is_right_lets_the_file_be_installed() {
    let mut run = to_signature();
    run.requires_signature = false;
    let run = run.step(ApplyEvent::Downloaded(Ok(()))).step(ApplyEvent::SignatureRead {
        sig_path: "y".to_string(),
        signature: Some(SIGNATURE.to_string()),
        asset: bytes("test"),
    });
    assert_eq!(
        run.action(),
        ApplyAction::Install { asset_file: "oido-0.2.0.msi".to_string() }
    );
}

#[test]
fn a_check_is_due_after_the_interval() {
    assert!(should_check_now(7200, Some(3600), 1));
    assert!(!should_check_now(7199, Some(3600), 1));
    assert!(should_check_now(i64::MAX, Some(i64::MIN), u32::MAX));
    assert!(!should_check_now(i64::MIN, Some(i64::MAX), 0));
    assert!(maybe_check(&settings(None, None), 0));
    let mut off = settings(None, None);
    off.auto_update = false;
    assert!(!maybe_check(&off, i64::MAX));
}

#[test]
fn a_check_keeps_its_time_unless_it_is_skipped() {
    let mut s = settings(None, Some("0.3.0"));
    let event = conclude_check(&mut s, 100, Ok(checked("0.1.0", "0.3.0", true)));
    assert_eq!(event, UpdateEvent::Skipped { version: "0.3.0".to_string() });
    assert_eq!(s.last_check, None);

    let event = conclude_check(&mut s, 100, Ok(checked("0.1.0", "0.2.0", true)));
    assert_eq!(
        event,
        UpdateEvent::UpdateAvailable {
            version: "0.2.0".to_string(),
            current: "0.1.0".to_string()
        }
    );
    assert_eq!(s.last_check, Some(100));
    assert!(!maybe_check(&s, 100 + 24 * 3600 - 1));
    assert!(maybe_check(&s, 100 + 24 * 3600));

    let event = conclude_check(&mut s, 300, Err(UpdateError::Network("x".to_string())));
    assert_eq!(event, UpdateEvent::Failed { reason: "Sin conexión a internet".to_string() });
    assert_eq!(s.last_check, Some(300));
}

#[test]
fn a_check_on_demand_reports_or_installs() {
    assert_eq!(
        emit_one_shot_check(Ok(checked("1.0.0", "1.0.0", false)), true),
        OneShot::Report(UpdateEvent::UpToDate)
    );
    assert_eq!(
        emit_one_shot_check(Ok(checked("1.0.0", "2.0.0", true)), false),
        OneShot::Report(UpdateEvent::UpdateAvailable {
            version: "2.0.0".to_string(),
            current: "1.0.0".to_string()
        })
    );
    assert_eq!(
        emit_one_shot_check(Ok(checked("1.0.0", "2.0.0", true)), true),
        OneShot::Apply
    );
    assert_eq!(
        emit_one_shot_check(Err(UpdateError::Other("x".to_string())), true),
        OneShot::Report(UpdateEvent::Failed { reason: "Update: otra: x".to_string() })
    );
}

#[test]
fn an_update_is_reported() {
    assert_eq!(applied_event(Ok(Status::UpToDate)).kind(), "up_to_date");
    assert_eq!(
        applied_event(Ok(Status::DownloadedAndInstalling { version: "2".to_string() })),
        UpdateEvent::Updated { version: "2".to_string() }
    );
    assert_eq!(
        applied_event(Err(UpdateError::DownloadFailed { status: 503 })),
        UpdateEvent::Failed { reason: "Descarga falló (HTTP 503)".to_string() }
    );
}

#[test]
fn every_error_has_its_texts() {
    let s = |t: &str| t.to_string();
    let cases: Vec<(UpdateError, &str, &str, bool)> = vec![
        (UpdateError::Network(s("e")), "red/HTTP: e", "Sin conexión a internet", true),
        (UpdateError::SelfUpdate(s("e")), "self_update: e", "Update: self_update: e", false),
        (UpdateError::Io(s("e")), "I/O: e", "Update: I/O: e", false),
        (UpdateError::Json(s("e")), "JSON inválido: e", "Update: JSON inválido: e", false),
        (
            UpdateError::AssetNotFound { version: s("1.2"), suffix: ".msi" },
            "release v1.2 no contiene asset .msi",
            "Release v1.2 sin asset .msi",
            true,
        ),
        (
            UpdateError::DownloadFailed { status: 404 },
            "descarga falló (status 404)",
            "Descarga falló (HTTP 404)",
            true,
        ),
        (
            UpdateError::ChecksumMismatch { expected: s("a"), actual: s("b") },
            "SHA-256 no coincide (esperado a, calculado b)",
            "Checksum SHA-256 inválido",
            true,
        ),
        (
            UpdateError::SignatureInvalid { detail: s("d") },
            "firma Ed25519 inválida o ausente: d",
            "Firma del update inválida",
            true,
        ),
        (
            UpdateError::InstallFailed { detail: s("d") },
            "instalador falló al ejecutarse: d",
            "Instalador falló",
            true,
        ),
        (
            UpdateError::UnsupportedPlatform("linux"),
            "plataforma no soportada por este backend: linux",
            "Update no soportado en linux",
            false,
        ),
        (
            UpdateError::Config(s("c")),
            "updater mal configurado: c",
            "Update: updater mal configurado: c",
            false,
        ),
        (
            UpdateError::InvalidPersistedConfig(s("c")),
            "configuración inválida persistida: c",
            "Update: configuración inválida persistida: c",
            false,
        ),
        (UpdateError::Other(s("o")), "otra: o", "Update: otra: o", false),
    ];
    for (error, message, short, visible) in cases {
        assert_eq!(error.message(), message);
        assert_eq!(error.user_message(), short);
        assert_eq!(should_emit_error(&error), visible);
        assert_eq!(error.path(), None);
    }
}

#[test]
fn only_a_good_status_is_a_download() {
    assert_eq!(check_status(200), Ok(()));
    assert_eq!(check_status(299), Ok(()));
    for status in [0, 199, 300, 404, 503] {
        assert_eq!(check_status(status), Err(UpdateError::DownloadFailed { status }));
    }
}
