//! What can go wrong in an update.
use vstd::prelude::*;
use vstd::string::*;

use crate::text::{decimal, decimal_text};

verus! {

/// An error of the updater. Errors from outside come as their texts.
#[derive(Debug, PartialEq, Eq)]
pub enum UpdateError {
    /// The network or the HTTP client failed.
    Network(String),
    /// The release could not be looked up.
    SelfUpdate(String),
    Io(String),
    Json(String),
    /// The release has no file with that ending.
    AssetNotFound { version: String, suffix: &'static str },
    /// The server answered a download with that status.
    DownloadFailed { status: u16 },
    ChecksumMismatch { expected: String, actual: String },
    SignatureInvalid { detail: String },
    InstallFailed { detail: String },
    UnsupportedPlatform(&'static str),
    Config(String),
    InvalidPersistedConfig(String),
    Other(String),
}

/// The value of an [`UpdateError`].
pub enum UpdateFault {
    Network(Seq<char>),
    SelfUpdate(Seq<char>),
    Io(Seq<char>),
    Json(Seq<char>),
    AssetNotFound { version: Seq<char>, suffix: Seq<char> },
    DownloadFailed { status: u16 },
    ChecksumMismatch { expected: Seq<char>, actual: Seq<char> },
    SignatureInvalid { detail: Seq<char> },
    InstallFailed { detail: Seq<char> },
    UnsupportedPlatform(Seq<char>),
    Config(Seq<char>),
    InvalidPersistedConfig(Seq<char>),
    Other(Seq<char>),
}

impl View for UpdateError {
    type V = UpdateFault;

    open spec fn view(&self) -> UpdateFault {
        match self {
            UpdateError::Network(e) => UpdateFault::Network(e@),
            UpdateError::SelfUpdate(e) => UpdateFault::SelfUpdate(e@),
            UpdateError::Io(e) => UpdateFault::Io(e@),
            UpdateError::Json(e) => UpdateFault::Json(e@),
            UpdateError::AssetNotFound { version, suffix } => UpdateFault::AssetNotFound {
                version: version@,
                suffix: suffix@,
            },
            UpdateError::DownloadFailed { status } => UpdateFault::DownloadFailed {
                status: *status,
            },
            UpdateError::ChecksumMismatch { expected, actual } => UpdateFault::ChecksumMismatch {
                expected: expected@,
                actual: actual@,
            },
            UpdateError::SignatureInvalid { detail } => UpdateFault::SignatureInvalid {
                detail: detail@,
            },
            UpdateError::InstallFailed { detail } => UpdateFault::InstallFailed {
                detail: detail@,
            },
            UpdateError::UnsupportedPlatform(os) => UpdateFault::UnsupportedPlatform(os@),
            UpdateError::Config(e) => UpdateFault::Config(e@),
            UpdateError::InvalidPersistedConfig(e) => UpdateFault::InvalidPersistedConfig(e@),
            UpdateError::Other(e) => UpdateFault::Other(e@),
        }
    }
}

/// The full text of an error.
pub open spec fn update_fault_text(fault: UpdateFault) -> Seq<char> {
    match fault {
        UpdateFault::Network(e) => "red/HTTP: "@ + e,
        UpdateFault::SelfUpdate(e) => "self_update: "@ + e,
        UpdateFault::Io(e) => "I/O: "@ + e,
        UpdateFault::Json(e) => "JSON inválido: "@ + e,
        UpdateFault::AssetNotFound { version, suffix } => "release v"@ + version
            + " no contiene asset "@ + suffix,
        UpdateFault::DownloadFailed { status } => "descarga falló (status "@ + decimal(
            status as nat,
        ) + ")"@,
        UpdateFault::ChecksumMismatch { expected, actual } => "SHA-256 no coincide (esperado "@
            + expected + ", calculado "@ + actual + ")"@,
        UpdateFault::SignatureInvalid { detail } => "firma Ed25519 inválida o ausente: "@ + detail,
        UpdateFault::InstallFailed { detail } => "instalador falló al ejecutarse: "@ + detail,
        UpdateFault::UnsupportedPlatform(os) => "plataforma no soportada por este backend: "@ + os,
        UpdateFault::Config(e) => "updater mal configurado: "@ + e,
        UpdateFault::InvalidPersistedConfig(e) => "configuración inválida persistida: "@ + e,
        UpdateFault::Other(e) => "otra: "@ + e,
    }
}

/// Whether the user is told of an error.
pub open spec fn is_visible(fault: UpdateFault) -> bool {
    fault is Network || fault is DownloadFailed || fault is ChecksumMismatch
        || fault is SignatureInvalid || fault is InstallFailed || fault is AssetNotFound
}

/// The short text for the tooltip.
pub open spec fn short_text(fault: UpdateFault) -> Seq<char> {
    match fault {
        UpdateFault::Network(_) => "Sin conexión a internet"@,
        UpdateFault::DownloadFailed { status } => "Descarga falló (HTTP "@ + decimal(status as nat)
            + ")"@,
        UpdateFault::ChecksumMismatch { .. } => "Checksum SHA-256 inválido"@,
        UpdateFault::SignatureInvalid { .. } => "Firma del update inválida"@,
        UpdateFault::InstallFailed { .. } => "Instalador falló"@,
        UpdateFault::AssetNotFound { version, suffix } => "Release v"@ + version + " sin asset "@
            + suffix,
        UpdateFault::UnsupportedPlatform(os) => "Update no soportado en "@ + os,
        other => "Update: "@ + update_fault_text(other),
    }
}

impl UpdateError {
    /// Whether the user is told of the error.
    pub fn is_user_visible(&self) -> (r: bool)
        ensures
            r == is_visible(self@),
    {
        match self {
            UpdateError::Network(_)
            | UpdateError::DownloadFailed { .. }
            | UpdateError::ChecksumMismatch { .. }
            | UpdateError::SignatureInvalid { .. }
            | UpdateError::InstallFailed { .. }
            | UpdateError::AssetNotFound { .. } => true,
            _ => false,
        }
    }

    /// The full text of the error.
    pub fn message(&self) -> (r: String)
        ensures
            r@ == update_fault_text(self@),
    {
        match self {
            UpdateError::Network(e) => "red/HTTP: ".to_owned().concat(e.as_str()),
            UpdateError::SelfUpdate(e) => "self_update: ".to_owned().concat(e.as_str()),
            UpdateError::Io(e) => "I/O: ".to_owned().concat(e.as_str()),
            UpdateError::Json(e) => "JSON inválido: ".to_owned().concat(e.as_str()),
            UpdateError::AssetNotFound { version, suffix } => "release v".to_owned().concat(
                version.as_str(),
            ).concat(" no contiene asset ").concat(*suffix),
            UpdateError::DownloadFailed { status } => "descarga falló (status ".to_owned().concat(
                decimal_text(*status as u64).as_str(),
            ).concat(")"),
            UpdateError::ChecksumMismatch { expected, actual } => {
                "SHA-256 no coincide (esperado ".to_owned().concat(expected.as_str()).concat(
                    ", calculado ",
                ).concat(actual.as_str()).concat(")")
            },
            UpdateError::SignatureInvalid { detail } => {
                "firma Ed25519 inválida o ausente: ".to_owned().concat(detail.as_str())
            },
            UpdateError::InstallFailed { detail } => {
                "instalador falló al ejecutarse: ".to_owned().concat(detail.as_str())
            },
            UpdateError::UnsupportedPlatform(os) => {
                "plataforma no soportada por este backend: ".to_owned().concat(*os)
            },
            UpdateError::Config(e) => "updater mal configurado: ".to_owned().concat(e.as_str()),
            UpdateError::InvalidPersistedConfig(e) => {
                "configuración inválida persistida: ".to_owned().concat(e.as_str())
            },
            UpdateError::Other(e) => "otra: ".to_owned().concat(e.as_str()),
        }
    }

    /// The short text for the tooltip.
    pub fn user_message(&self) -> (r: String)
        ensures
            r@ == short_text(self@),
    {
        match self {
            UpdateError::Network(_) => "Sin conexión a internet".to_owned(),
            UpdateError::DownloadFailed { status } => "Descarga falló (HTTP ".to_owned().concat(
                decimal_text(*status as u64).as_str(),
            ).concat(")"),
            UpdateError::ChecksumMismatch { .. } => "Checksum SHA-256 inválido".to_owned(),
            UpdateError::SignatureInvalid { .. } => "Firma del update inválida".to_owned(),
            UpdateError::InstallFailed { .. } => "Instalador falló".to_owned(),
            UpdateError::AssetNotFound { version, suffix } => "Release v".to_owned().concat(
                version.as_str(),
            ).concat(" sin asset ").concat(*suffix),
            UpdateError::UnsupportedPlatform(os) => "Update no soportado en ".to_owned().concat(
                *os,
            ),
            other => "Update: ".to_owned().concat(other.message().as_str()),
        }
    }

    /// The file that the error is about: no error names one.
    pub fn path(&self) -> (r: Option<&String>)
        ensures
            r is None,
    {
        None
    }
}

/// The kind of an error, without what it is about.
pub open spec fn same_kind(a: UpdateFault, b: UpdateFault) -> bool {
    match (a, b) {
        (UpdateFault::Network(_), UpdateFault::Network(_)) => true,
        (UpdateFault::SelfUpdate(_), UpdateFault::SelfUpdate(_)) => true,
        (UpdateFault::Io(_), UpdateFault::Io(_)) => true,
        (UpdateFault::Json(_), UpdateFault::Json(_)) => true,
        (UpdateFault::AssetNotFound { .. }, UpdateFault::AssetNotFound { .. }) => true,
        (UpdateFault::DownloadFailed { .. }, UpdateFault::DownloadFailed { .. }) => true,
        (UpdateFault::ChecksumMismatch { .. }, UpdateFault::ChecksumMismatch { .. }) => true,
        (UpdateFault::SignatureInvalid { .. }, UpdateFault::SignatureInvalid { .. }) => true,
        (UpdateFault::InstallFailed { .. }, UpdateFault::InstallFailed { .. }) => true,
        (UpdateFault::UnsupportedPlatform(_), UpdateFault::UnsupportedPlatform(_)) => true,
        (UpdateFault::Config(_), UpdateFault::Config(_)) => true,
        (UpdateFault::InvalidPersistedConfig(_), UpdateFault::InvalidPersistedConfig(_)) => true,
        (UpdateFault::Other(_), UpdateFault::Other(_)) => true,
        _ => false,
    }
}

/// The user hears of what they can do something about: the network, a download,
/// a file that is not what it should be or not there, and an installer that
/// does not run. They do not hear of faults of the program or the machine.
pub proof fn the_user_hears_of_what_concerns_them(a: UpdateFault, b: UpdateFault)
    ensures
        same_kind(a, b) ==> is_visible(a) == is_visible(b),
        a is SelfUpdate || a is Io || a is Json || a is UnsupportedPlatform || a is Config || a
            is InvalidPersistedConfig || a is Other ==> !is_visible(a),
        a is Network || a is DownloadFailed || a is ChecksumMismatch || a is SignatureInvalid || a
            is InstallFailed || a is AssetNotFound ==> is_visible(a),
{
}

/// The full text of an error ends with what it is about.
pub proof fn a_text_ends_with_the_cause(fault: UpdateFault, cause: Seq<char>)
    requires
        fault == UpdateFault::Network(cause) || fault == UpdateFault::SelfUpdate(cause) || fault
            == UpdateFault::Io(cause) || fault == UpdateFault::Json(cause) || fault
            == (UpdateFault::SignatureInvalid { detail: cause }) || fault
            == (UpdateFault::InstallFailed { detail: cause }) || fault
            == UpdateFault::UnsupportedPlatform(cause) || fault == UpdateFault::Config(cause)
            || fault == UpdateFault::InvalidPersistedConfig(cause) || fault == UpdateFault::Other(
            cause,
        ),
    ensures
        cause.is_suffix_of(update_fault_text(fault)),
{
    let text = update_fault_text(fault);
    let n = text.len() as int;
    assert(text.subrange(n - cause.len(), n) =~= cause);
}

/// The full text of an error begins with the words for its kind.
#[verifier::rlimit(40)]
pub proof fn a_text_begins_with_its_kind(fault: UpdateFault)
    ensures
        ({
            let head = match fault {
                UpdateFault::Network(_) => "red/HTTP: "@,
                UpdateFault::SelfUpdate(_) => "self_update: "@,
                UpdateFault::Io(_) => "I/O: "@,
                UpdateFault::Json(_) => "JSON inválido: "@,
                UpdateFault::AssetNotFound { version, .. } => "release v"@ + version,
                UpdateFault::DownloadFailed { status } => "descarga falló (status "@ + decimal(
                    status as nat,
                ),
                UpdateFault::ChecksumMismatch { expected, .. } => "SHA-256 no coincide (esperado "@
                    + expected,
                UpdateFault::SignatureInvalid { .. } => "firma Ed25519 inválida o ausente: "@,
                UpdateFault::InstallFailed { .. } => "instalador falló al ejecutarse: "@,
                UpdateFault::UnsupportedPlatform(_) => "plataforma no soportada por este backend: "@,
                UpdateFault::Config(_) => "updater mal configurado: "@,
                UpdateFault::InvalidPersistedConfig(_) => "configuración inválida persistida: "@,
                UpdateFault::Other(_) => "otra: "@,
            };
            head.is_prefix_of(update_fault_text(fault))
        }),
{
    let text = update_fault_text(fault);
    match fault {
        UpdateFault::AssetNotFound { version, .. } => {
            let head = "release v"@ + version;
            assert(text.subrange(0, head.len() as int) =~= head);
        },
        UpdateFault::DownloadFailed { status } => {
            let head = "descarga falló (status "@ + decimal(status as nat);
            assert(text.subrange(0, head.len() as int) =~= head);
        },
        UpdateFault::ChecksumMismatch { expected, .. } => {
            let head = "SHA-256 no coincide (esperado "@ + expected;
            assert(text.subrange(0, head.len() as int) =~= head);
        },
        UpdateFault::Network(_) => {
            assert(text.subrange(0, "red/HTTP: "@.len() as int) =~= "red/HTTP: "@);
        },
        UpdateFault::SelfUpdate(_) => {
            assert(text.subrange(0, "self_update: "@.len() as int) =~= "self_update: "@);
        },
        UpdateFault::Io(_) => {
            assert(text.subrange(0, "I/O: "@.len() as int) =~= "I/O: "@);
        },
        UpdateFault::Json(_) => {
            assert(text.subrange(0, "JSON inválido: "@.len() as int) =~= "JSON inválido: "@);
        },
        UpdateFault::SignatureInvalid { .. } => {
            let head = "firma Ed25519 inválida o ausente: "@;
            assert(text.subrange(0, head.len() as int) =~= head);
        },
        UpdateFault::InstallFailed { .. } => {
            let head = "instalador falló al ejecutarse: "@;
            assert(text.subrange(0, head.len() as int) =~= head);
        },
        UpdateFault::UnsupportedPlatform(_) => {
            let head = "plataforma no soportada por este backend: "@;
            assert(text.subrange(0, head.len() as int) =~= head);
        },
        UpdateFault::Config(_) => {
            let head = "updater mal configurado: "@;
            assert(text.subrange(0, head.len() as int) =~= head);
        },
        UpdateFault::InvalidPersistedConfig(_) => {
            let head = "configuración inválida persistida: "@;
            assert(text.subrange(0, head.len() as int) =~= head);
        },
        UpdateFault::Other(_) => {
            assert(text.subrange(0, "otra: "@.len() as int) =~= "otra: "@);
        },
    }
}

/// The short text tells the kinds of errors that a user can see apart by fixed
/// words, and where it has no words of its own it quotes the full text.
pub proof fn the_short_text_is_by_kind(fault: UpdateFault)
    ensures
        fault is Network ==> short_text(fault) == "Sin conexión a internet"@,
        fault is ChecksumMismatch ==> short_text(fault) == "Checksum SHA-256 inválido"@,
        fault is SignatureInvalid ==> short_text(fault) == "Firma del update inválida"@,
        fault is InstallFailed ==> short_text(fault) == "Instalador falló"@,
        fault matches UpdateFault::DownloadFailed { status } ==> short_text(fault)
            == "Descarga falló (HTTP "@ + decimal(status as nat) + ")"@,
        fault matches UpdateFault::AssetNotFound { version, suffix } ==> short_text(fault)
            == "Release v"@ + version + " sin asset "@ + suffix,
        fault matches UpdateFault::UnsupportedPlatform(os) ==> short_text(fault)
            == "Update no soportado en "@ + os,
        !is_visible(fault) && !(fault is UnsupportedPlatform) ==> short_text(fault) == "Update: "@
            + update_fault_text(fault),
{
}

} // verus!
