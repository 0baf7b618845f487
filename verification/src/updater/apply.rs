//! Downloading, verifying and installing an update, one step after the other.
//!
//! The program does what the run asks for and hands back how it went.
use vstd::prelude::*;
use vstd::string::*;

use crate::text::{option_text, result_bytes, result_text};
use crate::updater::backend::{BackendView, InstallOutcome, InstallerBackend};
use crate::updater::error::{UpdateError, UpdateFault};
use crate::updater::github::{
    asset_from, find_asset_suffix, the_first_asset_is_found, Release, ReleaseAsset,
};
use crate::updater::status::{CheckResult, Status};
use crate::updater::verify::{checksum_fault, minisign_fault, verify_minisign, verify_sha256};

verus! {

/// What is to be downloaded.
#[derive(Debug, PartialEq, Eq)]
pub struct Plan {
    pub version: String,
    pub asset_url: String,
    pub checksum_url: String,
    /// Where the signature is, if the release has one.
    pub signature_url: Option<String>,
}

/// The value of a [`Plan`].
pub struct PlanView {
    pub version: Seq<char>,
    pub asset_url: Seq<char>,
    pub checksum_url: Seq<char>,
    pub signature_url: Option<Seq<char>>,
}

impl View for Plan {
    type V = PlanView;

    open spec fn view(&self) -> PlanView {
        PlanView {
            version: self.version@,
            asset_url: self.asset_url@,
            checksum_url: self.checksum_url@,
            signature_url: option_text(self.signature_url),
        }
    }
}

/// How far the run is.
#[derive(Debug, PartialEq, Eq)]
pub enum Phase {
    Checking,
    Fetching { version: String },
    DownloadingAsset(Plan),
    DownloadingChecksum(Plan),
    VerifyingChecksum(Plan),
    DownloadingSignature(Plan),
    VerifyingSignature(Plan),
    Installing(Plan),
    Done(Result<Status, UpdateError>),
}

/// How a run ended.
pub enum EndView {
    UpToDate,
    Installing { version: Seq<char> },
    Failed(UpdateFault),
}

/// The value of a [`Phase`].
pub enum PhaseView {
    Checking,
    Fetching { version: Seq<char> },
    DownloadingAsset(PlanView),
    DownloadingChecksum(PlanView),
    VerifyingChecksum(PlanView),
    DownloadingSignature(PlanView),
    VerifyingSignature(PlanView),
    Installing(PlanView),
    Done(EndView),
}

impl View for Phase {
    type V = PhaseView;

    open spec fn view(&self) -> PhaseView {
        match self {
            Phase::Checking => PhaseView::Checking,
            Phase::Fetching { version } => PhaseView::Fetching { version: version@ },
            Phase::DownloadingAsset(plan) => PhaseView::DownloadingAsset(plan@),
            Phase::DownloadingChecksum(plan) => PhaseView::DownloadingChecksum(plan@),
            Phase::VerifyingChecksum(plan) => PhaseView::VerifyingChecksum(plan@),
            Phase::DownloadingSignature(plan) => PhaseView::DownloadingSignature(plan@),
            Phase::VerifyingSignature(plan) => PhaseView::VerifyingSignature(plan@),
            Phase::Installing(plan) => PhaseView::Installing(plan@),
            Phase::Done(Ok(Status::UpToDate)) => PhaseView::Done(EndView::UpToDate),
            Phase::Done(Ok(Status::DownloadedAndInstalling { version })) => PhaseView::Done(
                EndView::Installing { version: version@ },
            ),
            Phase::Done(Err(e)) => PhaseView::Done(EndView::Failed(e@)),
        }
    }
}

/// How a step went.
#[derive(Debug, PartialEq, Eq)]
pub enum ApplyEvent {
    /// The version that runs was compared with the newest.
    Checked(Result<CheckResult, UpdateError>),
    /// The newest release was looked up.
    Fetched(Result<Release, UpdateError>),
    /// A file was downloaded.
    Downloaded(Result<(), UpdateError>),
    /// The sidecar with the checksum and the file were read.
    ChecksumRead {
        sha_path: String,
        sidecar: Result<String, String>,
        asset: Result<Vec<u8>, String>,
    },
    /// The sidecar with the signature and the file were read.
    SignatureRead {
        sig_path: String,
        signature: Option<String>,
        asset: Result<Vec<u8>, String>,
    },
    /// The installer was started.
    Installed(Result<InstallOutcome, UpdateError>),
}

/// What is to be done next.
#[derive(Debug, PartialEq, Eq)]
pub enum ApplyAction {
    CheckForUpdate,
    FetchRelease,
    Download { url: String, file: String },
    ReadChecksum { asset_file: String, sha_file: String },
    ReadSignature { asset_file: String, sig_file: String },
    Install { asset_file: String },
    /// The run is over.
    Finish,
}

/// The value of an [`ApplyAction`].
pub enum ActionStep {
    CheckForUpdate,
    FetchRelease,
    Download { url: Seq<char>, file: Seq<char> },
    ReadChecksum { asset_file: Seq<char>, sha_file: Seq<char> },
    ReadSignature { asset_file: Seq<char>, sig_file: Seq<char> },
    Install { asset_file: Seq<char> },
    Finish,
}

impl View for ApplyAction {
    type V = ActionStep;

    open spec fn view(&self) -> ActionStep {
        match self {
            ApplyAction::CheckForUpdate => ActionStep::CheckForUpdate,
            ApplyAction::FetchRelease => ActionStep::FetchRelease,
            ApplyAction::Download { url, file } => ActionStep::Download { url: url@, file: file@ },
            ApplyAction::ReadChecksum { asset_file, sha_file } => ActionStep::ReadChecksum {
                asset_file: asset_file@,
                sha_file: sha_file@,
            },
            ApplyAction::ReadSignature { asset_file, sig_file } => ActionStep::ReadSignature {
                asset_file: asset_file@,
                sig_file: sig_file@,
            },
            ApplyAction::Install { asset_file } => ActionStep::Install {
                asset_file: asset_file@,
            },
            ApplyAction::Finish => ActionStep::Finish,
        }
    }
}

/// An update under way, for one installer and one public key.
#[derive(Debug, PartialEq, Eq)]
pub struct ApplyRun {
    pub backend_name: &'static str,
    pub asset_suffix: &'static str,
    pub requires_signature: bool,
    pub public_key: String,
    pub phase: Phase,
}

/// The name of the downloaded file.
pub open spec fn asset_file(version: Seq<char>, suffix: Seq<char>) -> Seq<char> {
    "oido-"@ + version + suffix
}

/// What is to be downloaded of a release, or what it lacks.
pub open spec fn plan_of(version: Seq<char>, suffix: Seq<char>, release: Release) -> PhaseView {
    match asset_from(release.assets@, suffix, 0) {
        None => PhaseView::Done(
            EndView::Failed(UpdateFault::AssetNotFound { version: release.version@, suffix }),
        ),
        Some(asset) => match asset_from(release.assets@, ".sha256"@, 0) {
            None => PhaseView::Done(
                EndView::Failed(
                    UpdateFault::AssetNotFound { version: release.version@, suffix: ".sha256"@ },
                ),
            ),
            Some(checksum) => PhaseView::DownloadingAsset(
                PlanView {
                    version,
                    asset_url: asset.download_url@,
                    checksum_url: checksum.download_url@,
                    signature_url: match asset_from(release.assets@, ".minisig"@, 0) {
                        Some(signature) => Some(signature.download_url@),
                        None => None,
                    },
                },
            ),
        },
    }
}

/// Whether an event says that the checksum of the file is right.
pub open spec fn confirms_checksum(event: ApplyEvent) -> bool {
    event matches ApplyEvent::ChecksumRead { sha_path, sidecar, asset } && checksum_fault(
        sha_path@,
        result_text(sidecar),
        result_bytes(asset),
    ) is None
}

/// Whether an event says that the signature of the file is valid.
pub open spec fn confirms_signature(event: ApplyEvent, public_key: Seq<char>) -> bool {
    event matches ApplyEvent::SignatureRead { sig_path, signature, asset } && minisign_fault(
        public_key,
        sig_path@,
        option_text(signature),
        result_bytes(asset),
    ) is None
}

/// The step after `phase`. An event that does not belong to the phase changes
/// nothing.
pub open spec fn next_phase(
    backend: BackendView,
    public_key: Seq<char>,
    phase: PhaseView,
    event: ApplyEvent,
) -> PhaseView {
    match (phase, event) {
        (PhaseView::Checking, ApplyEvent::Checked(Err(e))) => PhaseView::Done(EndView::Failed(e@)),
        (PhaseView::Checking, ApplyEvent::Checked(Ok(check))) => if check.has_update {
            PhaseView::Fetching { version: check.latest@ }
        } else {
            PhaseView::Done(EndView::UpToDate)
        },
        (PhaseView::Fetching { version }, ApplyEvent::Fetched(Err(e))) => PhaseView::Done(
            EndView::Failed(e@),
        ),
        (PhaseView::Fetching { version }, ApplyEvent::Fetched(Ok(release))) => plan_of(
            version,
            backend.asset_suffix,
            release,
        ),
        (PhaseView::DownloadingAsset(plan), ApplyEvent::Downloaded(Ok(_))) =>
            PhaseView::DownloadingChecksum(plan),
        (PhaseView::DownloadingAsset(plan), ApplyEvent::Downloaded(Err(e))) => PhaseView::Done(
            EndView::Failed(e@),
        ),
        (PhaseView::DownloadingChecksum(plan), ApplyEvent::Downloaded(Ok(_))) =>
            PhaseView::VerifyingChecksum(plan),
        (PhaseView::DownloadingChecksum(plan), ApplyEvent::Downloaded(Err(e))) => PhaseView::Done(
            EndView::Failed(e@),
        ),
        (
            PhaseView::VerifyingChecksum(plan),
            ApplyEvent::ChecksumRead { sha_path, sidecar, asset },
        ) => match checksum_fault(sha_path@, result_text(sidecar), result_bytes(asset)) {
            Some(fault) => PhaseView::Done(EndView::Failed(fault)),
            None => match plan.signature_url {
                Some(_) => PhaseView::DownloadingSignature(plan),
                None => if backend.requires_signature {
                    PhaseView::Done(
                        EndView::Failed(
                            UpdateFault::SignatureInvalid {
                                detail: "backend "@ + backend.name
                                    + " requiere firma pero release no tiene .minisig"@,
                            },
                        ),
                    )
                } else {
                    PhaseView::Installing(plan)
                },
            },
        },
        (PhaseView::DownloadingSignature(plan), ApplyEvent::Downloaded(Ok(_))) =>
            PhaseView::VerifyingSignature(plan),
        (PhaseView::DownloadingSignature(plan), ApplyEvent::Downloaded(Err(e))) =>
            if backend.requires_signature {
                PhaseView::Done(EndView::Failed(e@))
            } else {
                PhaseView::Installing(plan)
            },
        (
            PhaseView::VerifyingSignature(plan),
            ApplyEvent::SignatureRead { sig_path, signature, asset },
        ) => match minisign_fault(
            public_key,
            sig_path@,
            option_text(signature),
            result_bytes(asset),
        ) {
            Some(fault) => PhaseView::Done(EndView::Failed(fault)),
            None => PhaseView::Installing(plan),
        },
        (PhaseView::Installing(plan), ApplyEvent::Installed(Ok(_))) => PhaseView::Done(
            EndView::Installing { version: plan.version },
        ),
        (PhaseView::Installing(plan), ApplyEvent::Installed(Err(e))) => PhaseView::Done(
            EndView::Failed(e@),
        ),
        _ => phase,
    }
}

/// What a phase asks for.
pub open spec fn action_of_phase(phase: PhaseView, suffix: Seq<char>) -> ActionStep {
    match phase {
        PhaseView::Checking => ActionStep::CheckForUpdate,
        PhaseView::Fetching { .. } => ActionStep::FetchRelease,
        PhaseView::DownloadingAsset(plan) => ActionStep::Download {
            url: plan.asset_url,
            file: asset_file(plan.version, suffix),
        },
        PhaseView::DownloadingChecksum(plan) => ActionStep::Download {
            url: plan.checksum_url,
            file: asset_file(plan.version, suffix) + ".sha256"@,
        },
        PhaseView::VerifyingChecksum(plan) => ActionStep::ReadChecksum {
            asset_file: asset_file(plan.version, suffix),
            sha_file: asset_file(plan.version, suffix) + ".sha256"@,
        },
        PhaseView::DownloadingSignature(plan) => ActionStep::Download {
            url: match plan.signature_url {
                Some(url) => url,
                None => Seq::empty(),
            },
            file: asset_file(plan.version, suffix) + ".minisig"@,
        },
        PhaseView::VerifyingSignature(plan) => ActionStep::ReadSignature {
            asset_file: asset_file(plan.version, suffix),
            sig_file: asset_file(plan.version, suffix) + ".minisig"@,
        },
        PhaseView::Installing(plan) => ActionStep::Install {
            asset_file: asset_file(plan.version, suffix),
        },
        PhaseView::Done(_) => ActionStep::Finish,
    }
}

fn file_name(version: &str, suffix: &str, ending: &str) -> (r: String)
    ensures
        r@ == asset_file(version@, suffix@) + ending@,
{
    "oido-".to_owned().concat(version).concat(suffix).concat(ending)
}

fn asset_name(version: &str, suffix: &str) -> (r: String)
    ensures
        r@ == asset_file(version@, suffix@),
{
    "oido-".to_owned().concat(version).concat(suffix)
}

fn failed(e: UpdateError) -> (r: Phase)
    ensures
        r@ == PhaseView::Done(EndView::Failed(e@)),
{
    Phase::Done(Err(e))
}

fn make_plan(version: String, suffix: &'static str, release: &Release) -> (r: Phase)
    ensures
        r@ == plan_of(version@, suffix@, *release),
{
    let asset_url = match find_asset_suffix(release, suffix) {
        Ok(asset) => asset.download_url.clone(),
        Err(e) => {
            return failed(e);
        },
    };
    let checksum_url = match find_asset_suffix(release, ".sha256") {
        Ok(asset) => asset.download_url.clone(),
        Err(e) => {
            return failed(e);
        },
    };
    let signature_url = match find_asset_suffix(release, ".minisig") {
        Ok(asset) => Some(asset.download_url.clone()),
        Err(_) => None,
    };
    Phase::DownloadingAsset(Plan { version, asset_url, checksum_url, signature_url })
}

impl ApplyRun {
    /// What is fixed of the installer.
    pub open spec fn backend(&self) -> BackendView {
        BackendView {
            name: self.backend_name@,
            asset_suffix: self.asset_suffix@,
            requires_signature: self.requires_signature,
        }
    }

    /// What is to be done next.
    pub fn action(&self) -> (r: ApplyAction)
        ensures
            r@ == action_of_phase(self.phase@, self.asset_suffix@),
    {
        match &self.phase {
            Phase::Checking => ApplyAction::CheckForUpdate,
            Phase::Fetching { .. } => ApplyAction::FetchRelease,
            Phase::DownloadingAsset(plan) => ApplyAction::Download {
                url: plan.asset_url.clone(),
                file: asset_name(plan.version.as_str(), self.asset_suffix),
            },
            Phase::DownloadingChecksum(plan) => ApplyAction::Download {
                url: plan.checksum_url.clone(),
                file: file_name(plan.version.as_str(), self.asset_suffix, ".sha256"),
            },
            Phase::VerifyingChecksum(plan) => ApplyAction::ReadChecksum {
                asset_file: asset_name(plan.version.as_str(), self.asset_suffix),
                sha_file: file_name(plan.version.as_str(), self.asset_suffix, ".sha256"),
            },
            Phase::DownloadingSignature(plan) => {
                let url = match &plan.signature_url {
                    Some(url) => url.clone(),
                    None => String::new(),
                };
                assert(plan.signature_url is None ==> url@ =~= Seq::<char>::empty());
                ApplyAction::Download {
                    url,
                    file: file_name(plan.version.as_str(), self.asset_suffix, ".minisig"),
                }
            },
            Phase::VerifyingSignature(plan) => ApplyAction::ReadSignature {
                asset_file: asset_name(plan.version.as_str(), self.asset_suffix),
                sig_file: file_name(plan.version.as_str(), self.asset_suffix, ".minisig"),
            },
            Phase::Installing(plan) => ApplyAction::Install {
                asset_file: asset_name(plan.version.as_str(), self.asset_suffix),
            },
            Phase::Done(_) => ApplyAction::Finish,
        }
    }

    fn after_checksum(&self, plan: Plan, verified: Result<(), UpdateError>) -> (r: Phase)
        ensures
            r@ == (match verified {
                Err(e) => PhaseView::Done(EndView::Failed(e@)),
                Ok(_) => if plan.signature_url is Some {
                    PhaseView::DownloadingSignature(plan@)
                } else if self.requires_signature {
                    PhaseView::Done(
                        EndView::Failed(
                            UpdateFault::SignatureInvalid {
                                detail: "backend "@ + self.backend_name@
                                    + " requiere firma pero release no tiene .minisig"@,
                            },
                        ),
                    )
                } else {
                    PhaseView::Installing(plan@)
                },
            }),
    {
        if let Err(e) = verified {
            return failed(e);
        }
        if plan.signature_url.is_some() {
            Phase::DownloadingSignature(plan)
        } else if self.requires_signature {
            let mut detail = "backend ".to_owned();
            detail.append(self.backend_name);
            detail.append(" requiere firma pero release no tiene .minisig");
            failed(UpdateError::SignatureInvalid { detail })
        } else {
            Phase::Installing(plan)
        }
    }

    /// Takes how the last step went.
    pub fn step(self, event: ApplyEvent) -> (r: Self)
        ensures
            r.backend() == self.backend(),
            r.public_key == self.public_key,
            r.phase@ == next_phase(self.backend(), self.public_key@, self.phase@, event),
    {
        let mut run = self;
        let phase = run.phase;
        run.phase = Phase::Checking;
        let next = match (phase, event) {
            (Phase::Checking, ApplyEvent::Checked(Err(e))) => failed(e),
            (Phase::Checking, ApplyEvent::Checked(Ok(check))) => if check.has_update {
                Phase::Fetching { version: check.latest }
            } else {
                Phase::Done(Ok(Status::UpToDate))
            },
            (Phase::Fetching { .. }, ApplyEvent::Fetched(Err(e))) => failed(e),
            (Phase::Fetching { version }, ApplyEvent::Fetched(Ok(release))) => make_plan(
                version,
                run.asset_suffix,
                &release,
            ),
            (Phase::DownloadingAsset(plan), ApplyEvent::Downloaded(Ok(_))) =>
                Phase::DownloadingChecksum(plan),
            (Phase::DownloadingAsset(_), ApplyEvent::Downloaded(Err(e))) => failed(e),
            (Phase::DownloadingChecksum(plan), ApplyEvent::Downloaded(Ok(_))) =>
                Phase::VerifyingChecksum(plan),
            (Phase::DownloadingChecksum(_), ApplyEvent::Downloaded(Err(e))) => failed(e),
            (
                Phase::VerifyingChecksum(plan),
                ApplyEvent::ChecksumRead { sha_path, sidecar, asset },
            ) => run.after_checksum(plan, verify_sha256(sha_path.as_str(), sidecar, asset)),
            (Phase::DownloadingSignature(plan), ApplyEvent::Downloaded(Ok(_))) =>
                Phase::VerifyingSignature(plan),
            (Phase::DownloadingSignature(plan), ApplyEvent::Downloaded(Err(e))) =>
                if run.requires_signature {
                    failed(e)
                } else {
                    Phase::Installing(plan)
                },
            (
                Phase::VerifyingSignature(plan),
                ApplyEvent::SignatureRead { sig_path, signature, asset },
            ) => match verify_minisign(
                run.public_key.as_str(),
                sig_path.as_str(),
                signature,
                asset,
            ) {
                Err(e) => failed(e),
                Ok(_) => Phase::Installing(plan),
            },
            (Phase::Installing(plan), ApplyEvent::Installed(Ok(_))) => Phase::Done(
                Ok(Status::DownloadedAndInstalling { version: plan.version }),
            ),
            (Phase::Installing(_), ApplyEvent::Installed(Err(e))) => failed(e),
            (phase, _) => phase,
        };
        run.phase = next;
        run
    }

    /// How the run ended, if it is over.
    pub fn outcome(self) -> (r: Option<Result<Status, UpdateError>>)
        ensures
            match self.phase {
                Phase::Done(end) => r == Some(end),
                _ => r is None,
            },
    {
        match self.phase {
            Phase::Done(end) => Some(end),
            _ => None,
        }
    }
}

/// Begins an update with an installer and the public key of the project.
pub fn check_and_apply<B: InstallerBackend>(backend: &B, public_key: &str) -> (r: ApplyRun)
    ensures
        r.backend() == backend.meta(),
        r.public_key@ == public_key@,
        r.phase@ == PhaseView::Checking,
{
    ApplyRun {
        backend_name: backend.name(),
        asset_suffix: backend.asset_suffix(),
        requires_signature: backend.requires_signature(),
        public_key: public_key.to_owned(),
        phase: Phase::Checking,
    }
}

// ---------------------------------------------------------------------------
// Laws
// ---------------------------------------------------------------------------

/// Where a run stands after `events`.
pub open spec fn phase_after(
    backend: BackendView,
    public_key: Seq<char>,
    events: Seq<ApplyEvent>,
) -> PhaseView
    decreases events.len(),
{
    if events.len() == 0 {
        PhaseView::Checking
    } else {
        next_phase(
            backend,
            public_key,
            phase_after(backend, public_key, events.drop_last()),
            events.last(),
        )
    }
}

/// Whether some event says that the checksum is right.
pub open spec fn checksum_confirmed(events: Seq<ApplyEvent>) -> bool {
    exists|i: int| 0 <= i < events.len() && #[trigger] confirms_checksum(events[i])
}

/// Whether some event says that the signature is valid.
pub open spec fn signature_confirmed(events: Seq<ApplyEvent>, public_key: Seq<char>) -> bool {
    exists|i: int| 0 <= i < events.len() && #[trigger] confirms_signature(events[i], public_key)
}

/// Whether an event brings a release that has no signature.
pub open spec fn brings_unsigned(event: ApplyEvent) -> bool {
    event matches ApplyEvent::Fetched(Ok(release)) && asset_from(
        release.assets@,
        ".minisig"@,
        0,
    ) is None
}

/// Whether some event brings a release that has no signature.
pub open spec fn unsigned_release(events: Seq<ApplyEvent>) -> bool {
    exists|i: int| 0 <= i < events.len() && #[trigger] brings_unsigned(events[i])
}

/// Whether some download failed.
pub open spec fn download_failed(events: Seq<ApplyEvent>) -> bool {
    exists|i: int|
        0 <= i < events.len() && (#[trigger] events[i] matches ApplyEvent::Downloaded(Err(_)))
}

/// What a phase is downloading or installing.
pub open spec fn plan_in(phase: PhaseView) -> Option<PlanView> {
    match phase {
        PhaseView::DownloadingAsset(plan) => Some(plan),
        PhaseView::DownloadingChecksum(plan) => Some(plan),
        PhaseView::VerifyingChecksum(plan) => Some(plan),
        PhaseView::DownloadingSignature(plan) => Some(plan),
        PhaseView::VerifyingSignature(plan) => Some(plan),
        PhaseView::Installing(plan) => Some(plan),
        _ => None,
    }
}

/// Whether a phase comes after the checksum was found right.
pub open spec fn is_past_checksum(phase: PhaseView) -> bool {
    phase is DownloadingSignature || phase is VerifyingSignature || phase is Installing || (
    phase matches PhaseView::Done(end) && end is Installing)
}

/// Whether the file is handed to the installer or was.
pub open spec fn is_installing(phase: PhaseView) -> bool {
    phase is Installing || (phase matches PhaseView::Done(end) && end is Installing)
}

proof fn lemma_confirmations(backend: BackendView, public_key: Seq<char>, events: Seq<ApplyEvent>)
    ensures
        ({
            let phase = phase_after(backend, public_key, events);
            &&& is_past_checksum(phase) ==> checksum_confirmed(events)
            &&& phase matches PhaseView::Installing(plan) ==> signature_confirmed(
                events,
                public_key,
            ) || (!backend.requires_signature && (plan.signature_url is None || download_failed(
                events,
            )))
            &&& plan_in(phase) matches Some(plan) ==> plan.signature_url is None
                ==> unsigned_release(events)
            &&& is_installing(phase) ==> signature_confirmed(events, public_key) || (
            !backend.requires_signature && (unsigned_release(events) || download_failed(events)))
        }),
    decreases events.len(),
{
    if events.len() > 0 {
        let before = events.drop_last();
        lemma_confirmations(backend, public_key, before);
        let last = events.len() - 1;
        if checksum_confirmed(before) {
            let i = choose|i: int| 0 <= i < before.len() && #[trigger] confirms_checksum(before[i]);
            assert(confirms_checksum(events[i]));
        }
        if signature_confirmed(before, public_key) {
            let i = choose|i: int|
                0 <= i < before.len() && #[trigger] confirms_signature(before[i], public_key);
            assert(confirms_signature(events[i], public_key));
        }
        if unsigned_release(before) {
            let i = choose|i: int| 0 <= i < before.len() && #[trigger] brings_unsigned(before[i]);
            assert(brings_unsigned(events[i]));
        }
        assert(confirms_checksum(events[last]) ==> checksum_confirmed(events));
        assert(confirms_signature(events[last], public_key) ==> signature_confirmed(
            events,
            public_key,
        ));
        if download_failed(before) {
            let i = choose|i: int|
                0 <= i < before.len() && (#[trigger] before[i] matches ApplyEvent::Downloaded(
                    Err(_),
                ));
            assert(events[i] == before[i]);
        }
        assert(brings_unsigned(events[last]) ==> unsigned_release(events));
        assert((events[last] matches ApplyEvent::Downloaded(Err(_))) ==> download_failed(events));
    }
}

/// Nothing is installed whose checksum was not found right.
pub proof fn an_installed_file_has_its_checksum(
    backend: BackendView,
    public_key: Seq<char>,
    events: Seq<ApplyEvent>,
)
    requires
        is_installing(phase_after(backend, public_key, events)),
    ensures
        checksum_confirmed(events),
{
    lemma_confirmations(backend, public_key, events);
}

/// Nothing is installed whose signature was not found valid, unless the
/// installer requires none and the release has none or it could not be
/// downloaded.
pub proof fn an_installed_file_is_signed(
    backend: BackendView,
    public_key: Seq<char>,
    events: Seq<ApplyEvent>,
)
    requires
        is_installing(phase_after(backend, public_key, events)),
    ensures
        signature_confirmed(events, public_key) || (!backend.requires_signature && (
        unsigned_release(events) || download_failed(events))),
{
    lemma_confirmations(backend, public_key, events);
}

/// A file whose release names a signature is installed only after that was
/// found valid, whether or not the installer requires one, unless the download
/// of a signature that is not required failed.
pub proof fn a_named_signature_is_checked(
    backend: BackendView,
    public_key: Seq<char>,
    events: Seq<ApplyEvent>,
    plan: PlanView,
)
    requires
        phase_after(backend, public_key, events) == PhaseView::Installing(plan),
        plan.signature_url is Some,
        backend.requires_signature || !download_failed(events),
    ensures
        signature_confirmed(events, public_key),
{
    lemma_confirmations(backend, public_key, events);
}

/// A file with the right checksum and a wrong signature is not installed,
/// whether or not the installer requires a signature: the fault of the
/// signature ends the run.
pub proof fn a_wrong_signature_ends_the_run(
    backend: BackendView,
    public_key: Seq<char>,
    plan: PlanView,
    event: ApplyEvent,
)
    requires
        event is SignatureRead,
        !confirms_signature(event, public_key),
    ensures
        event matches ApplyEvent::SignatureRead { sig_path, signature, asset } && minisign_fault(
            public_key,
            sig_path@,
            option_text(signature),
            result_bytes(asset),
        ) matches Some(fault) && next_phase(
            backend,
            public_key,
            PhaseView::VerifyingSignature(plan),
            event,
        ) == PhaseView::Done(EndView::Failed(fault)),
{
}

/// A signature that the release names and that cannot be downloaded ends the
/// run where the installer requires one, and is done without where it does not.
pub proof fn a_signature_out_of_reach_counts_where_it_is_required(
    backend: BackendView,
    public_key: Seq<char>,
    plan: PlanView,
    e: UpdateError,
)
    ensures
        next_phase(
            backend,
            public_key,
            PhaseView::DownloadingSignature(plan),
            ApplyEvent::Downloaded(Err(e)),
        ) == if backend.requires_signature {
            PhaseView::Done(EndView::Failed(e@))
        } else {
            PhaseView::Installing(plan)
        },
{
}

/// A run that is over stays as it is.
pub proof fn a_finished_run_stays_finished(
    backend: BackendView,
    public_key: Seq<char>,
    end: EndView,
    event: ApplyEvent,
)
    ensures
        next_phase(backend, public_key, PhaseView::Done(end), event) == PhaseView::Done(end),
{
}

/// How far a run has come.
pub open spec fn progress(phase: PhaseView) -> nat {
    match phase {
        PhaseView::Checking => 0,
        PhaseView::Fetching { .. } => 1,
        PhaseView::DownloadingAsset(_) => 2,
        PhaseView::DownloadingChecksum(_) => 3,
        PhaseView::VerifyingChecksum(_) => 4,
        PhaseView::DownloadingSignature(_) => 5,
        PhaseView::VerifyingSignature(_) => 6,
        PhaseView::Installing(_) => 7,
        PhaseView::Done(_) => 8,
    }
}

/// A run never goes back, it leaves out no step before the checksum is found
/// right unless it ends, and what it downloads stays the same to the end.
pub proof fn a_run_goes_forward(
    backend: BackendView,
    public_key: Seq<char>,
    phase: PhaseView,
    event: ApplyEvent,
)
    ensures
        ({
            let next = next_phase(backend, public_key, phase, event);
            &&& progress(next) >= progress(phase)
            &&& next == phase || progress(next) > progress(phase)
            &&& progress(phase) < 4 && progress(next) < 8 ==> progress(next) <= progress(phase) + 1
            &&& plan_in(phase) is Some && plan_in(next) is Some ==> plan_in(next) == plan_in(phase)
            &&& (phase is Fetching && plan_in(next) is Some) ==> plan_in(next)->0.version
                == phase->Fetching_version
            &&& (next matches PhaseView::Done(EndView::Installing { version }) && next != phase)
                ==> (phase matches PhaseView::Installing(plan) && plan.version
                == next->Done_0->Installing_version)
        }),
{
}

/// What a step waits for moves the run on where it went well.
pub proof fn a_good_step_moves_the_run_on(
    backend: BackendView,
    public_key: Seq<char>,
    plan: PlanView,
    event: ApplyEvent,
)
    ensures
        event matches ApplyEvent::Downloaded(Ok(_)) ==> {
            &&& next_phase(backend, public_key, PhaseView::DownloadingAsset(plan), event)
                == PhaseView::DownloadingChecksum(plan)
            &&& next_phase(backend, public_key, PhaseView::DownloadingChecksum(plan), event)
                == PhaseView::VerifyingChecksum(plan)
            &&& next_phase(backend, public_key, PhaseView::DownloadingSignature(plan), event)
                == PhaseView::VerifyingSignature(plan)
        },
        confirms_checksum(event) && plan.signature_url is Some ==> next_phase(
            backend,
            public_key,
            PhaseView::VerifyingChecksum(plan),
            event,
        ) == PhaseView::DownloadingSignature(plan),
        confirms_signature(event, public_key) ==> next_phase(
            backend,
            public_key,
            PhaseView::VerifyingSignature(plan),
            event,
        ) == PhaseView::Installing(plan),
        event matches ApplyEvent::Installed(Ok(_)) ==> next_phase(
            backend,
            public_key,
            PhaseView::Installing(plan),
            event,
        ) == PhaseView::Done(EndView::Installing { version: plan.version }),
{
}

/// A check without anything newer ends the run, and one with something newer
/// goes on with that version.
pub proof fn a_check_decides_whether_to_go_on(
    backend: BackendView,
    public_key: Seq<char>,
    check: CheckResult,
)
    ensures
        ({
            let next = next_phase(
                backend,
                public_key,
                PhaseView::Checking,
                ApplyEvent::Checked(Ok(check)),
            );
            if check.has_update {
                next == (PhaseView::Fetching { version: check.latest@ })
            } else {
                next == PhaseView::Done(EndView::UpToDate)
            }
        }),
{
}

/// A step that failed ends the run with its own error, but for a signature that
/// cannot be downloaded where none is required.
pub proof fn a_failed_step_ends_the_run(
    backend: BackendView,
    public_key: Seq<char>,
    version: Seq<char>,
    plan: PlanView,
    event: ApplyEvent,
    e: UpdateError,
)
    ensures
        event == ApplyEvent::Checked(Err(e)) ==> next_phase(
            backend,
            public_key,
            PhaseView::Checking,
            event,
        ) == PhaseView::Done(EndView::Failed(e@)),
        event == ApplyEvent::Fetched(Err(e)) ==> next_phase(
            backend,
            public_key,
            PhaseView::Fetching { version },
            event,
        ) == PhaseView::Done(EndView::Failed(e@)),
        event == ApplyEvent::Downloaded(Err(e)) ==> {
            &&& next_phase(backend, public_key, PhaseView::DownloadingAsset(plan), event)
                == PhaseView::Done(EndView::Failed(e@))
            &&& next_phase(backend, public_key, PhaseView::DownloadingChecksum(plan), event)
                == PhaseView::Done(EndView::Failed(e@))
            &&& next_phase(backend, public_key, PhaseView::DownloadingSignature(plan), event) == (
            if backend.requires_signature {
                PhaseView::Done(EndView::Failed(e@))
            } else {
                PhaseView::Installing(plan)
            })
        },
        event == ApplyEvent::Installed(Err(e)) ==> next_phase(
            backend,
            public_key,
            PhaseView::Installing(plan),
            event,
        ) == PhaseView::Done(EndView::Failed(e@)),
{
}

/// A release is used only where it has a file for the installer and a checksum.
/// The file, the checksum and the signature, if there is one, are the first of
/// their endings.
pub proof fn a_plan_is_made_of_the_files_of_the_release(
    version: Seq<char>,
    suffix: Seq<char>,
    release: Release,
)
    ensures
        match plan_of(version, suffix, release) {
            PhaseView::DownloadingAsset(plan) => {
                &&& plan.version == version
                &&& is_first_file(release.assets@, suffix, plan.asset_url)
                &&& is_first_file(release.assets@, ".sha256"@, plan.checksum_url)
                &&& match plan.signature_url {
                    Some(url) => is_first_file(release.assets@, ".minisig"@, url),
                    None => has_no_file(release.assets@, ".minisig"@),
                }
            },
            PhaseView::Done(EndView::Failed(fault)) => {
                ||| has_no_file(release.assets@, suffix) && fault == (UpdateFault::AssetNotFound {
                    version: release.version@,
                    suffix,
                })
                ||| !has_no_file(release.assets@, suffix) && has_no_file(
                    release.assets@,
                    ".sha256"@,
                ) && fault == (UpdateFault::AssetNotFound {
                    version: release.version@,
                    suffix: ".sha256"@,
                })
            },
            _ => false,
        },
{
    the_first_asset_is_found(release.assets@, suffix, 0);
    the_first_asset_is_found(release.assets@, ".sha256"@, 0);
    the_first_asset_is_found(release.assets@, ".minisig"@, 0);
}

/// Whether the release has no file with that ending.
pub open spec fn has_no_file(assets: Seq<ReleaseAsset>, suffix: Seq<char>) -> bool {
    forall|j: int| 0 <= j < assets.len() ==> !suffix.is_suffix_of(#[trigger] assets[j].name@)
}

/// Whether the first file with that ending is to be had at `url`.
pub open spec fn is_first_file(
    assets: Seq<ReleaseAsset>,
    suffix: Seq<char>,
    url: Seq<char>,
) -> bool {
    exists|i: int|
        0 <= i < assets.len() && suffix.is_suffix_of((#[trigger] assets[i]).name@)
            && assets[i].download_url@ == url && forall|j: int|
            0 <= j < i ==> !suffix.is_suffix_of(#[trigger] assets[j].name@)
}

/// What is downloaded is what is checked and installed: the file of the
/// installer goes by one name from its download to its installation, and the
/// checksum and the signature are read from where they were downloaded to.
pub proof fn what_is_downloaded_is_what_is_installed(plan: PlanView, suffix: Seq<char>)
    ensures
        ({
            let file = "oido-"@ + plan.version + suffix;
            let sha = action_of_phase(PhaseView::DownloadingChecksum(plan), suffix);
            let sig = action_of_phase(PhaseView::DownloadingSignature(plan), suffix);
            &&& action_of_phase(PhaseView::DownloadingAsset(plan), suffix)
                == (ActionStep::Download { url: plan.asset_url, file })
            &&& action_of_phase(PhaseView::Installing(plan), suffix) == (ActionStep::Install {
                asset_file: file,
            })
            &&& sha matches ActionStep::Download { url, file: sha_file } && url
                == plan.checksum_url && sha_file == file + ".sha256"@ && action_of_phase(
                PhaseView::VerifyingChecksum(plan),
                suffix,
            ) == (ActionStep::ReadChecksum { asset_file: file, sha_file })
            &&& plan.signature_url matches Some(wanted) ==> (sig matches ActionStep::Download {
                url,
                file: sig_file,
            } && url == wanted && sig_file == file + ".minisig"@ && action_of_phase(
                PhaseView::VerifyingSignature(plan),
                suffix,
            ) == (ActionStep::ReadSignature { asset_file: file, sig_file }))
        }),
{
}

} // verus!
