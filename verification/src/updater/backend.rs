//! The installers of the platforms.
use vstd::prelude::*;
use vstd::string::*;

use crate::text::texts;
use crate::updater::error::{UpdateError, UpdateFault};

verus! {

/// What remains to be done after an installation.
#[derive(Debug, Clone, Copy, PartialEq, Eq, Structural)]
pub enum InstallOutcome {
    /// The program must be closed and started again.
    RequiresRestart,
    /// The new version runs already.
    InstalledRunning,
}

/// A program to run, with its arguments.
#[derive(Debug, PartialEq, Eq)]
pub struct InstallCommand {
    pub program: String,
    pub args: Vec<String>,
}

/// What is fixed of an installer.
pub struct BackendView {
    pub name: Seq<char>,
    pub asset_suffix: Seq<char>,
    pub requires_signature: bool,
}

/// The installer of a platform.
pub trait InstallerBackend {
    /// What is fixed of the installer.
    spec fn meta(&self) -> BackendView;

    /// The name for the log.
    fn name(&self) -> (r: &'static str)
        ensures
            r@ == self.meta().name,
    ;

    /// The ending of the file that the installer takes.
    fn asset_suffix(&self) -> (r: &'static str)
        ensures
            r@ == self.meta().asset_suffix,
    ;

    /// Whether a release without a signature is refused, or one whose signature
    /// cannot be downloaded. A signature that was downloaded is verified either
    /// way, and a wrong one is refused.
    fn requires_signature(&self) -> (r: bool)
        ensures
            r == self.meta().requires_signature,
    ;

    /// The command that installs a file which was downloaded and verified.
    fn install(&self, asset_path: &str) -> Result<InstallCommand, UpdateError>;
}

/// Installs `.msi` files on Windows.
#[derive(Debug)]
pub struct WindowsMsiBackend;

impl Default for WindowsMsiBackend {
    fn default() -> (r: Self)
        ensures
            r == WindowsMsiBackend,
    {
        WindowsMsiBackend
    }
}

impl WindowsMsiBackend {
    pub fn new() -> (r: Self)
        ensures
            r == WindowsMsiBackend,
    {
        WindowsMsiBackend
    }
}

impl InstallerBackend for WindowsMsiBackend {
    open spec fn meta(&self) -> BackendView {
        BackendView {
            name: "windows-msi"@,
            asset_suffix: ".msi"@,
            requires_signature: true,
        }
    }

    fn name(&self) -> (r: &'static str) {
        "windows-msi"
    }

    fn asset_suffix(&self) -> (r: &'static str) {
        ".msi"
    }

    fn requires_signature(&self) -> (r: bool) {
        true
    }

    /// The command shows its progress, asks nothing and does not restart the
    /// system.
    fn install(&self, asset_path: &str) -> (r: Result<InstallCommand, UpdateError>)
        ensures
            r matches Ok(command) && command.program@ == "msiexec"@ && texts(command.args@)
                == seq!["/i"@, asset_path@, "/qb"@, "/norestart"@],
    {
        let mut args: Vec<String> = Vec::new();
        args.push("/i".to_owned());
        args.push(asset_path.to_owned());
        args.push("/qb".to_owned());
        args.push("/norestart".to_owned());
        assert(texts(args@) =~= seq!["/i"@, asset_path@, "/qb"@, "/norestart"@]);
        Ok(InstallCommand { program: "msiexec".to_owned(), args })
    }
}

/// What starting the Windows installer came to: it runs on its own, and the
/// program must be started again.
pub fn launched(spawned: Result<(), String>) -> (r: Result<InstallOutcome, UpdateError>)
    ensures
        match spawned {
            Ok(_) => r == Ok::<InstallOutcome, UpdateError>(InstallOutcome::RequiresRestart),
            Err(e) => r matches Err(fault) && fault@ == (UpdateFault::InstallFailed {
                detail: "spawn msiexec: "@ + e@,
            }),
        },
{
    match spawned {
        Ok(_) => Ok(InstallOutcome::RequiresRestart),
        Err(e) => Err(
            UpdateError::InstallFailed { detail: "spawn msiexec: ".to_owned().concat(e.as_str()) },
        ),
    }
}

/// There is no installer for macOS yet.
#[derive(Debug)]
pub struct MacosPkgBackend;

impl InstallerBackend for MacosPkgBackend {
    open spec fn meta(&self) -> BackendView {
        BackendView { name: "macos-pkg"@, asset_suffix: ".pkg"@, requires_signature: true }
    }

    fn name(&self) -> (r: &'static str) {
        "macos-pkg"
    }

    fn asset_suffix(&self) -> (r: &'static str) {
        ".pkg"
    }

    fn requires_signature(&self) -> (r: bool) {
        true
    }

    fn install(&self, asset_path: &str) -> (r: Result<InstallCommand, UpdateError>)
        ensures
            r == Err::<InstallCommand, UpdateError>(UpdateError::UnsupportedPlatform("macos")),
    {
        Err(UpdateError::UnsupportedPlatform("macos"))
    }
}

/// There is no installer for Linux yet.
#[derive(Debug)]
pub struct LinuxAppImageBackend;

impl InstallerBackend for LinuxAppImageBackend {
    open spec fn meta(&self) -> BackendView {
        BackendView {
            name: "linux-appimage"@,
            asset_suffix: ".AppImage"@,
            requires_signature: true,
        }
    }

    fn name(&self) -> (r: &'static str) {
        "linux-appimage"
    }

    fn asset_suffix(&self) -> (r: &'static str) {
        ".AppImage"
    }

    fn requires_signature(&self) -> (r: bool) {
        true
    }

    fn install(&self, asset_path: &str) -> (r: Result<InstallCommand, UpdateError>)
        ensures
            r == Err::<InstallCommand, UpdateError>(UpdateError::UnsupportedPlatform("linux")),
    {
        Err(UpdateError::UnsupportedPlatform("linux"))
    }
}

/// Each platform has an installer of its own name, takes files of its own
/// ending, and refuses a release without a signature.
pub proof fn installers_are_told_apart(
    windows: WindowsMsiBackend,
    macos: MacosPkgBackend,
    linux: LinuxAppImageBackend,
)
    ensures
        windows.meta().name == "windows-msi"@ && windows.meta().asset_suffix == ".msi"@,
        macos.meta().name == "macos-pkg"@ && macos.meta().asset_suffix == ".pkg"@,
        linux.meta().name == "linux-appimage"@ && linux.meta().asset_suffix == ".AppImage"@,
        windows.meta().requires_signature,
        macos.meta().requires_signature,
        linux.meta().requires_signature,
        windows.meta().asset_suffix != macos.meta().asset_suffix,
        macos.meta().asset_suffix != linux.meta().asset_suffix,
        linux.meta().asset_suffix != windows.meta().asset_suffix,
{
    reveal_strlit(".msi");
    reveal_strlit(".pkg");
    reveal_strlit(".AppImage");
    assert(".msi"@[1] == 'm' && ".pkg"@[1] == 'p' && ".AppImage"@[1] == 'A');
}

} // verus!
