//! Dialogs and external editors.
use vstd::prelude::*;
use vstd::string::*;

use crate::models::{fallback_of, is_listed, ModelEntry};
use crate::text::{stands_at, texts};
use crate::tray::popup_window::{encode_wide, wide};

verus! {

/// The desktop that the program runs on.
#[derive(Debug, Clone, Copy, PartialEq, Eq, Structural)]
pub enum Desktop {
    Windows,
    MacOs,
    OtherUnix,
}

/// A program and its arguments.
#[derive(Debug, PartialEq, Eq)]
pub struct EditorCommand {
    pub program: String,
    pub args: Vec<String>,
}

/// The value of an [`EditorCommand`].
pub struct CommandView {
    pub program: Seq<char>,
    pub args: Seq<Seq<char>>,
}

impl View for EditorCommand {
    type V = CommandView;

    open spec fn view(&self) -> CommandView {
        CommandView { program: self.program@, args: texts(self.args@) }
    }
}

/// The values of a list of commands.
pub open spec fn command_views(commands: Seq<EditorCommand>) -> Seq<CommandView> {
    commands.map_values(|c: EditorCommand| c@)
}

/// The commands that open `path` in the native text editor, in the order in
/// which they are tried.
pub open spec fn editor_commands(desktop: Desktop, path: Seq<char>) -> Seq<CommandView> {
    match desktop {
        Desktop::Windows => seq![
            CommandView { program: "notepad.exe"@, args: seq![path] },
            CommandView {
                program: "cmd"@,
                args: seq!["/C"@, "start"@, ""@, "notepad.exe"@, path],
            },
        ],
        Desktop::MacOs => seq![CommandView { program: "open"@, args: seq!["-t"@, path] }],
        Desktop::OtherUnix => seq![CommandView { program: "xdg-open"@, args: seq![path] }],
    }
}

/// The commands that open `path` in the native text editor.
pub fn open_in_native_editor(desktop: Desktop, path: &str) -> (r: Vec<EditorCommand>)
    ensures
        command_views(r@) == editor_commands(desktop, path@),
{
    let mut out: Vec<EditorCommand> = Vec::new();
    let mut args: Vec<String> = Vec::new();
    match desktop {
        Desktop::Windows => {
            args.push(path.to_owned());
            assert(texts(args@) =~= seq![path@]);
            out.push(EditorCommand { program: "notepad.exe".to_owned(), args });
            let mut more: Vec<String> = Vec::new();
            more.push("/C".to_owned());
            more.push("start".to_owned());
            more.push("".to_owned());
            more.push("notepad.exe".to_owned());
            more.push(path.to_owned());
            assert(texts(more@) =~= seq!["/C"@, "start"@, ""@, "notepad.exe"@, path@]);
            out.push(EditorCommand { program: "cmd".to_owned(), args: more });
        },
        Desktop::MacOs => {
            args.push("-t".to_owned());
            args.push(path.to_owned());
            assert(texts(args@) =~= seq!["-t"@, path@]);
            out.push(EditorCommand { program: "open".to_owned(), args });
        },
        Desktop::OtherUnix => {
            args.push(path.to_owned());
            assert(texts(args@) =~= seq![path@]);
            out.push(EditorCommand { program: "xdg-open".to_owned(), args });
        },
    }
    assert(command_views(out@) =~= editor_commands(desktop, path@));
    out
}

/// How to edit the configuration at `path`: the commands to try in order, or
/// `None` where the file does not exist.
pub fn show_prompt_editor_windows(desktop: Desktop, path: &str, exists: bool) -> (r: Option<
    Vec<EditorCommand>,
>)
    ensures
        r is Some <==> exists,
        r matches Some(commands) ==> command_views(commands@) == editor_commands(desktop, path@),
{
    if exists {
        Some(open_in_native_editor(desktop, path))
    } else {
        None
    }
}

/// The question whether to download a speech model, for the window system.
#[derive(Debug, PartialEq, Eq)]
pub struct ModelPrompt {
    pub text: Vec<u16>,
    pub title: Vec<u16>,
}

/// The question whether to download a speech model.
pub fn show_model_prompt_windows() -> (r: ModelPrompt)
    ensures
        r.text@ == wide(
            "Oido needs a speech model. Click Yes to download ggml-base.bin (~140 MB) or No to configure it later."@,
        ),
        r.title@ == wide("Oido Speech Model"@),
        r.text@ == wide(download_question()),
{
    ModelPrompt {
        text: encode_wide(
            "Oido needs a speech model. Click Yes to download ggml-base.bin (~140 MB) or No to configure it later.",
        ),
        title: encode_wide("Oido Speech Model"),
    }
}

/// What the window system answers for "Yes".
pub const IDYES: i32 = 6;

/// Whether the answer of the dialog accepts the download.
pub fn prompt_accepted(desktop: Desktop, answer: i32) -> (r: bool)
    ensures
        r == (desktop == Desktop::Windows && answer == IDYES),
        r == accepts_download(desktop, answer),
{
    desktop == Desktop::Windows && answer == IDYES
}

/// The awareness of display scaling to ask for before any window opens:
/// `-4` names "per monitor, second version". Other desktops scale by
/// themselves.
pub fn enable_dpi_awareness(desktop: Desktop) -> (r: Option<i64>)
    ensures
        r == if desktop == Desktop::Windows {
            Some(-4i64)
        } else {
            None
        },
        r == awareness_for(desktop),
{
    match desktop {
        Desktop::Windows => Some(-4),
        _ => None,
    }
}

// ---------------------------------------------------------------------------
// Laws
// ---------------------------------------------------------------------------

/// Whether the answer of the dialog accepts the download.
pub open spec fn accepts_download(desktop: Desktop, answer: i32) -> bool {
    desktop == Desktop::Windows && answer == IDYES
}

/// The awareness of display scaling to ask for.
pub open spec fn awareness_for(desktop: Desktop) -> Option<i64> {
    if desktop == Desktop::Windows {
        Some(-4i64)
    } else {
        None
    }
}

/// Every command opens the file that was asked for, as its last argument, and
/// there is at least one to try.
pub proof fn every_editor_opens_the_file(desktop: Desktop, path: Seq<char>, i: int)
    ensures
        editor_commands(desktop, path).len() > 0,
        0 <= i < editor_commands(desktop, path).len() ==> {
            let args = editor_commands(desktop, path)[i].args;
            args.len() > 0 && args.last() == path
        },
{
}

/// Each desktop has an editor of its own. On Windows the shell starts the same
/// one where it cannot be run directly.
pub proof fn every_desktop_has_its_editor(path: Seq<char>)
    ensures
        ({
            let windows = editor_commands(Desktop::Windows, path);
            let mac = editor_commands(Desktop::MacOs, path);
            let unix = editor_commands(Desktop::OtherUnix, path);
            &&& windows.len() == 2 && mac.len() == 1 && unix.len() == 1
            &&& windows[0].program == "notepad.exe"@ && windows[0].args == seq![path]
            &&& windows[1].program == "cmd"@ && windows[1].args == seq![
                "/C"@,
                "start"@,
                ""@,
                windows[0].program,
                path,
            ]
            &&& mac[0].program == "open"@ && mac[0].args == seq!["-t"@, path]
            &&& unix[0].program == "xdg-open"@ && unix[0].args == seq![path]
        }),
{
}

/// Only a "Yes" on Windows accepts the download, and only Windows is asked about
/// its scaling.
pub proof fn windows_alone_is_asked(desktop: Desktop, answer: i32)
    ensures
        accepts_download(desktop, answer) <==> desktop == Desktop::Windows && answer == 6,
        awareness_for(desktop) == Some(-4i64) <==> desktop == Desktop::Windows,
        awareness_for(desktop) is None <==> desktop != Desktop::Windows,
{
}

/// The question whether to download a speech model, as it is put to the user.
pub open spec fn download_question() -> Seq<char> {
    "Oido needs a speech model. Click Yes to download ggml-base.bin (~140 MB) or No to configure it later."@
}

/// The model that is offered for download is the one that stands in for any
/// other once it is there.
pub proof fn the_base_model_is_offered(catalog: Seq<ModelEntry>, installed: Seq<String>)
    requires
        is_listed(installed, "ggml-base.bin"@),
    ensures
        fallback_of(catalog, installed) matches Some(name) && stands_at(
            download_question(),
            name,
            49,
        ),
{
    reveal_strlit("ggml-base.bin");
    reveal_strlit(
        "Oido needs a speech model. Click Yes to download ggml-base.bin (~140 MB) or No to configure it later.",
    );
    let name = "ggml-base.bin"@;
    assert(download_question().subrange(49, 49int + name.len()) =~= name);
}

} // verus!
