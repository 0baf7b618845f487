//! What a choice in the menu asks of the program.
use vstd::prelude::*;
use vstd::string::*;

use crate::config::Config;
use crate::control::ControlMessage;
use crate::lifecycle::{detect_model_lang_mismatch, suggested_model};
use crate::models::ModelEntry;
use crate::text::option_text;
use crate::tray::traits::MenuAction;

verus! {

/// What a choice in the menu asks for.
#[derive(Debug, PartialEq, Eq)]
pub enum MenuCommand {
    /// Send a message to the control loop.
    Post(ControlMessage),
    /// Open the preferences in a text editor.
    EditPrompt,
    OpenModelsDir,
    /// Handle a click on that model.
    ClickModel(String),
    /// Look for updates in the background and install what is found.
    CheckUpdates,
    Nothing,
}

/// The device that a choice names; the empty name is the automatic choice.
pub open spec fn chosen_device(name: Seq<char>) -> Option<Seq<char>> {
    if name.len() == 0 {
        None
    } else {
        Some(name)
    }
}

/// Whether `command` is what `action` asks for.
pub open spec fn commands(
    action: MenuAction,
    command: MenuCommand,
    suggestion: Option<Seq<char>>,
) -> bool {
    match action {
        MenuAction::ChangeHotkey => command == MenuCommand::Post(ControlMessage::ChangeHotkey),
        MenuAction::SetTheme(theme) => command == MenuCommand::Post(
            ControlMessage::SetTheme(theme),
        ),
        MenuAction::SetSttMode(mode) => command == MenuCommand::Post(
            ControlMessage::SetSttMode(mode),
        ),
        MenuAction::SetUiLanguage(language) => command == MenuCommand::Post(
            ControlMessage::SetUiLanguage(language),
        ),
        MenuAction::SetPromptPreset(preset) => command == MenuCommand::Post(
            ControlMessage::SetPromptPreset(preset),
        ),
        MenuAction::SetEffort(effort) => command == MenuCommand::Post(
            ControlMessage::SetEffort(effort),
        ),
        MenuAction::EditPrompt => command == MenuCommand::EditPrompt,
        MenuAction::OpenModelsDir => command == MenuCommand::OpenModelsDir,
        MenuAction::ModelItem(filename) => command == MenuCommand::ClickModel(filename),
        MenuAction::FixModelLanguage(_) => match suggestion {
            Some(name) => command matches MenuCommand::ClickModel(filename) && filename@ == name,
            None => command == MenuCommand::Nothing,
        },
        MenuAction::CheckUpdates => command == MenuCommand::CheckUpdates,
        MenuAction::TogglePause => command == MenuCommand::Nothing,
        MenuAction::Exit => command == MenuCommand::Post(ControlMessage::Exit),
        MenuAction::SetInputDevice(name) => command matches MenuCommand::Post(
            ControlMessage::SetInputDevice(device),
        ) && option_text(device) == chosen_device(name@),
        MenuAction::ProbeMicrophones => command == MenuCommand::Post(
            ControlMessage::ProbeMicrophones,
        ),
    }
}

/// What a choice in the menu asks for. The model to change to for the sake of
/// the language goes by the preferences as they are now.
pub fn menu_command(action: MenuAction, config: &Config, catalog: &Vec<ModelEntry>) -> (r:
    MenuCommand)
    ensures
        commands(action, r, suggested_model(config.model@, config.language_ui@, catalog@)),
{
    match action {
        MenuAction::ChangeHotkey => MenuCommand::Post(ControlMessage::ChangeHotkey),
        MenuAction::SetTheme(theme) => MenuCommand::Post(ControlMessage::SetTheme(theme)),
        MenuAction::SetSttMode(mode) => MenuCommand::Post(ControlMessage::SetSttMode(mode)),
        MenuAction::SetUiLanguage(language) => MenuCommand::Post(
            ControlMessage::SetUiLanguage(language),
        ),
        MenuAction::SetPromptPreset(preset) => MenuCommand::Post(
            ControlMessage::SetPromptPreset(preset),
        ),
        MenuAction::SetEffort(effort) => MenuCommand::Post(ControlMessage::SetEffort(effort)),
        MenuAction::EditPrompt => MenuCommand::EditPrompt,
        MenuAction::OpenModelsDir => MenuCommand::OpenModelsDir,
        MenuAction::ModelItem(filename) => MenuCommand::ClickModel(filename),
        MenuAction::FixModelLanguage(_) => match detect_model_lang_mismatch(config, catalog) {
            Some(name) => MenuCommand::ClickModel(name),
            None => MenuCommand::Nothing,
        },
        MenuAction::CheckUpdates => MenuCommand::CheckUpdates,
        MenuAction::TogglePause => MenuCommand::Nothing,
        MenuAction::Exit => MenuCommand::Post(ControlMessage::Exit),
        MenuAction::SetInputDevice(name) => {
            let device = if name.as_str().is_empty() {
                None
            } else {
                Some(name)
            };
            MenuCommand::Post(ControlMessage::SetInputDevice(device))
        },
        MenuAction::ProbeMicrophones => MenuCommand::Post(ControlMessage::ProbeMicrophones),
    }
}

// ---------------------------------------------------------------------------
// Laws
// ---------------------------------------------------------------------------

/// A click on a model asks for that model, whatever else is suggested.
pub proof fn a_model_item_clicks_its_model(
    filename: String,
    command: MenuCommand,
    suggestion: Option<Seq<char>>,
)
    requires
        commands(MenuAction::ModelItem(filename), command, suggestion),
    ensures
        command == MenuCommand::ClickModel(filename),
{
}

/// No choice is lost: only the pause, and the change of the model where there
/// is none to change to, ask for nothing.
pub proof fn few_choices_ask_for_nothing(
    action: MenuAction,
    suggestion: Option<Seq<char>>,
)
    ensures
        commands(action, MenuCommand::Nothing, suggestion) <==> action == MenuAction::TogglePause
            || (action is FixModelLanguage && suggestion is None),
{
}

/// The model to change to for the sake of the language is the suggested one,
/// and not the one that the menu showed.
pub proof fn a_language_fix_clicks_the_suggestion(
    shown: String,
    command: MenuCommand,
    suggested: Seq<char>,
)
    requires
        commands(MenuAction::FixModelLanguage(shown), command, Some(suggested)),
    ensures
        command matches MenuCommand::ClickModel(filename) && filename@ == suggested,
{
}

/// A preference that is chosen in the menu reaches the control loop as it was
/// chosen.
pub proof fn a_choice_arrives_as_it_was_made(
    action: MenuAction,
    command: MenuCommand,
    suggestion: Option<Seq<char>>,
)
    requires
        commands(action, command, suggestion),
    ensures
        action matches MenuAction::SetTheme(chosen) ==> command == MenuCommand::Post(
            ControlMessage::SetTheme(chosen),
        ),
        action matches MenuAction::SetSttMode(chosen) ==> command == MenuCommand::Post(
            ControlMessage::SetSttMode(chosen),
        ),
        action matches MenuAction::SetUiLanguage(chosen) ==> command == MenuCommand::Post(
            ControlMessage::SetUiLanguage(chosen),
        ),
        action matches MenuAction::SetPromptPreset(chosen) ==> command == MenuCommand::Post(
            ControlMessage::SetPromptPreset(chosen),
        ),
        action matches MenuAction::SetEffort(chosen) ==> command == MenuCommand::Post(
            ControlMessage::SetEffort(chosen),
        ),
{
}

/// A device that is chosen by its name is recorded from by that name, and the
/// choice without a name leaves it to the system.
pub proof fn a_device_arrives_by_its_name(
    name: String,
    command: MenuCommand,
    suggestion: Option<Seq<char>>,
)
    requires
        commands(MenuAction::SetInputDevice(name), command, suggestion),
    ensures
        command matches MenuCommand::Post(ControlMessage::SetInputDevice(device)) && match device {
            Some(device) => device@ == name@ && name@.len() > 0,
            None => name@.len() == 0,
        },
{
}

/// The choices without a value ask for what they are named after.
pub proof fn a_plain_choice_asks_for_what_it_names(suggestion: Option<Seq<char>>)
    ensures
        commands(
            MenuAction::ChangeHotkey,
            MenuCommand::Post(ControlMessage::ChangeHotkey),
            suggestion,
        ),
        commands(
            MenuAction::ProbeMicrophones,
            MenuCommand::Post(ControlMessage::ProbeMicrophones),
            suggestion,
        ),
        commands(MenuAction::Exit, MenuCommand::Post(ControlMessage::Exit), suggestion),
        commands(MenuAction::EditPrompt, MenuCommand::EditPrompt, suggestion),
        commands(MenuAction::OpenModelsDir, MenuCommand::OpenModelsDir, suggestion),
        commands(MenuAction::CheckUpdates, MenuCommand::CheckUpdates, suggestion),
{
}

/// The value of what a choice asks for, with the texts by what they say.
pub open spec fn same_request(a: MenuCommand, b: MenuCommand) -> bool {
    match (a, b) {
        (MenuCommand::ClickModel(x), MenuCommand::ClickModel(y)) => x@ == y@,
        (
            MenuCommand::Post(ControlMessage::SetInputDevice(x)),
            MenuCommand::Post(ControlMessage::SetInputDevice(y)),
        ) => option_text(x) == option_text(y),
        _ => a == b,
    }
}

/// A choice asks for one thing only.
pub proof fn a_choice_asks_for_one_thing(
    action: MenuAction,
    first: MenuCommand,
    second: MenuCommand,
    suggestion: Option<Seq<char>>,
)
    requires
        commands(action, first, suggestion),
        commands(action, second, suggestion),
    ensures
        same_request(first, second),
{
}

/// No two choices ask for the same thing, but for a model that is clicked and
/// suggested at once, and the choices that ask for nothing.
pub proof fn choices_ask_for_different_things(
    first: MenuAction,
    second: MenuAction,
    command: MenuCommand,
    suggestion: Option<Seq<char>>,
)
    requires
        commands(first, command, suggestion),
        commands(second, command, suggestion),
        !(command is Nothing) && !(command is ClickModel),
    ensures
        first@ == second@,
{
    if let (MenuAction::SetInputDevice(a), MenuAction::SetInputDevice(b)) = (first, second) {
        assert(a@ =~= b@);
    }
}

} // verus!
