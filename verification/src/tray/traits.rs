//! What the tray reports and what its menu can ask for.
use vstd::prelude::*;

use crate::config::{EffortPreset, PromptPreset, SttMode, Theme, UiLanguage};

verus! {

/// What can go wrong in the tray.
#[derive(Debug, PartialEq, Eq)]
pub enum TrayError {
    Tray(String),
}

/// What the tray icon shows.
#[derive(Debug, Clone, Copy, PartialEq, Eq, Structural)]
pub enum TrayState {
    Idle,
    Listening,
    Processing,
    Paused,
    /// The speech model is loading; the first dictation waits for it.
    Loading,
    Error,
}

/// What a click on the menu asks for.
#[derive(Debug, PartialEq, Eq)]
pub enum MenuAction {
    ChangeHotkey,
    SetTheme(Theme),
    SetSttMode(SttMode),
    SetUiLanguage(UiLanguage),
    SetPromptPreset(PromptPreset),
    SetEffort(EffortPreset),
    /// Open the configuration in a text editor.
    EditPrompt,
    OpenModelsDir,
    CheckUpdates,
    TogglePause,
    Exit,
    /// A click on a model, by its file name.
    ModelItem(String),
    /// Change to the multilingual counterpart of an English-only model.
    FixModelLanguage(String),
    /// Record from the named device; the empty name stands for the default.
    SetInputDevice(String),
    /// Measure the microphones again.
    ProbeMicrophones,
}

/// The value of a [`MenuAction`].
pub enum ActionView {
    ChangeHotkey,
    SetTheme(Theme),
    SetSttMode(SttMode),
    SetUiLanguage(UiLanguage),
    SetPromptPreset(PromptPreset),
    SetEffort(EffortPreset),
    EditPrompt,
    OpenModelsDir,
    CheckUpdates,
    TogglePause,
    Exit,
    ModelItem(Seq<char>),
    FixModelLanguage(Seq<char>),
    SetInputDevice(Seq<char>),
    ProbeMicrophones,
}

impl View for MenuAction {
    type V = ActionView;

    open spec fn view(&self) -> ActionView {
        match self {
            MenuAction::ChangeHotkey => ActionView::ChangeHotkey,
            MenuAction::SetTheme(t) => ActionView::SetTheme(*t),
            MenuAction::SetSttMode(m) => ActionView::SetSttMode(*m),
            MenuAction::SetUiLanguage(l) => ActionView::SetUiLanguage(*l),
            MenuAction::SetPromptPreset(p) => ActionView::SetPromptPreset(*p),
            MenuAction::SetEffort(e) => ActionView::SetEffort(*e),
            MenuAction::EditPrompt => ActionView::EditPrompt,
            MenuAction::OpenModelsDir => ActionView::OpenModelsDir,
            MenuAction::CheckUpdates => ActionView::CheckUpdates,
            MenuAction::TogglePause => ActionView::TogglePause,
            MenuAction::Exit => ActionView::Exit,
            MenuAction::ModelItem(f) => ActionView::ModelItem(f@),
            MenuAction::FixModelLanguage(f) => ActionView::FixModelLanguage(f@),
            MenuAction::SetInputDevice(n) => ActionView::SetInputDevice(n@),
            MenuAction::ProbeMicrophones => ActionView::ProbeMicrophones,
        }
    }
}

} // verus!
