//! What a check for updates and an update come to.
use vstd::prelude::*;
use vstd::string::*;

verus! {

/// How an update went.
#[derive(Debug, PartialEq, Eq)]
pub enum Status {
    /// There was nothing newer.
    UpToDate,
    /// The newest version was downloaded and its installer started.
    DownloadedAndInstalling { version: String },
}

/// What a check found.
#[derive(Debug, PartialEq, Eq)]
pub struct CheckResult {
    /// The version that runs.
    pub current: String,
    /// The newest version that was published.
    pub latest: String,
    /// Whether the newest is newer than the one that runs.
    pub has_update: bool,
}

/// The value of a [`CheckResult`].
pub struct CheckView {
    pub current: Seq<char>,
    pub latest: Seq<char>,
    pub has_update: bool,
}

impl View for CheckResult {
    type V = CheckView;

    open spec fn view(&self) -> CheckView {
        CheckView {
            current: self.current@,
            latest: self.latest@,
            has_update: self.has_update,
        }
    }
}

/// What the program is told of a check or an update.
#[derive(Debug, PartialEq, Eq)]
pub enum UpdateEvent {
    UpToDate,
    UpdateAvailable { version: String, current: String },
    /// The installer was started.
    Updated { version: String },
    /// The user does not want to hear of this version.
    Skipped { version: String },
    Failed { reason: String },
}

/// The value of an [`UpdateEvent`].
pub enum EventView {
    UpToDate,
    UpdateAvailable { version: Seq<char>, current: Seq<char> },
    Updated { version: Seq<char> },
    Skipped { version: Seq<char> },
    Failed { reason: Seq<char> },
}

impl View for UpdateEvent {
    type V = EventView;

    open spec fn view(&self) -> EventView {
        match self {
            UpdateEvent::UpToDate => EventView::UpToDate,
            UpdateEvent::UpdateAvailable { version, current } => EventView::UpdateAvailable {
                version: version@,
                current: current@,
            },
            UpdateEvent::Updated { version } => EventView::Updated { version: version@ },
            UpdateEvent::Skipped { version } => EventView::Skipped { version: version@ },
            UpdateEvent::Failed { reason } => EventView::Failed { reason: reason@ },
        }
    }
}

/// The word for an event in the log.
pub open spec fn event_kind(event: EventView) -> &'static str {
    match event {
        EventView::UpToDate => "up_to_date",
        EventView::UpdateAvailable { .. } => "update_available",
        EventView::Updated { .. } => "updated",
        EventView::Skipped { .. } => "skipped",
        EventView::Failed { .. } => "failed",
    }
}

impl UpdateEvent {
    /// The word for the event in the log.
    pub fn kind(&self) -> (r: &'static str)
        ensures
            r == event_kind(self@),
    {
        match self {
            UpdateEvent::UpToDate => "up_to_date",
            UpdateEvent::UpdateAvailable { .. } => "update_available",
            UpdateEvent::Updated { .. } => "updated",
            UpdateEvent::Skipped { .. } => "skipped",
            UpdateEvent::Failed { .. } => "failed",
        }
    }
}

/// The log has a word of its own for each kind of event, which depends on the
/// kind alone.
pub proof fn events_have_words_of_their_own(a: EventView, b: EventView)
    ensures
        a is UpToDate ==> event_kind(a)@ == "up_to_date"@,
        a is UpdateAvailable ==> event_kind(a)@ == "update_available"@,
        a is Updated ==> event_kind(a)@ == "updated"@,
        a is Skipped ==> event_kind(a)@ == "skipped"@,
        a is Failed ==> event_kind(a)@ == "failed"@,
        event_kind(a)@ == event_kind(b)@ <==> (a is UpToDate <==> b is UpToDate) && (
        a is UpdateAvailable <==> b is UpdateAvailable) && (a is Updated <==> b is Updated) && (
        a is Skipped <==> b is Skipped) && (a is Failed <==> b is Failed),
{
    reveal_strlit("up_to_date");
    reveal_strlit("update_available");
    reveal_strlit("updated");
    reveal_strlit("skipped");
    reveal_strlit("failed");
    assert("up_to_date"@.len() == 10 && "update_available"@.len() == 16 && "failed"@.len() == 6);
    assert("updated"@.len() == 7 && "skipped"@.len() == 7);
    assert("updated"@[0] == 'u' && "skipped"@[0] == 's');
}

} // verus!
