//! When to look for updates, and what to make of the result.
use vstd::prelude::*;
use vstd::string::*;

use crate::text::text_eq;
use crate::updater::error::{is_visible, short_text, UpdateError};
use crate::updater::status::{CheckResult, CheckView, EventView, Status, UpdateEvent};

verus! {

/// The value of the settings of the updater.
pub struct SettingsView {
    pub auto_update: bool,
    pub check_interval_hours: u32,
    pub skipped_version: Option<Seq<char>>,
    pub last_check: Option<i64>,
}

/// The settings of the updater, wherever they are kept.
pub trait UpdateSettings {
    /// The value of the settings.
    spec fn settings(&self) -> SettingsView;

    /// Whether to look for updates at all.
    fn auto_update(&self) -> (r: bool)
        ensures
            r == self.settings().auto_update,
    ;

    /// The hours between two checks.
    fn check_interval_hours(&self) -> (r: u32)
        ensures
            r == self.settings().check_interval_hours,
    ;

    /// The version that the user does not want to hear of.
    fn skipped_version(&self) -> (r: Option<String>)
        ensures
            match r {
                Some(version) => self.settings().skipped_version == Some(version@),
                None => self.settings().skipped_version is None,
            },
    ;

    /// When the last check was, in seconds since 1970.
    fn last_check(&self) -> (r: Option<i64>)
        ensures
            r == self.settings().last_check,
    ;

    /// Keeps the time of a check.
    fn set_last_check(&mut self, epoch_secs: i64)
        ensures
            final(self).settings() == (SettingsView {
                last_check: Some(epoch_secs),
                ..old(self).settings()
            }),
    ;
}

/// The settings of the updater, in memory.
#[derive(Debug, PartialEq, Eq)]
pub struct UpdateConfig {
    pub auto_update: bool,
    pub check_interval_hours: u32,
    pub skipped_version: Option<String>,
    pub last_check: Option<i64>,
}

impl UpdateSettings for UpdateConfig {
    open spec fn settings(&self) -> SettingsView {
        SettingsView {
            auto_update: self.auto_update,
            check_interval_hours: self.check_interval_hours,
            skipped_version: match self.skipped_version {
                Some(version) => Some(version@),
                None => None,
            },
            last_check: self.last_check,
        }
    }

    fn auto_update(&self) -> (r: bool) {
        self.auto_update
    }

    fn check_interval_hours(&self) -> (r: u32) {
        self.check_interval_hours
    }

    fn skipped_version(&self) -> (r: Option<String>) {
        match &self.skipped_version {
            Some(version) => Some(version.clone()),
            None => None,
        }
    }

    fn last_check(&self) -> (r: Option<i64>) {
        self.last_check
    }

    fn set_last_check(&mut self, epoch_secs: i64) {
        self.last_check = Some(epoch_secs);
    }
}

/// Whether the time for a check has come: there was none yet, or the last lies
/// the interval back.
pub open spec fn is_due(now: i64, last_check: Option<i64>, interval_hours: u32) -> bool {
    last_check matches Some(prev) ==> now - prev >= interval_hours * 3600
}

/// Whether the time for a check has come.
pub fn should_check_now(now: i64, last_check: Option<i64>, interval_hours: u32) -> (r: bool)
    ensures
        r == is_due(now, last_check, interval_hours),
{
    match last_check {
        None => true,
        Some(prev) => now as i128 - prev as i128 >= interval_hours as i128 * 3600,
    }
}

/// What the program is told of a check.
pub open spec fn event_of(check: CheckView, skipped_version: Option<Seq<char>>) -> EventView {
    if !check.has_update {
        EventView::UpToDate
    } else if skipped_version == Some(check.latest) {
        EventView::Skipped { version: check.latest }
    } else {
        EventView::UpdateAvailable { version: check.latest, current: check.current }
    }
}

/// What the program is told of a check.
pub fn check_result_to_event(check: &CheckResult, skipped_version: Option<&str>) -> (r: UpdateEvent)
    ensures
        r@ == event_of(
            check@,
            match skipped_version {
                Some(version) => Some(version@),
                None => None,
            },
        ),
{
    if !check.has_update {
        return UpdateEvent::UpToDate;
    }
    if let Some(skipped) = skipped_version {
        if text_eq(skipped, check.latest.as_str()) {
            return UpdateEvent::Skipped { version: check.latest.clone() };
        }
    }
    UpdateEvent::UpdateAvailable { version: check.latest.clone(), current: check.current.clone() }
}

/// Whether an error is reported to the user.
pub fn should_emit_error(err: &UpdateError) -> (r: bool)
    ensures
        r == is_visible(err@),
{
    err.is_user_visible()
}

/// Whether the scheduler looks for updates at the time `now`.
pub open spec fn looks_now(settings: SettingsView, now: i64) -> bool {
    settings.auto_update && is_due(now, settings.last_check, settings.check_interval_hours)
}

/// Whether the scheduler looks for updates at the time `now`.
pub fn maybe_check<S: UpdateSettings>(settings: &S, now: i64) -> (r: bool)
    ensures
        r == looks_now(settings.settings(), now),
{
    settings.auto_update() && should_check_now(
        now,
        settings.last_check(),
        settings.check_interval_hours(),
    )
}

/// What the program is told of a check that may have failed.
pub open spec fn outcome_event(
    check: Result<CheckResult, UpdateError>,
    skipped_version: Option<Seq<char>>,
) -> EventView {
    match check {
        Ok(check) => event_of(check@, skipped_version),
        Err(e) => EventView::Failed { reason: short_text(e@) },
    }
}

/// What the settings are after a check: its time is kept, unless the version
/// that it found is one to skip.
pub open spec fn settings_after(
    settings: SettingsView,
    now: i64,
    check: Result<CheckResult, UpdateError>,
) -> SettingsView {
    if outcome_event(check, settings.skipped_version) is Skipped {
        settings
    } else {
        SettingsView { last_check: Some(now), ..settings }
    }
}

/// Takes the result of a check that was made at the time `now`.
pub fn conclude_check<S: UpdateSettings>(
    settings: &mut S,
    now: i64,
    check: Result<CheckResult, UpdateError>,
) -> (r: UpdateEvent)
    ensures
        r@ == outcome_event(check, old(settings).settings().skipped_version),
        final(settings).settings() == settings_after(old(settings).settings(), now, check),
{
    let skipped = settings.skipped_version();
    let event = match check {
        Ok(check) => check_result_to_event(
            &check,
            match &skipped {
                Some(version) => Some(version.as_str()),
                None => None,
            },
        ),
        Err(e) => UpdateEvent::Failed { reason: e.user_message() },
    };
    if let UpdateEvent::Skipped { .. } = &event {
    } else {
        settings.set_last_check(now);
    }
    event
}

/// What follows a check that the user asked for.
#[derive(Debug, PartialEq, Eq)]
pub enum OneShot {
    /// Tell the program, and be done.
    Report(UpdateEvent),
    /// Download and install, then report how that went.
    Apply,
}

/// What follows a check that the user asked for. With `install`, an update is
/// installed; a version to skip is reported all the same.
pub fn emit_one_shot_check(check: Result<CheckResult, UpdateError>, install: bool) -> (r: OneShot)
    ensures
        match r {
            OneShot::Apply => install && (check matches Ok(found) && found.has_update),
            OneShot::Report(event) => match check {
                Err(e) => event@ == (EventView::Failed { reason: short_text(e@) }),
                Ok(found) => if !found.has_update {
                    event@ == EventView::UpToDate
                } else {
                    !install && event@ == (EventView::UpdateAvailable {
                        version: found.latest@,
                        current: found.current@,
                    })
                },
            },
        },
        match r {
            OneShot::Apply => one_shot_event(check, install) is None,
            OneShot::Report(event) => one_shot_event(check, install) == Some(event@),
        },
{
    match check {
        Err(e) => OneShot::Report(UpdateEvent::Failed { reason: e.user_message() }),
        Ok(found) => {
            if !found.has_update {
                OneShot::Report(UpdateEvent::UpToDate)
            } else if !install {
                OneShot::Report(
                    UpdateEvent::UpdateAvailable { version: found.latest, current: found.current },
                )
            } else {
                OneShot::Apply
            }
        },
    }
}

/// What the program is told of an update.
pub fn applied_event(applied: Result<Status, UpdateError>) -> (r: UpdateEvent)
    ensures
        r@ == (match applied {
            Ok(Status::UpToDate) => EventView::UpToDate,
            Ok(Status::DownloadedAndInstalling { version }) => EventView::Updated {
                version: version@,
            },
            Err(e) => EventView::Failed { reason: short_text(e@) },
        }),
        r@ == applied_view(applied),
{
    match applied {
        Ok(Status::UpToDate) => UpdateEvent::UpToDate,
        Ok(Status::DownloadedAndInstalling { version }) => UpdateEvent::Updated { version },
        Err(e) => UpdateEvent::Failed { reason: e.user_message() },
    }
}

// ---------------------------------------------------------------------------
// Laws
// ---------------------------------------------------------------------------

/// A check whose version is skipped leaves the settings as they are, and every
/// other check keeps its time.
pub proof fn only_a_skip_keeps_no_time(
    settings: SettingsView,
    now: i64,
    check: Result<CheckResult, UpdateError>,
)
    ensures
        outcome_event(check, settings.skipped_version) is Skipped ==> settings_after(
            settings,
            now,
            check,
        ) == settings,
        !(outcome_event(check, settings.skipped_version) is Skipped) ==> settings_after(
            settings,
            now,
            check,
        ).last_check == Some(now),
{
}

/// After a check that was no skip, none follows before the interval is over.
pub proof fn checks_keep_their_distance(
    settings: SettingsView,
    now: i64,
    later: i64,
    check: Result<CheckResult, UpdateError>,
)
    requires
        !(outcome_event(check, settings.skipped_version) is Skipped),
        later - now < settings.check_interval_hours * 3600,
    ensures
        !looks_now(settings_after(settings, now, check), later),
{
}

/// Without automatic updates the scheduler never looks.
pub proof fn without_automatic_updates_nothing_is_looked_up(settings: SettingsView, now: i64)
    requires
        !settings.auto_update,
    ensures
        !looks_now(settings, now),
{
}

/// The first check is always due. After that one is due from the moment on that
/// the hours are over, to the second, and stays due.
pub proof fn a_check_is_due_when_the_hours_are_over(now: i64, prev: i64, hours: u32, later: i64)
    ensures
        is_due(now, None, hours),
        is_due(now, Some(prev), hours) <==> now - prev >= 3600 * hours,
        is_due(now, Some(prev), hours) && now <= later ==> is_due(later, Some(prev), hours),
        is_due(now, Some(now), 0),
{
}

/// With automatic updates a check is made as soon as one is due, and settings
/// that differ in anything else do not matter.
pub proof fn a_due_check_is_made(settings: SettingsView, other: SettingsView, now: i64)
    requires
        settings.auto_update,
    ensures
        settings.last_check is None ==> looks_now(settings, now),
        settings.last_check matches Some(prev) ==> (looks_now(settings, now) <==> now - prev
            >= settings.check_interval_hours * 3600),
        settings.auto_update == other.auto_update && settings.last_check == other.last_check
            && settings.check_interval_hours == other.check_interval_hours ==> looks_now(
            settings,
            now,
        ) == looks_now(other, now),
{
}

/// Of a check the program is told one of three things. A version that the user
/// skips is never offered, every other newer one is, by its own version and the
/// one that runs, and without a newer one nothing is.
pub proof fn a_newer_version_is_offered_unless_skipped(
    check: CheckView,
    skipped_version: Option<Seq<char>>,
)
    ensures
        match event_of(check, skipped_version) {
            EventView::UpToDate => !check.has_update,
            EventView::Skipped { version } => check.has_update && version == check.latest
                && skipped_version == Some(version),
            EventView::UpdateAvailable { version, current } => check.has_update && version
                == check.latest && current == check.current && skipped_version != Some(version),
            _ => false,
        },
{
}

/// A check that failed is told by its short text, and its time is kept as that
/// of any other.
pub proof fn a_failed_check_is_told(settings: SettingsView, now: i64, e: UpdateError)
    ensures
        ({
            let check = Err::<CheckResult, UpdateError>(e);
            &&& outcome_event(check, settings.skipped_version) == (EventView::Failed {
                reason: short_text(e@),
            })
            &&& settings_after(settings, now, check) == (SettingsView {
                last_check: Some(now),
                ..settings
            })
        }),
{
}

/// A check changes at most the time of the last check, whatever it found.
pub proof fn a_check_changes_its_time_alone(
    settings: SettingsView,
    now: i64,
    check: Result<CheckResult, UpdateError>,
)
    ensures
        ({
            let after = settings_after(settings, now, check);
            &&& after.auto_update == settings.auto_update
            &&& after.check_interval_hours == settings.check_interval_hours
            &&& after.skipped_version == settings.skipped_version
            &&& after.last_check == Some(now) || after.last_check == settings.last_check
            &&& check is Err ==> after.last_check == Some(now)
            &&& (check matches Ok(found) && (!found.has_update || settings.skipped_version != Some(
                found.latest@,
            ))) ==> after.last_check == Some(now)
        }),
{
}

/// What follows a check that the user asked for: `None` for an installation.
pub open spec fn one_shot_event(
    check: Result<CheckResult, UpdateError>,
    install: bool,
) -> Option<EventView> {
    match check {
        Err(e) => Some(EventView::Failed { reason: short_text(e@) }),
        Ok(found) => if !found.has_update {
            Some(EventView::UpToDate)
        } else if install {
            None
        } else {
            Some(
                EventView::UpdateAvailable { version: found.latest@, current: found.current@ },
            )
        },
    }
}

/// A check that the user asked for reports what the scheduler would report if
/// no version were skipped, but for an update that is to be installed.
pub proof fn a_check_on_demand_skips_nothing(
    check: Result<CheckResult, UpdateError>,
    install: bool,
)
    ensures
        one_shot_event(check, false) == Some(outcome_event(check, None)),
        one_shot_event(check, install) is None <==> install && outcome_event(check, None)
            is UpdateAvailable,
        one_shot_event(check, install) matches Some(event) ==> event == outcome_event(check, None),
{
}

/// What the program is told of an update.
pub open spec fn applied_view(applied: Result<Status, UpdateError>) -> EventView {
    match applied {
        Ok(Status::UpToDate) => EventView::UpToDate,
        Ok(Status::DownloadedAndInstalling { version }) => EventView::Updated { version: version@ },
        Err(e) => EventView::Failed { reason: short_text(e@) },
    }
}

/// An update that was installed is told by its version, and one that failed is
/// told as a check that failed in the same way.
pub proof fn an_update_is_told_by_its_outcome(version: String, e: UpdateError)
    ensures
        applied_view(Ok(Status::DownloadedAndInstalling { version })) == (EventView::Updated {
            version: version@,
        }),
        applied_view(Ok(Status::UpToDate)) == EventView::UpToDate,
        applied_view(Err(e)) == outcome_event(Err::<CheckResult, UpdateError>(e), None),
{
}

} // verus!
