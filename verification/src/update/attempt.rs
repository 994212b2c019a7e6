//! An update attempt as a state machine.
//!
//! The machine decides; its driver acts. The driver performs the [`Action`]
//! that the machine hands out, reports what came of it as an [`Event`], and
//! goes on until the machine is [`Step::Finished`]. Every decision of the
//! attempt is taken here: whether the device is known, which version it is
//! assigned, whether that version is to be installed, where its archive is,
//! whether the archive is sound, and how a failed start is undone.

use crate::err::{fault, fault_of, Error, ErrorKind, ErrorView};
use crate::text::views;
use crate::update::archive::{validate_entries, validated};
use crate::update::identity::{resolve_id, resolved};
use crate::update::location::{archive_uri, located};
use crate::update::manifest::{Manifest, ManifestView};
use crate::update::release::{
    candidate,
    candidate_of,
    ledger_lists,
    listed,
    semver_parse,
    SemVer,
    SemVerView,
};
use crate::update::retention::{
    archive_file,
    archive_file_of,
    archived_name,
    archived_name_of,
    retained_archives,
    retained_of,
    stamp,
    utc_stamp,
};
use crate::update::settings::{body_text, device_settings, manifest_body, selected};
use crate::update::status::{outcome_view, ExecutionStatus, StatusView};
use vstd::prelude::*;

verus! {

/// Where an attempt stands: what its driver is doing at the moment.
#[derive(Debug, Clone, Copy, PartialEq, Eq, Structural)]
pub enum Phase {
    /// Running `id.sh`.
    Identifying,
    /// Requesting the manifest.
    Fetching,
    /// Reading the manifest's text as a manifest.
    Parsing,
    /// Reading the ledger of failed versions.
    ReadingLedger,
    /// Downloading the archive.
    Downloading,
    /// Unpacking the archive into the staging directory.
    Extracting,
    /// Reading the clock.
    Stamping,
    /// Setting the live directory aside.
    Archiving,
    /// Moving the staged application into place.
    Installing,
    /// Starting the new version.
    Spawning,
    /// Waiting for the new version to exit.
    Waiting,
    /// Listing the local prefix.
    Listing,
    /// Compressing the directory that was set aside.
    Compressing,
    /// Removing the archives of earlier generations.
    Pruning,
    /// Writing the version marker.
    Marking,
    /// Removing the directory that was set aside.
    Discarding,
    /// Recording the version as failed.
    Recording,
    /// Removing what is left of the new version.
    Clearing,
    /// Putting the directory that was set aside back.
    Restoring,
    /// Removing the staging directory.
    Cleaning,
}

/// An update attempt in progress.
#[derive(Debug)]
pub struct Attempt {
    /// The address of the manifest.
    pub manifest_url: String,
    /// The type of object this device is.
    pub object_type: String,
    /// The name of the managed application.
    pub app_name: String,
    /// The version that is installed.
    pub current: SemVer,
    /// What the driver is doing at the moment.
    pub phase: Phase,
    /// The device's identifier, once known.
    pub thing_id: String,
    /// The version assigned to the device, as the manifest spells it, once
    /// known.
    pub version: String,
    /// The name under which the live directory is set aside, once chosen.
    pub archived: String,
    /// The archives of earlier generations, once listed.
    pub retained: Vec<String>,
    /// How the attempt will end once the work under way is done.
    pub pending: Result<ExecutionStatus, Error>,
}

/// The mathematical content of an [`Attempt`].
pub struct AttemptView {
    pub manifest_url: Seq<char>,
    pub object_type: Seq<char>,
    pub app_name: Seq<char>,
    pub current: SemVerView,
    pub phase: Phase,
    pub thing_id: Seq<char>,
    pub version: Seq<char>,
    pub archived: Seq<char>,
    pub retained: Seq<Seq<char>>,
    pub pending: Result<StatusView, ErrorView>,
}

impl View for Attempt {
    type V = AttemptView;

    open spec fn view(&self) -> AttemptView {
        AttemptView {
            manifest_url: self.manifest_url@,
            object_type: self.object_type@,
            app_name: self.app_name@,
            current: self.current@,
            phase: self.phase,
            thing_id: self.thing_id@,
            version: self.version@,
            archived: self.archived@,
            retained: views(self.retained@),
            pending: outcome_view(self.pending),
        }
    }
}

/// What came of the action that the driver was asked to perform.
pub enum Event {
    /// `id.sh` has run; its standard output.
    Output(Vec<u8>),
    /// The manifest request was answered; the status and the body.
    Response(u16, Vec<u8>),
    /// The manifest's text is a manifest.
    Parsed(Manifest),
    /// The lines of the ledger of failed versions; none where there is no
    /// ledger yet.
    Lines(Vec<String>),
    /// The archive is unpacked; the relative paths of the entries.
    Entries(Vec<String>),
    /// The time, in seconds after the epoch.
    Clock(i64),
    /// The names in the local prefix.
    Names(Vec<String>),
    /// The new version has exited; its exit code, if it has one.
    Exited(Option<i32>),
    /// The action is done and has nothing to report.
    Done,
    /// The action failed, for the reason given.
    Failed(String),
}

/// The mathematical content of an [`Event`].
pub enum EventView {
    Output(Seq<u8>),
    Response(u16, Seq<u8>),
    Parsed(ManifestView),
    Lines(Seq<Seq<char>>),
    Entries(Seq<Seq<char>>),
    Clock(i64),
    Names(Seq<Seq<char>>),
    Exited(Option<i32>),
    Done,
    Failed(Seq<char>),
}

impl View for Event {
    type V = EventView;

    open spec fn view(&self) -> EventView {
        match self {
            Event::Output(bytes) => EventView::Output(bytes@),
            Event::Response(status, body) => EventView::Response(*status, body@),
            Event::Parsed(manifest) => EventView::Parsed(manifest@),
            Event::Lines(lines) => EventView::Lines(views(lines@)),
            Event::Entries(paths) => EventView::Entries(views(paths@)),
            Event::Clock(seconds) => EventView::Clock(*seconds),
            Event::Names(names) => EventView::Names(views(names@)),
            Event::Exited(code) => EventView::Exited(*code),
            Event::Done => EventView::Done,
            Event::Failed(cause) => EventView::Failed(cause@),
        }
    }
}

/// What the driver is to do next. Names are relative to the local prefix.
#[derive(Debug)]
pub enum Action {
    /// Run `id.sh` of the live directory and report its standard output.
    RunIdScript,
    /// Request the manifest at this address and report status and body.
    FetchManifest(String),
    /// Read this text as a manifest and report the manifest.
    ParseManifest(String),
    /// Report the lines of the ledger of failed versions. A ledger that
    /// does not exist yet has no lines; that it cannot be read is a failure.
    ReadLedger,
    /// Download the archive at this address into a temporary file.
    Download(String),
    /// Unpack the downloaded archive into a fresh staging directory and
    /// report the relative paths of its entries.
    Extract,
    /// Report the time.
    ReadClock,
    /// Rename the live directory to this name.
    ArchiveLive(String),
    /// Rename the staged application to the live directory.
    InstallStaged,
    /// Start `run.sh` of the live directory.
    Spawn,
    /// Report the names in the local prefix.
    ListNames,
    /// Compress the directory of the first name into the file of the second.
    Compress(String, String),
    /// Remove the directory of this name.
    RemoveArchived(String),
    /// Remove the files of these names.
    RemoveRetained(Vec<String>),
    /// Write this version into the version marker of the live directory.
    WriteMarker(String),
    /// Wait for the new version to exit and report its exit code.
    Wait,
    /// Append this version to the ledger of failed versions, creating the
    /// ledger if there is none.
    AppendLedger(String),
    /// Remove the live directory, if there is one.
    RemoveLive,
    /// Rename the directory of this name to the live directory.
    Restore(String),
    /// Remove the staging directory, if there is one.
    CleanStaging,
}

/// The mathematical content of an [`Action`].
pub enum ActionView {
    RunIdScript,
    FetchManifest(Seq<char>),
    ParseManifest(Seq<char>),
    ReadLedger,
    Download(Seq<char>),
    Extract,
    ReadClock,
    ArchiveLive(Seq<char>),
    InstallStaged,
    Spawn,
    ListNames,
    Compress(Seq<char>, Seq<char>),
    RemoveArchived(Seq<char>),
    RemoveRetained(Seq<Seq<char>>),
    WriteMarker(Seq<char>),
    Wait,
    AppendLedger(Seq<char>),
    RemoveLive,
    Restore(Seq<char>),
    CleanStaging,
}

impl View for Action {
    type V = ActionView;

    open spec fn view(&self) -> ActionView {
        match self {
            Action::RunIdScript => ActionView::RunIdScript,
            Action::FetchManifest(url) => ActionView::FetchManifest(url@),
            Action::ParseManifest(text) => ActionView::ParseManifest(text@),
            Action::ReadLedger => ActionView::ReadLedger,
            Action::Download(url) => ActionView::Download(url@),
            Action::Extract => ActionView::Extract,
            Action::ReadClock => ActionView::ReadClock,
            Action::ArchiveLive(name) => ActionView::ArchiveLive(name@),
            Action::InstallStaged => ActionView::InstallStaged,
            Action::Spawn => ActionView::Spawn,
            Action::ListNames => ActionView::ListNames,
            Action::Compress(dir, file) => ActionView::Compress(dir@, file@),
            Action::RemoveArchived(name) => ActionView::RemoveArchived(name@),
            Action::RemoveRetained(names) => ActionView::RemoveRetained(views(names@)),
            Action::WriteMarker(version) => ActionView::WriteMarker(version@),
            Action::Wait => ActionView::Wait,
            Action::AppendLedger(version) => ActionView::AppendLedger(version@),
            Action::RemoveLive => ActionView::RemoveLive,
            Action::Restore(name) => ActionView::Restore(name@),
            Action::CleanStaging => ActionView::CleanStaging,
        }
    }
}

/// What the machine answers to an event.
#[derive(Debug)]
pub enum Step {
    /// The attempt goes on: its new state, and what to do next.
    Next(Attempt, Action),
    /// The attempt is over.
    Finished(Result<ExecutionStatus, Error>),
}

/// The mathematical content of a [`Step`].
pub enum StepView {
    Next(AttemptView, ActionView),
    Finished(Result<StatusView, ErrorView>),
}

impl View for Step {
    type V = StepView;

    open spec fn view(&self) -> StepView {
        match self {
            Step::Next(attempt, action) => StepView::Next(attempt@, action@),
            Step::Finished(outcome) => StepView::Finished(outcome_view(*outcome)),
        }
    }
}

/// Why an action failed, as an event tells it. An event that the phase does
/// not expect counts as a failure too.
pub open spec fn cause_of(event: EventView) -> Seq<char> {
    match event {
        EventView::Failed(cause) => cause,
        _ => "unexpected event"@,
    }
}

/// The state in which an attempt begins.
pub open spec fn started(
    manifest_url: Seq<char>,
    object_type: Seq<char>,
    app_name: Seq<char>,
    current: SemVerView,
) -> AttemptView {
    AttemptView {
        manifest_url,
        object_type,
        app_name,
        current,
        phase: Phase::Identifying,
        thing_id: Seq::empty(),
        version: Seq::empty(),
        archived: Seq::empty(),
        retained: Seq::empty(),
        pending: Ok(StatusView::NoUpdate(Seq::empty())),
    }
}

/// The attempt goes on in `phase` with `action`.
pub open spec fn going(a: AttemptView, phase: Phase, action: ActionView) -> StepView {
    StepView::Next(AttemptView { phase, ..a }, action)
}

/// The attempt is over with the error of kind `kind` that tells the cause.
pub open spec fn halted(kind: ErrorKind, prefix: Seq<char>, cause: Seq<char>) -> StepView {
    StepView::Finished(Err(fault_of(kind, prefix, cause)))
}

/// The staging directory is removed; then the attempt ends with `outcome`.
pub open spec fn cleaning(a: AttemptView, outcome: Result<StatusView, ErrorView>) -> StepView {
    StepView::Next(
        AttemptView { phase: Phase::Cleaning, pending: outcome, ..a },
        ActionView::CleanStaging,
    )
}

/// The reason given when a failed start has been undone.
pub open spec fn revert_reason(cause: Seq<char>) -> Seq<char> {
    "Reverts due to failed execution of application from update archive: "@ + cause
}

/// The new version failed to start or to settle: it is recorded as failed,
/// and then the previous one is put back.
pub open spec fn reverting(a: AttemptView, cause: Seq<char>) -> StepView {
    StepView::Next(
        AttemptView {
            phase: Phase::Recording,
            pending: Ok(StatusView::NoUpdate(revert_reason(cause))),
            ..a
        },
        ActionView::AppendLedger(a.version),
    )
}

/// The pending outcome, with a note that the failed version could not be
/// recorded.
pub open spec fn noted(pending: Result<StatusView, ErrorView>, cause: Seq<char>) -> Result<
    StatusView,
    ErrorView,
> {
    match pending {
        Ok(StatusView::NoUpdate(reason)) => Ok(
            StatusView::NoUpdate(reason + "; failed version not recorded: "@ + cause),
        ),
        other => other,
    }
}

/// After `id.sh`: the manifest is requested, provided the device's
/// identifier is sound.
pub open spec fn identified(a: AttemptView, event: EventView) -> StepView {
    let outcome = match event {
        EventView::Output(bytes) => Ok(bytes),
        _ => Err(cause_of(event)),
    };
    match resolved(outcome) {
        Ok(id) => StepView::Next(
            AttemptView { phase: Phase::Fetching, thing_id: id, ..a },
            ActionView::FetchManifest(a.manifest_url),
        ),
        Err(err) => StepView::Finished(Err(err)),
    }
}

/// After the manifest request: the body is handed out to be read as a
/// manifest, provided the status is 200 and the body is text.
pub open spec fn fetched(a: AttemptView, event: EventView) -> StepView {
    match event {
        EventView::Response(status, body) => match body_text(status, body) {
            Ok(text) => going(a, Phase::Parsing, ActionView::ParseManifest(text)),
            Err(err) => StepView::Finished(Err(err)),
        },
        _ => halted(ErrorKind::Fetch, "Fails to fetch manifest: "@, cause_of(event)),
    }
}

/// After the manifest is read: the ledger is asked for, provided the
/// manifest is meant for this type of object, one of its rules applies to the
/// device, and the version of that rule is strictly newer than the installed
/// one.
pub open spec fn parsed(a: AttemptView, event: EventView) -> StepView {
    match event {
        EventView::Parsed(manifest) => match selected(a.object_type, manifest, a.thing_id) {
            Err(err) => StepView::Finished(Err(err)),
            Ok(None) => halted(ErrorKind::NoDeviceMatch, "No device matching "@, a.thing_id),
            Ok(Some(device)) => match candidate_of(a.current, device.version) {
                Err(err) => StepView::Finished(Err(err)),
                Ok(None) => StepView::Finished(
                    Ok(
                        StatusView::NoUpdate(
                            "Application version is already up-to-date: "@ + device.version,
                        ),
                    ),
                ),
                Ok(Some(_)) => StepView::Next(
                    AttemptView { phase: Phase::ReadingLedger, version: device.version, ..a },
                    ActionView::ReadLedger,
                ),
            },
        },
        _ => halted(ErrorKind::Parse, "YAML error: "@, cause_of(event)),
    }
}

/// After the ledger is read: the archive is downloaded, unless the ledger
/// lists the version.
pub open spec fn ledger_read(a: AttemptView, event: EventView) -> StepView {
    match event {
        EventView::Lines(lines) => match semver_parse(a.version) {
            Err(message) => StepView::Finished(
                Err(ErrorView { kind: ErrorKind::InvalidVersion, message }),
            ),
            Ok(version) => if listed(lines, version) {
                StepView::Finished(
                    Ok(StatusView::NoUpdate("Application version is a failed one: "@ + a.version)),
                )
            } else {
                match located(a.manifest_url, a.app_name, a.version) {
                    Ok(uri) => going(a, Phase::Downloading, ActionView::Download(uri.text)),
                    Err(err) => StepView::Finished(Err(err)),
                }
            },
        },
        _ => halted(ErrorKind::Io, "I/O error: "@, cause_of(event)),
    }
}

/// After the download: the archive is unpacked.
pub open spec fn downloaded(a: AttemptView, event: EventView) -> StepView {
    match event {
        EventView::Done => going(a, Phase::Extracting, ActionView::Extract),
        _ => halted(ErrorKind::Fetch, "Fails to fetch archive: "@, cause_of(event)),
    }
}

/// After the archive is unpacked: the clock is read, provided both entry
/// points are there.
pub open spec fn extracted(a: AttemptView, event: EventView) -> StepView {
    match event {
        EventView::Entries(paths) => match validated(a.app_name, paths) {
            Ok(_) => going(a, Phase::Stamping, ActionView::ReadClock),
            Err(err) => cleaning(a, Err(err)),
        },
        _ => cleaning(a, Err(fault_of(ErrorKind::Io, "I/O error: "@, cause_of(event)))),
    }
}

/// After the clock is read: the live directory is set aside under a name
/// that tells the time.
pub open spec fn stamped(a: AttemptView, event: EventView) -> StepView {
    match event {
        EventView::Clock(seconds) => match utc_stamp(seconds) {
            Some(stamp) => StepView::Next(
                AttemptView {
                    phase: Phase::Archiving,
                    archived: archived_name_of(a.app_name, stamp),
                    ..a
                },
                ActionView::ArchiveLive(archived_name_of(a.app_name, stamp)),
            ),
            None => cleaning(
                a,
                Err(fault_of(ErrorKind::Io, "I/O error: "@, "time out of range"@)),
            ),
        },
        _ => cleaning(a, Err(fault_of(ErrorKind::Io, "I/O error: "@, cause_of(event)))),
    }
}

/// After the live directory is set aside: the staged application is moved
/// into place.
pub open spec fn archived(a: AttemptView, event: EventView) -> StepView {
    match event {
        EventView::Done => going(a, Phase::Installing, ActionView::InstallStaged),
        _ => cleaning(a, Err(fault_of(ErrorKind::Swap, "I/O error: "@, cause_of(event)))),
    }
}

/// After the staged application is moved into place: it is started. Where
/// the move failed, the directory that was set aside is put back.
pub open spec fn installed(a: AttemptView, event: EventView) -> StepView {
    match event {
        EventView::Done => going(a, Phase::Spawning, ActionView::Spawn),
        _ => StepView::Next(
            AttemptView {
                phase: Phase::Restoring,
                pending: Err(fault_of(ErrorKind::Swap, "I/O error: "@, cause_of(event))),
                ..a
            },
            ActionView::Restore(a.archived),
        ),
    }
}

/// After the start of the new version: it is waited for.
pub open spec fn spawned(a: AttemptView, event: EventView) -> StepView {
    match event {
        EventView::Done => going(a, Phase::Waiting, ActionView::Wait),
        _ => reverting(a, cause_of(event)),
    }
}

/// After the new version has exited: the local prefix is listed. The exit
/// code is kept in mind as the outcome that is pending. The directory that
/// was set aside is still there, so that a wait that failed can be undone.
pub open spec fn waited(a: AttemptView, event: EventView) -> StepView {
    match event {
        EventView::Exited(code) => StepView::Next(
            AttemptView {
                phase: Phase::Listing,
                pending: Ok(StatusView::AppTerminated(code)),
                ..a
            },
            ActionView::ListNames,
        ),
        _ => reverting(a, cause_of(event)),
    }
}

/// After the listing: the directory that was set aside is compressed. The
/// archives of earlier generations are kept in mind.
pub open spec fn listing_read(a: AttemptView, event: EventView) -> StepView {
    match event {
        EventView::Names(names) => StepView::Next(
            AttemptView {
                phase: Phase::Compressing,
                retained: retained_of(a.app_name, names),
                ..a
            },
            ActionView::Compress(a.archived, archive_file_of(a.archived)),
        ),
        _ => reverting(a, cause_of(event)),
    }
}

/// After compressing: the archives of earlier generations are removed.
pub open spec fn compressed(a: AttemptView, event: EventView) -> StepView {
    match event {
        EventView::Done => going(a, Phase::Pruning, ActionView::RemoveRetained(a.retained)),
        _ => reverting(a, cause_of(event)),
    }
}

/// After the earlier archives are removed: the version marker is written.
pub open spec fn pruned(a: AttemptView, event: EventView) -> StepView {
    match event {
        EventView::Done => going(a, Phase::Marking, ActionView::WriteMarker(a.version)),
        _ => reverting(a, cause_of(event)),
    }
}

/// After the marker is written: the directory that was set aside is
/// removed. It is removed last, so that whatever fails before can be undone.
pub open spec fn marked(a: AttemptView, event: EventView) -> StepView {
    match event {
        EventView::Done => going(a, Phase::Discarding, ActionView::RemoveArchived(a.archived)),
        _ => reverting(a, cause_of(event)),
    }
}

/// After the directory is removed: the attempt ends as is pending, with the
/// exit code of the new version, once the staging directory is removed.
pub open spec fn discarded(a: AttemptView, event: EventView) -> StepView {
    match event {
        EventView::Done => cleaning(a, a.pending),
        _ => reverting(a, cause_of(event)),
    }
}

/// After the version is recorded as failed: what is left of it is removed.
/// Where it could not be recorded, the reason that will be given says so.
pub open spec fn recorded(a: AttemptView, event: EventView) -> StepView {
    match event {
        EventView::Done => going(a, Phase::Clearing, ActionView::RemoveLive),
        _ => StepView::Next(
            AttemptView { phase: Phase::Clearing, pending: noted(a.pending, cause_of(event)), ..a },
            ActionView::RemoveLive,
        ),
    }
}

/// After the new version is removed: the directory that was set aside is put
/// back.
pub open spec fn cleared(a: AttemptView, event: EventView) -> StepView {
    match event {
        EventView::Done => going(a, Phase::Restoring, ActionView::Restore(a.archived)),
        _ => cleaning(a, Err(fault_of(ErrorKind::Revert, "I/O error: "@, cause_of(event)))),
    }
}

/// After the directory is put back: the attempt ends as was pending, once the
/// staging directory is removed. Where it could not be put back, the attempt
/// ends with `Revert`.
pub open spec fn restored(a: AttemptView, event: EventView) -> StepView {
    match event {
        EventView::Done => cleaning(a, a.pending),
        _ => cleaning(a, Err(fault_of(ErrorKind::Revert, "I/O error: "@, cause_of(event)))),
    }
}

/// The answer of the machine in state `a` to `event`.
pub open spec fn step_of(a: AttemptView, event: EventView) -> StepView {
    match a.phase {
        Phase::Identifying => identified(a, event),
        Phase::Fetching => fetched(a, event),
        Phase::Parsing => parsed(a, event),
        Phase::ReadingLedger => ledger_read(a, event),
        Phase::Downloading => downloaded(a, event),
        Phase::Extracting => extracted(a, event),
        Phase::Stamping => stamped(a, event),
        Phase::Archiving => archived(a, event),
        Phase::Installing => installed(a, event),
        Phase::Spawning => spawned(a, event),
        Phase::Waiting => waited(a, event),
        Phase::Listing => listing_read(a, event),
        Phase::Compressing => compressed(a, event),
        Phase::Pruning => pruned(a, event),
        Phase::Marking => marked(a, event),
        Phase::Discarding => discarded(a, event),
        Phase::Recording => recorded(a, event),
        Phase::Clearing => cleared(a, event),
        Phase::Restoring => restored(a, event),
        Phase::Cleaning => StepView::Finished(a.pending),
    }
}

/// Why an action failed, as an event tells it.
fn cause(event: Event) -> (c: String)
    ensures
        c@ == cause_of(event@),
{
    match event {
        Event::Failed(cause) => cause,
        _ => String::from_str("unexpected event"),
    }
}

/// The pending outcome, with a note that the failed version could not be
/// recorded.
fn note(pending: Result<ExecutionStatus, Error>, cause: &str) -> (r: Result<ExecutionStatus, Error>)
    ensures
        outcome_view(r) == noted(outcome_view(pending), cause@),
{
    match pending {
        Ok(ExecutionStatus::NoUpdate(reason)) => {
            let mut reason = reason;
            reason.append("; failed version not recorded: ");
            reason.append(cause);
            Ok(ExecutionStatus::NoUpdate(reason))
        },
        other => other,
    }
}

impl Attempt {
    /// Begins an attempt to update the application `app_name`, of which
    /// `current` is installed, for a device of type `object_type`, from the
    /// manifest at `manifest_url`. The first thing to do is to run `id.sh`.
    pub fn start(manifest_url: String, object_type: String, app_name: String, current: SemVer) -> (r:
        (Attempt, Action))
        ensures
            r.0@ == started(manifest_url@, object_type@, app_name@, current@),
            r.1@ == ActionView::RunIdScript,
    {
        let attempt = Attempt {
            manifest_url,
            object_type,
            app_name,
            current,
            phase: Phase::Identifying,
            thing_id: String::new(),
            version: String::new(),
            archived: String::new(),
            retained: Vec::new(),
            pending: Ok(ExecutionStatus::NoUpdate(String::new())),
        };
        assert(views(attempt.retained@) =~= Seq::<Seq<char>>::empty());
        (attempt, Action::RunIdScript)
    }

    /// The answer to `event`, which tells what came of the action that was
    /// handed out last.
    pub fn step(self, event: Event) -> (r: Step)
        ensures
            r@ == step_of(self@, event@),
    {
        match self.phase {
            Phase::Identifying => self.identify(event),
            Phase::Fetching => self.fetch(event),
            Phase::Parsing => self.parse(event),
            Phase::ReadingLedger => self.read_ledger(event),
            Phase::Downloading => match event {
                Event::Done => self.go(Phase::Extracting, Action::Extract),
                other => Step::Finished(
                    Err(fault(ErrorKind::Fetch, "Fails to fetch archive: ", cause(other).as_str())),
                ),
            },
            Phase::Extracting => self.extract(event),
            Phase::Stamping => self.name_archive(event),
            Phase::Archiving => match event {
                Event::Done => self.go(Phase::Installing, Action::InstallStaged),
                other => self.clean(
                    Err(fault(ErrorKind::Swap, "I/O error: ", cause(other).as_str())),
                ),
            },
            Phase::Installing => match event {
                Event::Done => self.go(Phase::Spawning, Action::Spawn),
                other => {
                    let name = self.archived.clone();
                    let pending = Err(fault(ErrorKind::Swap, "I/O error: ", cause(other).as_str()));
                    Step::Next(
                        Attempt { phase: Phase::Restoring, pending, ..self },
                        Action::Restore(name),
                    )
                },
            },
            Phase::Spawning => match event {
                Event::Done => self.go(Phase::Waiting, Action::Wait),
                other => self.revert(other),
            },
            Phase::Waiting => match event {
                Event::Exited(code) => Step::Next(
                    Attempt {
                        phase: Phase::Listing,
                        pending: Ok(ExecutionStatus::AppTerminated(code)),
                        ..self
                    },
                    Action::ListNames,
                ),
                other => self.revert(other),
            },
            Phase::Listing => match event {
                Event::Names(names) => {
                    let retained = retained_archives(self.app_name.as_str(), &names);
                    let dir = self.archived.clone();
                    let file = archive_file(self.archived.as_str());
                    Step::Next(
                        Attempt { phase: Phase::Compressing, retained, ..self },
                        Action::Compress(dir, file),
                    )
                },
                other => self.revert(other),
            },
            Phase::Compressing => match event {
                Event::Done => {
                    let names = copy_of(&self.retained);
                    self.go(Phase::Pruning, Action::RemoveRetained(names))
                },
                other => self.revert(other),
            },
            Phase::Pruning => match event {
                Event::Done => {
                    let version = self.version.clone();
                    self.go(Phase::Marking, Action::WriteMarker(version))
                },
                other => self.revert(other),
            },
            Phase::Marking => match event {
                Event::Done => {
                    let name = self.archived.clone();
                    self.go(Phase::Discarding, Action::RemoveArchived(name))
                },
                other => self.revert(other),
            },
            Phase::Discarding => match event {
                Event::Done => self.go(Phase::Cleaning, Action::CleanStaging),
                other => self.revert(other),
            },
            Phase::Recording => match event {
                Event::Done => self.go(Phase::Clearing, Action::RemoveLive),
                other => {
                    let Attempt { pending, .. } = self;
                    let pending = note(pending, cause(other).as_str());
                    Step::Next(Attempt { phase: Phase::Clearing, pending, ..self }, Action::RemoveLive)
                },
            },
            Phase::Clearing => match event {
                Event::Done => {
                    let name = self.archived.clone();
                    self.go(Phase::Restoring, Action::Restore(name))
                },
                other => self.clean(
                    Err(fault(ErrorKind::Revert, "I/O error: ", cause(other).as_str())),
                ),
            },
            Phase::Restoring => match event {
                Event::Done => self.go(Phase::Cleaning, Action::CleanStaging),
                other => self.clean(
                    Err(fault(ErrorKind::Revert, "I/O error: ", cause(other).as_str())),
                ),
            },
            Phase::Cleaning => Step::Finished(self.pending),
        }
    }

    /// The attempt goes on in `phase` with `action`.
    fn go(self, phase: Phase, action: Action) -> (r: Step)
        ensures
            r@ == going(self@, phase, action@),
    {
        Step::Next(Attempt { phase, ..self }, action)
    }

    /// The staging directory is removed; then the attempt ends with
    /// `outcome`.
    fn clean(self, outcome: Result<ExecutionStatus, Error>) -> (r: Step)
        ensures
            r@ == cleaning(self@, outcome_view(outcome)),
    {
        Step::Next(Attempt { phase: Phase::Cleaning, pending: outcome, ..self }, Action::CleanStaging)
    }

    /// The version is recorded as failed; then the previous one is put back.
    fn revert(self, event: Event) -> (r: Step)
        ensures
            r@ == reverting(self@, cause_of(event@)),
    {
        let mut reason = String::from_str(
            "Reverts due to failed execution of application from update archive: ",
        );
        reason.append(cause(event).as_str());
        let version = self.version.clone();
        Step::Next(
            Attempt {
                phase: Phase::Recording,
                pending: Ok(ExecutionStatus::NoUpdate(reason)),
                ..self
            },
            Action::AppendLedger(version),
        )
    }

    /// The answer to what came of running `id.sh`.
    fn identify(self, event: Event) -> (r: Step)
        ensures
            r@ == identified(self@, event@),
    {
        let outcome = match event {
            Event::Output(bytes) => Ok(bytes),
            other => Err(cause(other)),
        };
        match resolve_id(outcome) {
            Ok(id) => {
                let url = self.manifest_url.clone();
                Step::Next(
                    Attempt { phase: Phase::Fetching, thing_id: id, ..self },
                    Action::FetchManifest(url),
                )
            },
            Err(e) => Step::Finished(Err(e)),
        }
    }

    /// The answer to what came of requesting the manifest.
    fn fetch(self, event: Event) -> (r: Step)
        ensures
            r@ == fetched(self@, event@),
    {
        match event {
            Event::Response(status, body) => match manifest_body(status, body.as_slice()) {
                Ok(text) => {
                    let text = text.to_owned();
                    self.go(Phase::Parsing, Action::ParseManifest(text))
                },
                Err(e) => Step::Finished(Err(e)),
            },
            other => Step::Finished(
                Err(fault(ErrorKind::Fetch, "Fails to fetch manifest: ", cause(other).as_str())),
            ),
        }
    }

    /// The answer to what came of reading the manifest.
    fn parse(self, event: Event) -> (r: Step)
        ensures
            r@ == parsed(self@, event@),
    {
        match event {
            Event::Parsed(manifest) => {
                match device_settings(
                    self.object_type.as_str(),
                    &manifest,
                    self.thing_id.as_str(),
                ) {
                    Err(e) => Step::Finished(Err(e)),
                    Ok(None) => Step::Finished(
                        Err(
                            fault(
                                ErrorKind::NoDeviceMatch,
                                "No device matching ",
                                self.thing_id.as_str(),
                            ),
                        ),
                    ),
                    Ok(Some(device)) => match candidate(&self.current, device.version.0.as_str()) {
                        Err(e) => Step::Finished(Err(e)),
                        Ok(None) => {
                            let mut reason = String::from_str(
                                "Application version is already up-to-date: ",
                            );
                            reason.append(device.version.0.as_str());
                            Step::Finished(Ok(ExecutionStatus::NoUpdate(reason)))
                        },
                        Ok(Some(_)) => Step::Next(
                            Attempt {
                                phase: Phase::ReadingLedger,
                                version: device.version.0,
                                ..self
                            },
                            Action::ReadLedger,
                        ),
                    },
                }
            },
            other => Step::Finished(
                Err(fault(ErrorKind::Parse, "YAML error: ", cause(other).as_str())),
            ),
        }
    }

    /// The answer to what came of reading the ledger.
    fn read_ledger(self, event: Event) -> (r: Step)
        ensures
            r@ == ledger_read(self@, event@),
    {
        match event {
            Event::Lines(lines) => match SemVer::parse(self.version.as_str()) {
                Err(e) => Step::Finished(Err(e)),
                Ok(version) => if ledger_lists(&lines, &version) {
                    let mut reason = String::from_str("Application version is a failed one: ");
                    reason.append(self.version.as_str());
                    Step::Finished(Ok(ExecutionStatus::NoUpdate(reason)))
                } else {
                    match archive_uri(
                        self.manifest_url.as_str(),
                        self.app_name.as_str(),
                        self.version.as_str(),
                    ) {
                        Ok(uri) => self.go(Phase::Downloading, Action::Download(uri.text)),
                        Err(e) => Step::Finished(Err(e)),
                    }
                },
            },
            other => Step::Finished(
                Err(fault(ErrorKind::Io, "I/O error: ", cause(other).as_str())),
            ),
        }
    }

    /// The answer to what came of unpacking the archive.
    fn extract(self, event: Event) -> (r: Step)
        ensures
            r@ == extracted(self@, event@),
    {
        match event {
            Event::Entries(paths) => match validate_entries(self.app_name.as_str(), &paths) {
                Ok(_) => self.go(Phase::Stamping, Action::ReadClock),
                Err(e) => self.clean(Err(e)),
            },
            other => self.clean(Err(fault(ErrorKind::Io, "I/O error: ", cause(other).as_str()))),
        }
    }

    /// The answer to what came of reading the clock.
    fn name_archive(self, event: Event) -> (r: Step)
        ensures
            r@ == stamped(self@, event@),
    {
        match event {
            Event::Clock(seconds) => match stamp(seconds) {
                Some(text) => {
                    let name = archived_name(self.app_name.as_str(), text.as_str());
                    let archived = name.clone();
                    Step::Next(
                        Attempt { phase: Phase::Archiving, archived, ..self },
                        Action::ArchiveLive(name),
                    )
                },
                None => self.clean(Err(fault(ErrorKind::Io, "I/O error: ", "time out of range"))),
            },
            other => self.clean(Err(fault(ErrorKind::Io, "I/O error: ", cause(other).as_str()))),
        }
    }
}

/// A copy of a list of strings.
fn copy_of(items: &Vec<String>) -> (copy: Vec<String>)
    ensures
        views(copy@) == views(items@),
{
    let mut copy: Vec<String> = Vec::new();
    let mut i: usize = 0;
    while i < items.len()
        invariant
            i <= items.len(),
            views(copy@) == views(items@).take(i as int),
        decreases items.len() - i,
    {
        let ghost before = copy@;
        copy.push(items[i].clone());
        assert(views(copy@) =~= views(before).push(items@[i as int]@));
        assert(views(items@).take(i + 1) =~= views(items@).take(i as int).push(items@[i as int]@));
        i += 1;
    }
    assert(views(items@).take(items.len() as int) =~= views(items@));
    copy
}

/// How far an attempt has come, by its phase.
pub open spec fn progress(phase: Phase) -> nat {
    match phase {
        Phase::Identifying => 0,
        Phase::Fetching => 1,
        Phase::Parsing => 2,
        Phase::ReadingLedger => 3,
        Phase::Downloading => 4,
        Phase::Extracting => 5,
        Phase::Stamping => 6,
        Phase::Archiving => 7,
        Phase::Installing => 8,
        Phase::Spawning => 9,
        Phase::Waiting => 10,
        Phase::Listing => 11,
        Phase::Compressing => 12,
        Phase::Pruning => 13,
        Phase::Marking => 14,
        Phase::Discarding => 15,
        Phase::Recording => 16,
        Phase::Clearing => 17,
        Phase::Restoring => 18,
        Phase::Cleaning => 19,
    }
}

/// Every answer of the machine either ends the attempt or takes it further:
/// an attempt is over after twenty events at most, whatever they are.
pub proof fn every_step_advances(a: AttemptView, event: EventView)
    ensures
        step_of(a, event) matches StepView::Next(b, _) ==> progress(a.phase) < progress(b.phase),
{
}

/// The settings of an attempt and the version that is installed stay as they
/// were given at the start.
pub proof fn settings_are_kept(a: AttemptView, event: EventView)
    ensures
        step_of(a, event) matches StepView::Next(b, _) ==> b.manifest_url == a.manifest_url
            && b.object_type == a.object_type && b.app_name == a.app_name && b.current
            == a.current,
{
}

/// Once the live directory has been set aside, the attempt does not end
/// before the staging directory is cleaned, and it comes to that only in
/// three ways: the new version has run and the directory that was set
/// aside has been archived and removed, that directory has been put back, or
/// putting it back has failed, which ends the attempt with `Revert`.
pub proof fn swap_ends_in_completion_or_rollback(a: AttemptView, event: EventView)
    requires
        progress(Phase::Installing) <= progress(a.phase) < progress(Phase::Cleaning),
    ensures
        step_of(a, event) matches StepView::Next(b, _) && (b.phase == Phase::Cleaning ==> {
            ||| a.phase == Phase::Discarding && event is Done && b.pending == a.pending
            ||| a.phase == Phase::Restoring && event is Done && b.pending == a.pending
            ||| b.pending matches Err(e) && e.kind == ErrorKind::Revert
        }),
{
}

} // verus!
