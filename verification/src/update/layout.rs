//! What the actions of an attempt do to the device's files, and what follows
//! for an attempt as a whole.
//!
//! The files are modelled: a [`Layout`] says what is where under the local
//! prefix, and [`effect`] says what an action makes of a layout when it
//! succeeds. An action that fails is taken to leave the layout as it was. The
//! laws below then speak of whole runs of the machine in
//! [`attempt`](crate::update::attempt) against that model.

use crate::err::{ErrorKind, ErrorView};
use crate::update::archive::complete;
use crate::update::attempt::{
    going,
    revert_reason,
    step_of,
    ActionView,
    AttemptView,
    EventView,
    Phase,
    StepView,
};
use crate::update::release::{listed, newer, semver_parse, SemVerView};
use crate::update::manifest::ManifestView;
use crate::update::location::located;
use crate::update::retention::{archive_file_of, archived_name_of, is_retained, retained_of, utc_stamp};
use crate::update::settings::selected;
use crate::update::status::StatusView;
use vstd::prelude::*;

verus! {

/// An application directory: the release it holds, and what its version
/// marker says, if it has one.
pub struct Tree {
    pub release: Seq<char>,
    pub marker: Option<Seq<char>>,
}

/// What is where under the local prefix.
pub struct Layout {
    /// The live application directory.
    pub live: Option<Tree>,
    /// The application in the staging directory.
    pub staged: Option<Tree>,
    /// Whether there is a staging directory.
    pub staging: bool,
    /// The application directories that were set aside, by name.
    pub set_aside: Map<Seq<char>, Tree>,
    /// The names of the files directly in the local prefix.
    pub files: Set<Seq<char>>,
    /// The lines of the ledger of failed versions.
    pub ledger: Seq<Seq<char>>,
}

/// The layout after `action` has succeeded on `l`.
pub open spec fn effect(l: Layout, action: ActionView) -> Layout {
    match action {
        ActionView::ArchiveLive(name) => match l.live {
            Some(tree) => Layout { live: None, set_aside: l.set_aside.insert(name, tree), ..l },
            None => l,
        },
        ActionView::InstallStaged => Layout { live: l.staged, staged: None, ..l },
        ActionView::Compress(dir, file) => Layout { files: l.files.insert(file), ..l },
        ActionView::RemoveArchived(name) => Layout { set_aside: l.set_aside.remove(name), ..l },
        ActionView::RemoveRetained(names) => Layout {
            files: l.files.difference(names.to_set()),
            ..l
        },
        ActionView::WriteMarker(version) => match l.live {
            Some(tree) => Layout { live: Some(Tree { marker: Some(version), ..tree }), ..l },
            None => l,
        },
        ActionView::AppendLedger(version) => Layout { ledger: l.ledger.push(version), ..l },
        ActionView::RemoveLive => Layout { live: None, ..l },
        ActionView::Restore(name) => if l.set_aside.contains_key(name) {
            Layout { live: Some(l.set_aside[name]), set_aside: l.set_aside.remove(name), ..l }
        } else {
            l
        },
        ActionView::CleanStaging => Layout { staged: None, staging: false, ..l },
        _ => l,
    }
}

/// Whether `action` changes the live application directory.
pub open spec fn touches_live(action: ActionView) -> bool {
    match action {
        ActionView::ArchiveLive(_) => true,
        ActionView::InstallStaged => true,
        ActionView::WriteMarker(_) => true,
        ActionView::RemoveLive => true,
        ActionView::Restore(_) => true,
        _ => false,
    }
}

/// Whether the swap has not begun in `phase`: the live directory is as the
/// attempt found it.
pub open spec fn before_swap(phase: Phase) -> bool {
    match phase {
        Phase::Identifying => true,
        Phase::Fetching => true,
        Phase::Parsing => true,
        Phase::ReadingLedger => true,
        Phase::Downloading => true,
        Phase::Extracting => true,
        _ => false,
    }
}

/// An attempt together with the files it works on.
pub enum Run {
    /// The attempt is in the given state, its driver is performing the given
    /// action, and the files are as given.
    Going(AttemptView, ActionView, Layout),
    /// The attempt is over, with the given outcome and files.
    Over(Result<StatusView, ErrorView>, Layout),
}

/// The run after the driver has reported `event`: the action under way has
/// taken effect unless the event says that it failed, and the machine has
/// answered.
pub open spec fn after(run: Run, event: EventView) -> Run {
    match run {
        Run::Over(_, _) => run,
        Run::Going(a, action, l) => {
            let files = if event is Failed {
                l
            } else {
                effect(l, action)
            };
            match step_of(a, event) {
                StepView::Next(b, next) => Run::Going(b, next, files),
                StepView::Finished(outcome) => Run::Over(outcome, files),
            }
        },
    }
}

/// The run after the driver has reported `events`, one after the other.
pub open spec fn after_all(run: Run, events: Seq<EventView>) -> Run
    decreases events.len(),
{
    if events.len() == 0 {
        run
    } else {
        after(after_all(run, events.drop_last()), events.last())
    }
}

/// No action that the machine hands out before the swap changes the live
/// application directory.
pub proof fn live_is_untouched_before_swap(a: AttemptView, event: EventView, l: Layout)
    requires
        before_swap(a.phase),
    ensures
        match step_of(a, event) {
            StepView::Next(b, action) => !touches_live(action) && effect(l, action).live == l.live
                && (before_swap(b.phase) || b.phase == Phase::Stamping || b.phase
                == Phase::Cleaning),
            StepView::Finished(_) => true,
        },
{
}

/// The reports of a swap that succeeds, from the reading of the clock on:
/// the time, and the two renames.
pub open spec fn reports_of_swap(seconds: i64) -> Seq<EventView> {
    seq![EventView::Clock(seconds), EventView::Done, EventView::Done]
}

/// The reports of a driver that succeeds in undoing the swap after a
/// failure: the failure, the ledger entry, the removal, the rename back, and
/// the cleaning.
pub open spec fn reports_of_undoing(cause: Seq<char>) -> Seq<EventView> {
    seq![
        EventView::Failed(cause),
        EventView::Done,
        EventView::Done,
        EventView::Done,
        EventView::Done,
    ]
}

/// The reports of a driver all of whose actions succeed, from the reading of
/// the clock on: the swap, the start, the exit, the listing, the compressing,
/// the removal of earlier archives, the marker, the removal of the directory
/// that was set aside, and the cleaning.
pub open spec fn reports_of_success(seconds: i64, names: Seq<Seq<char>>, code: Option<i32>) -> Seq<
    EventView,
> {
    reports_of_swap(seconds) + seq![
        EventView::Done,
        EventView::Exited(code),
        EventView::Names(names),
        EventView::Done,
        EventView::Done,
        EventView::Done,
        EventView::Done,
        EventView::Done,
    ]
}

/// The reports of a driver that fails to start the new version and then
/// succeeds in undoing the swap, from the reading of the clock on.
pub open spec fn reports_of_failed_start(seconds: i64, cause: Seq<char>) -> Seq<EventView> {
    reports_of_swap(seconds) + reports_of_undoing(cause)
}

/// The reports of a driver that starts the new version, fails to wait for it
/// and then succeeds in undoing the swap, from the reading of the clock on.
pub open spec fn reports_of_failed_wait(seconds: i64, cause: Seq<char>) -> Seq<EventView> {
    reports_of_swap(seconds) + seq![EventView::Done] + reports_of_undoing(cause)
}

/// Whether the failure of the action under way in `phase` can be undone: the
/// new version is in place, and the directory that was set aside is still
/// there. This is so from the start of the new version to the removal of
/// that directory, which comes last.
pub open spec fn can_be_undone(phase: Phase) -> bool {
    match phase {
        Phase::Spawning => true,
        Phase::Waiting => true,
        Phase::Listing => true,
        Phase::Compressing => true,
        Phase::Pruning => true,
        Phase::Marking => true,
        Phase::Discarding => true,
        _ => false,
    }
}

/// The files after a swap that succeeded: the staged application is live,
/// and what was live is set aside under `dir`.
pub open spec fn swapped(l: Layout, dir: Seq<char>) -> Layout {
    Layout { live: l.staged, staged: None, set_aside: l.set_aside.insert(dir, l.live->0), ..l }
}

/// One more report is one more answer.
proof fn after_one_more(run: Run, events: Seq<EventView>, k: int)
    requires
        0 <= k < events.len(),
    ensures
        after_all(run, events.take(k + 1)) == after(after_all(run, events.take(k)), events[k]),
{
    assert(events.take(k + 1).drop_last() =~= events.take(k));
}

/// Reports that follow one another can be taken in two parts.
proof fn after_both(run: Run, first: Seq<EventView>, second: Seq<EventView>)
    ensures
        after_all(run, first + second) == after_all(after_all(run, first), second),
    decreases second.len(),
{
    if second.len() == 0 {
        assert(first + second =~= first);
    } else {
        after_both(run, first, second.drop_last());
        assert((first + second).drop_last() =~= first + second.drop_last());
        assert((first + second).last() == second.last());
    }
}

/// The update proceeds to the ledger exactly when the version assigned to the
/// device takes strict precedence over the installed one; an equal or lesser
/// version ends the attempt with `NoUpdate`.
pub proof fn update_proceeds_iff_newer(a: AttemptView, manifest: ManifestView, version: SemVerView)
    requires
        a.phase == Phase::Parsing,
        selected(a.object_type, manifest, a.thing_id) matches Ok(Some(device)) && semver_parse(
            device.version,
        ) == Ok::<SemVerView, Seq<char>>(version),
    ensures
        newer(version, a.current) ==> (step_of(a, EventView::Parsed(manifest)) matches StepView::Next(
            b,
            action,
        ) && action == ActionView::ReadLedger && b.phase == Phase::ReadingLedger),
        !newer(version, a.current) ==> step_of(a, EventView::Parsed(manifest)) matches StepView::Finished(
            Ok(StatusView::NoUpdate(_)),
        ),
{
}

/// A version that the ledger lists is not attempted: the attempt ends with
/// `NoUpdate` before anything is downloaded.
pub proof fn failed_version_is_not_retried(
    a: AttemptView,
    lines: Seq<Seq<char>>,
    version: SemVerView,
)
    requires
        a.phase == Phase::ReadingLedger,
        semver_parse(a.version) == Ok::<SemVerView, Seq<char>>(version),
        listed(lines, version),
    ensures
        step_of(a, EventView::Lines(lines)) matches StepView::Finished(Ok(StatusView::NoUpdate(_))),
{
}

/// Once the version of an attempt has been appended to the ledger, a later
/// attempt at the same version ends with `NoUpdate`, whatever else the ledger
/// holds by then.
pub proof fn recorded_version_is_not_retried(
    a: AttemptView,
    before: Seq<Seq<char>>,
    later: Seq<Seq<char>>,
)
    requires
        a.phase == Phase::ReadingLedger,
        semver_parse(a.version) is Ok,
    ensures
        step_of(a, EventView::Lines(before.push(a.version) + later)) matches StepView::Finished(
            Ok(StatusView::NoUpdate(_)),
        ),
{
    let version = semver_parse(a.version)->Ok_0;
    crate::update::release::recorded_is_listed(before, a.version, version);
    crate::update::release::listed_is_kept(before.push(a.version), later, version);
}

/// A version that the ledger does not list goes on to the download. So does
/// every version where there is no ledger yet: a ledger without lines lists
/// nothing.
pub proof fn unlisted_version_is_downloaded(a: AttemptView, lines: Seq<Seq<char>>)
    requires
        a.phase == Phase::ReadingLedger,
        semver_parse(a.version) matches Ok(version) && !listed(lines, version),
        located(a.manifest_url, a.app_name, a.version) is Ok,
    ensures
        step_of(a, EventView::Lines(lines)) == going(
            a,
            Phase::Downloading,
            ActionView::Download(located(a.manifest_url, a.app_name, a.version)->Ok_0.text),
        ),
        !listed(Seq::<Seq<char>>::empty(), semver_parse(a.version)->Ok_0),
{
}

/// An archive that lacks `run.sh` or `id.sh` directly below the
/// application's name is rejected with `InvalidArchive`, and the live
/// application directory is as it was.
pub proof fn incomplete_archive_is_rejected(
    a: AttemptView,
    paths: Seq<Seq<char>>,
    report: EventView,
    l: Layout,
)
    requires
        a.phase == Phase::Extracting,
        !complete(a.app_name, paths),
    ensures
        after_all(Run::Going(a, ActionView::Extract, l), seq![EventView::Entries(paths), report]) matches Run::Over(
            Err(e),
            files,
        ) && e.kind == ErrorKind::InvalidArchive && files.live == l.live,
{
    let events = seq![EventView::Entries(paths), report];
    let start = Run::Going(a, ActionView::Extract, l);
    assert(events.take(0) =~= Seq::<EventView>::empty());
    assert(events.take(2) =~= events);
    after_one_more(start, events, 0);
    after_one_more(start, events, 1);
}

/// After a swap that succeeds, the staged application is live, what was live
/// is set aside under a name made of the application's name and the time,
/// and the new version is about to be started.
pub proof fn swap_puts_staged_in_place(a: AttemptView, l: Layout, seconds: i64)
    requires
        a.phase == Phase::Stamping,
        utc_stamp(seconds) is Some,
        l.live is Some,
    ensures
        after_all(Run::Going(a, ActionView::ReadClock, l), reports_of_swap(seconds)) == ({
            let dir = archived_name_of(a.app_name, utc_stamp(seconds)->0);
            Run::Going(
                AttemptView { phase: Phase::Spawning, archived: dir, ..a },
                ActionView::Spawn,
                swapped(l, dir),
            )
        }),
{
    let events = reports_of_swap(seconds);
    let start = Run::Going(a, ActionView::ReadClock, l);
    let dir = archived_name_of(a.app_name, utc_stamp(seconds)->0);
    let r1 = after(start, events[0]);
    assert(r1 == Run::Going(
        AttemptView { phase: Phase::Archiving, archived: dir, ..a },
        ActionView::ArchiveLive(dir),
        l,
    ));
    let r2 = after(r1, events[1]);
    assert(r2 matches Run::Going(b, action, _) && b == (AttemptView {
        phase: Phase::Installing,
        archived: dir,
        ..a
    }) && action == ActionView::InstallStaged);
    assert(events.take(0) =~= Seq::<EventView>::empty());
    assert(events.take(3) =~= events);
    after_one_more(start, events, 0);
    after_one_more(start, events, 1);
    after_one_more(start, events, 2);
}

/// Whenever an action fails while the directory that was set aside is still
/// there, and the undoing succeeds, the live directory holds what was set
/// aside, the ledger lists the failed version last, and the attempt ends with
/// `NoUpdate` and a reason that tells the cause. Neither the directory that
/// was set aside nor the staging directory remains.
pub proof fn failure_is_undone(a: AttemptView, action: ActionView, l: Layout, cause: Seq<char>)
    requires
        can_be_undone(a.phase),
        l.set_aside.contains_key(a.archived),
    ensures
        after_all(Run::Going(a, action, l), reports_of_undoing(cause)) == Run::Over(
            Ok(StatusView::NoUpdate(revert_reason(cause))),
            Layout {
                live: Some(l.set_aside[a.archived]),
                set_aside: l.set_aside.remove(a.archived),
                ledger: l.ledger.push(a.version),
                staged: None,
                staging: false,
                ..l
            },
        ),
{
    let events = reports_of_undoing(cause);
    let start = Run::Going(a, action, l);
    assert(events.take(0) =~= Seq::<EventView>::empty());
    assert(events.take(5) =~= events);
    after_one_more(start, events, 0);
    after_one_more(start, events, 1);
    after_one_more(start, events, 2);
    after_one_more(start, events, 3);
    after_one_more(start, events, 4);
}

/// After an update whose new version fails to start, the live directory is
/// as it was before the update, the ledger lists the failed version last, and
/// neither the staging directory nor a directory that was set aside remains.
pub proof fn failed_start_is_undone(a: AttemptView, l: Layout, seconds: i64, cause: Seq<char>)
    requires
        a.phase == Phase::Stamping,
        utc_stamp(seconds) is Some,
        l.live is Some,
        !l.set_aside.contains_key(archived_name_of(a.app_name, utc_stamp(seconds)->0)),
    ensures
        after_all(Run::Going(a, ActionView::ReadClock, l), reports_of_failed_start(seconds, cause))
            == Run::Over(
            Ok(StatusView::NoUpdate(revert_reason(cause))),
            Layout { ledger: l.ledger.push(a.version), staged: None, staging: false, ..l },
        ),
{
    let dir = archived_name_of(a.app_name, utc_stamp(seconds)->0);
    let start = Run::Going(a, ActionView::ReadClock, l);
    swap_puts_staged_in_place(a, l, seconds);
    after_both(start, reports_of_swap(seconds), reports_of_undoing(cause));
    failure_is_undone(
        AttemptView { phase: Phase::Spawning, archived: dir, ..a },
        ActionView::Spawn,
        swapped(l, dir),
        cause,
    );
    assert(swapped(l, dir).set_aside.remove(dir) =~= l.set_aside);
}

/// After an update whose new version starts but cannot be waited for, the
/// live directory is as it was before the update, the ledger lists the failed
/// version last, and neither the staging directory nor a directory that was
/// set aside remains.
pub proof fn failed_wait_is_undone(a: AttemptView, l: Layout, seconds: i64, cause: Seq<char>)
    requires
        a.phase == Phase::Stamping,
        utc_stamp(seconds) is Some,
        l.live is Some,
        !l.set_aside.contains_key(archived_name_of(a.app_name, utc_stamp(seconds)->0)),
    ensures
        after_all(Run::Going(a, ActionView::ReadClock, l), reports_of_failed_wait(seconds, cause))
            == Run::Over(
            Ok(StatusView::NoUpdate(revert_reason(cause))),
            Layout { ledger: l.ledger.push(a.version), staged: None, staging: false, ..l },
        ),
{
    let dir = archived_name_of(a.app_name, utc_stamp(seconds)->0);
    let start = Run::Going(a, ActionView::ReadClock, l);
    let spawning = AttemptView { phase: Phase::Spawning, archived: dir, ..a };
    let waiting = AttemptView { phase: Phase::Waiting, archived: dir, ..a };
    let started = seq![EventView::Done];
    swap_puts_staged_in_place(a, l, seconds);
    after_both(start, reports_of_swap(seconds) + started, reports_of_undoing(cause));
    after_both(start, reports_of_swap(seconds), started);
    assert(after_all(Run::Going(spawning, ActionView::Spawn, swapped(l, dir)), started)
        == Run::Going(waiting, ActionView::Wait, swapped(l, dir))) by {
        assert(started.take(0) =~= Seq::<EventView>::empty());
        assert(started.take(1) =~= started);
        after_one_more(Run::Going(spawning, ActionView::Spawn, swapped(l, dir)), started, 0);
    }
    failure_is_undone(waiting, ActionView::Wait, swapped(l, dir), cause);
    assert(swapped(l, dir).set_aside.remove(dir) =~= l.set_aside);
}

/// After an update all of whose actions succeed, the live directory holds the
/// release that was staged, its version marker names the installed version,
/// exactly one archive of an earlier generation is retained, no directory
/// that was set aside remains, and the staging directory is gone.
pub proof fn successful_update(
    a: AttemptView,
    l: Layout,
    seconds: i64,
    names: Seq<Seq<char>>,
    code: Option<i32>,
)
    requires
        a.phase == Phase::Stamping,
        utc_stamp(seconds) is Some,
        l.live is Some,
        l.staged is Some,
        !l.set_aside.contains_key(archived_name_of(a.app_name, utc_stamp(seconds)->0)),
        forall|name: Seq<char>| l.files.contains(name) ==> names.contains(name),
        !names.contains(archive_file_of(archived_name_of(a.app_name, utc_stamp(seconds)->0))),
    ensures
        after_all(Run::Going(a, ActionView::ReadClock, l), reports_of_success(seconds, names, code)) matches Run::Over(
            outcome,
            files,
        ) && {
            &&& outcome == Ok::<StatusView, ErrorView>(StatusView::AppTerminated(code))
            &&& files.live == Some(
                Tree { release: l.staged->0.release, marker: Some(a.version) },
            )
            &&& files.staged is None
            &&& !files.staging
            &&& files.set_aside == l.set_aside
            &&& files.ledger == l.ledger
            &&& forall|name: Seq<char>|
                files.files.contains(name) && is_retained(a.app_name, name) <==> name
                    == archive_file_of(archived_name_of(a.app_name, utc_stamp(seconds)->0))
        },
{
    let dir = archived_name_of(a.app_name, utc_stamp(seconds)->0);
    let file = archive_file_of(dir);
    let keep = |name: Seq<char>| is_retained(a.app_name, name);
    let retained = retained_of(a.app_name, names);
    let pending = Ok::<StatusView, ErrorView>(StatusView::AppTerminated(code));
    let start = Run::Going(a, ActionView::ReadClock, l);
    let events = seq![
        EventView::Done,
        EventView::Exited(code),
        EventView::Names(names),
        EventView::Done,
        EventView::Done,
        EventView::Done,
        EventView::Done,
        EventView::Done,
    ];
    let placed = swapped(l, dir);
    let r0 = Run::Going(
        AttemptView { phase: Phase::Spawning, archived: dir, ..a },
        ActionView::Spawn,
        placed,
    );
    swap_puts_staged_in_place(a, l, seconds);
    after_both(start, reports_of_swap(seconds), events);
    let r1 = after(r0, events[0]);
    assert(r1 == Run::Going(
        AttemptView { phase: Phase::Waiting, archived: dir, ..a },
        ActionView::Wait,
        placed,
    ));
    let r2 = after(r1, events[1]);
    assert(r2 == Run::Going(
        AttemptView { phase: Phase::Listing, archived: dir, pending, ..a },
        ActionView::ListNames,
        placed,
    ));
    let r3 = after(r2, events[2]);
    assert(r3 == Run::Going(
        AttemptView { phase: Phase::Compressing, archived: dir, pending, retained, ..a },
        ActionView::Compress(dir, file),
        placed,
    ));
    let archived = Layout { files: l.files.insert(file), ..placed };
    let r4 = after(r3, events[3]);
    assert(r4 == Run::Going(
        AttemptView { phase: Phase::Pruning, archived: dir, pending, retained, ..a },
        ActionView::RemoveRetained(retained),
        archived,
    ));
    let pruned = Layout { files: l.files.insert(file).difference(retained.to_set()), ..placed };
    let r5 = after(r4, events[4]);
    assert(r5 == Run::Going(
        AttemptView { phase: Phase::Marking, archived: dir, pending, retained, ..a },
        ActionView::WriteMarker(a.version),
        pruned,
    ));
    let marked = Layout {
        live: Some(Tree { release: l.staged->0.release, marker: Some(a.version) }),
        ..pruned
    };
    let r6 = after(r5, events[5]);
    assert(r6 == Run::Going(
        AttemptView { phase: Phase::Discarding, archived: dir, pending, retained, ..a },
        ActionView::RemoveArchived(dir),
        marked,
    ));
    let settled = Layout { set_aside: placed.set_aside.remove(dir), ..marked };
    let r7 = after(r6, events[6]);
    assert(r7 == Run::Going(
        AttemptView { phase: Phase::Cleaning, archived: dir, pending, retained, ..a },
        ActionView::CleanStaging,
        settled,
    ));
    let r8 = after(r7, events[7]);
    assert(r8 == Run::Over(pending, Layout { staged: None, staging: false, ..settled }));
    assert(after_all(r0, events) == r8) by {
        assert(events.take(0) =~= Seq::<EventView>::empty());
        assert(events.take(8) =~= events);
        after_one_more(r0, events, 0);
        after_one_more(r0, events, 1);
        after_one_more(r0, events, 2);
        after_one_more(r0, events, 3);
        after_one_more(r0, events, 4);
        after_one_more(r0, events, 5);
        after_one_more(r0, events, 6);
        after_one_more(r0, events, 7);
    }
    assert(settled.set_aside =~= l.set_aside);
    assert(is_retained(a.app_name, file)) by {
        assert(file.subrange(0, a.app_name.len() as int) =~= a.app_name);
        assert(file.subrange(file.len() - ".tar.gz"@.len(), file.len() as int) =~= ".tar.gz"@);
    }
    assert(!retained.contains(file)) by {
        if retained.contains(file) {
            names.lemma_filter_contains_rev(keep, file);
        }
    }
    assert forall|name: Seq<char>|
        settled.files.contains(name) && is_retained(a.app_name, name) implies name == file by {
        if name != file {
            assert(l.files.contains(name));
            assert(names.contains(name));
            let i = choose|i: int| 0 <= i < names.len() && names[i] == name;
            names.lemma_filter_contains(keep, i);
            assert(retained.to_set().contains(name));
        }
    }
}

/// Where the directory that was set aside cannot be put back, the attempt
/// ends with `Revert`.
pub proof fn failed_restore_is_a_hard_failure(a: AttemptView, report: EventView, cleaned: EventView)
    requires
        a.phase == Phase::Restoring,
        !(report is Done),
    ensures
        step_of(a, report) matches StepView::Next(b, action) && action == ActionView::CleanStaging
            && (step_of(b, cleaned) matches StepView::Finished(Err(e)) && e.kind
            == ErrorKind::Revert),
{
}

} // verus!
