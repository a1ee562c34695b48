//! What holds of every cycle.
//!
//! The statements here speak of the orchestrator as a mathematical value:
//! of the stage it is in, of the action it names, and of what a report or a
//! sequence of reports makes of it. The executable orchestrator follows that
//! value step by step.

use crate::deployment::DeploymentModel;
use crate::effect::{fits, ActionModel, ReportModel};
use crate::locator::{candidates, first_match, resolve, ContextModel};
use crate::orchestrator::{locating, OrchestratorModel, StageModel, Step};
use crate::outcome::OutcomeModel;
use crate::path::PathModel;
use crate::supervisor::{termination_of, Termination};
use vstd::prelude::*;

verus! {

/// A report that does not answer the pending action changes nothing.
pub proof fn law_unfit_report_ignored<H>(m: OrchestratorModel<H>, report: ReportModel<H>)
    requires
        !fits(m.action(), report),
    ensures
        m.next(report) == m,
{
}

/// Reports taken in one after another amount to taking in the first part
/// and then the second.
pub proof fn lemma_run_concat<H>(
    m: OrchestratorModel<H>,
    first: Seq<ReportModel<H>>,
    second: Seq<ReportModel<H>>,
)
    ensures
        m.run(first + second) == m.run(first).run(second),
    decreases first.len(),
{
    if first.len() == 0 {
        assert(first + second =~= second);
    } else {
        let all = first + second;
        assert(all[0] == first[0]);
        assert(all.skip(1) =~= first.skip(1) + second);
        lemma_run_concat(m.next(first[0]), first.skip(1), second);
    }
}

/// Once a cycle has ended it stays as it is, whatever is reported.
pub proof fn law_finished_is_final<H>(m: OrchestratorModel<H>, reports: Seq<ReportModel<H>>)
    requires
        m.stage is Finished,
    ensures
        m.run(reports) == m,
    decreases reports.len(),
{
    if reports.len() > 0 {
        law_finished_is_final(m.next(reports[0]), reports.skip(1));
    }
}

/// The number of answered actions after which a cycle has ended at the
/// latest.
pub open spec fn steps_left<H>(m: OrchestratorModel<H>) -> nat {
    match m.stage {
        StageModel::Locating { candidate, rest } => rest.len() + 10,
        StageModel::Working { step, root } => match m.config.settle(step, root) {
            Step::ExportConnection => 9,
            Step::ProbeResourceDir => 8,
            Step::CreateResourceDir => 7,
            Step::GenerateSchema => 6,
            Step::ProbeResource => 5,
            Step::InitSchema => 4,
            Step::Build => 3,
            Step::Launch => 2,
            Step::WarmUp => 1,
        },
        StageModel::Finished { outcome } => 0,
    }
}

/// Every report that answers the pending action brings the end of the cycle
/// nearer, and only a cycle that has ended has nothing left to do.
pub proof fn law_fitting_report_advances<H>(m: OrchestratorModel<H>, report: ReportModel<H>)
    requires
        fits(m.action(), report),
    ensures
        steps_left(m.next(report)) < steps_left(m),
        steps_left(m) == 0 <==> m.stage is Finished,
{
}

/// The answers to the probes of a search through `pending` in `layout`: one
/// for each directory up to and including the first that the layout holds.
pub open spec fn probe_answers<H>(pending: Seq<PathModel>, layout: Set<PathModel>) -> Seq<
    ReportModel<H>,
>
    decreases pending.len(),
{
    if pending.len() == 0 {
        Seq::empty()
    } else if layout.contains(pending[0]) {
        seq![ReportModel::Exists(true)]
    } else {
        seq![ReportModel::Exists(false)] + probe_answers(pending.skip(1), layout)
    }
}

/// The stage in which a search through `pending` in `layout` ends: with the
/// found root the cycle goes on to export the connection variable, without
/// one it ends.
pub open spec fn located(
    config: DeploymentModel,
    pending: Seq<PathModel>,
    layout: Set<PathModel>,
) -> StageModel {
    match first_match(pending, layout) {
        Some(root) => config.working(Step::ExportConnection, root),
        None => StageModel::Finished { outcome: OutcomeModel::DirectoryNotFound },
    }
}

/// A search whose probes are answered from a layout ends with the first
/// pending directory that the layout holds as root, and changes nothing
/// else.
pub proof fn law_search_follows_layout<H>(
    m: OrchestratorModel<H>,
    pending: Seq<PathModel>,
    layout: Set<PathModel>,
)
    requires
        m.stage == locating(pending),
    ensures
        m.run(probe_answers(pending, layout)) == m.at(located(m.config, pending, layout)),
    decreases pending.len(),
{
    let answers = probe_answers::<H>(pending, layout);
    if pending.len() == 0 {
    } else if layout.contains(pending[0]) {
        assert(answers.skip(1) =~= Seq::<ReportModel<H>>::empty());
        let after = m.next(answers[0]);
        assert(after.run(answers.skip(1)) == after);
    } else {
        let rest = pending.skip(1);
        let after = m.next(answers[0]);
        assert(answers.skip(1) =~= probe_answers::<H>(rest, layout));
        law_search_follows_layout(after, rest, layout);
    }
}

/// A cycle whose probes are answered from a layout goes on with the root
/// that the search order finds in that layout, and ends at once where it
/// finds none.
pub proof fn law_cycle_finds_root<H>(
    config: DeploymentModel,
    context: ContextModel,
    layout: Set<PathModel>,
)
    ensures
        OrchestratorModel::<H>::start(config, context).run(
            probe_answers(candidates(context), layout),
        ).stage == (match resolve(context, layout) {
            Some(root) => config.working(Step::ExportConnection, root),
            None => StageModel::Finished { outcome: OutcomeModel::DirectoryNotFound },
        }),
{
    law_search_follows_layout(
        OrchestratorModel::<H>::start(config, context),
        candidates(context),
        layout,
    );
}

/// Where the bundled-resource directory holds the manifest, the cycle
/// probes that directory and no other before it goes on with it as root.
pub proof fn law_hint_needs_one_probe<H>(
    config: DeploymentModel,
    context: ContextModel,
    layout: Set<PathModel>,
)
    requires
        context.bundled_hint is Some,
        layout.contains(context.bundled_hint->Some_0),
    ensures
        OrchestratorModel::<H>::start(config, context).action() == ActionModel::Probe(
            context.bundled_hint->Some_0.child(config.manifest),
        ),
        probe_answers::<H>(candidates(context), layout) == seq![ReportModel::<H>::Exists(true)],
        OrchestratorModel::<H>::start(config, context).next(ReportModel::Exists(true)).stage
            == config.working(Step::ExportConnection, context.bundled_hint->Some_0),
{
    let all = candidates(context);
    assert(all[0] == context.bundled_hint->Some_0);
}

/// No provisioning step ends the cycle: whatever is reported while one is
/// pending, the cycle goes on with the same root and the supervisor holds
/// what it held.
pub proof fn law_provisioning_goes_on<H>(m: OrchestratorModel<H>, report: ReportModel<H>)
    requires
        m.stage is Working,
        m.config.settle(m.stage->Working_step, m.stage->Working_root).provisions(),
    ensures
        m.next(report).stage is Working,
        m.next(report).stage->Working_root == m.stage->Working_root,
        m.next(report).slot == m.slot,
        m.next(report).config == m.config,
{
}

/// A build that leaves without success ends the cycle with that status,
/// and one that cannot be launched ends it with the cause. Either way the
/// supervisor holds what it held, and whatever is reported later the server
/// is not asked for.
pub proof fn law_build_failure_finishes<H>(
    m: OrchestratorModel<H>,
    report: ReportModel<H>,
    later: Seq<ReportModel<H>>,
)
    requires
        m.stage is Working,
        m.config.settle(m.stage->Working_step, m.stage->Working_root) == Step::Build,
        report is Failed || (report is Exited && !report->Exited_0.succeeded()),
    ensures
        report is Exited ==> m.next(report).outcome() == Some(
            OutcomeModel::BuildFailed(report->Exited_0),
        ),
        report is Failed ==> m.next(report).outcome() == Some(
            OutcomeModel::SpawnFailed(report->Failed_0),
        ),
        m.next(report).slot == m.slot,
        m.next(report).run(later) == m.next(report),
        !(m.next(report).run(later).action() is Spawn),
{
    law_finished_is_final(m.next(report), later);
}

/// The server has been asked for, or is about to be: the cycle stands at
/// its start or at the wait that follows.
pub open spec fn at_or_after_launch<H>(m: OrchestratorModel<H>) -> bool {
    m.stage is Working && {
        let pending = m.config.settle(m.stage->Working_step, m.stage->Working_root);
        pending == Step::Launch || pending == Step::WarmUp
    }
}

/// The report at `index` is the successful end of the build that was
/// pending when it came.
pub open spec fn build_succeeded_at<H>(
    m: OrchestratorModel<H>,
    reports: Seq<ReportModel<H>>,
    index: int,
) -> bool {
    let at = m.run(reports.take(index));
    &&& at.stage is Working
    &&& at.config.settle(at.stage->Working_step, at.stage->Working_root) == Step::Build
    &&& reports[index] is Exited
    &&& reports[index]->Exited_0.succeeded()
}

/// Where the deployment has a build step, the server is asked for only
/// after the build has been reported as successful.
pub proof fn law_spawn_follows_successful_build<H>(
    m: OrchestratorModel<H>,
    reports: Seq<ReportModel<H>>,
    upto: int,
)
    requires
        m.config.build is Some,
        !at_or_after_launch(m),
        0 <= upto <= reports.len(),
        m.run(reports.take(upto)).action() is Spawn,
    ensures
        exists|index: int| 0 <= index < upto && build_succeeded_at(m, reports, index),
    decreases upto,
{
    if upto == 0 {
        assert(reports.take(0) =~= Seq::<ReportModel<H>>::empty());
    } else {
        let first = reports[0];
        let rest = reports.skip(1);
        let moved = m.next(first);
        assert(reports.take(upto)[0] == first);
        assert(reports.take(upto).skip(1) =~= rest.take(upto - 1));
        if at_or_after_launch(moved) {
            assert(reports.take(0) =~= Seq::<ReportModel<H>>::empty());
            assert(build_succeeded_at(m, reports, 0));
        } else {
            law_spawn_follows_successful_build(moved, rest, upto - 1);
            let found = choose|index: int|
                0 <= index < upto - 1 && build_succeeded_at(moved, rest, index);
            assert(reports.take(found + 1)[0] == first);
            assert(reports.take(found + 1).skip(1) =~= rest.take(found));
            assert(reports[found + 1] == rest[found]);
            assert(build_succeeded_at(m, reports, found + 1));
        }
    }
}

/// The report at `index` says that the connection variable, which was
/// pending when it came, has been set.
pub open spec fn connection_exported_at<H>(
    m: OrchestratorModel<H>,
    reports: Seq<ReportModel<H>>,
    index: int,
) -> bool {
    let at = m.run(reports.take(index));
    &&& at.action() is SetEnv
    &&& at.action()->SetEnv_0.name == m.config.connection_var
    &&& reports[index] is Completed
}

/// The search for the root is still going on, or the connection variable is
/// about to be set.
spec fn before_export<H>(m: OrchestratorModel<H>) -> bool {
    m.stage is Locating || (m.stage is Working && m.config.settle(
        m.stage->Working_step,
        m.stage->Working_root,
    ) == Step::ExportConnection)
}

/// A cycle that is beyond the export of the connection variable has had
/// that export reported.
proof fn lemma_export_precedes<H>(
    m: OrchestratorModel<H>,
    reports: Seq<ReportModel<H>>,
    upto: int,
)
    requires
        before_export(m),
        0 <= upto <= reports.len(),
        m.run(reports.take(upto)).stage is Working,
        !before_export(m.run(reports.take(upto))),
    ensures
        exists|index: int| 0 <= index < upto && connection_exported_at(m, reports, index),
    decreases upto,
{
    if upto == 0 {
        assert(reports.take(0) =~= Seq::<ReportModel<H>>::empty());
    } else {
        let first = reports[0];
        let rest = reports.skip(1);
        let moved = m.next(first);
        assert(reports.take(upto)[0] == first);
        assert(reports.take(upto).skip(1) =~= rest.take(upto - 1));
        if before_export(moved) {
            lemma_export_precedes(moved, rest, upto - 1);
            let found = choose|index: int|
                0 <= index < upto - 1 && connection_exported_at(moved, rest, index);
            assert(reports.take(found + 1)[0] == first);
            assert(reports.take(found + 1).skip(1) =~= rest.take(found));
            assert(reports[found + 1] == rest[found]);
            assert(connection_exported_at(m, reports, found + 1));
        } else if moved.stage is Working {
            assert(reports.take(0) =~= Seq::<ReportModel<H>>::empty());
            assert(connection_exported_at(m, reports, 0));
        } else {
            law_finished_is_final(moved, rest.take(upto - 1));
        }
    }
}

/// From the start of a cycle, the server is asked for only after the
/// connection variable has been set in the environment that the server
/// inherits.
pub proof fn law_spawn_follows_export<H>(
    config: DeploymentModel,
    context: ContextModel,
    reports: Seq<ReportModel<H>>,
    upto: int,
)
    requires
        0 <= upto <= reports.len(),
        OrchestratorModel::<H>::start(config, context).run(reports.take(upto)).action() is Spawn,
    ensures
        exists|index: int|
            0 <= index < upto && connection_exported_at(
                OrchestratorModel::<H>::start(config, context),
                reports,
                index,
            ),
{
    let begin = OrchestratorModel::<H>::start(config, context);
    if begin.stage is Finished {
        law_finished_is_final(begin, reports.take(upto));
    } else {
        lemma_export_precedes(begin, reports, upto);
    }
}

/// Once the root is known the cycle works with that root to its end.
pub proof fn law_root_is_kept<H>(m: OrchestratorModel<H>, reports: Seq<ReportModel<H>>)
    requires
        m.stage is Working,
        m.run(reports).stage is Working,
    ensures
        m.run(reports).stage->Working_root == m.stage->Working_root,
    decreases reports.len(),
{
    if reports.len() > 0 {
        let moved = m.next(reports[0]);
        if moved.stage is Working {
            law_root_is_kept(moved, reports.skip(1));
        } else {
            law_finished_is_final(moved, reports.skip(1));
        }
    }
}

/// The cycle stands at the start of the server or beyond it, or has ended
/// in a way that a cycle beyond the build can end.
spec fn beyond_build<H>(m: OrchestratorModel<H>) -> bool {
    match m.stage {
        StageModel::Locating { candidate, rest } => false,
        StageModel::Working { step, root } => {
            let pending = m.config.settle(step, root);
            pending == Step::Launch || pending == Step::WarmUp
        },
        StageModel::Finished { outcome } => outcome is Success || outcome is SpawnFailed,
    }
}

/// A cycle beyond the build stays beyond it.
proof fn lemma_beyond_build_stays<H>(m: OrchestratorModel<H>, reports: Seq<ReportModel<H>>)
    requires
        beyond_build(m),
    ensures
        beyond_build(m.run(reports)),
    decreases reports.len(),
{
    if reports.len() > 0 {
        lemma_beyond_build_stays(m.next(reports[0]), reports.skip(1));
    }
}

/// Before a cycle is beyond the build, its supervisor holds what it held.
proof fn lemma_slot_kept_before_launch<H>(m: OrchestratorModel<H>, reports: Seq<ReportModel<H>>)
    ensures
        m.run(reports).slot == m.slot || beyond_build(m.run(reports)),
    decreases reports.len(),
{
    if reports.len() > 0 {
        let after = m.next(reports[0]);
        lemma_slot_kept_before_launch(after, reports.skip(1));
        if beyond_build(after) {
            lemma_beyond_build_stays(after, reports.skip(1));
        }
    }
}

/// A cycle that ends with a failed build has at no time asked for the
/// server to be started, and its supervisor holds at all times what it held
/// at the start: no process handle comes into being.
pub proof fn law_failed_build_never_spawns<H>(
    m: OrchestratorModel<H>,
    reports: Seq<ReportModel<H>>,
    upto: int,
)
    requires
        m.run(reports).stage is Finished,
        m.run(reports).stage->Finished_outcome is BuildFailed,
        0 <= upto <= reports.len(),
    ensures
        !(m.run(reports.take(upto)).action() is Spawn),
        m.run(reports.take(upto)).slot == m.slot,
{
    let middle = m.run(reports.take(upto));
    assert(reports.take(upto) + reports.skip(upto) =~= reports);
    lemma_run_concat(m, reports.take(upto), reports.skip(upto));
    lemma_slot_kept_before_launch(m, reports.take(upto));
    if beyond_build(middle) {
        lemma_beyond_build_stays(middle, reports.skip(upto));
    }
}

/// No cycle ends with a provisioning failure unless it began that way.
pub proof fn law_provisioning_never_fails<H>(
    m: OrchestratorModel<H>,
    reports: Seq<ReportModel<H>>,
)
    requires
        m.run(reports).stage is Finished,
        m.run(reports).stage->Finished_outcome is ProvisionFailed,
    ensures
        m.stage == m.run(reports).stage,
    decreases reports.len(),
{
    if reports.len() > 0 {
        let after = m.next(reports[0]);
        law_provisioning_never_fails(after, reports.skip(1));
    }
}

/// What can happen to an orchestrator: the host reports on the pending
/// action, or someone terminates.
pub enum EventModel<H> {
    Report(ReportModel<H>),
    Terminate,
}

/// The orchestrator after one event.
pub open spec fn after<H>(m: OrchestratorModel<H>, event: EventModel<H>) -> OrchestratorModel<H> {
    match event {
        EventModel::Report(report) => m.next(report),
        EventModel::Terminate => m.terminated(),
    }
}

/// The orchestrator after the events, one after another.
pub open spec fn after_all<H>(
    m: OrchestratorModel<H>,
    events: Seq<EventModel<H>>,
) -> OrchestratorModel<H>
    decreases events.len(),
{
    if events.len() == 0 {
        m
    } else {
        after_all(after(m, events[0]), events.skip(1))
    }
}

/// The handle that an event hands over to be killed, if it hands one over:
/// only a termination does, and only while a handle is held.
pub open spec fn handed_over<H>(m: OrchestratorModel<H>, event: EventModel<H>) -> Option<H> {
    match event {
        EventModel::Report(report) => None,
        EventModel::Terminate => m.slot,
    }
}

/// A handle is held only after the start of the server.
spec fn held_only_after_start<H>(m: OrchestratorModel<H>) -> bool {
    m.slot is Some ==> started(m)
}

/// The start of the server lies behind.
spec fn started<H>(m: OrchestratorModel<H>) -> bool {
    match m.stage {
        StageModel::Locating { candidate, rest } => false,
        StageModel::Working { step, root } => m.config.settle(step, root) == Step::WarmUp,
        StageModel::Finished { outcome } => outcome is Success,
    }
}

/// Events keep a handle from being held before the start of the server.
proof fn lemma_held_only_after_start<H>(m: OrchestratorModel<H>, events: Seq<EventModel<H>>)
    requires
        held_only_after_start(m),
    ensures
        held_only_after_start(after_all(m, events)),
    decreases events.len(),
{
    if events.len() > 0 {
        lemma_held_only_after_start(after(m, events[0]), events.skip(1));
    }
}

/// After the start of the server, once no handle is held, none is held
/// again.
proof fn lemma_spent_stays<H>(m: OrchestratorModel<H>, events: Seq<EventModel<H>>)
    requires
        started(m),
        m.slot is None,
    ensures
        started(after_all(m, events)),
        after_all(m, events).slot is None,
    decreases events.len(),
{
    if events.len() > 0 {
        lemma_spent_stays(after(m, events[0]), events.skip(1));
    }
}

/// Events taken in one after another amount to taking in the first part and
/// then the second.
pub proof fn lemma_after_all_concat<H>(
    m: OrchestratorModel<H>,
    first: Seq<EventModel<H>>,
    second: Seq<EventModel<H>>,
)
    ensures
        after_all(m, first + second) == after_all(after_all(m, first), second),
    decreases first.len(),
{
    if first.len() == 0 {
        assert(first + second =~= second);
    } else {
        let all = first + second;
        assert(all[0] == first[0]);
        assert(all.skip(1) =~= first.skip(1) + second);
        lemma_after_all_concat(after(m, first[0]), first.skip(1), second);
    }
}

/// In one cycle at most one handle is handed over to be killed, however
/// reports and terminations follow one another: a handle that was taken for
/// termination is not handed over again, and no second process comes to be
/// supervised.
pub proof fn law_one_handle_per_cycle<H>(
    config: DeploymentModel,
    context: ContextModel,
    events: Seq<EventModel<H>>,
    earlier: int,
    later: int,
)
    requires
        0 <= earlier < later < events.len(),
        handed_over(
            after_all(OrchestratorModel::<H>::start(config, context), events.take(earlier)),
            events[earlier],
        ) is Some,
    ensures
        handed_over(
            after_all(OrchestratorModel::<H>::start(config, context), events.take(later)),
            events[later],
        ) is None,
{
    let begin = OrchestratorModel::<H>::start(config, context);
    let before = after_all(begin, events.take(earlier));
    lemma_held_only_after_start(begin, events.take(earlier));
    let taken = after(before, events[earlier]);
    let between = events.subrange(earlier + 1, later);
    assert(events.take(later) =~= events.take(earlier) + seq![events[earlier]] + between);
    lemma_after_all_concat(begin, events.take(earlier) + seq![events[earlier]], between);
    lemma_after_all_concat(begin, events.take(earlier), seq![events[earlier]]);
    let single = seq![events[earlier]];
    assert(single.len() == 1 && single[0] == events[earlier]);
    assert(single.skip(1) =~= Seq::<EventModel<H>>::empty());
    assert(after_all(taken, single.skip(1)) == taken);
    assert(after_all(before, single) == taken);
    lemma_spent_stays(taken, between);
}

/// At the start of a cycle nothing is supervised: terminating finds no
/// process and leaves the cycle as it is.
pub proof fn law_terminate_before_spawn<H>(config: DeploymentModel, context: ContextModel)
    ensures
        termination_of(OrchestratorModel::<H>::start(config, context).slot) == Termination::<
            H,
        >::NoProcessRunning,
        OrchestratorModel::<H>::start(config, context).terminated() == OrchestratorModel::<
            H,
        >::start(config, context),
{
}

/// When the start of the server is reported and termination follows at
/// once, the reported handle is handed over and none is left.
pub proof fn law_spawn_then_terminate<H>(m: OrchestratorModel<H>, handle: H)
    requires
        m.action() is Spawn,
    ensures
        termination_of(m.next(ReportModel::Spawned(handle)).slot) == Termination::Terminated(
            handle,
        ),
        m.next(ReportModel::Spawned(handle)).terminated().slot is None,
{
}

/// Terminating twice in a row is terminating once: the second termination
/// finds no process and changes nothing.
pub proof fn law_terminate_twice<H>(m: OrchestratorModel<H>)
    ensures
        termination_of(m.terminated().slot) == Termination::<H>::NoProcessRunning,
        m.terminated().terminated() == m.terminated(),
{
}

/// Terminating touches nothing but the supervisor: the pending action and
/// the effect of every report on the stage are what they were.
pub proof fn law_terminate_keeps_cycle<H>(m: OrchestratorModel<H>, report: ReportModel<H>)
    ensures
        m.terminated().action() == m.action(),
        m.terminated().next(report).stage == m.next(report).stage,
        m.terminated().next(report).warnings == m.next(report).warnings,
{
}

} // verus!
