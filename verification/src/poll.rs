//! One tick of the watch-folder poller, as a machine.
//!
//! A tick takes at most one bundle: while any job runs it does nothing;
//! otherwise it lists the ready bundles, claims the first that nobody else
//! holds, has a job created for it and marks the bundle as processed or
//! failed. The machine decides each step and hands out a command; the caller
//! carries the command out and hands back what came of it as an event.

use vstd::prelude::*;
use crate::bundle::{
    check_marker_outcome, claim_action, claim_result, failed_steps, mark_bundle_failed,
    mark_bundle_processed, processed_steps, step_result, steps_of,
    try_lock_bundle_for_processing, ActionOutcome, Marker, MarkerAction, MarkerStep, StepOutcome,
};
use crate::text::{result_view, views};

verus! {

/// Where a tick stands.
#[derive(Debug)]
pub enum PollPhase {
    /// No tick is under way.
    Idle,
    /// The ready bundles were asked for.
    Listing,
    /// The claim of `candidates[next]` was asked for.
    Claiming { candidates: Vec<String>, next: usize },
    /// A job for the claimed bundle was asked for.
    Creating { bundle: String },
    /// Step `next` of `plan` on the markers of the bundle was asked for;
    /// `result` is what the tick will end with.
    Marking { bundle: String, plan: Vec<MarkerAction>, next: usize, result: Result<(), String> },
}

/// What the caller reports to the machine.
#[derive(Debug)]
pub enum PollEvent {
    /// A tick is due; `any_job_running` tells whether any job runs.
    Tick { any_job_running: bool },
    /// The ready bundles, sorted, or why they could not be listed.
    Listed(Result<Vec<String>, String>),
    /// What came of the marker action that was asked for.
    Acted(ActionOutcome),
    /// What came of creating the job that was asked for.
    JobCreated(Result<(), String>),
}

/// What the machine asks of the caller.
#[derive(Debug)]
pub enum PollCommand {
    /// The tick is over with this result. Nothing is to be reported back
    /// until the next tick is due.
    Finish(Result<(), String>),
    /// List the ready bundles of the inbox and report `Listed`.
    ListInbox,
    /// Carry out `action` on the markers of `bundle` and report `Acted`.
    Perform { bundle: String, action: MarkerAction },
    /// Create a job from `bundle`, start it, and report `JobCreated`. A job
    /// whose root exists and that could not be started leaves a failed
    /// record behind and is no longer kept track of as a watch job.
    CreateJob { bundle: String },
}

/// A `PollPhase` as plain values.
pub enum PhaseView {
    Idle,
    Listing,
    Claiming { candidates: Seq<Seq<char>>, next: int },
    Creating { bundle: Seq<char> },
    Marking { bundle: Seq<char>, plan: Seq<MarkerStep>, next: int, result: Result<(), Seq<char>> },
}

/// A `PollEvent` as plain values.
pub enum EventView {
    Tick { any_job_running: bool },
    Listed(Result<Seq<Seq<char>>, Seq<char>>),
    Acted(StepOutcome),
    JobCreated(Result<(), Seq<char>>),
}

/// A `PollCommand` as plain values.
pub enum CommandView {
    Finish(Result<(), Seq<char>>),
    ListInbox,
    Perform { bundle: Seq<char>, action: MarkerStep },
    CreateJob { bundle: Seq<char> },
}

impl View for PollPhase {
    type V = PhaseView;

    open spec fn view(&self) -> PhaseView {
        match *self {
            PollPhase::Idle => PhaseView::Idle,
            PollPhase::Listing => PhaseView::Listing,
            PollPhase::Claiming { candidates, next } => PhaseView::Claiming {
                candidates: views(candidates@),
                next: next as int,
            },
            PollPhase::Creating { bundle } => PhaseView::Creating { bundle: bundle@ },
            PollPhase::Marking { bundle, plan, next, result } => PhaseView::Marking {
                bundle: bundle@,
                plan: steps_of(plan@),
                next: next as int,
                result: result_view(result),
            },
        }
    }
}

impl View for PollEvent {
    type V = EventView;

    open spec fn view(&self) -> EventView {
        match *self {
            PollEvent::Tick { any_job_running } => EventView::Tick { any_job_running },
            PollEvent::Listed(listed) => EventView::Listed(
                match listed {
                    Ok(paths) => Ok(views(paths@)),
                    Err(reason) => Err(reason@),
                },
            ),
            PollEvent::Acted(outcome) => EventView::Acted(outcome@),
            PollEvent::JobCreated(created) => EventView::JobCreated(result_view(created)),
        }
    }
}

impl View for PollCommand {
    type V = CommandView;

    open spec fn view(&self) -> CommandView {
        match *self {
            PollCommand::Finish(result) => CommandView::Finish(result_view(result)),
            PollCommand::ListInbox => CommandView::ListInbox,
            PollCommand::Perform { bundle, action } => CommandView::Perform {
                bundle: bundle@,
                action: action@,
            },
            PollCommand::CreateJob { bundle } => CommandView::CreateJob { bundle: bundle@ },
        }
    }
}

/// Whether `event` is the report that the machine waits for in `phase`.
pub open spec fn awaits(phase: PhaseView, event: EventView) -> bool {
    match (phase, event) {
        (PhaseView::Idle, EventView::Tick { .. }) => true,
        (PhaseView::Listing, EventView::Listed(_)) => true,
        (PhaseView::Claiming { .. }, EventView::Acted(_)) => true,
        (PhaseView::Creating { .. }, EventView::JobCreated(_)) => true,
        (PhaseView::Marking { .. }, EventView::Acted(_)) => true,
        _ => false,
    }
}

/// The claim of candidate `next`, or the end of the tick when the candidates
/// are used up.
pub open spec fn claim_from(candidates: Seq<Seq<char>>, next: int) -> (PhaseView, CommandView) {
    if 0 <= next < candidates.len() {
        (
            PhaseView::Claiming { candidates, next },
            CommandView::Perform {
                bundle: candidates[next],
                action: MarkerStep::CreateNew(Marker::Processing),
            },
        )
    } else {
        (PhaseView::Idle, CommandView::Finish(Ok(())))
    }
}

/// Step `next` of `plan` on the markers of `bundle`, or the end of the tick
/// with `result` when the plan is used up.
pub open spec fn mark_from(
    bundle: Seq<char>,
    plan: Seq<MarkerStep>,
    next: int,
    result: Result<(), Seq<char>>,
) -> (PhaseView, CommandView) {
    if 0 <= next < plan.len() {
        (
            PhaseView::Marking { bundle, plan, next, result },
            CommandView::Perform { bundle, action: plan[next] },
        )
    } else {
        (PhaseView::Idle, CommandView::Finish(result))
    }
}

/// What follows the claim of candidate `next` that ended with `outcome`: a
/// claim that was won asks for the job, one that another actor won moves on
/// to the next candidate, and one that failed ends the tick with an error.
pub open spec fn claimed_from(candidates: Seq<Seq<char>>, next: int, outcome: StepOutcome) -> (
    PhaseView,
    CommandView,
) {
    if !(0 <= next < candidates.len()) {
        (PhaseView::Idle, CommandView::Finish(Ok(())))
    } else {
        match claim_result(outcome) {
            Err(reason) => (PhaseView::Idle, CommandView::Finish(Err(reason))),
            Ok(true) => (
                PhaseView::Creating { bundle: candidates[next] },
                CommandView::CreateJob { bundle: candidates[next] },
            ),
            Ok(false) => claim_from(candidates, next + 1),
        }
    }
}

/// What follows step `next` of `plan` that ended with `outcome`: the next
/// step, or the end of the tick with `result` when a write failed or the
/// plan is used up.
pub open spec fn marked_from(
    bundle: Seq<char>,
    plan: Seq<MarkerStep>,
    next: int,
    result: Result<(), Seq<char>>,
    outcome: StepOutcome,
) -> (PhaseView, CommandView) {
    if !(0 <= next < plan.len()) {
        (PhaseView::Idle, CommandView::Finish(result))
    } else {
        match step_result(plan[next], outcome) {
            Err(_) => (PhaseView::Idle, CommandView::Finish(result)),
            Ok(()) => mark_from(bundle, plan, next + 1, result),
        }
    }
}

/// The phase that follows `phase` on `event`, and the command handed out.
///
/// - A tick that is due while a job runs ends at once. Otherwise the ready
///   bundles are asked for.
/// - A listing that failed ends the tick with its error. Otherwise the first
///   candidate is claimed; without candidates the tick ends.
/// - A claim that was won asks for the job. One that another actor won moves
///   on to the next candidate. One that failed ends the tick with an error.
/// - A job that was created has the bundle marked as processed; one that
///   failed has it marked as failed, and its error is what the tick ends with.
/// - The marker steps are taken in turn. A write that fails ends them; the
///   tick ends as the job creation decided, whatever came of the markers.
///
/// A report that the machine does not wait for ends the tick at once.
pub open spec fn poll_transition(phase: PhaseView, event: EventView) -> (PhaseView, CommandView) {
    match (phase, event) {
        (PhaseView::Idle, EventView::Tick { any_job_running }) => if any_job_running {
            (PhaseView::Idle, CommandView::Finish(Ok(())))
        } else {
            (PhaseView::Listing, CommandView::ListInbox)
        },
        (PhaseView::Listing, EventView::Listed(Err(reason))) => (
            PhaseView::Idle,
            CommandView::Finish(Err(reason)),
        ),
        (PhaseView::Listing, EventView::Listed(Ok(candidates))) => claim_from(candidates, 0),
        (PhaseView::Claiming { candidates, next }, EventView::Acted(outcome)) => claimed_from(
            candidates,
            next,
            outcome,
        ),
        (PhaseView::Creating { bundle }, EventView::JobCreated(Ok(()))) => mark_from(
            bundle,
            processed_steps(),
            0,
            Ok(()),
        ),
        (PhaseView::Creating { bundle }, EventView::JobCreated(Err(reason))) => mark_from(
            bundle,
            failed_steps(reason),
            0,
            Err(reason),
        ),
        (PhaseView::Marking { bundle, plan, next, result }, EventView::Acted(outcome)) => marked_from(
            bundle,
            plan,
            next,
            result,
            outcome,
        ),
        _ => (PhaseView::Idle, CommandView::Finish(Ok(()))),
    }
}

/// The phase in which a poller starts and in which every tick ends.
pub fn idle_phase() -> (phase: PollPhase)
    ensures
        phase@ == PhaseView::Idle,
{
    PollPhase::Idle
}

/// Whether `event` is the report that the machine waits for in `phase`.
pub fn is_awaited(phase: &PollPhase, event: &PollEvent) -> (awaited: bool)
    ensures
        awaited == awaits(phase@, event@),
{
    match (phase, event) {
        (PollPhase::Idle, PollEvent::Tick { .. }) => true,
        (PollPhase::Listing, PollEvent::Listed(_)) => true,
        (PollPhase::Claiming { .. }, PollEvent::Acted(_)) => true,
        (PollPhase::Creating { .. }, PollEvent::JobCreated(_)) => true,
        (PollPhase::Marking { .. }, PollEvent::Acted(_)) => true,
        _ => false,
    }
}

fn claim_next(candidates: Vec<String>, next: usize) -> (step: (PollPhase, PollCommand))
    ensures
        step.0@ == claim_from(views(candidates@), next as int).0,
        step.1@ == claim_from(views(candidates@), next as int).1,
{
    if next < candidates.len() {
        let bundle = candidates[next].clone();
        (PollPhase::Claiming { candidates, next }, PollCommand::Perform { bundle, action: claim_action() })
    } else {
        (PollPhase::Idle, PollCommand::Finish(Ok(())))
    }
}

fn clone_action(action: &MarkerAction) -> (copy: MarkerAction)
    ensures
        copy@ == action@,
{
    match action {
        MarkerAction::CreateNew(marker) => MarkerAction::CreateNew(*marker),
        MarkerAction::Write(marker, content) => MarkerAction::Write(*marker, content.clone()),
        MarkerAction::RemoveIfPresent(marker) => MarkerAction::RemoveIfPresent(*marker),
    }
}

fn mark_next(bundle: String, plan: Vec<MarkerAction>, next: usize, result: Result<(), String>) -> (step:
    (PollPhase, PollCommand))
    ensures
        step.0@ == mark_from(bundle@, steps_of(plan@), next as int, result_view(result)).0,
        step.1@ == mark_from(bundle@, steps_of(plan@), next as int, result_view(result)).1,
{
    if next < plan.len() {
        let action = clone_action(&plan[next]);
        let target = bundle.clone();
        (PollPhase::Marking { bundle, plan, next, result }, PollCommand::Perform { bundle: target, action })
    } else {
        (PollPhase::Idle, PollCommand::Finish(result))
    }
}

fn after_claim(candidates: Vec<String>, next: usize, outcome: ActionOutcome) -> (step: (
    PollPhase,
    PollCommand,
))
    ensures
        step.0@ == claimed_from(views(candidates@), next as int, outcome@).0,
        step.1@ == claimed_from(views(candidates@), next as int, outcome@).1,
{
    if next >= candidates.len() {
        return (PollPhase::Idle, PollCommand::Finish(Ok(())));
    }
    assert(views(candidates@)[next as int] == candidates@[next as int]@);
    match try_lock_bundle_for_processing(&outcome) {
        Err(reason) => (PollPhase::Idle, PollCommand::Finish(Err(reason))),
        Ok(claimed) => {
            if claimed {
                let bundle = candidates[next].clone();
                let target = bundle.clone();
                (PollPhase::Creating { bundle }, PollCommand::CreateJob { bundle: target })
            } else {
                claim_next(candidates, next + 1)
            }
        },
    }
}

fn after_job(bundle: String, created: Result<(), String>) -> (step: (PollPhase, PollCommand))
    ensures
        step.0@ == poll_transition(
            PhaseView::Creating { bundle: bundle@ },
            EventView::JobCreated(result_view(created)),
        ).0,
        step.1@ == poll_transition(
            PhaseView::Creating { bundle: bundle@ },
            EventView::JobCreated(result_view(created)),
        ).1,
{
    match created {
        Ok(()) => mark_next(bundle, mark_bundle_processed(), 0, Ok(())),
        Err(reason) => {
            let plan = mark_bundle_failed(reason.as_str());
            mark_next(bundle, plan, 0, Err(reason))
        },
    }
}

fn after_mark(
    bundle: String,
    plan: Vec<MarkerAction>,
    next: usize,
    result: Result<(), String>,
    outcome: ActionOutcome,
) -> (step: (PollPhase, PollCommand))
    ensures
        step.0@ == marked_from(
            bundle@,
            steps_of(plan@),
            next as int,
            result_view(result),
            outcome@,
        ).0,
        step.1@ == marked_from(
            bundle@,
            steps_of(plan@),
            next as int,
            result_view(result),
            outcome@,
        ).1,
{
    if next >= plan.len() {
        return (PollPhase::Idle, PollCommand::Finish(result));
    }
    assert(steps_of(plan@)[next as int] == plan@[next as int]@);
    match check_marker_outcome(&plan[next], outcome) {
        Err(_) => (PollPhase::Idle, PollCommand::Finish(result)),
        Ok(()) => mark_next(bundle, plan, next + 1, result),
    }
}

/// Takes one step of a tick: from `phase`, on the report `event`, to the next
/// phase and the command to carry out.
pub fn poll_step(phase: PollPhase, event: PollEvent) -> (step: (PollPhase, PollCommand))
    ensures
        step.0@ == poll_transition(phase@, event@).0,
        step.1@ == poll_transition(phase@, event@).1,
{
    match (phase, event) {
        (PollPhase::Idle, PollEvent::Tick { any_job_running }) => {
            if any_job_running {
                (PollPhase::Idle, PollCommand::Finish(Ok(())))
            } else {
                (PollPhase::Listing, PollCommand::ListInbox)
            }
        },
        (PollPhase::Listing, PollEvent::Listed(listed)) => match listed {
            Err(reason) => (PollPhase::Idle, PollCommand::Finish(Err(reason))),
            Ok(candidates) => claim_next(candidates, 0),
        },
        (PollPhase::Claiming { candidates, next }, PollEvent::Acted(outcome)) => after_claim(
            candidates,
            next,
            outcome,
        ),
        (PollPhase::Creating { bundle }, PollEvent::JobCreated(created)) => after_job(bundle, created),
        (PollPhase::Marking { bundle, plan, next, result }, PollEvent::Acted(outcome)) => after_mark(
            bundle,
            plan,
            next,
            result,
            outcome,
        ),
        _ => (PollPhase::Idle, PollCommand::Finish(Ok(()))),
    }
}

/// How many jobs the machine asks for from `phase` until the tick ends, when
/// it is fed `events` one after the other.
pub open spec fn jobs_asked_for(phase: PhaseView, events: Seq<EventView>) -> nat
    decreases events.len(),
{
    if events.len() == 0 {
        0
    } else {
        let (next, command) = poll_transition(phase, events[0]);
        match command {
            CommandView::Finish(_) => 0,
            CommandView::CreateJob { .. } => 1 + jobs_asked_for(next, events.drop_first()),
            _ => jobs_asked_for(next, events.drop_first()),
        }
    }
}

/// A tick asks for at most one job, whatever is reported to the machine; once
/// a bundle is claimed, no other bundle is taken up in the same tick. A tick
/// that is due while a job runs asks for none and ends at once.
pub proof fn lemma_one_job_per_tick(phase: PhaseView, events: Seq<EventView>)
    ensures
        jobs_asked_for(phase, events) <= 1,
        phase is Creating || phase is Marking ==> jobs_asked_for(phase, events) == 0,
        poll_transition(PhaseView::Idle, EventView::Tick { any_job_running: true }) == (
            PhaseView::Idle,
            CommandView::Finish(Ok(())),
        ),
        events.len() > 0 && events[0] == (EventView::Tick { any_job_running: true })
            ==> jobs_asked_for(PhaseView::Idle, events) == 0,
    decreases events.len(),
{
    if events.len() > 0 {
        let (next, command) = poll_transition(phase, events[0]);
        lemma_one_job_per_tick(next, events.drop_first());
    }
}

/// A bundle that was claimed is always marked: whatever comes of creating
/// its job, the next command writes its processed or its failed marker, and
/// the failed marker holds the error.
pub proof fn lemma_claimed_bundle_is_marked(bundle: Seq<char>, created: Result<(), Seq<char>>)
    ensures
        poll_transition(PhaseView::Creating { bundle }, EventView::JobCreated(created)).1
            == (CommandView::Perform {
            bundle,
            action: match created {
                Ok(()) => MarkerStep::Write(Marker::Processed, Seq::empty()),
                Err(reason) => MarkerStep::Write(Marker::Failed, reason),
            },
        }),
{
}

} // verus!
