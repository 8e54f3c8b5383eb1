//! The dispatcher and the per-notification processing plan.
//!
//! The dispatcher drains the event queue and decides, for each pop outcome,
//! what the surrounding task runtime must do: spawn a processing task for a
//! notification, log a source error and go on, wait, or stop at
//! end-of-stream. Processing one notification means emitting its classified
//! log actions and fanning out one per-path unit of work; the permit that
//! admitted the task is released exactly once, after every per-path outcome
//! has been joined, whether or not some of them failed.

use vstd::prelude::*;
use crate::classify::{action_views, classified, classify, Action, LogAction};
use crate::event::{Notification, SourceMessage, string_views};
use crate::limiter::Limiter;
use crate::queue::PopOutcome;

verus! {

/// The dispatcher is either waiting on the queue or has a notification in
/// hand, between its pop and the spawn of its processing task.
#[derive(Clone, Copy, Debug, PartialEq, Eq, Structural)]
pub enum DispatcherState {
    Idle,
    Dispatching,
}

/// What the runtime around the dispatcher must do with one pop outcome.
#[derive(Clone, Debug, PartialEq, Eq)]
pub enum DispatchDecision {
    /// Acquire a permit, then spawn a processing task for this notification.
    Spawn(Notification),
    /// The source reported an error instead of a notification: log it and
    /// keep consuming.
    Report(String),
    /// The queue is empty and still open: wait for the next message.
    Wait,
    /// End-of-stream: nothing more will arrive.
    Stop,
}

/// The dispatcher state machine.
pub struct Dispatcher {
    pub state: DispatcherState,
}

impl Dispatcher {
    /// A dispatcher starts idle, waiting on the queue.
    pub fn new() -> (d: Dispatcher)
        ensures
            d.state is Idle,
    {
        Dispatcher { state: DispatcherState::Idle }
    }

    /// Decide what to do with one pop outcome. Only a notification moves the
    /// dispatcher to `Dispatching`; an error is reported and consumption
    /// goes on; an empty open queue means waiting; a drained closed queue
    /// ends the stream.
    pub fn observe(&mut self, popped: PopOutcome) -> (d: DispatchDecision)
        requires
            old(self).state is Idle,
        ensures
            popped matches PopOutcome::Message(SourceMessage::Change(n))
                ==> d == DispatchDecision::Spawn(n),
            popped matches PopOutcome::Message(SourceMessage::Failure(m))
                ==> d == DispatchDecision::Report(m),
            d matches DispatchDecision::Spawn(n)
                ==> popped == PopOutcome::Message(SourceMessage::Change(n)),
            d matches DispatchDecision::Report(m)
                ==> popped == PopOutcome::Message(SourceMessage::Failure(m)),
            d is Wait <==> popped is MustWait,
            d is Stop <==> popped is EndOfStream,
            final(self).state is Dispatching <==> d is Spawn,
    {
        match popped {
            PopOutcome::Message(SourceMessage::Change(n)) => {
                self.state = DispatcherState::Dispatching;
                DispatchDecision::Spawn(n)
            },
            PopOutcome::Message(SourceMessage::Failure(m)) => DispatchDecision::Report(m),
            PopOutcome::MustWait => DispatchDecision::Wait,
            PopOutcome::EndOfStream => DispatchDecision::Stop,
        }
    }

    /// The processing task has been spawned, fire-and-forget: the dispatcher
    /// returns to the queue at once, without waiting for the task.
    pub fn spawned(&mut self)
        requires
            old(self).state is Dispatching,
        ensures
            final(self).state is Idle,
    {
        self.state = DispatcherState::Idle;
    }
}

/// The per-path units of work one notification fans out: exactly one per
/// affected path, in path order, whatever the notification's kind — even a
/// kind whose logging is suppressed.
pub open spec fn planned_tasks(n: Notification) -> Seq<Seq<char>> {
    n.path_views()
}

/// What processing one notification must do: emit these log actions, then
/// run one per-path unit of work for each of these paths.
pub struct EventPlan {
    pub actions: Vec<LogAction>,
    pub tasks: Vec<String>,
}

/// Turn one notification into its processing plan: the classified log
/// actions, and one per-path task per affected path regardless of kind.
pub fn process_event(n: &Notification) -> (plan: EventPlan)
    ensures
        action_views(plan.actions@) == classified(n.kind, n.path_views()),
        string_views(plan.tasks@) == planned_tasks(*n),
        plan.tasks@.len() == n.paths@.len(),
{
    let actions = classify(n);
    let mut tasks: Vec<String> = Vec::new();
    let mut i: usize = 0;
    while i < n.paths.len()
        invariant
            i <= n.paths@.len(),
            tasks@.len() == i,
            string_views(tasks@) == string_views(n.paths@.take(i as int)),
        decreases n.paths@.len() - i,
    {
        let ghost tasks_pre = tasks@;
        tasks.push(n.paths[i].clone());
        i = i + 1;
        proof {
            assert forall|m: int| 0 <= m < tasks@.len() implies
                string_views(tasks@)[m] == string_views(n.paths@.take(i as int))[m] by {
                if m < i - 1 {
                    assert(string_views(tasks_pre)[m] == string_views(n.paths@.take(i - 1))[m]);
                }
            }
            assert(string_views(tasks@) =~~= string_views(n.paths@.take(i as int)));
        }
    }
    proof {
        assert(n.paths@.take(n.paths@.len() as int) =~= n.paths@);
    }
    EventPlan { actions, tasks }
}

/// How one per-path unit of work ended: completed, or failed with the given
/// message.
#[derive(Clone, Debug, PartialEq, Eq)]
pub enum WorkerOutcome {
    Completed,
    Failed(String),
}

/// The failure messages among a sequence of per-path outcomes, in order.
pub open spec fn failure_reports(outcomes: Seq<WorkerOutcome>) -> Seq<Seq<char>>
    decreases outcomes.len(),
{
    if outcomes.len() == 0 {
        Seq::empty()
    } else {
        failure_reports(outcomes.drop_last()) + (match outcomes.last() {
            WorkerOutcome::Completed => Seq::<Seq<char>>::empty(),
            WorkerOutcome::Failed(m) => seq![m@],
        })
    }
}

/// Complete one notification's processing task: every per-path outcome has
/// been joined — one per planned task — and the failures among them are
/// reported; then, whatever the outcomes were, the task's permit is released
/// exactly once, so the dispatcher can admit further notifications.
pub fn complete_event(limiter: &mut Limiter, outcomes: &Vec<WorkerOutcome>) -> (reports: Vec<
    String,
>)
    requires
        old(limiter).wf(),
        old(limiter).outstanding >= 1,
    ensures
        final(limiter).wf(),
        final(limiter).capacity == old(limiter).capacity,
        final(limiter).outstanding == old(limiter).outstanding - 1,
        string_views(reports@) == failure_reports(outcomes@),
{
    let mut reports: Vec<String> = Vec::new();
    let mut i: usize = 0;
    while i < outcomes.len()
        invariant
            i <= outcomes@.len(),
            string_views(reports@) == failure_reports(outcomes@.take(i as int)),
        decreases outcomes@.len() - i,
    {
        match &outcomes[i] {
            WorkerOutcome::Completed => {},
            WorkerOutcome::Failed(m) => {
                reports.push(m.clone());
            },
        }
        i = i + 1;
        proof {
            assert(outcomes@.take(i as int).drop_last() =~= outcomes@.take(i - 1));
            assert(string_views(reports@) =~~= failure_reports(outcomes@.take(i as int)));
        }
    }
    proof {
        assert(outcomes@.take(outcomes@.len() as int) =~= outcomes@);
    }
    limiter.release();
    reports
}

/// Every notification fans out exactly one per-path task per path, and which
/// tasks are planned does not depend on the notification's kind: two
/// notifications over the same paths plan the same tasks.
pub proof fn lemma_task_per_path(a: Notification, b: Notification)
    requires
        a.paths@ == b.paths@,
    ensures
        planned_tasks(a).len() == a.paths@.len(),
        planned_tasks(a) == planned_tasks(b),
{
}

/// A create notification with a single path produces exactly one created
/// action, for that path, and plans exactly one per-path task, for that
/// path.
pub proof fn lemma_create_single(n: Notification)
    requires
        n.kind is Create,
        n.paths@.len() == 1,
    ensures
        classified(n.kind, n.path_views()) == seq![
            Action::Created { path: n.paths@[0]@ },
        ],
        planned_tasks(n) == seq![n.paths@[0]@],
{
    assert(classified(n.kind, n.path_views()) =~~= seq![
        Action::Created { path: n.paths@[0]@ },
    ]);
    assert(planned_tasks(n) =~~= seq![n.paths@[0]@]);
}

/// Concatenation splits failure reporting: the reports of two joined runs of
/// outcomes are the reports of the first, then those of the second.
proof fn lemma_failure_reports_concat(a: Seq<WorkerOutcome>, b: Seq<WorkerOutcome>)
    ensures
        failure_reports(a + b) == failure_reports(a) + failure_reports(b),
    decreases b.len(),
{
    if b.len() == 0 {
        assert(a + b =~= a);
        assert(failure_reports(a) + failure_reports(b) =~~= failure_reports(a));
    } else {
        assert((a + b).drop_last() =~= a + b.drop_last());
        assert((a + b).last() == b.last());
        lemma_failure_reports_concat(a, b.drop_last());
        assert(failure_reports(a + b) =~~= failure_reports(a) + failure_reports(b));
    }
}

/// Fault isolation: when the per-path task at one position fails, its
/// siblings' outcomes are reported exactly as they would be on their own —
/// the reports are those of the tasks before the fault, then the fault's
/// message, then those of the tasks after it.
pub proof fn lemma_fault_isolation(
    before: Seq<WorkerOutcome>,
    message: String,
    after: Seq<WorkerOutcome>,
)
    ensures
        failure_reports(before + seq![WorkerOutcome::Failed(message)] + after) == failure_reports(
            before,
        ) + seq![message@] + failure_reports(after),
{
    lemma_failure_reports_concat(before + seq![WorkerOutcome::Failed(message)], after);
    lemma_failure_reports_concat(before, seq![WorkerOutcome::Failed(message)]);
    assert(seq![WorkerOutcome::Failed(message)].drop_last() =~=
        Seq::<WorkerOutcome>::empty());
    assert(failure_reports(Seq::<WorkerOutcome>::empty()) =~~= Seq::<Seq<char>>::empty());
    assert(failure_reports(seq![WorkerOutcome::Failed(message)]) =~~= seq![message@]);
}

} // verus!
