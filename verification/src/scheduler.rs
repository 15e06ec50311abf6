//! The scheduler: the registry, the topic tasks in configuration order,
//! and the phase of the cooperative loop that polls the bus and lets ready
//! timers fire, in turn, until it is cancelled.

use crate::entropy::{EntropySource, EntropyState};
use crate::error::FuzzError;
use crate::generator::Generator;
use crate::registry::GeneratorRegistry;
use crate::topic::{
    SetupAction, TaskModel, TaskPhase, TaskState, TickAction, TickActionView, TopicDescriptor,
    TopicTask,
};
use vstd::prelude::*;

verus! {

/// The longest that one poll of the bus may take, in milliseconds.
pub const BUS_POLL_MS: u64 = 100;

/// Where the scheduler's loop stands.
#[derive(Clone, Copy, Debug, PartialEq, Eq, Structural)]
pub enum LoopPhase {
    /// The bus is polled next.
    Polling,
    /// The ready timers fire next.
    Advancing,
    /// Cancelled: nothing is done any more.
    Stopped,
}

/// What the loop asks the surrounding program to do next.
#[derive(Clone, Copy, Debug, PartialEq, Eq, Structural)]
pub enum SchedulerAction {
    /// Poll the bus, for no longer than this.
    PollBus { timeout_ms: u64 },
    /// Let every topic task whose timer is ready tick, once each.
    FireTimers,
    /// Leave the loop.
    Stop,
}

/// A scheduler as mathematical values.
pub struct SchedulerModel {
    pub entries: Map<Seq<char>, Generator>,
    pub tasks: Seq<TaskModel>,
    pub phase: LoopPhase,
}

impl SchedulerModel {
    /// Whether `i` is the index of a task.
    pub open spec fn has_task(self, i: int) -> bool {
        0 <= i < self.tasks.len()
    }

    /// This scheduler with the task at index `i` replaced by `task`, where
    /// there is such a task. Nothing else changes.
    pub open spec fn with_task(self, i: int, task: TaskModel) -> SchedulerModel {
        if self.has_task(i) {
            SchedulerModel { tasks: self.tasks.update(i, task), ..self }
        } else {
            self
        }
    }

    /// The scheduler after `start_task(i)`.
    pub open spec fn after_start(self, i: int) -> SchedulerModel {
        if self.has_task(i) {
            self.with_task(i, self.tasks[i].started())
        } else {
            self
        }
    }

    /// What `start_task(i)` asks for.
    pub open spec fn start_action(self, i: int) -> SetupAction {
        if self.has_task(i) {
            self.tasks[i].start_action()
        } else {
            SetupAction::Nothing
        }
    }

    /// The scheduler after `publisher_resolved(i, bound)`.
    pub open spec fn after_publisher(self, i: int, bound: bool) -> SchedulerModel {
        if self.has_task(i) {
            self.with_task(i, self.tasks[i].resolved(bound, self.entries))
        } else {
            self
        }
    }

    /// What `publisher_resolved(i, bound)` asks for.
    pub open spec fn resolve_action(self, i: int, bound: bool) -> SetupAction {
        if self.has_task(i) {
            self.tasks[i].resolve_action(bound, self.entries)
        } else {
            SetupAction::Nothing
        }
    }

    /// The scheduler after `timer_armed(i)`.
    pub open spec fn after_timer(self, i: int) -> SchedulerModel {
        if self.has_task(i) {
            self.with_task(i, self.tasks[i].armed())
        } else {
            self
        }
    }

    /// The scheduler after `publish_finished(i, _)`.
    pub open spec fn after_publish(self, i: int) -> SchedulerModel {
        if self.has_task(i) {
            self.with_task(i, self.tasks[i].published())
        } else {
            self
        }
    }

    /// What `publish_finished(i, accepted)` reports.
    pub open spec fn publish_report(self, i: int, accepted: bool) -> Option<FuzzError> {
        if self.has_task(i) {
            self.tasks[i].publish_report(accepted)
        } else {
            None
        }
    }

    /// Every task that got past the checks of setup has a registered
    /// message type and a positive rate.
    pub open spec fn wf(self) -> bool {
        forall|i: int|
            0 <= i < self.tasks.len() ==> (#[trigger] self.tasks[i]).fits(self.entries)
    }

    /// Whether the loop stops at this point, `cancelled` being what the
    /// cancellation signal says.
    pub open spec fn stops(self, cancelled: bool) -> bool {
        cancelled || self.phase == LoopPhase::Stopped
    }

    /// The scheduler once it has seen what the cancellation signal says.
    pub open spec fn observed(self, cancelled: bool) -> SchedulerModel {
        if self.stops(cancelled) {
            SchedulerModel { phase: LoopPhase::Stopped, ..self }
        } else {
            self
        }
    }

    /// What the loop asks for next.
    pub open spec fn loop_action(self, cancelled: bool) -> SchedulerAction {
        if self.stops(cancelled) {
            SchedulerAction::Stop
        } else if self.phase == LoopPhase::Polling {
            SchedulerAction::PollBus { timeout_ms: BUS_POLL_MS }
        } else {
            SchedulerAction::FireTimers
        }
    }

    /// The scheduler after one turn of the loop.
    pub open spec fn turned(self, cancelled: bool) -> SchedulerModel {
        if self.stops(cancelled) {
            SchedulerModel { phase: LoopPhase::Stopped, ..self }
        } else if self.phase == LoopPhase::Polling {
            SchedulerModel { phase: LoopPhase::Advancing, ..self }
        } else {
            SchedulerModel { phase: LoopPhase::Polling, ..self }
        }
    }

    /// Whether a tick of task `i` takes place: there is such a task and
    /// the loop is not stopped.
    pub open spec fn ticks(self, i: int, cancelled: bool) -> bool {
        self.has_task(i) && !self.stops(cancelled)
    }

    /// What a tick of task `i` asks for.
    pub open spec fn tick_action(self, i: int, cancelled: bool, s: EntropyState) -> TickActionView {
        if self.ticks(i, cancelled) {
            self.tasks[i].tick_action(self.entries, s)
        } else {
            TickActionView::Nothing
        }
    }

    /// The scheduler after a tick of task `i`.
    pub open spec fn ticked(self, i: int, cancelled: bool, s: EntropyState) -> SchedulerModel {
        if self.ticks(i, cancelled) {
            self.with_task(i, self.tasks[i].ticked(self.entries, s))
        } else {
            self.observed(cancelled)
        }
    }

    /// The state in which a tick of task `i` leaves a source that was in
    /// state `s`.
    pub open spec fn tick_leaves(self, i: int, cancelled: bool, s: EntropyState) -> EntropyState {
        if self.ticks(i, cancelled) {
            self.tasks[i].tick_leaves(self.entries, s)
        } else {
            s
        }
    }
}

/// Process-wide scheduler state.
pub struct Scheduler {
    registry: GeneratorRegistry,
    tasks: Vec<TopicTask>,
    phase: LoopPhase,
}

impl View for Scheduler {
    type V = SchedulerModel;

    closed spec fn view(&self) -> SchedulerModel {
        SchedulerModel {
            entries: self.registry@,
            tasks: task_models(self.tasks@),
            phase: self.phase,
        }
    }
}

/// The tasks of a scheduler as mathematical values, in their order.
pub closed spec fn task_models(tasks: Seq<TopicTask>) -> Seq<TaskModel> {
    Seq::new(tasks.len(), |i: int| tasks[i]@)
}

/// Replacing one task by a task that fits the registry keeps a scheduler
/// well-formed.
proof fn lemma_replacing_keeps_wf(m: SchedulerModel, i: int, task: TaskModel)
    requires
        m.wf(),
        m.has_task(i),
        task.fits(m.entries),
    ensures
        m.with_task(i, task).wf(),
{
    assert forall|j: int| 0 <= j < m.tasks.len() implies (#[trigger] m.with_task(
        i,
        task,
    ).tasks[j]).fits(m.entries) by {
        if j != i {
            assert(m.tasks[j].fits(m.entries));
        }
    }
}

impl Scheduler {
    #[verifier::type_invariant]
    spec fn tasks_fit_registry(&self) -> bool {
        self@.wf()
    }

    /// A scheduler over `registry` with one task per descriptor, in
    /// configuration order, each in phase `Created`. The loop begins by
    /// polling the bus.
    pub fn new(registry: GeneratorRegistry, descriptors: Vec<TopicDescriptor>) -> (scheduler:
        Scheduler)
        ensures
            scheduler@.wf(),
            scheduler@.entries == registry@,
            scheduler@.phase == LoopPhase::Polling,
            scheduler@.tasks.len() == descriptors@.len(),
            forall|i: int|
                0 <= i < descriptors@.len() ==> #[trigger] scheduler@.tasks[i] == (TaskModel {
                    topic: descriptors@[i]@,
                    phase: TaskPhase::Created,
                }),
    {
        let mut tasks: Vec<TopicTask> = Vec::new();
        for descriptor in it: descriptors
            invariant
                tasks@.len() == it.index(),
                forall|i: int|
                    0 <= i < tasks@.len() ==> #[trigger] tasks@[i]@ == (TaskModel {
                        topic: it.seq()[i]@,
                        phase: TaskPhase::Created,
                    }),
        {
            tasks.push(TopicTask::new(descriptor));
        }
        Scheduler { registry, tasks, phase: LoopPhase::Polling }
    }

    /// The number of topic tasks.
    pub fn task_count(&self) -> (n: usize)
        ensures
            n == self@.tasks.len(),
    {
        self.tasks.len()
    }

    /// The task at index `i`, if there is one.
    pub fn task(&self, i: usize) -> (t: Option<&TopicTask>)
        ensures
            match t {
                Some(task) => self@.has_task(i as int) && task@ == self@.tasks[i as int],
                None => !self@.has_task(i as int),
            },
    {
        if i < self.tasks.len() {
            Some(&self.tasks[i])
        } else {
            None
        }
    }

    /// The registry that the tasks generate from.
    pub fn registry(&self) -> (r: &GeneratorRegistry)
        ensures
            r@ == self@.entries,
    {
        &self.registry
    }

    /// Where the loop stands.
    pub fn phase(&self) -> (p: LoopPhase)
        ensures
            p == self@.phase,
    {
        self.phase
    }

    /// One turn of the loop. While it is not cancelled the loop alternates
    /// between a bounded poll of the bus and the firing of the ready
    /// timers. Once `cancelled` has been seen the loop stops for good.
    pub fn next_action(&mut self, cancelled: bool) -> (action: SchedulerAction)
        ensures
            final(self)@.wf(),
            action == old(self)@.loop_action(cancelled),
            final(self)@ == old(self)@.turned(cancelled),
    {
        proof {
            use_type_invariant(&*self);
        }
        if cancelled {
            self.phase = LoopPhase::Stopped;
            return SchedulerAction::Stop;
        }
        match self.phase {
            LoopPhase::Polling => {
                self.phase = LoopPhase::Advancing;
                SchedulerAction::PollBus { timeout_ms: BUS_POLL_MS }
            },
            LoopPhase::Advancing => {
                self.phase = LoopPhase::Polling;
                SchedulerAction::FireTimers
            },
            LoopPhase::Stopped => SchedulerAction::Stop,
        }
    }

    /// Begins the setup of task `i`: see `TopicTask::start`. No other task
    /// changes, and an index without a task changes nothing.
    pub fn start_task(&mut self, i: usize) -> (action: SetupAction)
        ensures
            final(self)@.wf(),
            action == old(self)@.start_action(i as int),
            final(self)@ == old(self)@.after_start(i as int),
    {
        proof {
            use_type_invariant(&*self);
        }
        if i >= self.tasks.len() {
            return SetupAction::Nothing;
        }
        // The tasks are taken out while one of them changes, so that the
        // scheduler is well-formed at every point.
        let mut tasks: Vec<TopicTask> = Vec::new();
        std::mem::swap(&mut self.tasks, &mut tasks);
        let action = tasks[i].start();
        proof {
            let before = old(self)@;
            let after = before.tasks[i as int].started();
            assert(task_models(tasks@) =~= before.tasks.update(i as int, after));
            assert(before.tasks[i as int].fits(before.entries));
            lemma_replacing_keeps_wf(before, i as int, after);
        }
        self.tasks = tasks;
        action
    }

    /// Goes on with the setup of task `i` once the bus has answered the
    /// request for its publisher: see `TopicTask::publisher_resolved`. The
    /// generator is resolved in this scheduler's registry.
    pub fn publisher_resolved(&mut self, i: usize, bound: bool) -> (action: SetupAction)
        ensures
            final(self)@.wf(),
            action == old(self)@.resolve_action(i as int, bound),
            final(self)@ == old(self)@.after_publisher(i as int, bound),
    {
        proof {
            use_type_invariant(&*self);
        }
        if i >= self.tasks.len() {
            return SetupAction::Nothing;
        }
        let mut tasks: Vec<TopicTask> = Vec::new();
        std::mem::swap(&mut self.tasks, &mut tasks);
        let action = tasks[i].publisher_resolved(bound, &self.registry);
        proof {
            let before = old(self)@;
            let after = before.tasks[i as int].resolved(bound, before.entries);
            assert(task_models(tasks@) =~= before.tasks.update(i as int, after));
            assert(before.tasks[i as int].fits(before.entries));
            lemma_replacing_keeps_wf(before, i as int, after);
        }
        self.tasks = tasks;
        action
    }

    /// Ends the setup of task `i`: see `TopicTask::timer_armed`.
    pub fn timer_armed(&mut self, i: usize)
        ensures
            final(self)@.wf(),
            final(self)@ == old(self)@.after_timer(i as int),
    {
        proof {
            use_type_invariant(&*self);
        }
        if i >= self.tasks.len() {
            return;
        }
        let mut tasks: Vec<TopicTask> = Vec::new();
        std::mem::swap(&mut self.tasks, &mut tasks);
        tasks[i].timer_armed();
        proof {
            let before = old(self)@;
            let after = before.tasks[i as int].armed();
            assert(task_models(tasks@) =~= before.tasks.update(i as int, after));
            assert(before.tasks[i as int].fits(before.entries));
            lemma_replacing_keeps_wf(before, i as int, after);
        }
        self.tasks = tasks;
    }

    /// One firing of the timer of task `i`: see `TopicTask::tick`. The
    /// cancellation signal is looked at first: once it is set no tick
    /// begins, and the loop is stopped. No other task changes. The only
    /// errors that skip a tick are the two generation errors.
    pub fn tick(&mut self, i: usize, cancelled: bool, u: &mut EntropySource) -> (action: TickAction)
        ensures
            final(self)@.wf(),
            action@ == old(self)@.tick_action(i as int, cancelled, old(u)@),
            final(self)@ == old(self)@.ticked(i as int, cancelled, old(u)@),
            final(u)@ == old(self)@.tick_leaves(i as int, cancelled, old(u)@),
            action matches TickAction::Skip(e) ==> e == FuzzError::GenerationExhausted || e
                == FuzzError::GenerationMalformed,
    {
        proof {
            use_type_invariant(&*self);
        }
        if cancelled {
            self.phase = LoopPhase::Stopped;
            return TickAction::Nothing;
        }
        if self.phase == LoopPhase::Stopped || i >= self.tasks.len() {
            return TickAction::Nothing;
        }
        let mut tasks: Vec<TopicTask> = Vec::new();
        std::mem::swap(&mut self.tasks, &mut tasks);
        let action = tasks[i].tick(&self.registry, u);
        proof {
            let before = old(self)@;
            let after = before.tasks[i as int].ticked(before.entries, old(u)@);
            assert(task_models(tasks@) =~= before.tasks.update(i as int, after));
            assert(before.tasks[i as int].fits(before.entries));
            lemma_replacing_keeps_wf(before, i as int, after);
        }
        self.tasks = tasks;
        action
    }

    /// Ends a tick of task `i` once the bus has answered the publish call:
    /// see `TopicTask::publish_finished`. A publish that is under way is
    /// completed also after cancellation.
    pub fn publish_finished(&mut self, i: usize, accepted: bool) -> (report: Option<FuzzError>)
        ensures
            final(self)@.wf(),
            report == old(self)@.publish_report(i as int, accepted),
            final(self)@ == old(self)@.after_publish(i as int),
    {
        proof {
            use_type_invariant(&*self);
        }
        if i >= self.tasks.len() {
            return None;
        }
        let mut tasks: Vec<TopicTask> = Vec::new();
        std::mem::swap(&mut self.tasks, &mut tasks);
        let report = tasks[i].publish_finished(accepted);
        proof {
            let before = old(self)@;
            let after = before.tasks[i as int].published();
            assert(task_models(tasks@) =~= before.tasks.update(i as int, after));
            assert(before.tasks[i as int].fits(before.entries));
            lemma_replacing_keeps_wf(before, i as int, after);
        }
        self.tasks = tasks;
        report
    }
}

/// A tick of one task changes no other task and leaves the registry as it
/// was.
pub proof fn lemma_tick_is_local(
    m: SchedulerModel,
    i: int,
    j: int,
    cancelled: bool,
    s: EntropyState,
)
    requires
        m.has_task(j),
        i != j,
    ensures
        m.ticked(i, cancelled, s).tasks[j] == m.tasks[j],
        m.ticked(i, cancelled, s).entries == m.entries,
        m.ticked(i, cancelled, s).tasks.len() == m.tasks.len(),
{
}

/// No task is starved by the failure of a tick, its own or another's. A
/// skipped tick changes no task, so every task keeps its place; one that
/// is skipped for want of entropy also leaves the entropy source as it
/// was, so it takes no byte from the ticks that follow.
pub proof fn lemma_skipped_tick_starves_nobody(
    m: SchedulerModel,
    i: int,
    cancelled: bool,
    s: EntropyState,
)
    requires
        m.wf(),
        m.tick_action(i, cancelled, s) is Skip,
    ensures
        m.ticked(i, cancelled, s) == m,
        m.tick_action(i, cancelled, s) == TickActionView::Skip(FuzzError::GenerationExhausted)
            || m.tick_action(i, cancelled, s) == TickActionView::Skip(
            FuzzError::GenerationMalformed,
        ),
        m.tick_action(i, cancelled, s) == TickActionView::Skip(FuzzError::GenerationExhausted)
            ==> m.tick_leaves(i, cancelled, s) == s,
{
    assert(m.tasks[i].fits(m.entries));
    assert(m.tasks.update(i, m.tasks[i]) =~= m.tasks);
}

/// In a well-formed scheduler a task whose message type is not registered
/// is never running, and a tick of it does nothing.
pub proof fn lemma_unregistered_never_ticks(
    m: SchedulerModel,
    i: int,
    cancelled: bool,
    s: EntropyState,
)
    requires
        m.wf(),
        m.has_task(i),
        !m.entries.contains_key(m.tasks[i].topic.msg_type),
    ensures
        m.tasks[i].phase.state() != TaskState::Running,
        m.tasks[i].phase != TaskPhase::ArmingTimer,
        m.tick_action(i, cancelled, s) == TickActionView::Nothing,
        m.tick_leaves(i, cancelled, s) == s,
{
    assert(m.tasks[i].fits(m.entries));
}

/// While it is not cancelled the loop alternates: every poll of the bus
/// is bounded by `BUS_POLL_MS` and followed by a turn of the timers, and
/// every turn of the timers by a poll of the bus.
pub proof fn lemma_loop_alternates(m: SchedulerModel)
    requires
        m.phase != LoopPhase::Stopped,
    ensures
        m.loop_action(false) == (SchedulerAction::PollBus { timeout_ms: BUS_POLL_MS })
            ==> m.turned(false).loop_action(false) == SchedulerAction::FireTimers,
        m.loop_action(false) == SchedulerAction::FireTimers ==> m.turned(false).loop_action(false)
            == (SchedulerAction::PollBus { timeout_ms: BUS_POLL_MS }),
        m.loop_action(false) != SchedulerAction::Stop,
        m.turned(false).turned(false) == m,
{
}

/// Cancellation is final: once the signal has been seen, at a turn of the
/// loop or at a tick, the loop only ever stops and no tick begins again,
/// whatever the signal says later.
pub proof fn lemma_cancellation_is_final(
    m: SchedulerModel,
    i: int,
    later: bool,
    s: EntropyState,
)
    ensures
        m.turned(true).phase == LoopPhase::Stopped,
        m.ticked(i, true, s).phase == LoopPhase::Stopped,
        m.ticked(i, true, s).tasks == m.tasks,
        m.turned(true).loop_action(later) == SchedulerAction::Stop,
        m.turned(true).turned(later) == m.turned(true),
        m.turned(true).tick_action(i, later, s) == TickActionView::Nothing,
        m.turned(true).tick_leaves(i, later, s) == s,
{
}

/// The scheduler after one complete tick of task `i`: its timer fires
/// and, where a message is handed out, the publish call returns.
pub open spec fn served(m: SchedulerModel, i: int, s: EntropyState) -> SchedulerModel {
    m.ticked(i, false, s).after_publish(i)
}

/// How often `j` occurs in `firings`.
pub open spec fn firings_of(firings: Seq<int>, j: int) -> nat
    decreases firings.len(),
{
    if firings.len() == 0 {
        0
    } else {
        let first: nat = if firings[0] == j {
            1
        } else {
            0
        };
        first + firings_of(firings.skip(1), j)
    }
}

/// How many generate-and-publish attempts task `j` makes while the timers
/// of the tasks `firings` fire one after the other, each tick being
/// completed before the next begins. A tick that is skipped for an error
/// counts as an attempt; a firing on which nothing happens does not.
pub open spec fn attempts(m: SchedulerModel, s: EntropyState, firings: Seq<int>, j: int) -> nat
    decreases firings.len(),
{
    if firings.len() == 0 {
        0
    } else {
        let i = firings[0];
        let first: nat = if i == j && !(m.tick_action(i, false, s) is Nothing) {
            1
        } else {
            0
        };
        first + attempts(served(m, i, s), m.tick_leaves(i, false, s), firings.skip(1), j)
    }
}

/// Every firing of a running task's timer is served: over any sequence
/// of firings, of whatever tasks and with whatever outcomes, the task
/// makes exactly as many attempts as its own timer fired. No tick of
/// another task, failed or not, takes one away.
pub proof fn lemma_every_firing_is_served(
    m: SchedulerModel,
    s: EntropyState,
    firings: Seq<int>,
    j: int,
)
    requires
        m.wf(),
        m.phase != LoopPhase::Stopped,
        m.has_task(j),
        m.tasks[j].phase == TaskPhase::Running,
    ensures
        attempts(m, s, firings, j) == firings_of(firings, j),
    decreases firings.len(),
{
    if firings.len() > 0 {
        let i = firings[0];
        let next = served(m, i, s);
        if m.has_task(i) {
            let ticked = m.tasks[i].ticked(m.entries, s);
            assert(m.tasks[i].fits(m.entries));
            lemma_replacing_keeps_wf(m, i, ticked);
            lemma_replacing_keeps_wf(m.ticked(i, false, s), i, ticked.published());
        }
        lemma_every_firing_is_served(next, m.tick_leaves(i, false, s), firings.skip(1), j);
    }
}

/// A running task whose timer fires while the loop is not stopped makes
/// its attempt: a message is handed out or the tick is skipped for a
/// generation error, whatever state the other tasks are in.
pub proof fn lemma_ready_task_ticks(m: SchedulerModel, i: int, s: EntropyState)
    requires
        m.wf(),
        m.phase != LoopPhase::Stopped,
        m.has_task(i),
        m.tasks[i].phase == TaskPhase::Running,
    ensures
        m.tick_action(i, false, s) is Publish || m.tick_action(i, false, s) is Skip,
        served(m, i, s).tasks[i] == m.tasks[i],
{
}

} // verus!
