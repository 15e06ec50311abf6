//! Topic descriptors and topic tasks. A task is the state machine of one
//! configured topic: it decides what is asked of the messaging bus, and the
//! surrounding program reports back what the bus answered.

use crate::entropy::{EntropySource, EntropyState};
use crate::error::FuzzError;
use crate::generator::{Generator, MessageView, TypedMessage};
use crate::registry::{generate_leaves, generate_outcome, GeneratorRegistry};
use vstd::prelude::*;

verus! {

/// Milliseconds in the second over which a rate is counted.
pub const MILLIS_PER_SECOND: i64 = 1000;

/// One entry of the parsed configuration. Nothing in it changes once it is
/// made.
#[derive(Debug)]
pub struct TopicDescriptor {
    msg_type: String,
    msg_factory: String,
    rate: i64,
    qos: i64,
    topic_name: String,
}

/// What a topic descriptor holds, as mathematical values.
pub struct TopicView {
    pub msg_type: Seq<char>,
    pub msg_factory: Seq<char>,
    pub rate: int,
    pub qos: int,
    pub topic_name: Seq<char>,
}

impl View for TopicDescriptor {
    type V = TopicView;

    closed spec fn view(&self) -> TopicView {
        TopicView {
            msg_type: self.msg_type@,
            msg_factory: self.msg_factory@,
            rate: self.rate as int,
            qos: self.qos as int,
            topic_name: self.topic_name@,
        }
    }
}

impl TopicDescriptor {
    /// A descriptor of the given fields. No field is checked here: a bad
    /// rate or an unknown message type is found when the topic is set up.
    pub fn new(msg_type: String, msg_factory: String, rate: i64, qos: i64, topic_name: String) -> (d:
        TopicDescriptor)
        ensures
            d@ == (TopicView {
                msg_type: msg_type@,
                msg_factory: msg_factory@,
                rate: rate as int,
                qos: qos as int,
                topic_name: topic_name@,
            }),
    {
        TopicDescriptor { msg_type, msg_factory, rate, qos, topic_name }
    }

    /// The message-type identifier, the key into the generator registry.
    pub fn msg_type(&self) -> (s: &str)
        ensures
            s@ == self@.msg_type,
    {
        self.msg_type.as_str()
    }

    /// The factory selector. It is carried, and consulted by nothing.
    pub fn msg_factory(&self) -> (s: &str)
        ensures
            s@ == self@.msg_factory,
    {
        self.msg_factory.as_str()
    }

    /// Messages per second.
    pub fn rate(&self) -> (r: i64)
        ensures
            r == self@.rate,
    {
        self.rate
    }

    /// The quality-of-service level, passed through to the bus.
    pub fn qos(&self) -> (q: i64)
        ensures
            q == self@.qos,
    {
        self.qos
    }

    /// The bus topic path.
    pub fn topic_name(&self) -> (s: &str)
        ensures
            s@ == self@.topic_name,
    {
        self.topic_name.as_str()
    }
}

/// The timer interval of a rate, in whole milliseconds: `1000 / rate`. A
/// rate that is not positive is `InvalidRate`.
pub open spec fn interval_of(rate: int) -> Result<int, FuzzError> {
    if rate <= 0 {
        Err(FuzzError::InvalidRate)
    } else {
        Ok(MILLIS_PER_SECOND as int / rate)
    }
}

/// The timer interval in milliseconds for `rate` messages per second.
pub fn timer_interval_ms(rate: i64) -> (r: Result<u64, FuzzError>)
    ensures
        match r {
            Ok(ms) => interval_of(rate as int) == Ok::<int, FuzzError>(ms as int),
            Err(e) => interval_of(rate as int) == Err::<int, FuzzError>(e),
        },
{
    if rate <= 0 {
        Err(FuzzError::InvalidRate)
    } else {
        let ms: i64 = MILLIS_PER_SECOND / rate;
        Ok(ms as u64)
    }
}

/// Where a topic task stands.
#[derive(Clone, Copy, Debug, PartialEq, Eq, Structural)]
pub enum TaskPhase {
    /// Made from its descriptor; nothing has been asked of the bus.
    Created,
    /// The publisher has been asked for; the answer is awaited.
    BindingPublisher,
    /// The timer has been asked for; it is not armed yet.
    ArmingTimer,
    /// Set up, and between two ticks.
    Running,
    /// Inside a tick: a message has been handed out for publication and
    /// the outcome is awaited.
    Publishing,
    /// Setup failed with the given error. The task never runs.
    Aborted(FuzzError),
}

/// The three states of a task's life: setup under way, running, aborted.
#[derive(Clone, Copy, Debug, PartialEq, Eq, Structural)]
pub enum TaskState {
    Created,
    Running,
    Aborted,
}

impl TaskPhase {
    /// The state that this phase belongs to.
    pub open spec fn state(self) -> TaskState {
        match self {
            TaskPhase::Created => TaskState::Created,
            TaskPhase::BindingPublisher => TaskState::Created,
            TaskPhase::ArmingTimer => TaskState::Created,
            TaskPhase::Running => TaskState::Running,
            TaskPhase::Publishing => TaskState::Running,
            TaskPhase::Aborted(_) => TaskState::Aborted,
        }
    }
}

/// What setup asks the surrounding program to do next.
#[derive(Clone, Copy, Debug, PartialEq, Eq, Structural)]
pub enum SetupAction {
    /// Create the publisher for the task's topic name, message type and
    /// quality of service.
    CreatePublisher,
    /// Let go of the publisher that was created: setup failed after it.
    DropPublisher,
    /// Create the periodic timer with this interval.
    CreateTimer { interval_ms: u64 },
    /// Nothing is to be done.
    Nothing,
}

/// What a tick asks the surrounding program to do.
#[derive(Debug, PartialEq)]
pub enum TickAction {
    /// Publish this message through the task's publisher.
    Publish(TypedMessage),
    /// Publish nothing for this tick, and report this error.
    Skip(FuzzError),
    /// The task was not ready to tick: nothing happened.
    Nothing,
}

/// What a tick action holds, as mathematical values.
pub enum TickActionView {
    Publish(MessageView),
    Skip(FuzzError),
    Nothing,
}

impl View for TickAction {
    type V = TickActionView;

    open spec fn view(&self) -> TickActionView {
        match *self {
            TickAction::Publish(m) => TickActionView::Publish(m@),
            TickAction::Skip(e) => TickActionView::Skip(e),
            TickAction::Nothing => TickActionView::Nothing,
        }
    }
}

/// An error with the context that a report of it needs.
#[derive(Debug, PartialEq, Eq)]
pub struct ErrorReport {
    pub topic_name: String,
    pub msg_type: String,
    pub kind: FuzzError,
}

/// A topic task as mathematical values: its descriptor and its phase.
pub struct TaskModel {
    pub topic: TopicView,
    pub phase: TaskPhase,
}

impl TaskModel {
    /// Whether the task fits the registry entries `entries`: if it got
    /// past the checks of setup, its message type is registered and its
    /// rate is positive.
    pub open spec fn fits(self, entries: Map<Seq<char>, Generator>) -> bool {
        (self.phase == TaskPhase::ArmingTimer || self.phase.state() == TaskState::Running)
            ==> entries.contains_key(self.topic.msg_type) && self.topic.rate > 0
    }

    /// The task after `start`.
    pub open spec fn started(self) -> TaskModel {
        if self.phase == TaskPhase::Created {
            TaskModel { phase: TaskPhase::BindingPublisher, ..self }
        } else {
            self
        }
    }

    /// What `start` asks for.
    pub open spec fn start_action(self) -> SetupAction {
        if self.phase == TaskPhase::Created {
            SetupAction::CreatePublisher
        } else {
            SetupAction::Nothing
        }
    }

    /// The phase that setup reaches once the bus has answered the request
    /// for the publisher. The checks come in this order: the publisher, the
    /// generator, the rate.
    pub open spec fn verdict(self, bound: bool, entries: Map<Seq<char>, Generator>) -> TaskPhase {
        if !bound {
            TaskPhase::Aborted(FuzzError::PublisherSetupFailed)
        } else if !entries.contains_key(self.topic.msg_type) {
            TaskPhase::Aborted(FuzzError::UnknownMessageType)
        } else if self.topic.rate <= 0 {
            TaskPhase::Aborted(FuzzError::InvalidRate)
        } else {
            TaskPhase::ArmingTimer
        }
    }

    /// The task after `publisher_resolved`.
    pub open spec fn resolved(self, bound: bool, entries: Map<Seq<char>, Generator>) -> TaskModel {
        if self.phase == TaskPhase::BindingPublisher {
            TaskModel { phase: self.verdict(bound, entries), ..self }
        } else {
            self
        }
    }

    /// What `publisher_resolved` asks for.
    pub open spec fn resolve_action(
        self,
        bound: bool,
        entries: Map<Seq<char>, Generator>,
    ) -> SetupAction {
        if self.phase != TaskPhase::BindingPublisher {
            SetupAction::Nothing
        } else if self.verdict(bound, entries) == TaskPhase::ArmingTimer {
            SetupAction::CreateTimer {
                interval_ms: (MILLIS_PER_SECOND as int / self.topic.rate) as u64,
            }
        } else if bound {
            SetupAction::DropPublisher
        } else {
            SetupAction::Nothing
        }
    }

    /// The task after `timer_armed`.
    pub open spec fn armed(self) -> TaskModel {
        if self.phase == TaskPhase::ArmingTimer {
            TaskModel { phase: TaskPhase::Running, ..self }
        } else {
            self
        }
    }

    /// What a tick asks for, on the registry entries `entries` and a source
    /// in state `s`.
    pub open spec fn tick_action(
        self,
        entries: Map<Seq<char>, Generator>,
        s: EntropyState,
    ) -> TickActionView {
        if self.phase != TaskPhase::Running {
            TickActionView::Nothing
        } else {
            match generate_outcome(entries, self.topic.msg_type, s) {
                Ok(m) => TickActionView::Publish(m),
                Err(e) => TickActionView::Skip(e),
            }
        }
    }

    /// The task after a tick.
    pub open spec fn ticked(self, entries: Map<Seq<char>, Generator>, s: EntropyState) -> TaskModel {
        if self.tick_action(entries, s) is Publish {
            TaskModel { phase: TaskPhase::Publishing, ..self }
        } else {
            self
        }
    }

    /// The state in which a tick leaves a source that was in state `s`.
    pub open spec fn tick_leaves(
        self,
        entries: Map<Seq<char>, Generator>,
        s: EntropyState,
    ) -> EntropyState {
        if self.phase != TaskPhase::Running {
            s
        } else {
            generate_leaves(entries, self.topic.msg_type, s)
        }
    }

    /// The task after `publish_finished`.
    pub open spec fn published(self) -> TaskModel {
        if self.phase == TaskPhase::Publishing {
            TaskModel { phase: TaskPhase::Running, ..self }
        } else {
            self
        }
    }

    /// What `publish_finished` reports.
    pub open spec fn publish_report(self, accepted: bool) -> Option<FuzzError> {
        if self.phase == TaskPhase::Publishing && !accepted {
            Some(FuzzError::PublishFailed)
        } else {
            None
        }
    }
}

/// The runtime unit of one configured topic.
#[derive(Debug)]
pub struct TopicTask {
    descriptor: TopicDescriptor,
    phase: TaskPhase,
}

impl View for TopicTask {
    type V = TaskModel;

    closed spec fn view(&self) -> TaskModel {
        TaskModel { topic: self.descriptor@, phase: self.phase }
    }
}

impl TopicTask {
    /// A task for `descriptor`, in phase `Created`.
    pub fn new(descriptor: TopicDescriptor) -> (task: TopicTask)
        ensures
            task@ == (TaskModel { topic: descriptor@, phase: TaskPhase::Created }),
    {
        TopicTask { descriptor, phase: TaskPhase::Created }
    }

    /// The descriptor that the task owns.
    pub fn descriptor(&self) -> (d: &TopicDescriptor)
        ensures
            d@ == self@.topic,
    {
        &self.descriptor
    }

    /// The phase in which the task stands.
    pub fn phase(&self) -> (p: TaskPhase)
        ensures
            p == self@.phase,
    {
        self.phase
    }

    /// The state of the task's life that its phase belongs to.
    pub fn state(&self) -> (s: TaskState)
        ensures
            s == self@.phase.state(),
    {
        match self.phase {
            TaskPhase::Created => TaskState::Created,
            TaskPhase::BindingPublisher => TaskState::Created,
            TaskPhase::ArmingTimer => TaskState::Created,
            TaskPhase::Running => TaskState::Running,
            TaskPhase::Publishing => TaskState::Running,
            TaskPhase::Aborted(_) => TaskState::Aborted,
        }
    }

    /// The error that aborted setup, if setup was aborted.
    pub fn abort_cause(&self) -> (e: Option<FuzzError>)
        ensures
            e == (match self@.phase {
                TaskPhase::Aborted(cause) => Some(cause),
                _ => None,
            }),
    {
        match self.phase {
            TaskPhase::Aborted(cause) => Some(cause),
            _ => None,
        }
    }

    /// An error of the task with the context that a report of it needs:
    /// the topic name, the message type and the kind of error.
    pub fn report(&self, kind: FuzzError) -> (report: ErrorReport)
        ensures
            report.topic_name@ == self@.topic.topic_name,
            report.msg_type@ == self@.topic.msg_type,
            report.kind == kind,
    {
        ErrorReport {
            topic_name: self.descriptor.topic_name.clone(),
            msg_type: self.descriptor.msg_type.clone(),
            kind,
        }
    }

    /// Begins setup: a task in phase `Created` asks for its publisher.
    /// In any other phase nothing happens.
    pub fn start(&mut self) -> (action: SetupAction)
        ensures
            final(self)@ == old(self)@.started(),
            action == old(self)@.start_action(),
    {
        match self.phase {
            TaskPhase::Created => {
                self.phase = TaskPhase::BindingPublisher;
                SetupAction::CreatePublisher
            },
            _ => SetupAction::Nothing,
        }
    }

    /// Goes on with setup once the bus has answered: `bound` says whether
    /// the publisher was created. A rejected publisher, an unregistered
    /// message type and a rate that is not positive abort the task, in
    /// this order of precedence; otherwise the timer is asked for.
    pub fn publisher_resolved(&mut self, bound: bool, registry: &GeneratorRegistry) -> (action:
        SetupAction)
        ensures
            final(self)@ == old(self)@.resolved(bound, registry@),
            action == old(self)@.resolve_action(bound, registry@),
    {
        match self.phase {
            TaskPhase::BindingPublisher => {
                if !bound {
                    self.phase = TaskPhase::Aborted(FuzzError::PublisherSetupFailed);
                    return SetupAction::Nothing;
                }
                if !registry.is_registered(self.descriptor.msg_type()) {
                    self.phase = TaskPhase::Aborted(FuzzError::UnknownMessageType);
                    return SetupAction::DropPublisher;
                }
                match timer_interval_ms(self.descriptor.rate) {
                    Ok(interval_ms) => {
                        self.phase = TaskPhase::ArmingTimer;
                        SetupAction::CreateTimer { interval_ms }
                    },
                    Err(e) => {
                        self.phase = TaskPhase::Aborted(e);
                        SetupAction::DropPublisher
                    },
                }
            },
            _ => SetupAction::Nothing,
        }
    }

    /// Ends setup: the timer is armed and the task runs. In any phase but
    /// `ArmingTimer` nothing happens.
    pub fn timer_armed(&mut self)
        ensures
            final(self)@ == old(self)@.armed(),
    {
        match self.phase {
            TaskPhase::ArmingTimer => {
                self.phase = TaskPhase::Running;
            },
            _ => {},
        }
    }

    /// One firing of the task's timer. A running task invokes the
    /// registry's generator for its message type on the shared entropy
    /// source: a message is handed out for publication, an error skips the
    /// tick. The task goes on in either case. A task that is not between
    /// two ticks does nothing and consumes nothing.
    pub fn tick(&mut self, registry: &GeneratorRegistry, u: &mut EntropySource) -> (action:
        TickAction)
        ensures
            action@ == old(self)@.tick_action(registry@, old(u)@),
            final(self)@ == old(self)@.ticked(registry@, old(u)@),
            final(u)@ == old(self)@.tick_leaves(registry@, old(u)@),
    {
        match self.phase {
            TaskPhase::Running => {
                match registry.generate(self.descriptor.msg_type(), u) {
                    Ok(message) => {
                        self.phase = TaskPhase::Publishing;
                        TickAction::Publish(message)
                    },
                    Err(e) => TickAction::Skip(e),
                }
            },
            _ => TickAction::Nothing,
        }
    }

    /// Ends a tick once the bus has answered the publish call. A rejected
    /// publish is reported as `PublishFailed`; the task runs on in either
    /// case. Outside a tick nothing happens.
    pub fn publish_finished(&mut self, accepted: bool) -> (report: Option<FuzzError>)
        ensures
            final(self)@ == old(self)@.published(),
            report == old(self)@.publish_report(accepted),
    {
        match self.phase {
            TaskPhase::Publishing => {
                self.phase = TaskPhase::Running;
                if accepted {
                    None
                } else {
                    Some(FuzzError::PublishFailed)
                }
            },
            _ => None,
        }
    }
}

/// The timer of a positive rate is never slower than the rate: `rate`
/// intervals fit into one second, and intervals one millisecond longer
/// would not.
pub proof fn lemma_interval_matches_rate(rate: int)
    requires
        rate > 0,
    ensures
        interval_of(rate) matches Ok(ms) && 0 <= ms && ms * rate <= MILLIS_PER_SECOND < (ms + 1)
            * rate,
{
    let ms = MILLIS_PER_SECOND as int / rate;
    assert(0 <= ms && ms * rate <= 1000 < (ms + 1) * rate) by (nonlinear_arith)
        requires
            rate > 0,
            ms == 1000int / rate,
    ;
}

/// A task that awaits the answer of the bus and whose message type is not
/// registered is aborted whatever the answer is: with `UnknownMessageType`
/// where the publisher was created, which is then let go of, and with
/// `PublisherSetupFailed` where it was not. No timer is asked for.
pub proof fn lemma_unregistered_aborts(
    task: TaskModel,
    bound: bool,
    entries: Map<Seq<char>, Generator>,
)
    requires
        task.phase == TaskPhase::BindingPublisher,
        !entries.contains_key(task.topic.msg_type),
    ensures
        bound ==> task.resolved(bound, entries).phase == TaskPhase::Aborted(
            FuzzError::UnknownMessageType,
        ) && task.resolve_action(bound, entries) == SetupAction::DropPublisher,
        !bound ==> task.resolved(bound, entries).phase == TaskPhase::Aborted(
            FuzzError::PublisherSetupFailed,
        ) && task.resolve_action(bound, entries) == SetupAction::Nothing,
        !(task.resolve_action(bound, entries) is CreateTimer),
{
}

/// Setup asks for the timer exactly when all three checks pass, and then
/// with the interval of the configured rate; every failure aborts with an
/// error of setup.
pub proof fn lemma_setup_verdict(task: TaskModel, bound: bool, entries: Map<Seq<char>, Generator>)
    requires
        task.phase == TaskPhase::BindingPublisher,
    ensures
        task.resolved(bound, entries).phase == TaskPhase::ArmingTimer <==> bound
            && entries.contains_key(task.topic.msg_type) && task.topic.rate > 0,
        task.resolved(bound, entries).phase == TaskPhase::ArmingTimer ==> (interval_of(
            task.topic.rate,
        ) matches Ok(ms) && task.resolve_action(bound, entries) == (SetupAction::CreateTimer {
            interval_ms: ms as u64,
        })),
        task.resolved(bound, entries).phase matches TaskPhase::Aborted(e) ==> e.is_setup_error(),
        task.resolved(bound, entries).fits(entries),
{
}

/// An aborted task stays aborted: no event changes it, asks anything of
/// the bus or consumes entropy. It never enters `Running`.
pub proof fn lemma_aborted_is_final(
    task: TaskModel,
    bound: bool,
    accepted: bool,
    entries: Map<Seq<char>, Generator>,
    s: EntropyState,
)
    requires
        task.phase.state() == TaskState::Aborted,
    ensures
        task.started() == task,
        task.start_action() == SetupAction::Nothing,
        task.resolved(bound, entries) == task,
        task.resolve_action(bound, entries) == SetupAction::Nothing,
        task.armed() == task,
        task.ticked(entries, s) == task,
        task.tick_action(entries, s) == TickActionView::Nothing,
        task.tick_leaves(entries, s) == s,
        task.published() == task,
        task.publish_report(accepted) == None::<FuzzError>,
{
}

/// No tick ends a running task: whether the tick publishes, is skipped
/// for a generation error or has its publish rejected, the task is
/// running afterwards and ready for its next tick.
pub proof fn lemma_tick_keeps_running(
    task: TaskModel,
    accepted: bool,
    entries: Map<Seq<char>, Generator>,
    s: EntropyState,
)
    requires
        task.phase == TaskPhase::Running,
    ensures
        task.ticked(entries, s).phase.state() == TaskState::Running,
        task.tick_action(entries, s) is Skip ==> task.ticked(entries, s) == task,
        task.tick_action(entries, s) is Publish ==> task.ticked(entries, s).published() == task,
        task.ticked(entries, s).published().phase == TaskPhase::Running,
{
}

/// Ticks of one task are strictly sequential: while a publish is under
/// way a further tick does nothing, generates nothing and consumes
/// nothing.
pub proof fn lemma_one_publish_in_flight(
    task: TaskModel,
    entries: Map<Seq<char>, Generator>,
    s: EntropyState,
)
    requires
        task.phase == TaskPhase::Publishing,
    ensures
        task.tick_action(entries, s) == TickActionView::Nothing,
        task.ticked(entries, s) == task,
        task.tick_leaves(entries, s) == s,
{
}

} // verus!
