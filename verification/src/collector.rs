//! The engine of one target: it decides when to connect, when to refresh the
//! snapshots and what to publish.
//!
//! The engine does no storage work and never waits. Each of its methods
//! takes what happened and returns what is to be done next; the program
//! around it opens the repository, fetches the snapshots and sleeps, and
//! hands every outcome back.

use crate::cell::StateCell;
use crate::config::{Backup, BackupView, ConfigurationError, Connection, ConnectionView};
use crate::exposition::{Exposition, Reading, ReadingView, expose, exposition_of};
use crate::model::{
    RepositoryInfo, RepositoryInfoView, Snapshot, SnapshotView, TargetState, TargetStateView,
    clone_snapshots, snapshot_views,
};
use vstd::prelude::*;

verus! {

/// Where a target stands.
#[derive(Clone, Copy, Debug, PartialEq, Eq, Structural)]
pub enum Phase {
    /// Not started yet.
    Created,
    /// Started; the repository is not open yet.
    Opening,
    /// The repository is open and its snapshots are refreshed.
    Ready,
    /// The description of the target cannot be used; the target stays
    /// unready for good.
    Misconfigured,
}

/// How an attempt to open the repository ended.
#[derive(Debug)]
pub enum OpenOutcome {
    /// The repository is open.
    Opened(RepositoryInfo),
    /// The storage backend could not be set up.
    BackendUnavailable(String),
    /// The repository could not be opened or unlocked.
    OpenFailed(String),
}

/// What contracts say of an [`OpenOutcome`].
pub enum OpenOutcomeView {
    Opened(RepositoryInfoView),
    BackendUnavailable(Seq<char>),
    OpenFailed(Seq<char>),
}

impl View for OpenOutcome {
    type V = OpenOutcomeView;

    open spec fn view(&self) -> OpenOutcomeView {
        match self {
            OpenOutcome::Opened(info) => OpenOutcomeView::Opened(info@),
            OpenOutcome::BackendUnavailable(reason) => OpenOutcomeView::BackendUnavailable(reason@),
            OpenOutcome::OpenFailed(reason) => OpenOutcomeView::OpenFailed(reason@),
        }
    }
}

/// How an attempt to refresh the snapshots ended.
#[derive(Debug)]
pub enum ReconcileOutcome {
    /// The snapshots of the repository, those known before included.
    Reconciled(Vec<Snapshot>),
    /// The snapshots could not be fetched.
    Failed(String),
}

/// What contracts say of a [`ReconcileOutcome`].
pub enum ReconcileOutcomeView {
    Reconciled(Seq<SnapshotView>),
    Failed(Seq<char>),
}

impl View for ReconcileOutcome {
    type V = ReconcileOutcomeView;

    open spec fn view(&self) -> ReconcileOutcomeView {
        match self {
            ReconcileOutcome::Reconciled(snapshots) => ReconcileOutcomeView::Reconciled(
                snapshot_views(snapshots@),
            ),
            ReconcileOutcome::Failed(reason) => ReconcileOutcomeView::Failed(reason@),
        }
    }
}

/// What can happen to a target.
#[derive(Debug)]
pub enum Event {
    /// The target's task has begun.
    Started,
    /// An attempt to open the repository has ended.
    Connected(OpenOutcome),
    /// The time to sleep has passed.
    Woken,
    /// An attempt to refresh the snapshots has ended.
    Refreshed(ReconcileOutcome),
}

/// What contracts say of an [`Event`].
pub enum EventView {
    Started,
    Connected(OpenOutcomeView),
    Woken,
    Refreshed(ReconcileOutcomeView),
}

impl View for Event {
    type V = EventView;

    open spec fn view(&self) -> EventView {
        match self {
            Event::Started => EventView::Started,
            Event::Connected(outcome) => EventView::Connected(outcome@),
            Event::Woken => EventView::Woken,
            Event::Refreshed(outcome) => EventView::Refreshed(outcome@),
        }
    }
}

/// What the program around the engine is to do next.
#[derive(Debug)]
pub enum Action {
    /// Set up the backend and open the repository, then report
    /// [`Event::Connected`].
    Connect(Connection),
    /// Wait for this many seconds, then report [`Event::Woken`].
    Sleep(u64),
    /// Fetch the snapshots of the repository, given those known so far, then
    /// report [`Event::Refreshed`].
    Reconcile(Vec<Snapshot>),
}

/// What contracts say of an [`Action`].
pub enum ActionView {
    Connect(ConnectionView),
    Sleep(u64),
    Reconcile(Seq<SnapshotView>),
}

impl View for Action {
    type V = ActionView;

    open spec fn view(&self) -> ActionView {
        match self {
            Action::Connect(connection) => ActionView::Connect(connection@),
            Action::Sleep(seconds) => ActionView::Sleep(*seconds),
            Action::Reconcile(known) => ActionView::Reconcile(snapshot_views(known@)),
        }
    }
}

/// What is worth a line in the log.
#[derive(Debug)]
pub enum LogEvent {
    ConfigurationError(ConfigurationError),
    BackendResolutionFailed(String),
    OpenFailed(String),
    OpenSucceeded,
    ReconcileFailed(String),
    ReconcileSucceeded,
}

/// What contracts say of a [`LogEvent`].
pub enum LogEventView {
    ConfigurationError(ConfigurationError),
    BackendResolutionFailed(Seq<char>),
    OpenFailed(Seq<char>),
    OpenSucceeded,
    ReconcileFailed(Seq<char>),
    ReconcileSucceeded,
}

impl View for LogEvent {
    type V = LogEventView;

    open spec fn view(&self) -> LogEventView {
        match self {
            LogEvent::ConfigurationError(e) => LogEventView::ConfigurationError(*e),
            LogEvent::BackendResolutionFailed(reason) => LogEventView::BackendResolutionFailed(
                reason@,
            ),
            LogEvent::OpenFailed(reason) => LogEventView::OpenFailed(reason@),
            LogEvent::OpenSucceeded => LogEventView::OpenSucceeded,
            LogEvent::ReconcileFailed(reason) => LogEventView::ReconcileFailed(reason@),
            LogEvent::ReconcileSucceeded => LogEventView::ReconcileSucceeded,
        }
    }
}

/// The view of an optional log event.
pub open spec fn log_view(log: Option<LogEvent>) -> Option<LogEventView> {
    match log {
        Some(l) => Some(l@),
        None => None,
    }
}

/// The answer of the engine to an event.
#[derive(Debug)]
pub struct Step {
    pub action: Action,
    pub log: Option<LogEvent>,
}

/// What contracts say of a [`Step`].
pub struct StepView {
    pub action: ActionView,
    pub log: Option<LogEventView>,
}

impl View for Step {
    type V = StepView;

    open spec fn view(&self) -> StepView {
        StepView { action: self.action@, log: log_view(self.log) }
    }
}

/// The engine of one target.
#[derive(Debug)]
pub struct RusticCollector {
    backup: Backup,
    interval: u64,
    stage: Stage,
    state: StateCell,
}

#[derive(Clone, Copy, Debug, PartialEq, Eq, Structural)]
enum Stage {
    Created,
    Running,
    Misconfigured,
}

/// What contracts say of a [`RusticCollector`].
pub struct CollectorView {
    pub backup: BackupView,
    pub interval: u64,
    pub phase: Phase,
    pub state: TargetStateView,
}

impl CollectorView {
    /// What holds of every engine: it is ready exactly in the phase of that
    /// name, and it has left the phase `Created` for `Opening` only with a
    /// usable description.
    pub open spec fn wf(self) -> bool {
        &&& self.state.wf()
        &&& self.phase == Phase::Ready <==> self.state.ready
        &&& self.phase == Phase::Opening || self.phase == Phase::Ready
            ==> self.backup.credential() is Ok
    }

    /// The engine of `backup` before it is started.
    pub open spec fn created(backup: BackupView, interval: u64) -> CollectorView {
        CollectorView {
            backup,
            interval,
            phase: Phase::Created,
            state: TargetStateView::unready(),
        }
    }

    /// What a scrape reads of the target.
    pub open spec fn reading(self) -> ReadingView {
        ReadingView { target: self.backup.name, state: self.state }
    }

    /// The answer to an event on which nothing is to be done: the engine
    /// stays as it is and sleeps.
    pub open spec fn idle(self) -> (CollectorView, StepView) {
        (self, StepView { action: ActionView::Sleep(self.interval), log: None })
    }

    /// The answer to an event that calls for a connection attempt. A
    /// description that cannot be used is reported, and the engine gives up
    /// on the target.
    pub open spec fn connect(self) -> (CollectorView, StepView) {
        match self.backup.connection() {
            Ok(connection) => (
                CollectorView { phase: Phase::Opening, ..self },
                StepView { action: ActionView::Connect(connection), log: None },
            ),
            Err(e) => (
                CollectorView { phase: Phase::Misconfigured, ..self },
                StepView {
                    action: ActionView::Sleep(self.interval),
                    log: Some(LogEventView::ConfigurationError(e)),
                },
            ),
        }
    }

    /// The answer to the start of the target's task.
    pub open spec fn start(self) -> (CollectorView, StepView) {
        if self.phase == Phase::Created {
            self.connect()
        } else {
            self.idle()
        }
    }

    /// The answer to the end of an attempt to open the repository.
    pub open spec fn set_repository(self, outcome: OpenOutcomeView) -> (CollectorView, StepView) {
        if self.phase == Phase::Opening {
            match outcome {
                OpenOutcomeView::Opened(info) => (
                    CollectorView {
                        phase: Phase::Ready,
                        state: TargetStateView::ready_with(info, Seq::empty()),
                        ..self
                    },
                    StepView {
                        action: ActionView::Sleep(self.interval),
                        log: Some(LogEventView::OpenSucceeded),
                    },
                ),
                OpenOutcomeView::BackendUnavailable(reason) => (
                    self,
                    StepView {
                        action: ActionView::Sleep(self.interval),
                        log: Some(LogEventView::BackendResolutionFailed(reason)),
                    },
                ),
                OpenOutcomeView::OpenFailed(reason) => (
                    self,
                    StepView {
                        action: ActionView::Sleep(self.interval),
                        log: Some(LogEventView::OpenFailed(reason)),
                    },
                ),
            }
        } else {
            self.idle()
        }
    }

    /// The answer to the end of a sleep.
    pub open spec fn wake(self) -> (CollectorView, StepView) {
        if self.phase == Phase::Opening {
            self.connect()
        } else if self.phase == Phase::Ready {
            (self, StepView { action: ActionView::Reconcile(self.state.snapshots), log: None })
        } else {
            self.idle()
        }
    }

    /// The answer to the end of an attempt to refresh the snapshots.
    pub open spec fn update_data(self, outcome: ReconcileOutcomeView) -> (CollectorView, StepView) {
        if self.phase == Phase::Ready && self.state.repository is Some {
            match outcome {
                ReconcileOutcomeView::Reconciled(snapshots) => (
                    CollectorView {
                        state: TargetStateView::ready_with(self.state.repository->0, snapshots),
                        ..self
                    },
                    StepView {
                        action: ActionView::Sleep(self.interval),
                        log: Some(LogEventView::ReconcileSucceeded),
                    },
                ),
                ReconcileOutcomeView::Failed(reason) => (
                    self,
                    StepView {
                        action: ActionView::Sleep(self.interval),
                        log: Some(LogEventView::ReconcileFailed(reason)),
                    },
                ),
            }
        } else {
            self.idle()
        }
    }

    /// The answer to any event.
    pub open spec fn step(self, event: EventView) -> (CollectorView, StepView) {
        match event {
            EventView::Started => self.start(),
            EventView::Connected(outcome) => self.set_repository(outcome),
            EventView::Woken => self.wake(),
            EventView::Refreshed(outcome) => self.update_data(outcome),
        }
    }

    /// The engine after the events of `events`, one after the other.
    pub open spec fn run(self, events: Seq<EventView>) -> CollectorView
        decreases events.len(),
    {
        if events.len() == 0 {
            self
        } else {
            self.run(events.drop_last()).step(events.last()).0
        }
    }

    /// How often the configuration is reported as unusable while the engine
    /// is handed the events of `events`.
    pub open spec fn configuration_reports(self, events: Seq<EventView>) -> nat
        decreases events.len(),
    {
        if events.len() == 0 {
            0
        } else {
            let before = self.configuration_reports(events.drop_last());
            let step = self.run(events.drop_last()).step(events.last()).1;
            if step.log is Some && step.log->0 is ConfigurationError {
                before + 1
            } else {
                before
            }
        }
    }
}

/// The snapshots of the last refresh in `events` that succeeded, or
/// `otherwise` where none did.
pub open spec fn latest_refreshed(
    events: Seq<EventView>,
    otherwise: Seq<SnapshotView>,
) -> Seq<SnapshotView>
    decreases events.len(),
{
    if events.len() == 0 {
        otherwise
    } else {
        match events.last() {
            EventView::Refreshed(ReconcileOutcomeView::Reconciled(snapshots)) => snapshots,
            _ => latest_refreshed(events.drop_last(), otherwise),
        }
    }
}

impl View for RusticCollector {
    type V = CollectorView;

    closed spec fn view(&self) -> CollectorView {
        CollectorView {
            backup: self.backup@,
            interval: self.interval,
            phase: match self.stage {
                Stage::Created => Phase::Created,
                Stage::Misconfigured => Phase::Misconfigured,
                Stage::Running => if self.state@.ready {
                    Phase::Ready
                } else {
                    Phase::Opening
                },
            },
            state: self.state@,
        }
    }
}

impl RusticCollector {
    /// Every engine that exists while the program runs is well formed.
    #[verifier::type_invariant]
    pub open spec fn inv(self) -> bool {
        self@.wf()
    }

    /// The engine of `backup`, not started, with nothing published yet.
    /// Once it is ready it asks for a refresh every `interval` seconds.
    pub fn new(backup: Backup, interval: u64) -> (r: Self)
        ensures
            r@ == CollectorView::created(backup@, interval),
    {
        RusticCollector { backup, interval, stage: Stage::Created, state: StateCell::new() }
    }

    /// The description of the target.
    pub fn backup(&self) -> (r: &Backup)
        ensures
            r@ == self@.backup,
    {
        &self.backup
    }

    /// The seconds between two refreshes.
    pub fn interval(&self) -> (r: u64)
        ensures
            r == self@.interval,
    {
        self.interval
    }

    /// Where the target stands.
    pub fn phase(&self) -> (r: Phase)
        ensures
            r == self@.phase,
    {
        match self.stage {
            Stage::Created => Phase::Created,
            Stage::Misconfigured => Phase::Misconfigured,
            Stage::Running => if self.state.current().is_ready() {
                Phase::Ready
            } else {
                Phase::Opening
            },
        }
    }

    /// The state that was published last.
    pub fn snapshot(&self) -> (r: TargetState)
        ensures
            r@ == self@.state,
    {
        self.state.snapshot()
    }

    /// What a scrape reads of the target: its name and the state that was
    /// published last.
    pub fn reading(&self) -> (r: Reading)
        ensures
            r@ == self@.reading(),
    {
        Reading { target: self.backup.name.clone(), state: self.state.snapshot() }
    }

    /// Answers a scrape for this target alone. Nothing is exposed before the
    /// target is ready.
    pub fn encode(&self) -> (r: Exposition)
        ensures
            r@ == exposition_of(seq![self@.reading()]),
    {
        let mut readings: Vec<Reading> = Vec::new();
        readings.push(self.reading());
        proof {
            assert(crate::exposition::reading_views(readings@) =~= seq![self@.reading()]);
        }
        expose(&readings)
    }

    fn sleep(&self) -> (r: Action)
        ensures
            r@ == ActionView::Sleep(self@.interval),
    {
        Action::Sleep(self.interval)
    }

    fn connect(&mut self) -> (r: Step)
        requires
            old(self)@.phase == Phase::Created || old(self)@.phase == Phase::Opening,
        ensures
            (final(self)@, r@) == old(self)@.connect(),
    {
        proof {
            use_type_invariant(&*self);
        }
        match self.backup.connection() {
            Ok(connection) => {
                self.stage = Stage::Running;
                Step { action: Action::Connect(connection), log: None }
            },
            Err(e) => {
                self.stage = Stage::Misconfigured;
                Step { action: self.sleep(), log: Some(LogEvent::ConfigurationError(e)) }
            },
        }
    }

    /// Begins the life of the target: asks for a first connection attempt,
    /// or reports that the description cannot be used. Started a second
    /// time, the engine does nothing.
    pub fn start(&mut self) -> (r: Step)
        ensures
            (final(self)@, r@) == old(self)@.start(),
    {
        if self.phase() == Phase::Created {
            self.connect()
        } else {
            Step { action: self.sleep(), log: None }
        }
    }

    /// Takes the outcome of a connection attempt. An opened repository is
    /// published as ready, with no snapshots yet; after a failure the target
    /// stays unready and the attempt is made again after the next sleep.
    pub fn set_repository(&mut self, outcome: OpenOutcome) -> (r: Step)
        ensures
            (final(self)@, r@) == old(self)@.set_repository(outcome@),
    {
        proof {
            use_type_invariant(&*self);
        }
        if self.phase() != Phase::Opening {
            return Step { action: self.sleep(), log: None };
        }
        let log = match outcome {
            OpenOutcome::Opened(info) => {
                let state = TargetState::ready_with(info, Vec::new());
                proof {
                    assert(snapshot_views(Seq::<Snapshot>::empty()) =~= Seq::empty());
                }
                self.state.publish(state);
                LogEvent::OpenSucceeded
            },
            OpenOutcome::BackendUnavailable(reason) => LogEvent::BackendResolutionFailed(reason),
            OpenOutcome::OpenFailed(reason) => LogEvent::OpenFailed(reason),
        };
        Step { action: self.sleep(), log: Some(log) }
    }

    /// Takes the end of a sleep: asks for the next connection attempt while
    /// the repository is not open, and for a refresh of the snapshots once
    /// it is.
    pub fn wake(&mut self) -> (r: Step)
        ensures
            (final(self)@, r@) == old(self)@.wake(),
    {
        match self.phase() {
            Phase::Opening => self.connect(),
            Phase::Ready => {
                let known = clone_snapshots(self.state.current().snapshots());
                Step { action: Action::Reconcile(known), log: None }
            },
            _ => Step { action: self.sleep(), log: None },
        }
    }

    /// Takes the outcome of a refresh. Fetched snapshots are published; after
    /// a failure the state that was published before stays as it is.
    pub fn update_data(&mut self, outcome: ReconcileOutcome) -> (r: Step)
        ensures
            (final(self)@, r@) == old(self)@.update_data(outcome@),
    {
        proof {
            use_type_invariant(&*self);
        }
        if self.phase() != Phase::Ready {
            return Step { action: self.sleep(), log: None };
        }
        let repository = match self.state.current().repository() {
            Some(info) => info.clone(),
            None => {
                return Step { action: self.sleep(), log: None };
            },
        };
        let log = match outcome {
            ReconcileOutcome::Reconciled(snapshots) => {
                self.state.publish(TargetState::ready_with(repository, snapshots));
                LogEvent::ReconcileSucceeded
            },
            ReconcileOutcome::Failed(reason) => LogEvent::ReconcileFailed(reason),
        };
        Step { action: self.sleep(), log: Some(log) }
    }

    /// Takes any event and answers with what is to be done next.
    pub fn step(&mut self, event: Event) -> (r: Step)
        ensures
            (final(self)@, r@) == old(self)@.step(event@),
    {
        match event {
            Event::Started => self.start(),
            Event::Connected(outcome) => self.set_repository(outcome),
            Event::Woken => self.wake(),
            Event::Refreshed(outcome) => self.update_data(outcome),
        }
    }
}

/// An engine that has just been made is well formed.
pub proof fn lemma_created_is_wf(backup: BackupView, interval: u64)
    ensures
        CollectorView::created(backup, interval).wf(),
{
}

/// No event breaks what holds of every engine, and none changes the
/// description of the target or the interval.
pub proof fn lemma_step_preserves_wf(collector: CollectorView, event: EventView)
    requires
        collector.wf(),
    ensures
        collector.step(event).0.wf(),
        collector.step(event).0.backup == collector.backup,
        collector.step(event).0.interval == collector.interval,
{
}

/// A refresh that fails leaves the engine as it was: the snapshots, the
/// repository description and the phase are those of before, and the failure
/// is put in the log.
pub proof fn lemma_failed_refresh_keeps_state(collector: CollectorView, reason: Seq<char>)
    ensures
        collector.update_data(ReconcileOutcomeView::Failed(reason)).0 == collector,
        collector.wf() && collector.phase == Phase::Ready ==> collector.update_data(
            ReconcileOutcomeView::Failed(reason),
        ).1 == (StepView {
            action: ActionView::Sleep(collector.interval),
            log: Some(LogEventView::ReconcileFailed(reason)),
        }),
{
}

/// A target that is ready stays ready whatever happens, and keeps the
/// repository description it was opened with.
pub proof fn lemma_ready_stays_ready(collector: CollectorView, event: EventView)
    requires
        collector.wf(),
        collector.phase == Phase::Ready,
    ensures
        collector.step(event).0.phase == Phase::Ready,
        collector.step(event).0.state.repository == collector.state.repository,
{
}

/// A failed attempt to open the repository leaves the target in the phase
/// `Opening`, unready, and the next end of a sleep asks for a new attempt.
pub proof fn lemma_failed_open_is_retried(collector: CollectorView, outcome: OpenOutcomeView)
    requires
        collector.wf(),
        collector.phase == Phase::Opening,
        !(outcome is Opened),
    ensures
        collector.set_repository(outcome).0 == collector,
        collector.set_repository(outcome).1.action == ActionView::Sleep(collector.interval),
        collector.wake().1.action == ActionView::Connect(collector.backup.connection()->Ok_0),
{
}

/// A target whose description names no credential, or two, is never ready,
/// whatever events it is handed.
pub proof fn lemma_misconfigured_target_is_never_ready(
    collector: CollectorView,
    events: Seq<EventView>,
)
    requires
        collector.wf(),
        collector.backup.credential() is Err,
    ensures
        collector.run(events).wf(),
        collector.run(events).backup == collector.backup,
        !collector.run(events).state.ready,
    decreases events.len(),
{
    if events.len() > 0 {
        lemma_misconfigured_target_is_never_ready(collector, events.drop_last());
        lemma_step_preserves_wf(collector.run(events.drop_last()), events.last());
    }
}

/// An unusable configuration is reported at most once, whatever events the
/// engine is handed, and only an engine that has given up on its target has
/// reported one.
pub proof fn lemma_configuration_is_reported_once(
    collector: CollectorView,
    events: Seq<EventView>,
)
    requires
        collector.wf(),
    ensures
        collector.configuration_reports(events) <= 1,
        collector.run(events).phase != Phase::Misconfigured
            ==> collector.configuration_reports(events) == 0,
        collector.run(events).wf(),
    decreases events.len(),
{
    if events.len() > 0 {
        lemma_configuration_is_reported_once(collector, events.drop_last());
        lemma_step_preserves_wf(collector.run(events.drop_last()), events.last());
    }
}

/// Once a target is ready, what it has published is always the outcome of
/// the latest refresh that succeeded: a refresh that fails in between takes
/// nothing away, and no other event touches the snapshots.
pub proof fn lemma_published_snapshots_are_the_latest_refreshed(
    collector: CollectorView,
    events: Seq<EventView>,
)
    requires
        collector.wf(),
        collector.phase == Phase::Ready,
    ensures
        collector.run(events).wf(),
        collector.run(events).phase == Phase::Ready,
        collector.run(events).state.repository == collector.state.repository,
        collector.run(events).state.snapshots == latest_refreshed(
            events,
            collector.state.snapshots,
        ),
    decreases events.len(),
{
    if events.len() > 0 {
        lemma_published_snapshots_are_the_latest_refreshed(collector, events.drop_last());
        lemma_step_preserves_wf(collector.run(events.drop_last()), events.last());
        lemma_ready_stays_ready(collector.run(events.drop_last()), events.last());
    }
}

} // verus!
