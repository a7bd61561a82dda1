//! The polling loop, as a state machine.
//!
//! The caller owns the timer, the shutdown signal, the files and the network.
//! It reports what happened as an [`Event`] and is told what to do next as an
//! [`Action`], together with the [`LogEvent`] to record. A cycle is one tick's
//! read of the source followed by its delivery, retries included. Cycles
//! never overlap, a tick that arrives during a cycle starts nothing, and a
//! shutdown request that arrives during a cycle takes effect when that cycle
//! is over.

use vstd::prelude::*;

use crate::config::AgentConfig;
use crate::config::RetrySettings;
use crate::error::AgentError;
use crate::error::SourceError;
use crate::error::TransportError;
use crate::sources::create_source;
use crate::sources::source_of;
use crate::sources::Reading;
use crate::sources::Source;
use crate::transport::RetryDecision;
use crate::transport::RetryState;
use crate::transport::SupabaseClient;

verus! {

/// Whether the loop is still alive.
#[derive(Debug, Clone, Copy, PartialEq, Eq)]
pub enum SchedulerState {
    Running,
    /// Terminal: no tick is processed any more.
    Stopped,
}

/// Where a running scheduler stands.
#[derive(Debug, Clone, PartialEq, Eq)]
pub enum Phase {
    /// Between two cycles, waiting for the tick or the shutdown signal.
    Idle,
    /// In a cycle, waiting for the source.
    Reading,
    /// In a cycle, waiting for a delivery attempt to end.
    Delivering { reading: Reading, retry: RetryState },
}

/// The whole state of the loop.
#[derive(Debug, Clone, PartialEq, Eq)]
pub struct Progress {
    pub state: SchedulerState,
    pub phase: Phase,
    /// A shutdown request arrived during the cycle in progress.
    pub shutdown_requested: bool,
}

/// What the caller reports.
#[derive(Debug, PartialEq, Eq)]
pub enum Event {
    /// The timer fired.
    Tick,
    /// The shutdown signal arrived.
    Shutdown,
    /// The read of the source ended.
    ReadFinished(Result<Reading, SourceError>),
    /// A delivery attempt ended.
    DeliveryFinished(Result<(), TransportError>),
}

/// What the caller is to do next.
#[derive(Debug, Clone, PartialEq, Eq)]
pub enum Action {
    /// Wait for the next tick or for the shutdown signal, whichever comes first.
    AwaitTick,
    /// Read the source and report how the read ended.
    ReadSource,
    /// Wait `wait_ms` milliseconds, make one delivery attempt and report how
    /// it ended.
    Deliver { wait_ms: u64, api_key: String, value_bits: u64, unit: String },
    /// Go on with what is in progress.
    Continue,
    /// Leave the loop.
    Exit,
}

/// What there is to record about a step.
#[derive(Debug, Clone, PartialEq, Eq)]
pub enum LogEvent {
    CycleStarted { source_id: String },
    ReadSucceeded { value_bits: u64, unit: String, source_id: String },
    ReadFailed { error: SourceError, source_id: String },
    RetryScheduled { attempt: u32, max_attempts: u32, wait_ms: u64, error: TransportError },
    Delivered { value_bits: u64, unit: String },
    DeliveryFailed { error: TransportError, value_bits: u64 },
    ShutdownReceived,
}

/// The answer to an event.
#[derive(Debug, Clone, PartialEq, Eq)]
pub struct Step {
    pub action: Action,
    pub log: Option<LogEvent>,
}

impl Progress {
    /// The state in which the loop starts: running, between cycles.
    pub open spec fn initial() -> Progress {
        Progress { state: SchedulerState::Running, phase: Phase::Idle, shutdown_requested: false }
    }

    /// Whether a cycle is in progress.
    pub open spec fn in_cycle(self) -> bool {
        self.state == SchedulerState::Running && self.phase != Phase::Idle
    }

    /// Whether `event` ends the cycle in progress: the read failed, or the
    /// delivery is over.
    pub open spec fn completes_cycle(self, settings: RetrySettings, event: Event) -> bool {
        self.state == SchedulerState::Running && match (self.phase, event) {
            (Phase::Reading, Event::ReadFinished(Err(_))) => true,
            (Phase::Delivering { retry, .. }, Event::DeliveryFinished(result)) => retry.decide(
                settings,
                result,
            ) is Finished,
            _ => false,
        }
    }

    /// The state between cycles: stopped if a shutdown was requested
    /// meanwhile, else waiting for the next tick.
    pub open spec fn after_cycle(self) -> Progress {
        if self.shutdown_requested {
            Progress {
                state: SchedulerState::Stopped,
                phase: Phase::Idle,
                shutdown_requested: true,
            }
        } else {
            Progress {
                state: SchedulerState::Running,
                phase: Phase::Idle,
                shutdown_requested: false,
            }
        }
    }

    /// The state after `event`.
    pub open spec fn next(self, settings: RetrySettings, event: Event) -> Progress {
        match self.state {
            SchedulerState::Stopped => self,
            SchedulerState::Running => match self.phase {
                Phase::Idle => match event {
                    Event::Shutdown => Progress {
                        state: SchedulerState::Stopped,
                        phase: Phase::Idle,
                        shutdown_requested: true,
                    },
                    Event::Tick => if self.shutdown_requested {
                        self.after_cycle()
                    } else {
                        Progress { phase: Phase::Reading, ..self }
                    },
                    _ => self,
                },
                Phase::Reading => match event {
                    Event::ReadFinished(Ok(reading)) => Progress {
                        phase: Phase::Delivering { reading, retry: RetryState::initial(settings) },
                        ..self
                    },
                    Event::ReadFinished(Err(_)) => self.after_cycle(),
                    Event::Shutdown => Progress { shutdown_requested: true, ..self },
                    _ => self,
                },
                Phase::Delivering { reading, retry } => match event {
                    Event::DeliveryFinished(result) => match retry.decide(settings, result) {
                        RetryDecision::Finished(_) => self.after_cycle(),
                        RetryDecision::RetryAfter { .. } => Progress {
                            phase: Phase::Delivering {
                                reading,
                                retry: retry.advance(settings, result),
                            },
                            ..self
                        },
                    },
                    Event::Shutdown => Progress { shutdown_requested: true, ..self },
                    _ => self,
                },
            },
        }
    }

    /// What the caller is to do between cycles.
    pub open spec fn idle_action(self) -> Action {
        if self.shutdown_requested {
            Action::Exit
        } else {
            Action::AwaitTick
        }
    }

    /// What the caller is to do after `event`.
    pub open spec fn action(self, settings: RetrySettings, api_key: String, event: Event) -> Action {
        match self.state {
            SchedulerState::Stopped => Action::Exit,
            SchedulerState::Running => match self.phase {
                Phase::Idle => match event {
                    Event::Shutdown => Action::Exit,
                    Event::Tick => if self.shutdown_requested {
                        Action::Exit
                    } else {
                        Action::ReadSource
                    },
                    _ => Action::AwaitTick,
                },
                Phase::Reading => match event {
                    Event::ReadFinished(Ok(reading)) => Action::Deliver {
                        wait_ms: 0,
                        api_key,
                        value_bits: reading.value_bits,
                        unit: reading.unit,
                    },
                    Event::ReadFinished(Err(_)) => self.idle_action(),
                    _ => Action::Continue,
                },
                Phase::Delivering { reading, retry } => match event {
                    Event::DeliveryFinished(result) => match retry.decide(settings, result) {
                        RetryDecision::Finished(_) => self.idle_action(),
                        RetryDecision::RetryAfter { delay_ms, .. } => Action::Deliver {
                            wait_ms: delay_ms,
                            api_key,
                            value_bits: reading.value_bits,
                            unit: reading.unit,
                        },
                    },
                    _ => Action::Continue,
                },
            },
        }
    }

    /// What there is to record about `event`.
    pub open spec fn log(self, settings: RetrySettings, source_id: String, event: Event) -> Option<
        LogEvent,
    > {
        match self.state {
            SchedulerState::Stopped => None,
            SchedulerState::Running => match self.phase {
                Phase::Idle => match event {
                    Event::Shutdown => Some(LogEvent::ShutdownReceived),
                    Event::Tick => if self.shutdown_requested {
                        None
                    } else {
                        Some(LogEvent::CycleStarted { source_id })
                    },
                    _ => None,
                },
                Phase::Reading => match event {
                    Event::ReadFinished(Ok(reading)) => Some(
                        LogEvent::ReadSucceeded {
                            value_bits: reading.value_bits,
                            unit: reading.unit,
                            source_id: reading.source_id,
                        },
                    ),
                    Event::ReadFinished(Err(error)) => Some(
                        LogEvent::ReadFailed { error, source_id },
                    ),
                    Event::Shutdown => Some(LogEvent::ShutdownReceived),
                    _ => None,
                },
                Phase::Delivering { reading, retry } => match event {
                    Event::DeliveryFinished(result) => match retry.decide(settings, result) {
                        RetryDecision::Finished(Ok(_)) => Some(
                            LogEvent::Delivered {
                                value_bits: reading.value_bits,
                                unit: reading.unit,
                            },
                        ),
                        RetryDecision::Finished(Err(error)) => Some(
                            LogEvent::DeliveryFailed { error, value_bits: reading.value_bits },
                        ),
                        RetryDecision::RetryAfter { delay_ms, error } => Some(
                            LogEvent::RetryScheduled {
                                attempt: retry.attempt,
                                max_attempts: settings.max_attempts,
                                wait_ms: delay_ms,
                                error,
                            },
                        ),
                    },
                    Event::Shutdown => Some(LogEvent::ShutdownReceived),
                    _ => None,
                },
            },
        }
    }
}

impl Progress {
    /// Starts the loop: running, between cycles.
    pub fn new() -> (progress: Progress)
        ensures
            progress == Progress::initial(),
    {
        Progress { state: SchedulerState::Running, phase: Phase::Idle, shutdown_requested: false }
    }

    fn leave_cycle(shutdown_requested: bool) -> (r: (Progress, Action))
        ensures
            r.0 == (Progress {
                state: SchedulerState::Running,
                phase: Phase::Reading,
                shutdown_requested,
            }).after_cycle(),
            r.1 == (Progress {
                state: SchedulerState::Running,
                phase: Phase::Reading,
                shutdown_requested,
            }).idle_action(),
    {
        if shutdown_requested {
            (
                Progress {
                    state: SchedulerState::Stopped,
                    phase: Phase::Idle,
                    shutdown_requested: true,
                },
                Action::Exit,
            )
        } else {
            (
                Progress {
                    state: SchedulerState::Running,
                    phase: Phase::Idle,
                    shutdown_requested: false,
                },
                Action::AwaitTick,
            )
        }
    }

    /// Takes an event and answers with the next state, the next action and
    /// what there is to record.
    pub fn on_event(
        self,
        settings: &RetrySettings,
        api_key: &String,
        source_id: &String,
        event: Event,
    ) -> (r: (Progress, Step))
        ensures
            r.0 == self.next(*settings, event),
            r.1.action == self.action(*settings, *api_key, event),
            r.1.log == self.log(*settings, *source_id, event),
    {
        let shutdown_requested = self.shutdown_requested;
        match self.state {
            SchedulerState::Stopped => (self, Step { action: Action::Exit, log: None }),
            SchedulerState::Running => match self.phase {
                Phase::Idle => match event {
                    Event::Shutdown => (
                        Progress {
                            state: SchedulerState::Stopped,
                            phase: Phase::Idle,
                            shutdown_requested: true,
                        },
                        Step { action: Action::Exit, log: Some(LogEvent::ShutdownReceived) },
                    ),
                    Event::Tick => {
                        if shutdown_requested {
                            let (next, action) = Progress::leave_cycle(true);
                            (next, Step { action, log: None })
                        } else {
                            (
                                Progress {
                                    state: SchedulerState::Running,
                                    phase: Phase::Reading,
                                    shutdown_requested,
                                },
                                Step {
                                    action: Action::ReadSource,
                                    log: Some(
                                        LogEvent::CycleStarted { source_id: source_id.clone() },
                                    ),
                                },
                            )
                        }
                    },
                    _ => (
                        Progress {
                            state: SchedulerState::Running,
                            phase: Phase::Idle,
                            shutdown_requested,
                        },
                        Step { action: Action::AwaitTick, log: None },
                    ),
                },
                Phase::Reading => match event {
                    Event::ReadFinished(Ok(reading)) => {
                        let action = Action::Deliver {
                            wait_ms: 0,
                            api_key: api_key.clone(),
                            value_bits: reading.value_bits,
                            unit: reading.unit.clone(),
                        };
                        let log = LogEvent::ReadSucceeded {
                            value_bits: reading.value_bits,
                            unit: reading.unit.clone(),
                            source_id: reading.source_id.clone(),
                        };
                        (
                            Progress {
                                state: SchedulerState::Running,
                                phase: Phase::Delivering {
                                    reading,
                                    retry: RetryState::new(settings),
                                },
                                shutdown_requested,
                            },
                            Step { action, log: Some(log) },
                        )
                    },
                    Event::ReadFinished(Err(error)) => {
                        let (next, action) = Progress::leave_cycle(shutdown_requested);
                        (
                            next,
                            Step {
                                action,
                                log: Some(
                                    LogEvent::ReadFailed { error, source_id: source_id.clone() },
                                ),
                            },
                        )
                    },
                    Event::Shutdown => (
                        Progress {
                            state: SchedulerState::Running,
                            phase: Phase::Reading,
                            shutdown_requested: true,
                        },
                        Step { action: Action::Continue, log: Some(LogEvent::ShutdownReceived) },
                    ),
                    _ => (
                        Progress {
                            state: SchedulerState::Running,
                            phase: Phase::Reading,
                            shutdown_requested,
                        },
                        Step { action: Action::Continue, log: None },
                    ),
                },
                Phase::Delivering { reading, retry } => match event {
                    Event::DeliveryFinished(result) => {
                        let attempt = retry.attempt;
                        let mut retry = retry;
                        match retry.on_result(settings, result) {
                            RetryDecision::Finished(Ok(_)) => {
                                let (next, action) = Progress::leave_cycle(shutdown_requested);
                                (
                                    next,
                                    Step {
                                        action,
                                        log: Some(
                                            LogEvent::Delivered {
                                                value_bits: reading.value_bits,
                                                unit: reading.unit,
                                            },
                                        ),
                                    },
                                )
                            },
                            RetryDecision::Finished(Err(error)) => {
                                let (next, action) = Progress::leave_cycle(shutdown_requested);
                                (
                                    next,
                                    Step {
                                        action,
                                        log: Some(
                                            LogEvent::DeliveryFailed {
                                                error,
                                                value_bits: reading.value_bits,
                                            },
                                        ),
                                    },
                                )
                            },
                            RetryDecision::RetryAfter { delay_ms, error } => {
                                let action = Action::Deliver {
                                    wait_ms: delay_ms,
                                    api_key: api_key.clone(),
                                    value_bits: reading.value_bits,
                                    unit: reading.unit.clone(),
                                };
                                (
                                    Progress {
                                        state: SchedulerState::Running,
                                        phase: Phase::Delivering { reading, retry },
                                        shutdown_requested,
                                    },
                                    Step {
                                        action,
                                        log: Some(
                                            LogEvent::RetryScheduled {
                                                attempt,
                                                max_attempts: settings.max_attempts,
                                                wait_ms: delay_ms,
                                                error,
                                            },
                                        ),
                                    },
                                )
                            },
                        }
                    },
                    Event::Shutdown => (
                        Progress {
                            state: SchedulerState::Running,
                            phase: Phase::Delivering { reading, retry },
                            shutdown_requested: true,
                        },
                        Step { action: Action::Continue, log: Some(LogEvent::ShutdownReceived) },
                    ),
                    _ => (
                        Progress {
                            state: SchedulerState::Running,
                            phase: Phase::Delivering { reading, retry },
                            shutdown_requested,
                        },
                        Step { action: Action::Continue, log: None },
                    ),
                },
            },
        }
    }
}

/// The loop together with what it works on: the source, the endpoint and
/// the configuration it was started with.
#[derive(Debug, Clone)]
pub struct Scheduler {
    source: Source,
    transport: SupabaseClient,
    config: AgentConfig,
    progress: Progress,
}

impl Scheduler {
    pub closed spec fn source(&self) -> Source {
        self.source
    }

    pub closed spec fn transport(&self) -> SupabaseClient {
        self.transport
    }

    pub closed spec fn config(&self) -> AgentConfig {
        self.config
    }

    pub closed spec fn progress(&self) -> Progress {
        self.progress
    }

    /// Builds the source and the endpoint from the configuration and starts
    /// the loop: running, between cycles. Fails exactly when the
    /// configuration describes no source.
    pub fn new(config: AgentConfig) -> (r: Result<Scheduler, AgentError>)
        ensures
            match r {
                Ok(scheduler) => {
                    &&& source_of(config.source) == Ok::<_, crate::error::SourceFailure>(
                        scheduler.source()@,
                    )
                    &&& scheduler.config() == config
                    &&& scheduler.progress() == Progress::initial()
                    &&& scheduler.transport().base_url() == config.supabase.url@
                    &&& scheduler.transport().anon_key() == config.supabase.anon_key@
                    &&& scheduler.transport().rpc_endpoint() == config.supabase.rpc_endpoint@
                    &&& scheduler.transport().timeout() == config.supabase.timeout_secs
                },
                Err(e) => e matches AgentError::Source(failure) && source_of(config.source) == Err::<
                    crate::sources::SourceView,
                    _,
                >(failure@),
            },
    {
        let source = match create_source(&config.source) {
            Ok(source) => source,
            Err(e) => {
                return Err(AgentError::Source(e));
            },
        };
        let transport = match SupabaseClient::new(&config.supabase) {
            Ok(transport) => transport,
            Err(e) => {
                return Err(AgentError::Transport(e));
            },
        };
        Ok(Scheduler { source, transport, config, progress: Progress::new() })
    }

    /// Takes an event, moves the loop on and answers with the next action
    /// and what there is to record. Nothing but the state of the loop
    /// changes.
    pub fn on_event(&mut self, event: Event) -> (step: Step)
        ensures
            final(self).progress() == old(self).progress().next(old(self).config().retry, event),
            step.action == old(self).progress().action(
                old(self).config().retry,
                old(self).config().poi.api_key,
                event,
            ),
            exists|source_id: String|
                source_id@ == old(self).source()@.source_id() && step.log == #[trigger] old(
                    self,
                ).progress().log(old(self).config().retry, source_id, event),
            final(self).source() == old(self).source(),
            final(self).transport() == old(self).transport(),
            final(self).config() == old(self).config(),
    {
        let mut progress = Progress::new();
        core::mem::swap(&mut self.progress, &mut progress);
        let source_id = String::from_str(self.source.source_id());
        let (next, step) = progress.on_event(
            &self.config.retry,
            &self.config.poi.api_key,
            &source_id,
            event,
        );
        self.progress = next;
        assert(source_id@ == old(self).source()@.source_id() && step.log == old(
            self,
        ).progress().log(old(self).config().retry, source_id, event));
        step
    }

    /// Whether the loop is still alive.
    pub fn state(&self) -> (state: SchedulerState)
        ensures
            state == self.progress().state,
    {
        self.progress.state
    }

    /// The source that is polled.
    pub fn data_source(&self) -> (source: &Source)
        ensures
            *source == self.source(),
    {
        &self.source
    }

    /// The endpoint that readings are delivered to.
    pub fn client(&self) -> (client: &SupabaseClient)
        ensures
            *client == self.transport(),
    {
        &self.transport
    }

    /// The configuration that the loop was started with.
    pub fn settings(&self) -> (config: &AgentConfig)
        ensures
            *config == self.config(),
    {
        &self.config
    }
}

/// The actions that a run of events draws from the loop, one for each event.
pub open spec fn actions(
    progress: Progress,
    settings: RetrySettings,
    api_key: String,
    events: Seq<Event>,
) -> Seq<Action>
    decreases events.len(),
{
    if events.len() == 0 {
        Seq::empty()
    } else {
        seq![progress.action(settings, api_key, events[0])] + actions(
            progress.next(settings, events[0]),
            settings,
            api_key,
            events.drop_first(),
        )
    }
}

/// A shutdown signal between two cycles stops the loop at once: the caller
/// is told to leave, and no cycle is started.
pub proof fn lemma_shutdown_between_cycles(
    progress: Progress,
    settings: RetrySettings,
    api_key: String,
)
    requires
        progress.state == SchedulerState::Running,
        progress.phase == Phase::Idle,
    ensures
        progress.next(settings, Event::Shutdown).state == SchedulerState::Stopped,
        progress.action(settings, api_key, Event::Shutdown) == Action::Exit,
{
}

/// A shutdown signal during a cycle changes nothing about the cycle: the
/// loop keeps running in the same phase and the caller is told to go on. The
/// request is only remembered.
pub proof fn lemma_shutdown_during_cycle(
    progress: Progress,
    settings: RetrySettings,
    api_key: String,
)
    requires
        progress.in_cycle(),
    ensures
        progress.next(settings, Event::Shutdown).state == SchedulerState::Running,
        progress.next(settings, Event::Shutdown).phase == progress.phase,
        progress.next(settings, Event::Shutdown).shutdown_requested,
        progress.action(settings, api_key, Event::Shutdown) == Action::Continue,
{
}

/// A cycle in progress ends only by its own completion, and a remembered
/// shutdown request takes effect exactly then: the event that completes the
/// cycle stops the loop, and any other event leaves the cycle in progress.
pub proof fn lemma_shutdown_takes_effect_after_cycle(
    progress: Progress,
    settings: RetrySettings,
    api_key: String,
    event: Event,
)
    requires
        progress.in_cycle(),
        progress.shutdown_requested,
    ensures
        progress.completes_cycle(settings, event) ==> progress.next(settings, event).state
            == SchedulerState::Stopped && progress.action(settings, api_key, event)
            == Action::Exit,
        !progress.completes_cycle(settings, event) ==> progress.next(settings, event).in_cycle()
            && progress.next(settings, event).shutdown_requested,
{
}

/// Once a shutdown has been requested, or the loop has stopped, no event
/// whatever starts a cycle.
pub proof fn lemma_no_cycle_after_shutdown(
    progress: Progress,
    settings: RetrySettings,
    api_key: String,
    events: Seq<Event>,
    i: int,
)
    requires
        progress.shutdown_requested || progress.state == SchedulerState::Stopped,
        0 <= i < events.len(),
    ensures
        actions(progress, settings, api_key, events).len() == events.len(),
        actions(progress, settings, api_key, events)[i] != Action::ReadSource,
    decreases events.len(),
{
    let next = progress.next(settings, events[0]);
    lemma_actions_len(next, settings, api_key, events.drop_first());
    if i > 0 {
        lemma_no_cycle_after_shutdown(next, settings, api_key, events.drop_first(), i - 1);
    }
}

proof fn lemma_actions_len(
    progress: Progress,
    settings: RetrySettings,
    api_key: String,
    events: Seq<Event>,
)
    ensures
        actions(progress, settings, api_key, events).len() == events.len(),
    decreases events.len(),
{
    if events.len() > 0 {
        lemma_actions_len(
            progress.next(settings, events[0]),
            settings,
            api_key,
            events.drop_first(),
        );
    }
}

/// No failure stops the loop: as long as no shutdown signal has arrived, the
/// loop keeps running whatever is reported, a failed read and a failed
/// delivery included.
pub proof fn lemma_only_shutdown_stops(progress: Progress, settings: RetrySettings, event: Event)
    requires
        progress.state == SchedulerState::Running,
        !progress.shutdown_requested,
        event != Event::Shutdown,
    ensures
        progress.next(settings, event).state == SchedulerState::Running,
        !progress.next(settings, event).shutdown_requested,
{
}

/// Cycles never overlap: a cycle starts only on a tick that arrives between
/// two cycles, and a tick during a cycle starts nothing.
pub proof fn lemma_cycles_do_not_overlap(
    progress: Progress,
    settings: RetrySettings,
    api_key: String,
    event: Event,
)
    ensures
        progress.action(settings, api_key, event) == Action::ReadSource ==> progress.state
            == SchedulerState::Running && progress.phase == Phase::Idle && event == Event::Tick,
        progress.in_cycle() ==> progress.next(settings, Event::Tick) == progress
            && progress.action(settings, api_key, Event::Tick) == Action::Continue,
{
}

} // verus!
