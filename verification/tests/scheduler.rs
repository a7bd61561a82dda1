use agentquelia::config::AgentConfig;
use agentquelia::config::AgentSettings;
use agentquelia::config::JsonSourceConfig;
use agentquelia::config::LoggingSettings;
use agentquelia::config::PoiSettings;
use agentquelia::config::RetrySettings;
use agentquelia::config::SourceConfig;
use agentquelia::config::SourceType;
use agentquelia::config::SupabaseSettings;
use agentquelia::config::UpdateSettings;
use agentquelia::error::AgentError;
use agentquelia::error::SourceError;
use agentquelia::error::TransportError;
use agentquelia::scheduler::Action;
use agentquelia::scheduler::Event;
use agentquelia::scheduler::LogEvent;
use agentquelia::scheduler::Phase;
use agentquelia::scheduler::Progress;
use agentquelia::scheduler::Scheduler;
use agentquelia::scheduler::SchedulerState;
use agentquelia::sources::Reading;

fn config() -> AgentConfig {
    AgentConfig {
        agent: AgentSettings {
            instance_id: "site-1".to_string(),
            polling_interval_secs: 60,
            verbose: false,
        },
        poi: PoiSettings { api_key: "poi-key".to_string() },
        supabase: SupabaseSettings {
            url: "https://example.supabase.co".to_string(),
            anon_key: "anon".to_string(),
            rpc_endpoint: "/rest/v1/rpc/insert_live_data".to_string(),
            timeout_secs: 30,
        },
        source: SourceConfig {
            source_type: SourceType::Json,
            csv: None,
            json: Some(JsonSourceConfig {
                path: "/var/data/meter.json".to_string(),
                json_path: "$.power".to_string(),
                unit: "kW".to_string(),
                multiplier_bits: 1.0f64.to_bits(),
            }),
            http: None,
        },
        logging: LoggingSettings::default(),
        update: UpdateSettings::default(),
        retry: RetrySettings {
            max_attempts: 3,
            initial_delay_ms: 10,
            max_delay_ms: 100,
            multiplier_permille: 2000,
        },
    }
}

fn reading(value: f64) -> Reading {
    Reading {
        value_bits: value.to_bits(),
        unit: "kW".to_string(),
        timestamp_millis: 1_700_000_000_000,
        source_id: "json:/var/data/meter.json".to_string(),
    }
}

fn deliver(wait_ms: u64, value: f64) -> Action {
    Action::Deliver {
        wait_ms,
        api_key: "poi-key".to_string(),
        value_bits: value.to_bits(),
        unit: "kW".to_string(),
    }
}

#[test]
fn scheduler_starts_running() {
    let scheduler = Scheduler::new(config()).unwrap();
    assert_eq!(scheduler.state(), SchedulerState::Running);
    assert_eq!(scheduler.data_source().source_id(), "json:/var/data/meter.json");
    assert_eq!(scheduler.client().timeout_secs(), 30);
    assert_eq!(scheduler.settings().agent.polling_interval_secs, 60);
}

#[test]
fn scheduler_needs_a_source() {
    let mut config = config();
    config.source.json = None;
    assert_eq!(
        Scheduler::new(config).err(),
        Some(AgentError::Source(SourceError::ParseError("Missing JSON configuration".to_string())))
    );
}

#[test]
fn a_cycle_reads_then_delivers() {
    let mut scheduler = Scheduler::new(config()).unwrap();

    let step = scheduler.on_event(Event::Tick);
    assert_eq!(step.action, Action::ReadSource);
    assert_eq!(
        step.log,
        Some(LogEvent::CycleStarted { source_id: "json:/var/data/meter.json".to_string() })
    );

    let step = scheduler.on_event(Event::ReadFinished(Ok(reading(12.5))));
    assert_eq!(step.action, deliver(0, 12.5));
    assert_eq!(
        step.log,
        Some(LogEvent::ReadSucceeded {
            value_bits: 12.5f64.to_bits(),
            unit: "kW".to_string(),
            source_id: "json:/var/data/meter.json".to_string(),
        })
    );

    let step = scheduler.on_event(Event::DeliveryFinished(Ok(())));
    assert_eq!(step.action, Action::AwaitTick);
    assert_eq!(
        step.log,
        Some(LogEvent::Delivered { value_bits: 12.5f64.to_bits(), unit: "kW".to_string() })
    );
    assert_eq!(scheduler.state(), SchedulerState::Running);
}

#[test]
fn a_failed_read_skips_the_cycle() {
    let mut scheduler = Scheduler::new(config()).unwrap();
    scheduler.on_event(Event::Tick);
    let step = scheduler
        .on_event(Event::ReadFinished(Err(SourceError::FileNotFound("/var/data/meter.json".to_string()))));
    assert_eq!(step.action, Action::AwaitTick);
    assert_eq!(
        step.log,
        Some(LogEvent::ReadFailed {
            error: SourceError::FileNotFound("/var/data/meter.json".to_string()),
            source_id: "json:/var/data/meter.json".to_string(),
        })
    );
    assert_eq!(scheduler.state(), SchedulerState::Running);
    assert_eq!(scheduler.on_event(Event::Tick).action, Action::ReadSource);
}

#[test]
fn failed_deliveries_are_retried_with_backoff() {
    let mut scheduler = Scheduler::new(config()).unwrap();
    scheduler.on_event(Event::Tick);
    scheduler.on_event(Event::ReadFinished(Ok(reading(7.0))));

    let step = scheduler.on_event(Event::DeliveryFinished(Err(TransportError::Timeout)));
    assert_eq!(step.action, deliver(10, 7.0));
    assert_eq!(
        step.log,
        Some(LogEvent::RetryScheduled {
            attempt: 1,
            max_attempts: 3,
            wait_ms: 10,
            error: TransportError::Timeout,
        })
    );

    let step = scheduler.on_event(Event::DeliveryFinished(Err(TransportError::Timeout)));
    assert_eq!(step.action, deliver(20, 7.0));

    let failure = TransportError::ServerError { status: 502, message: "bad gateway".to_string() };
    let step = scheduler.on_event(Event::DeliveryFinished(Err(failure.clone())));
    assert_eq!(step.action, Action::AwaitTick);
    assert_eq!(
        step.log,
        Some(LogEvent::DeliveryFailed { error: failure, value_bits: 7.0f64.to_bits() })
    );
    assert_eq!(scheduler.state(), SchedulerState::Running);
}

#[test]
fn a_terminal_failure_ends_the_cycle_at_once() {
    let mut scheduler = Scheduler::new(config()).unwrap();
    scheduler.on_event(Event::Tick);
    scheduler.on_event(Event::ReadFinished(Ok(reading(7.0))));
    let failure = TransportError::AuthFailed("denied".to_string());
    let step = scheduler.on_event(Event::DeliveryFinished(Err(failure.clone())));
    assert_eq!(step.action, Action::AwaitTick);
    assert_eq!(
        step.log,
        Some(LogEvent::DeliveryFailed { error: failure, value_bits: 7.0f64.to_bits() })
    );
}

#[test]
fn each_cycle_retries_from_the_initial_delay() {
    let mut scheduler = Scheduler::new(config()).unwrap();
    for _ in 0..3 {
        scheduler.on_event(Event::Tick);
        scheduler.on_event(Event::ReadFinished(Ok(reading(1.0))));
        let step = scheduler.on_event(Event::DeliveryFinished(Err(TransportError::Timeout)));
        assert_eq!(step.action, deliver(10, 1.0));
        let step = scheduler.on_event(Event::DeliveryFinished(Ok(())));
        assert_eq!(step.action, Action::AwaitTick);
    }
}

#[test]
fn shutdown_between_ticks_stops_without_a_new_cycle() {
    let mut scheduler = Scheduler::new(config()).unwrap();
    let step = scheduler.on_event(Event::Shutdown);
    assert_eq!(step.action, Action::Exit);
    assert_eq!(step.log, Some(LogEvent::ShutdownReceived));
    assert_eq!(scheduler.state(), SchedulerState::Stopped);

    for event in [
        Event::Tick,
        Event::Shutdown,
        Event::ReadFinished(Ok(reading(1.0))),
        Event::DeliveryFinished(Ok(())),
        Event::Tick,
    ] {
        let step = scheduler.on_event(event);
        assert_eq!(step.action, Action::Exit);
        assert_eq!(step.log, None);
        assert_eq!(scheduler.state(), SchedulerState::Stopped);
    }
}

#[test]
fn shutdown_after_a_cycle_stops_before_the_next() {
    let mut scheduler = Scheduler::new(config()).unwrap();
    scheduler.on_event(Event::Tick);
    scheduler.on_event(Event::ReadFinished(Ok(reading(1.0))));
    scheduler.on_event(Event::DeliveryFinished(Ok(())));
    assert_eq!(scheduler.on_event(Event::Shutdown).action, Action::Exit);
    assert_eq!(scheduler.on_event(Event::Tick).action, Action::Exit);
}

#[test]
fn shutdown_during_a_read_waits_for_the_cycle() {
    let mut scheduler = Scheduler::new(config()).unwrap();
    scheduler.on_event(Event::Tick);

    let step = scheduler.on_event(Event::Shutdown);
    assert_eq!(step.action, Action::Continue);
    assert_eq!(step.log, Some(LogEvent::ShutdownReceived));
    assert_eq!(scheduler.state(), SchedulerState::Running);

    let step = scheduler.on_event(Event::ReadFinished(Ok(reading(3.0))));
    assert_eq!(step.action, deliver(0, 3.0));
    assert_eq!(scheduler.state(), SchedulerState::Running);

    let step = scheduler.on_event(Event::DeliveryFinished(Err(TransportError::Timeout)));
    assert_eq!(step.action, deliver(10, 3.0));
    assert_eq!(scheduler.state(), SchedulerState::Running);

    let step = scheduler.on_event(Event::DeliveryFinished(Ok(())));
    assert_eq!(step.action, Action::Exit);
    assert_eq!(scheduler.state(), SchedulerState::Stopped);
}

#[test]
fn shutdown_during_a_delivery_waits_for_the_cycle() {
    let mut scheduler = Scheduler::new(config()).unwrap();
    scheduler.on_event(Event::Tick);
    scheduler.on_event(Event::ReadFinished(Ok(reading(3.0))));
    assert_eq!(scheduler.on_event(Event::Shutdown).action, Action::Continue);
    assert_eq!(scheduler.state(), SchedulerState::Running);
    let step = scheduler.on_event(Event::DeliveryFinished(Err(TransportError::AuthFailed(
        "denied".to_string(),
    ))));
    assert_eq!(step.action, Action::Exit);
    assert_eq!(scheduler.state(), SchedulerState::Stopped);
}

#[test]
fn shutdown_during_a_failing_read_stops_after_it() {
    let mut scheduler = Scheduler::new(config()).unwrap();
    scheduler.on_event(Event::Tick);
    scheduler.on_event(Event::Shutdown);
    let step =
        scheduler.on_event(Event::ReadFinished(Err(SourceError::ReadError("denied".to_string()))));
    assert_eq!(step.action, Action::Exit);
    assert_eq!(scheduler.state(), SchedulerState::Stopped);
}

#[test]
fn a_tick_during_a_cycle_starts_nothing() {
    let mut scheduler = Scheduler::new(config()).unwrap();
    scheduler.on_event(Event::Tick);
    let step = scheduler.on_event(Event::Tick);
    assert_eq!(step.action, Action::Continue);
    assert_eq!(step.log, None);
    scheduler.on_event(Event::ReadFinished(Ok(reading(3.0))));
    assert_eq!(scheduler.on_event(Event::Tick).action, Action::Continue);
    assert_eq!(scheduler.on_event(Event::DeliveryFinished(Ok(()))).action, Action::AwaitTick);
    assert_eq!(scheduler.on_event(Event::Tick).action, Action::ReadSource);
}

#[test]
fn events_out_of_place_change_nothing() {
    let mut scheduler = Scheduler::new(config()).unwrap();
    assert_eq!(scheduler.on_event(Event::DeliveryFinished(Ok(()))).action, Action::AwaitTick);
    assert_eq!(
        scheduler.on_event(Event::ReadFinished(Ok(reading(1.0)))).action,
        Action::AwaitTick
    );
    scheduler.on_event(Event::Tick);
    assert_eq!(scheduler.on_event(Event::DeliveryFinished(Ok(()))).action, Action::Continue);
    scheduler.on_event(Event::ReadFinished(Ok(reading(1.0))));
    assert_eq!(
        scheduler.on_event(Event::ReadFinished(Ok(reading(2.0)))).action,
        Action::Continue
    );
    assert_eq!(scheduler.on_event(Event::DeliveryFinished(Ok(()))).action, Action::AwaitTick);
}

#[test]
fn progress_can_be_driven_on_its_own() {
    let settings = RetrySettings {
        max_attempts: 2,
        initial_delay_ms: 5,
        max_delay_ms: 50,
        multiplier_permille: 3000,
    };
    let key = "k".to_string();
    let source_id = "csv:/tmp/x.csv".to_string();
    let progress = Progress::new();
    assert_eq!(progress.state, SchedulerState::Running);
    assert_eq!(progress.phase, Phase::Idle);
    let (progress, step) = progress.on_event(&settings, &key, &source_id, Event::Tick);
    assert_eq!(progress.phase, Phase::Reading);
    assert_eq!(step.log, Some(LogEvent::CycleStarted { source_id: source_id.clone() }));
    let (progress, _) =
        progress.on_event(&settings, &key, &source_id, Event::ReadFinished(Ok(reading(1.0))));
    let (progress, step) = progress.on_event(
        &settings,
        &key,
        &source_id,
        Event::DeliveryFinished(Err(TransportError::Timeout)),
    );
    assert_eq!(
        step.action,
        Action::Deliver {
            wait_ms: 5,
            api_key: "k".to_string(),
            value_bits: 1.0f64.to_bits(),
            unit: "kW".to_string(),
        }
    );
    let (progress, step) = progress.on_event(
        &settings,
        &key,
        &source_id,
        Event::DeliveryFinished(Err(TransportError::Timeout)),
    );
    assert_eq!(step.action, Action::AwaitTick);
    assert_eq!(progress, Progress::new());
}
