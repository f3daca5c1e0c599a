use simdriver::config::{Config, ConfigValue, PluginConfig};
use simdriver::simulation::{SimState, Simulation};

fn text(s: &str) -> Option<ConfigValue> {
    Some(ConfigValue::Text(s.to_string()))
}

fn plugin(kind: &str) -> PluginConfig {
    PluginConfig { plugin_type: text(kind), count: None }
}

fn counter_plugin(count: u64) -> PluginConfig {
    PluginConfig {
        plugin_type: text("counter"),
        count: Some(ConfigValue::Number(count)),
    }
}

fn base_config(sources: Vec<PluginConfig>) -> Config {
    Config {
        start_time: text("0"),
        end_time: None,
        step_width: text("10"),
        replayer_list: Some(sources),
        callbacker: None,
        sender_controller: Some(plugin("simple")),
    }
}

#[test]
fn init_accepts_a_complete_configuration() {
    let mut sim = Simulation::new();
    assert_eq!(sim.current_state(), SimState::Uninitialized);
    assert!(sim.init(&base_config(vec![plugin("mock")])));
    assert_eq!(sim.current_state(), SimState::Initialized);
    assert_eq!(sim.replayer_count(), 1);
    assert_eq!(sim.clock().cur_time(), 0);
    assert_eq!(sim.clock().cur_step(), 0);
}

#[test]
fn init_fails_without_replayer_list() {
    let mut cfg = base_config(vec![]);
    cfg.replayer_list = None;
    let mut sim = Simulation::new();
    assert!(!sim.init(&cfg));
    assert_eq!(sim.replayer_count(), 0);
    assert_eq!(sim.current_state(), SimState::Uninitialized);
}

#[test]
fn init_fails_on_unknown_source_discriminator() {
    let cfg = base_config(vec![plugin("mock"), plugin("bogus")]);
    let mut sim = Simulation::new();
    assert!(!sim.init(&cfg));
    assert_eq!(sim.current_state(), SimState::Uninitialized);
}

#[test]
fn init_fails_on_missing_or_malformed_clock_fields() {
    let mut sim = Simulation::new();
    let mut cfg = base_config(vec![plugin("mock")]);
    cfg.start_time = None;
    assert!(!sim.init(&cfg));

    let mut cfg = base_config(vec![plugin("mock")]);
    cfg.start_time = Some(ConfigValue::Number(0));
    assert!(!sim.init(&cfg));

    let mut cfg = base_config(vec![plugin("mock")]);
    cfg.step_width = text("12x");
    assert!(!sim.init(&cfg));

    let mut cfg = base_config(vec![plugin("mock")]);
    cfg.step_width = text("0");
    assert!(!sim.init(&cfg));

    let mut cfg = base_config(vec![plugin("mock")]);
    cfg.end_time = text("99");
    assert!(!sim.init(&cfg));

    let mut cfg = base_config(vec![plugin("mock")]);
    cfg.end_time = Some(ConfigValue::Number(99));
    assert!(sim.init(&cfg));
}

#[test]
fn init_fails_on_missing_or_unknown_executor() {
    let mut sim = Simulation::new();
    let mut cfg = base_config(vec![plugin("mock")]);
    cfg.sender_controller = None;
    assert!(!sim.init(&cfg));

    let mut cfg = base_config(vec![plugin("mock")]);
    cfg.sender_controller = Some(plugin("fancy"));
    assert!(!sim.init(&cfg));
}

#[test]
fn init_fails_on_unknown_callbacker_discriminator() {
    let mut sim = Simulation::new();
    let mut cfg = base_config(vec![plugin("mock")]);
    cfg.callbacker = Some(plugin("bogus"));
    assert!(!sim.init(&cfg));
}

#[test]
fn init_fails_on_bad_counter_count() {
    let mut sim = Simulation::new();
    let bad = PluginConfig { plugin_type: text("counter"), count: text("5") };
    assert!(!sim.init(&base_config(vec![bad])));
}

#[test]
fn two_counters_run_exactly_five_ticks_and_merge_batches() {
    let cfg = base_config(vec![counter_plugin(3), counter_plugin(5)]);
    let mut sim = Simulation::new();
    assert!(sim.init(&cfg));
    sim.run();
    assert_eq!(sim.current_state(), SimState::Completed);
    assert_eq!(sim.clock().cur_step(), 5);
    assert_eq!(sim.clock().cur_time(), 50);
    let log: Vec<(u64, i64)> = sim
        .executed_history()
        .unwrap()
        .iter()
        .map(|s| (s.timestamp, s.payload.value))
        .collect();
    assert_eq!(
        log,
        vec![
            (0, 3),
            (0, 5),
            (10, 2),
            (10, 4),
            (20, 1),
            (20, 3),
            (30, 2),
            (40, 1),
        ]
    );
}

#[test]
fn run_completes_at_once_when_every_source_starts_finished() {
    let cfg = base_config(vec![counter_plugin(0), counter_plugin(0)]);
    let mut sim = Simulation::new();
    assert!(sim.init(&cfg));
    sim.run();
    assert_eq!(sim.current_state(), SimState::Completed);
    assert_eq!(sim.clock().cur_step(), 0);
    assert!(sim.executed_history().unwrap().is_empty());
}

#[test]
fn cancellation_signal_aborts_before_any_further_tick() {
    let cfg = base_config(vec![counter_plugin(5)]);
    let mut sim = Simulation::new();
    assert!(sim.init(&cfg));
    sim.aborted.store(true, std::sync::atomic::Ordering::SeqCst);
    sim.run();
    assert_eq!(sim.current_state(), SimState::Aborted);
    assert_eq!(sim.clock().cur_step(), 0);
    assert!(sim.executed_history().unwrap().is_empty());
}

#[test]
fn feedback_of_one_tick_reaches_sources_on_the_next() {
    let mut cfg = base_config(vec![plugin("mock")]);
    cfg.callbacker = Some(plugin("mock"));
    let mut sim = Simulation::new();
    assert!(sim.init(&cfg));
    sim.run();
    assert_eq!(sim.current_state(), SimState::Completed);
    assert_eq!(sim.clock().cur_step(), 9);
    assert_eq!(sim.clock().cur_time(), 90);
    // The callbacker returns 16, 17, 18, ... ; the source adds each value on the
    // following tick, so its emitted value is the running sum, and it stops
    // emitting once the accumulator passes its bound.
    let values: Vec<i64> = sim
        .executed_history()
        .unwrap()
        .iter()
        .map(|s| s.payload.value)
        .collect();
    assert_eq!(
        values,
        vec![0, 0, 16, 16, 33, 33, 51, 51, 70, 70, 90, 90, 111, 111, 133, 133]
    );
}

#[test]
fn mock_source_without_callbacker_never_finishes_but_abort_stops_it() {
    // Without feedback the stand-in source's accumulator never grows, so
    // completion never arrives; cancellation is the designed way out.
    let cfg = base_config(vec![plugin("mock")]);
    let mut sim = Simulation::new();
    assert!(sim.init(&cfg));
    sim.aborted.store(true, std::sync::atomic::Ordering::SeqCst);
    sim.run();
    assert_eq!(sim.current_state(), SimState::Aborted);
}
