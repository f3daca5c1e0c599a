use simdriver::config::{ConfigValue, InitError, PluginConfig};
use simdriver::replayer::{create_replayer, Replayer};
use simdriver::step::Step;

fn plugin(kind: &str) -> PluginConfig {
    PluginConfig {
        plugin_type: Some(ConfigValue::Text(kind.to_string())),
        count: None,
    }
}

fn counter_plugin(count: u64) -> PluginConfig {
    PluginConfig {
        plugin_type: Some(ConfigValue::Text("counter".to_string())),
        count: Some(ConfigValue::Number(count)),
    }
}

#[test]
fn factory_accepts_known_discriminators() {
    assert!(create_replayer(&plugin("mock")).is_ok());
    assert!(create_replayer(&counter_plugin(3)).is_ok());
}

#[test]
fn factory_rejects_unknown_discriminator() {
    assert!(matches!(
        create_replayer(&plugin("bogus")),
        Err(InitError::UnknownPluginType)
    ));
}

#[test]
fn factory_rejects_missing_or_malformed_discriminator() {
    let missing = PluginConfig { plugin_type: None, count: None };
    assert!(matches!(create_replayer(&missing), Err(InitError::Configuration)));
    let wrong_shape = PluginConfig {
        plugin_type: Some(ConfigValue::Number(3)),
        count: None,
    };
    assert!(matches!(create_replayer(&wrong_shape), Err(InitError::Configuration)));
}

#[test]
fn counter_init_needs_a_numeric_count() {
    let mut rep = create_replayer(&counter_plugin(2)).unwrap();
    assert!(rep.init(&counter_plugin(2)));
    let bad = PluginConfig {
        plugin_type: Some(ConfigValue::Text("counter".to_string())),
        count: Some(ConfigValue::Text("2".to_string())),
    };
    let mut rep2 = create_replayer(&bad).unwrap();
    assert!(!rep2.init(&bad));
    let absent = plugin("counter");
    let mut rep3 = create_replayer(&absent).unwrap();
    assert!(!rep3.init(&absent));
}

#[test]
fn counter_emits_once_per_tick_then_finishes() {
    let cfg = counter_plugin(2);
    let mut rep = create_replayer(&cfg).unwrap();
    assert!(rep.init(&cfg));
    let mut clock = Step::new(0, 10);
    assert!(!rep.finished());

    let out = rep.step(&clock, &None);
    assert_eq!(out.len(), 1);
    assert_eq!(out[0].timestamp, 0);
    assert_eq!(out[0].payload.value, 2);
    assert!(!rep.finished());
    clock.next();

    let out = rep.step(&clock, &None);
    assert_eq!(out.len(), 1);
    assert_eq!(out[0].timestamp, 10);
    assert_eq!(out[0].payload.value, 1);
    assert!(rep.finished());
}

#[test]
fn finished_is_monotonic_across_further_ticks() {
    let cfg = counter_plugin(1);
    let mut rep = create_replayer(&cfg).unwrap();
    assert!(rep.init(&cfg));
    let clock = Step::new(0, 1);
    rep.step(&clock, &None);
    assert!(rep.finished());
    for _ in 0..3 {
        let out = rep.step(&clock, &None);
        assert!(out.is_empty());
        assert!(rep.finished());
    }
}

#[test]
fn mock_accumulates_feedback_and_emits_pairs() {
    let cfg = plugin("mock");
    let mut rep = create_replayer(&cfg).unwrap();
    assert!(rep.init(&cfg));
    let clock = Step::new(200, 10);

    let out = rep.step(&clock, &None);
    assert_eq!(out.len(), 2);
    assert_eq!(out[0].timestamp, 0);
    assert_eq!(out[1].timestamp, 0);
    assert_eq!(out[0].payload.value, 0);
    assert_eq!(out[0].payload.note_time, 100);
    assert_eq!(out[1].payload.note_time, 190);

    let out = rep.step(&clock, &Some(16));
    assert_eq!(out[0].payload.value, 16);
    let out = rep.step(&clock, &Some(17));
    assert_eq!(out[0].payload.value, 33);
}
