use simdriver::config::InitError;
use simdriver::sender::{create_sender_controller, Sender, SenderController, SenderPayload};

fn action(timestamp: u64, value: i64) -> Sender {
    Sender { timestamp, payload: SenderPayload { value, note_time: 0 } }
}

#[test]
fn controller_factory_accepts_simple_only() {
    assert!(create_sender_controller("simple").is_ok());
    assert!(matches!(
        create_sender_controller("fancy"),
        Err(InitError::UnknownPluginType)
    ));
    assert!(matches!(create_sender_controller(""), Err(InitError::UnknownPluginType)));
}

#[test]
fn exec_sorts_ascending_by_timestamp() {
    let mut ctl = create_sender_controller("simple").unwrap();
    let mut batch = vec![action(5, 1), action(1, 2), action(3, 3), action(2, 4)];
    ctl.exec(&mut batch);
    let times: Vec<u64> = batch.iter().map(|s| s.timestamp).collect();
    assert_eq!(times, vec![1, 2, 3, 5]);
    let values: Vec<i64> = batch.iter().map(|s| s.payload.value).collect();
    assert_eq!(values, vec![2, 4, 3, 1]);
}

#[test]
fn exec_is_stable_on_equal_timestamps() {
    let mut ctl = create_sender_controller("simple").unwrap();
    let mut batch = vec![
        action(1, 10),
        action(0, 20),
        action(1, 11),
        action(0, 21),
        action(1, 12),
    ];
    ctl.exec(&mut batch);
    let keyed: Vec<(u64, i64)> = batch.iter().map(|s| (s.timestamp, s.payload.value)).collect();
    assert_eq!(keyed, vec![(0, 20), (0, 21), (1, 10), (1, 11), (1, 12)]);
}

#[test]
fn exec_empty_batch_is_a_no_op() {
    let mut ctl = create_sender_controller("simple").unwrap();
    let mut batch: Vec<Sender> = Vec::new();
    ctl.exec(&mut batch);
    assert!(batch.is_empty());
    assert!(ctl.executed_log().is_empty());
}

#[test]
fn exec_appends_to_the_execution_log() {
    let mut ctl = create_sender_controller("simple").unwrap();
    let mut batch = vec![action(2, 1), action(1, 2)];
    ctl.exec(&mut batch);
    let mut batch2 = vec![action(0, 3)];
    ctl.exec(&mut batch2);
    let logged: Vec<(u64, i64)> = ctl
        .executed_log()
        .iter()
        .map(|s| (s.timestamp, s.payload.value))
        .collect();
    assert_eq!(logged, vec![(1, 2), (2, 1), (0, 3)]);
}
