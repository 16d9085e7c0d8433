use rusoto_logs_writer::batch::fill_batch;
use rusoto_logs_writer::event::LogEvent;
use rusoto_logs_writer::sink::{frame_write, timestamp};
use rusoto_logs_writer::worker::{Action, AppendResult, CreateResult, Phase, Worker};
use rusoto_logs_writer::MAX_BATCH_EVENTS;

/// A scripted transport: records every append and create call and
/// answers from a fixed script.
struct MockTransport {
    append_script: Vec<AppendResult>,
    create_script: Vec<CreateResult>,
    /// One record per append call: the cursor it was issued with and
    /// the messages of its events.
    appends: Vec<(Option<String>, Vec<Vec<u8>>)>,
    creates: usize,
}

impl MockTransport {
    fn new(append_script: Vec<AppendResult>, create_script: Vec<CreateResult>) -> Self {
        MockTransport { append_script, create_script, appends: Vec::new(), creates: 0 }
    }
}

/// Drive one batch through the worker protocol against the mock.
/// Returns true when the batch was delivered, false when dropped.
fn run_batch(w: &mut Worker, t: &mut MockTransport, batch: &[LogEvent]) -> bool {
    let mut action = w.start_batch();
    loop {
        match action {
            Action::Append(cursor) => {
                t.appends.push((cursor, batch.iter().map(|e| e.message.clone()).collect()));
                let r = t.append_script.remove(0);
                action = w.on_append_result(r);
            }
            Action::CreateStream => {
                t.creates += 1;
                let r = t.create_script.remove(0);
                action = w.on_create_result(r);
            }
            Action::DropBatch => return false,
            Action::BatchDone => return true,
        }
    }
}

#[test]
fn scenario_one_write_one_append() {
    let before = timestamp();
    let f = frame_write(b"hello\n").unwrap();
    let mut queue = vec![f.event];
    let batch = fill_batch(&mut queue).into_events();

    let mut w = Worker::new();
    let mut t = MockTransport::new(
        vec![AppendResult::Success(Some("tok-1".to_string()))],
        vec![],
    );
    assert!(run_batch(&mut w, &mut t, &batch));

    assert_eq!(t.appends.len(), 1);
    assert_eq!(t.appends[0].0, None);
    assert_eq!(t.appends[0].1, vec![b"hello".to_vec()]);
    assert_eq!(w.cursor, Some("tok-1".to_string()));
    let after = timestamp();
    assert!(batch[0].timestamp >= before && batch[0].timestamp <= after);
    assert!(after - before < 1000);
}

#[test]
fn scenario_not_found_creates_then_retries() {
    let f = frame_write(b"first\n").unwrap();
    let batch = vec![f.event];

    let mut w = Worker::new();
    let mut t = MockTransport::new(
        vec![AppendResult::NotFound, AppendResult::Success(Some("tok-1".to_string()))],
        vec![CreateResult::Created],
    );
    assert!(run_batch(&mut w, &mut t, &batch));

    assert_eq!(t.creates, 1);
    assert_eq!(t.appends.len(), 2);
    assert_eq!(t.appends[1].0, None);
    assert_eq!(t.appends[0].1, t.appends[1].1);
    assert_eq!(t.appends[1].1, vec![b"first".to_vec()]);
}

#[test]
fn scenario_already_exists_is_benign() {
    let batch = vec![frame_write(b"x\n").unwrap().event];
    let mut w = Worker::new();
    let mut t = MockTransport::new(
        vec![AppendResult::NotFound, AppendResult::Success(None)],
        vec![CreateResult::AlreadyExists],
    );
    assert!(run_batch(&mut w, &mut t, &batch));
    assert_eq!(t.creates, 1);
    assert_eq!(t.appends.len(), 2);
}

#[test]
fn scenario_create_failure_drops_the_batch() {
    let batch = vec![frame_write(b"x\n").unwrap().event];
    let mut w = Worker::new();
    let mut t = MockTransport::new(
        vec![AppendResult::NotFound],
        vec![CreateResult::Failed],
    );
    assert!(!run_batch(&mut w, &mut t, &batch));
    assert_eq!(t.appends.len(), 1);
    assert_eq!(w.phase, Phase::Idle);
}

#[test]
fn scenario_invalid_sequence_retries_once_with_corrected_cursor() {
    let batch = vec![frame_write(b"y\n").unwrap().event];
    let mut w = Worker::new();
    w.cursor = Some("stale".to_string());
    let mut t = MockTransport::new(
        vec![
            AppendResult::InvalidSequence(Some("fixed".to_string())),
            AppendResult::Success(Some("tok-2".to_string())),
        ],
        vec![],
    );
    assert!(run_batch(&mut w, &mut t, &batch));
    assert_eq!(t.appends.len(), 2);
    assert_eq!(t.appends[0].0, Some("stale".to_string()));
    assert_eq!(t.appends[1].0, Some("fixed".to_string()));
    assert_eq!(w.cursor, Some("tok-2".to_string()));
}

#[test]
fn scenario_second_invalid_sequence_is_not_retried() {
    let batch = vec![frame_write(b"z\n").unwrap().event];
    let mut w = Worker::new();
    let mut t = MockTransport::new(
        vec![
            AppendResult::InvalidSequence(Some("a".to_string())),
            AppendResult::InvalidSequence(Some("b".to_string())),
        ],
        vec![],
    );
    assert!(!run_batch(&mut w, &mut t, &batch));
    assert_eq!(t.appends.len(), 2);
    assert_eq!(w.phase, Phase::Idle);
}

#[test]
fn scenario_other_failure_drops_but_worker_goes_on() {
    let mut w = Worker::new();
    let mut t = MockTransport::new(
        vec![AppendResult::Other, AppendResult::Success(Some("t".to_string()))],
        vec![],
    );
    let dropped = vec![frame_write(b"lost\n").unwrap().event];
    assert!(!run_batch(&mut w, &mut t, &dropped));
    let kept = vec![frame_write(b"kept\n").unwrap().event];
    assert!(run_batch(&mut w, &mut t, &kept));
    assert_eq!(t.appends.len(), 2);
    assert_eq!(t.appends[1].1, vec![b"kept".to_vec()]);
}

#[test]
fn scenario_many_writes_split_into_ordered_appends() {
    let total = 15_000;
    let mut queue: Vec<LogEvent> = Vec::new();
    let mut original: Vec<Vec<u8>> = Vec::new();
    for i in 0..total {
        let line = format!("msg{}\n", i);
        let f = frame_write(line.as_bytes()).unwrap();
        assert_eq!(f.count, line.len());
        original.push(f.event.message.clone());
        queue.push(f.event);
    }

    let mut w = Worker::new();
    let mut t = MockTransport::new(
        (0..10).map(|i| AppendResult::Success(Some(format!("tok{}", i)))).collect(),
        vec![],
    );
    while !queue.is_empty() {
        let b = fill_batch(&mut queue);
        assert!(b.len() <= MAX_BATCH_EVENTS);
        let events = b.into_events();
        assert!(run_batch(&mut w, &mut t, &events));
    }

    assert!(t.appends.len() >= 2);
    let delivered: Vec<Vec<u8>> = t.appends.iter().flat_map(|(_, m)| m.clone()).collect();
    assert_eq!(delivered, original);
    w.finish();
    assert_eq!(w.phase, Phase::Done);
}
