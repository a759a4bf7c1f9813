use epgstation_encode::config::{default_config, Config};
use epgstation_encode::epgstation_api::model::{
    EncodeItem, FetchEncodeResponse, Record, VideoFile,
};
use epgstation_encode::pipeline::{Action, Event, Run, Stage};

fn record(id: u64, rule_id: Option<u64>, types: &[&str]) -> Record {
    let mut video_files = Vec::new();
    for (n, type_) in types.iter().enumerate() {
        video_files.push(VideoFile {
            id: id * 10 + n as u64,
            name: "TS".to_string(),
            filename: format!("{}-{}.m2ts", id, n),
            type_: type_.to_string(),
            size: 4096,
        });
    }
    Record {
        id,
        channel_id: 1,
        start_at: 0,
        end_at: 1,
        name: format!("program {}", id),
        is_recording: false,
        is_encoding: false,
        is_protected: false,
        rule_id,
        program_id: 2,
        description: Some("text".to_string()),
        extended: None,
        genre1: None,
        sub_genre1: None,
        video_type: "mpeg2".to_string(),
        video_resolution: "1080i".to_string(),
        video_stream_content: 1,
        video_component_type: 179,
        audio_sampling_rate: 48000,
        audio_component_type: 3,
        thumbnails: Vec::new(),
        video_files,
    }
}

fn item(recorded_id: u64) -> EncodeItem {
    EncodeItem {
        id: recorded_id + 1000,
        mode: "H.264".to_string(),
        recorded: record(recorded_id, None, &["ts"]),
        percent: Some(50),
        log: None,
    }
}

fn queue(running: &[u64], waiting: &[u64]) -> FetchEncodeResponse {
    FetchEncodeResponse {
        running_items: running.iter().map(|id| item(*id)).collect(),
        wait_items: waiting.iter().map(|id| item(*id)).collect(),
    }
}

fn settings() -> Config {
    default_config()
}

fn submitted(action: &Action) -> (u64, u64, String) {
    match action {
        Action::RequestEncode(request) => {
            assert_eq!(request.parent_dir, "recorded");
            assert!(!request.remove_original);
            (request.recorded_id, request.source_video_file_id, request.mode.clone())
        }
        other => panic!("expected an encode request, got {:?}", other),
    }
}

fn started(records: Vec<Record>, running: &[u64], waiting: &[u64]) -> (Run, Action) {
    let mut run = Run::new(settings());
    assert!(matches!(run.step(Event::Begin), Action::FetchEncodeQueue { is_half_width: true }));
    assert!(matches!(run.step(Event::Queue(queue(running, waiting))), Action::FetchRecorded(_)));
    let action = run.step(Event::Records(records));
    (run, action)
}

#[test]
fn new_run_has_not_begun() {
    let run = Run::new(settings());
    assert!(matches!(run.stage, Stage::Start));
    assert!(!run.is_over());
    assert!(!run.has_failed());
    assert_eq!(run.config.default_encode_mode, "H.264");
}

#[test]
fn run_fetches_the_queue_first_and_the_recordings_second() {
    let mut run = Run::new(settings());
    let first = run.step(Event::Begin);
    assert!(matches!(first, Action::FetchEncodeQueue { is_half_width: true }));
    assert!(matches!(run.stage, Stage::AwaitingQueue));
    let second = run.step(Event::Queue(queue(&[4], &[6, 5])));
    match second {
        Action::FetchRecorded(property) => {
            assert!(property.is_half_width);
            assert_eq!(property.offset, 0);
            assert_eq!(property.limit, 100000000);
            assert_eq!(property.is_reverse, Some(true));
            assert_eq!(property.rule_id, None);
            assert_eq!(property.channel_id, None);
            assert_eq!(property.genre, None);
            assert_eq!(property.keyword, None);
            assert_eq!(property.has_original_file, None);
        }
        other => panic!("expected a request for recordings, got {:?}", other),
    }
    match &run.stage {
        Stage::AwaitingRecords { queue } => assert_eq!(queue, &vec![4, 6, 5]),
        other => panic!("expected to wait for recordings, got {:?}", other),
    }
    assert!(!run.is_over());
}

#[test]
fn run_submits_one_request_for_each_candidate_in_order() {
    let records = vec![
        record(9, None, &["ts"]),
        record(8, Some(1), &["ts", "encoded"]),
        record(7, Some(3), &["ts"]),
        record(6, Some(4), &["ts"]),
        record(5, Some(2), &["ts"]),
        record(4, Some(2), &["encoded"]),
    ];
    let (mut run, first) = started(records, &[6], &[]);
    assert_eq!(submitted(&first), (9, 90, "AV1".to_string()));
    assert!(!run.is_over());
    let second = run.step(Event::Submitted);
    assert_eq!(submitted(&second), (7, 70, "H.265".to_string()));
    let third = run.step(Event::Submitted);
    assert_eq!(submitted(&third), (5, 50, "H.265".to_string()));
    let last = run.step(Event::Submitted);
    assert!(matches!(last, Action::Stop));
    assert!(matches!(run.stage, Stage::Finished));
    assert!(run.is_over());
    assert!(!run.has_failed());
}

#[test]
fn run_without_candidates_stops_at_once() {
    let (run, action) = started(vec![record(1, None, &["encoded"])], &[], &[]);
    assert!(matches!(action, Action::Stop));
    assert!(matches!(run.stage, Stage::Finished));
    let (run, action) = started(Vec::new(), &[1], &[2]);
    assert!(matches!(action, Action::Stop));
    assert!(run.is_over());
    assert!(!run.has_failed());
}

#[test]
fn run_skips_what_runs_or_waits_in_the_queue() {
    let records = vec![record(3, None, &["ts"]), record(2, None, &["ts"]), record(1, None, &["ts"])];
    let (mut run, first) = started(records, &[3], &[1]);
    assert_eq!(submitted(&first), (2, 20, "AV1".to_string()));
    assert!(matches!(run.step(Event::Submitted), Action::Stop));
    assert!(matches!(run.stage, Stage::Finished));
}

#[test]
fn first_failed_submission_ends_the_run() {
    let records = vec![record(3, None, &["ts"]), record(2, None, &["ts"]), record(1, None, &["ts"])];
    let (mut run, first) = started(records, &[], &[]);
    assert_eq!(submitted(&first).0, 3);
    let second = run.step(Event::Submitted);
    assert_eq!(submitted(&second).0, 2);
    let after_failure = run.step(Event::Failed);
    assert!(matches!(after_failure, Action::Stop));
    assert!(matches!(run.stage, Stage::Aborted));
    assert!(run.is_over());
    assert!(run.has_failed());
    assert!(matches!(run.step(Event::Submitted), Action::Stop));
    assert!(matches!(run.stage, Stage::Aborted));
}

#[test]
fn failed_fetch_ends_the_run() {
    let mut run = Run::new(settings());
    run.step(Event::Begin);
    assert!(matches!(run.step(Event::Failed), Action::Stop));
    assert!(run.has_failed());

    let mut run = Run::new(settings());
    run.step(Event::Begin);
    run.step(Event::Queue(queue(&[], &[])));
    assert!(matches!(run.step(Event::Failed), Action::Stop));
    assert!(run.has_failed());

    let mut run = Run::new(settings());
    assert!(matches!(run.step(Event::Failed), Action::Stop));
    assert!(run.has_failed());
}

#[test]
fn answer_that_was_not_asked_for_ends_the_run() {
    let mut run = Run::new(settings());
    assert!(matches!(run.step(Event::Submitted), Action::Stop));
    assert!(run.has_failed());

    let mut run = Run::new(settings());
    run.step(Event::Begin);
    assert!(matches!(run.step(Event::Records(Vec::new())), Action::Stop));
    assert!(run.has_failed());

    let mut run = Run::new(settings());
    run.step(Event::Begin);
    run.step(Event::Queue(queue(&[], &[])));
    assert!(matches!(run.step(Event::Begin), Action::Stop));
    assert!(run.has_failed());

    let (mut run, _) = started(vec![record(1, None, &["ts"])], &[], &[]);
    assert!(matches!(run.step(Event::Queue(queue(&[], &[]))), Action::Stop));
    assert!(run.has_failed());
}

#[test]
fn finished_run_stays_finished() {
    let (mut run, first) = started(vec![record(1, None, &["ts"])], &[], &[]);
    assert_eq!(submitted(&first), (1, 10, "AV1".to_string()));
    assert!(matches!(run.step(Event::Submitted), Action::Stop));
    assert!(matches!(run.step(Event::Submitted), Action::Stop));
    assert!(matches!(run.step(Event::Begin), Action::Stop));
    assert!(matches!(run.step(Event::Failed), Action::Stop));
    assert!(matches!(run.stage, Stage::Finished));
    assert!(!run.has_failed());
}

#[test]
fn run_keeps_its_settings() {
    let (mut run, _) = started(vec![record(1, None, &["ts"])], &[], &[]);
    run.step(Event::Submitted);
    assert_eq!(run.config.epgstation_url, "http://localhost:8888");
    assert_eq!(run.config.default_encode_mode, "H.264");
    assert_eq!(run.config.encode_rule.len(), 2);
}
