use oakley::capture::{CaptureEvent, Key, KeyEvent, ModState, Region, RgbaFrame};
use oakley::card::{decode_tags, distinct_tags, encode_tags, CardFields, CardJson};
use oakley::error::PipelineError;
use oakley::ingest::{Action, Ingestion, Stage};
use oakley::review::{apply_outcome, new_schedule, ReviewOutcome, MAX_REVIEW_TIME};
use oakley::scan::{fetch_due_cards, ScanAction, StoredCard};
use oakley::schedule::{CardState, Scheduler};

const NOW: i64 = 1_700_000_000;
const DAY: i64 = 86400;

fn frame(width: u32, height: u32) -> RgbaFrame {
    RgbaFrame { width, height, data: vec![200u8; (width * height * 4) as usize] }
}

fn capture(path: Option<&str>) -> CaptureEvent {
    CaptureEvent {
        image: frame(2, 1),
        region: Region { x: 0, y: 0, width: 2, height: 1 },
        path: path.map(|p| p.to_string()),
    }
}

fn france_fields() -> CardFields {
    CardFields {
        front: "What is the capital of France?".to_string(),
        back: "Paris".to_string(),
        tags: vec!["geography".to_string(), "europe".to_string()],
    }
}

fn card(id: i64, front: &str) -> CardJson {
    CardJson { id, front: front.to_string(), back: "b".to_string(), tags: vec!["t".to_string()] }
}

#[test]
fn capture_to_persisted_card_scenario() {
    let mut m = Ingestion::new(false);
    let png = match m.on_capture(capture(Some("/tmp/shot.png"))) {
        Action::Extract { png } => png,
        other => panic!("unexpected {:?}", other),
    };
    assert_eq!(&png[..8], &[0x89, b'P', b'N', b'G', 0x0d, 0x0a, 0x1a, 0x0a]);
    assert_eq!(m.stage, Stage::Extracting);
    assert!(matches!(
        m.on_extracted(Ok("What is the capital of France?".to_string())),
        Action::CardGenerating
    ));
    let text = match m.on_announced() {
        Action::GenerateFromText { text } => text,
        other => panic!("unexpected {:?}", other),
    };
    assert_eq!(text, "What is the capital of France?");
    let new_card = match m.on_generated(Ok(france_fields()), NOW) {
        Action::Persist { card } => card,
        other => panic!("unexpected {:?}", other),
    };
    assert_eq!(new_card.schedule.state, CardState { efactor: 250, interval: 1 });
    assert_eq!(new_card.schedule.next_due, NOW);
    assert_eq!(new_card.source_path.as_deref(), Some("/tmp/shot.png"));
    assert_eq!(new_card.fields.back, "Paris");
    match m.on_persisted(Ok(1), new_card) {
        Action::Announce { created } => {
            assert_eq!(created.id, 1);
            assert_eq!(created.front, "What is the capital of France?");
            assert_eq!(created.back, "Paris");
            assert_eq!(created.tags, vec!["geography".to_string(), "europe".to_string()]);
        }
        other => panic!("unexpected {:?}", other),
    }
    assert_eq!(m.stage, Stage::Idle);
    assert!(m.source.is_none());
}

#[test]
fn vision_generator_skips_extraction() {
    let mut m = Ingestion::new(true);
    assert!(matches!(m.on_capture(capture(None)), Action::CardGenerating));
    assert_eq!(m.stage, Stage::Announcing);
    match m.on_announced() {
        Action::GenerateFromImage { png } => assert_eq!(&png[1..4], b"PNG"),
        other => panic!("unexpected {:?}", other),
    }
    assert_eq!(m.stage, Stage::Generating);
    assert!(m.request.is_none());
}

#[test]
fn failed_extraction_does_not_affect_next_event() {
    let mut m = Ingestion::new(false);
    assert!(matches!(m.on_capture(capture(Some("/tmp/a.png"))), Action::Extract { .. }));
    match m.on_extracted(Err(PipelineError::ExtractionFailure)) {
        Action::Drop { failure } => assert_eq!(failure, PipelineError::ExtractionFailure),
        other => panic!("unexpected {:?}", other),
    }
    assert_eq!(m.stage, Stage::Idle);
    assert!(m.source.is_none());
    // The next event goes through as on a fresh machine.
    assert!(matches!(m.on_capture(capture(None)), Action::Extract { .. }));
    assert!(matches!(m.on_extracted(Ok("text".to_string())), Action::CardGenerating));
    assert!(matches!(m.on_announced(), Action::GenerateFromText { .. }));
    match m.on_generated(Ok(france_fields()), NOW) {
        Action::Persist { card } => assert!(card.source_path.is_none()),
        other => panic!("unexpected {:?}", other),
    }
}

#[test]
fn each_stage_failure_drops_the_event() {
    let mut m = Ingestion::new(true);
    let bad = CaptureEvent {
        image: RgbaFrame { width: 3, height: 3, data: vec![0u8; 5] },
        region: Region { x: 0, y: 0, width: 3, height: 3 },
        path: None,
    };
    match m.on_capture(bad) {
        Action::Drop { failure } => assert_eq!(failure, PipelineError::CaptureFailure),
        other => panic!("unexpected {:?}", other),
    }
    assert_eq!(m.stage, Stage::Idle);

    assert!(matches!(m.on_capture(capture(None)), Action::CardGenerating));
    assert!(matches!(m.on_announced(), Action::GenerateFromImage { .. }));
    match m.on_generated(Err(PipelineError::GenerationFailure), NOW) {
        Action::Drop { failure } => assert_eq!(failure, PipelineError::GenerationFailure),
        other => panic!("unexpected {:?}", other),
    }
    assert_eq!(m.stage, Stage::Idle);

    assert!(matches!(m.on_capture(capture(None)), Action::CardGenerating));
    assert!(matches!(m.on_announced(), Action::GenerateFromImage { .. }));
    let new_card = match m.on_generated(Ok(france_fields()), NOW) {
        Action::Persist { card } => card,
        other => panic!("unexpected {:?}", other),
    };
    match m.on_persisted(Err(PipelineError::PersistenceFailure), new_card) {
        Action::Drop { failure } => assert_eq!(failure, PipelineError::PersistenceFailure),
        other => panic!("unexpected {:?}", other),
    }
    assert_eq!(m.stage, Stage::Idle);
}

#[test]
fn blank_selection_is_ignored() {
    let mut m = Ingestion::new(false);
    assert!(matches!(m.on_selection("  \n\t ".to_string()), Action::Ignore));
    assert_eq!(m.stage, Stage::Idle);
    assert!(matches!(m.on_selection(" Rust ownership ".to_string()), Action::CardGenerating));
    assert_eq!(m.stage, Stage::Announcing);
    match m.on_announced() {
        Action::GenerateFromText { text } => assert_eq!(text, " Rust ownership "),
        other => panic!("unexpected {:?}", other),
    }
    assert_eq!(m.stage, Stage::Generating);
}

#[test]
fn passed_review_scenario() {
    let outcome = ReviewOutcome { card_id: 1, passed: true, reviewed_at: NOW };
    let u = apply_outcome(Some(CardState::default()), outcome).unwrap();
    assert_eq!(u.card_id, 1);
    assert_eq!(u.schedule.state, CardState { efactor: 260, interval: 6 });
    assert_eq!(u.schedule.next_due, NOW + 6 * DAY);
    assert_eq!(u.review.card_id, 1);
    assert!(u.review.passed);
    assert_eq!(u.review.reviewed_at, NOW);
}

#[test]
fn failed_review_after_pass_scenario() {
    let first = apply_outcome(
        Some(CardState::default()),
        ReviewOutcome { card_id: 1, passed: true, reviewed_at: NOW },
    )
    .unwrap();
    let later = NOW + 6 * DAY;
    let second = apply_outcome(
        Some(first.schedule.state),
        ReviewOutcome { card_id: 1, passed: false, reviewed_at: later },
    )
    .unwrap();
    assert_eq!(second.schedule.state, CardState { efactor: 260, interval: 1 });
    assert_eq!(second.schedule.next_due, later + DAY);
    assert!(!second.review.passed);
}

#[test]
fn review_of_unknown_card_is_inconsistent() {
    let r = apply_outcome(None, ReviewOutcome { card_id: 42, passed: true, reviewed_at: NOW });
    assert_eq!(r.unwrap_err(), PipelineError::SchedulingInconsistency { card_id: 42 });
}

#[test]
fn review_at_latest_time_fits() {
    let mut st = CardState { efactor: 1000, interval: u32::MAX };
    st.interval = u32::MAX;
    let u = apply_outcome(
        Some(st),
        ReviewOutcome { card_id: 3, passed: true, reviewed_at: MAX_REVIEW_TIME },
    )
    .unwrap();
    assert_eq!(u.schedule.next_due, MAX_REVIEW_TIME + (u32::MAX as i64) * DAY);
}

#[test]
fn new_card_schedule_is_due_now() {
    let s = new_schedule(NOW);
    assert_eq!(s.state, CardState { efactor: 250, interval: 1 });
    assert_eq!(s.next_due, NOW);
}

#[test]
fn due_scan_is_idempotent() {
    let rows = vec![
        StoredCard { card: card(1, "a"), next_due: NOW - 10 },
        StoredCard { card: card(2, "b"), next_due: NOW + 10 },
        StoredCard { card: card(3, "c"), next_due: NOW },
    ];
    let first = fetch_due_cards(&rows, NOW);
    let second = fetch_due_cards(&rows, NOW);
    let ids = |v: &Vec<CardJson>| v.iter().map(|c| c.id).collect::<Vec<_>>();
    assert_eq!(ids(&first), vec![1, 3]);
    assert_eq!(ids(&first), ids(&second));
    assert_eq!(first[1].front, "c");
    assert_eq!(ids(&fetch_due_cards(&rows, NOW + 10)), vec![1, 2, 3]);
    assert!(fetch_due_cards(&rows, NOW - 11).is_empty());
}

#[test]
fn scan_tick_decisions() {
    let s = Scheduler::new();
    assert!(matches!(s.on_scan(Ok(vec![])), ScanAction::Quiet));
    match s.on_scan(Ok(vec![card(7, "x")])) {
        ScanAction::NotifyDue { cards } => assert_eq!(cards[0].id, 7),
        _ => panic!("expected a notification"),
    }
    match s.on_scan(Err(PipelineError::PersistenceFailure)) {
        ScanAction::Retry { failure } => assert_eq!(failure, PipelineError::PersistenceFailure),
        _ => panic!("expected a retry"),
    }
}

#[test]
fn tags_round_trip_through_stored_form() {
    let tags = vec!["geography".to_string(), "europe".to_string()];
    let stored = encode_tags(&tags);
    assert_eq!(stored, "geography,europe");
    assert_eq!(decode_tags(&stored), tags);
    assert_eq!(encode_tags(&vec![]), "");
    assert_eq!(encode_tags(&vec!["one".to_string()]), "one");
}

#[test]
fn decode_tags_edge_cases() {
    assert!(decode_tags("").is_empty());
    assert_eq!(decode_tags(" a , b ,c"), vec!["a", "b", "c"]);
    assert_eq!(decode_tags("a,,b"), vec!["a", "", "b"]);
    assert_eq!(decode_tags("x,"), vec!["x", ""]);
    assert_eq!(decode_tags("  "), vec![""]);
}

#[test]
fn card_from_row_decodes_tags() {
    let c = CardJson::from_row(5, "f".to_string(), "b".to_string(), "rust, borrow");
    assert_eq!(c.id, 5);
    assert_eq!(c.tags, vec!["rust", "borrow"]);
    let d = c.duplicate();
    assert_eq!(d.front, "f");
    assert_eq!(d.tags, c.tags);
}

#[test]
fn hotkey_fires_only_with_both_modifiers() {
    let mut st = ModState::new();
    assert!(!st.on_event(KeyEvent::Press(Key::Comma)));
    assert!(!st.on_event(KeyEvent::Press(Key::Meta)));
    assert!(!st.on_event(KeyEvent::Press(Key::Comma)));
    assert!(!st.on_event(KeyEvent::Press(Key::Shift)));
    assert!(st.on_event(KeyEvent::Press(Key::Comma)));
    assert!(!st.on_event(KeyEvent::Press(Key::Other)));
    assert!(!st.on_event(KeyEvent::Release(Key::Shift)));
    assert!(!st.on_event(KeyEvent::Press(Key::Comma)));
    assert_eq!(st, ModState { meta: true, shift: false });
}

#[test]
fn frame_completeness_and_png() {
    assert!(frame(4, 3).is_complete());
    assert!(RgbaFrame { width: 1, height: 1, data: vec![1, 2, 3] }.to_png().is_none());
    let png = frame(4, 3).to_png().unwrap();
    assert_eq!(&png[1..4], b"PNG");
    assert!(png.len() > 8);
}

#[test]
fn distinct_tags_keeps_first_appearance() {
    let tags: Vec<String> = ["a", "b", "a", "c", "b"].iter().map(|s| s.to_string()).collect();
    assert_eq!(distinct_tags(&tags), vec!["a", "b", "c"]);
    assert!(distinct_tags(&vec![]).is_empty());
}

#[test]
fn stored_card_has_tag_set() {
    let mut m = Ingestion::new(false);
    assert!(matches!(m.on_selection("topic".to_string()), Action::CardGenerating));
    assert!(matches!(m.on_announced(), Action::GenerateFromText { .. }));
    let fields = CardFields {
        front: "f".to_string(),
        back: "b".to_string(),
        tags: vec!["x".to_string(), "y".to_string(), "x".to_string()],
    };
    match m.on_generated(Ok(fields), NOW) {
        Action::Persist { card } => assert_eq!(card.fields.tags, vec!["x", "y"]),
        other => panic!("unexpected {:?}", other),
    }
}

#[test]
fn empty_frame_is_dropped() {
    let mut m = Ingestion::new(false);
    let empty = CaptureEvent {
        image: RgbaFrame { width: 0, height: 4, data: vec![] },
        region: Region { x: 0, y: 0, width: 0, height: 4 },
        path: None,
    };
    match m.on_capture(empty) {
        Action::Drop { failure } => assert_eq!(failure, PipelineError::CaptureFailure),
        other => panic!("unexpected {:?}", other),
    }
    assert!(RgbaFrame { width: 3, height: 0, data: vec![] }.to_png().is_none());
}
