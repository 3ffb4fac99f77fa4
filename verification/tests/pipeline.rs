//! The pipeline over the recognizer chain: type filtering, first-match
//! dispatch, the opt-out sentinel, and the drain cycle.
use woodchuck::extension::logs_api;
use woodchuck::handler::custom::Custom;
use woodchuck::models::Log;
use woodchuck::models::RawCloudWatchLog;
use woodchuck::models::RawValue;
use woodchuck::parser;
use woodchuck::queue::new_log_queue;

fn function_record(s: &str) -> RawCloudWatchLog {
    RawCloudWatchLog {
        kind: "function".to_string(),
        record: RawValue::Text(s.to_string()),
        ..Default::default()
    }
}

#[test]
fn non_function_records_are_dropped() {
    let input = RawCloudWatchLog {
        kind: "platform".to_string(),
        record: RawValue::Text(
            "2020-11-18T23:52:30.128Z\t6e48723a-1596-4313-a9af-e4da9214d637\tINFO\thi".to_string(),
        ),
        ..Default::default()
    };
    assert_eq!(parser::parse(vec![input]).len(), 0);
}

#[test]
fn non_string_records_are_dropped() {
    let input = RawCloudWatchLog {
        kind: "function".to_string(),
        record: RawValue::Other,
        ..Default::default()
    };
    assert_eq!(parser::parse(vec![input]).len(), 0);
}

#[test]
fn ignore_sentinel_drops_the_log() {
    let input = function_record("{ \"statusCode\":200, \"__WOODCHUCK_IGNORE__\":true }");
    assert_eq!(parser::parse(vec![input]).len(), 0);
}

#[test]
fn sentinel_false_is_kept() {
    let input = function_record("{ \"statusCode\":200, \"__WOODCHUCK_IGNORE__\":false }");
    assert_eq!(parser::parse(vec![input]).len(), 1);
}

#[test]
fn unparseable_record_produces_nothing() {
    let input = function_record("Bad log");
    assert_eq!(parser::parse(vec![input]).len(), 0);
}

#[test]
fn first_matching_recognizer_wins() {
    // A JSON string that holds a whole Node line: both the Node
    // recognizer (anywhere in the text) and the legacy .NET one (the
    // record is a JSON document) accept it; the Node result must win.
    let input = function_record(
        "\"2020-11-18T23:52:30.128Z\t6e48723a-1596-4313-a9af-e4da9214d637\tINFO\thi\"",
    );
    let out = parser::parse(vec![input]);
    assert_eq!(out.len(), 1);
    match &out[0] {
        Log::Unformatted(log) => {
            assert_eq!(log.guid.as_ref().unwrap(), "6e48723a-1596-4313-a9af-e4da9214d637");
        }
        _ => panic!("Expected the Node recognizer's log"),
    }
}

#[test]
fn pipeline_keeps_batch_order() {
    let a = function_record(
        "2020-11-18T23:52:30.128Z\t6e48723a-1596-4313-a9af-e4da9214d637\tINFO\tfirst",
    );
    let b = function_record("{ \"n\": 2 }");
    let out = parser::parse(vec![a, b]);
    assert_eq!(out.len(), 2);
    assert!(matches!(out[0], Log::Unformatted(_)));
    assert!(matches!(out[1], Log::Formatted(_)));
}

#[test]
fn logs_api_consume_log() {
    let mut queue = new_log_queue();
    let dest = Custom::new();
    let logs = parser::parse(vec![function_record(
        "2020-11-18T23:52:30.128Z\t6e48723a-1596-4313-a9af-e4da9214d637\tINFO\tHello World\n",
    )]);
    assert_eq!(logs.len(), 1);
    queue.append(logs);
    assert_eq!(queue.len(), 1);

    let shipped = logs_api::consume(&mut queue, &dest);

    assert!(shipped);
    assert_eq!(queue.len(), 0);
}

#[test]
fn consume_of_empty_queue_does_nothing() {
    let mut queue = new_log_queue();
    let dest = Custom::new();
    assert!(!logs_api::consume(&mut queue, &dest));
    assert_eq!(queue.len(), 0);
}
