//! Wire shapes: log serialization, destination URLs and bodies, the
//! subscription request, and the smaller settings helpers.
use woodchuck::extension;
use woodchuck::extension::logs_api;
use woodchuck::extension::runtime;
use woodchuck::handler::firehose::Firehose;
use woodchuck::handler::loggly::Loggly;
use woodchuck::handler::logzio::Logzio;
use woodchuck::handler::join_logs;
use woodchuck::handler::timeout_setting;
use woodchuck::handler::BuildError;
use woodchuck::json::parse_json_doc;
use woodchuck::models::Log;
use woodchuck::models::LogData;
use woodchuck::models::LogLevel;
use woodchuck::models::StructuredLog;
use woodchuck::parser::Parser;

#[test]
fn structured_log_serializes_with_fields_in_order() {
    let log = Log::Unformatted(StructuredLog {
        timestamp: Some("2020-11-18T23:52:30.128Z".to_string()),
        guid: Some("6e48723a-1596-4313-a9af-e4da9214d637".to_string()),
        level: Some(LogLevel::Info),
        data: LogData::Raw("Hello World\n".to_string()),
    });
    assert_eq!(
        log.to_string(),
        "{\"timestamp\":\"2020-11-18T23:52:30.128Z\",\"guid\":\"6e48723a-1596-4313-a9af-e4da9214d637\",\"level\":\"INFO\",\"data\":\"Hello World\\n\"}"
    );
}

#[test]
fn absent_fields_are_omitted() {
    let log = Log::Unformatted(StructuredLog {
        timestamp: None,
        guid: None,
        level: Some(LogLevel::Critical),
        data: LogData::Raw("x".to_string()),
    });
    assert_eq!(log.to_string(), "{\"level\":\"CRITICAL\",\"data\":\"x\"}");
}

#[test]
fn data_strings_are_escaped_as_serde_json_writes_them() {
    let log = Log::Unformatted(StructuredLog {
        timestamp: None,
        guid: None,
        level: None,
        data: LogData::Raw("a\"b\\c\n\t\u{1}".to_string()),
    });
    assert_eq!(log.to_string(), "{\"data\":\"a\\\"b\\\\c\\n\\t\\u0001\"}");
    let parsed: serde_json::Value = serde_json::from_str(&log.to_string()).unwrap();
    assert_eq!(parsed["data"], "a\"b\\c\n\t\u{1}");
}

#[test]
fn serialized_log_round_trips_through_a_json_parser() {
    let log = Log::Unformatted(StructuredLog {
        timestamp: Some("2020-11-18T23:52:30.128Z".to_string()),
        guid: Some("6e48723a-1596-4313-a9af-e4da9214d637".to_string()),
        level: Some(LogLevel::Warn),
        data: LogData::Raw("payload \"quoted\"".to_string()),
    });
    let parsed: serde_json::Value = serde_json::from_str(&log.to_string()).unwrap();
    assert_eq!(parsed["timestamp"], "2020-11-18T23:52:30.128Z");
    assert_eq!(parsed["guid"], "6e48723a-1596-4313-a9af-e4da9214d637");
    assert_eq!(parsed["level"], "WARN");
    assert_eq!(parsed["data"], "payload \"quoted\"");
}

#[test]
fn formatted_log_ships_verbatim() {
    let doc = parse_json_doc("{ \"a\": 1 }").unwrap();
    let log = Log::Formatted(doc);
    assert_eq!(log.to_string(), "{\"a\":1}");
    assert_eq!(log.bytes_size(), 7);
}

#[test]
fn bulk_body_joins_logs_with_newlines() {
    let a = Log::Formatted(parse_json_doc("{\"n\":1}").unwrap());
    let b = Log::Formatted(parse_json_doc("{\"n\":2}").unwrap());
    assert_eq!(join_logs(&vec![a, b]), "{\"n\":1}\n{\"n\":2}");
    assert_eq!(join_logs(&vec![]), "");
}

#[test]
fn loggly_builder_shapes_the_bulk_url() {
    let loggly = Loggly::builder()
        .with_token("TOKEN".to_string())
        .with_tag("TAG".to_string())
        .with_parser(Parser)
        .with_timeout(Some(250))
        .build()
        .unwrap();
    assert_eq!(loggly.url, "http://logs-01.loggly.com/bulk/TOKEN/tag/TAG/");
    assert_eq!(loggly.timeout, Some(250));
}

#[test]
fn loggly_builder_reports_the_first_missing_setting() {
    let err = Loggly::builder().with_tag("TAG".to_string()).build().unwrap_err();
    assert_eq!(err, BuildError::MissingToken);
    assert_eq!(err.message(), "Token Required");

    let err = Loggly::builder().with_token("TOKEN".to_string()).build().unwrap_err();
    assert_eq!(err, BuildError::MissingTag);
    assert_eq!(err.message(), "Tag Required");

    let err = Loggly::builder()
        .with_token("TOKEN".to_string())
        .with_tag("TAG".to_string())
        .build()
        .unwrap_err();
    assert_eq!(err, BuildError::MissingParser);
    assert_eq!(err.message(), "Parser Required");
}

#[test]
fn logzio_builder_shapes_the_bulk_url() {
    let logzio = Logzio::builder()
        .with_host("listener.example".to_string())
        .with_token("TOKEN".to_string())
        .build()
        .unwrap();
    assert_eq!(logzio.url, "http://listener.example:8070/?token=TOKEN&type=http-bulk");
    assert_eq!(logzio.timeout, None);
}

#[test]
fn logzio_builder_reports_the_first_missing_setting() {
    let err = Logzio::builder().build().unwrap_err();
    assert_eq!(err, BuildError::MissingToken);
    let err = Logzio::builder().with_token("TOKEN".to_string()).build().unwrap_err();
    assert_eq!(err, BuildError::MissingHost);
    assert_eq!(err.message(), "Host Required");
}

#[test]
fn firehose_record_is_base64_of_metadata_and_logs() {
    let metadata = parse_json_doc("{\"env\":\"prod\"}").unwrap();
    let firehose = Firehose::new("stream".to_string(), metadata);
    let chunk = vec![
        Log::Formatted(parse_json_doc("{\"n\":1}").unwrap()),
        Log::Formatted(parse_json_doc("{\"n\":2}").unwrap()),
    ];
    let body = firehose.record_json(&chunk);
    assert_eq!(body, "{\"metadata\":{\"env\":\"prod\"},\"logs\":[\"{\\\"n\\\":1}\",\"{\\\"n\\\":2}\"]}");
    let encoded = firehose.record_data(&chunk);
    assert_eq!(
        encoded,
        base64::Engine::encode(&base64::engine::general_purpose::STANDARD, body.as_bytes())
    );
}

#[test]
fn timeout_setting_resolves_like_the_environment_reader() {
    assert_eq!(timeout_setting(None), Some(1000));
    assert_eq!(timeout_setting(Some("0")), None);
    assert_eq!(timeout_setting(Some("250")), Some(250));
    assert_eq!(timeout_setting(Some("soon")), Some(1000));
}

#[test]
fn parse_u64_accepts_what_std_accepts() {
    assert_eq!(woodchuck::parse_u64("42"), Some(42));
    assert_eq!(woodchuck::parse_u64("+42"), Some(42));
    assert_eq!(woodchuck::parse_u64("007"), Some(7));
    assert_eq!(woodchuck::parse_u64(""), None);
    assert_eq!(woodchuck::parse_u64("+"), None);
    assert_eq!(woodchuck::parse_u64("4x"), None);
    assert_eq!(woodchuck::parse_u64("18446744073709551615"), Some(u64::MAX));
    assert_eq!(woodchuck::parse_u64("18446744073709551616"), None);
    assert_eq!(woodchuck::parse_u32("4294967295"), Some(u32::MAX));
    assert_eq!(woodchuck::parse_u32("4294967296"), None);
}

#[test]
fn level_tokens_round_trip() {
    for level in [
        LogLevel::Info,
        LogLevel::Warn,
        LogLevel::Error,
        LogLevel::Trace,
        LogLevel::Critical,
        LogLevel::Debug,
    ] {
        assert_eq!(LogLevel::try_from(level.token()), Some(level));
    }
    assert_eq!(LogLevel::try_from("info"), None);
    assert_eq!(LogLevel::try_from("WARNING"), None);
}

#[test]
fn subscription_request_names_the_intake_and_buffering() {
    let config = logs_api::LogSubscriptionConfig::default();
    assert_eq!(
        logs_api::log_subscription_request(&config),
        "{\"destination\":{\"protocol\":\"HTTP\",\"URI\":\"http://sandbox:1060\"},\"types\":[\"function\"],\"buffering\":{\"maxItems\":1000,\"maxBytes\":262144,\"timeoutMs\":2500}}"
    );
    let parsed: serde_json::Value =
        serde_json::from_str(&logs_api::log_subscription_request(&config)).unwrap();
    assert_eq!(parsed["destination"]["URI"], "http://sandbox:1060");
    assert_eq!(parsed["types"][0], "function");
    assert_eq!(parsed["buffering"]["maxItems"], 1000);
}

#[test]
fn config_resolves_environment_values() {
    let config =
        logs_api::config_from_env(Some("2000"), Some("500"), None, Some("1250"), Some("host.x"))
            .unwrap();
    assert_eq!(config.port, 2000);
    assert_eq!(config.max_items, 500);
    assert_eq!(config.max_bytes, 262144);
    assert_eq!(config.timeout, 1250);
    assert_eq!(config.host, "host.x");
    assert!(logs_api::config_from_env(Some("99999"), None, None, None, None).is_none());
    assert!(logs_api::config_from_env(None, Some("many"), None, None, None).is_none());
}

#[test]
fn extension_name_reflects_destination_and_architecture() {
    assert_eq!(extension::get_extension_name(None, None, false), "woodchuck");
    assert_eq!(
        extension::get_extension_name(Some("loggly"), Some("arm64"), false),
        "woodchuck_loggly_arm64"
    );
    assert_eq!(
        extension::get_extension_name(Some("firehose"), Some("x86_64"), true),
        "woodchuck_firehose_x86_64_dev"
    );
    assert_eq!(extension::get_extension_name(Some("loggly"), None, true), "woodchuck_dev");
}

#[test]
fn base_url_prefixes_the_api_address() {
    assert_eq!(extension::base_url("127.0.0.1:9001"), "http://127.0.0.1:9001");
    assert_eq!(
        extension::register_request_body(),
        "{\"events\":[\"INVOKE\",\"SHUTDOWN\"]}"
    );
}

#[test]
fn every_event_drains_and_only_shutdown_exits() {
    let invoke = Ok(runtime::NextEventResponse::Invoke {
        deadline_ms: 100,
        request_id: "r".to_string(),
        invoked_function_arn: "arn".to_string(),
        tracing: runtime::Tracing { kind: "X-Amzn-Trace-Id".to_string(), value: "v".to_string() },
    });
    let d = runtime::handle_event(&invoke);
    assert!(d.drain && !d.exit);

    let shutdown = Ok(runtime::NextEventResponse::Shutdown {
        shutdown_reason: "spindown".to_string(),
        deadline_ms: 2000,
    });
    let d = runtime::handle_event(&shutdown);
    assert!(d.drain && d.exit);

    let failed = Err(runtime::PollError { message: "timed out".to_string() });
    let d = runtime::handle_event(&failed);
    assert!(d.drain && !d.exit);
}
