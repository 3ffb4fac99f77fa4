//! The line recognizers, each against its runtime's line shape.
use woodchuck::models::Log;
use woodchuck::models::LogData;
use woodchuck::models::LogLevel;
use woodchuck::models::RawCloudWatchLog;
use woodchuck::models::RawValue;
use woodchuck::parser;

fn text_record(s: &str) -> RawCloudWatchLog {
    RawCloudWatchLog { record: RawValue::Text(s.to_string()), ..Default::default() }
}

#[test]
fn test_parse_dotnet() {
    let input = RawCloudWatchLog {
        record: RawValue::Text(
            "{ \"statusCode\": 200, \"body\": \"DotNet\", \"level\": \"info\"  }".to_string(),
        ),
        time: "2020-11-18T23:52:30.128Z".to_string(),
        ..Default::default()
    };
    let output = parser::dotnet::parse(&input);

    assert_eq!(output.is_some(), true);
    match output.unwrap() {
        Log::Formatted(doc) => {
            let log: serde_json::Value = serde_json::from_str(doc.text()).unwrap();
            assert_eq!(log["statusCode"], 200);
            assert_eq!(log["body"], "DotNet");
        }
        _ => {
            panic!("Expected Preformatted log");
        }
    }
}

#[test]
fn test_parse_dotnet_six() {
    let input = text_record(
        "2019-10-23T14:40:59.59Z\t313e0588-e4f1-4d19-8ae4-44980a446805\tinfo\tHello World\n",
    );
    let output = parser::dotnet_six::parse(&input);

    assert!(output.is_some());
    match output.unwrap() {
        Log::Unformatted(log) => {
            assert_eq!(log.timestamp.unwrap(), "2019-10-23T14:40:59.59Z");
            assert_eq!(log.guid.unwrap(), "313e0588-e4f1-4d19-8ae4-44980a446805");
            assert_eq!(log.level.unwrap(), LogLevel::Info);
            match log.data {
                LogData::Raw(s) => assert_eq!(s, "Hello World\n"),
                _ => panic!("Expected raw payload"),
            }
        }
        _ => {
            panic!("Expected CloudWatch Formatted log");
        }
    }
}

#[test]
fn can_parse_node() {
    let input = text_record(
        "2020-11-18T23:52:30.128Z\t6e48723a-1596-4313-a9af-e4da9214d637\tINFO\tHello World\n",
    );
    let output = parser::try_parse_cloudwatch_log(&input);

    assert_eq!(output.is_ok(), true);

    match output.unwrap() {
        Log::Unformatted(log) => {
            assert_eq!(log.timestamp.unwrap(), "2020-11-18T23:52:30.128Z");
            assert_eq!(log.guid.unwrap(), "6e48723a-1596-4313-a9af-e4da9214d637");
            assert_eq!(log.level.unwrap(), LogLevel::Info);
            match log.data {
                LogData::Raw(s) => assert_eq!(s, "Hello World\n"),
                _ => panic!("Expected raw payload"),
            }
        }
        _ => {
            panic!("Expected Cloudwatch formatted log");
        }
    }
}

#[test]
fn can_parse_python() {
    let input = text_record(
        "[INFO]\t2020-11-18T23:52:30.128Z    6e48723a-1596-4313-a9af-e4da9214d637\tHello World\n",
    );
    let output = parser::try_parse_cloudwatch_log(&input);

    assert_eq!(output.is_ok(), true);

    match output.unwrap() {
        Log::Unformatted(log) => {
            assert_eq!(log.timestamp.unwrap(), "2020-11-18T23:52:30.128Z");
            assert_eq!(log.guid.unwrap(), "6e48723a-1596-4313-a9af-e4da9214d637");
            assert_eq!(log.level.unwrap(), LogLevel::Info);
            match log.data {
                LogData::Raw(s) => assert_eq!(s, "Hello World\n"),
                _ => panic!("Expected raw payload"),
            }
        }
        _ => {
            panic!("Expected Cloudwatch formatted log");
        }
    }
}

#[test]
fn can_parse_dotnet() {
    let input = RawCloudWatchLog {
        record: RawValue::Text("{ \"statusCode\": 200, \"body\": \"DotNet\" }".to_string()),
        time: "2020-11-18T23:52:30.128Z".to_string(),
        ..Default::default()
    };
    let output = parser::try_parse_cloudwatch_log(&input);

    assert_eq!(output.is_ok(), true);

    match output.unwrap() {
        Log::Formatted(doc) => {
            let log: serde_json::Value = serde_json::from_str(doc.text()).unwrap();
            assert_eq!(log["body"], "DotNet");
            assert_eq!(log["statusCode"], 200);
        }
        _ => {
            panic!("Expected Preformatted log");
        }
    }
}

#[test]
fn cannot_parse() {
    let input = text_record("Bad log");
    let output = parser::try_parse_cloudwatch_log(&input);
    assert_eq!(output.is_err(), true);
}

#[test]
fn test_parse_node_non_json() {
    let input = text_record(
        "2020-11-18T23:52:30.128Z\t6e48723a-1596-4313-a9af-e4da9214d637\tINFO\tHello World\n",
    );
    let output = parser::node::parse(&input);

    assert_eq!(output.is_some(), true);

    match output.unwrap() {
        Log::Unformatted(log) => {
            assert_eq!(log.timestamp.unwrap(), "2020-11-18T23:52:30.128Z");
            assert_eq!(log.guid.unwrap(), "6e48723a-1596-4313-a9af-e4da9214d637");
            assert_eq!(log.level.unwrap(), LogLevel::Info);
            match log.data {
                LogData::Raw(s) => assert_eq!(s, "Hello World\n"),
                _ => panic!("Expected raw payload"),
            }
        }
        _ => {
            panic!("Expected Preformatted log");
        }
    }
}

#[test]
fn test_parse_node_json() {
    let input = text_record(
        "2020-11-18T23:52:30.128Z\t6e48723a-1596-4313-a9af-e4da9214d637\tINFO\t{\"data\":\"Hello World\"}\n",
    );
    let output = parser::node::parse(&input);

    assert_eq!(output.is_some(), true);

    let l = output.unwrap();

    println!("{}", l.to_string());

    match l {
        Log::Formatted(doc) => {
            let log: serde_json::Value = serde_json::from_str(doc.text()).unwrap();
            assert_eq!(log["data"], "Hello World");
        }
        _ => {
            panic!("Expected Preformatted log");
        }
    }
}

#[test]
fn test_parse_python() {
    let input = text_record(
        "[INFO]\t2019-10-23T14:40:59.59Z\t313e0588-e4f1-4d19-8ae4-44980a446805\tHello World\n",
    );
    let output = parser::python::parse(&input);

    assert_eq!(output.is_some(), true);
    match output.unwrap() {
        Log::Unformatted(log) => {
            assert_eq!(log.timestamp.unwrap(), "2019-10-23T14:40:59.59Z");
            assert_eq!(log.guid.unwrap(), "313e0588-e4f1-4d19-8ae4-44980a446805");
            assert_eq!(log.level.unwrap(), LogLevel::Info);
            match log.data {
                LogData::Raw(s) => assert_eq!(s, "Hello World\n"),
                _ => panic!("Expected raw payload"),
            }
        }
        _ => {
            panic!("Expected CloudWatch Formatted log");
        }
    }
}

#[test]
fn node_numeric_json_payload_stays_unformatted() {
    let input = text_record("2020-11-18T23:52:30.128Z\t6e48723a-1596-4313-a9af-e4da9214d637\tERROR\t123");
    match parser::node::parse(&input).unwrap() {
        Log::Unformatted(log) => {
            assert_eq!(log.level.unwrap(), LogLevel::Error);
            match log.data {
                LogData::Parsed(doc) => {
                    assert_eq!(doc.text(), "123");
                    assert!(!doc.is_object());
                }
                _ => panic!("Expected parsed payload"),
            }
        }
        _ => panic!("Expected Cloudwatch formatted log"),
    }
}

#[test]
fn dotnet_six_levels_map() {
    for (token, level) in [
        ("info", LogLevel::Info),
        ("warn", LogLevel::Warn),
        ("fail", LogLevel::Error),
        ("trce", LogLevel::Trace),
        ("dbug", LogLevel::Debug),
        ("crit", LogLevel::Critical),
    ] {
        let line = format!(
            "2019-10-23T14:40:59.59Z\t313e0588-e4f1-4d19-8ae4-44980a446805\t{}\tx",
            token
        );
        match parser::dotnet_six::parse(&text_record(&line)).unwrap() {
            Log::Unformatted(log) => assert_eq!(log.level.unwrap(), level),
            _ => panic!("Expected CloudWatch Formatted log"),
        }
    }
}

#[test]
fn python_warning_maps_to_warn() {
    let input = text_record(
        "[WARNING]\t2019-10-23T14:40:59.59Z\t313e0588-e4f1-4d19-8ae4-44980a446805\tcareful\n",
    );
    match parser::python::parse(&input).unwrap() {
        Log::Unformatted(log) => assert_eq!(log.level.unwrap(), LogLevel::Warn),
        _ => panic!("Expected CloudWatch Formatted log"),
    }
}

#[test]
fn timestamp_with_offset_matches() {
    let input = text_record(
        "2020-11-18T23:52:30.128+01:30\t6e48723a-1596-4313-a9af-e4da9214d637\tWARN\thi",
    );
    match parser::node::parse(&input).unwrap() {
        Log::Unformatted(log) => {
            assert_eq!(log.timestamp.unwrap(), "2020-11-18T23:52:30.128+01:30");
            assert_eq!(log.level.unwrap(), LogLevel::Warn);
        }
        _ => panic!("Expected Cloudwatch formatted log"),
    }
}

#[test]
fn payload_may_span_lines() {
    let input = text_record(
        "2020-11-18T23:52:30.128Z\t6e48723a-1596-4313-a9af-e4da9214d637\tINFO\tline one\nline two\n",
    );
    match parser::node::parse(&input).unwrap() {
        Log::Unformatted(log) => match log.data {
            LogData::Raw(s) => assert_eq!(s, "line one\nline two\n"),
            _ => panic!("Expected raw payload"),
        },
        _ => panic!("Expected Cloudwatch formatted log"),
    }
}

#[test]
fn python_object_payload_is_not_promoted() {
    let input = text_record(
        "[ERROR]\t2019-10-23T14:40:59.59Z\t313e0588-e4f1-4d19-8ae4-44980a446805\t{\"oops\": true}",
    );
    match parser::python::parse(&input).unwrap() {
        Log::Unformatted(log) => {
            assert_eq!(log.level.unwrap(), LogLevel::Error);
            match log.data {
                LogData::Parsed(doc) => assert!(doc.is_object()),
                _ => panic!("Expected parsed payload"),
            }
        }
        _ => panic!("A Python line must stay unformatted"),
    }
}

#[test]
fn node_needs_whitespace_after_the_level() {
    let input =
        text_record("2020-11-18T23:52:30.128Z\t6e48723a-1596-4313-a9af-e4da9214d637\tINFO");
    assert!(parser::node::parse(&input).is_none());
}

#[test]
fn unicode_whitespace_separates_fields() {
    let input = text_record(
        "2020-11-18T23:52:30.128Z\u{a0}6e48723a-1596-4313-a9af-e4da9214d637\u{2003}INFO\tspaced",
    );
    match parser::node::parse(&input).unwrap() {
        Log::Unformatted(log) => {
            assert_eq!(log.guid.unwrap(), "6e48723a-1596-4313-a9af-e4da9214d637");
            match log.data {
                LogData::Raw(s) => assert_eq!(s, "spaced"),
                _ => panic!("Expected raw payload"),
            }
        }
        _ => panic!("Expected Cloudwatch formatted log"),
    }
}

#[test]
fn malformed_uuid_does_not_match_node() {
    let input =
        text_record("2020-11-18T23:52:30.128Z\t6e48723a-1596-4313-a9af-e4da9214d63Z\tINFO\thi");
    assert!(parser::node::parse(&input).is_none());
}
