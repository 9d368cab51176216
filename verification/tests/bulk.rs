use emit_elasticsearch::batch::{build_batch, build_index_template};
use emit_elasticsearch::event::Event;
use emit_elasticsearch::index::IndexTemplate;
use emit_elasticsearch::level::LogLevel;
use emit_elasticsearch::properties::{Properties, Value};
use emit_elasticsearch::timestamp::Timestamp;
use std::str;

fn moment() -> Timestamp {
    Timestamp::new(2014, 7, 8, 9, 10, 11, 0).unwrap()
}

#[test]
fn events_are_formatted_as_bulk() {
    let template = IndexTemplate::default();
    let timestamp = moment();

    let mut properties = Properties::new();
    properties.insert("number", Value::Number(42));

    let evts = vec![
        Event::new(timestamp, LogLevel::Warn, "The number is {number}", properties).unwrap(),
        Event::new(timestamp, LogLevel::Info, "The number is {number}", Properties::new()).unwrap(),
    ];

    let bulk = build_batch(&evts, &template);

    assert_eq!(str::from_utf8(&bulk).unwrap(), "{\"index\":{\"_index\":\"emitlog-20140708\",\"_type\":\"emitlog\"}}\n{\"@t\":\"2014-07-08T09:10:11.000Z\",\"@m\":\"The number is 42\",\"@i\":\"ae9bf784\",\"@l\":\"WARN\",\"number\":42}\n{\"index\":{\"_index\":\"emitlog-20140708\",\"_type\":\"emitlog\"}}\n{\"@t\":\"2014-07-08T09:10:11.000Z\",\"@m\":\"The number is \",\"@i\":\"ae9bf784\",\"@l\":\"INFO\"}\n");
}

#[test]
fn dates_use_correct_index() {
    let template_y = IndexTemplate::new("testlog-", "%Y");
    let template_ym = IndexTemplate::new("testlog-", "%Y%m");
    let template_ymd = IndexTemplate::new("testlog-", "%Y%m%d");

    let date = moment();

    assert_eq!("testlog-2014", &template_y.index(&date));
    assert_eq!("testlog-201407", &template_ym.index(&date));
    assert_eq!("testlog-20140708", &template_ymd.index(&date));
}

#[test]
fn can_build_index_template() {
    let template = IndexTemplate::new("testlog-", "%Y%m%d");

    let index = build_index_template(&template);

    assert_eq!(str::from_utf8(&index).unwrap(), "{\"template\":\"testlog-*\",\"mappings\":{\"emitlog\":{\"properties\":{\"@t\":{\"type\":\"date\",\"format\":\"yyyy-MM-dd'T'HH:mm:ss.SSSZ\"}}}}}")
}

#[test]
fn empty_batch_is_empty() {
    let bulk = build_batch(&[], &IndexTemplate::default());
    assert_eq!(bulk, Vec::<u8>::new());
}

#[test]
fn batch_has_two_lines_for_each_event() {
    let mut properties = Properties::new();
    properties.insert("number", Value::Number(42));
    let evts = vec![
        Event::new(moment(), LogLevel::Warn, "The number is {number}", properties).unwrap(),
    ];
    let bulk = build_batch(&evts, &IndexTemplate::default());
    let text = str::from_utf8(&bulk).unwrap();
    assert!(text.ends_with('\n'));
    let lines: Vec<&str> = text.lines().collect();
    assert_eq!(lines.len(), 2);
    assert_eq!(lines[0], "{\"index\":{\"_index\":\"emitlog-20140708\",\"_type\":\"emitlog\"}}");
    assert!(lines[1].contains("\"@t\":\"2014-07-08T09:10:11.000Z\""));
    assert!(lines[1].contains("\"@m\":\"The number is 42\""));
    assert!(lines[1].contains("\"@l\":\"WARN\""));
    assert!(lines[1].contains("\"number\":42"));
}

#[test]
fn batch_keeps_the_order_of_the_events() {
    let first = Event::new(moment(), LogLevel::Error, "first", Properties::new()).unwrap();
    let later = Timestamp::new(2015, 1, 2, 0, 0, 0, 5).unwrap();
    let second = Event::new(later, LogLevel::Debug, "second", Properties::new()).unwrap();
    let bulk = build_batch(&[first, second], &IndexTemplate::new("logs-", "%Y-%m-%d"));
    let text = String::from_utf8(bulk).unwrap();
    let lines: Vec<&str> = text.lines().collect();
    assert_eq!(lines.len(), 4);
    assert_eq!(lines[0], "{\"index\":{\"_index\":\"logs-2014-07-08\",\"_type\":\"emitlog\"}}");
    assert!(lines[1].contains("\"@m\":\"first\""));
    assert!(lines[1].contains("\"@l\":\"ERROR\""));
    assert_eq!(lines[2], "{\"index\":{\"_index\":\"logs-2015-01-02\",\"_type\":\"emitlog\"}}");
    assert!(lines[3].contains("\"@t\":\"2015-01-02T00:00:00.005Z\""));
    assert!(lines[3].contains("\"@m\":\"second\""));
    assert!(lines[3].contains("\"@l\":\"DEBUG\""));
}

#[test]
fn index_template_appends_the_wildcard_to_any_prefix() {
    let payload = build_index_template(&IndexTemplate::default());
    let text = String::from_utf8(payload).unwrap();
    assert!(text.starts_with("{\"template\":\"emitlog-*\","));
    assert!(text.contains("\"@t\":{\"type\":\"date\",\"format\":\"yyyy-MM-dd'T'HH:mm:ss.SSSZ\"}"));
}
