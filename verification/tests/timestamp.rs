use emit_elasticsearch::collector::ElasticCollector;
use emit_elasticsearch::index::IndexTemplate;
use emit_elasticsearch::timestamp::Timestamp;
use emit_elasticsearch::{
    DEFAULT_TEMPLATE_FORMAT, DEFAULT_TEMPLATE_PREFIX, LOCAL_SERVER_URL, TYPENAME,
};

fn iso(t: &Timestamp) -> String {
    let mut out = String::new();
    t.push_iso8601(&mut out);
    out
}

#[test]
fn a_moment_is_written_with_milliseconds_and_z() {
    assert_eq!(iso(&Timestamp::new(2014, 7, 8, 9, 10, 11, 0).unwrap()), "2014-07-08T09:10:11.000Z");
    assert_eq!(iso(&Timestamp::new(0, 1, 1, 0, 0, 0, 0).unwrap()), "0000-01-01T00:00:00.000Z");
    assert_eq!(
        iso(&Timestamp::new(9999, 12, 31, 23, 59, 59, 999).unwrap()),
        "9999-12-31T23:59:59.999Z"
    );
}

#[test]
fn a_moment_hands_back_its_parts() {
    let t = Timestamp::new(2016, 2, 29, 1, 2, 3, 4).unwrap();
    assert_eq!(
        (t.year(), t.month(), t.day(), t.hour(), t.minute(), t.second(), t.millisecond()),
        (2016, 2, 29, 1, 2, 3, 4)
    );
}

#[test]
fn only_moments_of_the_calendar_are_made() {
    assert!(Timestamp::new(2015, 2, 29, 0, 0, 0, 0).is_none());
    assert!(Timestamp::new(2016, 2, 29, 0, 0, 0, 0).is_some());
    assert!(Timestamp::new(1900, 2, 29, 0, 0, 0, 0).is_none());
    assert!(Timestamp::new(2000, 2, 29, 0, 0, 0, 0).is_some());
    assert!(Timestamp::new(2014, 4, 31, 0, 0, 0, 0).is_none());
    assert!(Timestamp::new(2014, 4, 30, 0, 0, 0, 0).is_some());
    assert!(Timestamp::new(2014, 1, 31, 0, 0, 0, 0).is_some());
    assert!(Timestamp::new(2014, 1, 32, 0, 0, 0, 0).is_none());
    assert!(Timestamp::new(2014, 0, 1, 0, 0, 0, 0).is_none());
    assert!(Timestamp::new(2014, 13, 1, 0, 0, 0, 0).is_none());
    assert!(Timestamp::new(2014, 1, 0, 0, 0, 0, 0).is_none());
    assert!(Timestamp::new(10000, 1, 1, 0, 0, 0, 0).is_none());
    assert!(Timestamp::new(2014, 1, 1, 24, 0, 0, 0).is_none());
    assert!(Timestamp::new(2014, 1, 1, 0, 60, 0, 0).is_none());
    assert!(Timestamp::new(2014, 1, 1, 0, 0, 60, 0).is_none());
    assert!(Timestamp::new(2014, 1, 1, 0, 0, 0, 1000).is_none());
}

#[test]
fn index_names_follow_the_pattern() {
    let date = Timestamp::new(2016, 5, 1, 13, 4, 5, 678).unwrap();
    assert_eq!(IndexTemplate::default().index(&date), "emitlog-20160501");
    assert_eq!(IndexTemplate::new("logs-", "%Y-%m-%d").index(&date), "logs-2016-05-01");
    assert_eq!(IndexTemplate::new("", "%H:%M:%S%.3f").index(&date), "13:04:05.678");
    assert_eq!(IndexTemplate::new("p", "").index(&date), "p");
    assert_eq!(IndexTemplate::new("w-", "%a %b %j").index(&date), "w-Sun May 122");
    let first = Timestamp::new(0, 1, 1, 0, 0, 0, 0).unwrap();
    assert_eq!(IndexTemplate::new("y", "%Y%m%d").index(&first), "y00000101");
    let last = Timestamp::new(9999, 12, 31, 23, 59, 59, 999).unwrap();
    assert_eq!(IndexTemplate::new("y", "%Y%m%d %T").index(&last), "y99991231 23:59:59");
}

#[test]
fn a_malformed_pattern_ends_the_name_where_it_fails() {
    let date = Timestamp::new(2016, 5, 1, 13, 4, 5, 678).unwrap();
    assert_eq!(IndexTemplate::new("logs-", "%Y-%Q-%m").index(&date), "logs-2016-");
    assert_eq!(IndexTemplate::new("logs-", "%").index(&date), "logs-");
}

#[test]
fn index_template_hands_back_its_parts() {
    let template = IndexTemplate::new("testlog-", "%Y%m");
    assert_eq!(template.prefix(), "testlog-");
    assert_eq!(template.date_format(), "%Y%m");
    let template = IndexTemplate::default();
    assert_eq!(template.prefix(), DEFAULT_TEMPLATE_PREFIX);
    assert_eq!(template.date_format(), DEFAULT_TEMPLATE_FORMAT);
    assert_eq!(DEFAULT_TEMPLATE_PREFIX, "emitlog-");
    assert_eq!(DEFAULT_TEMPLATE_FORMAT, "%Y%m%d");
    assert_eq!(TYPENAME, "emitlog");
}

#[test]
fn collector_keeps_its_settings() {
    let collector = ElasticCollector::new("http://es:9200/", IndexTemplate::new("a-", "%Y"));
    assert_eq!(collector.server_url(), "http://es:9200/");
    assert_eq!(collector.authorization(), None);
    assert_eq!(collector.template().prefix(), "a-");
    let collector = collector.with_auth("Basic abc".to_string());
    assert_eq!(collector.server_url(), "http://es:9200/");
    assert_eq!(collector.authorization(), Some("Basic abc"));
    assert_eq!(collector.template().date_format(), "%Y");
    let local = ElasticCollector::new_local(IndexTemplate::new("b-", "%m"));
    assert_eq!(local.server_url(), LOCAL_SERVER_URL);
    assert_eq!(LOCAL_SERVER_URL, "http://localhost:9200/");
    assert_eq!(local.template().prefix(), "b-");
    let default = ElasticCollector::default();
    assert_eq!(default.server_url(), "http://localhost:9200/");
    assert_eq!(default.authorization(), None);
    assert_eq!(default.template().prefix(), "emitlog-");
    assert_eq!(default.template().date_format(), "%Y%m%d");
}

#[test]
fn well_formed_templates_have_no_wildcard_and_a_sound_pattern() {
    assert!(IndexTemplate::default().is_well_formed());
    assert!(IndexTemplate::new("testlog-", "%Y%m").is_well_formed());
    assert!(IndexTemplate::new("", "").is_well_formed());
    assert!(IndexTemplate::new("logs-", "%Y-%m-%dT%H:%M:%S%.3fZ %% %+").is_well_formed());
    assert!(!IndexTemplate::new("logs-*", "%Y").is_well_formed());
    assert!(!IndexTemplate::new("*", "%Y").is_well_formed());
    assert!(!IndexTemplate::new("lo*gs", "%Y").is_well_formed());
    assert!(!IndexTemplate::new("logs-", "%Q").is_well_formed());
    assert!(!IndexTemplate::new("logs-", "%Y%").is_well_formed());
    assert!(!IndexTemplate::new("logs-", "%.4f").is_well_formed());
}
