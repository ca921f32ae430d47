use rs_collector::bosun::{
    delivery, delivery_within, metadata_records, sample_to_datum, Bosun, BosunRequest, Delivery, EmitterAction,
    Metadata, Outcome, Rate, Sample, Tags, Value, QUEUE_HIGH_WATERMARK, RETRY_COUNT,
    STATS_SAMPLES_METRICNAME, TICK_INTERVAL_SEC,
};

fn tags(pairs: &[(&str, &str)]) -> Tags {
    let mut t = Tags::new();
    for (k, v) in pairs {
        t.insert(k.to_string(), v.to_string());
    }
    t
}

fn sorted(t: &Tags) -> Vec<(String, String)> {
    let mut pairs = t.to_vec();
    pairs.sort();
    pairs
}

fn pair(k: &str, v: &str) -> (String, String) {
    (k.to_string(), v.to_string())
}

fn sample_at(time: u64, metric: &str, value: Value, t: Tags) -> Sample {
    Sample { time: time, metric: metric.to_string(), value: value, tags: t }
}

#[test]
fn metadata_new_keeps_its_parts() {
    let m = Metadata::new("a.b", Rate::Counter, "Events", "How many");
    assert_eq!(m.metric, "a.b");
    assert_eq!(m.rate, "counter");
    assert_eq!(m.unit, "Events");
    assert_eq!(m.description, "How many");
    assert_eq!(Rate::Gauge.name(), "gauge");
    assert_eq!(Rate::Rate.name(), "rate");
}

#[test]
fn sample_new_has_no_tags_and_a_time() {
    let s = Sample::new("x.y", Value::Integer(7));
    assert_eq!(s.metric, "x.y");
    assert!(matches!(s.value, Value::Integer(7)));
    assert!(s.tags.is_empty());
    assert!(s.time > 1_500_000_000);
    let t = Sample::new_with_tags("x.y", Value::Decimal("1.5".to_string()), tags(&[("a", "b")]));
    assert_eq!(sorted(&t.tags), vec![pair("a", "b")]);
    assert_eq!(t.value.text(), "1.5");
}

#[test]
fn tags_keep_one_value_for_a_name() {
    let mut t = Tags::new();
    assert!(t.is_empty());
    t.insert("a".to_string(), "1".to_string());
    t.insert("b".to_string(), "2".to_string());
    t.insert("a".to_string(), "3".to_string());
    assert_eq!(t.len(), 2);
    assert_eq!(t.get("a").cloned(), Some("3".to_string()));
    assert_eq!(t.get("b").cloned(), Some("2".to_string()));
    assert_eq!(t.get("c"), None);
    assert!(t.contains_key("a"));
    assert!(!t.contains_key("c"));
    assert_eq!(sorted(&t.clone()), vec![pair("a", "3"), pair("b", "2")]);
}

#[test]
fn tags_extend_lays_the_other_over() {
    let mut t = tags(&[("a", "1"), ("b", "2")]);
    t.extend(&tags(&[("b", "9"), ("c", "3")]));
    assert_eq!(sorted(&t), vec![pair("a", "1"), pair("b", "9"), pair("c", "3")]);
}

#[test]
fn datum_has_the_host_tag_and_every_default_tag() {
    let defaults = tags(&[("hostgroup", "webservers"), ("domain", "webserver.de")]);
    let s = sample_at(1458066838, "m", Value::Integer(-12), tags(&[("bucket", "5"), ("domain", "x")]));
    let d = sample_to_datum(&s, "webserver", &defaults);
    assert_eq!(d.metric, "m");
    assert_eq!(d.timestamp, 1458066838);
    assert_eq!(d.value, "-12");
    assert_eq!(
        sorted(&d.tags),
        vec![
            pair("bucket", "5"),
            pair("domain", "webserver.de"),
            pair("host", "webserver"),
            pair("hostgroup", "webservers"),
        ]
    );
}

#[test]
fn default_host_tag_wins_over_the_host_name() {
    let defaults = tags(&[("host", "other")]);
    let s = sample_at(1, "m", Value::Integer(0), tags(&[("host", "mine")]));
    let d = sample_to_datum(&s, "h", &defaults);
    assert_eq!(sorted(&d.tags), vec![pair("host", "other")]);
    let plain = sample_to_datum(&s, "h", &Tags::new());
    assert_eq!(sorted(&plain.tags), vec![pair("host", "h")]);
}

#[test]
fn datum_values_and_times_as_text() {
    let zero = sample_to_datum(&sample_at(0, "m", Value::Integer(0), Tags::new()), "h", &Tags::new());
    assert_eq!(zero.value, "0");
    assert_eq!(zero.timestamp, 0);
    let low = sample_at(u64::MAX, "m", Value::Integer(i64::MIN), Tags::new());
    let d = sample_to_datum(&low, "h", &Tags::new());
    assert_eq!(d.value, "-9223372036854775808");
    assert_eq!(d.timestamp, -1);
    let high = sample_at(1 << 63, "m", Value::Integer(i64::MAX), Tags::new());
    let d = sample_to_datum(&high, "h", &Tags::new());
    assert_eq!(d.value, "9223372036854775807");
    assert_eq!(d.timestamp, i64::MIN);
    let text = sample_at(5, "m", Value::Decimal("3.114286".to_string()), Tags::new());
    assert_eq!(sample_to_datum(&text, "h", &Tags::new()).value, "3.114286");
}

#[test]
fn tick_on_an_empty_queue_sends_the_count_alone() {
    let mut emitter = Bosun::new("h", &Tags::new());
    let data = emitter.tick();
    assert_eq!(data.len(), 1);
    assert_eq!(data[0].metric, "rs-collector.stats.samples");
    assert_eq!(data[0].metric, STATS_SAMPLES_METRICNAME);
    assert_eq!(data[0].value, "1");
    assert_eq!(sorted(&data[0].tags), vec![pair("host", "h")]);
    assert_eq!(emitter.queue_len(), 0);
}

#[test]
fn tick_drains_the_queue_in_order() {
    let mut emitter = Bosun::new("h", &tags(&[("dc", "fra")]));
    for i in 0..3 {
        let action = emitter.handle(BosunRequest::Sample(sample_at(
            100 + i,
            "m",
            Value::Integer(i as i64),
            Tags::new(),
        )));
        assert!(matches!(action, EmitterAction::Queued));
    }
    assert_eq!(emitter.queue_len(), 3);
    let data = emitter.tick();
    let got: Vec<(String, i64, String)> =
        data.iter().map(|d| (d.metric.clone(), d.timestamp, d.value.clone())).collect();
    assert_eq!(got[0], ("m".to_string(), 100, "0".to_string()));
    assert_eq!(got[1], ("m".to_string(), 101, "1".to_string()));
    assert_eq!(got[2], ("m".to_string(), 102, "2".to_string()));
    assert_eq!(got[3].0, "rs-collector.stats.samples");
    assert_eq!(got[3].2, "4");
    for d in &data {
        assert_eq!(sorted(&d.tags), vec![pair("dc", "fra"), pair("host", "h")]);
    }
    assert_eq!(emitter.queue_len(), 0);
    assert_eq!(emitter.tick().len(), 1);
}

#[test]
fn metadata_is_sent_at_once_and_shutdown_stops() {
    let mut emitter = Bosun::new("h", &Tags::new());
    emitter.handle(BosunRequest::Sample(Sample::new("m", Value::Integer(1))));
    match emitter.handle(BosunRequest::Metadata(Metadata::new("m", Rate::Gauge, "u", "d"))) {
        EmitterAction::SendMetadata(m) => {
            assert_eq!(m.metric, "m");
            assert_eq!(m.rate, "gauge");
        }
        other => panic!("unexpected {:?}", other),
    }
    assert!(matches!(emitter.handle(BosunRequest::Shutdown), EmitterAction::Stop));
    assert_eq!(emitter.queue_len(), 1);
}

#[test]
fn full_queue_drops_the_oldest() {
    let mut emitter = Bosun::new("h", &Tags::new());
    for i in 0..(QUEUE_HIGH_WATERMARK as u64 + 2) {
        emitter.handle(BosunRequest::Sample(sample_at(i, "m", Value::Integer(0), Tags::new())));
    }
    assert_eq!(emitter.queue_len(), QUEUE_HIGH_WATERMARK);
    assert_eq!(QUEUE_HIGH_WATERMARK, 100_000);
    let data = emitter.tick();
    assert_eq!(data.len(), QUEUE_HIGH_WATERMARK + 1);
    assert_eq!(data[0].timestamp, 2);
    assert_eq!(data[QUEUE_HIGH_WATERMARK - 1].timestamp, QUEUE_HIGH_WATERMARK as i64 + 1);
    assert_eq!(data[QUEUE_HIGH_WATERMARK].value, "100001");
}

#[test]
fn descriptor_is_sent_as_three_records() {
    let records = metadata_records(&Metadata::new("lukas.tests.count", Rate::Counter, "Tests", "Amount"));
    let got: Vec<(String, String, String)> =
        records.iter().map(|r| (r.metric.clone(), r.name.clone(), r.value.clone())).collect();
    assert_eq!(
        got,
        vec![
            ("lukas.tests.count".to_string(), "rate".to_string(), "counter".to_string()),
            ("lukas.tests.count".to_string(), "unit".to_string(), "Tests".to_string()),
            ("lukas.tests.count".to_string(), "desc".to_string(), "Amount".to_string()),
        ]
    );
}

#[test]
fn server_errors_are_retried_three_times_then_dropped() {
    assert_eq!(RETRY_COUNT, 3);
    assert_eq!(delivery(Outcome::Status(500), 0), Delivery::Retry);
    assert_eq!(delivery(Outcome::Status(503), 1), Delivery::Retry);
    assert_eq!(delivery(Outcome::Status(599), 2), Delivery::Retry);
    assert_eq!(delivery(Outcome::Status(500), 3), Delivery::Dropped);
    assert_eq!(delivery(Outcome::ConnectionError, 0), Delivery::Retry);
    assert_eq!(delivery(Outcome::ConnectionError, 2), Delivery::Retry);
    assert_eq!(delivery(Outcome::ConnectionError, 3), Delivery::Dropped);
}

#[test]
fn client_errors_are_not_retried_and_success_is_any_2xx() {
    assert_eq!(delivery(Outcome::Status(400), 0), Delivery::Dropped);
    assert_eq!(delivery(Outcome::Status(404), 0), Delivery::Dropped);
    assert_eq!(delivery(Outcome::Status(499), 0), Delivery::Dropped);
    assert_eq!(delivery(Outcome::Status(600), 0), Delivery::Dropped);
    assert_eq!(delivery(Outcome::Status(302), 0), Delivery::Dropped);
    assert_eq!(delivery(Outcome::Status(200), 0), Delivery::Delivered);
    assert_eq!(delivery(Outcome::Status(204), 3), Delivery::Delivered);
    assert_eq!(delivery(Outcome::Status(299), 0), Delivery::Delivered);
    assert_eq!(delivery(Outcome::Status(199), 0), Delivery::Dropped);
}

#[test]
fn emitter_ticks_every_fifteen_seconds() {
    assert_eq!(TICK_INTERVAL_SEC, 15);
}

#[test]
fn retry_limit_can_be_chosen() {
    assert_eq!(delivery_within(Outcome::Status(500), 0, 0), Delivery::Dropped);
    assert_eq!(delivery_within(Outcome::Status(500), 4, 5), Delivery::Retry);
    assert_eq!(delivery_within(Outcome::Status(500), 5, 5), Delivery::Dropped);
    assert_eq!(delivery_within(Outcome::ConnectionError, 0, 1), Delivery::Retry);
    assert_eq!(delivery_within(Outcome::Status(404), 0, 5), Delivery::Dropped);
    assert_eq!(delivery_within(Outcome::Status(201), 9, 0), Delivery::Delivered);
}

#[test]
fn status_line_tells_the_outcome() {
    assert_eq!(Outcome::from_status("500 Internal Server Error"), Outcome::Status(500));
    assert_eq!(Outcome::from_status("  404 Not Found"), Outcome::Status(404));
    assert_eq!(Outcome::from_status("204"), Outcome::Status(204));
    assert_eq!(Outcome::from_status(""), Outcome::ConnectionError);
    assert_eq!(Outcome::from_status("   "), Outcome::ConnectionError);
    assert_eq!(Outcome::from_status("error 500"), Outcome::ConnectionError);
    assert_eq!(Outcome::from_status("70000 Odd"), Outcome::ConnectionError);
    assert_eq!(Outcome::from_status("-1"), Outcome::ConnectionError);
}
