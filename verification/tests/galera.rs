use rs_collector::bosun::{Sample, Value};
use rs_collector::collectors::galera::{
    classify, convert_to_metric, metadata, name_to_metric, state_value, switch_value,
    value_number_to_decimal, value_uuid_to_decimal, wsrep_status_to_sample, WsrepKind,
    WsrepStatus,
};

fn number(value: &Value) -> f64 {
    match value {
        Value::Integer(i) => *i as f64,
        Value::Decimal(text) => text.parse::<f64>().unwrap(),
    }
}

fn metric_and_value(samples: &Vec<Sample>) -> Vec<(String, f64)> {
    samples.iter().map(|s| (s.metric.clone(), number(&s.value))).collect()
}

#[test]
fn convert_correct_test_data() {
    let test_data = generate_test_data();

    let metric_data = convert_to_metric(test_data);

    assert_eq!(metric_and_value(&metric_data), vec![
        expected("galera.wsrep.local.state.uuid", 223231124026558.0),
        expected("galera.wsrep.protocol.version", 7.0),
        expected("galera.wsrep.last.committed", 15156.0),
        expected("galera.wsrep.replicated", 27.0),
        expected("galera.wsrep.replicated.bytes", 12308.0),
        expected("galera.wsrep.repl.keys", 172.0),
        expected("galera.wsrep.repl.keys.bytes", 1997.0),
        expected("galera.wsrep.repl.data.bytes", 8583.0),
        expected("galera.wsrep.repl.other.bytes", 0.0),
        expected("galera.wsrep.received", 14.0),
        expected("galera.wsrep.received.bytes", 4893.0),
        expected("galera.wsrep.local.commits", 25.0),
        expected("galera.wsrep.local.cert.failures", 0.0),
        expected("galera.wsrep.local.replays", 0.0),
        expected("galera.wsrep.local.send.queue", 0.0),
        expected("galera.wsrep.local.send.queue.max", 1.0),
        expected("galera.wsrep.local.send.queue.min", 0.0),
        expected("galera.wsrep.local.send.queue.avg", 0.0),
        expected("galera.wsrep.local.recv.queue", 0.0),
        expected("galera.wsrep.local.recv.queue.max", 1.0),
        expected("galera.wsrep.local.recv.queue.min", 0.0),
        expected("galera.wsrep.local.recv.queue.avg", 0.0),
        expected("galera.wsrep.local.cached.downto", 15122.0),
        expected("galera.wsrep.flow.control.paused.ns", 0.0),
        expected("galera.wsrep.flow.control.paused", 0.0),
        expected("galera.wsrep.flow.control.sent", 0.0),
        expected("galera.wsrep.flow.control.recv", 0.0),
        expected("galera.wsrep.cert.deps.distance", 3.114286),
        expected("galera.wsrep.apply.oooe", 0.0),
        expected("galera.wsrep.apply.oool", 0.0),
        expected("galera.wsrep.apply.window", 1.0),
        expected("galera.wsrep.commit.oooe", 0.0),
        expected("galera.wsrep.commit.oool", 0.0),
        expected("galera.wsrep.commit.window", 1.0),
        expected("galera.wsrep.local.state", 4.0),
        expected("galera.wsrep.cert.index.size", 47.0),
        expected("galera.wsrep.cert.bucket.count", 58.0),
        expected("galera.wsrep.gcache.pool.size", 18605.0),
        expected("galera.wsrep.causal.reads", 0.0),
        expected("galera.wsrep.cert.interval", 0.0),
        expected("galera.wsrep.desync.count", 0.0),
        expected("galera.wsrep.evs.state", 0.0),
        expected("galera.wsrep.gcomm.uuid", 61013330952311.0),
        expected("galera.wsrep.cluster.conf.id", 21.0),
        expected("galera.wsrep.cluster.size", 3.0),
        expected("galera.wsrep.cluster.state.uuid", 223231124026558.0),
        expected("galera.wsrep.cluster.status", 0.0),
        expected("galera.wsrep.connected", 0.0),
        expected("galera.wsrep.local.bf.aborts", 0.0),
        expected("galera.wsrep.local.index", 0.0),
        expected("galera.wsrep.ready", 0.0),
    ]);
}

fn expected(metric: &str, value: f64) -> (String, f64) {
    (metric.to_string(), value)
}

fn generate_test_data() -> Vec<WsrepStatus> {
    vec![
        WsrepStatus::new("wsrep_local_state_uuid", "5a62afb9-7f4a-11e6-a433-cb070bd9b4be"),
        WsrepStatus::new("wsrep_protocol_version", "7"),
        WsrepStatus::new("wsrep_last_committed", "15156"),
        WsrepStatus::new("wsrep_replicated", "27"),
        WsrepStatus::new("wsrep_replicated_bytes", "12308"),
        WsrepStatus::new("wsrep_repl_keys", "172"),
        WsrepStatus::new("wsrep_repl_keys_bytes", "1997"),
        WsrepStatus::new("wsrep_repl_data_bytes", "8583"),
        WsrepStatus::new("wsrep_repl_other_bytes", "0"),
        WsrepStatus::new("wsrep_received", "14"),
        WsrepStatus::new("wsrep_received_bytes", "4893"),
        WsrepStatus::new("wsrep_local_commits", "25"),
        WsrepStatus::new("wsrep_local_cert_failures", "0"),
        WsrepStatus::new("wsrep_local_replays", "0"),
        WsrepStatus::new("wsrep_local_send_queue", "0"),
        WsrepStatus::new("wsrep_local_send_queue_max", "1"),
        WsrepStatus::new("wsrep_local_send_queue_min", "0"),
        WsrepStatus::new("wsrep_local_send_queue_avg", "0.000000"),
        WsrepStatus::new("wsrep_local_recv_queue", "0"),
        WsrepStatus::new("wsrep_local_recv_queue_max", "1"),
        WsrepStatus::new("wsrep_local_recv_queue_min", "0"),
        WsrepStatus::new("wsrep_local_recv_queue_avg", "0.000000"),
        WsrepStatus::new("wsrep_local_cached_downto", "15122"),
        WsrepStatus::new("wsrep_flow_control_paused_ns", "0"),
        WsrepStatus::new("wsrep_flow_control_paused", "0.000000"),
        WsrepStatus::new("wsrep_flow_control_sent", "0"),
        WsrepStatus::new("wsrep_flow_control_recv", "0"),
        WsrepStatus::new("wsrep_cert_deps_distance", "3.114286"),
        WsrepStatus::new("wsrep_apply_oooe", "0.000000"),
        WsrepStatus::new("wsrep_apply_oool", "0.000000"),
        WsrepStatus::new("wsrep_apply_window", "1.000000"),
        WsrepStatus::new("wsrep_commit_oooe", "0.000000"),
        WsrepStatus::new("wsrep_commit_oool", "0.000000"),
        WsrepStatus::new("wsrep_commit_window", "1.000000"),
        WsrepStatus::new("wsrep_local_state", "4"),
        WsrepStatus::new("wsrep_local_state_comment", "Synced"),
        WsrepStatus::new("wsrep_cert_index_size", "47"),
        WsrepStatus::new("wsrep_cert_bucket_count", "58"),
        WsrepStatus::new("wsrep_gcache_pool_size", "18605"),
        WsrepStatus::new("wsrep_causal_reads", "0"),
        WsrepStatus::new("wsrep_cert_interval", "0.000000"),
        WsrepStatus::new("wsrep_incoming_addresses", "192.168.205.46:3306,192.168.205.47:3306,192.168.205.48:3306"),
        WsrepStatus::new("wsrep_desync_count", "0"),
        WsrepStatus::new("wsrep_evs_delayed", ""),
        WsrepStatus::new("wsrep_evs_evict_list", ""),
        WsrepStatus::new("wsrep_evs_repl_latency", "0/0/0/0/0"),
        WsrepStatus::new("wsrep_evs_state", "OPERATIONAL"),
        WsrepStatus::new("wsrep_gcomm_uuid", "49329803-8175-11e6-ac89-377dc5eb0077"),
        WsrepStatus::new("wsrep_cluster_conf_id", "21"),
        WsrepStatus::new("wsrep_cluster_size", "3"),
        WsrepStatus::new("wsrep_cluster_state_uuid", "5a62afb9-7f4a-11e6-a433-cb070bd9b4be"),
        WsrepStatus::new("wsrep_cluster_status", "Primary"),
        WsrepStatus::new("wsrep_connected", "ON"),
        WsrepStatus::new("wsrep_local_bf_aborts", "0"),
        WsrepStatus::new("wsrep_local_index", "0"),
        WsrepStatus::new("wsrep_provider_name", "Galera"),
        WsrepStatus::new("wsrep_provider_vendor", "Codership Oy <info@codership.com>"),
        WsrepStatus::new("wsrep_provider_version", "3.16(r5c765eb )"),
        WsrepStatus::new("wsrep_ready", "ON"),
    ]
}

#[test]
fn converted_samples_have_no_tags() {
    let samples = convert_to_metric(generate_test_data());
    assert!(samples.iter().all(|s| s.tags.is_empty()));
}

#[test]
fn wsrep_connected_on_is_zero() {
    let sample = wsrep_status_to_sample(&WsrepStatus::new("wsrep_connected", "ON")).unwrap();
    assert_eq!(sample.metric, "galera.wsrep.connected");
    assert!(matches!(sample.value, Value::Integer(0)));
}

#[test]
fn wsrep_connected_off_is_one() {
    let sample = wsrep_status_to_sample(&WsrepStatus::new("wsrep_connected", "OFF")).unwrap();
    assert_eq!(sample.metric, "galera.wsrep.connected");
    assert!(matches!(sample.value, Value::Integer(1)));
}

#[test]
fn wsrep_connected_other_gives_no_sample() {
    assert!(wsrep_status_to_sample(&WsrepStatus::new("wsrep_connected", "maybe")).is_none());
    assert!(wsrep_status_to_sample(&WsrepStatus::new("wsrep_ready", "")).is_none());
}

#[test]
fn wsrep_ready_follows_the_switch() {
    let on = wsrep_status_to_sample(&WsrepStatus::new("wsrep_ready", "on")).unwrap();
    let off = wsrep_status_to_sample(&WsrepStatus::new("wsrep_ready", "Off")).unwrap();
    assert!(matches!(on.value, Value::Integer(0)));
    assert!(matches!(off.value, Value::Integer(1)));
}

#[test]
fn states_other_than_the_good_one_are_one() {
    let evs = wsrep_status_to_sample(&WsrepStatus::new("wsrep_evs_state", "GATHER")).unwrap();
    assert_eq!(evs.metric, "galera.wsrep.evs.state");
    assert!(matches!(evs.value, Value::Integer(1)));
    let cluster =
        wsrep_status_to_sample(&WsrepStatus::new("wsrep_cluster_status", "non-Primary")).unwrap();
    assert!(matches!(cluster.value, Value::Integer(1)));
    let primary =
        wsrep_status_to_sample(&WsrepStatus::new("wsrep_cluster_status", "PRIMARY")).unwrap();
    assert!(matches!(primary.value, Value::Integer(0)));
}

#[test]
fn numbers_that_are_none_give_no_sample() {
    assert!(wsrep_status_to_sample(&WsrepStatus::new("wsrep_cluster_size", "three")).is_none());
    assert!(wsrep_status_to_sample(&WsrepStatus::new("wsrep_cluster_size", "")).is_none());
    let sample = wsrep_status_to_sample(&WsrepStatus::new("wsrep_cluster_size", "3")).unwrap();
    assert_eq!(number(&sample.value), 3.0);
}

#[test]
fn uuid_status_needs_a_node_part() {
    let short = WsrepStatus::new("wsrep_gcomm_uuid", "49329803");
    assert!(!short.is_convertible());
    let no_hex = WsrepStatus::new("wsrep_gcomm_uuid", "49329803-8175-11e6-ac89-zzzzzzzzzzzz");
    assert!(no_hex.is_convertible());
    assert!(wsrep_status_to_sample(&no_hex).is_none());
    assert!(WsrepStatus::new("wsrep_cluster_size", "3").is_convertible());
}

#[test]
fn classify_knows_the_kinds() {
    assert_eq!(classify("wsrep_local_state_uuid"), WsrepKind::Uuid);
    assert_eq!(classify("wsrep_cert_deps_distance"), WsrepKind::Number);
    assert_eq!(classify("wsrep_provider_name"), WsrepKind::Ignored);
    assert_eq!(classify("wsrep_evs_state"), WsrepKind::EvsState);
    assert_eq!(classify("wsrep_cluster_status"), WsrepKind::ClusterStatus);
    assert_eq!(classify("wsrep_connected"), WsrepKind::Switch);
    assert_eq!(classify("wsrep_ready"), WsrepKind::Switch);
    assert_eq!(classify("wsrep_brand_new"), WsrepKind::Unknown);
    assert!(wsrep_status_to_sample(&WsrepStatus::new("wsrep_brand_new", "1")).is_none());
}

#[test]
fn name_to_metric_puts_dots_for_underscores() {
    assert_eq!(name_to_metric("wsrep_local_recv_queue_avg"), "galera.wsrep.local.recv.queue.avg");
    assert_eq!(name_to_metric(""), "galera.");
}

#[test]
fn galera_metadata_is_the_same_on_every_call() {
    let first = metadata();
    let second = metadata();
    assert_eq!(first.len(), 51);
    assert_eq!(first[0].metric, "galera.wsrep.local.state.uuid");
    assert_eq!(first[0].rate, "gauge");
    assert_eq!(first[50].metric, "galera.wsrep.ready");
    assert_eq!(
        first[50].description,
        "Shows whether the node can accept queries. [0 = On, 1 = Off]"
    );
    for (a, b) in first.iter().zip(second.iter()) {
        assert_eq!(a.metric, b.metric);
        assert_eq!(a.rate, b.rate);
        assert_eq!(a.unit, b.unit);
        assert_eq!(a.description, b.description);
    }
}

#[test]
fn states_and_switches_from_lower_case() {
    assert_eq!(state_value("operational", "operational"), 0);
    assert_eq!(state_value("Operational", "operational"), 1);
    assert_eq!(state_value("", "primary"), 1);
    assert_eq!(switch_value("on"), Some(0));
    assert_eq!(switch_value("off"), Some(1));
    assert_eq!(switch_value("ON"), None);
    assert_eq!(switch_value(""), None);
    assert_eq!(switch_value("offf"), None);
}

#[test]
fn values_by_their_kind() {
    let number = value_number_to_decimal("wsrep_cert_deps_distance", "3.114286").unwrap();
    assert_eq!(number.metric, "galera.wsrep.cert.deps.distance");
    assert_eq!(number.value.text(), "3.114286");
    assert!(value_number_to_decimal("wsrep_cert_deps_distance", "3,1").is_none());
    let uuid =
        value_uuid_to_decimal("wsrep_gcomm_uuid", "49329803-8175-11e6-ac89-377dc5eb0077").unwrap();
    assert_eq!(uuid.metric, "galera.wsrep.gcomm.uuid");
    assert!(matches!(uuid.value, Value::Integer(61013330952311)));
    assert!(value_uuid_to_decimal("wsrep_gcomm_uuid", "49329803-8175-11e6-ac89-").is_none());
}
