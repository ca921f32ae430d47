//! Galera cluster status: from the `wsrep_` status variables to samples.

use vstd::prelude::*;
use crate::bosun::{
    descriptor, metadata_views, readings, Metadata, MetadataView, Rate, Reading, Sample, Value,
    ValueView,
};
use crate::collectors::Id;
use crate::config::Config;
use crate::number::{is_number, number_text};
use crate::text::{
    clone_opt, join2, lowercase_of, opt_or, opt_view, replace_char, replaced, same_text, text_or,
};
use crate::utils::{splits_at_24, uuid_to_decimal, uuid_to_decimal_spec};

verus! {

/// The views of a sequence of string slices, element by element.
pub open spec fn str_views(v: Seq<&str>) -> Seq<Seq<char>> {
    Seq::new(v.len(), |i: int| v[i]@)
}

/// The status variables that hold a UUID.
pub open spec fn uuid_names() -> Seq<Seq<char>> {
    seq![
        "wsrep_local_state_uuid"@,
        "wsrep_gcomm_uuid"@,
        "wsrep_cluster_state_uuid"@,
    ]
}

/// The status variables that hold a number.
pub open spec fn number_names() -> Seq<Seq<char>> {
    seq![
        "wsrep_protocol_version"@,
        "wsrep_last_committed"@,
        "wsrep_replicated"@,
        "wsrep_replicated_bytes"@,
        "wsrep_repl_keys"@,
        "wsrep_repl_keys_bytes"@,
        "wsrep_repl_data_bytes"@,
        "wsrep_repl_other_bytes"@,
        "wsrep_received"@,
        "wsrep_received_bytes"@,
        "wsrep_local_commits"@,
        "wsrep_local_cert_failures"@,
        "wsrep_local_replays"@,
        "wsrep_local_send_queue"@,
        "wsrep_local_send_queue_max"@,
        "wsrep_local_send_queue_min"@,
        "wsrep_local_send_queue_avg"@,
        "wsrep_local_recv_queue"@,
        "wsrep_local_recv_queue_max"@,
        "wsrep_local_recv_queue_min"@,
        "wsrep_local_recv_queue_avg"@,
        "wsrep_local_cached_downto"@,
        "wsrep_flow_control_paused_ns"@,
        "wsrep_flow_control_paused"@,
        "wsrep_flow_control_sent"@,
        "wsrep_flow_control_recv"@,
        "wsrep_cert_deps_distance"@,
        "wsrep_apply_oooe"@,
        "wsrep_apply_oool"@,
        "wsrep_apply_window"@,
        "wsrep_commit_oooe"@,
        "wsrep_commit_oool"@,
        "wsrep_commit_window"@,
        "wsrep_local_state"@,
        "wsrep_cert_index_size"@,
        "wsrep_cert_bucket_count"@,
        "wsrep_gcache_pool_size"@,
        "wsrep_causal_reads"@,
        "wsrep_cert_interval"@,
        "wsrep_desync_count"@,
        "wsrep_cluster_conf_id"@,
        "wsrep_cluster_size"@,
        "wsrep_local_bf_aborts"@,
        "wsrep_local_index"@,
    ]
}

/// The status variables that are known and give no sample: text for people,
/// addresses and the provider's name and version.
pub open spec fn ignored_names() -> Seq<Seq<char>> {
    seq![
        "wsrep_local_state_comment"@,
        "wsrep_incoming_addresses"@,
        "wsrep_evs_delayed"@,
        "wsrep_evs_evict_list"@,
        "wsrep_evs_repl_latency"@,
        "wsrep_provider_name"@,
        "wsrep_provider_vendor"@,
        "wsrep_provider_version"@,
    ]
}

/// How the value of a status variable is read.
#[derive(Clone, Copy, Debug, PartialEq, Eq, Structural)]
pub enum WsrepKind {
    /// A UUID, of which the node part is reported.
    Uuid,
    /// A number in decimal notation.
    Number,
    /// Known, and of no use as a sample.
    Ignored,
    /// The state of the group communication: 0 for operational, 1 otherwise.
    EvsState,
    /// The status of the cluster component: 0 for primary, 1 otherwise.
    ClusterStatus,
    /// A switch: 0 for on, 1 for off.
    Switch,
    /// A variable this collector has not heard of.
    Unknown,
}

/// How the value of the status variable `name` is read.
pub open spec fn wsrep_kind(name: Seq<char>) -> WsrepKind {
    if uuid_names().contains(name) {
        WsrepKind::Uuid
    } else if number_names().contains(name) {
        WsrepKind::Number
    } else if ignored_names().contains(name) {
        WsrepKind::Ignored
    } else if name == "wsrep_evs_state"@ {
        WsrepKind::EvsState
    } else if name == "wsrep_cluster_status"@ {
        WsrepKind::ClusterStatus
    } else if name == "wsrep_connected"@ || name == "wsrep_ready"@ {
        WsrepKind::Switch
    } else {
        WsrepKind::Unknown
    }
}

fn is_one_of(name: &str, list: &Vec<&'static str>) -> (r: bool)
    ensures
        r == str_views(list@).contains(name@),
{
    let mut i: usize = 0;
    while i < list.len()
        invariant
            i <= list.len(),
            forall|k: int| 0 <= k < i ==> str_views(list@)[k] != name@,
        decreases list.len() - i,
    {
        if same_text(name, list[i]) {
            assert(str_views(list@)[i as int] == name@);
            return true;
        }
        i += 1;
    }
    false
}

fn uuid_name_list() -> (r: Vec<&'static str>)
    ensures
        str_views(r@) == uuid_names(),
{
    let list: Vec<&'static str> = vec![
        "wsrep_local_state_uuid",
        "wsrep_gcomm_uuid",
        "wsrep_cluster_state_uuid",
    ];
    assert(str_views(list@) =~= uuid_names());
    list
}

fn number_name_list() -> (r: Vec<&'static str>)
    ensures
        str_views(r@) == number_names(),
{
    let list: Vec<&'static str> = vec![
        "wsrep_protocol_version",
        "wsrep_last_committed",
        "wsrep_replicated",
        "wsrep_replicated_bytes",
        "wsrep_repl_keys",
        "wsrep_repl_keys_bytes",
        "wsrep_repl_data_bytes",
        "wsrep_repl_other_bytes",
        "wsrep_received",
        "wsrep_received_bytes",
        "wsrep_local_commits",
        "wsrep_local_cert_failures",
        "wsrep_local_replays",
        "wsrep_local_send_queue",
        "wsrep_local_send_queue_max",
        "wsrep_local_send_queue_min",
        "wsrep_local_send_queue_avg",
        "wsrep_local_recv_queue",
        "wsrep_local_recv_queue_max",
        "wsrep_local_recv_queue_min",
        "wsrep_local_recv_queue_avg",
        "wsrep_local_cached_downto",
        "wsrep_flow_control_paused_ns",
        "wsrep_flow_control_paused",
        "wsrep_flow_control_sent",
        "wsrep_flow_control_recv",
        "wsrep_cert_deps_distance",
        "wsrep_apply_oooe",
        "wsrep_apply_oool",
        "wsrep_apply_window",
        "wsrep_commit_oooe",
        "wsrep_commit_oool",
        "wsrep_commit_window",
        "wsrep_local_state",
        "wsrep_cert_index_size",
        "wsrep_cert_bucket_count",
        "wsrep_gcache_pool_size",
        "wsrep_causal_reads",
        "wsrep_cert_interval",
        "wsrep_desync_count",
        "wsrep_cluster_conf_id",
        "wsrep_cluster_size",
        "wsrep_local_bf_aborts",
        "wsrep_local_index",
    ];
    assert(str_views(list@) =~= number_names());
    list
}

fn ignored_name_list() -> (r: Vec<&'static str>)
    ensures
        str_views(r@) == ignored_names(),
{
    let list: Vec<&'static str> = vec![
        "wsrep_local_state_comment",
        "wsrep_incoming_addresses",
        "wsrep_evs_delayed",
        "wsrep_evs_evict_list",
        "wsrep_evs_repl_latency",
        "wsrep_provider_name",
        "wsrep_provider_vendor",
        "wsrep_provider_version",
    ];
    assert(str_views(list@) =~= ignored_names());
    list
}

/// Tells how the value of the status variable `name` is read.
pub fn classify(name: &str) -> (r: WsrepKind)
    ensures
        r == wsrep_kind(name@),
{
    if is_one_of(name, &uuid_name_list()) {
        WsrepKind::Uuid
    } else if is_one_of(name, &number_name_list()) {
        WsrepKind::Number
    } else if is_one_of(name, &ignored_name_list()) {
        WsrepKind::Ignored
    } else if same_text(name, "wsrep_evs_state") {
        WsrepKind::EvsState
    } else if same_text(name, "wsrep_cluster_status") {
        WsrepKind::ClusterStatus
    } else if same_text(name, "wsrep_connected") || same_text(name, "wsrep_ready") {
        WsrepKind::Switch
    } else {
        WsrepKind::Unknown
    }
}

/// The descriptors of the metrics that the collector reports.
pub open spec fn metadata_spec() -> Seq<MetadataView> {
    seq![
        descriptor("galera.wsrep.local.state.uuid"@, Rate::Gauge, ""@, "Shows the cluster state UUID, which you can use to determine whether the node is part of the cluster."@),
        descriptor("galera.wsrep.protocol.version"@, Rate::Gauge, ""@, ""@),
        descriptor("galera.wsrep.last.committed"@, Rate::Gauge, ""@, ""@),
        descriptor("galera.wsrep.replicated"@, Rate::Gauge, ""@, ""@),
        descriptor("galera.wsrep.replicated.bytes"@, Rate::Gauge, ""@, ""@),
        descriptor("galera.wsrep.repl.keys"@, Rate::Gauge, ""@, ""@),
        descriptor("galera.wsrep.repl.keys.bytes"@, Rate::Gauge, ""@, ""@),
        descriptor("galera.wsrep.repl.data.bytes"@, Rate::Gauge, ""@, ""@),
        descriptor("galera.wsrep.repl.other.bytes"@, Rate::Gauge, ""@, ""@),
        descriptor("galera.wsrep.received"@, Rate::Gauge, ""@, ""@),
        descriptor("galera.wsrep.received.bytes"@, Rate::Gauge, ""@, ""@),
        descriptor("galera.wsrep.local.commits"@, Rate::Gauge, ""@, ""@),
        descriptor("galera.wsrep.local.cert.failures"@, Rate::Gauge, ""@, ""@),
        descriptor("galera.wsrep.local.replays"@, Rate::Gauge, ""@, ""@),
        descriptor("galera.wsrep.local.send.queue"@, Rate::Gauge, "Length"@, "Show the send queue length."@),
        descriptor("galera.wsrep.local.send.queue.max"@, Rate::Gauge, "Length"@, "Show the max queue length since the last status query."@),
        descriptor("galera.wsrep.local.send.queue.min"@, Rate::Gauge, "Length"@, "Show the min queue length since the last status query."@),
        descriptor("galera.wsrep.local.send.queue.avg"@, Rate::Gauge, "Length"@, "Show an average for the send queue length since the last status query."@),
        descriptor("galera.wsrep.local.recv.queue"@, Rate::Gauge, "Length"@, "Shows the size of the local received queue since the last status query."@),
        descriptor("galera.wsrep.local.recv.queue.max"@, Rate::Gauge, "Length"@, "Shows the max size of the local received queue since the last status query."@),
        descriptor("galera.wsrep.local.recv.queue.min"@, Rate::Gauge, "Length"@, "Shows the min size of the local received queue since the last status query."@),
        descriptor("galera.wsrep.local.recv.queue.avg"@, Rate::Gauge, "Length"@, "Shows the average size of the local received queue since the last status query."@),
        descriptor("galera.wsrep.local.cached.downto"@, Rate::Gauge, ""@, ""@),
        descriptor("galera.wsrep.flow.control.paused.ns"@, Rate::Gauge, ""@, ""@),
        descriptor("galera.wsrep.flow.control.paused"@, Rate::Gauge, "Fraction"@, "Shows the fraction of the time, since the status variable was last called, that the node paused due to Flow Control."@),
        descriptor("galera.wsrep.flow.control.sent"@, Rate::Gauge, ""@, ""@),
        descriptor("galera.wsrep.flow.control.recv"@, Rate::Gauge, ""@, ""@),
        descriptor("galera.wsrep.cert.deps.distance"@, Rate::Gauge, "Distance"@, "Shows the average distance between the lowest and highest sequence number, or seqno, values that the node can possibly apply in parallel."@),
        descriptor("galera.wsrep.apply.oooe"@, Rate::Gauge, ""@, ""@),
        descriptor("galera.wsrep.apply.oool"@, Rate::Gauge, ""@, ""@),
        descriptor("galera.wsrep.apply.window"@, Rate::Gauge, ""@, ""@),
        descriptor("galera.wsrep.commit.oooe"@, Rate::Gauge, ""@, ""@),
        descriptor("galera.wsrep.commit.oool"@, Rate::Gauge, ""@, ""@),
        descriptor("galera.wsrep.commit.window"@, Rate::Gauge, ""@, ""@),
        descriptor("galera.wsrep.local.state"@, Rate::Gauge, "State"@, "Shows the node state; the desired state is 'synced'. [1 = Joining (requesting/receiving State Transfer) - node is joining the cluster, 2 = Donor/Desynced - node is the donor to the node joining the cluster, 3 = Joined - node has joined the cluster, 4 = Synced - node is synced with the cluster]"@),
        descriptor("galera.wsrep.cert.index.size"@, Rate::Gauge, ""@, ""@),
        descriptor("galera.wsrep.cert.bucket.count"@, Rate::Gauge, ""@, ""@),
        descriptor("galera.wsrep.gcache.pool.size"@, Rate::Gauge, ""@, ""@),
        descriptor("galera.wsrep.causal.reads"@, Rate::Gauge, ""@, ""@),
        descriptor("galera.wsrep.cert.interval"@, Rate::Gauge, ""@, ""@),
        descriptor("galera.wsrep.desync.count"@, Rate::Gauge, ""@, ""@),
        descriptor("galera.wsrep.evs.state"@, Rate::Gauge, ""@, ""@),
        descriptor("galera.wsrep.gcomm.uuid"@, Rate::Gauge, ""@, ""@),
        descriptor("galera.wsrep.cluster.conf.id"@, Rate::Gauge, "changes"@, "Shows the total number of cluster changes that have happened, which you can use to determine whether or not the node is a part of the Primary Component."@),
        descriptor("galera.wsrep.cluster.size"@, Rate::Gauge, "nodes"@, "Shows the number of nodes in the cluster, which you can use to determine if any are missing."@),
        descriptor("galera.wsrep.cluster.state.uuid"@, Rate::Gauge, ""@, ""@),
        descriptor("galera.wsrep.cluster.status"@, Rate::Gauge, "Status"@, "Shows the primary status of the cluster component that the node is in, which you can use in determining whether your cluster is experiencing a partition. Possible values are [0 = Primary, 1 = Node is part of a nonoperational component.]"@),
        descriptor("galera.wsrep.connected"@, Rate::Gauge, ""@, "Shows whether the node has network connectivity with any other nodes. [0 = On, 1 = Off]"@),
        descriptor("galera.wsrep.local.bf.aborts"@, Rate::Gauge, ""@, ""@),
        descriptor("galera.wsrep.local.index"@, Rate::Gauge, ""@, ""@),
        descriptor("galera.wsrep.ready"@, Rate::Gauge, ""@, "Shows whether the node can accept queries. [0 = On, 1 = Off]"@),
    ]
}

/// The descriptors of the metrics that the collector reports, always the same.
pub fn metadata() -> (r: Vec<Metadata>)
    ensures
        metadata_views(r@) == metadata_spec(),
{
    let list: Vec<Metadata> = vec![
        Metadata::new("galera.wsrep.local.state.uuid", Rate::Gauge, "", "Shows the cluster state UUID, which you can use to determine whether the node is part of the cluster."),
        Metadata::new("galera.wsrep.protocol.version", Rate::Gauge, "", ""),
        Metadata::new("galera.wsrep.last.committed", Rate::Gauge, "", ""),
        Metadata::new("galera.wsrep.replicated", Rate::Gauge, "", ""),
        Metadata::new("galera.wsrep.replicated.bytes", Rate::Gauge, "", ""),
        Metadata::new("galera.wsrep.repl.keys", Rate::Gauge, "", ""),
        Metadata::new("galera.wsrep.repl.keys.bytes", Rate::Gauge, "", ""),
        Metadata::new("galera.wsrep.repl.data.bytes", Rate::Gauge, "", ""),
        Metadata::new("galera.wsrep.repl.other.bytes", Rate::Gauge, "", ""),
        Metadata::new("galera.wsrep.received", Rate::Gauge, "", ""),
        Metadata::new("galera.wsrep.received.bytes", Rate::Gauge, "", ""),
        Metadata::new("galera.wsrep.local.commits", Rate::Gauge, "", ""),
        Metadata::new("galera.wsrep.local.cert.failures", Rate::Gauge, "", ""),
        Metadata::new("galera.wsrep.local.replays", Rate::Gauge, "", ""),
        Metadata::new("galera.wsrep.local.send.queue", Rate::Gauge, "Length", "Show the send queue length."),
        Metadata::new("galera.wsrep.local.send.queue.max", Rate::Gauge, "Length", "Show the max queue length since the last status query."),
        Metadata::new("galera.wsrep.local.send.queue.min", Rate::Gauge, "Length", "Show the min queue length since the last status query."),
        Metadata::new("galera.wsrep.local.send.queue.avg", Rate::Gauge, "Length", "Show an average for the send queue length since the last status query."),
        Metadata::new("galera.wsrep.local.recv.queue", Rate::Gauge, "Length", "Shows the size of the local received queue since the last status query."),
        Metadata::new("galera.wsrep.local.recv.queue.max", Rate::Gauge, "Length", "Shows the max size of the local received queue since the last status query."),
        Metadata::new("galera.wsrep.local.recv.queue.min", Rate::Gauge, "Length", "Shows the min size of the local received queue since the last status query."),
        Metadata::new("galera.wsrep.local.recv.queue.avg", Rate::Gauge, "Length", "Shows the average size of the local received queue since the last status query."),
        Metadata::new("galera.wsrep.local.cached.downto", Rate::Gauge, "", ""),
        Metadata::new("galera.wsrep.flow.control.paused.ns", Rate::Gauge, "", ""),
        Metadata::new("galera.wsrep.flow.control.paused", Rate::Gauge, "Fraction", "Shows the fraction of the time, since the status variable was last called, that the node paused due to Flow Control."),
        Metadata::new("galera.wsrep.flow.control.sent", Rate::Gauge, "", ""),
        Metadata::new("galera.wsrep.flow.control.recv", Rate::Gauge, "", ""),
        Metadata::new("galera.wsrep.cert.deps.distance", Rate::Gauge, "Distance", "Shows the average distance between the lowest and highest sequence number, or seqno, values that the node can possibly apply in parallel."),
        Metadata::new("galera.wsrep.apply.oooe", Rate::Gauge, "", ""),
        Metadata::new("galera.wsrep.apply.oool", Rate::Gauge, "", ""),
        Metadata::new("galera.wsrep.apply.window", Rate::Gauge, "", ""),
        Metadata::new("galera.wsrep.commit.oooe", Rate::Gauge, "", ""),
        Metadata::new("galera.wsrep.commit.oool", Rate::Gauge, "", ""),
        Metadata::new("galera.wsrep.commit.window", Rate::Gauge, "", ""),
        Metadata::new("galera.wsrep.local.state", Rate::Gauge, "State", "Shows the node state; the desired state is 'synced'. [1 = Joining (requesting/receiving State Transfer) - node is joining the cluster, 2 = Donor/Desynced - node is the donor to the node joining the cluster, 3 = Joined - node has joined the cluster, 4 = Synced - node is synced with the cluster]"),
        Metadata::new("galera.wsrep.cert.index.size", Rate::Gauge, "", ""),
        Metadata::new("galera.wsrep.cert.bucket.count", Rate::Gauge, "", ""),
        Metadata::new("galera.wsrep.gcache.pool.size", Rate::Gauge, "", ""),
        Metadata::new("galera.wsrep.causal.reads", Rate::Gauge, "", ""),
        Metadata::new("galera.wsrep.cert.interval", Rate::Gauge, "", ""),
        Metadata::new("galera.wsrep.desync.count", Rate::Gauge, "", ""),
        Metadata::new("galera.wsrep.evs.state", Rate::Gauge, "", ""),
        Metadata::new("galera.wsrep.gcomm.uuid", Rate::Gauge, "", ""),
        Metadata::new("galera.wsrep.cluster.conf.id", Rate::Gauge, "changes", "Shows the total number of cluster changes that have happened, which you can use to determine whether or not the node is a part of the Primary Component."),
        Metadata::new("galera.wsrep.cluster.size", Rate::Gauge, "nodes", "Shows the number of nodes in the cluster, which you can use to determine if any are missing."),
        Metadata::new("galera.wsrep.cluster.state.uuid", Rate::Gauge, "", ""),
        Metadata::new("galera.wsrep.cluster.status", Rate::Gauge, "Status", "Shows the primary status of the cluster component that the node is in, which you can use in determining whether your cluster is experiencing a partition. Possible values are [0 = Primary, 1 = Node is part of a nonoperational component.]"),
        Metadata::new("galera.wsrep.connected", Rate::Gauge, "", "Shows whether the node has network connectivity with any other nodes. [0 = On, 1 = Off]"),
        Metadata::new("galera.wsrep.local.bf.aborts", Rate::Gauge, "", ""),
        Metadata::new("galera.wsrep.local.index", Rate::Gauge, "", ""),
        Metadata::new("galera.wsrep.ready", Rate::Gauge, "", "Shows whether the node can accept queries. [0 = On, 1 = Off]"),
    ];
    assert(metadata_views(list@) =~= metadata_spec());
    list
}

/// The metric under which the status variable `name` is reported.
pub open spec fn metric_name(name: Seq<char>) -> Seq<char> {
    "galera."@ + replaced(name, '_', '.')
}

/// The metric under which the status variable `name` is reported: the name
/// with dots for underscores, under `galera.`.
pub fn name_to_metric(name: &str) -> (r: String)
    ensures
        r@ == metric_name(name@),
{
    let dotted = replace_char(name, '_', '.');
    join2("galera.", dotted.as_str())
}

/// 0 where a state in lower case is the good one, 1 for any other.
pub open spec fn state_value_spec(lowered: Seq<char>, good: Seq<char>) -> int {
    if lowered == good {
        0
    } else {
        1
    }
}

/// 0 where the state `lowered`, given in lower case, is `good`, else 1.
pub fn state_value(lowered: &str, good: &str) -> (r: i64)
    ensures
        r == state_value_spec(lowered@, good@),
{
    if same_text(lowered, good) {
        0
    } else {
        1
    }
}

/// 0 for `on`, 1 for `off`, nothing for anything else.
pub open spec fn switch_value_spec(lowered: Seq<char>) -> Option<int> {
    if lowered == "on"@ {
        Some(0)
    } else if lowered == "off"@ {
        Some(1)
    } else {
        None
    }
}

/// The number for a switch whose position is given in lower case: 0 for
/// `on`, 1 for `off`; any other text is no position.
pub fn switch_value(lowered: &str) -> (r: Option<i64>)
    ensures
        match r {
            Some(v) => switch_value_spec(lowered@) == Some(v as int),
            None => switch_value_spec(lowered@) is None,
        },
{
    if same_text(lowered, "on") {
        Some(0)
    } else if same_text(lowered, "off") {
        Some(1)
    } else {
        None
    }
}

/// The value that the status variable `name` with the text `value` stands
/// for, if it stands for one.
pub open spec fn wsrep_value(name: Seq<char>, value: Seq<char>) -> Option<ValueView> {
    match wsrep_kind(name) {
        WsrepKind::Uuid => match uuid_to_decimal_spec(value) {
            Ok(d) => Some(ValueView::Integer(d)),
            Err(_) => None,
        },
        WsrepKind::Number => if number_text(value) {
            Some(ValueView::Decimal(value))
        } else {
            None
        },
        WsrepKind::EvsState => Some(
            ValueView::Integer(state_value_spec(lowercase_of(value), "operational"@)),
        ),
        WsrepKind::ClusterStatus => Some(
            ValueView::Integer(state_value_spec(lowercase_of(value), "primary"@)),
        ),
        WsrepKind::Switch => match switch_value_spec(lowercase_of(value)) {
            Some(v) => Some(ValueView::Integer(v)),
            None => None,
        },
        WsrepKind::Ignored => None,
        WsrepKind::Unknown => None,
    }
}

/// What the status variable `name` with the text `value` is reported as, if
/// it is reported.
pub open spec fn wsrep_reading(name: Seq<char>, value: Seq<char>) -> Option<Reading> {
    match wsrep_value(name, value) {
        Some(v) => Some(
            Reading {
                metric: metric_name(name),
                value: v,
                tags: Map::<Seq<char>, Seq<char>>::empty(),
            },
        ),
        None => None,
    }
}

/// The sample for a status variable whose value is a number in decimal
/// notation; none where the value is no such number.
pub fn value_number_to_decimal(name: &str, value: &str) -> (r: Option<Sample>)
    ensures
        match r {
            Some(s) => number_text(value@) && s.reading() == (Reading {
                metric: metric_name(name@),
                value: ValueView::Decimal(value@),
                tags: Map::<Seq<char>, Seq<char>>::empty(),
            }),
            None => !number_text(value@),
        },
{
    if is_number(value) {
        let metric = name_to_metric(name);
        Some(Sample::new(metric.as_str(), Value::Decimal(String::from_str(value))))
    } else {
        None
    }
}

/// The sample for a status variable whose value is a UUID: its node part as a
/// number; none where that part is no hexadecimal number. The 24th byte of
/// the value has to start a character.
pub fn value_uuid_to_decimal(name: &str, value: &str) -> (r: Option<Sample>)
    requires
        splits_at_24(value@),
    ensures
        match r {
            Some(s) => uuid_to_decimal_spec(value@) is Ok && s.reading() == (Reading {
                metric: metric_name(name@),
                value: ValueView::Integer(uuid_to_decimal_spec(value@)->Ok_0),
                tags: Map::<Seq<char>, Seq<char>>::empty(),
            }),
            None => uuid_to_decimal_spec(value@) is Err,
        },
{
    match uuid_to_decimal(value) {
        Ok(decimal) => {
            let metric = name_to_metric(name);
            Some(Sample::new(metric.as_str(), Value::Integer(decimal)))
        },
        Err(_) => None,
    }
}

/// One status variable as the database reports it.
#[derive(Debug)]
pub struct WsrepStatus {
    pub name: String,
    pub value: String,
}

impl WsrepStatus {
    pub fn new(name: &str, value: &str) -> (r: WsrepStatus)
        ensures
            r.name@ == name@,
            r.value@ == value@,
    {
        WsrepStatus { name: String::from_str(name), value: String::from_str(value) }
    }

    /// Whether the status can be turned into a sample: a status that holds a
    /// UUID needs a value whose 24th byte starts a character.
    pub open spec fn convertible(&self) -> bool {
        wsrep_kind(self.name@) == WsrepKind::Uuid ==> splits_at_24(self.value@)
    }

    /// Tells whether the status can be turned into a sample.
    pub fn is_convertible(&self) -> (r: bool)
        ensures
            r == self.convertible(),
    {
        match classify(self.name.as_str()) {
            WsrepKind::Uuid => self.value.as_str().is_char_boundary(24),
            _ => true,
        }
    }
}

/// The sample that a status variable is reported as, if it is reported:
/// numbers as they are, of a UUID the node part, states and switches as 0 and
/// 1; nothing for the variables that are ignored or unknown, nor for a value
/// that cannot be read.
pub fn wsrep_status_to_sample(status: &WsrepStatus) -> (r: Option<Sample>)
    requires
        status.convertible(),
    ensures
        match r {
            Some(s) => wsrep_reading(status.name@, status.value@) == Some(s.reading()),
            None => wsrep_reading(status.name@, status.value@) is None,
        },
{
    let name = status.name.as_str();
    let value = status.value.as_str();
    match classify(name) {
        WsrepKind::Uuid => value_uuid_to_decimal(name, value),
        WsrepKind::Number => value_number_to_decimal(name, value),
        WsrepKind::EvsState => {
            let lowered = value.to_lowercase();
            let state = state_value(lowered.as_str(), "operational");
            let metric = name_to_metric(name);
            Some(Sample::new(metric.as_str(), Value::Integer(state)))
        },
        WsrepKind::ClusterStatus => {
            let lowered = value.to_lowercase();
            let state = state_value(lowered.as_str(), "primary");
            let metric = name_to_metric(name);
            Some(Sample::new(metric.as_str(), Value::Integer(state)))
        },
        WsrepKind::Switch => {
            let lowered = value.to_lowercase();
            match switch_value(lowered.as_str()) {
                Some(position) => {
                    let metric = name_to_metric(name);
                    Some(Sample::new(metric.as_str(), Value::Integer(position)))
                },
                None => None,
            }
        },
        WsrepKind::Ignored => None,
        WsrepKind::Unknown => None,
    }
}

/// What a sequence of status variables is reported as: the readings of those
/// that are reported, in the order of the variables.
pub open spec fn wsrep_readings(statuses: Seq<WsrepStatus>) -> Seq<Reading>
    decreases statuses.len(),
{
    if statuses.len() == 0 {
        Seq::<Reading>::empty()
    } else {
        let front = wsrep_readings(statuses.drop_last());
        match wsrep_reading(statuses.last().name@, statuses.last().value@) {
            Some(r) => front.push(r),
            None => front,
        }
    }
}

/// Turns the status variables into samples, in their order, leaving out those
/// that give none.
pub fn convert_to_metric(statuses: Vec<WsrepStatus>) -> (r: Vec<Sample>)
    requires
        forall|i: int| 0 <= i < statuses.len() ==> (#[trigger] statuses[i]).convertible(),
    ensures
        readings(r@) == wsrep_readings(statuses@),
{
    let mut out: Vec<Sample> = Vec::new();
    let mut i: usize = 0;
    while i < statuses.len()
        invariant
            i <= statuses.len(),
            forall|k: int| 0 <= k < statuses.len() ==> (#[trigger] statuses[k]).convertible(),
            readings(out@) =~= wsrep_readings(statuses@.take(i as int)),
        decreases statuses.len() - i,
    {
        proof {
            assert(statuses@.take(i + 1).drop_last() =~= statuses@.take(i as int));
            assert(statuses@.take(i + 1).last() == statuses@[i as int]);
        }
        match wsrep_status_to_sample(&statuses[i]) {
            Some(sample) => {
                proof {
                    assert(readings(out@.push(sample)) =~= readings(out@).push(sample.reading()));
                }
                out.push(sample);
            },
            None => {},
        }
        i += 1;
    }
    assert(statuses@.take(statuses.len() as int) =~= statuses@);
    out
}


/// The settings of the collector: how to reach the database.
#[allow(non_snake_case)]
#[derive(Debug)]
pub struct GaleraConfig {
    pub User: Option<String>,
    pub Password: Option<String>,
    pub Socket: Option<String>,
    pub Host: Option<String>,
    pub UseSsl: Option<bool>,
    pub CaCert: Option<String>,
    pub ClientCert: Option<String>,
    pub ClientCertKey: Option<String>,
}

/// The Galera collector: how it reaches the database.
#[derive(Debug)]
pub struct Galera {
    id: Id,
    user: Option<String>,
    password: Option<String>,
    socket: Option<String>,
    ip_or_hostname: Option<String>,
    use_ssl: bool,
    ca_cert: Option<String>,
    client_cert: Option<String>,
    client_cert_key: Option<String>,
}

/// The collector over sequences of characters.
pub struct GaleraView {
    pub id: Seq<char>,
    pub user: Option<Seq<char>>,
    pub password: Option<Seq<char>>,
    pub socket: Option<Seq<char>>,
    pub ip_or_hostname: Option<Seq<char>>,
    pub use_ssl: bool,
    pub ca_cert: Option<Seq<char>>,
    pub client_cert: Option<Seq<char>>,
    pub client_cert_key: Option<Seq<char>>,
}

impl View for Galera {
    type V = GaleraView;

    closed spec fn view(&self) -> GaleraView {
        GaleraView {
            id: self.id@,
            user: opt_view(self.user),
            password: opt_view(self.password),
            socket: opt_view(self.socket),
            ip_or_hostname: opt_view(self.ip_or_hostname),
            use_ssl: self.use_ssl,
            ca_cert: opt_view(self.ca_cert),
            client_cert: opt_view(self.client_cert),
            client_cert_key: opt_view(self.client_cert_key),
        }
    }
}

/// The identity of the collector: the user and where the database listens.
pub open spec fn id_of(cfg: GaleraConfig) -> Seq<char> {
    "galera#"@ + opt_or(cfg.User, "''"@) + "@"@ + opt_or(cfg.Socket, ""@) + opt_or(cfg.Host, ""@)
}

/// The collector that the settings ask for.
pub open spec fn configured(cfg: GaleraConfig) -> GaleraView {
    GaleraView {
        id: id_of(cfg),
        user: opt_view(cfg.User),
        password: opt_view(cfg.Password),
        socket: opt_view(cfg.Socket),
        ip_or_hostname: opt_view(cfg.Host),
        use_ssl: cfg.UseSsl == Some(true),
        ca_cert: opt_view(cfg.CaCert),
        client_cert: opt_view(cfg.ClientCert),
        client_cert_key: opt_view(cfg.ClientCertKey),
    }
}

/// Whether the settings can be used: SSL needs the certificate of the
/// authority, and a client certificate needs its key.
pub open spec fn usable(cfg: GaleraConfig) -> bool {
    !(cfg.UseSsl == Some(true) && cfg.CaCert is None) && !(cfg.ClientCert is Some
        && cfg.ClientCertKey is None)
}

/// The collector for the configuration: one where it has a table for Galera
/// whose settings can be used, none else.
pub fn create_instances(config: &Config) -> (r: Vec<Galera>)
    ensures
        match config.Galera {
            Some(cfg) => if usable(cfg) {
                r.len() == 1 && r[0]@ == configured(cfg)
            } else {
                r.len() == 0
            },
            None => r.len() == 0,
        },
{
    match &config.Galera {
        Some(cfg) => {
            let mut id = String::from_str("galera#");
            id.append(text_or(&cfg.User, "''"));
            id.append("@");
            id.append(text_or(&cfg.Socket, ""));
            id.append(text_or(&cfg.Host, ""));
            let use_ssl = match cfg.UseSsl {
                Some(flag) => flag,
                None => false,
            };
            let collector = Galera {
                id: id,
                user: clone_opt(&cfg.User),
                password: clone_opt(&cfg.Password),
                socket: clone_opt(&cfg.Socket),
                ip_or_hostname: clone_opt(&cfg.Host),
                use_ssl: use_ssl,
                ca_cert: clone_opt(&cfg.CaCert),
                client_cert: clone_opt(&cfg.ClientCert),
                client_cert_key: clone_opt(&cfg.ClientCertKey),
            };
            if collector.use_ssl && collector.ca_cert.is_none() {
                Vec::new()
            } else if collector.client_cert.is_some() && collector.client_cert_key.is_none() {
                Vec::new()
            } else {
                let list: Vec<Galera> = vec![collector];
                list
            }
        },
        None => Vec::new(),
    }
}

/// What the database client is told about SSL.
#[derive(Debug)]
pub enum SslOpts {
    /// Nothing: SSL is not asked for.
    Unset,
    /// That SSL is off: it is asked for, but the authority's certificate is
    /// missing.
    Off,
    /// The authority's certificate, and the client's certificate with its key
    /// where both are there.
    On { ca_cert: String, client: Option<(String, String)> },
}

/// What the client is told about SSL, over sequences of characters.
pub enum SslOptsView {
    Unset,
    Off,
    On { ca_cert: Seq<char>, client: Option<(Seq<char>, Seq<char>)> },
}

impl View for SslOpts {
    type V = SslOptsView;

    open spec fn view(&self) -> SslOptsView {
        match self {
            SslOpts::Unset => SslOptsView::Unset,
            SslOpts::Off => SslOptsView::Off,
            SslOpts::On { ca_cert, client } => SslOptsView::On {
                ca_cert: ca_cert@,
                client: match client {
                    Some((cert, key)) => Some((cert@, key@)),
                    None => None,
                },
            },
        }
    }
}

/// What the database client is told about SSL for a collector.
pub open spec fn ssl_opts_of(g: GaleraView) -> SslOptsView {
    if !g.use_ssl {
        SslOptsView::Unset
    } else {
        match (g.ca_cert, g.client_cert, g.client_cert_key) {
            (Some(ca), Some(cert), Some(key)) => SslOptsView::On {
                ca_cert: ca,
                client: Some((cert, key)),
            },
            (Some(ca), _, _) => SslOptsView::On { ca_cert: ca, client: None },
            _ => SslOptsView::Off,
        }
    }
}

impl Galera {
    pub fn id(&self) -> (r: &Id)
        ensures
            r@ == self@.id,
    {
        &self.id
    }

    /// The user of the database, if one is set.
    pub fn user(&self) -> (r: &Option<String>)
        ensures
            opt_view(*r) == self@.user,
    {
        &self.user
    }

    /// The user's password, if one is set.
    pub fn password(&self) -> (r: &Option<String>)
        ensures
            opt_view(*r) == self@.password,
    {
        &self.password
    }

    /// The socket of the database, if one is set.
    pub fn socket(&self) -> (r: &Option<String>)
        ensures
            opt_view(*r) == self@.socket,
    {
        &self.socket
    }

    /// The host of the database, if one is set.
    pub fn ip_or_hostname(&self) -> (r: &Option<String>)
        ensures
            opt_view(*r) == self@.ip_or_hostname,
    {
        &self.ip_or_hostname
    }

    /// Whether the socket is preferred to the network: it is where one is set.
    pub fn prefer_socket(&self) -> (r: bool)
        ensures
            r == self@.socket is Some,
    {
        self.socket.is_some()
    }

    /// What the database client is told about SSL.
    pub fn ssl_opts(&self) -> (r: SslOpts)
        ensures
            r@ == ssl_opts_of(self@),
    {
        if !self.use_ssl {
            return SslOpts::Unset;
        }
        match &self.ca_cert {
            None => SslOpts::Off,
            Some(ca) => match (&self.client_cert, &self.client_cert_key) {
                (Some(cert), Some(key)) => SslOpts::On {
                    ca_cert: ca.clone(),
                    client: Some((cert.clone(), key.clone())),
                },
                _ => SslOpts::On { ca_cert: ca.clone(), client: None },
            },
        }
    }

    /// The descriptors of the metrics that the collector reports.
    pub fn metadata(&self) -> (r: Vec<Metadata>)
        ensures
            metadata_views(r@) == metadata_spec(),
    {
        metadata()
    }
}


} // verus!
