//! MongoDB: server and replica set status.

use vstd::prelude::*;
use crate::bosun::{
    add_sample, add_tag, descriptor, metadata_views, readings, with_reading, with_tag, Metadata,
    MetadataView, Rate, Reading, Sample, Tags, Value, ValueView,
};
use crate::collectors::{Error, ErrorView, Id};
use crate::config::Config;
use crate::number::{decimal_of, decimal_text};
use crate::text::{clone_opt, join2, opt_or, opt_view, text_or};

verus! {

/// Which members of a replica set are asked.
#[derive(Clone, Copy, Debug, PartialEq, Eq, Structural)]
pub enum ReadPreference {
    Primary,
    PrimaryPreferred,
    Secondary,
    SecondaryPreferred,
    Nearest,
}

/// One MongoDB server to watch.
#[allow(non_snake_case)]
#[derive(Debug)]
pub struct MongoConfig {
    pub Name: String,
    pub Host: String,
    pub Port: u16,
    pub User: Option<String>,
    pub Password: Option<String>,
    pub UseSsl: Option<bool>,
    pub CaCert: Option<String>,
    pub ClientCert: Option<String>,
    pub ClientCertKey: Option<String>,
    pub ReadPreference: Option<ReadPreference>,
}

/// The collector of one MongoDB server.
#[derive(Debug)]
pub struct Mongo {
    id: Id,
    name: String,
    user: Option<String>,
    password: Option<String>,
    use_ssl: bool,
    ca_cert: Option<String>,
    client_cert: Option<String>,
    client_cert_key: Option<String>,
    ip_or_hostname: String,
    port: u16,
    read_preference: Option<ReadPreference>,
}

/// The collector over sequences of characters.
pub struct MongoView {
    pub id: Seq<char>,
    pub name: Seq<char>,
    pub user: Option<Seq<char>>,
    pub password: Option<Seq<char>>,
    pub use_ssl: bool,
    pub ca_cert: Option<Seq<char>>,
    pub client_cert: Option<Seq<char>>,
    pub client_cert_key: Option<Seq<char>>,
    pub ip_or_hostname: Seq<char>,
    pub port: u16,
    pub read_preference: Option<ReadPreference>,
}

impl View for Mongo {
    type V = MongoView;

    closed spec fn view(&self) -> MongoView {
        MongoView {
            id: self.id@,
            name: self.name@,
            user: opt_view(self.user),
            password: opt_view(self.password),
            use_ssl: self.use_ssl,
            ca_cert: opt_view(self.ca_cert),
            client_cert: opt_view(self.client_cert),
            client_cert_key: opt_view(self.client_cert_key),
            ip_or_hostname: self.ip_or_hostname@,
            port: self.port,
            read_preference: self.read_preference,
        }
    }
}

/// The views of a sequence of collectors, element by element.
pub open spec fn mongo_views(v: Seq<Mongo>) -> Seq<MongoView> {
    Seq::new(v.len(), |i: int| v[i]@)
}

/// The identity of the collector for a server: its name, the user and where
/// it listens.
pub open spec fn id_of(cfg: MongoConfig) -> Seq<char> {
    "mongo#"@ + cfg.Name@ + "#"@ + opt_or(cfg.User, "''"@) + "@"@ + cfg.Host@ + ":"@ + decimal_of(
        cfg.Port as int,
    )
}

/// The collector that the settings of a server ask for.
pub open spec fn configured(cfg: MongoConfig) -> MongoView {
    MongoView {
        id: id_of(cfg),
        name: cfg.Name@,
        user: opt_view(cfg.User),
        password: opt_view(cfg.Password),
        use_ssl: cfg.UseSsl == Some(true),
        ca_cert: opt_view(cfg.CaCert),
        client_cert: opt_view(cfg.ClientCert),
        client_cert_key: opt_view(cfg.ClientCertKey),
        ip_or_hostname: cfg.Host@,
        port: cfg.Port,
        read_preference: cfg.ReadPreference,
    }
}

/// Whether the settings of a server can be used: SSL needs the certificate of
/// the authority, and a client certificate needs its key.
pub open spec fn usable(cfg: MongoConfig) -> bool {
    !(cfg.UseSsl == Some(true) && cfg.CaCert is None) && !(cfg.ClientCert is Some
        && cfg.ClientCertKey is None)
}

/// The collectors for the first `n` servers: one for each whose settings can
/// be used, in order.
pub open spec fn instances(configs: Seq<MongoConfig>, n: int) -> Seq<MongoView>
    decreases n,
{
    if n <= 0 || n > configs.len() {
        Seq::<MongoView>::empty()
    } else if usable(configs[n - 1]) {
        instances(configs, n - 1).push(configured(configs[n - 1]))
    } else {
        instances(configs, n - 1)
    }
}

/// The collectors for the configuration: one for each server whose settings
/// can be used.
pub fn create_instances(config: &Config) -> (r: Vec<Mongo>)
    ensures
        mongo_views(r@) == instances(config.Mongo@, config.Mongo.len() as int),
{
    let mut collectors: Vec<Mongo> = Vec::new();
    assert(mongo_views(collectors@) =~= Seq::<MongoView>::empty());
    let mut i: usize = 0;
    while i < config.Mongo.len()
        invariant
            i <= config.Mongo.len(),
            mongo_views(collectors@) == instances(config.Mongo@, i as int),
        decreases config.Mongo.len() - i,
    {
        let m = &config.Mongo[i];
        let mut id = String::from_str("mongo#");
        id.append(m.Name.as_str());
        id.append("#");
        id.append(text_or(&m.User, "''"));
        id.append("@");
        id.append(m.Host.as_str());
        id.append(":");
        id.append(decimal_text(m.Port as i64).as_str());
        let use_ssl = match m.UseSsl {
            Some(flag) => flag,
            None => false,
        };
        let collector = Mongo {
            id: id,
            name: m.Name.clone(),
            user: clone_opt(&m.User),
            password: clone_opt(&m.Password),
            use_ssl: use_ssl,
            ca_cert: clone_opt(&m.CaCert),
            client_cert: clone_opt(&m.ClientCert),
            client_cert_key: clone_opt(&m.ClientCertKey),
            ip_or_hostname: m.Host.clone(),
            port: m.Port,
            read_preference: m.ReadPreference,
        };
        if collector.use_ssl && collector.ca_cert.is_none() {
        } else if collector.client_cert.is_some() && collector.client_cert_key.is_none() {
        } else {
            proof {
                assert(collector@ == configured(config.Mongo@[i as int]));
                assert(mongo_views(collectors@.push(collector)) =~= mongo_views(
                    collectors@,
                ).push(collector@));
            }
            collectors.push(collector);
        }
        i += 1;
    }
    collectors
}

/// How the connection to a server is secured.
#[derive(Debug)]
pub enum SslMode {
    /// Not at all.
    Plain,
    /// The server is checked against the authority's certificate.
    Unauthenticated { ca_cert: String },
    /// As before, and the client shows its own certificate.
    Authenticated { ca_cert: String, client_cert: String, client_cert_key: String },
}

/// How the connection is secured, over sequences of characters.
pub enum SslModeView {
    Plain,
    Unauthenticated { ca_cert: Seq<char> },
    Authenticated { ca_cert: Seq<char>, client_cert: Seq<char>, client_cert_key: Seq<char> },
}

impl View for SslMode {
    type V = SslModeView;

    open spec fn view(&self) -> SslModeView {
        match self {
            SslMode::Plain => SslModeView::Plain,
            SslMode::Unauthenticated { ca_cert } => SslModeView::Unauthenticated {
                ca_cert: ca_cert@,
            },
            SslMode::Authenticated {
                ca_cert,
                client_cert,
                client_cert_key,
            } => SslModeView::Authenticated {
                ca_cert: ca_cert@,
                client_cert: client_cert@,
                client_cert_key: client_cert_key@,
            },
        }
    }
}

/// How the connection is secured: with all three files the client shows its
/// certificate, with the authority's certificate alone only the server is
/// checked, and with any other choice of files the connection is plain.
pub open spec fn ssl_mode_of(m: MongoView) -> SslModeView {
    match (m.ca_cert, m.client_cert, m.client_cert_key) {
        (Some(ca), Some(cert), Some(key)) => SslModeView::Authenticated {
            ca_cert: ca,
            client_cert: cert,
            client_cert_key: key,
        },
        (Some(ca), None, None) => SslModeView::Unauthenticated { ca_cert: ca },
        _ => SslModeView::Plain,
    }
}

/// The descriptors of the metrics that the collector reports.
pub open spec fn metadata_spec() -> Seq<MetadataView> {
    seq![
        descriptor("mongo.connections.current"@, Rate::Gauge, ""@, "The number of incoming connections from clients to the database server . This number includes the current shell session. Consider the value of connections.available to add more context to this datum. The value will include all incoming connections including any shell connections or connections from other servers, such as replica set members or mongos instances."@),
        descriptor("mongo.connections.available"@, Rate::Gauge, ""@, "The number of unused incoming connections available. Consider this value in combination with the value of connections.current to understand the connection load on the database, and the UNIX ulimit Settings document for more information about system thresholds on available connections."@),
        descriptor("mongo.connections.totalCreated"@, Rate::Counter, ""@, "Count of all incoming connections created to the server. This number includes connections that have since closed."@),
        descriptor("mongo.opcounters.insert"@, Rate::Gauge, ""@, "The total number of insert operations received since the mongod instance last started."@),
        descriptor("mongo.opcounters.query"@, Rate::Gauge, ""@, "The total number of queries received since the mongod instance last started."@),
        descriptor("mongo.opcounters.update"@, Rate::Gauge, ""@, "The total number of update operations received since the mongod instance last started."@),
        descriptor("mongo.opcounters.delete"@, Rate::Gauge, ""@, "The total number of delete operations since the mongod instance last started."@),
        descriptor("mongo.opcounters.getmore"@, Rate::Gauge, ""@, "The total number of “getmore” operations since the mongod instance last started. This counter can be high even if the query count is low. Secondary nodes send getMore operations as part of the replication process."@),
        descriptor("mongo.opcounters.command"@, Rate::Gauge, ""@, "The total number of commands issued to the database since the mongod instance last started. opcounters.command counts all commands except the write commands: insert, update, and delete."@),
        descriptor("mongo.replicasets.members.mystate"@, Rate::Gauge, ""@, "Show the local replica set state: 0 = startup, 1 = primary, 2 = secondary, 3 = recovering, 5 = startup2, 6 = unknown, 7 = arbiter, 8 = down, 9 = rollback, 10 = removed"@),
        descriptor("mongo.replicasets.oplog_lag.min"@, Rate::Gauge, "ms"@, "Show the min. oplog replication lag between the primary and its secondaries. This value is measured only on the replica set's primary."@),
        descriptor("mongo.replicasets.oplog_lag.avg"@, Rate::Gauge, "ms"@, "Show the avg. oplog replication lag between the primary and its secondaries. This value is measured only on the replica set's primary."@),
        descriptor("mongo.replicasets.oplog_lag.max"@, Rate::Gauge, "ms"@, "Show the max. oplog replication lag between the primary and its secondaries. This value is measured only on the replica set's primary."@),
    ]
}

/// The connections of a server.
#[derive(Debug)]
pub struct Connections {
    pub current: Option<i32>,
    pub available: Option<i32>,
    pub total_created: Option<i64>,
}

/// The operations that a server has counted.
#[derive(Debug)]
pub struct OpCounters {
    pub insert: Option<i32>,
    pub query: Option<i32>,
    pub update: Option<i32>,
    pub delete: Option<i32>,
    pub getmore: Option<i32>,
    pub command: Option<i32>,
}

/// What is read of a server's status document; an element that is missing or
/// of another type than expected is none.
#[derive(Debug)]
pub struct ServerStatus {
    pub version: Option<String>,
    pub process: Option<String>,
    pub connections: Option<Connections>,
    pub opcounters: Option<OpCounters>,
}

/// A count as an integer, where there is one.
pub open spec fn count(x: Option<i32>) -> Option<int> {
    match x {
        Some(v) => Some(v as int),
        None => None,
    }
}

/// The tags of the samples of a server's status: its version and the kind of
/// its process, as far as known, and `name`, the name of the server.
pub open spec fn server_tags(status: ServerStatus, name: Seq<char>) -> Map<Seq<char>, Seq<char>> {
    let t = Map::<Seq<char>, Seq<char>>::empty();
    let t = with_tag(t, "version"@, opt_view(status.version));
    let t = with_tag(t, "process"@, opt_view(status.process));
    t.insert("name"@, name)
}

/// What is reported of a server's status: its connections, then the
/// operations it has counted, each as far as known.
pub open spec fn server_readings(status: ServerStatus, name: Seq<char>) -> Seq<Reading> {
    let tags = server_tags(status, name);
    let r = Seq::<Reading>::empty();
    let r = match status.connections {
        Some(c) => {
            let r = with_reading(r, "mongo.connections.current"@, count(c.current), tags);
            let r = with_reading(r, "mongo.connections.available"@, count(c.available), tags);
            with_reading(
                r,
                "mongo.connections.totalCreated"@,
                match c.total_created {
                    Some(v) => Some(v as int),
                    None => None,
                },
                tags,
            )
        },
        None => r,
    };
    match status.opcounters {
        Some(o) => {
            let r = with_reading(r, "mongo.opcounters.insert"@, count(o.insert), tags);
            let r = with_reading(r, "mongo.opcounters.query"@, count(o.query), tags);
            let r = with_reading(r, "mongo.opcounters.update"@, count(o.update), tags);
            let r = with_reading(r, "mongo.opcounters.delete"@, count(o.delete), tags);
            let r = with_reading(r, "mongo.opcounters.getmore"@, count(o.getmore), tags);
            with_reading(r, "mongo.opcounters.command"@, count(o.command), tags)
        },
        None => r,
    }
}

fn widened(x: Option<i32>) -> (r: Option<i64>)
    ensures
        r == match x {
            Some(v) => Some(v as i64),
            None => None,
        },
{
    match x {
        Some(v) => Some(v as i64),
        None => None,
    }
}

/// An element of the members array of a replica set's status.
#[derive(Debug)]
pub enum MemberDoc {
    /// The element is no document.
    NoDocument,
    /// The element is a document with this state and this time of the last
    /// operation, in milliseconds since the epoch; each is none where it is
    /// missing or of another type than expected.
    Document { state: Option<i32>, optime_ms: Option<i64> },
}

/// What is read of a replica set's status document.
#[derive(Debug)]
pub struct ReplSetStatus {
    /// Whether the document has no element at all.
    pub is_empty: bool,
    /// The name of the replica set.
    pub set: Option<String>,
    /// The state of the server that was asked.
    pub my_state: Option<i32>,
    /// The members array, if the document has one.
    pub members: Option<Vec<MemberDoc>>,
}

/// How far the secondaries of a replica set are behind its primary.
#[derive(Debug)]
pub struct OplogLag {
    /// The sample of the least lag.
    pub min: Sample,
    /// The sample of the greatest lag.
    pub max: Sample,
    /// The lag of each secondary, in milliseconds and in the order of the
    /// members; the caller reports their mean between the two samples.
    pub lags: Vec<i64>,
    /// The tags of the samples of the lag.
    pub tags: Tags,
}

/// What is reported of a replica set's status.
#[derive(Debug)]
pub struct ReplicaSetReport {
    /// The samples; the caller adds those of the lag behind them.
    pub samples: Vec<Sample>,
    /// The lag, for a primary whose members could be read.
    pub oplog_lag: Option<OplogLag>,
}

/// Whether `m` is one of the lags, and none of them is less.
pub open spec fn is_least(lags: Seq<i64>, m: i64) -> bool {
    lags.contains(m) && forall|k: int| 0 <= k < lags.len() ==> m <= lags[k]
}

/// Whether `m` is one of the lags, and none of them is greater.
pub open spec fn is_greatest(lags: Seq<i64>, m: i64) -> bool {
    lags.contains(m) && forall|k: int| 0 <= k < lags.len() ==> lags[k] <= m
}

/// Whether `v` is the value of the sample of the least lag: the least of the
/// lags, and infinity where there is no secondary.
pub open spec fn is_least_value(lags: Seq<i64>, v: ValueView) -> bool {
    match v {
        ValueView::Integer(m) => i64::MIN <= m <= i64::MAX && is_least(lags, m as i64),
        ValueView::Decimal(t) => lags.len() == 0 && t == "inf"@,
    }
}

/// Whether `v` is the value of the sample of the greatest lag: the greatest
/// of the lags, and minus infinity where there is no secondary.
pub open spec fn is_greatest_value(lags: Seq<i64>, v: ValueView) -> bool {
    match v {
        ValueView::Integer(m) => i64::MIN <= m <= i64::MAX && is_greatest(lags, m as i64),
        ValueView::Decimal(t) => lags.len() == 0 && t == "-inf"@,
    }
}

/// The least of the lags, if there is a lag.
pub fn least_lag(lags: &Vec<i64>) -> (r: Option<i64>)
    ensures
        match r {
            Some(m) => is_least(lags@, m),
            None => lags.len() == 0,
        },
{
    if lags.len() == 0 {
        return None;
    }
    let mut m = lags[0];
    let mut i: usize = 1;
    while i < lags.len()
        invariant
            1 <= i <= lags.len(),
            lags@.contains(m),
            forall|k: int| 0 <= k < i ==> m <= lags[k],
        decreases lags.len() - i,
    {
        if lags[i] < m {
            m = lags[i];
        }
        i += 1;
    }
    Some(m)
}

/// The greatest of the lags, if there is a lag.
pub fn greatest_lag(lags: &Vec<i64>) -> (r: Option<i64>)
    ensures
        match r {
            Some(m) => is_greatest(lags@, m),
            None => lags.len() == 0,
        },
{
    if lags.len() == 0 {
        return None;
    }
    let mut m = lags[0];
    let mut i: usize = 1;
    while i < lags.len()
        invariant
            1 <= i <= lags.len(),
            lags@.contains(m),
            forall|k: int| 0 <= k < i ==> lags[k] <= m,
        decreases lags.len() - i,
    {
        if lags[i] > m {
            m = lags[i];
        }
        i += 1;
    }
    Some(m)
}

/// The difference of two times in milliseconds, kept within 64 bits.
pub open spec fn lag_between(primary: i64, secondary: i64) -> i64 {
    let d = primary - secondary;
    if d > i64::MAX {
        i64::MAX
    } else if d < i64::MIN {
        i64::MIN
    } else {
        d as i64
    }
}

/// The error for a status without a members array.
pub open spec fn no_members() -> ErrorView {
    ErrorView::CollectionError("Cloud not parse members array."@)
}

/// What is wrong with a member, if anything: it is no document, or its
/// state or the time of its last operation is missing.
pub open spec fn member_error(m: MemberDoc) -> Option<ErrorView> {
    match m {
        MemberDoc::NoDocument => Some(ErrorView::CollectionError("Invalid member format."@)),
        MemberDoc::Document { state, optime_ms } => if state is None {
            Some(ErrorView::CollectionError("Missing 'state' element in member document."@))
        } else if optime_ms is None {
            Some(ErrorView::CollectionError("Missing 'optimeDate' element in member document."@))
        } else {
            None
        },
    }
}

/// The first thing that is wrong with one of the first `n` members.
pub open spec fn first_member_error(members: Seq<MemberDoc>, n: int) -> Option<ErrorView>
    decreases n,
{
    if n <= 0 || n > members.len() {
        None
    } else {
        match first_member_error(members, n - 1) {
            Some(e) => Some(e),
            None => member_error(members[n - 1]),
        }
    }
}

/// The time of the last operation of the primary among the first `n`
/// members: of the last of them in state 1.
pub open spec fn primary_time(members: Seq<MemberDoc>, n: int) -> Option<i64>
    decreases n,
{
    if n <= 0 || n > members.len() {
        None
    } else {
        match members[n - 1] {
            MemberDoc::Document { state: Some(1i32), optime_ms: Some(t) } => Some(t),
            _ => primary_time(members, n - 1),
        }
    }
}

/// The times of the last operations of the secondaries among the first `n`
/// members: of those in another state than 1, in order.
pub open spec fn secondary_times(members: Seq<MemberDoc>, n: int) -> Seq<i64>
    decreases n,
{
    if n <= 0 || n > members.len() {
        Seq::<i64>::empty()
    } else {
        match members[n - 1] {
            MemberDoc::Document { state: Some(s), optime_ms: Some(t) } => if s != 1 {
                secondary_times(members, n - 1).push(t)
            } else {
                secondary_times(members, n - 1)
            },
            _ => secondary_times(members, n - 1),
        }
    }
}

/// The error for members without a primary.
pub open spec fn no_primary() -> ErrorView {
    ErrorView::CollectionError("No primary found in members array."@)
}

/// How far each secondary is behind the primary, or why that cannot be
/// told.
pub open spec fn oplog_lag_spec(members: Option<Vec<MemberDoc>>) -> Result<Seq<i64>, ErrorView> {
    match members {
        None => Err(no_members()),
        Some(list) => match first_member_error(list@, list@.len() as int) {
            Some(e) => Err(e),
            None => match primary_time(list@, list@.len() as int) {
                None => Err(no_primary()),
                Some(p) => Ok(
                    Seq::new(
                        secondary_times(list@, list@.len() as int).len(),
                        |i: int| lag_between(p, secondary_times(list@, list@.len() as int)[i]),
                    ),
                ),
            },
        },
    }
}

/// Once something is wrong with a member, it stays the first thing wrong.
proof fn lemma_member_error_stays(members: Seq<MemberDoc>, n: int, m: int)
    requires
        0 < n <= m <= members.len(),
        first_member_error(members, n) is Some,
    ensures
        first_member_error(members, m) == first_member_error(members, n),
    decreases m - n,
{
    if n < m {
        lemma_member_error_stays(members, n, m - 1);
    }
}

/// Tells how far each secondary of a replica set is behind its primary, in
/// milliseconds: the primary's time of the last operation less that of the
/// secondary.
pub fn calculate_oplog_lag(members: &Option<Vec<MemberDoc>>) -> (r: Result<Vec<i64>, Error>)
    ensures
        match r {
            Ok(v) => oplog_lag_spec(*members) == Ok::<Seq<i64>, ErrorView>(v@),
            Err(e) => oplog_lag_spec(*members) == Err::<Seq<i64>, ErrorView>(e@),
        },
{
    let list = match members {
        Some(list) => list,
        None => {
            return Err(Error::CollectionError(String::from_str("Cloud not parse members array.")));
        },
    };
    let mut primary_date: Option<i64> = None;
    let mut secondary_dates: Vec<i64> = Vec::new();
    let mut i: usize = 0;
    while i < list.len()
        invariant
            i <= list.len(),
            *members is Some,
            members->Some_0 == *list,
            first_member_error(list@, i as int) is None,
            primary_date == primary_time(list@, i as int),
            secondary_dates@ == secondary_times(list@, i as int),
        decreases list.len() - i,
    {
        match &list[i] {
            MemberDoc::NoDocument => {
                proof {
                    lemma_member_error_stays(list@, i + 1, list@.len() as int);
                }
                return Err(Error::CollectionError(String::from_str("Invalid member format.")));
            },
            MemberDoc::Document { state, optime_ms } => {
                let state = match state {
                    Some(s) => *s,
                    None => {
                        proof {
                            lemma_member_error_stays(list@, i + 1, list@.len() as int);
                        }
                        return Err(
                            Error::CollectionError(
                                String::from_str("Missing 'state' element in member document."),
                            ),
                        );
                    },
                };
                let optime = match optime_ms {
                    Some(t) => *t,
                    None => {
                        proof {
                            lemma_member_error_stays(list@, i + 1, list@.len() as int);
                        }
                        return Err(
                            Error::CollectionError(
                                String::from_str(
                                    "Missing 'optimeDate' element in member document.",
                                ),
                            ),
                        );
                    },
                };
                if state == 1 {
                    primary_date = Some(optime);
                } else {
                    secondary_dates.push(optime);
                }
            },
        }
        i += 1;
    }
    let primary = match primary_date {
        Some(p) => p,
        None => {
            return Err(
                Error::CollectionError(String::from_str("No primary found in members array.")),
            );
        },
    };
    let mut lags: Vec<i64> = Vec::new();
    let mut k: usize = 0;
    while k < secondary_dates.len()
        invariant
            k <= secondary_dates.len(),
            lags.len() == k,
            forall|j: int| 0 <= j < k ==> lags[j] == lag_between(primary, secondary_dates[j]),
        decreases secondary_dates.len() - k,
    {
        let d: i128 = primary as i128 - secondary_dates[k] as i128;
        let lag: i64 = if d > i64::MAX as i128 {
            i64::MAX
        } else if d < i64::MIN as i128 {
            i64::MIN
        } else {
            d as i64
        };
        lags.push(lag);
        k += 1;
    }
    assert(lags@ =~= oplog_lag_spec(*members)->Ok_0);
    Ok(lags)
}

/// What is reported of a replica set's status for the server `name` with the
/// collector `id`: nothing for an empty document; else the state of the server,
/// with the replica set as a tag, and for a primary the lag of its secondaries,
/// where that can be told. A document without the name of the replica set or
/// without the server's state is an error.
pub open spec fn replica_readings(id: Seq<char>, name: Seq<char>, status: ReplSetStatus) -> Result<
    Seq<Reading>,
    ErrorView,
> {
    if status.is_empty {
        Ok(Seq::<Reading>::empty())
    } else {
        match status.set {
            None => Err(
                ErrorView::CollectionError("Could not determine replica set for "@ + id),
            ),
            Some(set) => match status.my_state {
                None => Err(
                    ErrorView::CollectionError("Could not determine myState for "@ + id),
                ),
                Some(state) => Ok(
                    seq![
                        Reading {
                            metric: "mongo.replicasets.members.mystate"@,
                            value: ValueView::Integer(state as int),
                            tags: replica_tags(set@, name),
                        },
                    ],
                ),
            },
        }
    }
}

/// The tags of the samples of a replica set's status: the replica set and the
/// name of the server.
pub open spec fn replica_tags(set: Seq<char>, name: Seq<char>) -> Map<Seq<char>, Seq<char>> {
    Map::<Seq<char>, Seq<char>>::empty().insert("replicaset"@, set).insert("name"@, name)
}

/// Whether `lag` is what is reported of the lags `lags` for the replica set
/// `set` and the server `name`: the samples of the least and of the greatest
/// lag, and the lags themselves.
pub open spec fn reports_lag(lag: OplogLag, lags: Seq<i64>, set: Seq<char>, name: Seq<char>) -> bool {
    &&& lag.lags@ == lags
    &&& lag.tags@ == replica_tags(set, name)
    &&& lag.min.metric@ == "mongo.replicasets.oplog_lag.min"@
    &&& is_least_value(lags, lag.min.value@)
    &&& lag.min.tags@ == replica_tags(set, name)
    &&& lag.max.metric@ == "mongo.replicasets.oplog_lag.max"@
    &&& is_greatest_value(lags, lag.max.value@)
    &&& lag.max.tags@ == replica_tags(set, name)
}

/// The lag that is reported with a replica set's status: that of the
/// secondaries of a primary, where it can be told.
pub open spec fn replica_lag(status: ReplSetStatus) -> Option<Seq<i64>> {
    if !status.is_empty && status.set is Some && status.my_state == Some(1i32) {
        match oplog_lag_spec(status.members) {
            Ok(lags) => Some(lags),
            Err(_) => None,
        }
    } else {
        None
    }
}

impl Mongo {
    pub fn id(&self) -> (r: &Id)
        ensures
            r@ == self@.id,
    {
        &self.id
    }

    /// The name under which the server is reported.
    pub fn name(&self) -> (r: &String)
        ensures
            r@ == self@.name,
    {
        &self.name
    }

    /// The host on which the server listens.
    pub fn ip_or_hostname(&self) -> (r: &String)
        ensures
            r@ == self@.ip_or_hostname,
    {
        &self.ip_or_hostname
    }

    /// The port on which the server listens.
    pub fn port(&self) -> (r: u16)
        ensures
            r == self@.port,
    {
        self.port
    }

    /// The user of the `admin` database, if one is set.
    pub fn user(&self) -> (r: &Option<String>)
        ensures
            opt_view(*r) == self@.user,
    {
        &self.user
    }

    /// The user's password, if one is set.
    pub fn password(&self) -> (r: &Option<String>)
        ensures
            opt_view(*r) == self@.password,
    {
        &self.password
    }

    /// Which members of the replica set are asked, if that is set.
    pub fn read_preference(&self) -> (r: Option<ReadPreference>)
        ensures
            r == self@.read_preference,
    {
        self.read_preference
    }

    /// How the connection to the server is secured.
    pub fn ssl_mode(&self) -> (r: SslMode)
        ensures
            r@ == ssl_mode_of(self@),
    {
        match (&self.ca_cert, &self.client_cert, &self.client_cert_key) {
            (Some(ca), Some(cert), Some(key)) => SslMode::Authenticated {
                ca_cert: ca.clone(),
                client_cert: cert.clone(),
                client_cert_key: key.clone(),
            },
            (Some(ca), None, None) => SslMode::Unauthenticated { ca_cert: ca.clone() },
            _ => SslMode::Plain,
        }
    }

    /// The descriptors of the metrics that the collector reports, always the
    /// same.
    pub fn metadata(&self) -> (r: Vec<Metadata>)
        ensures
            metadata_views(r@) == metadata_spec(),
    {
        let list: Vec<Metadata> = vec![
            Metadata::new("mongo.connections.current", Rate::Gauge, "", "The number of incoming connections from clients to the database server . This number includes the current shell session. Consider the value of connections.available to add more context to this datum. The value will include all incoming connections including any shell connections or connections from other servers, such as replica set members or mongos instances."),
            Metadata::new("mongo.connections.available", Rate::Gauge, "", "The number of unused incoming connections available. Consider this value in combination with the value of connections.current to understand the connection load on the database, and the UNIX ulimit Settings document for more information about system thresholds on available connections."),
            Metadata::new("mongo.connections.totalCreated", Rate::Counter, "", "Count of all incoming connections created to the server. This number includes connections that have since closed."),
            Metadata::new("mongo.opcounters.insert", Rate::Gauge, "", "The total number of insert operations received since the mongod instance last started."),
            Metadata::new("mongo.opcounters.query", Rate::Gauge, "", "The total number of queries received since the mongod instance last started."),
            Metadata::new("mongo.opcounters.update", Rate::Gauge, "", "The total number of update operations received since the mongod instance last started."),
            Metadata::new("mongo.opcounters.delete", Rate::Gauge, "", "The total number of delete operations since the mongod instance last started."),
            Metadata::new("mongo.opcounters.getmore", Rate::Gauge, "", "The total number of “getmore” operations since the mongod instance last started. This counter can be high even if the query count is low. Secondary nodes send getMore operations as part of the replication process."),
            Metadata::new("mongo.opcounters.command", Rate::Gauge, "", "The total number of commands issued to the database since the mongod instance last started. opcounters.command counts all commands except the write commands: insert, update, and delete."),
            Metadata::new("mongo.replicasets.members.mystate", Rate::Gauge, "", "Show the local replica set state: 0 = startup, 1 = primary, 2 = secondary, 3 = recovering, 5 = startup2, 6 = unknown, 7 = arbiter, 8 = down, 9 = rollback, 10 = removed"),
            Metadata::new("mongo.replicasets.oplog_lag.min", Rate::Gauge, "ms", "Show the min. oplog replication lag between the primary and its secondaries. This value is measured only on the replica set's primary."),
            Metadata::new("mongo.replicasets.oplog_lag.avg", Rate::Gauge, "ms", "Show the avg. oplog replication lag between the primary and its secondaries. This value is measured only on the replica set's primary."),
            Metadata::new("mongo.replicasets.oplog_lag.max", Rate::Gauge, "ms", "Show the max. oplog replication lag between the primary and its secondaries. This value is measured only on the replica set's primary."),
        ];
        assert(metadata_views(list@) =~= metadata_spec());
        list
    }

    /// The samples for the server's status.
    pub fn server_status(&self, status: &ServerStatus) -> (r: Vec<Sample>)
        ensures
            readings(r@) == server_readings(*status, self@.name),
    {
        let mut tags = Tags::new();
        add_tag(&mut tags, "version", clone_opt(&status.version));
        add_tag(&mut tags, "process", clone_opt(&status.process));
        tags.insert(String::from_str("name"), self.name.clone());

        let mut samples: Vec<Sample> = Vec::new();
        assert(readings(samples@) =~= Seq::<Reading>::empty());
        match &status.connections {
            Some(cons) => {
                add_sample(&mut samples, "mongo.connections.current", widened(cons.current), &tags);
                add_sample(
                    &mut samples,
                    "mongo.connections.available",
                    widened(cons.available),
                    &tags,
                );
                add_sample(
                    &mut samples,
                    "mongo.connections.totalCreated",
                    cons.total_created,
                    &tags,
                );
            },
            None => {},
        }
        match &status.opcounters {
            Some(ops) => {
                add_sample(&mut samples, "mongo.opcounters.insert", widened(ops.insert), &tags);
                add_sample(&mut samples, "mongo.opcounters.query", widened(ops.query), &tags);
                add_sample(&mut samples, "mongo.opcounters.update", widened(ops.update), &tags);
                add_sample(&mut samples, "mongo.opcounters.delete", widened(ops.delete), &tags);
                add_sample(&mut samples, "mongo.opcounters.getmore", widened(ops.getmore), &tags);
                add_sample(&mut samples, "mongo.opcounters.command", widened(ops.command), &tags);
            },
            None => {},
        }
        samples
    }

    /// The samples for the replica set's status, and for a primary the lag of
    /// its secondaries.
    pub fn rs_status(&self, status: &ReplSetStatus) -> (r: Result<ReplicaSetReport, Error>)
        ensures
            match r {
                Ok(report) => replica_readings(self@.id, self@.name, *status) == Ok::<
                    Seq<Reading>,
                    ErrorView,
                >(readings(report.samples@)) && (match report.oplog_lag {
                    Some(lag) => replica_lag(*status) is Some && status.set is Some
                        && reports_lag(
                        lag,
                        replica_lag(*status)->Some_0,
                        status.set->Some_0@,
                        self@.name,
                    ),
                    None => replica_lag(*status) is None,
                }),
                Err(e) => replica_readings(self@.id, self@.name, *status) == Err::<
                    Seq<Reading>,
                    ErrorView,
                >(e@),
            },
    {
        if status.is_empty {
            let none: Vec<Sample> = Vec::new();
            assert(readings(none@) =~= Seq::<Reading>::empty());
            return Ok(ReplicaSetReport { samples: none, oplog_lag: None });
        }
        let replicaset = match &status.set {
            Some(set) => set.clone(),
            None => {
                return Err(
                    Error::CollectionError(
                        join2("Could not determine replica set for ", self.id.as_str()),
                    ),
                );
            },
        };
        let my_state = match status.my_state {
            Some(state) => state,
            None => {
                return Err(
                    Error::CollectionError(
                        join2("Could not determine myState for ", self.id.as_str()),
                    ),
                );
            },
        };
        let mut tags = Tags::new();
        tags.insert(String::from_str("replicaset"), replicaset);
        tags.insert(String::from_str("name"), self.name.clone());
        let sample = Sample::new_with_tags(
            "mongo.replicasets.members.mystate",
            Value::Integer(my_state as i64),
            tags.clone(),
        );
        let samples: Vec<Sample> = vec![sample];
        assert(readings(samples@) =~= seq![sample.reading()]);
        let oplog_lag = if my_state == 1 {
            match calculate_oplog_lag(&status.members) {
                Ok(lags) => {
                    let least = match least_lag(&lags) {
                        Some(m) => Value::Integer(m),
                        None => Value::Decimal(String::from_str("inf")),
                    };
                    let greatest = match greatest_lag(&lags) {
                        Some(m) => Value::Integer(m),
                        None => Value::Decimal(String::from_str("-inf")),
                    };
                    Some(
                        OplogLag {
                            min: Sample::new_with_tags(
                                "mongo.replicasets.oplog_lag.min",
                                least,
                                tags.clone(),
                            ),
                            max: Sample::new_with_tags(
                                "mongo.replicasets.oplog_lag.max",
                                greatest,
                                tags.clone(),
                            ),
                            lags: lags,
                            tags: tags,
                        },
                    )
                },
                Err(_) => None,
            }
        } else {
            None
        };
        Ok(ReplicaSetReport { samples: samples, oplog_lag: oplog_lag })
    }
}

} // verus!
