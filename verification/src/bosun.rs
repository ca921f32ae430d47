//! What travels through the pipeline, samples and metric descriptors, and the
//! emitter that hands them to the remote endpoint.

use vstd::prelude::*;
use crate::number::{decimal_of, decimal_text, decimal_u16, parse_u16};
use crate::text::{split_whitespace, views, words};
pub use crate::tags::Tags;

verus! {

/// The value of a sample.
#[derive(Debug)]
pub enum Value {
    /// An integer-valued observation.
    Integer(i64),
    /// A number as its source wrote it (see `number_text`), kept as text.
    Decimal(String),
}

/// A value with its text as a sequence of characters.
pub enum ValueView {
    Integer(int),
    Decimal(Seq<char>),
}

impl View for Value {
    type V = ValueView;

    open spec fn view(&self) -> ValueView {
        match self {
            Value::Integer(i) => ValueView::Integer(*i as int),
            Value::Decimal(t) => ValueView::Decimal(t@),
        }
    }
}

impl Value {
    /// A copy of the value.
    pub fn clone(&self) -> (r: Value)
        ensures
            r@ == self@,
    {
        match self {
            Value::Integer(i) => Value::Integer(*i),
            Value::Decimal(t) => Value::Decimal(t.clone()),
        }
    }
}

/// A single timestamped observation.
#[derive(Debug)]
pub struct Sample {
    /// Seconds since the epoch.
    pub time: u64,
    /// Dotted metric name.
    pub metric: String,
    pub value: Value,
    pub tags: Tags,
}

/// A sample over sequences and a mapping.
pub struct SampleView {
    pub time: nat,
    pub metric: Seq<char>,
    pub value: ValueView,
    pub tags: Map<Seq<char>, Seq<char>>,
}

impl View for Sample {
    type V = SampleView;

    open spec fn view(&self) -> SampleView {
        SampleView {
            time: self.time as nat,
            metric: self.metric@,
            value: self.value@,
            tags: self.tags@,
        }
    }
}

#[verifier::external_type_specification]
#[verifier::external_body]
pub struct ExSystemTime(std::time::SystemTime);

/// `SystemTime::now` gives the time on the system clock. Nothing is claimed
/// of it.
#[verifier::external_body]
fn now() -> std::time::SystemTime {
    std::time::SystemTime::now()
}

/// `SystemTime::duration_since` tells how long after the epoch `time` is;
/// there is no answer for a time before the epoch. Nothing more is claimed.
#[verifier::external_body]
fn since_epoch(time: &std::time::SystemTime) -> Option<std::time::Duration> {
    time.duration_since(std::time::UNIX_EPOCH).ok()
}

/// `Duration::as_secs` gives the whole seconds of a duration. Nothing is
/// claimed of the number.
#[verifier::external_body]
fn whole_seconds(duration: &std::time::Duration) -> u64 {
    duration.as_secs()
}

/// Seconds since the epoch on the system clock; zero for a clock set before
/// the epoch.
fn unix_time() -> u64 {
    match since_epoch(&now()) {
        Some(elapsed) => whole_seconds(&elapsed),
        None => 0,
    }
}

impl Sample {
    /// A sample of `metric` taken now, without tags.
    pub fn new(metric: &str, value: Value) -> (r: Sample)
        ensures
            r.metric@ == metric@,
            r.value@ == value@,
            r.tags@ == Map::<Seq<char>, Seq<char>>::empty(),
    {
        Sample::new_with_tags(metric, value, Tags::new())
    }

    /// A sample of `metric` taken now, with `tags`.
    pub fn new_with_tags(metric: &str, value: Value, tags: Tags) -> (r: Sample)
        ensures
            r.metric@ == metric@,
            r.value@ == value@,
            r.tags@ == tags@,
    {
        let now = unix_time();
        Sample { time: now, metric: String::from_str(metric), value: value, tags: tags }
    }

    /// A copy of the sample.
    pub fn clone(&self) -> (r: Sample)
        ensures
            r@ == self@,
    {
        Sample {
            time: self.time,
            metric: self.metric.clone(),
            value: self.value.clone(),
            tags: self.tags.clone(),
        }
    }
}

/// What a sample says, apart from when it was taken.
pub struct Reading {
    pub metric: Seq<char>,
    pub value: ValueView,
    pub tags: Map<Seq<char>, Seq<char>>,
}

impl Sample {
    /// What the sample says, apart from when it was taken.
    pub open spec fn reading(&self) -> Reading {
        Reading { metric: self.metric@, value: self.value@, tags: self.tags@ }
    }
}

/// What each of a sequence of samples says, in order.
pub open spec fn readings(v: Seq<Sample>) -> Seq<Reading> {
    Seq::new(v.len(), |i: int| v[i].reading())
}

/// `tags` with `name` set to `value`, where there is a value.
pub open spec fn with_tag(
    tags: Map<Seq<char>, Seq<char>>,
    name: Seq<char>,
    value: Option<Seq<char>>,
) -> Map<Seq<char>, Seq<char>> {
    match value {
        Some(v) => tags.insert(name, v),
        None => tags,
    }
}

/// `list` with a reading of `metric` behind it, where there is a value.
pub open spec fn with_reading(
    list: Seq<Reading>,
    metric: Seq<char>,
    value: Option<int>,
    tags: Map<Seq<char>, Seq<char>>,
) -> Seq<Reading> {
    match value {
        Some(v) => list.push(Reading { metric: metric, value: ValueView::Integer(v), tags: tags }),
        None => list,
    }
}

/// Sets the tag `name` to `value`, where there is a value.
pub fn add_tag(tags: &mut Tags, name: &str, value: Option<String>)
    ensures
        final(tags)@ == with_tag(old(tags)@, name@, match value {
            Some(v) => Some(v@),
            None => None,
        }),
{
    match value {
        Some(v) => {
            tags.insert(String::from_str(name), v);
        },
        None => {},
    }
}

/// Puts a sample of `metric` taken now behind the samples, where there is a
/// value.
pub fn add_sample(samples: &mut Vec<Sample>, metric: &str, value: Option<i64>, tags: &Tags)
    ensures
        readings(final(samples)@) == with_reading(
            readings(old(samples)@),
            metric@,
            match value {
                Some(v) => Some(v as int),
                None => None,
            },
            tags@,
        ),
{
    match value {
        Some(v) => {
            let sample = Sample::new_with_tags(metric, Value::Integer(v), tags.clone());
            proof {
                assert(readings(samples@.push(sample)) =~= readings(samples@).push(
                    sample.reading(),
                ));
            }
            samples.push(sample);
        },
        None => {},
    }
}

/// The views of a sequence of samples, element by element.
pub open spec fn sample_views(v: Seq<Sample>) -> Seq<SampleView> {
    Seq::new(v.len(), |i: int| v[i]@)
}

/// How the values of a metric are to be read.
#[derive(Clone, Copy, Debug, PartialEq, Eq, Structural)]
pub enum Rate {
    Gauge,
    Counter,
    Rate,
}

impl Rate {
    /// The word by which the remote endpoint knows the rate type.
    pub open spec fn name_spec(self) -> Seq<char> {
        match self {
            Rate::Gauge => "gauge"@,
            Rate::Counter => "counter"@,
            Rate::Rate => "rate"@,
        }
    }

    /// The word by which the remote endpoint knows the rate type.
    pub fn name(&self) -> (r: String)
        ensures
            r@ == self.name_spec(),
    {
        match self {
            Rate::Gauge => String::from_str("gauge"),
            Rate::Counter => String::from_str("counter"),
            Rate::Rate => String::from_str("rate"),
        }
    }
}

/// A metric descriptor.
#[derive(Debug)]
pub struct Metadata {
    /// Metric name
    pub metric: String,
    /// Metric rate type: gauge, counter or rate
    pub rate: String,
    /// Metric unit
    pub unit: String,
    /// Metric description
    pub description: String,
}

/// A metric descriptor over sequences of characters.
pub struct MetadataView {
    pub metric: Seq<char>,
    pub rate: Seq<char>,
    pub unit: Seq<char>,
    pub description: Seq<char>,
}

impl View for Metadata {
    type V = MetadataView;

    open spec fn view(&self) -> MetadataView {
        MetadataView {
            metric: self.metric@,
            rate: self.rate@,
            unit: self.unit@,
            description: self.description@,
        }
    }
}

/// The descriptor of `metric` as a value of specifications.
pub open spec fn descriptor(
    metric: Seq<char>,
    rate: Rate,
    unit: Seq<char>,
    description: Seq<char>,
) -> MetadataView {
    MetadataView { metric: metric, rate: rate.name_spec(), unit: unit, description: description }
}

impl Metadata {
    /// The descriptor of `metric`.
    pub fn new(metric: &str, rate: Rate, unit: &str, description: &str) -> (r: Metadata)
        ensures
            r@ == descriptor(metric@, rate, unit@, description@),
    {
        Metadata {
            metric: String::from_str(metric),
            rate: rate.name(),
            unit: String::from_str(unit),
            description: String::from_str(description),
        }
    }

    /// A copy of the descriptor.
    pub fn clone(&self) -> (r: Metadata)
        ensures
            r@ == self@,
    {
        Metadata {
            metric: self.metric.clone(),
            rate: self.rate.clone(),
            unit: self.unit.clone(),
            description: self.description.clone(),
        }
    }
}

/// The views of a sequence of descriptors, element by element.
pub open spec fn metadata_views(v: Seq<Metadata>) -> Seq<MetadataView> {
    Seq::new(v.len(), |i: int| v[i]@)
}

/// What the scheduler hands to the emitter.
#[derive(Debug)]
pub enum BosunRequest {
    Sample(Sample),
    Metadata(Metadata),
    Shutdown,
}

/// A request to the emitter over sequences of characters.
pub enum BosunRequestView {
    Sample(SampleView),
    Metadata(MetadataView),
    Shutdown,
}

impl View for BosunRequest {
    type V = BosunRequestView;

    open spec fn view(&self) -> BosunRequestView {
        match self {
            BosunRequest::Sample(s) => BosunRequestView::Sample(s@),
            BosunRequest::Metadata(m) => BosunRequestView::Metadata(m@),
            BosunRequest::Shutdown => BosunRequestView::Shutdown,
        }
    }
}

/// The seconds between two ticks of the emitter's timer.
pub const TICK_INTERVAL_SEC: u64 = 15;

/// The most samples that wait for transmission; when one more comes, the
/// oldest is dropped.
pub const QUEUE_HIGH_WATERMARK: usize = 100000;

/// The metric under which the emitter reports how many samples it transmits.
pub const STATS_SAMPLES_METRICNAME: &'static str = "rs-collector.stats.samples";

/// The text of a value: an integer in decimal notation, a number that was
/// kept as text as it is.
pub open spec fn value_text(v: ValueView) -> Seq<char> {
    match v {
        ValueView::Integer(i) => decimal_of(i),
        ValueView::Decimal(t) => t,
    }
}

impl Value {
    /// The value as text.
    pub fn text(&self) -> (r: String)
        ensures
            r@ == value_text(self@),
    {
        match self {
            Value::Integer(i) => decimal_text(*i),
            Value::Decimal(t) => t.clone(),
        }
    }
}

/// What is transmitted for a sample.
#[derive(Debug)]
pub struct Datum {
    pub metric: String,
    pub timestamp: i64,
    pub value: String,
    pub tags: Tags,
}

/// A datum over sequences and a mapping.
pub struct DatumView {
    pub metric: Seq<char>,
    pub timestamp: i64,
    pub value: Seq<char>,
    pub tags: Map<Seq<char>, Seq<char>>,
}

impl View for Datum {
    type V = DatumView;

    open spec fn view(&self) -> DatumView {
        DatumView {
            metric: self.metric@,
            timestamp: self.timestamp,
            value: self.value@,
            tags: self.tags@,
        }
    }
}

/// The time of a sample as the signed number of the wire format; times past
/// the largest signed number wrap around.
pub open spec fn timestamp_of(time: nat) -> i64 {
    if time <= i64::MAX {
        time as i64
    } else {
        (time - 0x1_0000_0000_0000_0000) as i64
    }
}

/// The tags of a datum: those of the sample, the `host` tag with the host's
/// name, and the default tags laid over both.
pub open spec fn datum_tags(
    tags: Map<Seq<char>, Seq<char>>,
    hostname: Seq<char>,
    default_tags: Map<Seq<char>, Seq<char>>,
) -> Map<Seq<char>, Seq<char>> {
    tags.insert("host"@, hostname).union_prefer_right(default_tags)
}

/// The datum that is transmitted for a sample.
pub open spec fn datum_of(
    sample: SampleView,
    hostname: Seq<char>,
    default_tags: Map<Seq<char>, Seq<char>>,
) -> DatumView {
    DatumView {
        metric: sample.metric,
        timestamp: timestamp_of(sample.time),
        value: value_text(sample.value),
        tags: datum_tags(sample.tags, hostname, default_tags),
    }
}

/// Every datum has all default tags with their values, and the `host` tag. The
/// `host` tag has the host's name, unless the default tags set it otherwise.
pub proof fn lemma_datum_tags(
    tags: Map<Seq<char>, Seq<char>>,
    hostname: Seq<char>,
    default_tags: Map<Seq<char>, Seq<char>>,
)
    ensures
        forall|k: Seq<char>| #[trigger]
            default_tags.contains_key(k) ==> datum_tags(tags, hostname, default_tags).contains_key(
                k,
            ) && datum_tags(tags, hostname, default_tags)[k] == default_tags[k],
        datum_tags(tags, hostname, default_tags).contains_key("host"@),
        !(default_tags.contains_key("host"@) && default_tags["host"@] != hostname) ==> datum_tags(
            tags,
            hostname,
            default_tags,
        )["host"@] == hostname,
        forall|k: Seq<char>| #[trigger]
            tags.contains_key(k) && k != "host"@ && !default_tags.contains_key(k) ==> datum_tags(
                tags,
                hostname,
                default_tags,
            ).contains_key(k) && datum_tags(tags, hostname, default_tags)[k] == tags[k],
{
}

/// Makes the datum for a sample: the `host` tag is set to `hostname`, then
/// the default tags are laid over the sample's tags.
pub fn sample_to_datum(sample: &Sample, hostname: &str, default_tags: &Tags) -> (r: Datum)
    ensures
        r@ == datum_of(sample@, hostname@, default_tags@),
{
    let value = sample.value.text();
    let mut tags = sample.tags.clone();
    tags.insert(String::from_str("host"), String::from_str(hostname));
    tags.extend(default_tags);
    let timestamp: i64 = if sample.time <= 0x7fff_ffff_ffff_ffff {
        sample.time as i64
    } else {
        ((sample.time - 0x8000_0000_0000_0000) as i64) + i64::MIN
    };
    Datum { metric: sample.metric.clone(), timestamp: timestamp, value: value, tags: tags }
}

/// One record of the metadata endpoint: a property of a metric.
#[derive(Debug)]
pub struct MetadataRecord {
    pub metric: String,
    pub name: String,
    pub value: String,
}

/// A record over sequences of characters.
pub struct MetadataRecordView {
    pub metric: Seq<char>,
    pub name: Seq<char>,
    pub value: Seq<char>,
}

impl View for MetadataRecord {
    type V = MetadataRecordView;

    open spec fn view(&self) -> MetadataRecordView {
        MetadataRecordView { metric: self.metric@, name: self.name@, value: self.value@ }
    }
}

/// The records that a descriptor is sent as: its rate type, its unit and its
/// description.
pub open spec fn records_of(m: MetadataView) -> Seq<MetadataRecordView> {
    seq![
        MetadataRecordView { metric: m.metric, name: "rate"@, value: m.rate },
        MetadataRecordView { metric: m.metric, name: "unit"@, value: m.unit },
        MetadataRecordView { metric: m.metric, name: "desc"@, value: m.description },
    ]
}

/// Expands a descriptor into the records that are sent for it.
pub fn metadata_records(metadata: &Metadata) -> (r: Vec<MetadataRecord>)
    ensures
        Seq::new(r.len() as nat, |i: int| r[i]@) == records_of(metadata@),
{
    let list: Vec<MetadataRecord> = vec![
        MetadataRecord {
            metric: metadata.metric.clone(),
            name: String::from_str("rate"),
            value: metadata.rate.clone(),
        },
        MetadataRecord {
            metric: metadata.metric.clone(),
            name: String::from_str("unit"),
            value: metadata.unit.clone(),
        },
        MetadataRecord {
            metric: metadata.metric.clone(),
            name: String::from_str("desc"),
            value: metadata.description.clone(),
        },
    ];
    assert(Seq::new(list.len() as nat, |i: int| list[i]@) =~= records_of(metadata@));
    list
}

/// How often a request to the remote endpoint is sent again, at most, unless
/// another limit is asked for.
pub const RETRY_COUNT: u32 = 3;

/// The seconds after which a request to the remote endpoint is given up.
pub const REQUEST_TIMEOUT_SEC: u64 = 3;

/// How a request to the remote endpoint went.
#[derive(Clone, Copy, Debug, PartialEq, Eq, Structural)]
pub enum Outcome {
    /// The endpoint answered with this status.
    Status(u16),
    /// No answer came: the connection failed or the time was up.
    ConnectionError,
}

/// How a request went, from the status line of the answer: the status that
/// its first word writes as a number; without such a word, no answer.
pub open spec fn outcome_of_status(status: Seq<char>) -> Outcome {
    if words(status).len() == 0 {
        Outcome::ConnectionError
    } else {
        match decimal_u16(words(status)[0]) {
            Ok(code) => Outcome::Status(code as u16),
            Err(_) => Outcome::ConnectionError,
        }
    }
}

impl Outcome {
    /// Reads how a request went from the status line of the answer, such as
    /// `500 Internal Server Error`.
    pub fn from_status(status: &str) -> (r: Outcome)
        ensures
            r == outcome_of_status(status@),
    {
        let parts = split_whitespace(status);
        assert(views(parts@).len() == parts.len());
        if parts.len() == 0 {
            return Outcome::ConnectionError;
        }
        assert(views(parts@)[0] == parts[0]@);
        match parse_u16(parts[0].as_str()) {
            Ok(code) => Outcome::Status(code),
            Err(_) => Outcome::ConnectionError,
        }
    }
}

/// What follows a request to the remote endpoint.
#[derive(Clone, Copy, Debug, PartialEq, Eq, Structural)]
pub enum Delivery {
    /// The endpoint has taken the request.
    Delivered,
    /// The request is to be sent again.
    Retry,
    /// The request is given up and what it carried is lost.
    Dropped,
}

/// What follows a request that has been sent again `retries` times, where it
/// may be sent again `limit` times: a status from 200 to 299 is success; after
/// a status from 500 to 599 or without an answer the request is sent again,
/// until the limit is reached; anything else ends it at once.
pub open spec fn delivery_spec(outcome: Outcome, retries: u32, limit: u32) -> Delivery {
    match outcome {
        Outcome::Status(status) => if 200 <= status <= 299 {
            Delivery::Delivered
        } else if 500 <= status <= 599 && retries < limit {
            Delivery::Retry
        } else {
            Delivery::Dropped
        },
        Outcome::ConnectionError => if retries < limit {
            Delivery::Retry
        } else {
            Delivery::Dropped
        },
    }
}

/// Says what follows a request that has been sent again `retries` times,
/// where it may be sent again `limit` times.
pub fn delivery_within(outcome: Outcome, retries: u32, limit: u32) -> (r: Delivery)
    ensures
        r == delivery_spec(outcome, retries, limit),
{
    match outcome {
        Outcome::Status(status) => {
            if 200 <= status && status <= 299 {
                Delivery::Delivered
            } else if 500 <= status && status <= 599 && retries < limit {
                Delivery::Retry
            } else {
                Delivery::Dropped
            }
        },
        Outcome::ConnectionError => {
            if retries < limit {
                Delivery::Retry
            } else {
                Delivery::Dropped
            }
        },
    }
}

/// Says what follows a request that has been sent again `retries` times,
/// where it may be sent again three times.
pub fn delivery(outcome: Outcome, retries: u32) -> (r: Delivery)
    ensures
        r == delivery_spec(outcome, retries, RETRY_COUNT),
{
    delivery_within(outcome, retries, RETRY_COUNT)
}

/// What the emitter does with a request.
#[derive(Debug)]
pub enum EmitterAction {
    /// The sample waits for the next tick.
    Queued,
    /// The descriptor is to be transmitted now.
    SendMetadata(Metadata),
    /// The emitter ends; what waits is not transmitted.
    Stop,
}

/// The samples that wait after one more has come: when the queue is full, the
/// oldest makes room.
pub open spec fn enqueued(queue: Seq<SampleView>, sample: SampleView) -> Seq<SampleView> {
    if queue.len() >= QUEUE_HIGH_WATERMARK {
        queue.drop_first().push(sample)
    } else {
        queue.push(sample)
    }
}

/// The emitter: the samples that wait for transmission, and what is added to
/// each when it is transmitted.
#[derive(Debug)]
pub struct Bosun {
    queue: Vec<Sample>,
    default_tags: Tags,
    hostname: String,
}

impl Bosun {
    #[verifier::type_invariant]
    spec fn bounded(self) -> bool {
        self.queue@.len() <= QUEUE_HIGH_WATERMARK
    }

    /// The samples that wait, oldest first.
    pub closed spec fn queue(&self) -> Seq<SampleView> {
        sample_views(self.queue@)
    }

    /// The value of the `host` tag.
    pub closed spec fn hostname(&self) -> Seq<char> {
        self.hostname@
    }

    /// The tags that are laid over those of every sample.
    pub closed spec fn default_tags(&self) -> Map<Seq<char>, Seq<char>> {
        self.default_tags@
    }

    /// An emitter for the host `hostname` in whose queue nothing waits.
    pub fn new(hostname: &str, default_tags: &Tags) -> (r: Bosun)
        ensures
            r.queue() == Seq::<SampleView>::empty(),
            r.hostname() == hostname@,
            r.default_tags() == default_tags@,
    {
        let r = Bosun {
            queue: Vec::new(),
            default_tags: default_tags.clone(),
            hostname: String::from_str(hostname),
        };
        assert(r.queue() =~= Seq::<SampleView>::empty());
        r
    }

    /// How many samples wait.
    pub fn queue_len(&self) -> (r: usize)
        ensures
            r == self.queue().len(),
            r <= QUEUE_HIGH_WATERMARK,
    {
        proof {
            use_type_invariant(self);
        }
        self.queue.len()
    }

    /// Takes a request from the scheduler: a sample waits for the next tick,
    /// a descriptor is to be transmitted at once, and on the request to shut
    /// down the emitter ends without transmitting what waits.
    pub fn handle(&mut self, request: BosunRequest) -> (action: EmitterAction)
        ensures
            final(self).hostname() == old(self).hostname(),
            final(self).default_tags() == old(self).default_tags(),
            match request {
                BosunRequest::Sample(sample) => action is Queued && final(self).queue()
                    == enqueued(old(self).queue(), sample@),
                BosunRequest::Metadata(metadata) => action is SendMetadata
                    && action->SendMetadata_0 == metadata && final(self).queue() == old(self).queue(),
                BosunRequest::Shutdown => action is Stop && final(self).queue() == old(self).queue(),
            },
    {
        proof {
            use_type_invariant(&*self);
        }
        match request {
            BosunRequest::Sample(sample) => {
                let mut queue: Vec<Sample> = Vec::new();
                std::mem::swap(&mut queue, &mut self.queue);
                let ghost before = queue@;
                if queue.len() >= QUEUE_HIGH_WATERMARK {
                    let _ = queue.remove(0);
                    assert(sample_views(queue@) =~= sample_views(before).drop_first());
                }
                let ghost kept = queue@;
                queue.push(sample);
                assert(sample_views(queue@) =~= sample_views(kept).push(sample@));
                self.queue = queue;
                EmitterAction::Queued
            },
            BosunRequest::Metadata(metadata) => EmitterAction::SendMetadata(metadata),
            BosunRequest::Shutdown => EmitterAction::Stop,
        }
    }

    /// On a tick of the emitter's timer: gives what is to be transmitted now,
    /// in order, and empties the queue. That is the datum of every sample that
    /// waited, oldest first, and behind them the emitter's own count of the
    /// samples it transmits, which counts itself.
    pub fn tick(&mut self) -> (r: Vec<Datum>)
        ensures
            final(self).hostname() == old(self).hostname(),
            final(self).default_tags() == old(self).default_tags(),
            final(self).queue() == Seq::<SampleView>::empty(),
            r.len() == old(self).queue().len() + 1,
            forall|i: int|
                0 <= i < old(self).queue().len() ==> (#[trigger] r[i])@ == datum_of(
                    old(self).queue()[i],
                    old(self).hostname(),
                    old(self).default_tags(),
                ),
            r[r.len() - 1]@.metric == STATS_SAMPLES_METRICNAME@,
            r[r.len() - 1]@.value == decimal_of(old(self).queue().len() as int + 1),
            r[r.len() - 1]@.tags == datum_tags(
                Map::<Seq<char>, Seq<char>>::empty(),
                old(self).hostname(),
                old(self).default_tags(),
            ),
    {
        proof {
            use_type_invariant(&*self);
        }
        let mut queue: Vec<Sample> = Vec::new();
        std::mem::swap(&mut queue, &mut self.queue);
        assert(self.queue() =~= Seq::<SampleView>::empty());
        let queue_len: i64 = queue.len() as i64 + 1;
        queue.push(Sample::new(STATS_SAMPLES_METRICNAME, Value::Integer(queue_len)));
        let mut out: Vec<Datum> = Vec::new();
        let mut i: usize = 0;
        while i < queue.len()
            invariant
                i <= queue.len(),
                out.len() == i,
                forall|k: int|
                    0 <= k < i ==> (#[trigger] out[k])@ == datum_of(
                        queue[k]@,
                        self.hostname@,
                        self.default_tags@,
                    ),
            decreases queue.len() - i,
        {
            out.push(sample_to_datum(&queue[i], self.hostname.as_str(), &self.default_tags));
            i += 1;
        }
        proof {
            assert forall|k: int| 0 <= k < old(self).queue().len() implies (#[trigger] out[k])@
                == datum_of(old(self).queue()[k], old(self).hostname(), old(self).default_tags()) by {
                assert(old(self).queue()[k] == queue[k]@);
            }
        }
        out
    }
}

} // verus!
