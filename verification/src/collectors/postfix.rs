//! Postfix mail queues: from the report of `qshape` to samples.

use vstd::prelude::*;
use crate::bosun::{
    descriptor, metadata_views, readings, Metadata, MetadataView, Rate, Reading, Sample, Tags,
    Value, ValueView,
};
use crate::collectors::{parse_int_failure, CommandOutput, Error, ErrorView, Id};
use crate::config::Config;
use crate::number::{decimal_i32, parse_i32};
use crate::text::{
    join2, join3, lines, lines_of, replace_char, replaced, split_whitespace, views, words,
};

verus! {

/// The settings of the collector: there are none, the table alone enables it.
#[derive(Debug)]
pub struct PostfixConfig {}

/// The Postfix collector.
#[derive(Debug)]
pub struct Postfix {
    id: Id,
}

/// The collector for the configuration: one where it has a table for
/// Postfix, none where it has not.
pub fn create_instances(config: &Config) -> (r: Vec<Postfix>)
    ensures
        r.len() == (if config.Postfix is Some {
            1nat
        } else {
            0nat
        }),
        forall|i: int| 0 <= i < r.len() ==> (#[trigger] r[i]).id_spec() == "postfix"@,
{
    match config.Postfix {
        Some(_) => {
            let list: Vec<Postfix> = vec![Postfix { id: String::from_str("postfix") }];
            list
        },
        None => Vec::new(),
    }
}

/// The queues that are sampled, in the order in which they are sampled.
pub open spec fn queue_names() -> Seq<Seq<char>> {
    seq!["maildrop"@, "incoming"@, "hold"@, "active"@, "deferred"@]
}

/// The queues that are sampled, in the order in which they are sampled.
pub fn queues() -> (r: Vec<&'static str>)
    ensures
        r.len() == 5,
        Seq::new(r.len() as nat, |i: int| r[i]@) == queue_names(),
{
    let list: Vec<&'static str> = vec!["maildrop", "incoming", "hold", "active", "deferred"];
    assert(Seq::new(list.len() as nat, |i: int| list[i]@) =~= queue_names());
    list
}

/// The descriptors of the metrics that the collector reports.
pub open spec fn metadata_spec() -> Seq<MetadataView> {
    seq![
        descriptor("postfix.queues.maildrop"@, Rate::Gauge, "messages"@, "local submission directory; bucket tag represents age distribution."@),
        descriptor("postfix.queues.incoming"@, Rate::Gauge, "messages"@, "new message queue; bucket tag represents age distribution."@),
        descriptor("postfix.queues.hold"@, Rate::Gauge, "messages"@, "messages waiting for tech support; bucket tag represents age distribution."@),
        descriptor("postfix.queues.active"@, Rate::Gauge, "messages"@, "messages scheduled for delivery; bucket tag represents age distribution."@),
        descriptor("postfix.queues.deferred"@, Rate::Gauge, "messages"@, "messages postponed for later delivery; bucket tag represents age distribution."@),
    ]
}

impl Postfix {
    /// The collector's identity.
    pub closed spec fn id_spec(&self) -> Seq<char> {
        self.id@
    }

    pub fn id(&self) -> (r: &Id)
        ensures
            r@ == self.id_spec(),
    {
        &self.id
    }

    /// The descriptors of the metrics that the collector reports, always the
    /// same.
    pub fn metadata(&self) -> (r: Vec<Metadata>)
        ensures
            metadata_views(r@) == metadata_spec(),
    {
        let list: Vec<Metadata> = vec![
            Metadata::new("postfix.queues.maildrop", Rate::Gauge, "messages", "local submission directory; bucket tag represents age distribution."),
            Metadata::new("postfix.queues.incoming", Rate::Gauge, "messages", "new message queue; bucket tag represents age distribution."),
            Metadata::new("postfix.queues.hold", Rate::Gauge, "messages", "messages waiting for tech support; bucket tag represents age distribution."),
            Metadata::new("postfix.queues.active", Rate::Gauge, "messages", "messages scheduled for delivery; bucket tag represents age distribution."),
            Metadata::new("postfix.queues.deferred", Rate::Gauge, "messages", "messages postponed for later delivery; bucket tag represents age distribution."),
        ];
        assert(metadata_views(list@) =~= metadata_spec());
        list
    }
}

/// What a run of `qshape` that did not succeed is reported as: an error of
/// initialisation that describes the run.
pub open spec fn run_failure(result: Result<CommandOutput, String>) -> Option<ErrorView> {
    match result {
        Ok(output) => if output.succeeded() {
            None
        } else {
            Some(ErrorView::InitError(output.failure_text("qshape"@)))
        },
        Err(reason) => Some(
            ErrorView::InitError("Failed to run qshape, because '"@ + reason@ + "'."@),
        ),
    }
}

/// Accepts a run of `qshape` that succeeded and hands its output on. A run
/// that could not be started, given with the reason, or that failed is an
/// error of initialisation.
pub fn handle_command_output<'a>(result: &'a Result<CommandOutput, String>) -> (r: Result<
    &'a CommandOutput,
    Error,
>)
    ensures
        match r {
            Ok(output) => *result == Ok::<CommandOutput, String>(*output) && run_failure(*result)
                is None,
            Err(e) => run_failure(*result) == Some(e@),
        },
{
    match result {
        Ok(output) => {
            if output.success() {
                Ok(output)
            } else {
                Err(Error::InitError(output.failure_message("qshape")))
            }
        },
        Err(reason) => Err(
            Error::InitError(join3("Failed to run qshape, because '", reason.as_str(), "'.")),
        ),
    }
}

/// How many messages of one age are in a queue.
#[derive(Debug)]
pub struct QueueLength {
    pub name: String,
    pub bucket: String,
    pub len: i32,
}

/// A queue length over sequences of characters.
pub struct QueueLengthView {
    pub name: Seq<char>,
    pub bucket: Seq<char>,
    pub len: i32,
}

impl View for QueueLength {
    type V = QueueLengthView;

    open spec fn view(&self) -> QueueLengthView {
        QueueLengthView { name: self.name@, bucket: self.bucket@, len: self.len }
    }
}

/// The views of a sequence of queue lengths, element by element.
pub open spec fn queue_length_views(v: Seq<QueueLength>) -> Seq<QueueLengthView> {
    Seq::new(v.len(), |i: int| v[i]@)
}

/// The name of an age bucket as a tag value: the plus sign, which the remote
/// endpoint does not take, becomes the letter `p`.
pub open spec fn bucket_name(column: Seq<char>) -> Seq<char> {
    replaced(column, '+', 'p')
}

/// No bucket name holds a plus sign.
pub proof fn lemma_bucket_name_has_no_plus(column: Seq<char>)
    ensures
        !bucket_name(column).contains('+'),
{
    if bucket_name(column).contains('+') {
        let i = choose|i: int| 0 <= i < bucket_name(column).len() && bucket_name(column)[i] == '+';
        assert(bucket_name(column)[i] != '+');
    }
}

/// Whether every column of the totals from the `i`-th on has its name in a
/// header of `header_len` words, as far as the totals are read: reading ends
/// at the first total that is no number.
pub open spec fn columns_named(header_len: int, totals: Seq<Seq<char>>, i: int) -> bool
    decreases totals.len() - i,
{
    i < 0 || i >= totals.len() || (i - 1 < header_len && (decimal_i32(totals[i]) is Err
        || columns_named(header_len, totals, i + 1)))
}

/// Whether the report of `qshape` can be read: where it has two lines, the
/// first has to name the columns of the second.
pub open spec fn readable(stdout: Seq<char>) -> bool {
    let all = lines_of(stdout);
    all.len() >= 2 ==> columns_named(words(all[0]).len() as int, words(all[1]), 2)
}

/// The lengths that the totals from the `i`-th column on give for the queue
/// `name`, or the error for the first total that is no number.
pub open spec fn lengths_from(
    name: Seq<char>,
    header: Seq<Seq<char>>,
    totals: Seq<Seq<char>>,
    i: int,
) -> Result<Seq<QueueLengthView>, ErrorView>
    decreases totals.len() - i,
{
    if i < 0 || i >= totals.len() {
        Ok(Seq::<QueueLengthView>::empty())
    } else {
        match decimal_i32(totals[i]) {
            Err(e) => Err(parse_int_failure(e)),
            Ok(len) => match lengths_from(name, header, totals, i + 1) {
                Err(e) => Err(e),
                Ok(rest) => Ok(
                    seq![
                        QueueLengthView {
                            name: name,
                            bucket: bucket_name(header[i - 1]),
                            len: len as i32,
                        },
                    ] + rest,
                ),
            },
        }
    }
}

/// The error for a report with less than two lines.
pub open spec fn short_report(name: Seq<char>) -> ErrorView {
    ErrorView::CollectionError("Failed to parse qshape output for queue '"@ + name + "'"@)
}

/// What the report of `qshape` says of the queue `name`: of its first two
/// lines the second holds the totals, from the third column on one for each
/// age bucket, and the first holds the names of the buckets, moved by one
/// column.
pub open spec fn queue_lengths(name: Seq<char>, stdout: Seq<char>) -> Result<
    Seq<QueueLengthView>,
    ErrorView,
> {
    let all = lines_of(stdout);
    if all.len() < 2 {
        Err(short_report(name))
    } else {
        lengths_from(name, words(all[0]), words(all[1]), 2)
    }
}

/// Tells whether the report of `qshape` can be read.
pub fn is_readable(stdout: &str) -> (r: bool)
    ensures
        r == readable(stdout@),
{
    let all = lines(stdout);
    assert(views(all@).len() == all.len());
    if all.len() < 2 {
        return true;
    }
    assert(views(all@)[0] == all@[0]@);
    assert(views(all@)[1] == all@[1]@);
    let header = split_whitespace(all[0].as_str());
    let totals = split_whitespace(all[1].as_str());
    let ghost hs = words(lines_of(stdout@)[0]);
    let ghost ts = words(lines_of(stdout@)[1]);
    assert(views(header@).len() == header.len());
    assert(views(totals@).len() == totals.len());
    let mut i: usize = 2;
    while i < totals.len()
        invariant
            2 <= i,
            lines_of(stdout@).len() >= 2,
            hs == words(lines_of(stdout@)[0]),
            ts == words(lines_of(stdout@)[1]),
            views(header@) == hs,
            views(totals@) == ts,
            hs.len() == header.len(),
            ts.len() == totals.len(),
            readable(stdout@) == columns_named(hs.len() as int, ts, i as int),
        decreases totals.len() - i,
    {
        if i - 1 >= header.len() {
            return false;
        }
        assert(ts[i as int] == totals@[i as int]@);
        match parse_i32(totals[i].as_str()) {
            Err(_) => {
                return true;
            },
            Ok(_) => {},
        }
        i += 1;
    }
    true
}

/// Reads the lengths of the queue `q_name` from the report of `qshape`.
pub fn parse_queue_len(q_name: &str, stdout: &str) -> (r: Result<Vec<QueueLength>, Error>)
    requires
        readable(stdout@),
    ensures
        match r {
            Ok(v) => queue_lengths(q_name@, stdout@) == Ok::<Seq<QueueLengthView>, ErrorView>(
                queue_length_views(v@),
            ),
            Err(e) => queue_lengths(q_name@, stdout@) == Err::<Seq<QueueLengthView>, ErrorView>(
                e@,
            ),
        },
{
    let all = lines(stdout);
    assert(views(all@).len() == all.len());
    if all.len() < 2 {
        return Err(
            Error::CollectionError(
                join3("Failed to parse qshape output for queue '", q_name, "'"),
            ),
        );
    }
    assert(views(all@)[0] == all@[0]@);
    assert(views(all@)[1] == all@[1]@);
    let header = split_whitespace(all[0].as_str());
    let totals = split_whitespace(all[1].as_str());
    assert(views(header@).len() == header.len());
    assert(views(totals@).len() == totals.len());
    let mut q_lens: Vec<QueueLength> = Vec::new();
    let ghost hs = words(lines_of(stdout@)[0]);
    let ghost ts = words(lines_of(stdout@)[1]);
    assert(queue_length_views(q_lens@) + lengths_from(q_name@, hs, ts, 2)->Ok_0 =~= lengths_from(
        q_name@,
        hs,
        ts,
        2,
    )->Ok_0);
    let mut i: usize = 2;
    while i < totals.len()
        invariant
            2 <= i,
            lines_of(stdout@).len() >= 2,
            hs == words(lines_of(stdout@)[0]),
            ts == words(lines_of(stdout@)[1]),
            hs == views(header@),
            ts == views(totals@),
            hs.len() == header.len(),
            ts.len() == totals.len(),
            columns_named(hs.len() as int, ts, i as int),
            match lengths_from(q_name@, hs, ts, i as int) {
                Ok(rest) => lengths_from(q_name@, hs, ts, 2) == Ok::<
                    Seq<QueueLengthView>,
                    ErrorView,
                >(queue_length_views(q_lens@) + rest),
                Err(e) => lengths_from(q_name@, hs, ts, 2) == Err::<
                    Seq<QueueLengthView>,
                    ErrorView,
                >(e),
            },
        decreases totals.len() - i,
    {
        assert(ts[i as int] == totals@[i as int]@);
        assert(hs[i - 1] == header@[i - 1]@);
        let bucket = replace_char(header[i - 1].as_str(), '+', 'p');
        match parse_i32(totals[i].as_str()) {
            Err(e) => {
                return Err(Error::from_parse_int(e));
            },
            Ok(len) => {
                let entry = QueueLength { name: String::from_str(q_name), bucket: bucket, len: len };
                proof {
                    assert(queue_length_views(q_lens@.push(entry)) =~= queue_length_views(q_lens@)
                        + seq![entry@]);
                    match lengths_from(q_name@, hs, ts, i + 1) {
                        Ok(rest) => {
                            assert(queue_length_views(q_lens@) + (seq![entry@] + rest) =~= (
                            queue_length_views(q_lens@) + seq![entry@]) + rest);
                        },
                        Err(_) => {},
                    }
                }
                q_lens.push(entry);
            },
        }
        i += 1;
    }
    assert(queue_length_views(q_lens@) + Seq::<QueueLengthView>::empty() =~= queue_length_views(
        q_lens@,
    ));
    Ok(q_lens)
}

/// What a run of `qshape` says of the queue `name`.
pub open spec fn queue_outcome(name: Seq<char>, result: Result<CommandOutput, String>) -> Result<
    Seq<QueueLengthView>,
    ErrorView,
> {
    match run_failure(result) {
        Some(failure) => Err(failure),
        None => queue_lengths(name, result->Ok_0.stdout@),
    }
}

/// Whether the report of a run of `qshape` can be read, where there is one.
pub open spec fn run_readable(result: Result<CommandOutput, String>) -> bool {
    result is Ok && result->Ok_0.succeeded() ==> readable(result->Ok_0.stdout@)
}

/// Reads the lengths of the queue `q_name` from a run of `qshape`.
pub fn get_queue_len(q_name: &str, result: &Result<CommandOutput, String>) -> (r: Result<
    Vec<QueueLength>,
    Error,
>)
    requires
        run_readable(*result),
    ensures
        match r {
            Ok(v) => queue_outcome(q_name@, *result) == Ok::<Seq<QueueLengthView>, ErrorView>(
                queue_length_views(v@),
            ),
            Err(e) => queue_outcome(q_name@, *result) == Err::<Seq<QueueLengthView>, ErrorView>(
                e@,
            ),
        },
{
    match handle_command_output(result) {
        Err(e) => Err(e),
        Ok(output) => parse_queue_len(q_name, output.stdout.as_str()),
    }
}

/// What the runs of `qshape` for the first `n` queues say, one queue after
/// the other, or the error of the first run that says nothing.
pub open spec fn queues_outcome(results: Seq<Result<CommandOutput, String>>, n: int) -> Result<
    Seq<QueueLengthView>,
    ErrorView,
>
    decreases n,
{
    if n <= 0 || n > results.len() || n > queue_names().len() {
        Ok(Seq::<QueueLengthView>::empty())
    } else {
        match queues_outcome(results, n - 1) {
            Err(e) => Err(e),
            Ok(front) => match queue_outcome(queue_names()[n - 1], results[n - 1]) {
                Err(e) => Err(e),
                Ok(lens) => Ok(front + lens),
            },
        }
    }
}

/// Once a run says nothing, its error stays whatever follows.
proof fn lemma_queues_fail(results: Seq<Result<CommandOutput, String>>, n: int, m: int)
    requires
        0 < n <= m <= results.len(),
        m <= queue_names().len(),
        queues_outcome(results, n) is Err,
    ensures
        queues_outcome(results, m) == queues_outcome(results, n),
    decreases m - n,
{
    if n < m {
        lemma_queues_fail(results, n, m - 1);
    }
}

/// The samples of the queues from the runs of `qshape`, one run for each
/// queue in the order of `queues`: a sample for every age bucket of every
/// queue. The first run that failed or whose report cannot be understood
/// gives its error.
pub fn sample_queues(results: &Vec<Result<CommandOutput, String>>) -> (r: Result<Vec<Sample>, Error>)
    requires
        results.len() == queue_names().len(),
        forall|i: int| 0 <= i < results.len() ==> run_readable(#[trigger] results[i]),
    ensures
        match r {
            Ok(samples) => queues_outcome(results@, results.len() as int) is Ok && readings(
                samples@,
            ) == Seq::new(
                queues_outcome(results@, results.len() as int)->Ok_0.len(),
                |i: int| queue_reading(queues_outcome(results@, results.len() as int)->Ok_0[i]),
            ),
            Err(e) => queues_outcome(results@, results.len() as int) == Err::<
                Seq<QueueLengthView>,
                ErrorView,
            >(e@),
        },
{
    let names = queues();
    let mut q_lens: Vec<QueueLength> = Vec::new();
    assert(queue_length_views(q_lens@) =~= Seq::<QueueLengthView>::empty());
    let mut i: usize = 0;
    while i < results.len()
        invariant
            i <= results.len(),
            results.len() == queue_names().len(),
            names.len() == 5,
            Seq::new(names.len() as nat, |k: int| names[k]@) == queue_names(),
            forall|k: int| 0 <= k < results.len() ==> run_readable(#[trigger] results[k]),
            queues_outcome(results@, i as int) == Ok::<Seq<QueueLengthView>, ErrorView>(
                queue_length_views(q_lens@),
            ),
        decreases results.len() - i,
    {
        assert(Seq::new(names.len() as nat, |k: int| names[k]@)[i as int] == names[i as int]@);
        match get_queue_len(names[i], &results[i]) {
            Err(e) => {
                proof {
                    lemma_queues_fail(results@, i + 1, results.len() as int);
                }
                return Err(e);
            },
            Ok(single) => {
                let ghost before = q_lens@;
                let ghost added = single@;
                let mut single = single;
                q_lens.append(&mut single);
                assert(queue_length_views(before + added) =~= queue_length_views(before)
                    + queue_length_views(added));
            },
        }
        i += 1;
    }
    let ghost lens = q_lens@;
    let samples = convert_to_metric(q_lens);
    assert(readings(samples@) =~= Seq::new(
        queue_length_views(lens).len(),
        |i: int| queue_reading(queue_length_views(lens)[i]),
    ));
    Ok(samples)
}

/// What a queue length is reported as: the length, under the queue's metric
/// and with the age bucket as a tag.
pub open spec fn queue_reading(q: QueueLengthView) -> Reading {
    Reading {
        metric: "postfix.queues."@ + q.name,
        value: ValueView::Integer(q.len as int),
        tags: Map::<Seq<char>, Seq<char>>::empty().insert("bucket"@, q.bucket),
    }
}

/// The sample for a queue length.
pub fn queue_length_to_sample(q_len: QueueLength) -> (r: Sample)
    ensures
        r.reading() == queue_reading(q_len@),
{
    let mut tags = Tags::new();
    tags.insert(String::from_str("bucket"), q_len.bucket);
    let metric_name = join2("postfix.queues.", q_len.name.as_str());
    Sample::new_with_tags(metric_name.as_str(), Value::Integer(q_len.len as i64), tags)
}

/// The samples for the queue lengths, in their order.
pub fn convert_to_metric(q_lens: Vec<QueueLength>) -> (r: Vec<Sample>)
    ensures
        readings(r@) == Seq::new(q_lens.len() as nat, |i: int| queue_reading(q_lens[i]@)),
{
    let mut out: Vec<Sample> = Vec::new();
    for q in it: q_lens
        invariant
            it.seq() == q_lens@,
            out.len() == it.index(),
            forall|k: int| 0 <= k < out.len() ==> (#[trigger] out[k]).reading() == queue_reading(
                q_lens[k]@,
            ),
    {
        out.push(queue_length_to_sample(q));
    }
    assert(readings(out@) =~= Seq::new(q_lens.len() as nat, |i: int| queue_reading(q_lens[i]@)));
    out
}

} // verus!
