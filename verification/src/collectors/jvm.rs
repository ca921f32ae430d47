//! Java virtual machines: garbage collection statistics from `jps` and `jstat`.

use vstd::prelude::*;
use crate::bosun::{
    descriptor, metadata_views, readings, Metadata, MetadataView, Rate, Reading, Sample, Tags,
    Value, ValueView,
};
use crate::collectors::{parse_int_failure, CommandOutput, Error, ErrorView, Id};
use crate::config::Config;
use crate::number::{decimal_of, decimal_text, decimal_u16, is_number, number_text, parse_u16};
use crate::pattern::{compile, is_match, matches_somewhere, Pattern};
use crate::text::{join2, lines, lines_of, opt_view, same_text, split_whitespace, views, words};

verus! {

/// A virtual machine to watch: a regular expression that tells its process,
/// and the name under which it is reported.
#[allow(non_snake_case)]
#[derive(Debug)]
pub struct JvmConfig {
    pub Command: String,
    pub Name: String,
}

/// A virtual machine to watch, over sequences of characters.
pub struct JvmConfigView {
    pub command: Seq<char>,
    pub name: Seq<char>,
}

impl View for JvmConfig {
    type V = JvmConfigView;

    open spec fn view(&self) -> JvmConfigView {
        JvmConfigView { command: self.Command@, name: self.Name@ }
    }
}

impl JvmConfig {
    /// A copy of the settings.
    pub fn clone(&self) -> (r: JvmConfig)
        ensures
            r@ == self@,
    {
        JvmConfig { Command: self.Command.clone(), Name: self.Name.clone() }
    }
}

/// The views of a sequence of settings, element by element.
pub open spec fn config_views(v: Seq<JvmConfig>) -> Seq<JvmConfigView> {
    Seq::new(v.len(), |i: int| v[i]@)
}

/// The statistics of `jstat -gc` by their column names, each with the
/// descriptor of its metric.
pub open spec fn metadata_spec() -> Seq<(Seq<char>, MetadataView)> {
    seq![
        ("S0C"@, descriptor("jvm.gc.stats.survivor_space_0_capacity"@, Rate::Gauge, "kB"@, "S0C: Current survivor space 1 capacity"@)),
        ("S1C"@, descriptor("jvm.gc.stats.survivor_space_1_capacity"@, Rate::Gauge, "kB"@, "S1C: Current survivor space 1 capacity"@)),
        ("S0U"@, descriptor("jvm.gc.stats.survivor_space_0_utilization"@, Rate::Gauge, "kB"@, "S0U: Survivor space 1 utilization"@)),
        ("S1U"@, descriptor("jvm.gc.stats.survivor_space_1_utilization"@, Rate::Gauge, "kB"@, "S1U: Survivor space 1 utilization"@)),
        ("EC"@, descriptor("jvm.gc.stats.current_eden_space_capacity"@, Rate::Gauge, "kB"@, "EC: Current eden space capacity"@)),
        ("EU"@, descriptor("jvm.gc.stats.eden_space_utilization"@, Rate::Gauge, "kB"@, "EU: Eden space utilization"@)),
        ("OC"@, descriptor("jvm.gc.stats.current_old_space_capacity"@, Rate::Gauge, "kB"@, "OC: Current old capacity"@)),
        ("OU"@, descriptor("jvm.gc.stats.old_space_utilization"@, Rate::Gauge, "kB"@, "OU: Old space utilization"@)),
        ("PC"@, descriptor("jvm.gc.stats.current_permanent_space_capacity"@, Rate::Gauge, "kB"@, "PC: Current permanent space capacity"@)),
        ("PU"@, descriptor("jvm.gc.stats.permanent_space_utilization"@, Rate::Gauge, "kB"@, "PU: permanent space utilization"@)),
        ("MC"@, descriptor("jvm.gc.stats.metaspace_capacity"@, Rate::Gauge, "kB"@, "MC: metaspace capacity"@)),
        ("MU"@, descriptor("jvm.gc.stats.metaspace_utilization"@, Rate::Gauge, "kB"@, "MU: metaspace utilization"@)),
        ("CCSC"@, descriptor("jvm.gc.stats.compressed_class_space_capacity"@, Rate::Gauge, "kB"@, "CCSC: Compressed class space capacity"@)),
        ("CCSU"@, descriptor("jvm.gc.stats.compressed_class_space_used"@, Rate::Gauge, "kB"@, "CCSU: Compressed class space used"@)),
        ("YGC"@, descriptor("jvm.gc.stats.young_generation_gc_events"@, Rate::Counter, "Event"@, "YGC: Number of young generation garbage collection events"@)),
        ("YGCT"@, descriptor("jvm.gc.stats.young_generation_gc_time"@, Rate::Counter, "s"@, "YGCT: Young generation garbage collection time"@)),
        ("FGC"@, descriptor("jvm.gc.stats.full_gc_events"@, Rate::Counter, "Event"@, "FGC: Number of full GC events."@)),
        ("FGCT"@, descriptor("jvm.gc.stats.full_gc_time"@, Rate::Counter, "s"@, "FGCT: Full garbage collection time"@)),
        ("GCT"@, descriptor("jvm.gc.stats.total_gc_time"@, Rate::Counter, "s"@, "GCT: Total garbage collection time"@)),
    ]
}

/// A table of statistics over sequences of characters.
pub open spec fn table_view(v: Seq<(String, Metadata)>) -> Seq<(Seq<char>, MetadataView)> {
    Seq::new(v.len(), |i: int| (v[i].0@, v[i].1@))
}

/// The statistics of `jstat -gc` by their column names, each with the
/// descriptor of its metric; always the same.
pub fn metadata() -> (r: Vec<(String, Metadata)>)
    ensures
        table_view(r@) == metadata_spec(),
{
    let list: Vec<(String, Metadata)> = vec![
        (String::from_str("S0C"), Metadata::new("jvm.gc.stats.survivor_space_0_capacity", Rate::Gauge, "kB", "S0C: Current survivor space 1 capacity")),
        (String::from_str("S1C"), Metadata::new("jvm.gc.stats.survivor_space_1_capacity", Rate::Gauge, "kB", "S1C: Current survivor space 1 capacity")),
        (String::from_str("S0U"), Metadata::new("jvm.gc.stats.survivor_space_0_utilization", Rate::Gauge, "kB", "S0U: Survivor space 1 utilization")),
        (String::from_str("S1U"), Metadata::new("jvm.gc.stats.survivor_space_1_utilization", Rate::Gauge, "kB", "S1U: Survivor space 1 utilization")),
        (String::from_str("EC"), Metadata::new("jvm.gc.stats.current_eden_space_capacity", Rate::Gauge, "kB", "EC: Current eden space capacity")),
        (String::from_str("EU"), Metadata::new("jvm.gc.stats.eden_space_utilization", Rate::Gauge, "kB", "EU: Eden space utilization")),
        (String::from_str("OC"), Metadata::new("jvm.gc.stats.current_old_space_capacity", Rate::Gauge, "kB", "OC: Current old capacity")),
        (String::from_str("OU"), Metadata::new("jvm.gc.stats.old_space_utilization", Rate::Gauge, "kB", "OU: Old space utilization")),
        (String::from_str("PC"), Metadata::new("jvm.gc.stats.current_permanent_space_capacity", Rate::Gauge, "kB", "PC: Current permanent space capacity")),
        (String::from_str("PU"), Metadata::new("jvm.gc.stats.permanent_space_utilization", Rate::Gauge, "kB", "PU: permanent space utilization")),
        (String::from_str("MC"), Metadata::new("jvm.gc.stats.metaspace_capacity", Rate::Gauge, "kB", "MC: metaspace capacity")),
        (String::from_str("MU"), Metadata::new("jvm.gc.stats.metaspace_utilization", Rate::Gauge, "kB", "MU: metaspace utilization")),
        (String::from_str("CCSC"), Metadata::new("jvm.gc.stats.compressed_class_space_capacity", Rate::Gauge, "kB", "CCSC: Compressed class space capacity")),
        (String::from_str("CCSU"), Metadata::new("jvm.gc.stats.compressed_class_space_used", Rate::Gauge, "kB", "CCSU: Compressed class space used")),
        (String::from_str("YGC"), Metadata::new("jvm.gc.stats.young_generation_gc_events", Rate::Counter, "Event", "YGC: Number of young generation garbage collection events")),
        (String::from_str("YGCT"), Metadata::new("jvm.gc.stats.young_generation_gc_time", Rate::Counter, "s", "YGCT: Young generation garbage collection time")),
        (String::from_str("FGC"), Metadata::new("jvm.gc.stats.full_gc_events", Rate::Counter, "Event", "FGC: Number of full GC events.")),
        (String::from_str("FGCT"), Metadata::new("jvm.gc.stats.full_gc_time", Rate::Counter, "s", "FGCT: Full garbage collection time")),
        (String::from_str("GCT"), Metadata::new("jvm.gc.stats.total_gc_time", Rate::Counter, "s", "GCT: Total garbage collection time")),
    ];
    assert(table_view(list@) =~= metadata_spec());
    list
}

/// The collector of the virtual machines.
#[derive(Debug)]
pub struct Jvm {
    id: Id,
    jvms: Vec<JvmConfig>,
    metadata: Vec<(String, Metadata)>,
}

impl Jvm {
    /// The collector's identity.
    pub closed spec fn id_spec(&self) -> Seq<char> {
        self.id@
    }

    /// The virtual machines that the collector watches.
    pub closed spec fn jvms_spec(&self) -> Seq<JvmConfigView> {
        config_views(self.jvms@)
    }

    /// The collector's table of statistics.
    pub closed spec fn table_spec(&self) -> Seq<(Seq<char>, MetadataView)> {
        table_view(self.metadata@)
    }

    pub fn id(&self) -> (r: &Id)
        ensures
            r@ == self.id_spec(),
    {
        &self.id
    }

    /// The virtual machines that the collector watches.
    pub fn jvms(&self) -> (r: &Vec<JvmConfig>)
        ensures
            config_views(r@) == self.jvms_spec(),
    {
        &self.jvms
    }

    /// The descriptors of the metrics that the collector reports, in the
    /// order of the table.
    pub fn metadata(&self) -> (r: Vec<Metadata>)
        ensures
            metadata_views(r@) == Seq::new(
                metadata_spec().len(),
                |i: int| metadata_spec()[i].1,
            ),
    {
        let table = metadata();
        let mut out: Vec<Metadata> = Vec::new();
        let mut i: usize = 0;
        while i < table.len()
            invariant
                i <= table.len(),
                out.len() == i,
                table_view(table@) == metadata_spec(),
                forall|k: int| 0 <= k < i ==> (#[trigger] out[k])@ == table[k].1@,
            decreases table.len() - i,
        {
            out.push(table[i].1.clone());
            i += 1;
        }
        assert(metadata_views(out@) =~= Seq::new(
            metadata_spec().len(),
            |i: int| metadata_spec()[i].1,
        )) by {
            assert(table_view(table@).len() == table.len());
            assert forall|k: int| 0 <= k < out.len() implies metadata_views(out@)[k]
                == metadata_spec()[k].1 by {
                assert(table_view(table@)[k] == (table[k].0@, table[k].1@));
            }
        }
        out
    }
}

/// The collector for the configuration: one that watches all its virtual
/// machines where it names any, none where it names none.
pub fn create_instances(config: &Config) -> (r: Vec<Jvm>)
    ensures
        r.len() == (if config.Jvm.len() > 0 {
            1nat
        } else {
            0nat
        }),
        forall|i: int|
            0 <= i < r.len() ==> (#[trigger] r[i]).id_spec() == "jvm"@ && r[i].jvms_spec()
                == config_views(config.Jvm@) && r[i].table_spec() == metadata_spec(),
{
    if config.Jvm.len() > 0 {
        let mut jvms: Vec<JvmConfig> = Vec::new();
        let mut i: usize = 0;
        while i < config.Jvm.len()
            invariant
                i <= config.Jvm.len(),
                jvms.len() == i,
                forall|k: int| 0 <= k < i ==> (#[trigger] jvms[k])@ == config.Jvm[k]@,
            decreases config.Jvm.len() - i,
        {
            jvms.push(config.Jvm[i].clone());
            i += 1;
        }
        assert(config_views(jvms@) =~= config_views(config.Jvm@));
        let collector = Jvm { id: String::from_str("jvm"), jvms: jvms, metadata: metadata() };
        let list: Vec<Jvm> = vec![collector];
        list
    } else {
        Vec::new()
    }
}

/// What a run of `command` that did not succeed is reported as: an error of
/// initialisation that describes the run.
pub open spec fn run_failure(command: Seq<char>, result: Result<CommandOutput, String>) -> Option<
    ErrorView,
> {
    match result {
        Ok(output) => if output.succeeded() {
            None
        } else {
            Some(ErrorView::InitError(output.failure_text(command)))
        },
        Err(reason) => Some(
            ErrorView::InitError(
                "Failed to run "@ + command + ", because '"@ + reason@ + "'."@,
            ),
        ),
    }
}

/// Accepts a run of `command` that succeeded and hands its output on. A run
/// that could not be started, given with the reason, or that failed is an
/// error of initialisation.
pub fn handle_command_output<'a>(
    command: &str,
    result: &'a Result<CommandOutput, String>,
) -> (r: Result<&'a CommandOutput, Error>)
    ensures
        match r {
            Ok(output) => *result == Ok::<CommandOutput, String>(*output) && run_failure(
                command@,
                *result,
            ) is None,
            Err(e) => run_failure(command@, *result) == Some(e@),
        },
{
    match result {
        Ok(output) => {
            if output.success() {
                Ok(output)
            } else {
                Err(Error::InitError(output.failure_message(command)))
            }
        },
        Err(reason) => {
            let mut msg = String::from_str("Failed to run ");
            msg.append(command);
            msg.append(", because '");
            msg.append(reason.as_str());
            msg.append("'.");
            Err(Error::InitError(msg))
        },
    }
}

/// A process of a virtual machine, as `jps` lists it.
#[derive(Debug)]
pub struct JvmProcess {
    pub pid: u16,
    pub class: String,
    pub cmdline: String,
}

/// A process over sequences of characters.
pub struct JvmProcessView {
    pub pid: u16,
    pub class: Seq<char>,
    pub cmdline: Seq<char>,
}

impl View for JvmProcess {
    type V = JvmProcessView;

    open spec fn view(&self) -> JvmProcessView {
        JvmProcessView { pid: self.pid, class: self.class@, cmdline: self.cmdline@ }
    }
}

/// The views of a sequence of processes, element by element.
pub open spec fn process_views(v: Seq<JvmProcess>) -> Seq<JvmProcessView> {
    Seq::new(v.len(), |i: int| v[i]@)
}

/// The words from the `i`-th on, with one blank between each two.
pub open spec fn joined_from(parts: Seq<Seq<char>>, i: int) -> Seq<char>
    decreases parts.len() - i,
{
    if i < 0 || i >= parts.len() {
        Seq::<char>::empty()
    } else if i == parts.len() - 1 {
        parts[i]
    } else {
        parts[i] + seq![' '] + joined_from(parts, i + 1)
    }
}

fn join_from(parts: &Vec<String>, from: usize) -> (r: String)
    ensures
        r@ == joined_from(views(parts@), from as int),
{
    let mut out = String::new();
    if from >= parts.len() {
        return out;
    }
    // The words are laid down from the last to the first.
    let mut i: usize = parts.len() - 1;
    assert(views(parts@)[i as int] == parts[i as int]@);
    out = parts[i].clone();
    while i > from
        invariant
            from <= i < parts.len(),
            out@ == joined_from(views(parts@), i as int),
        decreases i,
    {
        i -= 1;
        assert(views(parts@)[i as int] == parts[i as int]@);
        let mut next = parts[i].clone();
        next.push(' ');
        next.append(out.as_str());
        out = next;
    }
    out
}

/// The error for a line of `jps` with less than two words.
pub open spec fn short_line() -> ErrorView {
    ErrorView::CollectionError("Failed to parse jps output; expected 'PID CLASS CMDLINE'"@)
}

/// The error for a report of `jps` without a line.
pub open spec fn empty_report() -> ErrorView {
    ErrorView::CollectionError("Failed to parse jps output"@)
}

/// The process that a line of `jps` lists: its number, its class, and the
/// rest of the line as its command line, with one blank between the words.
pub open spec fn process_of(line: Seq<char>) -> Result<JvmProcessView, ErrorView> {
    let cols = words(line);
    if cols.len() < 2 {
        Err(short_line())
    } else {
        match decimal_u16(cols[0]) {
            Err(e) => Err(parse_int_failure(e)),
            Ok(pid) => Ok(
                JvmProcessView { pid: pid as u16, class: cols[1], cmdline: joined_from(cols, 2) },
            ),
        }
    }
}

/// The processes that the first `n` lines list, or the error of the first
/// line that lists none.
pub open spec fn processes_of(all: Seq<Seq<char>>, n: int) -> Result<Seq<JvmProcessView>, ErrorView>
    decreases n,
{
    if n <= 0 || n > all.len() {
        Ok(Seq::<JvmProcessView>::empty())
    } else {
        match processes_of(all, n - 1) {
            Err(e) => Err(e),
            Ok(front) => match process_of(all[n - 1]) {
                Err(e) => Err(e),
                Ok(p) => Ok(front.push(p)),
            },
        }
    }
}

/// The processes that a report of `jps` lists.
pub open spec fn jps_spec(stdout: Seq<char>) -> Result<Seq<JvmProcessView>, ErrorView> {
    let all = lines_of(stdout);
    if all.len() == 0 {
        Err(empty_report())
    } else {
        processes_of(all, all.len() as int)
    }
}

/// Reads the report of `jps -vl`: one process on every line.
pub fn parse_jps(stdout: &str) -> (r: Result<Vec<JvmProcess>, Error>)
    ensures
        match r {
            Ok(v) => jps_spec(stdout@) == Ok::<Seq<JvmProcessView>, ErrorView>(
                process_views(v@),
            ),
            Err(e) => jps_spec(stdout@) == Err::<Seq<JvmProcessView>, ErrorView>(e@),
        },
{
    let all = lines(stdout);
    assert(views(all@).len() == all.len());
    if all.len() == 0 {
        return Err(Error::CollectionError(String::from_str("Failed to parse jps output")));
    }
    let mut jps: Vec<JvmProcess> = Vec::new();
    assert(process_views(jps@) =~= Seq::<JvmProcessView>::empty());
    let mut i: usize = 0;
    while i < all.len()
        invariant
            i <= all.len(),
            all.len() > 0,
            views(all@) == lines_of(stdout@),
            views(all@).len() == all.len(),
            processes_of(lines_of(stdout@), i as int) == Ok::<Seq<JvmProcessView>, ErrorView>(
                process_views(jps@),
            ),
        decreases all.len() - i,
    {
        assert(views(all@)[i as int] == all[i as int]@);
        let cols = split_whitespace(all[i].as_str());
        assert(views(cols@).len() == cols.len());
        if cols.len() < 2 {
            proof {
                lemma_processes_fail(lines_of(stdout@), i + 1, all.len() as int);
            }
            return Err(
                Error::CollectionError(
                    String::from_str("Failed to parse jps output; expected 'PID CLASS CMDLINE'"),
                ),
            );
        }
        assert(views(cols@)[0] == cols[0]@);
        assert(views(cols@)[1] == cols[1]@);
        match parse_u16(cols[0].as_str()) {
            Err(e) => {
                proof {
                    lemma_processes_fail(lines_of(stdout@), i + 1, all.len() as int);
                }
                return Err(Error::from_parse_int(e));
            },
            Ok(pid) => {
                let jp = JvmProcess { pid: pid, class: cols[1].clone(), cmdline: join_from(&cols, 2) };
                proof {
                    assert(process_views(jps@.push(jp)) =~= process_views(jps@).push(jp@));
                }
                jps.push(jp);
            },
        }
        i += 1;
    }
    Ok(jps)
}

/// Once a line lists no process, the error stays whatever follows.
proof fn lemma_processes_fail(all: Seq<Seq<char>>, n: int, m: int)
    requires
        0 < n <= m <= all.len(),
        processes_of(all, n) is Err,
    ensures
        processes_of(all, m) == processes_of(all, n),
    decreases m - n,
{
    if n < m {
        lemma_processes_fail(all, n, m - 1);
    }
}

/// What a run of `jps -vl` says: the processes it lists, or why it says
/// nothing.
pub open spec fn jps_outcome(result: Result<CommandOutput, String>) -> Result<
    Seq<JvmProcessView>,
    ErrorView,
> {
    match run_failure("jps"@, result) {
        Some(failure) => Err(failure),
        None => jps_spec(result->Ok_0.stdout@),
    }
}

/// Reads the processes from a run of `jps -vl`.
pub fn get_jps(result: &Result<CommandOutput, String>) -> (r: Result<Vec<JvmProcess>, Error>)
    ensures
        match r {
            Ok(v) => jps_outcome(*result) == Ok::<Seq<JvmProcessView>, ErrorView>(
                process_views(v@),
            ),
            Err(e) => jps_outcome(*result) == Err::<Seq<JvmProcessView>, ErrorView>(e@),
        },
{
    match handle_command_output("jps", result) {
        Err(e) => Err(e),
        Ok(output) => parse_jps(output.stdout.as_str()),
    }
}

/// A process, and the name of the virtual machine that it was told to be, if
/// it was told to be one.
#[derive(Debug)]
pub struct IdentifiedJvm {
    pub pid: u16,
    pub name: Option<String>,
}

/// Whether the pattern of `config` tells the process: it matches somewhere in
/// the class or in the command line.
pub open spec fn tells(config: JvmConfigView, jp: JvmProcessView) -> bool {
    matches_somewhere(config.command, jp.class) || matches_somewhere(config.command, jp.cmdline)
}

/// The name of the first of the virtual machines from the `i`-th on whose
/// pattern tells the process; none where none does.
pub open spec fn name_from(configs: Seq<JvmConfigView>, jp: JvmProcessView, i: int) -> Option<
    Seq<char>,
>
    decreases configs.len() - i,
{
    if i < 0 || i >= configs.len() {
        None
    } else if tells(configs[i], jp) {
        Some(configs[i].name)
    } else {
        name_from(configs, jp, i + 1)
    }
}

/// Whether the compiled pattern tells the process: it matches somewhere in
/// the class or in the command line.
fn told_by(pattern: &Pattern, jp: &JvmProcess) -> (r: bool)
    ensures
        r == (matches_somewhere(pattern.source(), jp.class@) || matches_somewhere(
            pattern.source(),
            jp.cmdline@,
        )),
{
    is_match(pattern, jp.class.as_str()) || is_match(pattern, jp.cmdline.as_str())
}

/// The name of the first of the virtual machines from the `i`-th on that
/// tells a process, where `told` says of each of the first machines whether
/// it does; none where none of them does.
pub open spec fn name_among(configs: Seq<JvmConfigView>, told: Seq<bool>, i: int) -> Option<
    Seq<char>,
>
    decreases told.len() - i,
{
    if i < 0 || i >= told.len() || i >= configs.len() {
        None
    } else if told[i] {
        Some(configs[i].name)
    } else {
        name_among(configs, told, i + 1)
    }
}

/// Gives a process its name, where `told` says of each of the first virtual
/// machines whether its pattern tells the process: the name of the first
/// that does; none where none of them does.
pub fn name_for(jvm_configs: &Vec<JvmConfig>, told: &Vec<bool>) -> (r: Option<String>)
    requires
        told.len() <= jvm_configs.len(),
    ensures
        opt_view(r) == name_among(config_views(jvm_configs@), told@, 0),
{
    let mut i: usize = 0;
    while i < told.len()
        invariant
            i <= told.len() <= jvm_configs.len(),
            name_among(config_views(jvm_configs@), told@, 0) == name_among(
                config_views(jvm_configs@),
                told@,
                i as int,
            ),
        decreases told.len() - i,
    {
        assert(config_views(jvm_configs@)[i as int] == jvm_configs[i as int]@);
        if told[i] {
            return Some(jvm_configs[i].Name.clone());
        }
        i += 1;
    }
    None
}

/// Where `told` says of the first virtual machines truly whether they tell
/// the process, and stops at the first that does or at the last machine, the
/// name it leads to is the name of the first machine that tells the process.
proof fn lemma_name_among(configs: Seq<JvmConfigView>, jp: JvmProcessView, told: Seq<bool>, i: int)
    requires
        told.len() <= configs.len(),
        0 <= i <= told.len(),
        forall|k: int| 0 <= k < told.len() ==> told[k] == tells(#[trigger] configs[k], jp),
        told.len() == configs.len() || exists|k: int| i <= k < told.len() && told[k],
    ensures
        name_among(configs, told, i) == name_from(configs, jp, i),
    decreases told.len() - i,
{
    if i < told.len() {
        assert(told[i] == tells(configs[i], jp));
        if !told[i] {
            if told.len() != configs.len() {
                let k = choose|k: int| i <= k < told.len() && told[k];
                assert(i + 1 <= k < told.len() && told[k]);
            }
            lemma_name_among(configs, jp, told, i + 1);
        }
    }
}

/// Tells which of the virtual machines the process is: the first whose
/// pattern matches its class or its command line. The patterns are compiled
/// one by one until one matches; the answer is none at all where the regular
/// expression compiler refuses one of them. With no virtual machine to look
/// for no pattern is compiled, and the answer is the process without a name.
pub fn identify_jvms(jvm_configs: &Vec<JvmConfig>, jp: &JvmProcess) -> (r: Option<IdentifiedJvm>)
    ensures
        jvm_configs.len() == 0 ==> r is Some,
        match r {
            Some(jvm) => jvm.pid == jp.pid && opt_view(jvm.name) == name_from(
                config_views(jvm_configs@),
                jp@,
                0,
            ),
            None => true,
        },
{
    let mut told: Vec<bool> = Vec::new();
    let mut found = false;
    while told.len() < jvm_configs.len() && !found
        invariant
            told.len() <= jvm_configs.len(),
            forall|k: int|
                0 <= k < told.len() ==> told[k] == tells(
                    #[trigger] config_views(jvm_configs@)[k],
                    jp@,
                ),
            found ==> told.len() > 0 && told[told.len() - 1],
        decreases jvm_configs.len() - told.len() + (if found { 0int } else { 1int }),
    {
        let i = told.len();
        assert(config_views(jvm_configs@)[i as int] == jvm_configs[i as int]@);
        match compile(jvm_configs[i].Command.as_str()) {
            Err(_) => {
                return None;
            },
            Ok(pattern) => {
                found = told_by(&pattern, jp);
                told.push(found);
            },
        }
    }
    proof {
        lemma_name_among(config_views(jvm_configs@), jp@, told@, 0);
    }
    Some(IdentifiedJvm { pid: jp.pid, name: name_for(jvm_configs, &told) })
}

/// One statistic of the garbage collection of a virtual machine.
#[derive(Debug)]
pub struct GcStat {
    pub jvm_name: String,
    pub name: String,
    /// The value as `jstat` wrote it, a number in decimal notation.
    pub value: String,
}

/// A statistic over sequences of characters.
pub struct GcStatView {
    pub jvm_name: Seq<char>,
    pub name: Seq<char>,
    pub value: Seq<char>,
}

impl View for GcStat {
    type V = GcStatView;

    open spec fn view(&self) -> GcStatView {
        GcStatView { jvm_name: self.jvm_name@, name: self.name@, value: self.value@ }
    }
}

/// The views of a sequence of statistics, element by element.
pub open spec fn gcstat_views(v: Seq<GcStat>) -> Seq<GcStatView> {
    Seq::new(v.len(), |i: int| v[i]@)
}

/// Whether every value from the `i`-th on has its name among `names_len`
/// names, as far as the values are read: reading ends at the first value that
/// is no number.
pub open spec fn values_named(names_len: int, values: Seq<Seq<char>>, i: int) -> bool
    decreases values.len() - i,
{
    i < 0 || i >= values.len() || (i < names_len && (!number_text(values[i]) || values_named(
        names_len,
        values,
        i + 1,
    )))
}

/// Whether the report of `jstat` can be read: where it has two lines, the
/// first has to name the values of the second.
pub open spec fn readable(stdout: Seq<char>) -> bool {
    let all = lines_of(stdout);
    all.len() == 2 ==> values_named(words(all[0]).len() as int, words(all[1]), 0)
}

/// The error for a value that is no number.
pub open spec fn no_number() -> ErrorView {
    ErrorView::CollectionError("Failed to parse Int, because 'invalid float literal'"@)
}

/// The error for a report of `jstat` that has not two lines.
pub open spec fn odd_report(pid: u16) -> ErrorView {
    ErrorView::CollectionError(
        "Failed to parse jstat output for pid "@ + decimal_of(pid as int),
    )
}

/// The statistics that the first `n` values give for the virtual machine
/// `jvm_name`, or the error for the first value that is no number.
pub open spec fn stats_of(
    jvm_name: Seq<char>,
    names: Seq<Seq<char>>,
    values: Seq<Seq<char>>,
    n: int,
) -> Result<Seq<GcStatView>, ErrorView>
    decreases n,
{
    if n <= 0 || n > values.len() {
        Ok(Seq::<GcStatView>::empty())
    } else {
        match stats_of(jvm_name, names, values, n - 1) {
            Err(e) => Err(e),
            Ok(front) => if number_text(values[n - 1]) {
                Ok(
                    front.push(
                        GcStatView { jvm_name: jvm_name, name: names[n - 1], value: values[n - 1] },
                    ),
                )
            } else {
                Err(no_number())
            },
        }
    }
}

/// What a report of `jstat -gc` says of the virtual machine `jvm_name` with
/// the process number `pid`: of its two lines the first names the statistics
/// and the second holds their values.
pub open spec fn jstat_spec(jvm_name: Seq<char>, pid: u16, stdout: Seq<char>) -> Result<
    Seq<GcStatView>,
    ErrorView,
> {
    let all = lines_of(stdout);
    if all.len() != 2 {
        Err(odd_report(pid))
    } else {
        stats_of(jvm_name, words(all[0]), words(all[1]), words(all[1]).len() as int)
    }
}

/// Tells whether the report of `jstat` can be read.
pub fn is_readable(stdout: &str) -> (r: bool)
    ensures
        r == readable(stdout@),
{
    let all = lines(stdout);
    assert(views(all@).len() == all.len());
    if all.len() != 2 {
        return true;
    }
    assert(views(all@)[0] == all@[0]@);
    assert(views(all@)[1] == all@[1]@);
    let names = split_whitespace(all[0].as_str());
    let values = split_whitespace(all[1].as_str());
    let ghost ns = words(lines_of(stdout@)[0]);
    let ghost vs = words(lines_of(stdout@)[1]);
    assert(views(names@).len() == names.len());
    assert(views(values@).len() == values.len());
    let mut i: usize = 0;
    while i < values.len()
        invariant
            lines_of(stdout@).len() == 2,
            ns == words(lines_of(stdout@)[0]),
            vs == words(lines_of(stdout@)[1]),
            views(names@) == ns,
            views(values@) == vs,
            ns.len() == names.len(),
            vs.len() == values.len(),
            readable(stdout@) == values_named(ns.len() as int, vs, i as int),
        decreases values.len() - i,
    {
        if i >= names.len() {
            return false;
        }
        assert(vs[i as int] == values@[i as int]@);
        if !is_number(values[i].as_str()) {
            return true;
        }
        i += 1;
    }
    true
}

/// Once a value is no number, the error stays whatever follows.
proof fn lemma_stats_fail(
    jvm_name: Seq<char>,
    names: Seq<Seq<char>>,
    values: Seq<Seq<char>>,
    n: int,
    m: int,
)
    requires
        0 < n <= m <= values.len(),
        stats_of(jvm_name, names, values, n) is Err,
    ensures
        stats_of(jvm_name, names, values, m) == stats_of(jvm_name, names, values, n),
    decreases m - n,
{
    if n < m {
        lemma_stats_fail(jvm_name, names, values, n, m - 1);
    }
}

/// Reads the report of `jstat -gc` on the virtual machine `jvm`.
pub fn parse_jstat(jvm: &IdentifiedJvm, stdout: &str) -> (r: Result<Vec<GcStat>, Error>)
    requires
        jvm.name is Some,
        readable(stdout@),
    ensures
        match r {
            Ok(v) => jstat_spec(jvm.name->Some_0@, jvm.pid, stdout@) == Ok::<
                Seq<GcStatView>,
                ErrorView,
            >(gcstat_views(v@)),
            Err(e) => jstat_spec(jvm.name->Some_0@, jvm.pid, stdout@) == Err::<
                Seq<GcStatView>,
                ErrorView,
            >(e@),
        },
{
    let jvm_name: &String = match &jvm.name {
        Some(name) => name,
        None => {
            return Ok(Vec::new());
        },
    };
    let all = lines(stdout);
    assert(views(all@).len() == all.len());
    if all.len() != 2 {
        let pid = decimal_text(jvm.pid as i64);
        return Err(
            Error::CollectionError(join2("Failed to parse jstat output for pid ", pid.as_str())),
        );
    }
    assert(views(all@)[0] == all@[0]@);
    assert(views(all@)[1] == all@[1]@);
    let names = split_whitespace(all[0].as_str());
    let values = split_whitespace(all[1].as_str());
    let ghost ns = words(lines_of(stdout@)[0]);
    let ghost vs = words(lines_of(stdout@)[1]);
    assert(views(names@).len() == names.len());
    assert(views(values@).len() == values.len());
    let mut gcstats: Vec<GcStat> = Vec::new();
    assert(gcstat_views(gcstats@) =~= Seq::<GcStatView>::empty());
    let mut i: usize = 0;
    while i < values.len()
        invariant
            i <= values.len(),
            lines_of(stdout@).len() == 2,
            ns == words(lines_of(stdout@)[0]),
            vs == words(lines_of(stdout@)[1]),
            views(names@) == ns,
            views(values@) == vs,
            ns.len() == names.len(),
            vs.len() == values.len(),
            values_named(ns.len() as int, vs, i as int),
            jvm.name is Some,
            jvm_name@ == jvm.name->Some_0@,
            stats_of(jvm_name@, ns, vs, i as int) == Ok::<Seq<GcStatView>, ErrorView>(
                gcstat_views(gcstats@),
            ),
        decreases values.len() - i,
    {
        assert(vs[i as int] == values@[i as int]@);
        assert(ns[i as int] == names@[i as int]@);
        if !is_number(values[i].as_str()) {
            proof {
                assert(stats_of(jvm_name@, ns, vs, i + 1) == Err::<Seq<GcStatView>, ErrorView>(
                    no_number(),
                ));
                lemma_stats_fail(jvm_name@, ns, vs, i + 1, vs.len() as int);
            }
            return Err(
                Error::CollectionError(
                    String::from_str("Failed to parse Int, because 'invalid float literal'"),
                ),
            );
        }
        let gcstat = GcStat {
            jvm_name: jvm_name.clone(),
            name: names[i].clone(),
            value: values[i].clone(),
        };
        proof {
            assert(gcstat_views(gcstats@.push(gcstat)) =~= gcstat_views(gcstats@).push(gcstat@));
        }
        gcstats.push(gcstat);
        i += 1;
    }
    Ok(gcstats)
}

/// What a run of `jstat -gc` says of the virtual machine `jvm_name` with the
/// process number `pid`.
pub open spec fn jstat_outcome(
    jvm_name: Seq<char>,
    pid: u16,
    result: Result<CommandOutput, String>,
) -> Result<Seq<GcStatView>, ErrorView> {
    match run_failure("jstat"@, result) {
        Some(failure) => Err(failure),
        None => jstat_spec(jvm_name, pid, result->Ok_0.stdout@),
    }
}

/// Reads the statistics of the virtual machine `jvm` from a run of
/// `jstat -gc`.
pub fn sample_gc_stats(jvm: &IdentifiedJvm, result: &Result<CommandOutput, String>) -> (r: Result<
    Vec<GcStat>,
    Error,
>)
    requires
        jvm.name is Some,
        result is Ok && result->Ok_0.succeeded() ==> readable(result->Ok_0.stdout@),
    ensures
        match r {
            Ok(v) => jstat_outcome(jvm.name->Some_0@, jvm.pid, *result) == Ok::<
                Seq<GcStatView>,
                ErrorView,
            >(gcstat_views(v@)),
            Err(e) => jstat_outcome(jvm.name->Some_0@, jvm.pid, *result) == Err::<
                Seq<GcStatView>,
                ErrorView,
            >(e@),
        },
{
    match handle_command_output("jstat", result) {
        Err(e) => Err(e),
        Ok(output) => parse_jstat(jvm, output.stdout.as_str()),
    }
}

/// The metric of the statistic `name` in the table from its `i`-th entry on.
pub open spec fn metric_from(table: Seq<(Seq<char>, MetadataView)>, name: Seq<char>, i: int) -> Option<
    Seq<char>,
>
    decreases table.len() - i,
{
    if i < 0 || i >= table.len() {
        None
    } else if table[i].0 == name {
        Some(table[i].1.metric)
    } else {
        metric_from(table, name, i + 1)
    }
}

/// What a statistic is reported as: its value under the metric that the
/// table has for its name, with the name of the virtual machine as a tag;
/// nothing where the table does not have the name.
pub open spec fn gc_reading(table: Seq<(Seq<char>, MetadataView)>, gcstat: GcStatView) -> Option<
    Reading,
> {
    match metric_from(table, gcstat.name, 0) {
        Some(metric) => Some(
            Reading {
                metric: metric,
                value: ValueView::Decimal(gcstat.value),
                tags: Map::<Seq<char>, Seq<char>>::empty().insert("jvm_name"@, gcstat.jvm_name),
            },
        ),
        None => None,
    }
}

/// The sample for a statistic, if the table knows it.
pub fn gcstat_to_sample(metadata: &Vec<(String, Metadata)>, gcstat: &GcStat) -> (r: Option<Sample>)
    ensures
        match r {
            Some(s) => gc_reading(table_view(metadata@), gcstat@) == Some(s.reading()),
            None => gc_reading(table_view(metadata@), gcstat@) is None,
        },
{
    let mut i: usize = 0;
    while i < metadata.len()
        invariant
            i <= metadata.len(),
            metric_from(table_view(metadata@), gcstat.name@, 0) == metric_from(
                table_view(metadata@),
                gcstat.name@,
                i as int,
            ),
        decreases metadata.len() - i,
    {
        assert(table_view(metadata@)[i as int] == (metadata[i as int].0@, metadata[i as int].1@));
        if same_text(metadata[i].0.as_str(), gcstat.name.as_str()) {
            let mut tags = Tags::new();
            tags.insert(String::from_str("jvm_name"), gcstat.jvm_name.clone());
            return Some(
                Sample::new_with_tags(
                    metadata[i].1.metric.as_str(),
                    Value::Decimal(gcstat.value.clone()),
                    tags,
                ),
            );
        }
        i += 1;
    }
    None
}

/// A process that was told to be a virtual machine, over sequences of
/// characters.
pub struct IdentifiedView {
    pub pid: u16,
    pub name: Seq<char>,
}

/// Those of the first `n` processes that are told to be one of the virtual
/// machines, in order, each with the machine's name.
pub open spec fn identified(
    configs: Seq<JvmConfigView>,
    processes: Seq<JvmProcessView>,
    n: int,
) -> Seq<IdentifiedView>
    decreases n,
{
    if n <= 0 || n > processes.len() {
        Seq::<IdentifiedView>::empty()
    } else {
        let front = identified(configs, processes, n - 1);
        match name_from(configs, processes[n - 1], 0) {
            Some(name) => front.push(IdentifiedView { pid: processes[n - 1].pid, name: name }),
            None => front,
        }
    }
}

/// The readings of the first `n` statistics, in order, of those that the
/// table knows.
pub open spec fn gc_readings(table: Seq<(Seq<char>, MetadataView)>, stats: Seq<GcStat>, n: int) -> Seq<
    Reading,
>
    decreases n,
{
    if n <= 0 || n > stats.len() {
        Seq::<Reading>::empty()
    } else {
        let front = gc_readings(table, stats, n - 1);
        match gc_reading(table, stats[n - 1]@) {
            Some(r) => front.push(r),
            None => front,
        }
    }
}

/// The readings of the statistics of the first `n` virtual machines, one
/// machine after the other; a machine whose statistics could not be read
/// adds nothing.
pub open spec fn all_gc_readings(
    table: Seq<(Seq<char>, MetadataView)>,
    results: Seq<Result<Vec<GcStat>, Error>>,
    n: int,
) -> Seq<Reading>
    decreases n,
{
    if n <= 0 || n > results.len() {
        Seq::<Reading>::empty()
    } else {
        let front = all_gc_readings(table, results, n - 1);
        match results[n - 1] {
            Ok(stats) => front + gc_readings(table, stats@, stats@.len() as int),
            Err(_) => front,
        }
    }
}

impl Jvm {
    /// Picks from the processes those that are one of the watched virtual
    /// machines, in order. The answer is none at all where a pattern that had
    /// to be tried is no regular expression. Without a process, or without a
    /// virtual machine to look for, no pattern is tried and there is an
    /// answer.
    pub fn watched(&self, processes: &Vec<JvmProcess>) -> (r: Option<Vec<IdentifiedJvm>>)
        ensures
            processes.len() == 0 || self.jvms_spec().len() == 0 ==> r is Some,
            match r {
                Some(v) => v.len() == identified(
                    self.jvms_spec(),
                    process_views(processes@),
                    processes.len() as int,
                ).len() && forall|k: int|
                    0 <= k < v.len() ==> (#[trigger] v[k]).name is Some && v[k].pid == identified(
                        self.jvms_spec(),
                        process_views(processes@),
                        processes.len() as int,
                    )[k].pid && v[k].name->Some_0@ == identified(
                        self.jvms_spec(),
                        process_views(processes@),
                        processes.len() as int,
                    )[k].name,
                None => true,
            },
    {
        let mut out: Vec<IdentifiedJvm> = Vec::new();
        let mut i: usize = 0;
        while i < processes.len()
            invariant
                i <= processes.len(),
                out.len() == identified(self.jvms_spec(), process_views(processes@), i as int).len(),
                forall|k: int|
                    0 <= k < out.len() ==> (#[trigger] out[k]).name is Some && out[k].pid
                        == identified(self.jvms_spec(), process_views(processes@), i as int)[k].pid
                        && out[k].name->Some_0@ == identified(
                        self.jvms_spec(),
                        process_views(processes@),
                        i as int,
                    )[k].name,
            decreases processes.len() - i,
        {
            assert(process_views(processes@)[i as int] == processes[i as int]@);
            assert(self.jvms_spec().len() == self.jvms.len());
            match identify_jvms(&self.jvms, &processes[i]) {
                None => {
                    return None;
                },
                Some(jvm) => {
                    if jvm.name.is_some() {
                        out.push(jvm);
                    }
                },
            }
            i += 1;
        }
        Some(out)
    }

    /// The samples for the statistics of the virtual machines, one machine
    /// after the other: one for each statistic that the table knows. A
    /// machine whose statistics could not be read adds nothing.
    pub fn samples(&self, results: &Vec<Result<Vec<GcStat>, Error>>) -> (r: Vec<Sample>)
        ensures
            readings(r@) == all_gc_readings(self.table_spec(), results@, results.len() as int),
    {
        let mut out: Vec<Sample> = Vec::new();
        assert(readings(out@) =~= Seq::<Reading>::empty());
        let mut i: usize = 0;
        while i < results.len()
            invariant
                i <= results.len(),
                readings(out@) == all_gc_readings(self.table_spec(), results@, i as int),
            decreases results.len() - i,
        {
            match &results[i] {
                Err(_) => {},
                Ok(stats) => {
                    let ghost before = readings(out@);
                    let mut k: usize = 0;
                    assert(before + gc_readings(self.table_spec(), stats@, 0) =~= before);
                    while k < stats.len()
                        invariant
                            k <= stats.len(),
                            readings(out@) == before + gc_readings(
                                self.table_spec(),
                                stats@,
                                k as int,
                            ),
                        decreases stats.len() - k,
                    {
                        match gcstat_to_sample(&self.metadata, &stats[k]) {
                            Some(sample) => {
                                proof {
                                    assert(readings(out@.push(sample)) =~= readings(out@).push(
                                        sample.reading(),
                                    ));
                                    assert(before + gc_readings(
                                        self.table_spec(),
                                        stats@,
                                        k as int,
                                    ).push(sample.reading()) =~= (before + gc_readings(
                                        self.table_spec(),
                                        stats@,
                                        k as int,
                                    )).push(sample.reading()));
                                }
                                out.push(sample);
                            },
                            None => {},
                        }
                        k += 1;
                    }
                },
            }
            i += 1;
        }
        out
    }
}

} // verus!
