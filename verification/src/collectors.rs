//! Collectors: the sources of samples, and what they have in common.

use vstd::prelude::*;
use crate::bosun::{Metadata, MetadataView, Sample};
use crate::collectors::galera::{Galera, GaleraView};
use crate::collectors::hasipaddr::{HasIpAddr, Ipv4};
use crate::collectors::jvm::{Jvm, JvmConfigView};
use crate::collectors::megaraid::{Megaraid, MegaraidView};
use crate::collectors::mongo::{Mongo, MongoView};
use crate::collectors::postfix::Postfix;
use crate::collectors::rscollector::RsCollector;
use crate::config::Config;
use crate::number::ParseIntError;
use crate::number::{decimal_of, decimal_text};
use crate::text::{join2, join3, views};

pub mod galera;
pub mod hasipaddr;
pub mod jvm;
pub mod megaraid;
pub mod mongo;
pub mod postfix;
pub mod rscollector;

verus! {

/// Identity of a collector: its kind, `#`, and what tells the instance apart.
pub type Id = String;

/// What can go wrong in a collector.
#[derive(Debug)]
pub enum Error {
    /// The collector cannot establish what it depends on.
    InitError(String),
    /// A collection failed; the samples of that call are lost.
    CollectionError(String),
    /// Releasing the collector's resources failed.
    ShutdownError(String),
}

/// An error with its message as a sequence of characters.
pub enum ErrorView {
    InitError(Seq<char>),
    CollectionError(Seq<char>),
    ShutdownError(Seq<char>),
}

impl View for Error {
    type V = ErrorView;

    open spec fn view(&self) -> ErrorView {
        match self {
            Error::InitError(m) => ErrorView::InitError(m@),
            Error::CollectionError(m) => ErrorView::CollectionError(m@),
            Error::ShutdownError(m) => ErrorView::ShutdownError(m@),
        }
    }
}

/// The collection error that stands for a number that could not be parsed.
pub open spec fn parse_int_failure(err: ParseIntError) -> ErrorView {
    ErrorView::CollectionError(
        "Failed to parse Int, because '"@ + err.description_spec() + "'"@,
    )
}

impl Error {
    /// The error as a line of text.
    pub open spec fn message_spec(self) -> Seq<char> {
        match self {
            Error::InitError(m) => "Collectors error: Init failed because "@ + m@,
            Error::CollectionError(m) => "Collectors error: Collection failed because "@ + m@,
            Error::ShutdownError(m) => "Collectors error: Shutdown failed because "@ + m@,
        }
    }

    /// The error as a line of text.
    pub fn message(&self) -> (r: String)
        ensures
            r@ == self.message_spec(),
    {
        match self {
            Error::InitError(m) => join2("Collectors error: Init failed because ", m.as_str()),
            Error::CollectionError(m) => join2(
                "Collectors error: Collection failed because ",
                m.as_str(),
            ),
            Error::ShutdownError(m) => join2(
                "Collectors error: Shutdown failed because ",
                m.as_str(),
            ),
        }
    }

    /// The collection error for a number that could not be parsed.
    pub fn from_parse_int(err: ParseIntError) -> (r: Error)
        ensures
            r@ == parse_int_failure(err),
    {
        Error::CollectionError(join3("Failed to parse Int, because '", err.description(), "'"))
    }

    /// A copy of the error.
    pub fn clone(&self) -> (r: Error)
        ensures
            r@ == self@,
    {
        match self {
            Error::InitError(m) => Error::InitError(m.clone()),
            Error::CollectionError(m) => Error::CollectionError(m.clone()),
            Error::ShutdownError(m) => Error::ShutdownError(m.clone()),
        }
    }
}

/// How a command ended and what it wrote.
#[derive(Debug)]
pub struct CommandOutput {
    /// The exit code; none where a signal ended the command.
    pub code: Option<i32>,
    /// What the command wrote to its standard output, as text.
    pub stdout: String,
    /// What the command wrote to its standard error, as text.
    pub stderr: String,
}

impl CommandOutput {
    /// A command succeeds by leaving with the exit code zero.
    pub open spec fn succeeded(&self) -> bool {
        self.code == Some(0i32)
    }

    /// Whether the command succeeded.
    pub fn success(&self) -> (r: bool)
        ensures
            r == self.succeeded(),
    {
        match self.code {
            Some(code) => code == 0,
            None => false,
        }
    }

    /// How a failed run of `command` is described.
    pub open spec fn failure_text(&self, command: Seq<char>) -> Seq<char> {
        let code = match self.code {
            Some(c) => decimal_of(c as int),
            None => "<received signal>"@,
        };
        "Running "@ + command + " returned exit code "@ + code + ": out '"@ + self.stdout@
            + "', err '"@ + self.stderr@ + "'."@
    }

    /// Describes a failed run of `command`: its name, its exit code and what
    /// it wrote.
    pub fn failure_message(&self, command: &str) -> (r: String)
        ensures
            r@ == self.failure_text(command@),
    {
        let code = match self.code {
            Some(c) => decimal_text(c as i64),
            None => String::from_str("<received signal>"),
        };
        let mut out = String::from_str("Running ");
        out.append(command);
        out.append(" returned exit code ");
        out.append(code.as_str());
        out.append(": out '");
        out.append(self.stdout.as_str());
        out.append("', err '");
        out.append(self.stderr.as_str());
        out.append("'.");
        out
    }
}

/// What every source of samples offers to its runner.
pub trait Collector {
    /// Establishes what the collector depends on. It may be called again
    /// after a failed collection.
    fn init(&mut self) -> Result<(), Box<Error>>;

    /// The collector's identity, which does not change.
    fn id(&self) -> &Id;

    /// The descriptors of the collector's metrics.
    fn metadata(&self) -> Vec<Metadata>;

    /// The samples as they are now.
    fn collect(&self) -> Result<Vec<Sample>, Error>;

    /// Releases what the collector holds.
    fn shutdown(&mut self);

    /// On every how many ticks of the scheduler the collector is asked.
    fn get_tick_interval(&self) -> i32 {
        1
    }
}

/// A collector of any kind, with its settings.
#[derive(Debug)]
pub enum AnyCollector {
    Galera(Galera),
    HasIpAddr(HasIpAddr),
    Jvm(Jvm),
    Mongo(Mongo),
    Postfix(Postfix),
    Megaraid(Megaraid),
    RsCollector(RsCollector),
}

/// A collector of any kind over sequences.
pub enum AnyCollectorView {
    Galera(GaleraView),
    HasIpAddr { id: Seq<char>, ipv4: Seq<Ipv4> },
    Jvm { id: Seq<char>, jvms: Seq<JvmConfigView>, table: Seq<(Seq<char>, MetadataView)> },
    Mongo(MongoView),
    Postfix { id: Seq<char> },
    Megaraid(MegaraidView),
    RsCollector { id: Seq<char> },
}

impl View for AnyCollector {
    type V = AnyCollectorView;

    open spec fn view(&self) -> AnyCollectorView {
        match self {
            AnyCollector::Galera(c) => AnyCollectorView::Galera(c@),
            AnyCollector::HasIpAddr(c) => AnyCollectorView::HasIpAddr {
                id: c.id_spec(),
                ipv4: c.ipv4_spec(),
            },
            AnyCollector::Jvm(c) => AnyCollectorView::Jvm {
                id: c.id_spec(),
                jvms: c.jvms_spec(),
                table: c.table_spec(),
            },
            AnyCollector::Mongo(c) => AnyCollectorView::Mongo(c@),
            AnyCollector::Postfix(c) => AnyCollectorView::Postfix { id: c.id_spec() },
            AnyCollector::Megaraid(c) => AnyCollectorView::Megaraid(c@),
            AnyCollector::RsCollector(c) => AnyCollectorView::RsCollector { id: c.id_spec() },
        }
    }
}

/// The views of a sequence of collectors, element by element.
pub open spec fn collector_views(v: Seq<AnyCollector>) -> Seq<AnyCollectorView> {
    Seq::new(v.len(), |i: int| v[i]@)
}

/// The Galera collectors that a configuration asks for.
pub open spec fn galera_part(config: Config) -> Seq<AnyCollectorView> {
    match config.Galera {
        Some(cfg) => if galera::usable(cfg) {
            seq![AnyCollectorView::Galera(galera::configured(cfg))]
        } else {
            Seq::<AnyCollectorView>::empty()
        },
        None => Seq::<AnyCollectorView>::empty(),
    }
}

/// The collectors of bound addresses that a configuration asks for.
pub open spec fn hasipaddr_part(config: Config) -> Seq<AnyCollectorView> {
    match config.HasIpAddr {
        Some(cfg) => seq![
            AnyCollectorView::HasIpAddr {
                id: "hasipaddr#"@ + hasipaddr::joined(views(cfg.Ipv4@), ","@),
                ipv4: hasipaddr::addresses(cfg.Ipv4@),
            },
        ],
        None => Seq::<AnyCollectorView>::empty(),
    }
}

/// The collectors of virtual machines that a configuration asks for.
pub open spec fn jvm_part(config: Config) -> Seq<AnyCollectorView> {
    if config.Jvm.len() > 0 {
        seq![
            AnyCollectorView::Jvm {
                id: "jvm"@,
                jvms: jvm::config_views(config.Jvm@),
                table: jvm::metadata_spec(),
            },
        ]
    } else {
        Seq::<AnyCollectorView>::empty()
    }
}

/// The MongoDB collectors that a configuration asks for.
pub open spec fn mongo_part(config: Config) -> Seq<AnyCollectorView> {
    Seq::new(
        mongo::instances(config.Mongo@, config.Mongo.len() as int).len(),
        |i: int|
            AnyCollectorView::Mongo(mongo::instances(config.Mongo@, config.Mongo.len() as int)[i]),
    )
}

/// The Postfix collectors that a configuration asks for.
pub open spec fn postfix_part(config: Config) -> Seq<AnyCollectorView> {
    if config.Postfix is Some {
        seq![AnyCollectorView::Postfix { id: "postfix"@ }]
    } else {
        Seq::<AnyCollectorView>::empty()
    }
}

/// The MegaRAID collectors that a configuration asks for.
pub open spec fn megaraid_part(config: Config) -> Seq<AnyCollectorView> {
    match config.Megaraid {
        Some(cfg) => seq![AnyCollectorView::Megaraid(megaraid::configured(cfg))],
        None => Seq::<AnyCollectorView>::empty(),
    }
}

/// The collectors that a configuration asks for, kind by kind: Galera, bound
/// addresses, virtual machines, MongoDB, Postfix, MegaRAID, and at the end the
/// agent's own statistics.
pub open spec fn collectors_of(config: Config) -> Seq<AnyCollectorView> {
    galera_part(config) + hasipaddr_part(config) + jvm_part(config) + mongo_part(config)
        + postfix_part(config) + megaraid_part(config) + seq![
        AnyCollectorView::RsCollector { id: "rscollector"@ },
    ]
}

impl AnyCollector {
    /// The collector's identity.
    pub open spec fn id_spec(&self) -> Seq<char> {
        match self {
            AnyCollector::Galera(c) => c@.id,
            AnyCollector::HasIpAddr(c) => c.id_spec(),
            AnyCollector::Jvm(c) => c.id_spec(),
            AnyCollector::Mongo(c) => c@.id,
            AnyCollector::Postfix(c) => c.id_spec(),
            AnyCollector::Megaraid(c) => c@.id,
            AnyCollector::RsCollector(c) => c.id_spec(),
        }
    }

    pub fn id(&self) -> (r: &Id)
        ensures
            r@ == self.id_spec(),
    {
        match self {
            AnyCollector::Galera(c) => c.id(),
            AnyCollector::HasIpAddr(c) => c.id(),
            AnyCollector::Jvm(c) => c.id(),
            AnyCollector::Mongo(c) => c.id(),
            AnyCollector::Postfix(c) => c.id(),
            AnyCollector::Megaraid(c) => c.id(),
            AnyCollector::RsCollector(c) => c.id(),
        }
    }
}

/// The collectors that the configuration asks for. The addresses of the table
/// of bound addresses have to be addresses.
pub fn create_collectors(config: &Config) -> (r: Vec<AnyCollector>)
    requires
        config.HasIpAddr is Some ==> hasipaddr::all_addresses(config.HasIpAddr->Some_0.Ipv4@),
    ensures
        collector_views(r@) == collectors_of(*config),
{
    let mut collectors: Vec<AnyCollector> = Vec::new();
    assert(collector_views(collectors@) =~= Seq::<AnyCollectorView>::empty());

    let galeras = galera::create_instances(config);
    for c in it: galeras
        invariant
            it.seq() == galeras@,
            collector_views(collectors@) == Seq::new(
                it.index() as nat,
                |i: int| AnyCollectorView::Galera(galeras[i]@),
            ),
    {
        let ghost before = collectors@;
        collectors.push(AnyCollector::Galera(c));
        assert(collector_views(collectors@) =~= collector_views(before).push(
            AnyCollectorView::Galera(c@),
        ));
    }
    assert(collector_views(collectors@) =~= galera_part(*config));

    let ghost front = collector_views(collectors@);
    let hasipaddrs = hasipaddr::create_instances(config);
    for c in it: hasipaddrs
        invariant
            it.seq() == hasipaddrs@,
            collector_views(collectors@) == front + Seq::new(
                it.index() as nat,
                |i: int|
                    AnyCollectorView::HasIpAddr {
                        id: hasipaddrs[i].id_spec(),
                        ipv4: hasipaddrs[i].ipv4_spec(),
                    },
            ),
    {
        let ghost before = collectors@;
        let ghost view = AnyCollectorView::HasIpAddr { id: c.id_spec(), ipv4: c.ipv4_spec() };
        collectors.push(AnyCollector::HasIpAddr(c));
        assert(collector_views(collectors@) =~= collector_views(before).push(view));
    }
    assert(collector_views(collectors@) =~= galera_part(*config) + hasipaddr_part(*config));

    let ghost front = collector_views(collectors@);
    let jvms = jvm::create_instances(config);
    for c in it: jvms
        invariant
            it.seq() == jvms@,
            collector_views(collectors@) == front + Seq::new(
                it.index() as nat,
                |i: int|
                    AnyCollectorView::Jvm {
                        id: jvms[i].id_spec(),
                        jvms: jvms[i].jvms_spec(),
                        table: jvms[i].table_spec(),
                    },
            ),
    {
        let ghost before = collectors@;
        let ghost view = AnyCollectorView::Jvm {
            id: c.id_spec(),
            jvms: c.jvms_spec(),
            table: c.table_spec(),
        };
        collectors.push(AnyCollector::Jvm(c));
        assert(collector_views(collectors@) =~= collector_views(before).push(view));
    }
    assert(collector_views(collectors@) =~= galera_part(*config) + hasipaddr_part(*config)
        + jvm_part(*config));

    let ghost front = collector_views(collectors@);
    let mongos = mongo::create_instances(config);
    for c in it: mongos
        invariant
            it.seq() == mongos@,
            collector_views(collectors@) == front + Seq::new(
                it.index() as nat,
                |i: int| AnyCollectorView::Mongo(mongos[i]@),
            ),
    {
        let ghost before = collectors@;
        collectors.push(AnyCollector::Mongo(c));
        assert(collector_views(collectors@) =~= collector_views(before).push(
            AnyCollectorView::Mongo(c@),
        ));
    }
    assert(collector_views(collectors@) =~= galera_part(*config) + hasipaddr_part(*config)
        + jvm_part(*config) + mongo_part(*config)) by {
        assert(mongo::mongo_views(mongos@).len() == mongos.len());
        assert forall|i: int| 0 <= i < mongos.len() implies mongo::mongo_views(mongos@)[i]
            == mongos[i]@ by {}
    }

    let ghost front = collector_views(collectors@);
    let postfixes = postfix::create_instances(config);
    for c in it: postfixes
        invariant
            it.seq() == postfixes@,
            forall|i: int|
                0 <= i < postfixes.len() ==> (#[trigger] postfixes[i]).id_spec() == "postfix"@,
            collector_views(collectors@) == front + Seq::new(
                it.index() as nat,
                |i: int| AnyCollectorView::Postfix { id: "postfix"@ },
            ),
    {
        let ghost before = collectors@;
        collectors.push(AnyCollector::Postfix(c));
        assert(collector_views(collectors@) =~= collector_views(before).push(
            AnyCollectorView::Postfix { id: "postfix"@ },
        ));
    }
    assert(collector_views(collectors@) =~= galera_part(*config) + hasipaddr_part(*config)
        + jvm_part(*config) + mongo_part(*config) + postfix_part(*config));

    let ghost front = collector_views(collectors@);
    let megaraids = megaraid::create_instances(config);
    for c in it: megaraids
        invariant
            it.seq() == megaraids@,
            collector_views(collectors@) == front + Seq::new(
                it.index() as nat,
                |i: int| AnyCollectorView::Megaraid(megaraids[i]@),
            ),
    {
        let ghost before = collectors@;
        collectors.push(AnyCollector::Megaraid(c));
        assert(collector_views(collectors@) =~= collector_views(before).push(
            AnyCollectorView::Megaraid(c@),
        ));
    }
    assert(collector_views(collectors@) =~= galera_part(*config) + hasipaddr_part(*config)
        + jvm_part(*config) + mongo_part(*config) + postfix_part(*config) + megaraid_part(
        *config,
    ));

    let ghost front = collector_views(collectors@);
    let rscollectors = rscollector::create_instances(config);
    for c in it: rscollectors
        invariant
            it.seq() == rscollectors@,
            rscollectors.len() == 1,
            rscollectors[0].id_spec() == "rscollector"@,
            collector_views(collectors@) == front + Seq::new(
                it.index() as nat,
                |i: int| AnyCollectorView::RsCollector { id: "rscollector"@ },
            ),
    {
        let ghost before = collectors@;
        collectors.push(AnyCollector::RsCollector(c));
        assert(collector_views(collectors@) =~= collector_views(before).push(
            AnyCollectorView::RsCollector { id: "rscollector"@ },
        ));
    }
    assert(collector_views(collectors@) =~= collectors_of(*config));
    collectors
}

} // verus!
