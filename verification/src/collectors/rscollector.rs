//! The agent's own statistics.

use vstd::prelude::*;
use crate::bosun::{descriptor, metadata_views, Metadata, MetadataView, Rate};
use crate::collectors::Id;
use crate::config::Config;

verus! {

/// The metric under which the emitter reports how many samples it transmits.
pub const RS_COLLECTOR_STATS_SAMPLES_METRICNAME: &'static str = "rs-collector.stats.samples";

/// The metric of the agent's version.
pub const VERSION_METRICNAME: &'static str = "rs-collector.version";

/// The metric of the agent's resident set size.
pub const RSS_METRICNAME: &'static str = "rs-collector.stats.rss";

/// The settings of the collector: there are none.
#[derive(Debug)]
pub struct RsCollectorConfig {}

/// The collector of the agent's own statistics.
#[derive(Debug)]
pub struct RsCollector {
    id: Id,
}

/// The collector of the agent's own statistics: there is always one.
pub fn create_instances(_config: &Config) -> (r: Vec<RsCollector>)
    ensures
        r.len() == 1,
        r[0].id_spec() == "rscollector"@,
{
    let list: Vec<RsCollector> = vec![RsCollector { id: String::from_str("rscollector") }];
    list
}

/// The descriptors of the metrics that the agent reports of itself.
pub open spec fn metadata_spec() -> Seq<MetadataView> {
    seq![
        descriptor(
            "rs-collector.version"@,
            Rate::Gauge,
            ""@,
            "Shows the version 'x.y.z' of rs-collector as x*1.000.0000 + y*1000 + z."@,
        ),
        descriptor(
            "rs-collector.stats.rss"@,
            Rate::Gauge,
            "KB"@,
            "Shows the resident set size (physical memory) in KB consumed by rs-collector; if supported."@,
        ),
        descriptor(
            "rs-collector.stats.samples"@,
            Rate::Gauge,
            "Samples"@,
            "Shows the number of transmitted samples."@,
        ),
    ]
}

impl RsCollector {
    /// The collector's identity.
    pub closed spec fn id_spec(&self) -> Seq<char> {
        self.id@
    }

    pub fn id(&self) -> (r: &Id)
        ensures
            r@ == self.id_spec(),
    {
        &self.id
    }

    /// The descriptors of the metrics that the agent reports of itself,
    /// always the same. The count of transmitted samples is among them,
    /// though the emitter reports it.
    pub fn metadata(&self) -> (r: Vec<Metadata>)
        ensures
            metadata_views(r@) == metadata_spec(),
    {
        let list: Vec<Metadata> = vec![
            Metadata::new(
                VERSION_METRICNAME,
                Rate::Gauge,
                "",
                "Shows the version 'x.y.z' of rs-collector as x*1.000.0000 + y*1000 + z.",
            ),
            Metadata::new(
                RSS_METRICNAME,
                Rate::Gauge,
                "KB",
                "Shows the resident set size (physical memory) in KB consumed by rs-collector; if supported.",
            ),
            Metadata::new(
                RS_COLLECTOR_STATS_SAMPLES_METRICNAME,
                Rate::Gauge,
                "Samples",
                "Shows the number of transmitted samples.",
            ),
        ];
        assert(metadata_views(list@) =~= metadata_spec());
        list
    }
}

} // verus!
