//! The capture orchestrator: runs the enabled categories over one cycle's
//! provider output, merges their metrics, tags every metric with its
//! category name and, when hostname resolution succeeded, with the host.

use vstd::prelude::*;

use crate::collectors::{
    spec_cpu_metrics, spec_disk_metrics, spec_filesystem_metrics, spec_host_metrics,
    spec_loadavg_metrics, spec_memory_metrics, spec_network_metrics, spec_swap_metrics,
};
use crate::config::{Collector, HostMetricsConfig};
use crate::metric::{metrics_view, opt_string_view, Metric, MetricData};
use crate::samples::{
    CpuTimes, DiskCounters, HostSample, LoadAvgSample, MemorySample, NetworkCounters,
    PartitionUsage, SwapSample,
};

verus! {

/// What the stat providers returned for one capture cycle: per category,
/// its samples, or `None` where the provider itself failed.
pub struct StatsSnapshot {
    pub cpu: Option<Vec<CpuTimes>>,
    pub memory: Option<MemorySample>,
    pub swap: Option<SwapSample>,
    pub loadavg: Option<LoadAvgSample>,
    pub host: HostSample,
    pub network: Option<Vec<NetworkCounters>>,
    pub filesystem: Option<Vec<PartitionUsage>>,
    pub disk: Option<Vec<DiskCounters>>,
}

/// `md` with one tag added or overridden.
pub open spec fn spec_with_tag(md: MetricData, key: Seq<char>, value: Seq<char>) -> MetricData {
    MetricData { tags: md.tags.insert(key, value), ..md }
}

/// Every metric of `s` with one tag added or overridden.
pub open spec fn spec_tag_all(s: Seq<MetricData>, key: Seq<char>, value: Seq<char>) -> Seq<
    MetricData,
> {
    s.map_values(|md: MetricData| spec_with_tag(md, key, value))
}

/// `s` when `enabled`, nothing otherwise.
pub open spec fn spec_cond(enabled: bool, s: Seq<MetricData>) -> Seq<MetricData> {
    if enabled {
        s
    } else {
        Seq::empty()
    }
}

/// One category's contribution to a capture: its metrics, each tagged with
/// the category name under `collector`, when the category is enabled.
pub open spec fn spec_category(enabled: bool, name: Seq<char>, s: Seq<MetricData>) -> Seq<
    MetricData,
> {
    spec_cond(enabled, spec_tag_all(s, "collector"@, name))
}

/// Everything one capture cycle emits before host tagging: the enabled
/// categories in a fixed order, each under its collector tag; the memory
/// category contributes both the memory and the swap metrics.
pub open spec fn spec_capture_base(cfg: HostMetricsConfig, stats: StatsSnapshot, ts: i64) -> Seq<
    MetricData,
> {
    spec_category(cfg.spec_enabled(Collector::Cpu), "cpu"@, spec_cpu_metrics(cfg, stats.cpu, ts))
        + spec_category(
        cfg.spec_enabled(Collector::Disk),
        "disk"@,
        spec_disk_metrics(cfg, stats.disk, ts),
    ) + spec_category(
        cfg.spec_enabled(Collector::Filesystem),
        "filesystem"@,
        spec_filesystem_metrics(cfg, stats.filesystem, ts),
    ) + spec_category(
        cfg.spec_enabled(Collector::Load),
        "load"@,
        spec_loadavg_metrics(cfg, stats.loadavg, ts),
    ) + spec_category(
        cfg.spec_enabled(Collector::Host),
        "host"@,
        spec_host_metrics(cfg, stats.host, ts),
    ) + spec_category(
        cfg.spec_enabled(Collector::Memory),
        "memory"@,
        spec_memory_metrics(cfg, stats.memory, ts),
    ) + spec_category(
        cfg.spec_enabled(Collector::Memory),
        "memory"@,
        spec_swap_metrics(cfg, stats.swap, ts),
    ) + spec_category(
        cfg.spec_enabled(Collector::Network),
        "network"@,
        spec_network_metrics(cfg, stats.network, ts),
    )
}

/// Everything one capture cycle emits: the enabled categories' metrics and,
/// when hostname resolution succeeded, a `host` tag on every one of them.
pub open spec fn spec_capture_metrics(
    cfg: HostMetricsConfig,
    stats: StatsSnapshot,
    hostname: Option<Seq<char>>,
    ts: i64,
) -> Seq<MetricData> {
    match hostname {
        Some(h) => spec_tag_all(spec_capture_base(cfg, stats, ts), "host"@, h),
        None => spec_capture_base(cfg, stats, ts),
    }
}

/// Relies on chrono::Utc::now for the shared timestamp of one collector
/// invocation, reduced to Unix milliseconds; nothing is assumed of the
/// value.
#[verifier::external_body]
fn now_timestamp() -> (r: i64) {
    chrono::Utc::now().timestamp_millis()
}

fn tag_each(metrics: Vec<Metric>, key: &str, value: &str) -> (r: Vec<Metric>)
    ensures
        metrics_view(r@) == spec_tag_all(metrics_view(metrics@), key@, value@),
{
    let ghost orig = metrics_view(metrics@);
    let mut v = metrics;
    let mut i: usize = 0;
    while i < v.len()
        invariant
            i <= v@.len(),
            v@.len() == orig.len(),
            forall|j: int| 0 <= j < i ==> v@[j]@ == spec_with_tag(orig[j], key@, value@),
            forall|j: int| i <= j < v@.len() ==> v@[j]@ == orig[j],
        decreases v@.len() - i,
    {
        v[i].insert_tag(key.to_owned(), value.to_owned());
        i += 1;
    }
    proof {
        assert(metrics_view(v@) =~= spec_tag_all(orig, key@, value@));
    }
    v
}

/// Tags every metric of a category's output with the category name, under
/// the `collector` key set by the orchestrator.
pub fn add_collector(collector: &str, metrics: Vec<Metric>) -> (r: Vec<Metric>)
    ensures
        metrics_view(r@) == spec_tag_all(metrics_view(metrics@), "collector"@, collector@),
{
    tag_each(metrics, "collector", collector)
}

fn append_tagged(metrics: &mut Vec<Metric>, name: &str, part: Vec<Metric>)
    ensures
        metrics_view(final(metrics)@) == metrics_view(old(metrics)@) + spec_tag_all(
            metrics_view(part@),
            "collector"@,
            name@,
        ),
{
    let ghost part_view = metrics_view(part@);
    let mut tagged = add_collector(name, part);
    metrics.append(&mut tagged);
    proof {
        assert(metrics_view(metrics@) =~= metrics_view(old(metrics)@) + spec_tag_all(
            part_view,
            "collector"@,
            name@,
        ));
    }
}

impl HostMetricsConfig {
    /// One capture cycle at a given timestamp: runs every enabled category
    /// over the snapshot, stamps its metrics with that shared timestamp,
    /// tags each with its category name and, when a hostname was resolved,
    /// with `host`.
    pub fn capture_metrics_at(
        &self,
        stats: &StatsSnapshot,
        hostname: &Option<String>,
        timestamp: i64,
    ) -> (r: Vec<Metric>)
        ensures
            metrics_view(r@) == spec_capture_metrics(
                *self,
                *stats,
                opt_string_view(*hostname),
                timestamp,
            ),
    {
        let mut metrics: Vec<Metric> = Vec::new();
        let ghost mut acc: Seq<MetricData> = Seq::empty();
        if self.has_collector(Collector::Cpu) {
            append_tagged(&mut metrics, "cpu", self.cpu_metrics(&stats.cpu, timestamp));
        }
        proof {
            acc = acc + spec_category(
                self.spec_enabled(Collector::Cpu),
                "cpu"@,
                spec_cpu_metrics(*self, stats.cpu, timestamp),
            );
            assert(metrics_view(metrics@) =~= acc);
        }
        if self.has_collector(Collector::Disk) {
            append_tagged(&mut metrics, "disk", self.disk_metrics(&stats.disk, timestamp));
        }
        proof {
            acc = acc + spec_category(
                self.spec_enabled(Collector::Disk),
                "disk"@,
                spec_disk_metrics(*self, stats.disk, timestamp),
            );
            assert(metrics_view(metrics@) =~= acc);
        }
        if self.has_collector(Collector::Filesystem) {
            append_tagged(
                &mut metrics,
                "filesystem",
                self.filesystem_metrics(&stats.filesystem, timestamp),
            );
        }
        proof {
            acc = acc + spec_category(
                self.spec_enabled(Collector::Filesystem),
                "filesystem"@,
                spec_filesystem_metrics(*self, stats.filesystem, timestamp),
            );
            assert(metrics_view(metrics@) =~= acc);
        }
        if self.has_collector(Collector::Load) {
            append_tagged(&mut metrics, "load", self.loadavg_metrics(&stats.loadavg, timestamp));
        }
        proof {
            acc = acc + spec_category(
                self.spec_enabled(Collector::Load),
                "load"@,
                spec_loadavg_metrics(*self, stats.loadavg, timestamp),
            );
            assert(metrics_view(metrics@) =~= acc);
        }
        if self.has_collector(Collector::Host) {
            append_tagged(&mut metrics, "host", self.host_metrics(&stats.host, timestamp));
        }
        proof {
            acc = acc + spec_category(
                self.spec_enabled(Collector::Host),
                "host"@,
                spec_host_metrics(*self, stats.host, timestamp),
            );
            assert(metrics_view(metrics@) =~= acc);
        }
        if self.has_collector(Collector::Memory) {
            append_tagged(&mut metrics, "memory", self.memory_metrics(&stats.memory, timestamp));
            append_tagged(&mut metrics, "memory", self.swap_metrics(&stats.swap, timestamp));
        }
        proof {
            acc = acc + spec_category(
                self.spec_enabled(Collector::Memory),
                "memory"@,
                spec_memory_metrics(*self, stats.memory, timestamp),
            );
            acc = acc + spec_category(
                self.spec_enabled(Collector::Memory),
                "memory"@,
                spec_swap_metrics(*self, stats.swap, timestamp),
            );
            assert(metrics_view(metrics@) =~= acc);
        }
        if self.has_collector(Collector::Network) {
            append_tagged(&mut metrics, "network", self.network_metrics(&stats.network, timestamp));
        }
        proof {
            acc = acc + spec_category(
                self.spec_enabled(Collector::Network),
                "network"@,
                spec_network_metrics(*self, stats.network, timestamp),
            );
            assert(metrics_view(metrics@) =~= acc);
            assert(acc == spec_capture_base(*self, *stats, timestamp));
        }
        let metrics = match hostname {
            Some(h) => tag_each(metrics, "host", h.as_str()),
            None => metrics,
        };
        proof {
            assert(metrics_view(metrics@) == spec_capture_metrics(
                *self,
                *stats,
                opt_string_view(*hostname),
                timestamp,
            ));
        }
        metrics
    }

    /// One capture cycle: as [`Self::capture_metrics_at`], with the shared
    /// timestamp taken from the clock at invocation start.
    pub fn capture_metrics(&self, stats: &StatsSnapshot, hostname: &Option<String>) -> (r: Vec<
        Metric,
    >)
        ensures
            exists|ts: i64|
                metrics_view(r@) == spec_capture_metrics(
                    *self,
                    *stats,
                    opt_string_view(*hostname),
                    ts,
                ),
    {
        let timestamp = now_timestamp();
        let r = self.capture_metrics_at(stats, hostname, timestamp);
        proof {
            assert(metrics_view(r@) == spec_capture_metrics(
                *self,
                *stats,
                opt_string_view(*hostname),
                timestamp,
            ));
        }
        r
    }
}

} // verus!
