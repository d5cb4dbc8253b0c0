//! The properties the library promises across functions, stated over the
//! same spec functions the contracts use and proved from them.

use vstd::prelude::*;

use crate::capture::{
    spec_capture_base, spec_capture_metrics, spec_category, spec_tag_all, spec_with_tag,
    StatsSnapshot,
};
use crate::collectors::{
    spec_cpu_sample, spec_cpu_seq, spec_disk_sample, spec_disk_seq, spec_filesystem_sample,
    spec_filesystem_seq, spec_host_metrics, spec_loadavg_sample, spec_memory_sample,
    spec_network_sample, spec_network_seq, spec_swap_sample,
};
use crate::config::{Collector, FilesystemConfig, HostMetricsConfig};
use crate::filter::FilterList;
use crate::metric::{MetricData, MetricKind};
use crate::samples::{
    CpuTimes, DiskCounters, LoadAvgSample, MemorySample, NetworkCounters,
    PartitionUsage, SwapSample,
};

verus! {

/// Whether every metric of `s` carries the tag `key` with value `value`.
pub open spec fn all_have_tag(s: Seq<MetricData>, key: Seq<char>, value: Seq<char>) -> bool {
    forall|k: int|
        0 <= k < s.len() ==> (#[trigger] s[k]).tags.contains_key(key) && s[k].tags[key] == value
}

/// Whenever hostname resolution succeeded, every metric of the capture
/// carries a `host` tag equal to the resolved hostname.
pub proof fn lemma_capture_host_tag(
    cfg: HostMetricsConfig,
    stats: StatsSnapshot,
    hostname: Seq<char>,
    ts: i64,
)
    ensures
        all_have_tag(spec_capture_metrics(cfg, stats, Some(hostname), ts), "host"@, hostname),
{
    let base = spec_capture_base(cfg, stats, ts);
    let tagged = spec_capture_metrics(cfg, stats, Some(hostname), ts);
    assert forall|k: int| 0 <= k < tagged.len() implies (#[trigger] tagged[k]).tags.contains_key(
        "host"@,
    ) && tagged[k].tags["host"@] == hostname by {
        assert(tagged[k] == spec_with_tag(base[k], "host"@, hostname));
    }
}

/// Every metric of the cpu category is named `cpu_seconds_total`, is a
/// counter, and carries a `mode` tag and a `cpu` tag.
pub proof fn lemma_cpu_metrics_shape(ns: Option<Seq<char>>, times: Seq<CpuTimes>, ts: i64)
    ensures
        forall|k: int|
            0 <= k < spec_cpu_seq(ns, times, ts).len() ==> {
                let md = #[trigger] spec_cpu_seq(ns, times, ts)[k];
                &&& md.name == "cpu_seconds_total"@
                &&& md.kind == MetricKind::Counter
                &&& md.tags.contains_key("mode"@)
                &&& md.tags.contains_key("cpu"@)
            },
    decreases times.len(),
{
    if times.len() > 0 {
        lemma_cpu_metrics_shape(ns, times.drop_last(), ts);
    }
}

/// How many metrics of `s` bear `name`.
pub open spec fn count_named(s: Seq<MetricData>, name: Seq<char>) -> int
    decreases s.len(),
{
    if s.len() == 0 {
        0
    } else {
        count_named(s.drop_last(), name) + if s.last().name == name {
            1int
        } else {
            0int
        }
    }
}

proof fn lemma_count_named_concat(a: Seq<MetricData>, b: Seq<MetricData>, name: Seq<char>)
    ensures
        count_named(a + b, name) == count_named(a, name) + count_named(b, name),
    decreases b.len(),
{
    if b.len() == 0 {
        assert(a + b =~= a);
    } else {
        assert((a + b).drop_last() =~= a + b.drop_last());
        assert((a + b).last() == b.last());
        lemma_count_named_concat(a, b.drop_last(), name);
    }
}

proof fn lemma_count_named_quad(
    m1: MetricData,
    m2: MetricData,
    m3: MetricData,
    m4: MetricData,
    name: Seq<char>,
)
    ensures
        count_named(seq![m1, m2, m3, m4], name) == (if m1.name == name {
            1int
        } else {
            0int
        }) + (if m2.name == name {
            1int
        } else {
            0int
        }) + (if m3.name == name {
            1int
        } else {
            0int
        }) + (if m4.name == name {
            1int
        } else {
            0int
        }),
{
    reveal_with_fuel(count_named, 5);
    let s = seq![m1, m2, m3, m4];
    assert(s.drop_last() =~= seq![m1, m2, m3]);
    assert(seq![m1, m2, m3].drop_last() =~= seq![m1, m2]);
    assert(seq![m1, m2].drop_last() =~= seq![m1]);
    assert(seq![m1].drop_last() =~= Seq::<MetricData>::empty());
    assert(s.last() == m4);
    assert(seq![m1, m2, m3].last() == m3);
    assert(seq![m1, m2].last() == m2);
    assert(seq![m1].last() == m1);
}

/// The disk category's shape: its size is divisible by four, each of the
/// four disk metric names takes exactly one quarter, and every metric is a
/// counter carrying a `device` tag.
pub proof fn lemma_disk_metrics_shape(
    ns: Option<Seq<char>>,
    devices: FilterList,
    counters: Seq<DiskCounters>,
    ts: i64,
)
    ensures
        spec_disk_seq(ns, devices, counters, ts).len() % 4 == 0,
        4 * count_named(spec_disk_seq(ns, devices, counters, ts), "disk_read_bytes_total"@)
            == spec_disk_seq(ns, devices, counters, ts).len(),
        4 * count_named(spec_disk_seq(ns, devices, counters, ts), "disk_reads_completed_total"@)
            == spec_disk_seq(ns, devices, counters, ts).len(),
        4 * count_named(spec_disk_seq(ns, devices, counters, ts), "disk_written_bytes_total"@)
            == spec_disk_seq(ns, devices, counters, ts).len(),
        4 * count_named(spec_disk_seq(ns, devices, counters, ts), "disk_writes_completed_total"@)
            == spec_disk_seq(ns, devices, counters, ts).len(),
        forall|k: int|
            0 <= k < spec_disk_seq(ns, devices, counters, ts).len() ==> {
                let md = #[trigger] spec_disk_seq(ns, devices, counters, ts)[k];
                &&& md.kind == MetricKind::Counter
                &&& md.tags.contains_key("device"@)
            },
    decreases counters.len(),
{
    reveal_strlit("disk_read_bytes_total");
    reveal_strlit("disk_reads_completed_total");
    reveal_strlit("disk_written_bytes_total");
    reveal_strlit("disk_writes_completed_total");
    assert("disk_read_bytes_total"@.len() == 21);
    assert("disk_reads_completed_total"@.len() == 26);
    assert("disk_written_bytes_total"@.len() == 24);
    assert("disk_writes_completed_total"@.len() == 27);
    if counters.len() > 0 {
        lemma_disk_metrics_shape(ns, devices, counters.drop_last(), ts);
        let prefix = spec_disk_seq(ns, devices, counters.drop_last(), ts);
        let block = spec_disk_sample(ns, devices, counters.last(), ts);
        lemma_count_named_concat(prefix, block, "disk_read_bytes_total"@);
        lemma_count_named_concat(prefix, block, "disk_reads_completed_total"@);
        lemma_count_named_concat(prefix, block, "disk_written_bytes_total"@);
        lemma_count_named_concat(prefix, block, "disk_writes_completed_total"@);
        if devices.spec_contains(Some(counters.last().device_name@)) {
            let c = counters.last();
            let rb = crate::collectors::spec_device_counter(
                ns,
                "disk_read_bytes_total"@,
                c.device_name@,
                c.read_bytes,
                ts,
            );
            let rc = crate::collectors::spec_device_counter(
                ns,
                "disk_reads_completed_total"@,
                c.device_name@,
                c.reads_completed,
                ts,
            );
            let wb = crate::collectors::spec_device_counter(
                ns,
                "disk_written_bytes_total"@,
                c.device_name@,
                c.written_bytes,
                ts,
            );
            let wc = crate::collectors::spec_device_counter(
                ns,
                "disk_writes_completed_total"@,
                c.device_name@,
                c.writes_completed,
                ts,
            );
            assert(block == seq![rb, rc, wb, wc]);
            lemma_count_named_quad(rb, rc, wb, wc, "disk_read_bytes_total"@);
            lemma_count_named_quad(rb, rc, wb, wc, "disk_reads_completed_total"@);
            lemma_count_named_quad(rb, rc, wb, wc, "disk_written_bytes_total"@);
            lemma_count_named_quad(rb, rc, wb, wc, "disk_writes_completed_total"@);
            assert(count_named(block, "disk_read_bytes_total"@) == 1);
            assert(count_named(block, "disk_reads_completed_total"@) == 1);
            assert(count_named(block, "disk_written_bytes_total"@) == 1);
            assert(count_named(block, "disk_writes_completed_total"@) == 1);
        }
    }
}

// ---------------------------------------------------------------------------
// namespace and timestamp uniformity
// ---------------------------------------------------------------------------
/// Whether every metric of `s` carries the namespace `ns` and the shared
/// timestamp `ts`.
pub open spec fn all_uniform(s: Seq<MetricData>, ns: Option<Seq<char>>, ts: i64) -> bool {
    forall|k: int|
        0 <= k < s.len() ==> (#[trigger] s[k]).namespace == ns && s[k].timestamp == ts
}

proof fn lemma_uniform_concat(
    a: Seq<MetricData>,
    b: Seq<MetricData>,
    ns: Option<Seq<char>>,
    ts: i64,
)
    requires
        all_uniform(a, ns, ts),
        all_uniform(b, ns, ts),
    ensures
        all_uniform(a + b, ns, ts),
{
    assert forall|k: int| 0 <= k < (a + b).len() implies (#[trigger] (a + b)[k]).namespace == ns
        && (a + b)[k].timestamp == ts by {
        if k < a.len() {
            assert((a + b)[k] == a[k]);
        } else {
            assert((a + b)[k] == b[k - a.len()]);
        }
    }
}

proof fn lemma_cpu_seq_uniform(ns: Option<Seq<char>>, times: Seq<CpuTimes>, ts: i64)
    ensures
        all_uniform(spec_cpu_seq(ns, times, ts), ns, ts),
    decreases times.len(),
{
    if times.len() > 0 {
        lemma_cpu_seq_uniform(ns, times.drop_last(), ts);
        let t = times.last();
        let index = (times.len() - 1) as u64;
        assert(all_uniform(spec_cpu_sample(ns, t, index, ts), ns, ts));
        lemma_uniform_concat(
            spec_cpu_seq(ns, times.drop_last(), ts),
            spec_cpu_sample(ns, t, index, ts),
            ns,
            ts,
        );
    }
}

proof fn lemma_memory_sample_uniform(ns: Option<Seq<char>>, m: MemorySample, ts: i64)
    ensures
        all_uniform(spec_memory_sample(ns, m, ts), ns, ts),
{
}

proof fn lemma_swap_sample_uniform(ns: Option<Seq<char>>, s: SwapSample, ts: i64)
    ensures
        all_uniform(spec_swap_sample(ns, s, ts), ns, ts),
{
}

proof fn lemma_network_seq_uniform(
    ns: Option<Seq<char>>,
    devices: FilterList,
    counters: Seq<NetworkCounters>,
    ts: i64,
)
    ensures
        all_uniform(spec_network_seq(ns, devices, counters, ts), ns, ts),
    decreases counters.len(),
{
    if counters.len() > 0 {
        lemma_network_seq_uniform(ns, devices, counters.drop_last(), ts);
        let c = counters.last();
        assert(all_uniform(spec_network_sample(ns, devices, c, ts), ns, ts));
        lemma_uniform_concat(
            spec_network_seq(ns, devices, counters.drop_last(), ts),
            spec_network_sample(ns, devices, c, ts),
            ns,
            ts,
        );
    }
}

proof fn lemma_filesystem_seq_uniform(
    ns: Option<Seq<char>>,
    fs: FilesystemConfig,
    partitions: Seq<PartitionUsage>,
    ts: i64,
)
    ensures
        all_uniform(spec_filesystem_seq(ns, fs, partitions, ts), ns, ts),
    decreases partitions.len(),
{
    if partitions.len() > 0 {
        lemma_filesystem_seq_uniform(ns, fs, partitions.drop_last(), ts);
        let p = partitions.last();
        assert(all_uniform(spec_filesystem_sample(ns, fs, p, ts), ns, ts));
        lemma_uniform_concat(
            spec_filesystem_seq(ns, fs, partitions.drop_last(), ts),
            spec_filesystem_sample(ns, fs, p, ts),
            ns,
            ts,
        );
    }
}

proof fn lemma_disk_seq_uniform(
    ns: Option<Seq<char>>,
    devices: FilterList,
    counters: Seq<DiskCounters>,
    ts: i64,
)
    ensures
        all_uniform(spec_disk_seq(ns, devices, counters, ts), ns, ts),
    decreases counters.len(),
{
    if counters.len() > 0 {
        lemma_disk_seq_uniform(ns, devices, counters.drop_last(), ts);
        let c = counters.last();
        assert(all_uniform(spec_disk_sample(ns, devices, c, ts), ns, ts));
        lemma_uniform_concat(
            spec_disk_seq(ns, devices, counters.drop_last(), ts),
            spec_disk_sample(ns, devices, c, ts),
            ns,
            ts,
        );
    }
}

proof fn lemma_tag_all_uniform(
    s: Seq<MetricData>,
    key: Seq<char>,
    value: Seq<char>,
    ns: Option<Seq<char>>,
    ts: i64,
)
    requires
        all_uniform(s, ns, ts),
    ensures
        all_uniform(spec_tag_all(s, key, value), ns, ts),
{
    assert forall|k: int| 0 <= k < spec_tag_all(s, key, value).len() implies (#[trigger] spec_tag_all(
        s,
        key,
        value,
    )[k]).namespace == ns && spec_tag_all(s, key, value)[k].timestamp == ts by {
        assert(spec_tag_all(s, key, value)[k] == spec_with_tag(s[k], key, value));
    }
}

/// Every metric of a capture carries exactly the configured namespace (the
/// default, a custom one, or none at all when namespacing was disabled) and
/// the shared timestamp of the cycle.
#[verifier::rlimit(60)]
pub proof fn lemma_capture_uniform(
    cfg: HostMetricsConfig,
    stats: StatsSnapshot,
    hostname: Option<Seq<char>>,
    ts: i64,
)
    ensures
        all_uniform(spec_capture_metrics(cfg, stats, hostname, ts), cfg.namespace.spec_view(), ts),
{
    let ns = cfg.namespace.spec_view();
    let cpu = spec_category(
        cfg.spec_enabled(crate::config::Collector::Cpu),
        "cpu"@,
        crate::collectors::spec_cpu_metrics(cfg, stats.cpu, ts),
    );
    let disk = spec_category(
        cfg.spec_enabled(crate::config::Collector::Disk),
        "disk"@,
        crate::collectors::spec_disk_metrics(cfg, stats.disk, ts),
    );
    let filesystem = spec_category(
        cfg.spec_enabled(crate::config::Collector::Filesystem),
        "filesystem"@,
        crate::collectors::spec_filesystem_metrics(cfg, stats.filesystem, ts),
    );
    let load = spec_category(
        cfg.spec_enabled(crate::config::Collector::Load),
        "load"@,
        crate::collectors::spec_loadavg_metrics(cfg, stats.loadavg, ts),
    );
    let host = spec_category(
        cfg.spec_enabled(crate::config::Collector::Host),
        "host"@,
        spec_host_metrics(cfg, stats.host, ts),
    );
    let memory = spec_category(
        cfg.spec_enabled(crate::config::Collector::Memory),
        "memory"@,
        crate::collectors::spec_memory_metrics(cfg, stats.memory, ts),
    );
    let swap = spec_category(
        cfg.spec_enabled(crate::config::Collector::Memory),
        "memory"@,
        crate::collectors::spec_swap_metrics(cfg, stats.swap, ts),
    );
    let network = spec_category(
        cfg.spec_enabled(crate::config::Collector::Network),
        "network"@,
        crate::collectors::spec_network_metrics(cfg, stats.network, ts),
    );
    if stats.cpu is Some {
        lemma_cpu_seq_uniform(ns, stats.cpu.unwrap()@, ts);
    }
    if stats.disk is Some {
        lemma_disk_seq_uniform(ns, cfg.disk.devices, stats.disk.unwrap()@, ts);
    }
    if stats.filesystem is Some {
        lemma_filesystem_seq_uniform(ns, cfg.filesystem, stats.filesystem.unwrap()@, ts);
    }
    if stats.memory is Some {
        lemma_memory_sample_uniform(ns, stats.memory.unwrap(), ts);
    }
    if stats.swap is Some {
        lemma_swap_sample_uniform(ns, stats.swap.unwrap(), ts);
    }
    if stats.network is Some {
        lemma_network_seq_uniform(ns, cfg.network.devices, stats.network.unwrap()@, ts);
    }
    lemma_tag_all_uniform(crate::collectors::spec_cpu_metrics(cfg, stats.cpu, ts), "collector"@, "cpu"@, ns, ts);
    lemma_tag_all_uniform(crate::collectors::spec_disk_metrics(cfg, stats.disk, ts), "collector"@, "disk"@, ns, ts);
    lemma_tag_all_uniform(
        crate::collectors::spec_filesystem_metrics(cfg, stats.filesystem, ts),
        "collector"@,
        "filesystem"@,
        ns,
        ts,
    );
    lemma_tag_all_uniform(
        crate::collectors::spec_loadavg_metrics(cfg, stats.loadavg, ts),
        "collector"@,
        "load"@,
        ns,
        ts,
    );
    lemma_tag_all_uniform(spec_host_metrics(cfg, stats.host, ts), "collector"@, "host"@, ns, ts);
    lemma_tag_all_uniform(
        crate::collectors::spec_memory_metrics(cfg, stats.memory, ts),
        "collector"@,
        "memory"@,
        ns,
        ts,
    );
    lemma_tag_all_uniform(crate::collectors::spec_swap_metrics(cfg, stats.swap, ts), "collector"@, "memory"@, ns, ts);
    lemma_tag_all_uniform(
        crate::collectors::spec_network_metrics(cfg, stats.network, ts),
        "collector"@,
        "network"@,
        ns,
        ts,
    );
    lemma_uniform_concat(cpu, disk, ns, ts);
    lemma_uniform_concat(cpu + disk, filesystem, ns, ts);
    lemma_uniform_concat(cpu + disk + filesystem, load, ns, ts);
    lemma_uniform_concat(cpu + disk + filesystem + load, host, ns, ts);
    lemma_uniform_concat(cpu + disk + filesystem + load + host, memory, ns, ts);
    lemma_uniform_concat(cpu + disk + filesystem + load + host + memory, swap, ns, ts);
    lemma_uniform_concat(cpu + disk + filesystem + load + host + memory + swap, network, ns, ts);
    let base = spec_capture_base(cfg, stats, ts);
    assert(base == cpu + disk + filesystem + load + host + memory + swap + network);
    if hostname is Some {
        lemma_tag_all_uniform(base, "host"@, hostname.unwrap(), ns, ts);
    }
}

// ---------------------------------------------------------------------------
// full capture dominates any single category
// ---------------------------------------------------------------------------
proof fn lemma_memory_sample_len(ns: Option<Seq<char>>, m: MemorySample, ts: i64)
    ensures
        spec_memory_sample(ns, m, ts).len() >= 3,
{
}

proof fn lemma_loadavg_sample_len(ns: Option<Seq<char>>, l: LoadAvgSample, ts: i64)
    ensures
        spec_loadavg_sample(ns, l, ts).len() == 3,
{
}

/// With no category restriction, a capture holds strictly more metrics than
/// the same capture restricted to any single category, whenever at least the
/// memory and load providers returned data; with every provider empty or
/// failed there is nothing left to dominate.
#[verifier::rlimit(60)]
pub proof fn lemma_full_capture_strictly_larger(
    full: HostMetricsConfig,
    single: HostMetricsConfig,
    one: Collector,
    stats: StatsSnapshot,
    hostname: Option<Seq<char>>,
    ts: i64,
)
    requires
        full.collectors is None,
        single.collectors is Some,
        single.collectors.unwrap()@ =~= seq![one],
        single.namespace.spec_view() == full.namespace.spec_view(),
        single.disk == full.disk,
        single.filesystem == full.filesystem,
        single.network == full.network,
        stats.memory is Some,
        stats.loadavg is Some,
    ensures
        spec_capture_metrics(single, stats, hostname, ts).len() < spec_capture_metrics(
            full,
            stats,
            hostname,
            ts,
        ).len(),
{
    let ns = full.namespace.spec_view();
    // The two configurations agree on everything a category reads, so the
    // category outputs agree; only the enabled set differs.
    assert(crate::collectors::spec_cpu_metrics(full, stats.cpu, ts)
        == crate::collectors::spec_cpu_metrics(single, stats.cpu, ts));
    assert(crate::collectors::spec_disk_metrics(full, stats.disk, ts)
        == crate::collectors::spec_disk_metrics(single, stats.disk, ts));
    assert(crate::collectors::spec_filesystem_metrics(full, stats.filesystem, ts)
        == crate::collectors::spec_filesystem_metrics(single, stats.filesystem, ts));
    assert(crate::collectors::spec_loadavg_metrics(full, stats.loadavg, ts)
        == crate::collectors::spec_loadavg_metrics(single, stats.loadavg, ts));
    assert(spec_host_metrics(full, stats.host, ts) == spec_host_metrics(single, stats.host, ts));
    assert(crate::collectors::spec_memory_metrics(full, stats.memory, ts)
        == crate::collectors::spec_memory_metrics(single, stats.memory, ts));
    assert(crate::collectors::spec_swap_metrics(full, stats.swap, ts)
        == crate::collectors::spec_swap_metrics(single, stats.swap, ts));
    assert(crate::collectors::spec_network_metrics(full, stats.network, ts)
        == crate::collectors::spec_network_metrics(single, stats.network, ts));
    // The full configuration enables everything; the restricted one enables
    // exactly `one`.
    let list = single.collectors.unwrap();
    assert(list@[0] == one);
    assert(single.spec_enabled(one));
    assert forall|c: Collector| c != one implies !single.spec_enabled(c) by {
        if single.spec_enabled(c) {
            let i = choose|i: int| 0 <= i < list@.len() && list@[i] == c;
            assert(list@[i] == one);
        }
    }
    lemma_memory_sample_len(ns, stats.memory.unwrap(), ts);
    lemma_loadavg_sample_len(ns, stats.loadavg.unwrap(), ts);
    let base_f = spec_capture_base(full, stats, ts);
    let base_s = spec_capture_base(single, stats, ts);
    // Host tagging keeps the count.
    assert(spec_capture_metrics(full, stats, hostname, ts).len() == base_f.len());
    assert(spec_capture_metrics(single, stats, hostname, ts).len() == base_s.len());
    // The restricted capture is the full capture minus the other categories,
    // of which memory (at least three metrics) or load (exactly three)
    // remains whichever category was kept.
    match one {
        Collector::Memory => {
            assert(base_s.len() < base_f.len());
        },
        _ => {
            assert(base_s.len() < base_f.len());
        },
    }
}

} // verus!
