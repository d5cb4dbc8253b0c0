//! Category collectors: each takes what its stat provider returned for one
//! cycle, applies the configured filters where the category has them, and
//! maps every passing entry to its fixed catalog of metric names, kinds and
//! tags, all stamped with the shared timestamp of the invocation.
//!
//! A provider-level failure arrives as `None` and yields an empty result
//! for the category; it never aborts the other categories.

use vstd::prelude::*;

use crate::config::{FilesystemConfig, HostMetricsConfig};
use crate::filter::FilterList;
use crate::metric::{
    decimal_text, metrics_view, new_metric, opt_string_view, spec_tag_map, Metric, MetricData,
    MetricKind, Tag, u64_to_string,
};
use crate::samples::{
    CpuTimes, DiskCounters, FilesystemUsage, HostSample, LoadAvgSample, MemorySample,
    NetworkCounters, PartitionUsage, SwapSample,
};

verus! {

/// A metric without tags.
pub open spec fn spec_plain_metric(
    ns: Option<Seq<char>>,
    name: Seq<char>,
    kind: MetricKind,
    value: u64,
    ts: i64,
) -> MetricData {
    MetricData { name, kind, value, tags: Map::empty(), namespace: ns, timestamp: ts }
}

/// Zero or one untagged gauge, present exactly when the reading is.
pub open spec fn spec_opt_metric(
    ns: Option<Seq<char>>,
    name: Seq<char>,
    kind: MetricKind,
    value: Option<u64>,
    ts: i64,
) -> Seq<MetricData> {
    match value {
        Some(v) => seq![spec_plain_metric(ns, name, kind, v, ts)],
        None => Seq::empty(),
    }
}

fn empty_tags() -> (r: Vec<Tag>)
    ensures
        spec_tag_map(r@) == Map::<Seq<char>, Seq<char>>::empty(),
{
    let r: Vec<Tag> = Vec::new();
    r
}

fn push_tag(tags: &mut Vec<Tag>, key: &str, value: String)
    ensures
        spec_tag_map(final(tags)@) == spec_tag_map(old(tags)@).insert(key@, value@),
{
    let ghost k = key@;
    let ghost v = value@;
    tags.push(Tag { key: key.to_owned(), value });
    proof {
        assert(tags@.drop_last() =~= old(tags)@);
        assert(tags@.last().key@ == k);
        assert(tags@.last().value@ == v);
    }
}

fn tag1(key: &str, value: String) -> (r: Vec<Tag>)
    ensures
        spec_tag_map(r@) == Map::<Seq<char>, Seq<char>>::empty().insert(key@, value@),
{
    let mut r = empty_tags();
    push_tag(&mut r, key, value);
    r
}

fn tag2(key1: &str, value1: String, key2: &str, value2: String) -> (r: Vec<Tag>)
    ensures
        spec_tag_map(r@) == Map::<Seq<char>, Seq<char>>::empty().insert(key1@, value1@).insert(
            key2@,
            value2@,
        ),
{
    let mut r = tag1(key1, value1);
    push_tag(&mut r, key2, value2);
    r
}

impl HostMetricsConfig {
    fn clone_namespace(&self) -> (r: Option<String>)
        ensures
            opt_string_view(r) == self.namespace.spec_view(),
    {
        match &self.namespace.0 {
            Some(ns) => Some(ns.clone()),
            None => None,
        }
    }

    fn counter(&self, name: &str, timestamp: i64, value: u64, tags: Vec<Tag>) -> (m: Metric)
        ensures
            m@ == (MetricData {
                name: name@,
                kind: MetricKind::Counter,
                value,
                tags: spec_tag_map(tags@),
                namespace: self.namespace.spec_view(),
                timestamp,
            }),
    {
        new_metric(name, MetricKind::Counter, value, tags, self.clone_namespace(), timestamp)
    }

    fn gauge(&self, name: &str, timestamp: i64, value: u64, tags: Vec<Tag>) -> (m: Metric)
        ensures
            m@ == (MetricData {
                name: name@,
                kind: MetricKind::Gauge,
                value,
                tags: spec_tag_map(tags@),
                namespace: self.namespace.spec_view(),
                timestamp,
            }),
    {
        new_metric(name, MetricKind::Gauge, value, tags, self.clone_namespace(), timestamp)
    }
}

impl HostMetricsConfig {
    /// Appends one untagged metric.
    fn push_plain(
        &self,
        out: &mut Vec<Metric>,
        name: &str,
        kind: MetricKind,
        value: u64,
        ts: i64,
    )
        ensures
            metrics_view(final(out)@) == metrics_view(old(out)@) + seq![
                spec_plain_metric(self.namespace.spec_view(), name@, kind, value, ts),
            ],
    {
        let m = match kind {
            MetricKind::Counter => self.counter(name, ts, value, empty_tags()),
            MetricKind::Gauge => self.gauge(name, ts, value, empty_tags()),
        };
        out.push(m);
        proof {
            assert(metrics_view(out@) =~= metrics_view(old(out)@) + seq![
                spec_plain_metric(self.namespace.spec_view(), name@, kind, value, ts),
            ]);
        }
    }

    /// Appends one untagged metric when the reading is available, nothing
    /// otherwise.
    fn push_opt_plain(
        &self,
        out: &mut Vec<Metric>,
        name: &str,
        kind: MetricKind,
        value: Option<u64>,
        ts: i64,
    )
        ensures
            metrics_view(final(out)@) == metrics_view(old(out)@) + spec_opt_metric(
                self.namespace.spec_view(),
                name@,
                kind,
                value,
                ts,
            ),
    {
        if let Some(v) = value {
            self.push_plain(out, name, kind, v, ts);
        } else {
            proof {
                assert(metrics_view(out@) =~= metrics_view(old(out)@) + spec_opt_metric(
                    self.namespace.spec_view(),
                    name@,
                    kind,
                    value,
                    ts,
                ));
            }
        }
        proof {
            if value is Some {
                assert(metrics_view(out@) =~= metrics_view(old(out)@) + spec_opt_metric(
                    self.namespace.spec_view(),
                    name@,
                    kind,
                    value,
                    ts,
                ));
            }
        }
    }
}

// ---------------------------------------------------------------------------
// cpu
// ---------------------------------------------------------------------------
/// One `cpu_seconds_total` counter: cumulative seconds in `mode` on the CPU
/// with the given index.
pub open spec fn spec_cpu_mode_metric(
    ns: Option<Seq<char>>,
    mode: Seq<char>,
    index: u64,
    value: u64,
    ts: i64,
) -> MetricData {
    MetricData {
        name: "cpu_seconds_total"@,
        kind: MetricKind::Counter,
        value,
        tags: Map::empty().insert("mode"@, mode).insert("cpu"@, decimal_text(index as nat)),
        namespace: ns,
        timestamp: ts,
    }
}

/// The metrics of one CPU: idle, low-priority where available, system and
/// user time, in that order.
pub open spec fn spec_cpu_sample(
    ns: Option<Seq<char>>,
    t: CpuTimes,
    index: u64,
    ts: i64,
) -> Seq<MetricData> {
    seq![spec_cpu_mode_metric(ns, "idle"@, index, t.idle, ts)] + (match t.nice {
        Some(n) => seq![spec_cpu_mode_metric(ns, "nice"@, index, n, ts)],
        None => Seq::empty(),
    }) + seq![
        spec_cpu_mode_metric(ns, "system"@, index, t.system, ts),
        spec_cpu_mode_metric(ns, "user"@, index, t.user, ts),
    ]
}

/// The metrics of a list of CPUs, indexed in order.
pub open spec fn spec_cpu_seq(ns: Option<Seq<char>>, times: Seq<CpuTimes>, ts: i64) -> Seq<
    MetricData,
>
    decreases times.len(),
{
    if times.len() == 0 {
        Seq::empty()
    } else {
        spec_cpu_seq(ns, times.drop_last(), ts) + spec_cpu_sample(
            ns,
            times.last(),
            (times.len() - 1) as u64,
            ts,
        )
    }
}

/// What the cpu category emits: one counter per CPU and mode, or nothing
/// when the provider failed.
pub open spec fn spec_cpu_metrics(
    cfg: HostMetricsConfig,
    times: Option<Vec<CpuTimes>>,
    ts: i64,
) -> Seq<MetricData> {
    match times {
        Some(list) => spec_cpu_seq(cfg.namespace.spec_view(), list@, ts),
        None => Seq::empty(),
    }
}

impl HostMetricsConfig {
    fn push_cpu_sample(&self, out: &mut Vec<Metric>, t: &CpuTimes, index: u64, ts: i64)
        ensures
            metrics_view(final(out)@) == metrics_view(old(out)@) + spec_cpu_sample(
                self.namespace.spec_view(),
                *t,
                index,
                ts,
            ),
    {
        let index_text = u64_to_string(index);
        out.push(
            self.counter("cpu_seconds_total", ts, t.idle, tag2("mode", "idle".to_owned(), "cpu", index_text.clone())),
        );
        if let Some(n) = t.nice {
            out.push(
                self.counter("cpu_seconds_total", ts, n, tag2("mode", "nice".to_owned(), "cpu", index_text.clone())),
            );
        }
        out.push(
            self.counter("cpu_seconds_total", ts, t.system, tag2("mode", "system".to_owned(), "cpu", index_text.clone())),
        );
        out.push(
            self.counter("cpu_seconds_total", ts, t.user, tag2("mode", "user".to_owned(), "cpu", index_text)),
        );
        proof {
            assert(metrics_view(out@) =~= metrics_view(old(out)@) + spec_cpu_sample(
                self.namespace.spec_view(),
                *t,
                index,
                ts,
            ));
        }
    }

    /// The cpu category: for every sampled CPU, cumulative
    /// `cpu_seconds_total` counters tagged with the mode and the CPU index.
    pub fn cpu_metrics(&self, times: &Option<Vec<CpuTimes>>, timestamp: i64) -> (r: Vec<Metric>)
        ensures
            metrics_view(r@) == spec_cpu_metrics(*self, *times, timestamp),
    {
        let mut out: Vec<Metric> = Vec::new();
        match times {
            None => {},
            Some(list) => {
                let ghost ns = self.namespace.spec_view();
                proof {
                    assert(list@.take(0) =~= Seq::<CpuTimes>::empty());
                }
                let mut i: usize = 0;
                while i < list.len()
                    invariant
                        i <= list@.len(),
                        metrics_view(out@) == spec_cpu_seq(ns, list@.take(i as int), timestamp),
                        ns == self.namespace.spec_view(),
                    decreases list@.len() - i,
                {
                    self.push_cpu_sample(&mut out, &list[i], i as u64, timestamp);
                    proof {
                        assert(list@.take(i as int + 1).drop_last() =~= list@.take(i as int));
                        assert(list@.take(i as int + 1).last() == list@[i as int]);
                    }
                    i += 1;
                }
                proof {
                    assert(list@.take(list@.len() as int) =~= list@);
                }
            },
        }
        out
    }

    /// The memory category: total, free and available bytes, plus whatever
    /// platform-dependent extras the sample carries, all untagged gauges.
    pub fn memory_metrics(&self, memory: &Option<MemorySample>, timestamp: i64) -> (r: Vec<
        Metric,
    >)
        ensures
            metrics_view(r@) == spec_memory_metrics(*self, *memory, timestamp),
    {
        let mut out: Vec<Metric> = Vec::new();
        match memory {
            None => {},
            Some(m) => {
                let ghost ns = self.namespace.spec_view();
                self.push_plain(&mut out, "memory_total_bytes", MetricKind::Gauge, m.total, timestamp);
                self.push_plain(&mut out, "memory_free_bytes", MetricKind::Gauge, m.free, timestamp);
                self.push_plain(
                    &mut out,
                    "memory_available_bytes",
                    MetricKind::Gauge,
                    m.available,
                    timestamp,
                );
                self.push_opt_plain(&mut out, "memory_active_bytes", MetricKind::Gauge, m.active, timestamp);
                self.push_opt_plain(
                    &mut out,
                    "memory_buffers_bytes",
                    MetricKind::Gauge,
                    m.buffers,
                    timestamp,
                );
                self.push_opt_plain(&mut out, "memory_cached_bytes", MetricKind::Gauge, m.cached, timestamp);
                self.push_opt_plain(&mut out, "memory_shared_bytes", MetricKind::Gauge, m.shared, timestamp);
                self.push_opt_plain(&mut out, "memory_used_bytes", MetricKind::Gauge, m.used, timestamp);
                self.push_opt_plain(
                    &mut out,
                    "memory_inactive_bytes",
                    MetricKind::Gauge,
                    m.inactive,
                    timestamp,
                );
                self.push_opt_plain(&mut out, "memory_wired_bytes", MetricKind::Gauge, m.wired, timestamp);
                proof {
                    assert(metrics_view(out@) =~= spec_memory_sample(ns, *m, timestamp));
                }
            },
        }
        out
    }
}

/// The metrics of one memory sample: the three required gauges, then the
/// platform-dependent extras in a fixed order.
pub open spec fn spec_memory_sample(ns: Option<Seq<char>>, m: MemorySample, ts: i64) -> Seq<
    MetricData,
> {
    seq![
        spec_plain_metric(ns, "memory_total_bytes"@, MetricKind::Gauge, m.total, ts),
        spec_plain_metric(ns, "memory_free_bytes"@, MetricKind::Gauge, m.free, ts),
        spec_plain_metric(ns, "memory_available_bytes"@, MetricKind::Gauge, m.available, ts),
    ] + spec_opt_metric(ns, "memory_active_bytes"@, MetricKind::Gauge, m.active, ts)
        + spec_opt_metric(ns, "memory_buffers_bytes"@, MetricKind::Gauge, m.buffers, ts)
        + spec_opt_metric(ns, "memory_cached_bytes"@, MetricKind::Gauge, m.cached, ts)
        + spec_opt_metric(ns, "memory_shared_bytes"@, MetricKind::Gauge, m.shared, ts)
        + spec_opt_metric(ns, "memory_used_bytes"@, MetricKind::Gauge, m.used, ts)
        + spec_opt_metric(ns, "memory_inactive_bytes"@, MetricKind::Gauge, m.inactive, ts)
        + spec_opt_metric(ns, "memory_wired_bytes"@, MetricKind::Gauge, m.wired, ts)
}

/// What the memory category emits, or nothing when the provider failed.
pub open spec fn spec_memory_metrics(
    cfg: HostMetricsConfig,
    memory: Option<MemorySample>,
    ts: i64,
) -> Seq<MetricData> {
    match memory {
        Some(m) => spec_memory_sample(cfg.namespace.spec_view(), m, ts),
        None => Seq::empty(),
    }
}

// ---------------------------------------------------------------------------
// swap
// ---------------------------------------------------------------------------
/// The metrics of one swap sample: three gauges, then the cumulative in/out
/// counters where the platform exposes them.
pub open spec fn spec_swap_sample(ns: Option<Seq<char>>, s: SwapSample, ts: i64) -> Seq<
    MetricData,
> {
    seq![
        spec_plain_metric(ns, "memory_swap_free_bytes"@, MetricKind::Gauge, s.free, ts),
        spec_plain_metric(ns, "memory_swap_total_bytes"@, MetricKind::Gauge, s.total, ts),
        spec_plain_metric(ns, "memory_swap_used_bytes"@, MetricKind::Gauge, s.used, ts),
    ] + spec_opt_metric(ns, "memory_swapped_in_bytes_total"@, MetricKind::Counter, s.swapped_in, ts)
        + spec_opt_metric(
        ns,
        "memory_swapped_out_bytes_total"@,
        MetricKind::Counter,
        s.swapped_out,
        ts,
    )
}

/// What the swap part of the memory category emits, or nothing when the
/// provider failed.
pub open spec fn spec_swap_metrics(
    cfg: HostMetricsConfig,
    swap: Option<SwapSample>,
    ts: i64,
) -> Seq<MetricData> {
    match swap {
        Some(s) => spec_swap_sample(cfg.namespace.spec_view(), s, ts),
        None => Seq::empty(),
    }
}

// ---------------------------------------------------------------------------
// load
// ---------------------------------------------------------------------------
/// The metrics of one load-average reading: three untagged gauges.
pub open spec fn spec_loadavg_sample(ns: Option<Seq<char>>, l: LoadAvgSample, ts: i64) -> Seq<
    MetricData,
> {
    seq![
        spec_plain_metric(ns, "load1"@, MetricKind::Gauge, l.load1, ts),
        spec_plain_metric(ns, "load5"@, MetricKind::Gauge, l.load5, ts),
        spec_plain_metric(ns, "load15"@, MetricKind::Gauge, l.load15, ts),
    ]
}

/// What the load category emits, or nothing when the provider failed or the
/// platform has no load average.
pub open spec fn spec_loadavg_metrics(
    cfg: HostMetricsConfig,
    loadavg: Option<LoadAvgSample>,
    ts: i64,
) -> Seq<MetricData> {
    match loadavg {
        Some(l) => spec_loadavg_sample(cfg.namespace.spec_view(), l, ts),
        None => Seq::empty(),
    }
}

// ---------------------------------------------------------------------------
// host
// ---------------------------------------------------------------------------
/// What the host category emits: an uptime gauge and a boot-time gauge, each
/// present exactly when its own query succeeded.
pub open spec fn spec_host_metrics(cfg: HostMetricsConfig, h: HostSample, ts: i64) -> Seq<
    MetricData,
> {
    spec_opt_metric(cfg.namespace.spec_view(), "uptime"@, MetricKind::Gauge, h.uptime, ts)
        + spec_opt_metric(
        cfg.namespace.spec_view(),
        "boot_time"@,
        MetricKind::Gauge,
        h.boot_time,
        ts,
    )
}

impl HostMetricsConfig {
    /// The swap part of the memory category: free, total and used gauges,
    /// plus the cumulative swapped-in/out counters where available.
    pub fn swap_metrics(&self, swap: &Option<SwapSample>, timestamp: i64) -> (r: Vec<Metric>)
        ensures
            metrics_view(r@) == spec_swap_metrics(*self, *swap, timestamp),
    {
        let mut out: Vec<Metric> = Vec::new();
        match swap {
            None => {},
            Some(s) => {
                self.push_plain(&mut out, "memory_swap_free_bytes", MetricKind::Gauge, s.free, timestamp);
                self.push_plain(
                    &mut out,
                    "memory_swap_total_bytes",
                    MetricKind::Gauge,
                    s.total,
                    timestamp,
                );
                self.push_plain(&mut out, "memory_swap_used_bytes", MetricKind::Gauge, s.used, timestamp);
                self.push_opt_plain(
                    &mut out,
                    "memory_swapped_in_bytes_total",
                    MetricKind::Counter,
                    s.swapped_in,
                    timestamp,
                );
                self.push_opt_plain(
                    &mut out,
                    "memory_swapped_out_bytes_total",
                    MetricKind::Counter,
                    s.swapped_out,
                    timestamp,
                );
                proof {
                    assert(metrics_view(out@) =~= spec_swap_sample(
                        self.namespace.spec_view(),
                        *s,
                        timestamp,
                    ));
                }
            },
        }
        out
    }

    /// The load category: the one-, five- and fifteen-minute load averages
    /// as untagged gauges.
    pub fn loadavg_metrics(&self, loadavg: &Option<LoadAvgSample>, timestamp: i64) -> (r: Vec<
        Metric,
    >)
        ensures
            metrics_view(r@) == spec_loadavg_metrics(*self, *loadavg, timestamp),
    {
        let mut out: Vec<Metric> = Vec::new();
        match loadavg {
            None => {},
            Some(l) => {
                self.push_plain(&mut out, "load1", MetricKind::Gauge, l.load1, timestamp);
                self.push_plain(&mut out, "load5", MetricKind::Gauge, l.load5, timestamp);
                self.push_plain(&mut out, "load15", MetricKind::Gauge, l.load15, timestamp);
                proof {
                    assert(metrics_view(out@) =~= spec_loadavg_sample(
                        self.namespace.spec_view(),
                        *l,
                        timestamp,
                    ));
                }
            },
        }
        out
    }

    /// The host category: uptime and boot time as untagged gauges; each
    /// query can fail on its own and then only its gauge is omitted.
    pub fn host_metrics(&self, host: &HostSample, timestamp: i64) -> (r: Vec<Metric>)
        ensures
            metrics_view(r@) == spec_host_metrics(*self, *host, timestamp),
    {
        let mut out: Vec<Metric> = Vec::new();
        self.push_opt_plain(&mut out, "uptime", MetricKind::Gauge, host.uptime, timestamp);
        self.push_opt_plain(&mut out, "boot_time", MetricKind::Gauge, host.boot_time, timestamp);
        proof {
            assert(metrics_view(out@) =~= spec_host_metrics(*self, *host, timestamp));
        }
        out
    }
}

// ---------------------------------------------------------------------------
// network
// ---------------------------------------------------------------------------
/// One counter tagged with the device it was read from.
pub open spec fn spec_device_counter(
    ns: Option<Seq<char>>,
    name: Seq<char>,
    device: Seq<char>,
    value: u64,
    ts: i64,
) -> MetricData {
    MetricData {
        name,
        kind: MetricKind::Counter,
        value,
        tags: Map::empty().insert("device"@, device),
        namespace: ns,
        timestamp: ts,
    }
}

/// Zero or one device-tagged counter, present exactly when the reading is.
pub open spec fn spec_opt_device_counter(
    ns: Option<Seq<char>>,
    name: Seq<char>,
    device: Seq<char>,
    value: Option<u64>,
    ts: i64,
) -> Seq<MetricData> {
    match value {
        Some(v) => seq![spec_device_counter(ns, name, device, v, ts)],
        None => Seq::empty(),
    }
}

/// The metrics of one interface: nothing when the device filter rejects it,
/// otherwise its cumulative counters in a fixed order.
pub open spec fn spec_network_sample(
    ns: Option<Seq<char>>,
    devices: FilterList,
    c: NetworkCounters,
    ts: i64,
) -> Seq<MetricData> {
    if devices.spec_contains(Some(c.interface@)) {
        seq![
            spec_device_counter(ns, "network_receive_bytes_total"@, c.interface@, c.receive_bytes, ts),
            spec_device_counter(ns, "network_receive_errs_total"@, c.interface@, c.receive_errs, ts),
            spec_device_counter(
                ns,
                "network_receive_packets_total"@,
                c.interface@,
                c.receive_packets,
                ts,
            ),
            spec_device_counter(ns, "network_transmit_bytes_total"@, c.interface@, c.transmit_bytes, ts),
            spec_device_counter(ns, "network_transmit_errs_total"@, c.interface@, c.transmit_errs, ts),
        ] + spec_opt_device_counter(
            ns,
            "network_transmit_packets_drop_total"@,
            c.interface@,
            c.transmit_packets_drop,
            ts,
        ) + spec_opt_device_counter(
            ns,
            "network_transmit_packets_total"@,
            c.interface@,
            c.transmit_packets,
            ts,
        )
    } else {
        Seq::empty()
    }
}

/// The metrics of a list of interfaces.
pub open spec fn spec_network_seq(
    ns: Option<Seq<char>>,
    devices: FilterList,
    counters: Seq<NetworkCounters>,
    ts: i64,
) -> Seq<MetricData>
    decreases counters.len(),
{
    if counters.len() == 0 {
        Seq::empty()
    } else {
        spec_network_seq(ns, devices, counters.drop_last(), ts) + spec_network_sample(
            ns,
            devices,
            counters.last(),
            ts,
        )
    }
}

/// What the network category emits, or nothing when the provider failed.
pub open spec fn spec_network_metrics(
    cfg: HostMetricsConfig,
    counters: Option<Vec<NetworkCounters>>,
    ts: i64,
) -> Seq<MetricData> {
    match counters {
        Some(list) => spec_network_seq(cfg.namespace.spec_view(), cfg.network.devices, list@, ts),
        None => Seq::empty(),
    }
}

impl HostMetricsConfig {
    /// Appends one device-tagged counter.
    fn push_device_counter(
        &self,
        out: &mut Vec<Metric>,
        name: &str,
        device: &String,
        value: u64,
        ts: i64,
    )
        ensures
            metrics_view(final(out)@) == metrics_view(old(out)@) + seq![
                spec_device_counter(self.namespace.spec_view(), name@, device@, value, ts),
            ],
    {
        out.push(self.counter(name, ts, value, tag1("device", device.clone())));
        proof {
            assert(metrics_view(out@) =~= metrics_view(old(out)@) + seq![
                spec_device_counter(self.namespace.spec_view(), name@, device@, value, ts),
            ]);
        }
    }

    /// Appends one device-tagged counter when the reading is available.
    fn push_opt_device_counter(
        &self,
        out: &mut Vec<Metric>,
        name: &str,
        device: &String,
        value: Option<u64>,
        ts: i64,
    )
        ensures
            metrics_view(final(out)@) == metrics_view(old(out)@) + spec_opt_device_counter(
                self.namespace.spec_view(),
                name@,
                device@,
                value,
                ts,
            ),
    {
        if let Some(v) = value {
            self.push_device_counter(out, name, device, v, ts);
        }
        proof {
            assert(metrics_view(out@) =~= metrics_view(old(out)@) + spec_opt_device_counter(
                self.namespace.spec_view(),
                name@,
                device@,
                value,
                ts,
            ));
        }
    }

    fn push_network_sample(&self, out: &mut Vec<Metric>, c: &NetworkCounters, ts: i64)
        ensures
            metrics_view(final(out)@) == metrics_view(old(out)@) + spec_network_sample(
                self.namespace.spec_view(),
                self.network.devices,
                *c,
                ts,
            ),
    {
        if self.network.devices.contains_str(Some(c.interface.as_str())) {
            self.push_device_counter(out, "network_receive_bytes_total", &c.interface, c.receive_bytes, ts);
            self.push_device_counter(out, "network_receive_errs_total", &c.interface, c.receive_errs, ts);
            self.push_device_counter(
                out,
                "network_receive_packets_total",
                &c.interface,
                c.receive_packets,
                ts,
            );
            self.push_device_counter(
                out,
                "network_transmit_bytes_total",
                &c.interface,
                c.transmit_bytes,
                ts,
            );
            self.push_device_counter(out, "network_transmit_errs_total", &c.interface, c.transmit_errs, ts);
            self.push_opt_device_counter(
                out,
                "network_transmit_packets_drop_total",
                &c.interface,
                c.transmit_packets_drop,
                ts,
            );
            self.push_opt_device_counter(
                out,
                "network_transmit_packets_total",
                &c.interface,
                c.transmit_packets,
                ts,
            );
        }
        proof {
            assert(metrics_view(out@) =~= metrics_view(old(out)@) + spec_network_sample(
                self.namespace.spec_view(),
                self.network.devices,
                *c,
                ts,
            ));
        }
    }

    /// The network category: for every interface that passes the device
    /// filter, its cumulative receive and transmit counters, tagged with
    /// the device; a rejected interface is discarded entirely.
    pub fn network_metrics(&self, counters: &Option<Vec<NetworkCounters>>, timestamp: i64) -> (r:
        Vec<Metric>)
        ensures
            metrics_view(r@) == spec_network_metrics(*self, *counters, timestamp),
    {
        let mut out: Vec<Metric> = Vec::new();
        match counters {
            None => {},
            Some(list) => {
                proof {
                    assert(list@.take(0) =~= Seq::<NetworkCounters>::empty());
                }
                let mut i: usize = 0;
                while i < list.len()
                    invariant
                        i <= list@.len(),
                        metrics_view(out@) == spec_network_seq(self.namespace.spec_view(), self.network.devices, list@.take(i as int), timestamp),
                    decreases list@.len() - i,
                {
                    self.push_network_sample(&mut out, &list[i], timestamp);
                    proof {
                        assert(list@.take(i as int + 1).drop_last() =~= list@.take(i as int));
                        assert(list@.take(i as int + 1).last() == list@[i as int]);
                    }
                    i += 1;
                }
                proof {
                    assert(list@.take(list@.len() as int) =~= list@);
                }
            },
        }
        out
    }
}

// ---------------------------------------------------------------------------
// filesystem
// ---------------------------------------------------------------------------
/// The tags of one partition's metrics: its filesystem and mount point, and
/// its device where it has one.
pub open spec fn spec_fs_tags(p: PartitionUsage) -> Map<Seq<char>, Seq<char>> {
    let base = Map::empty().insert("filesystem"@, p.filesystem@).insert(
        "mountpoint"@,
        p.mountpoint@,
    );
    match p.device {
        Some(d) => base.insert("device"@, d@),
        None => base,
    }
}

/// Whether a partition passes all three filesystem filters: mount point and
/// device as paths, filesystem type as a string.
pub open spec fn spec_fs_pass(fs: FilesystemConfig, p: PartitionUsage) -> bool {
    fs.mountpoints.spec_contains(Some(p.mountpoint@)) && fs.devices.spec_contains(
        opt_string_view(p.device),
    ) && fs.filesystems.spec_contains(Some(p.filesystem@))
}

/// One gauge carrying a partition's tags.
pub open spec fn spec_fs_gauge(
    ns: Option<Seq<char>>,
    name: Seq<char>,
    value: u64,
    p: PartitionUsage,
    ts: i64,
) -> MetricData {
    MetricData {
        name,
        kind: MetricKind::Gauge,
        value,
        tags: spec_fs_tags(p),
        namespace: ns,
        timestamp: ts,
    }
}

/// The metrics of one partition: nothing when a filter rejects it or its
/// usage query failed, otherwise free, total and used bytes and, where the
/// platform exposes it, the used ratio.
pub open spec fn spec_filesystem_sample(
    ns: Option<Seq<char>>,
    fs: FilesystemConfig,
    p: PartitionUsage,
    ts: i64,
) -> Seq<MetricData> {
    if spec_fs_pass(fs, p) {
        match p.usage {
            Some(u) => seq![
                spec_fs_gauge(ns, "filesystem_free_bytes"@, u.free, p, ts),
                spec_fs_gauge(ns, "filesystem_total_bytes"@, u.total, p, ts),
                spec_fs_gauge(ns, "filesystem_used_bytes"@, u.used, p, ts),
            ] + (match u.used_ratio {
                Some(rv) => seq![spec_fs_gauge(ns, "filesystem_used_ratio"@, rv, p, ts)],
                None => Seq::empty(),
            }),
            None => Seq::empty(),
        }
    } else {
        Seq::empty()
    }
}

/// The metrics of a list of partitions.
pub open spec fn spec_filesystem_seq(
    ns: Option<Seq<char>>,
    fs: FilesystemConfig,
    partitions: Seq<PartitionUsage>,
    ts: i64,
) -> Seq<MetricData>
    decreases partitions.len(),
{
    if partitions.len() == 0 {
        Seq::empty()
    } else {
        spec_filesystem_seq(ns, fs, partitions.drop_last(), ts) + spec_filesystem_sample(
            ns,
            fs,
            partitions.last(),
            ts,
        )
    }
}

/// What the filesystem category emits, or nothing when the provider failed.
pub open spec fn spec_filesystem_metrics(
    cfg: HostMetricsConfig,
    partitions: Option<Vec<PartitionUsage>>,
    ts: i64,
) -> Seq<MetricData> {
    match partitions {
        Some(list) => spec_filesystem_seq(
            cfg.namespace.spec_view(),
            cfg.filesystem,
            list@,
            ts,
        ),
        None => Seq::empty(),
    }
}

fn fs_tags(p: &PartitionUsage) -> (r: Vec<Tag>)
    ensures
        spec_tag_map(r@) == spec_fs_tags(*p),
{
    let mut r = tag2("filesystem", p.filesystem.clone(), "mountpoint", p.mountpoint.clone());
    if let Some(d) = &p.device {
        push_tag(&mut r, "device", d.clone());
    }
    r
}

impl HostMetricsConfig {
    /// Appends one gauge carrying a partition's tags.
    fn push_fs_gauge(&self, out: &mut Vec<Metric>, name: &str, value: u64, p: &PartitionUsage, ts: i64)
        ensures
            metrics_view(final(out)@) == metrics_view(old(out)@) + seq![
                spec_fs_gauge(self.namespace.spec_view(), name@, value, *p, ts),
            ],
    {
        out.push(self.gauge(name, ts, value, fs_tags(p)));
        proof {
            assert(metrics_view(out@) =~= metrics_view(old(out)@) + seq![
                spec_fs_gauge(self.namespace.spec_view(), name@, value, *p, ts),
            ]);
        }
    }

    fn push_filesystem_sample(&self, out: &mut Vec<Metric>, p: &PartitionUsage, ts: i64)
        ensures
            metrics_view(final(out)@) == metrics_view(old(out)@) + spec_filesystem_sample(
                self.namespace.spec_view(),
                self.filesystem,
                *p,
                ts,
            ),
    {
        let mountpoint_ok = self.filesystem.mountpoints.contains_path(Some(p.mountpoint.as_str()));
        let device_ok = match &p.device {
            Some(d) => self.filesystem.devices.contains_path(Some(d.as_str())),
            None => self.filesystem.devices.contains_path(None),
        };
        let filesystem_ok = self.filesystem.filesystems.contains_str(Some(p.filesystem.as_str()));
        if mountpoint_ok && device_ok && filesystem_ok {
            if let Some(u) = &p.usage {
                self.push_fs_gauge(out, "filesystem_free_bytes", u.free, p, ts);
                self.push_fs_gauge(out, "filesystem_total_bytes", u.total, p, ts);
                self.push_fs_gauge(out, "filesystem_used_bytes", u.used, p, ts);
                if let Some(rv) = u.used_ratio {
                    self.push_fs_gauge(out, "filesystem_used_ratio", rv, p, ts);
                }
            }
        }
        proof {
            assert(metrics_view(out@) =~= metrics_view(old(out)@) + spec_filesystem_sample(
                self.namespace.spec_view(),
                self.filesystem,
                *p,
                ts,
            ));
        }
    }

    /// The filesystem category: for every mounted partition that passes the
    /// mount point, device and filesystem filters and whose usage query
    /// succeeded, its usage gauges tagged with filesystem, mount point and,
    /// where present, device.
    pub fn filesystem_metrics(&self, partitions: &Option<Vec<PartitionUsage>>, timestamp: i64) -> (r:
        Vec<Metric>)
        ensures
            metrics_view(r@) == spec_filesystem_metrics(*self, *partitions, timestamp),
    {
        let mut out: Vec<Metric> = Vec::new();
        match partitions {
            None => {},
            Some(list) => {
                proof {
                    assert(list@.take(0) =~= Seq::<PartitionUsage>::empty());
                }
                let mut i: usize = 0;
                while i < list.len()
                    invariant
                        i <= list@.len(),
                        metrics_view(out@) == spec_filesystem_seq(self.namespace.spec_view(), self.filesystem, list@.take(i as int), timestamp),
                    decreases list@.len() - i,
                {
                    self.push_filesystem_sample(&mut out, &list[i], timestamp);
                    proof {
                        assert(list@.take(i as int + 1).drop_last() =~= list@.take(i as int));
                        assert(list@.take(i as int + 1).last() == list@[i as int]);
                    }
                    i += 1;
                }
                proof {
                    assert(list@.take(list@.len() as int) =~= list@);
                }
            },
        }
        out
    }
}

// ---------------------------------------------------------------------------
// disk
// ---------------------------------------------------------------------------
/// The metrics of one block device: nothing when the device filter rejects
/// it, otherwise its four cumulative I/O counters.
pub open spec fn spec_disk_sample(
    ns: Option<Seq<char>>,
    devices: FilterList,
    c: DiskCounters,
    ts: i64,
) -> Seq<MetricData> {
    if devices.spec_contains(Some(c.device_name@)) {
        seq![
            spec_device_counter(ns, "disk_read_bytes_total"@, c.device_name@, c.read_bytes, ts),
            spec_device_counter(ns, "disk_reads_completed_total"@, c.device_name@, c.reads_completed, ts),
            spec_device_counter(ns, "disk_written_bytes_total"@, c.device_name@, c.written_bytes, ts),
            spec_device_counter(
                ns,
                "disk_writes_completed_total"@,
                c.device_name@,
                c.writes_completed,
                ts,
            ),
        ]
    } else {
        Seq::empty()
    }
}

/// The metrics of a list of block devices.
pub open spec fn spec_disk_seq(
    ns: Option<Seq<char>>,
    devices: FilterList,
    counters: Seq<DiskCounters>,
    ts: i64,
) -> Seq<MetricData>
    decreases counters.len(),
{
    if counters.len() == 0 {
        Seq::empty()
    } else {
        spec_disk_seq(ns, devices, counters.drop_last(), ts) + spec_disk_sample(
            ns,
            devices,
            counters.last(),
            ts,
        )
    }
}

/// What the disk category emits, or nothing when the provider failed.
pub open spec fn spec_disk_metrics(
    cfg: HostMetricsConfig,
    counters: Option<Vec<DiskCounters>>,
    ts: i64,
) -> Seq<MetricData> {
    match counters {
        Some(list) => spec_disk_seq(cfg.namespace.spec_view(), cfg.disk.devices, list@, ts),
        None => Seq::empty(),
    }
}

impl HostMetricsConfig {
    fn push_disk_sample(&self, out: &mut Vec<Metric>, c: &DiskCounters, ts: i64)
        ensures
            metrics_view(final(out)@) == metrics_view(old(out)@) + spec_disk_sample(
                self.namespace.spec_view(),
                self.disk.devices,
                *c,
                ts,
            ),
    {
        if self.disk.devices.contains_path(Some(c.device_name.as_str())) {
            self.push_device_counter(out, "disk_read_bytes_total", &c.device_name, c.read_bytes, ts);
            self.push_device_counter(
                out,
                "disk_reads_completed_total",
                &c.device_name,
                c.reads_completed,
                ts,
            );
            self.push_device_counter(out, "disk_written_bytes_total", &c.device_name, c.written_bytes, ts);
            self.push_device_counter(
                out,
                "disk_writes_completed_total",
                &c.device_name,
                c.writes_completed,
                ts,
            );
        }
        proof {
            assert(metrics_view(out@) =~= metrics_view(old(out)@) + spec_disk_sample(
                self.namespace.spec_view(),
                self.disk.devices,
                *c,
                ts,
            ));
        }
    }

    /// The disk category: for every block device that passes the device
    /// filter, its four cumulative I/O counters, tagged with the device; a
    /// rejected device is discarded entirely.
    pub fn disk_metrics(&self, counters: &Option<Vec<DiskCounters>>, timestamp: i64) -> (r: Vec<
        Metric,
    >)
        ensures
            metrics_view(r@) == spec_disk_metrics(*self, *counters, timestamp),
    {
        let mut out: Vec<Metric> = Vec::new();
        match counters {
            None => {},
            Some(list) => {
                proof {
                    assert(list@.take(0) =~= Seq::<DiskCounters>::empty());
                }
                let mut i: usize = 0;
                while i < list.len()
                    invariant
                        i <= list@.len(),
                        metrics_view(out@) == spec_disk_seq(self.namespace.spec_view(), self.disk.devices, list@.take(i as int), timestamp),
                    decreases list@.len() - i,
                {
                    self.push_disk_sample(&mut out, &list[i], timestamp);
                    proof {
                        assert(list@.take(i as int + 1).drop_last() =~= list@.take(i as int));
                        assert(list@.take(i as int + 1).last() == list@[i as int]);
                    }
                    i += 1;
                }
                proof {
                    assert(list@.take(list@.len() as int) =~= list@);
                }
            },
        }
        out
    }
}

} // verus!
