use host_metrics::capture::{add_collector, StatsSnapshot};
use host_metrics::config::{Collector, HostMetricsConfig, Namespace};
use host_metrics::metric::{Metric, MetricKind, Tag};
use host_metrics::samples::{
    CpuTimes, DiskCounters, FilesystemUsage, HostSample, LoadAvgSample, MemorySample,
    NetworkCounters, PartitionUsage, SwapSample,
};

fn bits(value: f64) -> u64 {
    value.to_bits()
}

fn snapshot() -> StatsSnapshot {
    StatsSnapshot {
        cpu: Some(vec![CpuTimes {
            idle: bits(10.0),
            system: bits(2.0),
            user: bits(3.0),
            nice: Some(bits(0.5)),
        }]),
        memory: Some(MemorySample {
            total: bits(16.0e9),
            free: bits(4.0e9),
            available: bits(8.0e9),
            active: None,
            buffers: None,
            cached: None,
            shared: None,
            used: None,
            inactive: None,
            wired: None,
        }),
        swap: Some(SwapSample {
            free: bits(1.0e9),
            total: bits(2.0e9),
            used: bits(1.0e9),
            swapped_in: Some(bits(0.0)),
            swapped_out: Some(bits(0.0)),
        }),
        loadavg: Some(LoadAvgSample { load1: bits(0.1), load5: bits(0.2), load15: bits(0.3) }),
        host: HostSample { uptime: Some(bits(3600.0)), boot_time: Some(bits(1.6e9)) },
        network: Some(vec![NetworkCounters {
            interface: "eth0".to_string(),
            receive_bytes: bits(1.0),
            receive_errs: bits(0.0),
            receive_packets: bits(1.0),
            transmit_bytes: bits(1.0),
            transmit_errs: bits(0.0),
            transmit_packets_drop: None,
            transmit_packets: None,
        }]),
        filesystem: Some(vec![PartitionUsage {
            device: Some("/dev/sda1".to_string()),
            filesystem: "ext4".to_string(),
            mountpoint: "/".to_string(),
            usage: Some(FilesystemUsage {
                free: bits(1.0),
                total: bits(4.0),
                used: bits(3.0),
                used_ratio: Some(bits(0.75)),
            }),
        }]),
        disk: Some(vec![DiskCounters {
            device_name: "sda".to_string(),
            read_bytes: bits(1.0),
            reads_completed: bits(1.0),
            written_bytes: bits(1.0),
            writes_completed: bits(1.0),
        }]),
    }
}

#[test]
fn filters_on_collectors() {
    let stats = snapshot();
    let all_metrics_count =
        HostMetricsConfig::default().capture_metrics(&stats, &None).len();

    for collector in [
        Collector::Cpu,
        Collector::Disk,
        Collector::Filesystem,
        Collector::Load,
        Collector::Host,
        Collector::Memory,
        Collector::Network,
    ] {
        let some_metrics = HostMetricsConfig {
            collectors: Some(vec![collector]),
            ..Default::default()
        }
        .capture_metrics(&stats, &None);

        assert!(all_metrics_count > some_metrics.len(), "collector={:?}", collector);
    }
}

#[test]
fn are_taged_with_hostname() {
    let stats = snapshot();
    let hostname = Some("testhost".to_string());
    let metrics = HostMetricsConfig::default().capture_metrics(&stats, &hostname);
    assert!(!metrics.is_empty());
    assert!(metrics.iter().all(|m| m.tag_value("host").map(|v| v.as_str()) == Some("testhost")));
}

#[test]
fn hostname_failure_omits_host_tag() {
    let stats = snapshot();
    let metrics = HostMetricsConfig::default().capture_metrics(&stats, &None);
    assert!(!metrics.is_empty());
    assert!(metrics.iter().all(|m| m.tag_value("host").is_none()));
}

#[test]
fn tags_every_metric_with_its_collector() {
    let stats = snapshot();
    let metrics = HostMetricsConfig::default().capture_metrics(&stats, &None);
    assert!(metrics.iter().all(|m| m.tag_value("collector").is_some()));
    let names = ["cpu", "disk", "filesystem", "load", "host", "memory", "network"];
    for name in names {
        assert!(
            metrics.iter().any(|m| m.tag_value("collector").unwrap() == name),
            "collector={}",
            name
        );
    }
}

#[test]
fn uses_custom_namespace() {
    let stats = snapshot();
    let config = HostMetricsConfig {
        namespace: Namespace(Some("other".to_string())),
        ..Default::default()
    };
    let metrics = config.capture_metrics(&stats, &None);
    assert!(!metrics.is_empty());
    assert!(metrics.iter().all(|m| m.namespace.as_deref() == Some("other")));
}

#[test]
fn uses_default_namespace() {
    let stats = snapshot();
    let metrics = HostMetricsConfig::default().capture_metrics(&stats, &None);
    assert!(!metrics.is_empty());
    assert!(metrics.iter().all(|m| m.namespace.as_deref() == Some("host")));
}

#[test]
fn empty_namespace_disables_namespacing() {
    let stats = snapshot();
    let config = HostMetricsConfig {
        namespace: Namespace(Some(String::new())),
        ..Default::default()
    }
    .build();
    let metrics = config.capture_metrics(&stats, &None);
    assert!(!metrics.is_empty());
    assert!(metrics.iter().all(|m| m.namespace.is_none()));
}

#[test]
fn build_keeps_a_nonempty_namespace() {
    let config = HostMetricsConfig {
        namespace: Namespace(Some("other".to_string())),
        ..Default::default()
    }
    .build();
    assert_eq!(config.namespace.0.as_deref(), Some("other"));
    assert_eq!(config.scrape_interval_secs, 15);
}

#[test]
fn provider_failures_only_empty_their_category() {
    let mut stats = snapshot();
    stats.disk = None;
    stats.network = None;
    let metrics = HostMetricsConfig::default().capture_metrics(&stats, &None);
    assert!(!metrics.is_empty());
    assert!(metrics.iter().all(|m| {
        let c = m.tag_value("collector").unwrap();
        c != "disk" && c != "network"
    }));
    assert!(metrics.iter().any(|m| m.tag_value("collector").unwrap() == "cpu"));
}

#[test]
fn default_scrape_interval_is_fifteen_seconds() {
    assert_eq!(host_metrics::default_scrape_interval(), 15);
    assert_eq!(HostMetricsConfig::default().scrape_interval_secs, 15);
}

#[test]
fn add_collector_tags_every_metric() {
    let config = HostMetricsConfig::default();
    let times = Some(vec![CpuTimes {
        idle: bits(1.0),
        system: bits(1.0),
        user: bits(1.0),
        nice: None,
    }]);
    let metrics = add_collector("cpu", config.cpu_metrics(&times, 7));
    assert_eq!(metrics.len(), 3);
    assert!(metrics.iter().all(|m| m.tag_value("collector").map(|v| v.as_str()) == Some("cpu")));
}

#[test]
fn insert_tag_overrides_earlier_values() {
    let mut metric = Metric {
        name: "uptime".to_string(),
        kind: MetricKind::Gauge,
        value: bits(1.0),
        tags: vec![Tag { key: "host".to_string(), value: "first".to_string() }],
        namespace: None,
        timestamp: 0,
    };
    metric.insert_tag("host".to_string(), "second".to_string());
    assert_eq!(metric.tag_value("host").unwrap(), "second");
    assert!(metric.tag_value("mode").is_none());
}

#[test]
fn has_collector_follows_the_allow_list() {
    let all = HostMetricsConfig::default();
    assert!(all.has_collector(Collector::Cpu));
    assert!(all.has_collector(Collector::Network));
    let only_disk = HostMetricsConfig {
        collectors: Some(vec![Collector::Disk]),
        ..Default::default()
    };
    assert!(only_disk.has_collector(Collector::Disk));
    assert!(!only_disk.has_collector(Collector::Cpu));
}

#[test]
fn a_capture_shares_one_timestamp() {
    let stats = snapshot();
    let metrics = HostMetricsConfig::default().capture_metrics_at(&stats, &None, 424242);
    assert!(!metrics.is_empty());
    assert!(metrics.iter().all(|m| m.timestamp == 424242));
}
