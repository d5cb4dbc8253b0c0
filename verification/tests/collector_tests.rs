use host_metrics::config::{DiskConfig, FilesystemConfig, HostMetricsConfig, NetworkConfig};
use host_metrics::filter::FilterList;
use host_metrics::metric::{Metric, MetricKind};
use host_metrics::pattern::PatternWrapper;
use host_metrics::samples::{
    CpuTimes, DiskCounters, FilesystemUsage, HostSample, LoadAvgSample, MemorySample,
    NetworkCounters, PartitionUsage, SwapSample,
};

const TS: i64 = 1_600_000_000_000;

fn bits(value: f64) -> u64 {
    value.to_bits()
}

fn includes(texts: &[&str]) -> FilterList {
    FilterList {
        includes: Some(texts.iter().map(|t| PatternWrapper::new(t).unwrap()).collect()),
        excludes: None,
    }
}

fn cpu(idle: f64, system: f64, user: f64, nice: Option<f64>) -> CpuTimes {
    CpuTimes {
        idle: bits(idle),
        system: bits(system),
        user: bits(user),
        nice: nice.map(bits),
    }
}

fn network(interface: &str) -> NetworkCounters {
    NetworkCounters {
        interface: interface.to_string(),
        receive_bytes: bits(1024.0),
        receive_errs: bits(1.0),
        receive_packets: bits(8.0),
        transmit_bytes: bits(2048.0),
        transmit_errs: bits(0.0),
        transmit_packets_drop: Some(bits(2.0)),
        transmit_packets: Some(bits(16.0)),
    }
}

fn partition(device: Option<&str>, filesystem: &str, mountpoint: &str) -> PartitionUsage {
    PartitionUsage {
        device: device.map(|d| d.to_string()),
        filesystem: filesystem.to_string(),
        mountpoint: mountpoint.to_string(),
        usage: Some(FilesystemUsage {
            free: bits(1000.0),
            total: bits(4000.0),
            used: bits(3000.0),
            used_ratio: Some(bits(0.75)),
        }),
    }
}

fn disk(device_name: &str) -> DiskCounters {
    DiskCounters {
        device_name: device_name.to_string(),
        read_bytes: bits(100.0),
        reads_completed: bits(10.0),
        written_bytes: bits(200.0),
        writes_completed: bits(20.0),
    }
}

fn all_counters(metrics: &[Metric]) -> bool {
    metrics.iter().all(|m| m.kind == MetricKind::Counter)
}

fn all_gauges(metrics: &[Metric]) -> bool {
    metrics.iter().all(|m| m.kind == MetricKind::Gauge)
}

fn count_name(metrics: &[Metric], name: &str) -> usize {
    metrics.iter().filter(|m| m.name == name).count()
}

fn count_tag(metrics: &[Metric], tag: &str) -> usize {
    metrics.iter().filter(|m| m.tag_value(tag).is_some()).count()
}

#[test]
fn generates_cpu_metrics() {
    let config = HostMetricsConfig::default();
    let times = Some(vec![cpu(10.0, 2.0, 3.0, Some(0.5)), cpu(11.0, 2.5, 3.5, None)]);
    let metrics = config.cpu_metrics(&times, TS);
    assert!(!metrics.is_empty());
    assert_eq!(metrics.len(), 7);
    assert!(all_counters(&metrics));
    assert_eq!(metrics.len(), count_name(&metrics, "cpu_seconds_total"));
    assert_eq!(count_tag(&metrics, "mode"), metrics.len());
    assert_eq!(metrics[0].tag_value("mode").unwrap(), "idle");
    assert_eq!(metrics[0].tag_value("cpu").unwrap(), "0");
    assert_eq!(metrics[1].tag_value("mode").unwrap(), "nice");
    assert_eq!(metrics[4].tag_value("cpu").unwrap(), "1");
    assert_eq!(metrics[0].value, bits(10.0));
    assert!(metrics.iter().all(|m| m.timestamp == TS));
}

#[test]
fn cpu_provider_failure_yields_nothing() {
    let config = HostMetricsConfig::default();
    assert!(config.cpu_metrics(&None, TS).is_empty());
}

#[test]
fn generates_memory_metrics() {
    let config = HostMetricsConfig::default();
    let sample = Some(MemorySample {
        total: bits(16.0e9),
        free: bits(4.0e9),
        available: bits(8.0e9),
        active: Some(bits(5.0e9)),
        buffers: Some(bits(1.0e9)),
        cached: Some(bits(2.0e9)),
        shared: None,
        used: Some(bits(9.0e9)),
        inactive: None,
        wired: None,
    });
    let metrics = config.memory_metrics(&sample, TS);
    assert!(all_gauges(&metrics));
    assert_eq!(metrics.len(), 7);
    assert_eq!(count_name(&metrics, "memory_total_bytes"), 1);
    assert_eq!(count_name(&metrics, "memory_free_bytes"), 1);
    assert_eq!(count_name(&metrics, "memory_available_bytes"), 1);
    assert_eq!(count_name(&metrics, "memory_shared_bytes"), 0);
    assert_eq!(count_name(&metrics, "memory_used_bytes"), 1);
    assert_eq!(metrics[0].value, bits(16.0e9));
}

#[test]
fn generates_swap_metrics() {
    let config = HostMetricsConfig::default();
    let sample = Some(SwapSample {
        free: bits(1.0e9),
        total: bits(2.0e9),
        used: bits(1.0e9),
        swapped_in: Some(bits(0.0)),
        swapped_out: None,
    });
    let metrics = config.swap_metrics(&sample, TS);
    assert_eq!(metrics.len(), 4);
    assert_eq!(count_name(&metrics, "memory_swap_free_bytes"), 1);
    assert_eq!(count_name(&metrics, "memory_swap_total_bytes"), 1);
    assert_eq!(count_name(&metrics, "memory_swap_used_bytes"), 1);
    assert_eq!(count_name(&metrics, "memory_swapped_in_bytes_total"), 1);
    assert_eq!(count_name(&metrics, "memory_swapped_out_bytes_total"), 0);
    assert_eq!(metrics[3].kind, MetricKind::Counter);
    assert!(all_gauges(&metrics[..3]));
}

#[test]
fn generates_loadavg_metrics() {
    let config = HostMetricsConfig::default();
    let sample = Some(LoadAvgSample { load1: bits(0.5), load5: bits(0.7), load15: bits(0.9) });
    let metrics = config.loadavg_metrics(&sample, TS);
    assert_eq!(metrics.len(), 3);
    assert!(all_gauges(&metrics));
    assert!(metrics.iter().all(|m| m.name.starts_with("load")));
    assert_eq!(metrics[1].value, bits(0.7));
}

#[test]
fn generates_host_metrics() {
    let config = HostMetricsConfig::default();
    let sample = HostSample { uptime: Some(bits(3600.0)), boot_time: Some(bits(1.6e9)) };
    let metrics = config.host_metrics(&sample, TS);
    assert_eq!(metrics.len(), 2);
    assert!(all_gauges(&metrics));
    assert_eq!(metrics[0].name, "uptime");
    assert_eq!(metrics[1].name, "boot_time");

    let partial = HostSample { uptime: None, boot_time: Some(bits(1.6e9)) };
    let metrics = config.host_metrics(&partial, TS);
    assert_eq!(metrics.len(), 1);
    assert_eq!(metrics[0].name, "boot_time");
}

#[test]
fn generates_network_metrics() {
    let config = HostMetricsConfig::default();
    let counters = Some(vec![network("eth0"), network("lo")]);
    let metrics = config.network_metrics(&counters, TS);
    assert!(!metrics.is_empty());
    assert_eq!(metrics.len(), 14);
    assert!(all_counters(&metrics));
    assert!(metrics.iter().all(|m| m.name.starts_with("network_")));
    assert_eq!(count_tag(&metrics, "device"), metrics.len());
    assert_eq!(metrics[0].tag_value("device").unwrap(), "eth0");
}

#[test]
fn network_metrics_filters_on_device() {
    let config = HostMetricsConfig {
        network: NetworkConfig { devices: includes(&["eth*"]) },
        ..Default::default()
    };
    let counters = Some(vec![network("eth0"), network("lo"), network("eth1")]);
    let metrics = config.network_metrics(&counters, TS);
    assert_eq!(metrics.len(), 14);
    assert!(metrics.iter().all(|m| m.tag_value("device").unwrap().starts_with("eth")));
}

#[test]
fn generates_filesystem_metrics() {
    let config = HostMetricsConfig::default();
    let partitions = Some(vec![
        partition(Some("/dev/sda1"), "ext4", "/"),
        partition(None, "tmpfs", "/tmp"),
    ]);
    let metrics = config.filesystem_metrics(&partitions, TS);
    assert!(!metrics.is_empty());
    assert_eq!(metrics.len() % 4, 0);
    assert!(all_gauges(&metrics));
    for name in [
        "filesystem_free_bytes",
        "filesystem_total_bytes",
        "filesystem_used_bytes",
        "filesystem_used_ratio",
    ] {
        assert_eq!(count_name(&metrics, name), metrics.len() / 4, "name={}", name);
    }
    assert_eq!(count_tag(&metrics, "filesystem"), metrics.len());
    assert_eq!(count_tag(&metrics, "mountpoint"), metrics.len());
    assert_eq!(count_tag(&metrics, "device"), 4);
}

#[test]
fn filesystem_metrics_skip_failed_usage() {
    let config = HostMetricsConfig::default();
    let mut failed = partition(Some("/dev/sda1"), "ext4", "/");
    failed.usage = None;
    let partitions = Some(vec![failed, partition(Some("/dev/sdb1"), "ext4", "/data")]);
    let metrics = config.filesystem_metrics(&partitions, TS);
    assert_eq!(metrics.len(), 4);
    assert!(metrics.iter().all(|m| m.tag_value("mountpoint").unwrap() == "/data"));
}

#[test]
fn filesystem_metrics_filters_on_device() {
    let config = HostMetricsConfig {
        filesystem: FilesystemConfig { devices: includes(&["/dev/sda*"]), ..Default::default() },
        ..Default::default()
    };
    let partitions = Some(vec![
        partition(Some("/dev/sda1"), "ext4", "/"),
        partition(Some("/dev/sdb1"), "ext4", "/data"),
        partition(None, "tmpfs", "/tmp"),
    ]);
    let metrics = config.filesystem_metrics(&partitions, TS);
    assert_eq!(metrics.len(), 4);
    assert!(metrics.iter().all(|m| m.tag_value("device").unwrap() == "/dev/sda1"));
}

#[test]
fn filesystem_metrics_filters_on_filesystem() {
    let config = HostMetricsConfig {
        filesystem: FilesystemConfig { filesystems: includes(&["ext*"]), ..Default::default() },
        ..Default::default()
    };
    let partitions = Some(vec![
        partition(Some("/dev/sda1"), "ext4", "/"),
        partition(None, "tmpfs", "/tmp"),
    ]);
    let metrics = config.filesystem_metrics(&partitions, TS);
    assert_eq!(metrics.len(), 4);
    assert!(metrics.iter().all(|m| m.tag_value("filesystem").unwrap() == "ext4"));
}

#[test]
fn filesystem_metrics_filters_on_mountpoint() {
    let config = HostMetricsConfig {
        filesystem: FilesystemConfig { mountpoints: includes(&["/data*"]), ..Default::default() },
        ..Default::default()
    };
    let partitions = Some(vec![
        partition(Some("/dev/sda1"), "ext4", "/"),
        partition(Some("/dev/sdb1"), "ext4", "/data"),
    ]);
    let metrics = config.filesystem_metrics(&partitions, TS);
    assert_eq!(metrics.len(), 4);
    assert!(metrics.iter().all(|m| m.tag_value("mountpoint").unwrap() == "/data"));
}

#[test]
fn generates_disk_metrics() {
    let config = HostMetricsConfig::default();
    let counters = Some(vec![disk("sda"), disk("dm-0")]);
    let metrics = config.disk_metrics(&counters, TS);
    assert!(!metrics.is_empty());
    assert_eq!(metrics.len() % 4, 0);
    assert!(all_counters(&metrics));
    for name in [
        "disk_read_bytes_total",
        "disk_reads_completed_total",
        "disk_written_bytes_total",
        "disk_writes_completed_total",
    ] {
        assert_eq!(count_name(&metrics, name), metrics.len() / 4, "name={}", name);
    }
    assert_eq!(count_tag(&metrics, "device"), metrics.len());
}

#[test]
fn filters_disk_metrics_on_device() {
    let config = HostMetricsConfig {
        disk: DiskConfig { devices: includes(&["sda"]) },
        ..Default::default()
    };
    let counters = Some(vec![disk("sda"), disk("sda1"), disk("dm-0")]);
    let metrics = config.disk_metrics(&counters, TS);
    assert_eq!(metrics.len(), 4);
    assert!(metrics.iter().all(|m| m.tag_value("device").unwrap() == "sda"));
}
