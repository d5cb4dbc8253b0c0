//! Static configuration for one run: the scrape interval, which categories
//! are enabled, the metric namespace, and the per-category filter lists.
//! Immutable once built; shared read-only by all collectors.

use vstd::prelude::*;

use crate::filter::FilterList;
use crate::metric::opt_string_view;

verus! {

/// One of the seven resource domains sampled each capture cycle.
#[derive(Clone, Copy, Debug, PartialEq, Eq, Structural)]
pub enum Collector {
    Cpu,
    Disk,
    Filesystem,
    Load,
    Host,
    Memory,
    Network,
}

/// The namespace attached to every emitted metric; `None` disables
/// namespace attachment.
pub struct Namespace(pub Option<String>);

impl Namespace {
    /// The namespace as the contracts see it.
    pub open spec fn spec_view(&self) -> Option<Seq<char>> {
        opt_string_view(self.0)
    }
}

impl Default for Namespace {
    /// The default namespace is `"host"`.
    fn default() -> (r: Self)
        ensures
            r.spec_view() == Some("host"@),
    {
        Namespace(Some("host".to_owned()))
    }
}

/// Filters for the disk category.
pub struct DiskConfig {
    pub devices: FilterList,
}

impl Default for DiskConfig {
    /// By default no disk device is filtered away.
    fn default() -> (r: Self)
        ensures
            r.devices.includes is None,
            r.devices.excludes is None,
    {
        DiskConfig { devices: FilterList::default() }
    }
}

/// Filters for the filesystem category; a partition must pass all three.
pub struct FilesystemConfig {
    pub devices: FilterList,
    pub filesystems: FilterList,
    pub mountpoints: FilterList,
}

impl Default for FilesystemConfig {
    /// By default no partition is filtered away.
    fn default() -> (r: Self)
        ensures
            r.devices.includes is None,
            r.devices.excludes is None,
            r.filesystems.includes is None,
            r.filesystems.excludes is None,
            r.mountpoints.includes is None,
            r.mountpoints.excludes is None,
    {
        FilesystemConfig {
            devices: FilterList::default(),
            filesystems: FilterList::default(),
            mountpoints: FilterList::default(),
        }
    }
}

/// Filters for the network category.
pub struct NetworkConfig {
    pub devices: FilterList,
}

impl Default for NetworkConfig {
    /// By default no network device is filtered away.
    fn default() -> (r: Self)
        ensures
            r.devices.includes is None,
            r.devices.excludes is None,
    {
        NetworkConfig { devices: FilterList::default() }
    }
}

/// The whole source configuration, immutable for the lifetime of one run.
pub struct HostMetricsConfig {
    /// Seconds between capture cycles; positive.
    pub scrape_interval_secs: u64,
    /// Enabled-category allow-list; absent means all seven are enabled.
    pub collectors: Option<Vec<Collector>>,
    /// Namespace carried by every emitted metric.
    pub namespace: Namespace,
    pub disk: DiskConfig,
    pub filesystem: FilesystemConfig,
    pub network: NetworkConfig,
}

impl Default for HostMetricsConfig {
    /// The default configuration enables all categories, scrapes every 15
    /// seconds, namespaces metrics under `"host"` and filters nothing.
    fn default() -> (r: Self)
        ensures
            r.scrape_interval_secs == 15,
            r.collectors is None,
            r.namespace.spec_view() == Some("host"@),
            r.disk.devices.includes is None,
            r.disk.devices.excludes is None,
            r.filesystem.devices.includes is None,
            r.filesystem.devices.excludes is None,
            r.filesystem.filesystems.includes is None,
            r.filesystem.filesystems.excludes is None,
            r.filesystem.mountpoints.includes is None,
            r.filesystem.mountpoints.excludes is None,
            r.network.devices.includes is None,
            r.network.devices.excludes is None,
    {
        HostMetricsConfig {
            scrape_interval_secs: crate::default_scrape_interval(),
            collectors: None,
            namespace: Namespace::default(),
            disk: DiskConfig::default(),
            filesystem: FilesystemConfig::default(),
            network: NetworkConfig::default(),
        }
    }
}

impl HostMetricsConfig {
    /// Whether the category `collector` runs: every category runs when no
    /// allow-list is set, otherwise exactly the listed ones.
    pub open spec fn spec_enabled(&self, collector: Collector) -> bool {
        match self.collectors {
            None => true,
            Some(list) => exists|i: int| 0 <= i < list@.len() && list@[i] == collector,
        }
    }

    /// Whether the category `collector` is enabled by this configuration.
    pub fn has_collector(&self, collector: Collector) -> (r: bool)
        ensures
            r == self.spec_enabled(collector),
    {
        match &self.collectors {
            None => true,
            Some(list) => {
                let mut i: usize = 0;
                while i < list.len()
                    invariant
                        0 <= i <= list@.len(),
                        self.collectors == Some(*list),
                        forall|j: int| 0 <= j < i ==> list@[j] != collector,
                    decreases list@.len() - i,
                {
                    if list[i] == collector {
                        proof {
                            assert(self.collectors.unwrap()@[i as int] == collector);
                        }
                        return true;
                    }
                    i += 1;
                }
                false
            },
        }
    }

    /// Prepares the configuration for the capture loop: an explicitly empty
    /// namespace disables namespace attachment; everything else is kept.
    pub fn build(self) -> (r: Self)
        ensures
            r.namespace.spec_view() == (match self.namespace.spec_view() {
                Some(ns) => if ns.len() == 0 {
                    None::<Seq<char>>
                } else {
                    Some(ns)
                },
                None => None::<Seq<char>>,
            }),
            r.scrape_interval_secs == self.scrape_interval_secs,
            r.collectors == self.collectors,
            r.disk == self.disk,
            r.filesystem == self.filesystem,
            r.network == self.network,
    {
        let HostMetricsConfig { scrape_interval_secs, collectors, namespace, disk, filesystem, network } =
            self;
        let namespace = Namespace(
            match namespace.0 {
                Some(ns) => if ns.as_str().is_empty() {
                    None
                } else {
                    Some(ns)
                },
                None => None,
            },
        );
        HostMetricsConfig { scrape_interval_secs, collectors, namespace, disk, filesystem, network }
    }
}

} // verus!
