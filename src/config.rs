//! The node configuration snapshot and its validation.

use vstd::prelude::*;

verus! {

/// Minimum severity that the logger retains.
#[derive(Clone, Copy, Debug, PartialEq, Eq, Structural)]
pub enum LogLevel {
    Error,
    Warn,
    Info,
    Debug,
    Trace,
}

/// Options of the unstructured logging sink.
#[derive(Clone, Copy, Debug, PartialEq, Eq, Structural)]
pub struct LoggerConfig {
    /// Capacity of the bounded queue of log records.
    pub chan_size: usize,
    /// Whether records are flushed by a background thread.
    pub is_async: bool,
    /// Minimum retained severity.
    pub level: LogLevel,
}

/// Options of the periodic metrics dumps.
#[derive(Debug)]
pub struct MetricsConfig {
    pub enabled: bool,
    /// Directory that receives one `<identifier>.metrics` file per network.
    pub dir: String,
    /// Period between two dumps, in milliseconds.
    pub collection_interval_ms: u64,
}

/// Immutable snapshot of the node's startup parameters.
///
/// Each network is given by the text of its identity, which names its
/// metrics file.
#[derive(Debug)]
pub struct NodeConfig {
    pub logger: LoggerConfig,
    pub metrics: MetricsConfig,
    pub full_node_networks: Vec<String>,
    pub validator_network: Option<String>,
}

/// Why a configuration snapshot was refused.
#[derive(Clone, Copy, Debug, PartialEq, Eq, Structural)]
pub enum ConfigError {
    /// Two networks whose metrics are collected share an identity.
    DuplicateIdentity,
}

/// The identities of all configured networks: the full-node ones in order,
/// then the validator one if there is one.
pub open spec fn network_identities(c: NodeConfig) -> Seq<Seq<char>> {
    let full = c.full_node_networks@.map_values(|s: String| s@);
    match c.validator_network {
        Some(v) => full.push(v@),
        None => full,
    }
}

/// The identities whose metrics are dumped: all of them when metrics are
/// enabled, none otherwise.
pub open spec fn metrics_identities(c: NodeConfig) -> Seq<Seq<char>> {
    if c.metrics.enabled {
        network_identities(c)
    } else {
        Seq::empty()
    }
}

/// Number of identities whose metrics are dumped.
pub open spec fn metrics_task_count(c: NodeConfig) -> nat {
    if c.metrics.enabled {
        c.full_node_networks@.len() + if c.validator_network is Some { 1nat } else { 0nat }
    } else {
        0
    }
}

/// No identity occurs twice in `ids`.
pub open spec fn all_distinct(ids: Seq<Seq<char>>) -> bool {
    forall|i: int, j: int| 0 <= i < j < ids.len() ==> ids[i] != ids[j]
}

/// A snapshot is valid when the identities used for metrics are unique.
pub open spec fn config_valid(c: NodeConfig) -> bool {
    all_distinct(metrics_identities(c))
}

/// The views of a sequence of strings.
pub open spec fn texts(v: Seq<String>) -> Seq<Seq<char>> {
    v.map_values(|s: String| s@)
}

/// The identities whose metrics are dumped, in order.
pub fn metrics_identity_list(config: &NodeConfig) -> (r: Vec<String>)
    ensures
        texts(r@) == metrics_identities(*config),
        r@.len() == metrics_task_count(*config),
{
    let mut r: Vec<String> = Vec::new();
    if config.metrics.enabled {
        let n = config.full_node_networks.len();
        let mut i: usize = 0;
        while i < n
            invariant
                n == config.full_node_networks@.len(),
                i <= n,
                r@.len() == i,
                forall|k: int| 0 <= k < i ==> r@[k]@ == config.full_node_networks@[k]@,
            decreases n - i,
        {
            r.push(config.full_node_networks[i].clone());
            i = i + 1;
        }
        assert(texts(r@) =~= texts(config.full_node_networks@));
        match &config.validator_network {
            Some(v) => {
                r.push(v.clone());
                assert(texts(r@) =~= texts(config.full_node_networks@).push(v@));
            },
            None => {},
        }
    } else {
        assert(texts(r@) =~= Seq::empty());
    }
    r
}

/// Whether some identity occurs twice in `ids`.
pub fn has_duplicate(ids: &Vec<String>) -> (r: bool)
    ensures
        r == !all_distinct(texts(ids@)),
{
    let n = ids.len();
    let mut j: usize = 0;
    while j < n
        invariant
            n == ids@.len(),
            j <= n,
            forall|a: int, b: int| 0 <= a < b < j ==> texts(ids@)[a] != texts(ids@)[b],
        decreases n - j,
    {
        let mut i: usize = 0;
        while i < j
            invariant
                n == ids@.len(),
                i <= j < n,
                forall|a: int| 0 <= a < i ==> texts(ids@)[a] != texts(ids@)[j as int],
            decreases j - i,
        {
            if ids[i] == ids[j] {
                assert(texts(ids@)[i as int] == texts(ids@)[j as int]);
                return true;
            }
            i = i + 1;
        }
        j = j + 1;
    }
    false
}

/// Accepts a snapshot exactly when the identities used for metrics are
/// unique, and hands it back unchanged.
pub fn check_config(config: NodeConfig) -> (r: Result<NodeConfig, ConfigError>)
    ensures
        config_valid(config) ==> r == Ok::<NodeConfig, ConfigError>(config),
        !config_valid(config) ==> r == Err::<NodeConfig, ConfigError>(ConfigError::DuplicateIdentity),
{
    let ids = metrics_identity_list(&config);
    if has_duplicate(&ids) {
        Err(ConfigError::DuplicateIdentity)
    } else {
        Ok(config)
    }
}

} // verus!
