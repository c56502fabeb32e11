//! The periodic metrics dumps: one task per monitored network identity.

use vstd::prelude::*;
use crate::config::{metrics_identities, metrics_identity_list, metrics_task_count, NodeConfig};

verus! {

/// What one periodic metrics task needs: where it writes and how often.
#[derive(Debug)]
pub struct MetricsTask {
    /// Directory of the output file.
    pub dir: String,
    /// Name of the output file, `<identifier>.metrics`.
    pub file_name: String,
    /// Period between two dumps, in milliseconds.
    pub interval_ms: u64,
}

/// Name of the file that receives the metrics of the network `id`.
pub open spec fn metrics_file_name_of(id: Seq<char>) -> Seq<char> {
    id + ".metrics"@
}

/// The task that dumps the metrics of `id` under the options of `c`.
pub open spec fn task_matches(t: MetricsTask, c: NodeConfig, id: Seq<char>) -> bool {
    &&& t.dir@ == c.metrics.dir@
    &&& t.file_name@ == metrics_file_name_of(id)
    &&& t.interval_ms == c.metrics.collection_interval_ms
}

/// The name of the file that receives the metrics of the network `id`.
pub fn metrics_file_name(id: &String) -> (r: String)
    ensures
        r@ == metrics_file_name_of(id@),
{
    id.clone().concat(".metrics")
}

/// One task for each identity whose metrics are dumped, in the order of
/// the configuration; none when metrics are disabled.
pub fn metrics_tasks(config: &NodeConfig) -> (r: Vec<MetricsTask>)
    ensures
        r@.len() == metrics_task_count(*config),
        forall|i: int|
            0 <= i < r@.len() ==> task_matches(#[trigger] r@[i], *config, metrics_identities(*config)[i]),
{
    let ids = metrics_identity_list(config);
    let mut r: Vec<MetricsTask> = Vec::new();
    let mut i: usize = 0;
    while i < ids.len()
        invariant
            i <= ids@.len(),
            ids@.len() == metrics_task_count(*config),
            crate::config::texts(ids@) == metrics_identities(*config),
            r@.len() == i,
            forall|k: int| 0 <= k < i ==> task_matches(#[trigger] r@[k], *config, metrics_identities(*config)[k]),
        decreases ids@.len() - i,
    {
        let task = MetricsTask {
            dir: config.metrics.dir.clone(),
            file_name: metrics_file_name(&ids[i]),
            interval_ms: config.metrics.collection_interval_ms,
        };
        r.push(task);
        i = i + 1;
    }
    r
}

} // verus!
