//! Monitoring views: which nodes of which cluster report metrics, and the
//! sample series handed to the dashboards.

use vstd::prelude::*;
use crate::ha::procotol::MysqlMonitorStatus;
use crate::ha::sys_manager::MonitorSetting;
use crate::storage::opdb::{HostInfoValue, spec_in_list};
use crate::storage::rocks::RowValue;

verus! {

/// Whether monitoring is switched on for `host`.
pub open spec fn spec_monitored(ms: Seq<RowValue<MonitorSetting>>, host: Seq<char>) -> bool {
    exists|i: int| 0 <= i < ms.len() && ms[i].value.host@ == host && ms[i].value.monitor
}

/// One cluster's monitored nodes.
#[derive(Clone)]
pub struct ClusterMonitorMetric {
    pub cluster_name: String,
    pub node_list: Vec<String>,
}

impl ClusterMonitorMetric {
    pub fn new(cluster_name: &String) -> (r: ClusterMonitorMetric)
        ensures
            r.cluster_name == *cluster_name,
            r.node_list@.len() == 0,
    {
        ClusterMonitorMetric { cluster_name: cluster_name.clone(), node_list: Vec::new() }
    }

    /// Whether `host` is already listed.
    pub fn is_exists(&self, host: &String) -> (r: bool)
        ensures
            r == spec_in_list(self.node_list@, host@),
    {
        let mut i: usize = 0;
        while i < self.node_list.len()
            invariant
                0 <= i <= self.node_list@.len(),
                forall|j: int| 0 <= j < i ==> self.node_list@[j]@ != host@,
            decreases self.node_list@.len() - i,
        {
            if self.node_list[i] == *host {
                return true;
            }
            i += 1;
        }
        false
    }

    /// Whether the settings switch monitoring on for `host`.
    pub fn check_monitor(&self, ms: &Vec<RowValue<MonitorSetting>>, host: &String) -> (r: bool)
        ensures
            r == spec_monitored(ms@, host@),
    {
        let mut i: usize = 0;
        while i < ms.len()
            invariant
                0 <= i <= ms@.len(),
                forall|j: int|
                    0 <= j < i ==> !((#[trigger] ms@[j].value.host@) == host@
                        && ms@[j].value.monitor),
            decreases ms@.len() - i,
        {
            if ms[i].value.host == *host {
                if ms[i].value.monitor {
                    return true;
                }
            }
            i += 1;
        }
        false
    }

    /// Lists `host` once, and only when its monitoring is switched on.
    pub fn init(&mut self, ms: &Vec<RowValue<MonitorSetting>>, host: &String)
        ensures
            final(self).cluster_name == old(self).cluster_name,
            final(self).node_list@ == if spec_in_list(old(self).node_list@, host@)
                || !spec_monitored(ms@, host@) {
                old(self).node_list@
            } else {
                old(self).node_list@.push(*host)
            },
    {
        if self.is_exists(host) {
            return ;
        }
        if !self.check_monitor(ms, host) {
            return ;
        }
        self.node_list.push(host.clone());
    }
}

/// A cluster's monitored nodes as plain values.
pub open spec fn spec_metric_view(c: ClusterMonitorMetric) -> (Seq<char>, Seq<String>) {
    (c.cluster_name@, c.node_list@)
}

/// The first group carrying `name`, or -1.
pub open spec fn spec_find_metric_group(gs: Seq<(Seq<char>, Seq<String>)>, name: Seq<char>) -> int
    decreases gs.len(),
{
    if gs.len() == 0 {
        -1
    } else if gs[0].0 == name {
        0
    } else {
        let r = spec_find_metric_group(gs.drop_first(), name);
        if r == -1 {
            -1
        } else {
            1 + r
        }
    }
}

proof fn lemma_find_metric_group_at(gs: Seq<(Seq<char>, Seq<String>)>, name: Seq<char>, i: int)
    requires
        0 <= i < gs.len(),
        gs[i].0 == name,
        forall|j: int| 0 <= j < i ==> (#[trigger] gs[j].0) != name,
    ensures
        spec_find_metric_group(gs, name) == i,
    decreases i,
{
    if i > 0 {
        let t = gs.drop_first();
        assert(forall|j: int| 0 <= j < i - 1 ==> t[j] == #[trigger] gs[j + 1]);
        lemma_find_metric_group_at(t, name, i - 1);
    }
}

proof fn lemma_find_metric_group_none(gs: Seq<(Seq<char>, Seq<String>)>, name: Seq<char>)
    requires
        forall|j: int| 0 <= j < gs.len() ==> (#[trigger] gs[j].0) != name,
    ensures
        spec_find_metric_group(gs, name) == -1,
    decreases gs.len(),
{
    if gs.len() > 0 {
        let t = gs.drop_first();
        assert(forall|j: int| 0 <= j < t.len() ==> t[j] == #[trigger] gs[j + 1]);
        lemma_find_metric_group_none(t, name);
    }
}

/// What one node does to a group: nothing when it is already listed or
/// unmonitored, else it joins.
pub open spec fn spec_metric_join(
    g: (Seq<char>, Seq<String>),
    ms: Seq<RowValue<MonitorSetting>>,
    host: String,
) -> (Seq<char>, Seq<String>) {
    if spec_in_list(g.1, host@) || !spec_monitored(ms, host@) {
        g
    } else {
        (g.0, g.1.push(host))
    }
}

/// The monitored nodes grouped by cluster, in first-seen order.
pub open spec fn spec_metric_groups(
    nodes: Seq<HostInfoValue>,
    ms: Seq<RowValue<MonitorSetting>>,
) -> Seq<(Seq<char>, Seq<String>)>
    decreases nodes.len(),
{
    if nodes.len() == 0 {
        Seq::empty()
    } else {
        let g = spec_metric_groups(nodes.drop_last(), ms);
        let n = nodes.last();
        let k = spec_find_metric_group(g, n.cluster_name@);
        if k >= 0 {
            g.update(k, spec_metric_join(g[k], ms, n.host))
        } else {
            g.push(spec_metric_join((n.cluster_name@, Seq::empty()), ms, n.host))
        }
    }
}

/// The metric catalogue and, per cluster, the nodes reporting it.
#[derive(Clone)]
pub struct ResponseClusterMetric {
    pub metric_info: Vec<String>,
    pub nodes_info: Vec<ClusterMonitorMetric>,
}

impl ResponseClusterMetric {
    /// The fixed catalogue of served metrics.
    pub fn new() -> (r: ResponseClusterMetric)
        ensures
            r.metric_info@.len() == 25,
            r.metric_info@[0]@ == "com_insert"@,
            r.metric_info@[1]@ == "com_update"@,
            r.metric_info@[2]@ == "com_delete"@,
            r.metric_info@[3]@ == "com_select"@,
            r.metric_info@[4]@ == "questions"@,
            r.metric_info@[5]@ == "innodb_row_lock_current_waits"@,
            r.metric_info@[6]@ == "innodb_row_lock_time"@,
            r.metric_info@[7]@ == "created_tmp_disk_tables"@,
            r.metric_info@[8]@ == "created_tmp_tables"@,
            r.metric_info@[9]@ == "innodb_buffer_pool_reads"@,
            r.metric_info@[10]@ == "innodb_buffer_pool_read_requests"@,
            r.metric_info@[11]@ == "handler_read_first"@,
            r.metric_info@[12]@ == "handler_read_key"@,
            r.metric_info@[13]@ == "handler_read_next"@,
            r.metric_info@[14]@ == "handler_read_prev"@,
            r.metric_info@[15]@ == "handler_read_rnd"@,
            r.metric_info@[16]@ == "handler_read_rnd_next"@,
            r.metric_info@[17]@ == "innodb_os_log_pending_fsyncs"@,
            r.metric_info@[18]@ == "innodb_os_log_pending_writes"@,
            r.metric_info@[19]@ == "innodb_log_waits"@,
            r.metric_info@[20]@ == "threads_connected"@,
            r.metric_info@[21]@ == "threads_running"@,
            r.metric_info@[22]@ == "bytes_sent"@,
            r.metric_info@[23]@ == "bytes_received"@,
            r.metric_info@[24]@ == "slow_queries"@,
            r.nodes_info@.len() == 0,
    {
        let mut metric_info: Vec<String> = Vec::new();
        metric_info.push("com_insert".to_owned());
        metric_info.push("com_update".to_owned());
        metric_info.push("com_delete".to_owned());
        metric_info.push("com_select".to_owned());
        metric_info.push("questions".to_owned());
        metric_info.push("innodb_row_lock_current_waits".to_owned());
        metric_info.push("innodb_row_lock_time".to_owned());
        metric_info.push("created_tmp_disk_tables".to_owned());
        metric_info.push("created_tmp_tables".to_owned());
        metric_info.push("innodb_buffer_pool_reads".to_owned());
        metric_info.push("innodb_buffer_pool_read_requests".to_owned());
        metric_info.push("handler_read_first".to_owned());
        metric_info.push("handler_read_key".to_owned());
        metric_info.push("handler_read_next".to_owned());
        metric_info.push("handler_read_prev".to_owned());
        metric_info.push("handler_read_rnd".to_owned());
        metric_info.push("handler_read_rnd_next".to_owned());
        metric_info.push("innodb_os_log_pending_fsyncs".to_owned());
        metric_info.push("innodb_os_log_pending_writes".to_owned());
        metric_info.push("innodb_log_waits".to_owned());
        metric_info.push("threads_connected".to_owned());
        metric_info.push("threads_running".to_owned());
        metric_info.push("bytes_sent".to_owned());
        metric_info.push("bytes_received".to_owned());
        metric_info.push("slow_queries".to_owned());
        ResponseClusterMetric { metric_info, nodes_info: Vec::new() }
    }

    /// Groups every registered node's monitored status by cluster.
    pub fn init(&mut self, nodes: &Vec<HostInfoValue>, ms: &Vec<RowValue<MonitorSetting>>) -> (r:
        Result<(), String>)
        ensures
            r is Ok,
            final(self).metric_info == old(self).metric_info,
            old(self).nodes_info@.len() == 0 ==> final(self).nodes_info@.map_values(
                |c: ClusterMonitorMetric| spec_metric_view(c),
            ) == spec_metric_groups(nodes@, ms@),
    {
        if self.nodes_info.len() > 0 {
            let mut i: usize = 0;
            while i < nodes.len()
                invariant
                    0 <= i <= nodes@.len(),
                    self.metric_info == old(self).metric_info,
                decreases nodes@.len() - i,
            {
                self.join_node(&nodes[i], ms);
                i += 1;
            }
            return Ok(());
        }
        let mut i: usize = 0;
        proof {
            assert(self.nodes_info@.map_values(|c: ClusterMonitorMetric| spec_metric_view(c))
                =~= spec_metric_groups(nodes@.subrange(0, 0), ms@));
        }
        while i < nodes.len()
            invariant
                0 <= i <= nodes@.len(),
                self.metric_info == old(self).metric_info,
                self.nodes_info@.map_values(|c: ClusterMonitorMetric| spec_metric_view(c))
                    == spec_metric_groups(nodes@.subrange(0, i as int), ms@),
            decreases nodes@.len() - i,
        {
            let ghost pre = self.nodes_info@.map_values(
                |c: ClusterMonitorMetric| spec_metric_view(c),
            );
            proof {
                assert(nodes@.subrange(0, i as int + 1).drop_last() =~= nodes@.subrange(
                    0,
                    i as int,
                ));
            }
            self.join_node_tracked(&nodes[i], ms, Ghost(pre));
            i += 1;
        }
        proof {
            assert(nodes@.subrange(0, nodes@.len() as int) =~= nodes@);
        }
        Ok(())
    }

    /// Joins one node into its cluster's group, opening the group when
    /// the cluster is new.
    fn join_node(&mut self, node: &HostInfoValue, ms: &Vec<RowValue<MonitorSetting>>)
        ensures
            final(self).metric_info == old(self).metric_info,
    {
        let ghost pre = self.nodes_info@.map_values(|c: ClusterMonitorMetric| spec_metric_view(c));
        self.join_node_tracked(node, ms, Ghost(pre));
    }

    fn join_node_tracked(
        &mut self,
        node: &HostInfoValue,
        ms: &Vec<RowValue<MonitorSetting>>,
        pre: Ghost<Seq<(Seq<char>, Seq<String>)>>,
    )
        requires
            pre@ == old(self).nodes_info@.map_values(
                |c: ClusterMonitorMetric| spec_metric_view(c),
            ),
        ensures
            final(self).metric_info == old(self).metric_info,
            final(self).nodes_info@.map_values(|c: ClusterMonitorMetric| spec_metric_view(c))
                == ({
                let k = spec_find_metric_group(pre@, node.cluster_name@);
                if k >= 0 {
                    pre@.update(k, spec_metric_join(pre@[k], ms@, node.host))
                } else {
                    pre@.push(spec_metric_join((node.cluster_name@, Seq::empty()), ms@, node.host))
                }
            }),
    {
        let mut j: usize = 0;
        while j < self.nodes_info.len() && !(self.nodes_info[j].cluster_name == node.cluster_name)
            invariant
                0 <= j <= self.nodes_info@.len(),
                forall|k: int|
                    0 <= k < j ==> (#[trigger] self.nodes_info@[k].cluster_name@)
                        != node.cluster_name@,
                *self == *old(self),
            decreases self.nodes_info@.len() - j,
        {
            j += 1;
        }
        proof {
            assert(forall|k: int|
                0 <= k < pre@.len() ==> (#[trigger] pre@[k].0) == old(self).nodes_info@[k
                ].cluster_name@);
        }
        if j < self.nodes_info.len() {
            proof {
                lemma_find_metric_group_at(pre@, node.cluster_name@, j as int);
            }
            self.nodes_info[j].init(ms, &node.host);
            proof {
                assert(self.nodes_info@.map_values(|c: ClusterMonitorMetric| spec_metric_view(c))
                    =~~= pre@.update(
                    j as int,
                    spec_metric_join(pre@[j as int], ms@, node.host),
                ));
            }
        } else {
            proof {
                lemma_find_metric_group_none(pre@, node.cluster_name@);
            }
            let mut cnm = ClusterMonitorMetric::new(&node.cluster_name);
            cnm.init(ms, &node.host);
            self.nodes_info.push(cnm);
            proof {
                assert(self.nodes_info@.map_values(|c: ClusterMonitorMetric| spec_metric_view(c))
                    =~~= pre@.push(
                    spec_metric_join((node.cluster_name@, Seq::empty()), ms@, node.host),
                ));
            }
        }
    }
}

/// The value a sample reports under a metric name; 0 for a name outside
/// the catalogue.
pub open spec fn spec_metric_value(s: MysqlMonitorStatus, metric: Seq<char>) -> usize {
    if metric == "com_insert"@ {
        s.com_insert
    } else if metric == "com_update"@ {
        s.com_update
    } else if metric == "com_delete"@ {
        s.com_delete
    } else if metric == "com_select"@ {
        s.com_select
    } else if metric == "questions"@ {
        s.questions
    } else if metric == "innodb_row_lock_current_waits"@ {
        s.innodb_row_lock_current_waits
    } else if metric == "innodb_row_lock_time"@ {
        s.innodb_row_lock_time
    } else if metric == "created_tmp_disk_tables"@ {
        s.created_tmp_disk_tables
    } else if metric == "created_tmp_tables"@ {
        s.created_tmp_tables
    } else if metric == "innodb_buffer_pool_reads"@ {
        s.innodb_buffer_pool_reads
    } else if metric == "innodb_buffer_pool_read_requests"@ {
        s.innodb_buffer_pool_read_requests
    } else if metric == "handler_read_first"@ {
        s.handler_read_first
    } else if metric == "handler_read_key"@ {
        s.handler_read_key
    } else if metric == "handler_read_next"@ {
        s.handler_read_next
    } else if metric == "handler_read_prev"@ {
        s.handler_read_prev
    } else if metric == "handler_read_rnd"@ {
        s.handler_read_rnd
    } else if metric == "handler_read_rnd_next"@ {
        s.handler_read_rnd_next
    } else if metric == "innodb_os_log_pending_fsyncs"@ {
        s.innodb_os_log_pending_fsyncs
    } else if metric == "innodb_os_log_pending_writes"@ {
        s.innodb_os_log_pending_writes
    } else if metric == "innodb_log_waits"@ {
        s.innodb_log_waits
    } else if metric == "threads_connected"@ {
        s.threads_connected
    } else if metric == "threads_running"@ {
        s.threads_running
    } else if metric == "bytes_sent"@ {
        s.bytes_sent
    } else if metric == "bytes_received"@ {
        s.bytes_received
    } else if metric == "slow_queries"@ {
        s.slow_queries
    } else {
        0
    }
}

impl MysqlMonitorStatus {
    /// Reads the field a metric name stands for; an unknown name reads 0.
    pub fn get_value(&self, metric: &String) -> (r: usize)
        ensures
            r == spec_metric_value(*self, metric@),
    {
        if *metric == "com_insert".to_owned() {
            self.com_insert
        } else if *metric == "com_update".to_owned() {
            self.com_update
        } else if *metric == "com_delete".to_owned() {
            self.com_delete
        } else if *metric == "com_select".to_owned() {
            self.com_select
        } else if *metric == "questions".to_owned() {
            self.questions
        } else if *metric == "innodb_row_lock_current_waits".to_owned() {
            self.innodb_row_lock_current_waits
        } else if *metric == "innodb_row_lock_time".to_owned() {
            self.innodb_row_lock_time
        } else if *metric == "created_tmp_disk_tables".to_owned() {
            self.created_tmp_disk_tables
        } else if *metric == "created_tmp_tables".to_owned() {
            self.created_tmp_tables
        } else if *metric == "innodb_buffer_pool_reads".to_owned() {
            self.innodb_buffer_pool_reads
        } else if *metric == "innodb_buffer_pool_read_requests".to_owned() {
            self.innodb_buffer_pool_read_requests
        } else if *metric == "handler_read_first".to_owned() {
            self.handler_read_first
        } else if *metric == "handler_read_key".to_owned() {
            self.handler_read_key
        } else if *metric == "handler_read_next".to_owned() {
            self.handler_read_next
        } else if *metric == "handler_read_prev".to_owned() {
            self.handler_read_prev
        } else if *metric == "handler_read_rnd".to_owned() {
            self.handler_read_rnd
        } else if *metric == "handler_read_rnd_next".to_owned() {
            self.handler_read_rnd_next
        } else if *metric == "innodb_os_log_pending_fsyncs".to_owned() {
            self.innodb_os_log_pending_fsyncs
        } else if *metric == "innodb_os_log_pending_writes".to_owned() {
            self.innodb_os_log_pending_writes
        } else if *metric == "innodb_log_waits".to_owned() {
            self.innodb_log_waits
        } else if *metric == "threads_connected".to_owned() {
            self.threads_connected
        } else if *metric == "threads_running".to_owned() {
            self.threads_running
        } else if *metric == "bytes_sent".to_owned() {
            self.bytes_sent
        } else if *metric == "bytes_received".to_owned() {
            self.bytes_received
        } else if *metric == "slow_queries".to_owned() {
            self.slow_queries
        } else {
            0
        }
    }
}

/// One metric's series of (time, value) points.
#[derive(Clone)]
pub struct MetricValue {
    pub metric: String,
    pub value: Vec<Vec<usize>>,
}

impl MetricValue {
    pub fn new(metric: &String) -> (r: MetricValue)
        ensures
            r.metric == *metric,
            r.value@.len() == 0,
    {
        MetricValue { metric: metric.clone(), value: Vec::new() }
    }
}

/// The series of every requested metric.
#[derive(Clone)]
pub struct ResponseMonitorMetricValue {
    pub monitor_value: Vec<MetricValue>,
}

impl ResponseMonitorMetricValue {
    /// One empty series per requested metric.
    pub fn new(metric_list: &Vec<String>) -> (r: ResponseMonitorMetricValue)
        ensures
            r.monitor_value@.len() == metric_list@.len(),
            forall|i: int|
                #![all_triggers]
                0 <= i < metric_list@.len() ==> r.monitor_value@[i].metric == metric_list@[i]
                    && r.monitor_value@[i].value@.len() == 0,
    {
        let mut m_list: Vec<MetricValue> = Vec::new();
        let mut i: usize = 0;
        while i < metric_list.len()
            invariant
                0 <= i <= metric_list@.len(),
                m_list@.len() == i,
                forall|k: int|
                    0 <= k < i ==> (#[trigger] m_list@[k].metric) == metric_list@[k] && m_list@[k
                    ].value@.len() == 0,
            decreases metric_list@.len() - i,
        {
            let ghost pre = m_list@;
            m_list.push(MetricValue::new(&metric_list[i]));
            proof {
                assert(m_list@[i as int].metric == metric_list@[i as int]);
                assert(forall|k: int| 0 <= k < i ==> (#[trigger] m_list@[k]) == pre[k]);
            }
            i += 1;
        }
        ResponseMonitorMetricValue { monitor_value: m_list }
    }

    /// Appends one sample's point to every series.
    pub fn init(&mut self, value: &MysqlMonitorStatus)
        requires
            0 <= value.time <= usize::MAX,
        ensures
            final(self).monitor_value@.len() == old(self).monitor_value@.len(),
            forall|i: int|
                #![all_triggers]
                0 <= i < old(self).monitor_value@.len() ==> final(self).monitor_value@[i].metric
                    == old(self).monitor_value@[i].metric && final(self).monitor_value@[i
                ].value.deep_view() == old(self).monitor_value@[i].value.deep_view().push(
                    spec_metric_point(*value, old(self).monitor_value@[i].metric@),
                ),
    {
        let mut i: usize = 0;
        while i < self.monitor_value.len()
            invariant
                0 <= i <= self.monitor_value@.len(),
                0 <= value.time <= usize::MAX,
                self.monitor_value@.len() == old(self).monitor_value@.len(),
                forall|k: int|
                    #![all_triggers]
                    0 <= k < i ==> self.monitor_value@[k].metric == old(self).monitor_value@[k
                    ].metric && self.monitor_value@[k].value.deep_view() == old(
                        self,
                    ).monitor_value@[k].value.deep_view().push(
                        spec_metric_point(*value, old(self).monitor_value@[k].metric@),
                    ),
                forall|k: int|
                    i <= k < self.monitor_value@.len() ==> (#[trigger] self.monitor_value@[k])
                        == old(self).monitor_value@[k],
            decreases self.monitor_value@.len() - i,
        {
            let v = value.get_value(&self.monitor_value[i].metric);
            let mut mv: Vec<usize> = Vec::new();
            mv.push(value.time as usize);
            mv.push(v);
            proof {
                assert(mv.deep_view() =~= spec_metric_point(
                    *value,
                    self.monitor_value@[i as int].metric@,
                ));
            }
            let ghost point = mv.deep_view();
            let ghost predeep = self.monitor_value@[i as int].value.deep_view();
            let ghost pre_elems = self.monitor_value@;
            self.monitor_value[i].value.push(mv);
            proof {
                assert(self.monitor_value@[i as int].value.deep_view() =~= predeep.push(point));
                assert(self.monitor_value@[i as int].metric == pre_elems[i as int].metric);
                assert(forall|k: int|
                    0 <= k < self.monitor_value@.len() && k != i ==> (#[trigger]
                    self.monitor_value@[k]) == pre_elems[k]);
            }
            i += 1;
        }
    }
}

/// The (time, value) point a sample contributes to a metric's series.
pub open spec fn spec_metric_point(s: MysqlMonitorStatus, metric: Seq<char>) -> Seq<usize> {
    seq![s.time as usize, spec_metric_value(s, metric)]
}

/// A metric's series over the samples falling in a time window, in
/// sample order.
pub open spec fn spec_metric_series(
    rows: Seq<MysqlMonitorStatus>,
    metric: Seq<char>,
    start: int,
    stop: int,
) -> Seq<Seq<usize>>
    decreases rows.len(),
{
    if rows.len() == 0 {
        Seq::empty()
    } else {
        let rest = spec_metric_series(rows.drop_last(), metric, start, stop);
        if start <= rows.last().time <= stop {
            rest.push(spec_metric_point(rows.last(), metric))
        } else {
            rest
        }
    }
}

/// A dashboard's request for sample series: node, metrics, and window.
#[derive(Clone)]
pub struct PostMonitorMetricValue {
    pub host: String,
    pub metric: Vec<String>,
    pub start_time: i64,
    pub stop_time: i64,
}

impl PostMonitorMetricValue {
    /// Whether a sample falls in the requested window.
    pub fn check_time(&self, value: &MysqlMonitorStatus) -> (r: bool)
        ensures
            r == (self.start_time <= value.time <= self.stop_time),
    {
        if value.time < self.start_time {
            return false;
        }
        if value.time > self.stop_time {
            return false;
        }
        true
    }

    /// Builds every requested metric's series from the node's samples,
    /// keeping exactly the samples of the window, in order.
    pub fn get_value(&self, rows: &Vec<MysqlMonitorStatus>) -> (r: ResponseMonitorMetricValue)
        requires
            forall|i: int| 0 <= i < rows@.len() ==> 0 <= (#[trigger] rows@[i].time) <= usize::MAX,
        ensures
            r.monitor_value@.len() == self.metric@.len(),
            forall|i: int|
                #![all_triggers]
                0 <= i < self.metric@.len() ==> r.monitor_value@[i].metric == self.metric@[i]
                    && r.monitor_value@[i].value.deep_view() == spec_metric_series(
                    rows@,
                    self.metric@[i]@,
                    self.start_time as int,
                    self.stop_time as int,
                ),
    {
        let mut rmmv = ResponseMonitorMetricValue::new(&self.metric);
        let mut k: usize = 0;
        proof {
            assert forall|i: int| 0 <= i < self.metric@.len() implies (#[trigger]
            rmmv.monitor_value@[i].value.deep_view()) == spec_metric_series(
                rows@.subrange(0, 0),
                self.metric@[i]@,
                self.start_time as int,
                self.stop_time as int,
            ) by {
                assert(rmmv.monitor_value@[i].value.deep_view() =~= spec_metric_series(
                    rows@.subrange(0, 0),
                    self.metric@[i]@,
                    self.start_time as int,
                    self.stop_time as int,
                ));
            }
        }
        while k < rows.len()
            invariant
                0 <= k <= rows@.len(),
                forall|i: int|
                    0 <= i < rows@.len() ==> 0 <= (#[trigger] rows@[i].time) <= usize::MAX,
                rmmv.monitor_value@.len() == self.metric@.len(),
                forall|i: int|
                    #![all_triggers]
                    0 <= i < self.metric@.len() ==> rmmv.monitor_value@[i].metric
                        == self.metric@[i] && rmmv.monitor_value@[i].value.deep_view()
                        == spec_metric_series(
                        rows@.subrange(0, k as int),
                        self.metric@[i]@,
                        self.start_time as int,
                        self.stop_time as int,
                    ),
            decreases rows@.len() - k,
        {
            proof {
                assert(rows@.subrange(0, k as int + 1).drop_last() =~= rows@.subrange(0, k as int));
            }
            let ghost pre = rmmv.monitor_value@;
            if self.check_time(&rows[k]) {
                rmmv.init(&rows[k]);
            }
            proof {
                assert forall|i: int| 0 <= i < self.metric@.len() implies (#[trigger]
                rmmv.monitor_value@[i].metric) == self.metric@[i] && rmmv.monitor_value@[i
                ].value.deep_view() == spec_metric_series(
                    rows@.subrange(0, k as int + 1),
                    self.metric@[i]@,
                    self.start_time as int,
                    self.stop_time as int,
                ) by {
                    assert(pre[i].value.deep_view() == spec_metric_series(
                        rows@.subrange(0, k as int),
                        self.metric@[i]@,
                        self.start_time as int,
                        self.stop_time as int,
                    ));
                }
            }
            k += 1;
        }
        proof {
            assert(rows@.subrange(0, rows@.len() as int) =~= rows@);
        }
        rmmv
    }
}

} // verus!
