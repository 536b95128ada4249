//! The cluster summary shown by the administrative interface: manager
//! state, topology health, open divergent data, and switch history.

use vstd::prelude::*;
use crate::ha::nodes_manager::{DifferenceSql, HaLogRow};
use crate::storage::opdb::{ClusterNodeInfo, NodeInfo};
use crate::storage::rocks::RowValue;
use crate::strutil::{spec_u64_dec, u64_to_string};

verus! {

/// How many of a cluster's nodes are offline.
pub open spec fn spec_offline_count(nodes: Seq<NodeInfo>) -> int
    decreases nodes.len(),
{
    if nodes.len() == 0 {
        0
    } else {
        spec_offline_count(nodes.drop_last()) + if nodes.last().online {
            0int
        } else {
            1int
        }
    }
}

/// How many of a cluster's online nodes report the primary role.
pub open spec fn spec_master_count(nodes: Seq<NodeInfo>) -> int
    decreases nodes.len(),
{
    if nodes.len() == 0 {
        0
    } else {
        spec_master_count(nodes.drop_last()) + if nodes.last().online && nodes.last().role@
            == "master"@ {
            1int
        } else {
            0int
        }
    }
}

proof fn lemma_offline_count_le(nodes: Seq<NodeInfo>)
    ensures
        0 <= spec_offline_count(nodes) <= nodes.len(),
    decreases nodes.len(),
{
    if nodes.len() > 0 {
        lemma_offline_count_le(nodes.drop_last());
    }
}

/// The manager's view of one cluster: whether it runs, and how many of
/// the cluster's nodes are down.
pub struct ClusterMonitorStatus {
    pub manager_status: bool,
    pub cluster_name: String,
    /// Offline nodes over total, as `down/total`.
    pub failover_count: String,
}

impl ClusterMonitorStatus {
    pub fn new(cluster_name: &String) -> (r: ClusterMonitorStatus)
        ensures
            r.manager_status,
            r.cluster_name == *cluster_name,
            r.failover_count@ == Seq::<char>::empty(),
    {
        ClusterMonitorStatus {
            manager_status: true,
            cluster_name: cluster_name.clone(),
            failover_count: String::new(),
        }
    }

    /// Renders how many of the cluster's nodes are offline, over the
    /// total.
    pub fn update_failover_count(&mut self, cl_info: &ClusterNodeInfo)
        ensures
            final(self).failover_count@ == spec_u64_dec(
                spec_offline_count(cl_info.nodes_info@) as nat,
            ) + "/"@ + spec_u64_dec(cl_info.total as nat),
            final(self).manager_status == old(self).manager_status,
            final(self).cluster_name == old(self).cluster_name,
    {
        let mut failover: usize = 0;
        let mut i: usize = 0;
        proof {
            lemma_offline_count_le(cl_info.nodes_info@);
        }
        while i < cl_info.nodes_info.len()
            invariant
                0 <= i <= cl_info.nodes_info@.len(),
                failover == spec_offline_count(cl_info.nodes_info@.subrange(0, i as int)),
                failover <= i,
            decreases cl_info.nodes_info@.len() - i,
        {
            proof {
                assert(cl_info.nodes_info@.subrange(0, i as int + 1).drop_last()
                    =~= cl_info.nodes_info@.subrange(0, i as int));
            }
            if !cl_info.nodes_info[i].online {
                failover += 1;
            }
            i += 1;
        }
        proof {
            assert(cl_info.nodes_info@.subrange(0, cl_info.nodes_info@.len() as int)
                =~= cl_info.nodes_info@);
        }
        let mut s = u64_to_string(failover as u64);
        s.append("/");
        let total = u64_to_string(cl_info.total as u64);
        s.append(total.as_str());
        self.failover_count = s;
    }
}

/// One cluster's health: its topology kind, whether exactly one online
/// primary leads it, and whether divergent data awaits an operator.
pub struct ClusterInfo {
    pub topology: String,
    pub cluster_state: bool,
    pub difference_data: bool,
}

impl ClusterInfo {
    pub fn new() -> (r: ClusterInfo)
        ensures
            r.topology@ == "master-slave"@,
            !r.cluster_state,
            !r.difference_data,
    {
        ClusterInfo {
            topology: "master-slave".to_owned(),
            cluster_state: false,
            difference_data: false,
        }
    }

    /// The cluster is sound exactly when one online node leads it.
    pub fn check_cluster_state(&mut self, cl_info: &ClusterNodeInfo)
        ensures
            final(self).cluster_state == (old(self).cluster_state || spec_master_count(
                cl_info.nodes_info@,
            ) == 1),
            final(self).topology == old(self).topology,
            final(self).difference_data == old(self).difference_data,
    {
        let mut master: usize = 0;
        let mut i: usize = 0;
        let m: String = "master".to_owned();
        while i < cl_info.nodes_info.len()
            invariant
                0 <= i <= cl_info.nodes_info@.len(),
                m@ == "master"@,
                master == spec_master_count(cl_info.nodes_info@.subrange(0, i as int)),
                master <= i,
                *self == *old(self),
            decreases cl_info.nodes_info@.len() - i,
        {
            proof {
                assert(cl_info.nodes_info@.subrange(0, i as int + 1).drop_last()
                    =~= cl_info.nodes_info@.subrange(0, i as int));
            }
            if cl_info.nodes_info[i].online && cl_info.nodes_info[i].role == m {
                master += 1;
            }
            i += 1;
        }
        proof {
            assert(cl_info.nodes_info@.subrange(0, cl_info.nodes_info@.len() as int)
                =~= cl_info.nodes_info@);
        }
        if master == 1 {
            self.cluster_state = true;
        }
    }

    /// Divergent data is open when any rollback set still has unresolved
    /// statements.
    pub fn check_difference_data(&mut self, rows: &Vec<RowValue<DifferenceSql>>)
        ensures
            final(self).difference_data == (old(self).difference_data || exists|i: int|
                0 <= i < rows@.len() && (#[trigger] rows@[i].value.status) == 0
                    && rows@[i].value.sqls@.len() > 0),
            final(self).topology == old(self).topology,
            final(self).cluster_state == old(self).cluster_state,
    {
        let mut i: usize = 0;
        while i < rows.len()
            invariant
                0 <= i <= rows@.len(),
                self.difference_data == (old(self).difference_data || exists|k: int|
                    0 <= k < i && (#[trigger] rows@[k].value.status) == 0
                        && rows@[k].value.sqls@.len() > 0),
                self.topology == old(self).topology,
                self.cluster_state == old(self).cluster_state,
            decreases rows@.len() - i,
        {
            if rows[i].value.status == 0 {
                if rows[i].value.sqls.len() > 0 {
                    self.difference_data = true;
                }
            }
            i += 1;
        }
    }

    /// Both health checks in one pass.
    pub fn init(&mut self, rows: &Vec<RowValue<DifferenceSql>>, cl_info: &ClusterNodeInfo)
        ensures
            final(self).cluster_state == (old(self).cluster_state || spec_master_count(
                cl_info.nodes_info@,
            ) == 1),
            final(self).difference_data == (old(self).difference_data || exists|i: int|
                0 <= i < rows@.len() && (#[trigger] rows@[i].value.status) == 0
                    && rows@[i].value.sqls@.len() > 0),
            final(self).topology == old(self).topology,
    {
        self.check_cluster_state(cl_info);
        self.check_difference_data(rows);
    }
}

/// The most recent switch among the records of one cluster: time and
/// completion flag of the latest, and the defaults (time 0, state true)
/// where no record matches.
pub open spec fn spec_last_switch(rows: Seq<HaLogRow>, cluster: Seq<char>) -> (int, bool)
    decreases rows.len(),
{
    if rows.len() == 0 {
        (0int, true)
    } else {
        let (t, s) = spec_last_switch(rows.drop_last(), cluster);
        if rows.last().log.cluster_name@ == cluster && rows.last().time > t {
            (rows.last().time as int, rows.last().log.switch_status)
        } else {
            (t, s)
        }
    }
}

/// How many records belong to one cluster.
pub open spec fn spec_switch_count(rows: Seq<HaLogRow>, cluster: Seq<char>) -> int
    decreases rows.len(),
{
    if rows.len() == 0 {
        0
    } else {
        spec_switch_count(rows.drop_last(), cluster) + if rows.last().log.cluster_name@
            == cluster {
            1int
        } else {
            0int
        }
    }
}

/// One cluster's switch history.
pub struct ClusterSwitchInfo {
    pub switch_total: usize,
    pub last_switch_time: i64,
    pub last_switch_state: bool,
}

impl ClusterSwitchInfo {
    pub fn new() -> (r: ClusterSwitchInfo)
        ensures
            r.switch_total == 0,
            r.last_switch_time == 0,
            r.last_switch_state,
    {
        ClusterSwitchInfo { switch_total: 0, last_switch_time: 0, last_switch_state: true }
    }

    /// Counts the cluster's failover records and keeps the most recent
    /// one's completion state.
    pub fn init(&mut self, rows: &Vec<HaLogRow>, cluster_name: &String)
        requires
            old(self).switch_total + rows@.len() <= usize::MAX,
            old(self).last_switch_time == 0,
            old(self).last_switch_state,
            forall|i: int| 0 <= i < rows@.len() ==> (#[trigger] rows@[i].time) >= 0,
        ensures
            final(self).switch_total == old(self).switch_total + spec_switch_count(
                rows@,
                cluster_name@,
            ),
            final(self).last_switch_time == spec_last_switch(rows@, cluster_name@).0,
            final(self).last_switch_state == spec_last_switch(rows@, cluster_name@).1,
    {
        let mut i: usize = 0;
        while i < rows.len()
            invariant
                0 <= i <= rows@.len(),
                old(self).switch_total + rows@.len() <= usize::MAX,
                forall|k: int| 0 <= k < rows@.len() ==> (#[trigger] rows@[k].time) >= 0,
                self.switch_total == old(self).switch_total + spec_switch_count(
                    rows@.subrange(0, i as int),
                    cluster_name@,
                ),
                spec_switch_count(rows@.subrange(0, i as int), cluster_name@) <= i,
                self.last_switch_time == spec_last_switch(
                    rows@.subrange(0, i as int),
                    cluster_name@,
                ).0,
                self.last_switch_state == spec_last_switch(
                    rows@.subrange(0, i as int),
                    cluster_name@,
                ).1,
            decreases rows@.len() - i,
        {
            proof {
                assert(rows@.subrange(0, i as int + 1).drop_last() =~= rows@.subrange(
                    0,
                    i as int,
                ));
            }
            if rows[i].log.cluster_name == *cluster_name {
                self.switch_total += 1;
                if rows[i].time > self.last_switch_time {
                    self.last_switch_time = rows[i].time;
                    self.last_switch_state = rows[i].log.switch_status;
                }
            }
            i += 1;
        }
        proof {
            assert(rows@.subrange(0, rows@.len() as int) =~= rows@);
        }
    }
}

/// Everything the cluster page shows at once.
pub struct ClusterMonitorInfo {
    pub monitor_status: ClusterMonitorStatus,
    pub cluster_info: ClusterInfo,
    pub switch_info: ClusterSwitchInfo,
}

impl ClusterMonitorInfo {
    pub fn new(cluster_name: &String) -> (r: ClusterMonitorInfo)
        ensures
            r.monitor_status.manager_status,
            r.monitor_status.cluster_name == *cluster_name,
            r.cluster_info.topology@ == "master-slave"@,
            !r.cluster_info.cluster_state,
            !r.cluster_info.difference_data,
            r.switch_info.switch_total == 0,
            r.switch_info.last_switch_time == 0,
            r.switch_info.last_switch_state,
    {
        ClusterMonitorInfo {
            monitor_status: ClusterMonitorStatus::new(cluster_name),
            cluster_info: ClusterInfo::new(),
            switch_info: ClusterSwitchInfo::new(),
        }
    }

    /// Fills the summary from the cluster's nodes, the open rollback
    /// data, and the failover records.
    pub fn init(
        &mut self,
        cl_info: &ClusterNodeInfo,
        diff_rows: &Vec<RowValue<DifferenceSql>>,
        ha_rows: &Vec<HaLogRow>,
        cluster_name: &String,
    )
        requires
            old(self).switch_info.switch_total + ha_rows@.len() <= usize::MAX,
            old(self).switch_info.last_switch_time == 0,
            old(self).switch_info.last_switch_state,
            forall|i: int| 0 <= i < ha_rows@.len() ==> (#[trigger] ha_rows@[i].time) >= 0,
        ensures
            final(self).monitor_status.failover_count@ == spec_u64_dec(
                spec_offline_count(cl_info.nodes_info@) as nat,
            ) + "/"@ + spec_u64_dec(cl_info.total as nat),
            final(self).cluster_info.cluster_state == (old(self).cluster_info.cluster_state
                || spec_master_count(cl_info.nodes_info@) == 1),
            final(self).cluster_info.difference_data == (old(self).cluster_info.difference_data
                || exists|i: int|
                0 <= i < diff_rows@.len() && (#[trigger] diff_rows@[i].value.status) == 0
                    && diff_rows@[i].value.sqls@.len() > 0),
            final(self).switch_info.switch_total == old(self).switch_info.switch_total
                + spec_switch_count(ha_rows@, cluster_name@),
            final(self).switch_info.last_switch_time == spec_last_switch(
                ha_rows@,
                cluster_name@,
            ).0,
            final(self).switch_info.last_switch_state == spec_last_switch(
                ha_rows@,
                cluster_name@,
            ).1,
    {
        self.init_monitor_status(cl_info);
        self.init_cluster_info(diff_rows, cl_info);
        self.init_switch_log_info(ha_rows, cluster_name);
    }

    fn init_monitor_status(&mut self, cl_info: &ClusterNodeInfo)
        ensures
            final(self).monitor_status.failover_count@ == spec_u64_dec(
                spec_offline_count(cl_info.nodes_info@) as nat,
            ) + "/"@ + spec_u64_dec(cl_info.total as nat),
            final(self).monitor_status.cluster_name == old(self).monitor_status.cluster_name,
            final(self).monitor_status.manager_status == old(self).monitor_status.manager_status,
            final(self).cluster_info == old(self).cluster_info,
            final(self).switch_info == old(self).switch_info,
    {
        self.monitor_status.update_failover_count(cl_info);
    }

    fn init_cluster_info(
        &mut self,
        diff_rows: &Vec<RowValue<DifferenceSql>>,
        cl_info: &ClusterNodeInfo,
    )
        ensures
            final(self).cluster_info.cluster_state == (old(self).cluster_info.cluster_state
                || spec_master_count(cl_info.nodes_info@) == 1),
            final(self).cluster_info.difference_data == (old(self).cluster_info.difference_data
                || exists|i: int|
                0 <= i < diff_rows@.len() && (#[trigger] diff_rows@[i].value.status) == 0
                    && diff_rows@[i].value.sqls@.len() > 0),
            final(self).cluster_info.topology == old(self).cluster_info.topology,
            final(self).monitor_status == old(self).monitor_status,
            final(self).switch_info == old(self).switch_info,
    {
        self.cluster_info.init(diff_rows, cl_info);
    }

    fn init_switch_log_info(&mut self, ha_rows: &Vec<HaLogRow>, cluster_name: &String)
        requires
            old(self).switch_info.switch_total + ha_rows@.len() <= usize::MAX,
            old(self).switch_info.last_switch_time == 0,
            old(self).switch_info.last_switch_state,
            forall|i: int| 0 <= i < ha_rows@.len() ==> (#[trigger] ha_rows@[i].time) >= 0,
        ensures
            final(self).switch_info.switch_total == old(self).switch_info.switch_total
                + spec_switch_count(ha_rows@, cluster_name@),
            final(self).switch_info.last_switch_time == spec_last_switch(
                ha_rows@,
                cluster_name@,
            ).0,
            final(self).switch_info.last_switch_state == spec_last_switch(
                ha_rows@,
                cluster_name@,
            ).1,
            final(self).monitor_status == old(self).monitor_status,
            final(self).cluster_info == old(self).cluster_info,
    {
        self.switch_info.init(ha_rows, cluster_name);
    }
}

} // verus!
