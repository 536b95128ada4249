//! Housekeeping rules: per-node monitoring settings, the difference taken
//! between two monitoring samples, and the expiry rules for rollback data,
//! stale routing tables and old monitoring samples.

use vstd::prelude::*;
use crate::ha::nodes_manager::DifferenceSql;
use crate::ha::procotol::MysqlMonitorStatus;
use crate::ha::route_manager::RouteInfo;
use crate::storage::opdb::{NodeClusterList, spec_in_list};
use crate::storage::rocks::{PrefixTypeCode, RowValue};
use crate::strutil::{i64_to_string, spec_u64_dec};

verus! {

/// How long divergent-transaction data is kept: seven days, in
/// milliseconds.
pub open spec fn spec_rollback_retention_ms() -> int {
    604800000
}

impl DifferenceSql {
    /// Whether this rollback data has outlived its seven days.
    pub fn expired(&self, now: i64) -> (r: bool)
        requires
            self.time >= 0,
            now >= 0,
        ensures
            r == (now - self.time >= spec_rollback_retention_ms()),
    {
        now - self.time >= 604800000
    }

    /// The store key this rollback data was persisted under.
    pub fn delete_key(&self) -> (r: String)
        requires
            self.time >= 0,
        ensures
            r@ == crate::storage::rocks::spec_prefix_of(PrefixTypeCode::RollBackSql) + ":"@
                + self.cluster@ + ":"@ + self.host@ + "_"@ + spec_u64_dec(self.time as nat),
    {
        let mut k = PrefixTypeCode::RollBackSql.prefix();
        k.append(":");
        k.append(self.cluster.as_str());
        k.append(":");
        k.append(self.host.as_str());
        k.append("_");
        let ts = i64_to_string(self.time);
        k.append(ts.as_str());
        k
    }
}

impl RouteInfo {
    /// Whether this published table is stale: no registered node carries
    /// its cluster any more.
    pub fn expired(&self, cl_list: &NodeClusterList) -> (r: bool)
        ensures
            r == !spec_in_list(cl_list.cluster_name_list@, self.cluster_name@),
    {
        let mut i: usize = 0;
        while i < cl_list.cluster_name_list.len()
            invariant
                0 <= i <= cl_list.cluster_name_list@.len(),
                forall|j: int|
                    0 <= j < i ==> cl_list.cluster_name_list@[j]@ != self.cluster_name@,
            decreases cl_list.cluster_name_list@.len() - i,
        {
            if cl_list.cluster_name_list[i] == self.cluster_name {
                return false;
            }
            i += 1;
        }
        true
    }

    /// The store key this table was published under.
    pub fn delete_key(&self) -> (r: String)
        ensures
            r@ == crate::storage::rocks::spec_prefix_of(PrefixTypeCode::RouteInfo) + ":"@
                + self.cluster_name@,
    {
        let mut k = PrefixTypeCode::RouteInfo.prefix();
        k.append(":");
        k.append(self.cluster_name.as_str());
        k
    }
}

/// Whether a monitoring sample taken at `entry_time` has outlived the
/// `days` its node keeps samples for.
pub fn monitor_expired(entry_time: i64, now: i64, days: u8) -> (r: bool)
    requires
        entry_time >= 0,
        now >= 0,
    ensures
        r == (now - entry_time > 86400000 * days),
{
    let d: i64 = days as i64;
    proof {
        assert(86400000 * d <= 86400000 * 255) by (nonlinear_arith)
            requires
                0 <= d <= 255,
        ;
    }
    let retention: i64 = 86400000i64 * d;
    now - entry_time > retention
}

/// A node's monitoring switch: whether samples are taken, and how many
/// days they are kept.
#[derive(Debug, Clone)]
pub struct MonitorSetting {
    pub host: String,
    pub monitor: bool,
    pub days: u8,
}

impl MonitorSetting {
    /// Monitoring starts switched off, keeping seven days when enabled.
    pub fn new(host: &String) -> (r: MonitorSetting)
        ensures
            r.host == *host,
            !r.monitor,
            r.days == 7,
    {
        MonitorSetting { host: host.clone(), monitor: false, days: 7 }
    }

    /// The store key this setting is persisted under.
    pub fn delete_key(&self) -> (r: String)
        ensures
            r@ == crate::storage::rocks::spec_prefix_of(PrefixTypeCode::NodeMonitorSeting) + ":"@
                + self.host@,
    {
        let mut k = PrefixTypeCode::NodeMonitorSeting.prefix();
        k.append(":");
        k.append(self.host.as_str());
        k
    }
}

impl MysqlMonitorStatus {
    /// A zero sample, standing for "no previous sample".
    pub fn new() -> (r: MysqlMonitorStatus)
        ensures
            r == spec_zero_monitor_status(),
    {
        MysqlMonitorStatus {
            com_insert: 0,
            com_update: 0,
            com_delete: 0,
            com_select: 0,
            questions: 0,
            innodb_row_lock_current_waits: 0,
            innodb_row_lock_time: 0,
            created_tmp_disk_tables: 0,
            created_tmp_tables: 0,
            innodb_buffer_pool_reads: 0,
            innodb_buffer_pool_read_requests: 0,
            handler_read_first: 0,
            handler_read_key: 0,
            handler_read_next: 0,
            handler_read_prev: 0,
            handler_read_rnd: 0,
            handler_read_rnd_next: 0,
            innodb_os_log_pending_fsyncs: 0,
            innodb_os_log_pending_writes: 0,
            innodb_log_waits: 0,
            threads_connected: 0,
            threads_running: 0,
            bytes_sent: 0,
            bytes_received: 0,
            slow_queries: 0,
            time: 0,
        }
    }

    /// The difference between this sample and the previous one, averaged
    /// to one second for the cumulative counters; gauges are carried over
    /// as they stand. The samples must be at least a second apart, and the
    /// cumulative counters must not have moved backwards.
    pub fn calculation(&self, last_value: &MysqlMonitorStatus) -> (r: MysqlMonitorStatus)
        requires
            self.time - last_value.time >= 1000,
            self.time - last_value.time <= i64::MAX,
            (self.time - last_value.time) / 1000 <= usize::MAX,
            self.com_insert >= last_value.com_insert,
            self.com_update >= last_value.com_update,
            self.com_delete >= last_value.com_delete,
            self.com_select >= last_value.com_select,
            self.questions >= last_value.questions,
            self.innodb_row_lock_time >= last_value.innodb_row_lock_time,
            self.created_tmp_disk_tables >= last_value.created_tmp_disk_tables,
            self.created_tmp_tables >= last_value.created_tmp_tables,
            self.innodb_buffer_pool_reads >= last_value.innodb_buffer_pool_reads,
            self.innodb_buffer_pool_read_requests >= last_value.innodb_buffer_pool_read_requests,
            self.handler_read_first >= last_value.handler_read_first,
            self.handler_read_key >= last_value.handler_read_key,
            self.handler_read_next >= last_value.handler_read_next,
            self.handler_read_prev >= last_value.handler_read_prev,
            self.handler_read_rnd >= last_value.handler_read_rnd,
            self.handler_read_rnd_next >= last_value.handler_read_rnd_next,
            self.bytes_sent >= last_value.bytes_sent,
            self.bytes_received >= last_value.bytes_received,
            self.slow_queries >= last_value.slow_queries,
        ensures
            r == spec_calculation(*self, *last_value),
    {
        let time_dif = ((self.time - last_value.time) / 1000) as usize;
        MysqlMonitorStatus {
            com_insert: (self.com_insert - last_value.com_insert) / time_dif,
            com_update: (self.com_update - last_value.com_update) / time_dif,
            com_delete: (self.com_delete - last_value.com_delete) / time_dif,
            com_select: (self.com_select - last_value.com_select) / time_dif,
            questions: (self.questions - last_value.questions) / time_dif,
            innodb_row_lock_current_waits: self.innodb_row_lock_current_waits,
            innodb_row_lock_time: (self.innodb_row_lock_time - last_value.innodb_row_lock_time)
                / time_dif,
            created_tmp_disk_tables: (self.created_tmp_disk_tables
                - last_value.created_tmp_disk_tables) / time_dif,
            created_tmp_tables: (self.created_tmp_tables - last_value.created_tmp_tables)
                / time_dif,
            innodb_buffer_pool_reads: (self.innodb_buffer_pool_reads
                - last_value.innodb_buffer_pool_reads) / time_dif,
            innodb_buffer_pool_read_requests: (self.innodb_buffer_pool_read_requests
                - last_value.innodb_buffer_pool_read_requests) / time_dif,
            handler_read_first: (self.handler_read_first - last_value.handler_read_first)
                / time_dif,
            handler_read_key: (self.handler_read_key - last_value.handler_read_key) / time_dif,
            handler_read_next: (self.handler_read_next - last_value.handler_read_next) / time_dif,
            handler_read_prev: (self.handler_read_prev - last_value.handler_read_prev) / time_dif,
            handler_read_rnd: (self.handler_read_rnd - last_value.handler_read_rnd) / time_dif,
            handler_read_rnd_next: (self.handler_read_rnd_next - last_value.handler_read_rnd_next)
                / time_dif,
            innodb_os_log_pending_fsyncs: self.innodb_os_log_pending_fsyncs,
            innodb_os_log_pending_writes: self.innodb_os_log_pending_writes,
            innodb_log_waits: self.innodb_log_waits,
            threads_connected: self.threads_connected,
            threads_running: self.threads_running,
            bytes_sent: (self.bytes_sent - last_value.bytes_sent) / time_dif,
            bytes_received: (self.bytes_received - last_value.bytes_received) / time_dif,
            slow_queries: (self.slow_queries - last_value.slow_queries) / time_dif,
            time: self.time,
        }
    }
}

/// The all-zero sample.
pub open spec fn spec_zero_monitor_status() -> MysqlMonitorStatus {
    MysqlMonitorStatus {
        com_insert: 0,
        com_update: 0,
        com_delete: 0,
        com_select: 0,
        questions: 0,
        innodb_row_lock_current_waits: 0,
        innodb_row_lock_time: 0,
        created_tmp_disk_tables: 0,
        created_tmp_tables: 0,
        innodb_buffer_pool_reads: 0,
        innodb_buffer_pool_read_requests: 0,
        handler_read_first: 0,
        handler_read_key: 0,
        handler_read_next: 0,
        handler_read_prev: 0,
        handler_read_rnd: 0,
        handler_read_rnd_next: 0,
        innodb_os_log_pending_fsyncs: 0,
        innodb_os_log_pending_writes: 0,
        innodb_log_waits: 0,
        threads_connected: 0,
        threads_running: 0,
        bytes_sent: 0,
        bytes_received: 0,
        slow_queries: 0,
        time: 0,
    }
}

/// The per-second difference of two samples: each cumulative counter's
/// growth divided by the seconds between the samples, gauges carried over.
pub open spec fn spec_calculation(s: MysqlMonitorStatus, l: MysqlMonitorStatus) -> MysqlMonitorStatus
{
    let dif = ((s.time - l.time) / 1000) as usize;
    MysqlMonitorStatus {
        com_insert: ((s.com_insert - l.com_insert) / dif as int) as usize,
        com_update: ((s.com_update - l.com_update) / dif as int) as usize,
        com_delete: ((s.com_delete - l.com_delete) / dif as int) as usize,
        com_select: ((s.com_select - l.com_select) / dif as int) as usize,
        questions: ((s.questions - l.questions) / dif as int) as usize,
        innodb_row_lock_current_waits: s.innodb_row_lock_current_waits,
        innodb_row_lock_time: ((s.innodb_row_lock_time - l.innodb_row_lock_time)
            / dif as int) as usize,
        created_tmp_disk_tables: ((s.created_tmp_disk_tables - l.created_tmp_disk_tables)
            / dif as int) as usize,
        created_tmp_tables: ((s.created_tmp_tables - l.created_tmp_tables) / dif as int) as usize,
        innodb_buffer_pool_reads: ((s.innodb_buffer_pool_reads - l.innodb_buffer_pool_reads)
            / dif as int) as usize,
        innodb_buffer_pool_read_requests: ((s.innodb_buffer_pool_read_requests
            - l.innodb_buffer_pool_read_requests) / dif as int) as usize,
        handler_read_first: ((s.handler_read_first - l.handler_read_first) / dif as int) as usize,
        handler_read_key: ((s.handler_read_key - l.handler_read_key) / dif as int) as usize,
        handler_read_next: ((s.handler_read_next - l.handler_read_next) / dif as int) as usize,
        handler_read_prev: ((s.handler_read_prev - l.handler_read_prev) / dif as int) as usize,
        handler_read_rnd: ((s.handler_read_rnd - l.handler_read_rnd) / dif as int) as usize,
        handler_read_rnd_next: ((s.handler_read_rnd_next - l.handler_read_rnd_next)
            / dif as int) as usize,
        innodb_os_log_pending_fsyncs: s.innodb_os_log_pending_fsyncs,
        innodb_os_log_pending_writes: s.innodb_os_log_pending_writes,
        innodb_log_waits: s.innodb_log_waits,
        threads_connected: s.threads_connected,
        threads_running: s.threads_running,
        bytes_sent: ((s.bytes_sent - l.bytes_sent) / dif as int) as usize,
        bytes_received: ((s.bytes_received - l.bytes_received) / dif as int) as usize,
        slow_queries: ((s.slow_queries - l.slow_queries) / dif as int) as usize,
        time: s.time,
    }
}

/// A node's monitoring switch together with the previous sample, kept to
/// take differences from.
pub struct MonitorNodeSetInfo {
    pub setting: MonitorSetting,
    pub last_monitor_value: MysqlMonitorStatus,
}

impl MonitorNodeSetInfo {
    pub fn new(ms: &MonitorSetting) -> (r: MonitorNodeSetInfo)
        ensures
            r.setting == *ms,
            r.last_monitor_value == spec_zero_monitor_status(),
    {
        MonitorNodeSetInfo {
            setting: MonitorSetting { host: ms.host.clone(), monitor: ms.monitor, days: ms.days },
            last_monitor_value: MysqlMonitorStatus::new(),
        }
    }

    /// Remembers the sample the next difference is taken against.
    pub fn update_value(&mut self, ms: &MysqlMonitorStatus)
        ensures
            final(self).setting == old(self).setting,
            final(self).last_monitor_value == *ms,
    {
        self.last_monitor_value = *ms;
    }
}

/// The previous sample a host's refreshed setting carries over: the last
/// entry that kept state for the host, or the zero sample.
pub open spec fn spec_carried_value(mif: Seq<MonitorNodeSetInfo>, host: Seq<char>) -> MysqlMonitorStatus
    decreases mif.len(),
{
    if mif.len() == 0 {
        spec_zero_monitor_status()
    } else if mif.last().setting.host@ == host {
        mif.last().last_monitor_value
    } else {
        spec_carried_value(mif.drop_last(), host)
    }
}

/// Rebuilds the monitoring list from freshly read settings, carrying each
/// host's previous sample over so differences keep their base.
pub fn init_monitor_set(ms: &Vec<RowValue<MonitorSetting>>, mif: &Vec<MonitorNodeSetInfo>) -> (r:
    Vec<MonitorNodeSetInfo>)
    ensures
        r@.len() == ms@.len(),
        forall|i: int|
            0 <= i < ms@.len() ==> #[trigger] r@[i].setting == ms@[i].value && r@[i
            ].last_monitor_value == spec_carried_value(mif@, ms@[i].value.host@),
{
    let mut mm: Vec<MonitorNodeSetInfo> = Vec::new();
    let mut i: usize = 0;
    while i < ms.len()
        invariant
            0 <= i <= ms@.len(),
            mm@.len() == i,
            forall|k: int|
                0 <= k < i ==> #[trigger] mm@[k].setting == ms@[k].value && mm@[k
                ].last_monitor_value == spec_carried_value(mif@, ms@[k].value.host@),
        decreases ms@.len() - i,
    {
        let mut mi = MonitorNodeSetInfo::new(&ms[i].value);
        let mut j: usize = 0;
        while j < mif.len()
            invariant
                0 <= j <= mif@.len(),
                i < ms@.len(),
                mi.setting == ms@[i as int].value,
                mi.last_monitor_value == spec_carried_value(
                    mif@.subrange(0, j as int),
                    ms@[i as int].value.host@,
                ),
            decreases mif@.len() - j,
        {
            proof {
                assert(mif@.subrange(0, j as int + 1).drop_last() =~= mif@.subrange(0, j as int));
            }
            if mif[j].setting.host == ms[i].value.host {
                let carried = mif[j].last_monitor_value;
                mi.update_value(&carried);
            }
            j += 1;
        }
        proof {
            assert(mif@.subrange(0, mif@.len() as int) =~= mif@);
        }
        mm.push(mi);
        i += 1;
    }
    mm
}

} // verus!
