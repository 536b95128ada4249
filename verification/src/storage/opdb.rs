//! The record types the controller persists: registered nodes, the durable
//! failover record, user accounts, and the per-cluster read models built
//! from them.

use vstd::prelude::*;
use crate::ha::procotol::{DownNodeCheck, MysqlMonitorStatus, MysqlState, RecoveryInfo, ReplicationState};
use crate::ha::nodes_manager::SlaveInfo;
use crate::ha::route_manager::RouteInfo;
use crate::storage::rocks::RowValue;
use crate::strutil::{i64_to_string, spec_u64_dec};
use crate::ha::sys_manager::MonitorSetting;
use crate::webroute::new_route::ResponseMonitorStatic;
use crate::webroute::route::{EditInfo, EditMainTain, HostInfo, PostUserInfo};

verus! {

/// Whether some string of `l` reads as `x`.
pub open spec fn spec_in_list(l: Seq<String>, x: Seq<char>) -> bool {
    exists|i: int| 0 <= i < l.len() && l[i]@ == x
}

/// Whether the strings of `l` are pairwise distinct.
pub open spec fn spec_unique(l: Seq<String>) -> bool {
    forall|i: int, j: int| 0 <= i < j < l.len() ==> l[i]@ != l[j]@
}

/// The durable record of one failover attempt, keyed in the store by the
/// deposed host and the moment of the attempt. It is the single source of
/// truth the recovery of a returning node reads back, so every phase
/// persists it; the most recent record for a host wins.
#[derive(Debug)]
pub struct HaChangeLog {
    /// The deposed host's identity.
    pub key: String,
    pub cluster_name: String,
    /// The deposed primary, as the detection saw it.
    pub old_master_info: DownNodeCheck,
    /// The elected replica and its replication position at election time.
    pub new_master_binlog_info: SlaveInfo,
    /// What a returning node needs to resynchronize.
    pub recovery_info: RecoveryInfo,
    /// Whether the returning node has been resynchronized.
    pub recovery_status: bool,
    /// Whether the topology switch completed.
    pub switch_status: bool,
}

impl HaChangeLog {
    /// The record's invariant: recovery can only have completed after the
    /// switch completed.
    pub open spec fn wf(&self) -> bool {
        self.recovery_status ==> self.switch_status
    }

    pub fn new() -> (r: HaChangeLog)
        ensures
            r.key@ == Seq::<char>::empty(),
            r.cluster_name@ == Seq::<char>::empty(),
            r.old_master_info.host@ == Seq::<char>::empty(),
            r.old_master_info.dbport == 0,
            r.new_master_binlog_info.host@ == Seq::<char>::empty(),
            r.new_master_binlog_info.dbport == 0,
            r.new_master_binlog_info.slave_info.log_name@ == Seq::<char>::empty(),
            r.new_master_binlog_info.slave_info.read_log_pos == 0,
            r.new_master_binlog_info.slave_info.exec_log_pos == 0,
            !r.new_master_binlog_info.new_master,
            r.recovery_info.binlog@ == Seq::<char>::empty(),
            r.recovery_info.position == 0,
            r.recovery_info.gtid@ == Seq::<char>::empty(),
            r.recovery_info.masterhost@ == Seq::<char>::empty(),
            r.recovery_info.masterport == 0,
            r.recovery_info.read_binlog@ == Seq::<char>::empty(),
            r.recovery_info.read_position == 0,
            !r.recovery_status,
            !r.switch_status,
            r.wf(),
    {
        HaChangeLog {
            key: String::new(),
            cluster_name: String::new(),
            old_master_info: DownNodeCheck { host: String::new(), dbport: 0 },
            new_master_binlog_info: SlaveInfo {
                host: String::new(),
                dbport: 0,
                slave_info: ReplicationState {
                    log_name: String::new(),
                    read_log_pos: 0,
                    exec_log_pos: 0,
                },
                new_master: false,
            },
            recovery_info: RecoveryInfo {
                binlog: String::new(),
                position: 0,
                gtid: String::new(),
                masterhost: String::new(),
                masterport: 0,
                read_binlog: String::new(),
                read_position: 0,
            },
            recovery_status: false,
            switch_status: false,
        }
    }

    /// The store key of this record when persisted at `now`: the deposed
    /// host, an underscore, then the timestamp in decimal.
    pub fn save_key(&self, now: i64) -> (r: String)
        requires
            now >= 0,
        ensures
            r@ == self.key@ + "_"@ + spec_u64_dec(now as nat),
    {
        let mut k = self.key.clone();
        k.append("_");
        let ts = i64_to_string(now);
        k.append(ts.as_str());
        k
    }
}

/// The failover record never claims a completed recovery before a
/// completed switch: on every well-formed record, `recovery_status`
/// entails `switch_status`.
pub proof fn lemma_failover_record_order(log: HaChangeLog)
    requires
        log.wf(),
    ensures
        log.recovery_status ==> log.switch_status,
{
}

/// A user account of the administrative interface.
#[derive(Clone, Debug)]
pub struct UserInfo {
    pub user_name: String,
    pub password: String,
    pub hook_id: String,
    pub create_time: i64,
    pub update_time: i64,
}

impl UserInfo {
    /// Registers an account under a fresh 32-character access id.
    pub fn new(info: &PostUserInfo) -> (r: UserInfo)
        ensures
            r.user_name == info.user_name,
            r.password == info.password,
            r.hook_id@.len() == 32,
    {
        let create_time = crate::timestamp();
        let update_time = crate::timestamp();
        UserInfo {
            user_name: info.user_name.clone(),
            password: info.password.clone(),
            hook_id: crate::rand_string(),
            create_time,
            update_time,
        }
    }
}

/// Accepts an access id only when some account carries it.
pub fn check_user_info(users: &Vec<UserInfo>, hook_id: &String) -> (r: Result<(), String>)
    ensures
        r is Ok <==> exists|i: int| 0 <= i < users@.len() && users@[i].hook_id@ == hook_id@,
{
    let mut i: usize = 0;
    while i < users.len()
        invariant
            0 <= i <= users@.len(),
            forall|j: int| 0 <= j < i ==> users@[j].hook_id@ != hook_id@,
        decreases users@.len() - i,
    {
        if users[i].hook_id == *hook_id {
            return Ok(());
        }
        i += 1;
    }
    Err("invalid hook_id".to_owned())
}

/// A registered node: identity, kind, cluster, liveness and maintenance
/// flags. One record per physical instance, keyed by its host identity.
#[derive(Debug, Clone)]
pub struct HostInfoValue {
    /// `ip:port` identity.
    pub host: String,
    pub dbport: usize,
    /// `db` for a database node, `route` for a routing-only node.
    pub rtype: String,
    pub cluster_name: String,
    pub online: bool,
    pub insert_time: i64,
    pub update_time: i64,
    pub maintain: bool,
}

impl HostInfoValue {
    /// A fresh registration: offline until the poller hears from it, and
    /// not under maintenance.
    pub fn new(info: &HostInfo) -> (r: Result<HostInfoValue, String>)
        ensures
            r is Ok,
            r->Ok_0.host == info.host,
            r->Ok_0.rtype == info.rtype,
            r->Ok_0.dbport == info.dbport,
            r->Ok_0.cluster_name == info.cluster_name,
            !r->Ok_0.online,
            !r->Ok_0.maintain,
    {
        let h = HostInfoValue {
            host: info.host.clone(),
            rtype: info.rtype.clone(),
            dbport: info.dbport,
            cluster_name: info.cluster_name.clone(),
            online: false,
            insert_time: crate::timestamp(),
            update_time: crate::timestamp(),
            maintain: false,
        };
        Ok(h)
    }

    /// An administrative edit of identity, port and cluster.
    pub fn edit(&mut self, info: &EditInfo)
        ensures
            final(self).host == info.host,
            final(self).dbport == info.dbport,
            final(self).cluster_name == info.cluster_name,
            final(self).rtype == old(self).rtype,
            final(self).online == old(self).online,
            final(self).maintain == old(self).maintain,
            final(self).insert_time == old(self).insert_time,
    {
        self.host = info.host.clone();
        self.dbport = info.dbport;
        self.cluster_name = info.cluster_name.clone();
        self.update_time = crate::timestamp();
    }

    /// Toggles maintenance mode: the request carries the mode the node
    /// leaves, so `"true"` clears the flag and anything else sets it.
    pub fn maintain(&mut self, info: &EditMainTain)
        ensures
            final(self).maintain == !(info.maintain@ == "true"@),
            final(self).host == old(self).host,
            final(self).dbport == old(self).dbport,
            final(self).cluster_name == old(self).cluster_name,
            final(self).rtype == old(self).rtype,
            final(self).online == old(self).online,
            final(self).insert_time == old(self).insert_time,
    {
        let t: String = "true".to_owned();
        if info.maintain == t {
            self.maintain = false;
        } else {
            self.maintain = true;
        }
        self.update_time = crate::timestamp();
    }
}

/// The distinct cluster names among the registered nodes.
#[derive(Debug)]
pub struct NodeClusterList {
    pub cluster_name_list: Vec<String>,
}

impl NodeClusterList {
    pub fn new() -> (r: NodeClusterList)
        ensures
            r.cluster_name_list@.len() == 0,
    {
        NodeClusterList { cluster_name_list: Vec::new() }
    }

    /// Whether `cluster_name` is already listed.
    pub fn is_exists(&self, cluster_name: &String) -> (r: bool)
        ensures
            r == spec_in_list(self.cluster_name_list@, cluster_name@),
    {
        let mut i: usize = 0;
        while i < self.cluster_name_list.len()
            invariant
                0 <= i <= self.cluster_name_list@.len(),
                forall|j: int| 0 <= j < i ==> self.cluster_name_list@[j]@ != cluster_name@,
            decreases self.cluster_name_list@.len() - i,
        {
            if self.cluster_name_list[i] == *cluster_name {
                return true;
            }
            i += 1;
        }
        false
    }

    /// Collects each node's cluster name once: afterwards every node's
    /// cluster is listed, nothing is listed that no node carries (beyond
    /// what was listed before), and no name repeats.
    pub fn init(&mut self, nodes: &Vec<HostInfoValue>)
        ensures
            forall|i: int|
                0 <= i < nodes@.len() ==> spec_in_list(
                    final(self).cluster_name_list@,
                    nodes@[i].cluster_name@,
                ),
            forall|k: int|
                0 <= k < final(self).cluster_name_list@.len() ==> spec_in_list(
                    old(self).cluster_name_list@,
                    final(self).cluster_name_list@[k]@,
                ) || exists|i: int|
                    0 <= i < nodes@.len() && nodes@[i].cluster_name@ == final(self).cluster_name_list@[k]@,
            spec_unique(old(self).cluster_name_list@) ==> spec_unique(
                final(self).cluster_name_list@,
            ),
    {
        let mut i: usize = 0;
        while i < nodes.len()
            invariant
                0 <= i <= nodes@.len(),
                forall|k: int|
                    0 <= k < i ==> spec_in_list(
                        self.cluster_name_list@,
                        nodes@[k].cluster_name@,
                    ),
                forall|k: int|
                    0 <= k < self.cluster_name_list@.len() ==> spec_in_list(
                        old(self).cluster_name_list@,
                        self.cluster_name_list@[k]@,
                    ) || exists|m: int|
                        0 <= m < nodes@.len() && nodes@[m].cluster_name@
                            == self.cluster_name_list@[k]@,
                spec_unique(old(self).cluster_name_list@) ==> spec_unique(
                    self.cluster_name_list@,
                ),
            decreases nodes@.len() - i,
        {
            let ghost pre = self.cluster_name_list@;
            if !self.is_exists(&nodes[i].cluster_name) {
                self.cluster_name_list.push(nodes[i].cluster_name.clone());
            }
            proof {
                assert forall|k: int|
                    0 <= k < i + 1 implies spec_in_list(
                    self.cluster_name_list@,
                    nodes@[k].cluster_name@,
                ) by {
                    if k < i {
                        let w = choose|w: int|
                            0 <= w < pre.len() && pre[w]@ == nodes@[k].cluster_name@;
                        assert(self.cluster_name_list@[w]@ == nodes@[k].cluster_name@);
                    } else if spec_in_list(pre, nodes@[i as int].cluster_name@) {
                        let w = choose|w: int|
                            0 <= w < pre.len() && pre[w]@ == nodes@[i as int].cluster_name@;
                        assert(self.cluster_name_list@[w]@ == nodes@[k].cluster_name@);
                    } else {
                        assert(self.cluster_name_list@.last()@ == nodes@[k].cluster_name@);
                    }
                }
            }
            i += 1;
        }
    }
}

/// The distinct cluster names among the published routing tables.
#[derive(Debug)]
pub struct RouteClusterList {
    pub cluster_name_list: Vec<String>,
}

impl RouteClusterList {
    pub fn new() -> (r: RouteClusterList)
        ensures
            r.cluster_name_list@.len() == 0,
    {
        RouteClusterList { cluster_name_list: Vec::new() }
    }

    /// Whether `cluster_name` is already listed.
    pub fn is_exists(&self, cluster_name: &String) -> (r: bool)
        ensures
            r == spec_in_list(self.cluster_name_list@, cluster_name@),
    {
        let mut i: usize = 0;
        while i < self.cluster_name_list.len()
            invariant
                0 <= i <= self.cluster_name_list@.len(),
                forall|j: int| 0 <= j < i ==> self.cluster_name_list@[j]@ != cluster_name@,
            decreases self.cluster_name_list@.len() - i,
        {
            if self.cluster_name_list[i] == *cluster_name {
                return true;
            }
            i += 1;
        }
        false
    }

    /// Collects each published table's cluster name once.
    pub fn init(&mut self, route_all: &Vec<RowValue<RouteInfo>>)
        ensures
            forall|i: int|
                0 <= i < route_all@.len() ==> spec_in_list(
                    final(self).cluster_name_list@,
                    route_all@[i].value.cluster_name@,
                ),
            forall|k: int|
                0 <= k < final(self).cluster_name_list@.len() ==> spec_in_list(
                    old(self).cluster_name_list@,
                    final(self).cluster_name_list@[k]@,
                ) || exists|i: int|
                    0 <= i < route_all@.len() && route_all@[i].value.cluster_name@ == final(self).cluster_name_list@[k]@,
            spec_unique(old(self).cluster_name_list@) ==> spec_unique(
                final(self).cluster_name_list@,
            ),
    {
        let mut i: usize = 0;
        while i < route_all.len()
            invariant
                0 <= i <= route_all@.len(),
                forall|k: int|
                    0 <= k < i ==> spec_in_list(
                        self.cluster_name_list@,
                        route_all@[k].value.cluster_name@,
                    ),
                forall|k: int|
                    0 <= k < self.cluster_name_list@.len() ==> spec_in_list(
                        old(self).cluster_name_list@,
                        self.cluster_name_list@[k]@,
                    ) || exists|m: int|
                        0 <= m < route_all@.len() && route_all@[m].value.cluster_name@
                            == self.cluster_name_list@[k]@,
                spec_unique(old(self).cluster_name_list@) ==> spec_unique(
                    self.cluster_name_list@,
                ),
            decreases route_all@.len() - i,
        {
            let ghost pre = self.cluster_name_list@;
            if !self.is_exists(&route_all[i].value.cluster_name) {
                self.cluster_name_list.push(route_all[i].value.cluster_name.clone());
            }
            proof {
                assert forall|k: int|
                    0 <= k < i + 1 implies spec_in_list(
                    self.cluster_name_list@,
                    route_all@[k].value.cluster_name@,
                ) by {
                    if k < i {
                        let w = choose|w: int|
                            0 <= w < pre.len() && pre[w]@ == route_all@[k].value.cluster_name@;
                        assert(self.cluster_name_list@[w]@ == route_all@[k].value.cluster_name@);
                    } else if spec_in_list(pre, route_all@[i as int].value.cluster_name@) {
                        let w = choose|w: int|
                            0 <= w < pre.len() && pre[w]@ == route_all@[i as int
                            ].value.cluster_name@;
                        assert(self.cluster_name_list@[w]@ == route_all@[k].value.cluster_name@);
                    } else {
                        assert(self.cluster_name_list@.last()@
                            == route_all@[k].value.cluster_name@);
                    }
                }
            }
            i += 1;
        }
    }
}

/// A node's registration joined with its latest reported state, as the
/// administrative interface shows it.
pub struct NodeInfo {
    pub cluster_name: String,
    pub host: String,
    pub dbport: usize,
    pub online: bool,
    pub maintain: bool,
    pub role: String,
    pub master: String,
    pub sql_thread: bool,
    pub io_thread: bool,
    pub seconds_behind: usize,
    pub read_only: bool,
    pub version: String,
    pub executed_gtid_set: String,
    pub innodb_flush_log_at_trx_commit: usize,
    pub sync_binlog: usize,
    pub server_id: usize,
    pub event_scheduler: String,
    pub sql_error: String,
}

/// The join of a registration record and a state snapshot.
pub open spec fn spec_node_info(state: MysqlState, node: HostInfoValue) -> NodeInfo {
    NodeInfo {
        cluster_name: node.cluster_name,
        host: node.host,
        dbport: node.dbport,
        online: node.online,
        maintain: node.maintain,
        role: state.role,
        master: state.master,
        sql_thread: state.sql_thread,
        io_thread: state.io_thread,
        seconds_behind: state.seconds_behind,
        read_only: state.read_only,
        version: state.version,
        executed_gtid_set: state.executed_gtid_set,
        innodb_flush_log_at_trx_commit: state.innodb_flush_log_at_trx_commit,
        sync_binlog: state.sync_binlog,
        server_id: state.server_id,
        event_scheduler: state.event_scheduler,
        sql_error: state.sql_error,
    }
}

impl NodeInfo {
    pub fn new(state: &MysqlState, node: &HostInfoValue) -> (r: NodeInfo)
        ensures
            r == spec_node_info(*state, *node),
    {
        NodeInfo {
            cluster_name: node.cluster_name.clone(),
            host: node.host.clone(),
            dbport: node.dbport,
            online: node.online,
            maintain: node.maintain,
            role: state.role.clone(),
            master: state.master.clone(),
            sql_thread: state.sql_thread,
            io_thread: state.io_thread,
            seconds_behind: state.seconds_behind,
            read_only: state.read_only,
            version: state.version.clone(),
            executed_gtid_set: state.executed_gtid_set.clone(),
            innodb_flush_log_at_trx_commit: state.innodb_flush_log_at_trx_commit,
            sync_binlog: state.sync_binlog,
            server_id: state.server_id,
            event_scheduler: state.event_scheduler.clone(),
            sql_error: state.sql_error.clone(),
        }
    }
}

/// The members of `cluster` among parallel registration and state lists,
/// joined, in list order.
pub open spec fn spec_cluster_members(
    nodes: Seq<HostInfoValue>,
    states: Seq<MysqlState>,
    cluster: Seq<char>,
) -> Seq<NodeInfo>
    decreases nodes.len(),
{
    if nodes.len() == 0 {
        Seq::empty()
    } else {
        let rest = spec_cluster_members(nodes.drop_last(), states.drop_last(), cluster);
        if nodes.last().cluster_name@ == cluster {
            rest + seq![spec_node_info(states.last(), nodes.last())]
        } else {
            rest
        }
    }
}

proof fn lemma_cluster_members_le(
    nodes: Seq<HostInfoValue>,
    states: Seq<MysqlState>,
    cluster: Seq<char>,
)
    ensures
        0 <= spec_cluster_members(nodes, states, cluster).len() <= nodes.len(),
    decreases nodes.len(),
{
    if nodes.len() > 0 {
        lemma_cluster_members_le(nodes.drop_last(), states.drop_last(), cluster);
    }
}

/// One cluster's nodes, as the administrative interface shows them.
pub struct ClusterNodeInfo {
    pub cluster_name: String,
    pub total: usize,
    pub nodes_info: Vec<NodeInfo>,
}

impl ClusterNodeInfo {
    pub fn new(cluster_name: &String) -> (r: ClusterNodeInfo)
        ensures
            r.cluster_name == *cluster_name,
            r.total == 0,
            r.nodes_info@.len() == 0,
    {
        ClusterNodeInfo { cluster_name: cluster_name.clone(), total: 0, nodes_info: Vec::new() }
    }

    /// Joins every node of this cluster with its state snapshot, given in
    /// the same order as the registrations.
    pub fn init(&mut self, nodes: &Vec<HostInfoValue>, states: &Vec<MysqlState>)
        requires
            nodes@.len() == states@.len(),
            old(self).total + nodes@.len() <= usize::MAX,
        ensures
            final(self).cluster_name == old(self).cluster_name,
            final(self).nodes_info@ == old(self).nodes_info@ + spec_cluster_members(
                nodes@,
                states@,
                old(self).cluster_name@,
            ),
            final(self).total == old(self).total + spec_cluster_members(
                nodes@,
                states@,
                old(self).cluster_name@,
            ).len(),
    {
        let mut i: usize = 0;
        while i < nodes.len()
            invariant
                0 <= i <= nodes@.len(),
                nodes@.len() == states@.len(),
                old(self).total + nodes@.len() <= usize::MAX,
                self.cluster_name == old(self).cluster_name,
                self.nodes_info@ == old(self).nodes_info@ + spec_cluster_members(
                    nodes@.subrange(0, i as int),
                    states@.subrange(0, i as int),
                    old(self).cluster_name@,
                ),
                self.total == old(self).total + spec_cluster_members(
                    nodes@.subrange(0, i as int),
                    states@.subrange(0, i as int),
                    old(self).cluster_name@,
                ).len(),
            decreases nodes@.len() - i,
        {
            proof {
                assert(nodes@.subrange(0, i as int + 1).drop_last() =~= nodes@.subrange(
                    0,
                    i as int,
                ));
                assert(states@.subrange(0, i as int + 1).drop_last() =~= states@.subrange(
                    0,
                    i as int,
                ));
            }
            proof {
                lemma_cluster_members_le(
                    nodes@.subrange(0, i as int),
                    states@.subrange(0, i as int),
                    old(self).cluster_name@,
                );
            }
            if nodes[i].cluster_name == self.cluster_name {
                let node_info = NodeInfo::new(&states[i], &nodes[i]);
                self.total += 1;
                self.nodes_info.push(node_info);
                proof {
                    assert(self.nodes_info@ =~= old(self).nodes_info@ + spec_cluster_members(
                        nodes@.subrange(0, i as int + 1),
                        states@.subrange(0, i as int + 1),
                        old(self).cluster_name@,
                    ));
                }
            }
            i += 1;
        }
        proof {
            assert(nodes@.subrange(0, nodes@.len() as int) =~= nodes@);
            assert(states@.subrange(0, states@.len() as int) =~= states@);
        }
    }
}

/// One monitoring sample read back from the store, newest first: the
/// node it belongs to, whether that node's monitoring is switched on,
/// and the sample itself.
pub struct MonitorSample {
    pub host: String,
    pub monitor: bool,
    pub value: MysqlMonitorStatus,
}

/// Whether `host` belongs to one of the cluster's nodes.
pub open spec fn spec_member_host(nodes: Seq<NodeInfo>, host: Seq<char>) -> bool {
    exists|i: int| 0 <= i < nodes.len() && nodes[i].host@ == host
}

/// The samples the fleet summary takes in: walking newest first, the
/// first sample of each of the cluster's hosts, and of those only the
/// samples of hosts whose monitoring is on.
pub open spec fn spec_latest_samples(
    rows: Seq<MonitorSample>,
    nodes: Seq<NodeInfo>,
    taken: Set<Seq<char>>,
) -> Seq<MysqlMonitorStatus>
    decreases rows.len(),
{
    if rows.len() == 0 {
        Seq::empty()
    } else {
        let r0 = rows[0];
        if spec_member_host(nodes, r0.host@) && !taken.contains(r0.host@) {
            if r0.monitor {
                seq![r0.value] + spec_latest_samples(
                    rows.drop_first(),
                    nodes,
                    taken.insert(r0.host@),
                )
            } else {
                spec_latest_samples(rows.drop_first(), nodes, taken.insert(r0.host@))
            }
        } else {
            spec_latest_samples(rows.drop_first(), nodes, taken)
        }
    }
}

/// The eight sums the fleet summary accumulates: questions, slow
/// queries, running threads, connected threads, and the four statement
/// counters.
pub open spec fn spec_monitor_sums(sel: Seq<MysqlMonitorStatus>) -> (
    int,
    int,
    int,
    int,
    int,
    int,
    int,
    int,
)
    decreases sel.len(),
{
    if sel.len() == 0 {
        (0int, 0int, 0int, 0int, 0int, 0int, 0int, 0int)
    } else {
        let (a, b, c, d, e, f, g, h) = spec_monitor_sums(sel.drop_first());
        let v = sel[0];
        (
            a + v.questions,
            b + v.slow_queries,
            c + v.threads_running,
            d + v.threads_connected,
            e + v.com_insert,
            f + v.com_update,
            g + v.com_delete,
            h + v.com_select,
        )
    }
}

proof fn lemma_monitor_sums_nonneg(sel: Seq<MysqlMonitorStatus>)
    ensures
        spec_monitor_sums(sel).0 >= 0,
        spec_monitor_sums(sel).1 >= 0,
        spec_monitor_sums(sel).2 >= 0,
        spec_monitor_sums(sel).3 >= 0,
        spec_monitor_sums(sel).4 >= 0,
        spec_monitor_sums(sel).5 >= 0,
        spec_monitor_sums(sel).6 >= 0,
        spec_monitor_sums(sel).7 >= 0,
    decreases sel.len(),
{
    if sel.len() > 0 {
        lemma_monitor_sums_nonneg(sel.drop_first());
    }
}

impl ClusterNodeInfo {
    /// Whether a recorded setting switches a node's monitoring on.
    pub fn check_monitor_setting(&self, setting: Option<&MonitorSetting>) -> (r: bool)
        ensures
            r == match setting {
                Some(s) => s.monitor,
                None => false,
            },
    {
        match setting {
            Some(s) => s.monitor,
            None => false,
        }
    }

    fn member_host(&self, host: &String) -> (r: bool)
        ensures
            r == spec_member_host(self.nodes_info@, host@),
    {
        let mut i: usize = 0;
        while i < self.nodes_info.len()
            invariant
                0 <= i <= self.nodes_info@.len(),
                forall|j: int| 0 <= j < i ==> (#[trigger] self.nodes_info@[j].host@) != host@,
            decreases self.nodes_info@.len() - i,
        {
            if self.nodes_info[i].host == *host {
                return true;
            }
            i += 1;
        }
        false
    }

    /// Folds the latest sample of every monitored node of this cluster
    /// into the fleet summary. The rows come newest first; only the
    /// first row of each host counts, and of those only the rows of
    /// hosts whose monitoring is on.
    pub fn static_monitor(&self, rows: &Vec<MonitorSample>, rsm: &mut ResponseMonitorStatic) -> (r:
        Result<(), String>)
        requires
            old(rsm).current_qps + spec_monitor_sums(
                spec_latest_samples(rows@, self.nodes_info@, Set::empty()),
            ).0 <= usize::MAX,
            old(rsm).slow_queries + spec_monitor_sums(
                spec_latest_samples(rows@, self.nodes_info@, Set::empty()),
            ).1 <= usize::MAX,
            old(rsm).thread_running + spec_monitor_sums(
                spec_latest_samples(rows@, self.nodes_info@, Set::empty()),
            ).2 <= usize::MAX,
            old(rsm).thread_connected + spec_monitor_sums(
                spec_latest_samples(rows@, self.nodes_info@, Set::empty()),
            ).3 <= usize::MAX,
            old(rsm).com_insert + spec_monitor_sums(
                spec_latest_samples(rows@, self.nodes_info@, Set::empty()),
            ).4 <= usize::MAX,
            old(rsm).com_update + spec_monitor_sums(
                spec_latest_samples(rows@, self.nodes_info@, Set::empty()),
            ).5 <= usize::MAX,
            old(rsm).com_delete + spec_monitor_sums(
                spec_latest_samples(rows@, self.nodes_info@, Set::empty()),
            ).6 <= usize::MAX,
            old(rsm).com_select + spec_monitor_sums(
                spec_latest_samples(rows@, self.nodes_info@, Set::empty()),
            ).7 <= usize::MAX,
        ensures
            r is Ok,
            ({
                let sums = spec_monitor_sums(
                    spec_latest_samples(rows@, self.nodes_info@, Set::empty()),
                );
                &&& final(rsm).current_qps == old(rsm).current_qps + sums.0
                &&& final(rsm).slow_queries == old(rsm).slow_queries + sums.1
                &&& final(rsm).thread_running == old(rsm).thread_running + sums.2
                &&& final(rsm).thread_connected == old(rsm).thread_connected + sums.3
                &&& final(rsm).com_insert == old(rsm).com_insert + sums.4
                &&& final(rsm).com_update == old(rsm).com_update + sums.5
                &&& final(rsm).com_delete == old(rsm).com_delete + sums.6
                &&& final(rsm).com_select == old(rsm).com_select + sums.7
            }),
    {
        let ghost total = spec_monitor_sums(
            spec_latest_samples(rows@, self.nodes_info@, Set::empty()),
        );
        let mut tmp: Vec<String> = Vec::new();
        let ghost mut taken: Set<Seq<char>> = Set::empty();
        let mut i: usize = 0;
        proof {
            assert(rows@.skip(0) =~= rows@);
        }
        while i < rows.len()
            invariant
                0 <= i <= rows@.len(),
                forall|h: Seq<char>| taken.contains(h) <==> spec_in_list(tmp@, h),
                ({
                    let rem = spec_monitor_sums(
                        spec_latest_samples(rows@.skip(i as int), self.nodes_info@, taken),
                    );
                    &&& rsm.current_qps + rem.0 == old(rsm).current_qps + total.0
                    &&& rsm.slow_queries + rem.1 == old(rsm).slow_queries + total.1
                    &&& rsm.thread_running + rem.2 == old(rsm).thread_running + total.2
                    &&& rsm.thread_connected + rem.3 == old(rsm).thread_connected + total.3
                    &&& rsm.com_insert + rem.4 == old(rsm).com_insert + total.4
                    &&& rsm.com_update + rem.5 == old(rsm).com_update + total.5
                    &&& rsm.com_delete + rem.6 == old(rsm).com_delete + total.6
                    &&& rsm.com_select + rem.7 == old(rsm).com_select + total.7
                }),
                old(rsm).current_qps + total.0 <= usize::MAX,
                old(rsm).slow_queries + total.1 <= usize::MAX,
                old(rsm).thread_running + total.2 <= usize::MAX,
                old(rsm).thread_connected + total.3 <= usize::MAX,
                old(rsm).com_insert + total.4 <= usize::MAX,
                old(rsm).com_update + total.5 <= usize::MAX,
                old(rsm).com_delete + total.6 <= usize::MAX,
                old(rsm).com_select + total.7 <= usize::MAX,
                total == spec_monitor_sums(
                    spec_latest_samples(rows@, self.nodes_info@, Set::empty()),
                ),
            decreases rows@.len() - i,
        {
            proof {
                assert(rows@.skip(i as int)[0] == rows@[i as int]);
                assert(rows@.skip(i as int).drop_first() =~= rows@.skip(i as int + 1));
                lemma_monitor_sums_nonneg(
                    spec_latest_samples(rows@.skip(i as int + 1), self.nodes_info@, taken),
                );
                lemma_monitor_sums_nonneg(
                    spec_latest_samples(
                        rows@.skip(i as int + 1),
                        self.nodes_info@,
                        taken.insert(rows@[i as int].host@),
                    ),
                );
            }
            let row = &rows[i];
            let ghost taken0 = taken;
            let is_member = self.member_host(&row.host);
            let mut t: usize = 0;
            while t < tmp.len() && !(tmp[t] == row.host)
                invariant
                    0 <= t <= tmp@.len(),
                    forall|j: int| 0 <= j < t ==> tmp@[j]@ != row.host@,
                decreases tmp@.len() - t,
            {
                t += 1;
            }
            let seen = t < tmp.len();
            proof {
                if seen {
                    assert(tmp@[t as int]@ == row.host@);
                    assert(spec_in_list(tmp@, row.host@));
                } else {
                    assert(!spec_in_list(tmp@, row.host@));
                }
            }
            if is_member && !seen {
                proof {
                    assert(!taken0.contains(row.host@));
                }
                let ghost pre_tmp = tmp@;
                tmp.push(row.host.clone());
                proof {
                    taken = taken0.insert(row.host@);
                    assert(tmp@.drop_last() =~= pre_tmp);
                    assert forall|h: Seq<char>|
                        taken.contains(h) <==> spec_in_list(tmp@, h) by {
                        if h == row.host@ {
                            assert(tmp@[tmp@.len() - 1]@ == h);
                        } else {
                            if spec_in_list(tmp@, h) {
                                let w = choose|w: int| 0 <= w < tmp@.len() && tmp@[w]@ == h;
                                assert(w < tmp@.len() - 1);
                                assert(pre_tmp[w]@ == h);
                                assert(taken0.contains(h));
                            }
                            if taken0.contains(h) {
                                assert(spec_in_list(pre_tmp, h));
                                let w = choose|w: int| 0 <= w < pre_tmp.len() && pre_tmp[w]@ == h;
                                assert(tmp@[w]@ == h);
                            }
                        }
                    }
                }
                if row.monitor {
                    proof {
                        let rest = spec_latest_samples(
                            rows@.skip(i as int + 1),
                            self.nodes_info@,
                            taken,
                        );
                        assert(spec_latest_samples(rows@.skip(i as int), self.nodes_info@, taken0)
                            == seq![row.value] + rest);
                        assert((seq![row.value] + rest).drop_first() =~= rest);
                        assert((seq![row.value] + rest)[0] == row.value);
                    }
                    rsm.update(&row.value);
                }
            } else {
                proof {
                    if is_member {
                        assert(taken0.contains(row.host@));
                    }
                }
            }
            i += 1;
        }
        proof {
            assert(rows@.skip(rows@.len() as int) =~= Seq::<MonitorSample>::empty());
        }
        Ok(())
    }
}

/// The per-cluster replica lag threshold; 100 seconds when never
/// configured, 0 disabling the lag check.
#[derive(Debug, Clone)]
pub struct SlaveBehindSetting {
    pub cluster_name: String,
    pub delay: usize,
}

impl SlaveBehindSetting {
    pub fn new(cluster_name: &String) -> (r: SlaveBehindSetting)
        ensures
            r.cluster_name == *cluster_name,
            r.delay == 100,
    {
        SlaveBehindSetting { cluster_name: cluster_name.clone(), delay: 100 }
    }
}

} // verus!
