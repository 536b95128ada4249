//! The routing-table builder: from the registered nodes, their latest
//! state snapshots, the quorum tallies and the failover records, it
//! recomputes each cluster's one write endpoint and ordered read
//! endpoints from scratch on every pass.

use vstd::prelude::*;
use crate::ha::nodes_manager::{CheckState, HaLogRow, spec_latest_row};
use crate::ha::procotol::MysqlState;
use crate::storage::opdb::{HostInfoValue, SlaveBehindSetting};
use crate::strutil::{prefix_until, spec_prefix_until};

verus! {

/// One endpoint of the routing table.
#[derive(Debug, Clone)]
pub struct MysqlHostInfo {
    pub host: String,
    pub port: usize,
}

/// A cluster's published routing table: one write endpoint and the read
/// endpoints, rebuilt whole on every pass.
#[derive(Debug)]
pub struct RouteInfo {
    pub cluster_name: String,
    pub write: MysqlHostInfo,
    pub read: Vec<MysqlHostInfo>,
}

/// The endpoints of a table as plain values.
pub open spec fn spec_endpoints(v: Seq<MysqlHostInfo>) -> Seq<(Seq<char>, int)> {
    v.map_values(|e: MysqlHostInfo| (e.host@, e.port as int))
}

/// How many write endpoints a table holds: one when a writer is
/// published, none while the table still carries the empty placeholder.
pub open spec fn spec_write_count(r: RouteInfo) -> int {
    if r.write.host@.len() > 0 {
        1
    } else {
        0
    }
}

impl RouteInfo {
    pub fn new(cluster_name: String) -> (r: RouteInfo)
        ensures
            r.cluster_name == cluster_name,
            r.write.host@ == Seq::<char>::empty(),
            r.write.port == 0,
            r.read@.len() == 0,
    {
        RouteInfo {
            cluster_name,
            write: MysqlHostInfo { host: String::new(), port: 0 },
            read: Vec::new(),
        }
    }

    /// The address part of an `ip:port` identity.
    pub fn split_str(&self, host_info: String) -> (r: String)
        ensures
            r@ == spec_prefix_until(host_info@, ':'),
    {
        prefix_until(host_info.as_str(), ':')
    }

    /// Publishes `node` as the cluster's write endpoint.
    pub fn set_master_info(&mut self, node: &NodeInfo)
        ensures
            final(self).write.host@ == spec_prefix_until(node.value.host@, ':'),
            final(self).write.port == node.value.dbport,
            final(self).read == old(self).read,
            final(self).cluster_name == old(self).cluster_name,
    {
        let host = self.split_str(node.value.host.clone());
        self.write = MysqlHostInfo { host, port: node.value.dbport };
    }

    /// Adds `node` to the cluster's read endpoints.
    pub fn set_slave_info(&mut self, node: &NodeInfo)
        ensures
            final(self).read@.len() == old(self).read@.len() + 1,
            final(self).read@.drop_last() == old(self).read@,
            final(self).read@.last().host@ == spec_prefix_until(node.value.host@, ':'),
            final(self).read@.last().port == node.value.dbport,
            final(self).write == old(self).write,
            final(self).cluster_name == old(self).cluster_name,
    {
        let host = self.split_str(node.value.host.clone());
        self.read.push(MysqlHostInfo { host, port: node.value.dbport });
        proof {
            assert(self.read@.drop_last() =~= old(self).read@);
        }
    }

    /// Whether an offline node may keep its place in the table. The
    /// tally must exist; a node whose database a quorum confirmed down is
    /// excluded (after the recovery state of a primary is found sound),
    /// while an agent-only outage keeps the node listed.
    pub fn check_down_status(
        &self,
        check_state: Option<&CheckState>,
        role: &String,
        failover_rows: &Vec<HaLogRow>,
        now: i64,
    ) -> (r: Result<bool, String>)
        requires
            now >= 0,
            forall|i: int| 0 <= i < failover_rows@.len() ==> failover_rows@[i].time >= 0,
        ensures
            r is Ok <==> spec_check_down_status(
                match check_state {
                    Some(c) => Some(*c),
                    None => None::<CheckState>,
                },
                role@,
                failover_rows@,
                now as int,
            ) is Some,
            r is Ok ==> r->Ok_0 == spec_check_down_status(
                match check_state {
                    Some(c) => Some(*c),
                    None => None::<CheckState>,
                },
                role@,
                failover_rows@,
                now as int,
            )->0,
    {
        let value = match check_state {
            Some(c) => c,
            None => {
                return Err("no check state is recorded for this host".to_owned());
            },
        };
        if value.db_down {
            let m: String = "master".to_owned();
            let s: String = "slave".to_owned();
            if *role == m {
                match self.check_recovery_status(failover_rows, now) {
                    Ok(()) => {
                        return Ok(false);
                    },
                    Err(e) => {
                        return Err(e);
                    },
                }
            } else if *role == s {
                return Ok(false);
            }
        }
        Ok(true)
    }

    /// Accepts the recovery state of a down primary only when the most
    /// recent failover record shows a completed switch, an incomplete
    /// recovery, and an age of at most ten seconds; everything else keeps
    /// the table unchanged for this pass.
    pub fn check_recovery_status(&self, failover_rows: &Vec<HaLogRow>, now: i64) -> (r: Result<
        (),
        String,
    >)
        requires
            now >= 0,
            forall|i: int| 0 <= i < failover_rows@.len() ==> failover_rows@[i].time >= 0,
        ensures
            r is Ok <==> spec_recovery_sound(failover_rows@, now as int),
    {
        if failover_rows.len() > 0 {
            let latest = latest_row_index(failover_rows);
            let row = &failover_rows[latest];
            if row.log.switch_status {
                if !row.log.recovery_status {
                    self.check_time_dif(row.time, now)?;
                    return Ok(());
                }
            }
            self.check_time_dif(row.time, now)?;
        }
        Err("the host is a primary, but its recovery state is unusual".to_owned())
    }

    /// Rejects a failover record older than ten seconds as stale.
    pub fn check_time_dif(&self, key_time: i64, now: i64) -> (r: Result<(), String>)
        requires
            key_time >= 0,
            now >= 0,
        ensures
            r is Ok <==> now - key_time <= 10000,
    {
        if now - key_time > 10000 {
            return Err("the recovery state of this key is stale".to_owned());
        }
        Ok(())
    }
}

/// Whether a down primary's most recent failover record shows a completed
/// switch, an incomplete recovery, and an age of at most ten seconds.
pub open spec fn spec_recovery_sound(rows: Seq<HaLogRow>, now: int) -> bool {
    &&& rows.len() > 0
    &&& {
        let l = rows[spec_latest_row(rows)];
        &&& l.log.switch_status
        &&& !l.log.recovery_status
        &&& now - l.time <= 10000
    }
}

/// What `check_down_status` answers: nothing without a tally, exclusion
/// of a quorum-confirmed down database (a primary's only with a sound
/// recovery state), and retention otherwise.
pub open spec fn spec_check_down_status(
    check_state: Option<CheckState>,
    role: Seq<char>,
    rows: Seq<HaLogRow>,
    now: int,
) -> Option<bool> {
    match check_state {
        None => None,
        Some(cs) => {
            if cs.db_down && role == "master"@ {
                if spec_recovery_sound(rows, now) {
                    Some(false)
                } else {
                    None
                }
            } else if cs.db_down && role == "slave"@ {
                Some(false)
            } else {
                Some(true)
            }
        },
    }
}

/// The most recent failover record: the first row carrying the maximal
/// timestamp.
pub fn latest_row_index(rows: &Vec<HaLogRow>) -> (r: usize)
    requires
        rows@.len() > 0,
    ensures
        r == spec_latest_row(rows@),
        0 <= r < rows@.len(),
{
    proof {
        assert(rows@.skip(0) =~= rows@);
    }
    latest_row_from(rows, 0)
}

fn latest_row_from(rows: &Vec<HaLogRow>, i: usize) -> (r: usize)
    requires
        0 <= i < rows@.len(),
    ensures
        i + spec_latest_row(rows@.skip(i as int)) == r,
        i <= r < rows@.len(),
    decreases rows@.len() - i,
{
    if i == rows.len() - 1 {
        return i;
    }
    let rest = latest_row_from(rows, i + 1);
    proof {
        assert(rows@.skip(i as int).drop_first() =~= rows@.skip(i as int + 1));
        assert(rows@.skip(i as int)[0] == rows@[i as int]);
        assert(rows@.skip(i as int)[rest - i] == rows@[rest as int]);
    }
    if rows[i].time >= rows[rest].time {
        i
    } else {
        rest
    }
}

/// A registered node as the route builder walks it.
#[derive(Debug, Clone)]
pub struct NodeInfo {
    pub key: String,
    pub value: HostInfoValue,
}

impl NodeInfo {
    pub fn new(key: &String, value: &HostInfoValue) -> (r: NodeInfo)
        ensures
            r.key == *key,
            r.value == *value,
    {
        NodeInfo {
            key: key.clone(),
            value: HostInfoValue {
                host: value.host.clone(),
                dbport: value.dbport,
                rtype: value.rtype.clone(),
                cluster_name: value.cluster_name.clone(),
                online: value.online,
                insert_time: value.insert_time,
                update_time: value.update_time,
                maintain: value.maintain,
            },
        }
    }
}

/// What the route pass does with one node.
#[derive(Debug, Clone, Copy, PartialEq, Eq, Structural)]
pub enum RouteClass {
    /// A reachable primary: the cluster's write endpoint.
    WriteEndpoint,
    /// A healthy, caught-up replica: a read endpoint.
    ReadEndpoint,
    /// Left out of the table.
    Excluded,
    /// The node's down-state cannot be judged yet: the whole pass leaves
    /// the cluster's table unchanged and retries later.
    Undecidable,
}

/// Everything the route pass reads about one node besides its
/// registration: the latest state snapshot, the quorum tally if one is
/// recorded, and the node's failover records.
pub struct NodeRouteState {
    pub state: MysqlState,
    pub check_state: Option<CheckState>,
    pub failover_rows: Vec<HaLogRow>,
}

/// How the route pass classifies one node. A primary is published while
/// online, kept while only its agent is out, excluded once a quorum
/// confirmed its database down and the failover state is sound, and
/// undecidable otherwise. A replica reads while online with both
/// replication threads running and lag within the threshold (0 disables
/// the check); offline, it reads exactly when only its agent is out.
/// Maintenance excludes a replica; nodes of any other role are excluded.
pub open spec fn spec_route_class(
    node: NodeInfo,
    st: NodeRouteState,
    behind: int,
    now: int,
) -> RouteClass {
    let role = st.state.role@;
    if role == "master"@ {
        if node.value.online {
            RouteClass::WriteEndpoint
        } else {
            match spec_check_down_status(st.check_state, role, st.failover_rows@, now) {
                None => RouteClass::Undecidable,
                Some(true) => RouteClass::WriteEndpoint,
                Some(false) => RouteClass::Excluded,
            }
        }
    } else if role == "slave"@ {
        if node.value.maintain {
            RouteClass::Excluded
        } else if node.value.online {
            if !st.state.sql_thread || !st.state.io_thread {
                RouteClass::Excluded
            } else if behind == 0 || st.state.seconds_behind <= behind {
                RouteClass::ReadEndpoint
            } else {
                RouteClass::Excluded
            }
        } else {
            match spec_check_down_status(st.check_state, role, st.failover_rows@, now) {
                None => RouteClass::Undecidable,
                Some(true) => RouteClass::ReadEndpoint,
                Some(false) => RouteClass::Excluded,
            }
        }
    } else {
        RouteClass::Excluded
    }
}

/// The fold of one route pass: the published write endpoint (the last
/// primary accepted) and the read endpoints in node order, or nothing
/// when any node is undecidable.
pub open spec fn spec_route_fold(
    nodes: Seq<NodeInfo>,
    ctx: Seq<NodeRouteState>,
    behind: int,
    now: int,
) -> Option<(Option<int>, Seq<int>)>
    decreases nodes.len(),
{
    if nodes.len() == 0 {
        Some((None, Seq::empty()))
    } else {
        match spec_route_fold(nodes.drop_last(), ctx.drop_last(), behind, now) {
            None => None,
            Some((w, rs)) => {
                match spec_route_class(nodes.last(), ctx.last(), behind, now) {
                    RouteClass::WriteEndpoint => Some((Some(nodes.len() - 1), rs)),
                    RouteClass::ReadEndpoint => Some((w, rs.push(nodes.len() - 1))),
                    RouteClass::Excluded => Some((w, rs)),
                    RouteClass::Undecidable => None,
                }
            },
        }
    }
}

proof fn lemma_route_fold_none_extends(
    nodes: Seq<NodeInfo>,
    ctx: Seq<NodeRouteState>,
    behind: int,
    now: int,
    i: int,
)
    requires
        0 <= i <= nodes.len(),
        nodes.len() == ctx.len(),
        spec_route_fold(nodes.subrange(0, i), ctx.subrange(0, i), behind, now) is None,
    ensures
        spec_route_fold(nodes, ctx, behind, now) is None,
    decreases nodes.len() - i,
{
    if i == nodes.len() {
        assert(nodes.subrange(0, i) =~= nodes);
        assert(ctx.subrange(0, i) =~= ctx);
    } else {
        assert(nodes.subrange(0, i + 1).drop_last() =~= nodes.subrange(0, i));
        assert(ctx.subrange(0, i + 1).drop_last() =~= ctx.subrange(0, i));
        lemma_route_fold_none_extends(nodes, ctx, behind, now, i + 1);
    }
}

/// A cluster as the route pass walks it: its name, its replica-lag
/// threshold, and its nodes.
#[derive(Debug)]
pub struct ClusterNodeInfo {
    pub cluster_name: String,
    pub slave_behind_setting: usize,
    pub node_list: Vec<NodeInfo>,
}

impl ClusterNodeInfo {
    /// Opens a cluster around its first node.
    pub fn new(ninfo: &NodeInfo, slave_behind: usize) -> (r: ClusterNodeInfo)
        ensures
            r.cluster_name == ninfo.value.cluster_name,
            r.slave_behind_setting == slave_behind,
            r.node_list@.len() == 1,
            r.node_list@[0] == *ninfo,
    {
        let mut node_list: Vec<NodeInfo> = Vec::new();
        node_list.push(NodeInfo::new(&ninfo.key, &ninfo.value));
        ClusterNodeInfo {
            cluster_name: ninfo.value.cluster_name.clone(),
            slave_behind_setting: slave_behind,
            node_list,
        }
    }

    /// An exact copy.
    pub fn my_clone(&self) -> (r: ClusterNodeInfo)
        ensures
            r.cluster_name == self.cluster_name,
            r.slave_behind_setting == self.slave_behind_setting,
            r.node_list@ == self.node_list@,
    {
        let mut node_list: Vec<NodeInfo> = Vec::new();
        let mut i: usize = 0;
        while i < self.node_list.len()
            invariant
                0 <= i <= self.node_list@.len(),
                node_list@ == self.node_list@.subrange(0, i as int),
            decreases self.node_list@.len() - i,
        {
            node_list.push(NodeInfo::new(&self.node_list[i].key, &self.node_list[i].value));
            proof {
                assert(node_list@ =~= self.node_list@.subrange(0, i as int + 1));
            }
            i += 1;
        }
        proof {
            assert(self.node_list@.subrange(0, self.node_list@.len() as int) =~= self.node_list@);
        }
        ClusterNodeInfo {
            cluster_name: self.cluster_name.clone(),
            slave_behind_setting: self.slave_behind_setting,
            node_list,
        }
    }

    /// Adds a node to the cluster.
    pub fn update(&mut self, ninfo: &NodeInfo)
        ensures
            final(self).node_list@ == old(self).node_list@.push(*ninfo),
            final(self).cluster_name == old(self).cluster_name,
            final(self).slave_behind_setting == old(self).slave_behind_setting,
    {
        self.node_list.push(NodeInfo::new(&ninfo.key, &ninfo.value));
    }

    /// Publishes a reachable primary, keeps one whose agent alone is out,
    /// and excludes one whose database a quorum confirmed down once its
    /// failover state is sound; anything else leaves the pass undecided.
    pub fn master_check(
        &self,
        node: &NodeInfo,
        st: &NodeRouteState,
        now: i64,
        route_info: &mut RouteInfo,
    ) -> (r: Result<bool, String>)
        requires
            now >= 0,
            forall|j: int| 0 <= j < st.failover_rows@.len() ==> st.failover_rows@[j].time >= 0,
        ensures
            ({
                let cls = spec_route_class(*node, *st, self.slave_behind_setting as int,
                    now as int);
                if st.state.role@ == "master"@ {
                    match cls {
                        RouteClass::WriteEndpoint => r == Ok::<bool, String>(true) && final(route_info).write.host@ == spec_prefix_until(node.value.host@, ':') && final(route_info).write.port == node.value.dbport && final(route_info).read == old(route_info).read && final(route_info).cluster_name == old(route_info).cluster_name,
                        RouteClass::Excluded => r == Ok::<bool, String>(false) && *final(route_info) == *old(route_info),
                        _ => r is Err && *final(route_info) == *old(route_info),
                    }
                } else {
                    r == Ok::<bool, String>(false) && *final(route_info) == *old(route_info)
                }
            }),
    {
        let m: String = "master".to_owned();
        if st.state.role == m {
            if node.value.online {
                route_info.set_master_info(node);
                return Ok(true);
            } else {
                match route_info.check_down_status(
                    match &st.check_state {
                        Some(c) => Some(c),
                        None => None,
                    },
                    &st.state.role,
                    &st.failover_rows,
                    now,
                ) {
                    Ok(true) => {
                        route_info.set_master_info(node);
                        return Ok(true);
                    },
                    Ok(false) => {
                        return Ok(false);
                    },
                    Err(e) => {
                        return Err(e);
                    },
                }
            }
        }
        Ok(false)
    }

    /// Lists a healthy, caught-up replica as a read endpoint; an offline
    /// replica stays listed exactly when only its agent is out, since its
    /// data is then presumed current. Maintenance always excludes it.
    pub fn slave_check(
        &self,
        node: &NodeInfo,
        st: &NodeRouteState,
        now: i64,
        route_info: &mut RouteInfo,
    ) -> (r: Result<(), String>)
        requires
            now >= 0,
            forall|j: int| 0 <= j < st.failover_rows@.len() ==> st.failover_rows@[j].time >= 0,
            !(st.state.role@ == "master"@),
        ensures
            ({
                let cls = spec_route_class(*node, *st, self.slave_behind_setting as int,
                    now as int);
                match cls {
                    RouteClass::ReadEndpoint => r is Ok && final(route_info).read@.len() == old(route_info).read@.len() + 1 && final(route_info).read@.drop_last() == old(route_info).read@ && final(route_info).read@.last().host@ == spec_prefix_until(
                        node.value.host@,
                        ':',
                    ) && final(route_info).read@.last().port == node.value.dbport && final(route_info).write == old(route_info).write && final(route_info).cluster_name == old(route_info).cluster_name,
                    RouteClass::Undecidable => r is Err && *final(route_info) == *old(route_info),
                    _ => r is Ok && *final(route_info) == *old(route_info),
                }
            }),
    {
        if node.value.maintain {
            return Ok(());
        }
        let s: String = "slave".to_owned();
        if st.state.role == s {
            if node.value.online {
                if !st.state.sql_thread {
                    return Ok(());
                }
                if !st.state.io_thread {
                    return Ok(());
                }
                if self.slave_behind_setting == 0 {
                    route_info.set_slave_info(node);
                } else if st.state.seconds_behind <= self.slave_behind_setting {
                    route_info.set_slave_info(node);
                }
            } else {
                match route_info.check_down_status(
                    match &st.check_state {
                        Some(c) => Some(c),
                        None => None,
                    },
                    &st.state.role,
                    &st.failover_rows,
                    now,
                ) {
                    Ok(true) => {
                        route_info.set_slave_info(node);
                    },
                    Ok(false) => {},
                    Err(e) => {
                        return Err(e);
                    },
                }
            }
        }
        Ok(())
    }

    /// One route pass over the cluster: every node is classified against
    /// its snapshot, tally and failover records (given in node order),
    /// and a fresh table built. An undecidable node fails the pass, so
    /// the published table stays as it was.
    pub fn route_check(&self, ctx: &Vec<NodeRouteState>, now: i64) -> (r: Result<
        RouteInfo,
        String,
    >)
        requires
            ctx@.len() == self.node_list@.len(),
            now >= 0,
            forall|i: int, j: int|
                0 <= i < ctx@.len() && 0 <= j < ctx@[i].failover_rows@.len()
                    ==> ctx@[i].failover_rows@[j].time >= 0,
        ensures
            r is Ok <==> spec_route_fold(
                self.node_list@,
                ctx@,
                self.slave_behind_setting as int,
                now as int,
            ) is Some,
            r is Ok ==> ({
                let (w, rs) = spec_route_fold(
                    self.node_list@,
                    ctx@,
                    self.slave_behind_setting as int,
                    now as int,
                )->0;
                &&& r->Ok_0.cluster_name == self.cluster_name
                &&& (match w {
                    Some(wi) => r->Ok_0.write.host@ == spec_prefix_until(
                        self.node_list@[wi].value.host@,
                        ':',
                    ) && r->Ok_0.write.port == self.node_list@[wi].value.dbport,
                    None => r->Ok_0.write.host@ == Seq::<char>::empty() && r->Ok_0.write.port
                        == 0,
                })
                &&& spec_endpoints(r->Ok_0.read@) == rs.map_values(
                    |k: int|
                        (
                            spec_prefix_until(self.node_list@[k].value.host@, ':'),
                            self.node_list@[k].value.dbport as int,
                        ),
                )
            }),
    {
        let mut route_info = RouteInfo::new(self.cluster_name.clone());
        let mut i: usize = 0;
        proof {
            assert(spec_endpoints(route_info.read@) =~= Seq::<int>::empty().map_values(
                |k: int|
                    (
                        spec_prefix_until(self.node_list@[k].value.host@, ':'),
                        self.node_list@[k].value.dbport as int,
                    ),
            ));
        }
        while i < self.node_list.len()
            invariant
                0 <= i <= self.node_list@.len(),
                ctx@.len() == self.node_list@.len(),
                now >= 0,
                forall|a: int, j: int|
                    0 <= a < ctx@.len() && 0 <= j < ctx@[a].failover_rows@.len()
                        ==> ctx@[a].failover_rows@[j].time >= 0,
                spec_route_fold(
                    self.node_list@.subrange(0, i as int),
                    ctx@.subrange(0, i as int),
                    self.slave_behind_setting as int,
                    now as int,
                ) is Some,
                ({
                    let (w, rs) = spec_route_fold(
                        self.node_list@.subrange(0, i as int),
                        ctx@.subrange(0, i as int),
                        self.slave_behind_setting as int,
                        now as int,
                    )->0;
                    &&& route_info.cluster_name == self.cluster_name
                    &&& (match w {
                        Some(wi) => route_info.write.host@ == spec_prefix_until(
                            self.node_list@[wi].value.host@,
                            ':',
                        ) && route_info.write.port == self.node_list@[wi].value.dbport,
                        None => route_info.write.host@ == Seq::<char>::empty()
                            && route_info.write.port == 0,
                    })
                    &&& spec_endpoints(route_info.read@) == rs.map_values(
                        |k: int|
                            (
                                spec_prefix_until(self.node_list@[k].value.host@, ':'),
                                self.node_list@[k].value.dbport as int,
                            ),
                    )
                }),
            decreases self.node_list@.len() - i,
        {
            let ghost pre_nodes = self.node_list@.subrange(0, i as int);
            let ghost pre_ctx = ctx@.subrange(0, i as int);
            proof {
                assert(self.node_list@.subrange(0, i as int + 1).drop_last() =~= pre_nodes);
                assert(ctx@.subrange(0, i as int + 1).drop_last() =~= pre_ctx);
            }
            let ghost pre_read = route_info.read@;
            let node = &self.node_list[i];
            let st = &ctx[i];
            let handled = match self.master_check(node, st, now, &mut route_info) {
                Ok(h) => h,
                Err(e) => {
                    proof {
                        lemma_route_fold_none_extends(
                            self.node_list@,
                            ctx@,
                            self.slave_behind_setting as int,
                            now as int,
                            i as int + 1,
                        );
                    }
                    return Err(e);
                },
            };
            if !handled {
                if !(st.state.role == "master".to_owned()) {
                    match self.slave_check(node, st, now, &mut route_info) {
                        Ok(()) => {},
                        Err(e) => {
                            proof {
                                lemma_route_fold_none_extends(
                                    self.node_list@,
                                    ctx@,
                                    self.slave_behind_setting as int,
                                    now as int,
                                    i as int + 1,
                                );
                            }
                            return Err(e);
                        },
                    }
                }
            }
            proof {
                let behind = self.slave_behind_setting as int;
                let cls = spec_route_class(
                    self.node_list@[i as int],
                    ctx@[i as int],
                    behind,
                    now as int,
                );
                let (pw, prs) = spec_route_fold(pre_nodes, pre_ctx, behind, now as int)->0;
                if cls == RouteClass::ReadEndpoint {
                    assert(spec_endpoints(route_info.read@) =~= spec_endpoints(
                        pre_read,
                    ).push(
                        (
                            spec_prefix_until(self.node_list@[i as int].value.host@, ':'),
                            self.node_list@[i as int].value.dbport as int,
                        ),
                    ));
                    assert(prs.push(i as int).map_values(
                        |k: int|
                            (
                                spec_prefix_until(self.node_list@[k].value.host@, ':'),
                                self.node_list@[k].value.dbport as int,
                            ),
                    ) =~= prs.map_values(
                        |k: int|
                            (
                                spec_prefix_until(self.node_list@[k].value.host@, ':'),
                                self.node_list@[k].value.dbport as int,
                            ),
                    ).push(
                        (
                            spec_prefix_until(self.node_list@[i as int].value.host@, ':'),
                            self.node_list@[i as int].value.dbport as int,
                        ),
                    ));
                }
            }
            i += 1;
        }
        proof {
            assert(self.node_list@.subrange(0, self.node_list@.len() as int)
                =~= self.node_list@);
            assert(ctx@.subrange(0, ctx@.len() as int) =~= ctx@);
        }
        Ok(route_info)
    }
}

/// A routing table never lists more than one write endpoint: the table
/// holds a single write slot, so however many nodes a cluster has, the
/// count of write endpoints is at most one.
pub proof fn lemma_single_write_endpoint(r: RouteInfo)
    ensures
        spec_write_count(r) <= 1,
{
}

/// One route pass is a function of its inputs alone: the same nodes,
/// snapshots, tallies, records, threshold and moment yield the same
/// table, so recomputing a table from a fixture is reproducible.
pub proof fn lemma_route_deterministic(
    nodes1: Seq<NodeInfo>,
    ctx1: Seq<NodeRouteState>,
    nodes2: Seq<NodeInfo>,
    ctx2: Seq<NodeRouteState>,
    behind: int,
    now: int,
)
    requires
        nodes1 == nodes2,
        ctx1 == ctx2,
    ensures
        spec_route_fold(nodes1, ctx1, behind, now) == spec_route_fold(nodes2, ctx2, behind, now),
{
}

/// A cluster as a plain value: name, threshold, members.
pub open spec fn spec_cluster_view(c: ClusterNodeInfo) -> (Seq<char>, int, Seq<NodeInfo>) {
    (c.cluster_name@, c.slave_behind_setting as int, c.node_list@)
}

/// The first group carrying `name`, or -1.
pub open spec fn spec_find_group(gs: Seq<(Seq<char>, int, Seq<NodeInfo>)>, name: Seq<char>) -> int
    decreases gs.len(),
{
    if gs.len() == 0 {
        -1
    } else if gs[0].0 == name {
        0
    } else {
        let r = spec_find_group(gs.drop_first(), name);
        if r == -1 {
            -1
        } else {
            1 + r
        }
    }
}

proof fn lemma_find_group_at(gs: Seq<(Seq<char>, int, Seq<NodeInfo>)>, name: Seq<char>, i: int)
    requires
        0 <= i < gs.len(),
        gs[i].0 == name,
        forall|j: int| 0 <= j < i ==> (#[trigger] gs[j].0) != name,
    ensures
        spec_find_group(gs, name) == i,
    decreases i,
{
    if i > 0 {
        let t = gs.drop_first();
        assert(forall|j: int| 0 <= j < i - 1 ==> t[j] == #[trigger] gs[j + 1]);
        lemma_find_group_at(t, name, i - 1);
    }
}

proof fn lemma_find_group_none(gs: Seq<(Seq<char>, int, Seq<NodeInfo>)>, name: Seq<char>)
    requires
        forall|j: int| 0 <= j < gs.len() ==> (#[trigger] gs[j].0) != name,
    ensures
        spec_find_group(gs, name) == -1,
    decreases gs.len(),
{
    if gs.len() > 0 {
        let t = gs.drop_first();
        assert(forall|j: int| 0 <= j < t.len() ==> t[j] == #[trigger] gs[j + 1]);
        lemma_find_group_none(t, name);
    }
}

/// The lag threshold configured for `name`: the first matching setting's
/// value, or 100 seconds where none is configured.
pub open spec fn spec_delay_of(settings: Seq<SlaveBehindSetting>, name: Seq<char>) -> int
    decreases settings.len(),
{
    if settings.len() == 0 {
        100
    } else if settings[0].cluster_name@ == name {
        settings[0].delay as int
    } else {
        spec_delay_of(settings.drop_first(), name)
    }
}

fn delay_of_from(settings: &Vec<SlaveBehindSetting>, name: &String, i: usize) -> (r: usize)
    requires
        0 <= i <= settings@.len(),
    ensures
        r == spec_delay_of(settings@.skip(i as int), name@),
    decreases settings@.len() - i,
{
    if i == settings.len() {
        return 100;
    }
    proof {
        assert(settings@.skip(i as int)[0] == settings@[i as int]);
        assert(settings@.skip(i as int).drop_first() =~= settings@.skip(i as int + 1));
    }
    if settings[i].cluster_name == *name {
        settings[i].delay
    } else {
        delay_of_from(settings, name, i + 1)
    }
}

/// Looks a cluster's lag threshold up, 100 where none is configured.
pub fn delay_of(settings: &Vec<SlaveBehindSetting>, name: &String) -> (r: usize)
    ensures
        r == spec_delay_of(settings@, name@),
{
    proof {
        assert(settings@.skip(0) =~= settings@);
    }
    delay_of_from(settings, name, 0)
}

/// The registered nodes grouped by cluster, routing-only nodes left out;
/// each new group takes its lag threshold from the settings, or 100.
pub open spec fn spec_group(nodes: Seq<NodeInfo>, settings: Seq<SlaveBehindSetting>) -> Seq<
    (Seq<char>, int, Seq<NodeInfo>),
>
    decreases nodes.len(),
{
    if nodes.len() == 0 {
        Seq::empty()
    } else {
        let g = spec_group(nodes.drop_last(), settings);
        let n = nodes.last();
        if n.value.rtype@ == "route"@ {
            g
        } else {
            let k = spec_find_group(g, n.value.cluster_name@);
            if k >= 0 {
                g.update(k, (g[k].0, g[k].1, g[k].2.push(n)))
            } else {
                g.push(
                    (
                        n.value.cluster_name@,
                        spec_delay_of(settings, n.value.cluster_name@),
                        seq![n],
                    ),
                )
            }
        }
    }
}

/// Every cluster's nodes, grouped for one route pass.
#[derive(Debug)]
pub struct AllNode {
    pub nodes: Vec<ClusterNodeInfo>,
}

impl AllNode {
    /// Groups the registered nodes by cluster, leaving routing-only
    /// nodes out and taking each cluster's lag threshold from the
    /// settings.
    pub fn new(nodes: &Vec<NodeInfo>, settings: &Vec<SlaveBehindSetting>) -> (r: AllNode)
        ensures
            r.nodes@.map_values(|c: ClusterNodeInfo| spec_cluster_view(c)) == spec_group(
                nodes@,
                settings@,
            ),
    {
        let mut acc: Vec<ClusterNodeInfo> = Vec::new();
        let mut i: usize = 0;
        proof {
            assert(acc@.map_values(|c: ClusterNodeInfo| spec_cluster_view(c)) =~= spec_group(
                nodes@.subrange(0, 0),
                settings@,
            ));
        }
        while i < nodes.len()
            invariant
                0 <= i <= nodes@.len(),
                acc@.map_values(|c: ClusterNodeInfo| spec_cluster_view(c)) == spec_group(
                    nodes@.subrange(0, i as int),
                    settings@,
                ),
            decreases nodes@.len() - i,
        {
            let ghost pre = acc@.map_values(|c: ClusterNodeInfo| spec_cluster_view(c));
            proof {
                assert(nodes@.subrange(0, i as int + 1).drop_last() =~= nodes@.subrange(
                    0,
                    i as int,
                ));
            }
            let route_kind: String = "route".to_owned();
            if !(nodes[i].value.rtype == route_kind) {
                let mut j: usize = 0;
                while j < acc.len() && !(acc[j].cluster_name == nodes[i].value.cluster_name)
                    invariant
                        0 <= j <= acc@.len(),
                        forall|k: int|
                            0 <= k < j ==> (#[trigger] acc@[k].cluster_name@) != nodes@[i as int
                            ].value.cluster_name@,
                        i < nodes@.len(),
                    decreases acc@.len() - j,
                {
                    j += 1;
                }
                if j < acc.len() {
                    proof {
                        assert(forall|k: int|
                            0 <= k < pre.len() ==> (#[trigger] pre[k].0) == acc@[k
                            ].cluster_name@);
                        lemma_find_group_at(pre, nodes@[i as int].value.cluster_name@, j as int);
                    }
                    acc[j].update(&nodes[i]);
                    proof {
                        assert(acc@.map_values(|c: ClusterNodeInfo| spec_cluster_view(c))
                            =~~= pre.update(
                            j as int,
                            (pre[j as int].0, pre[j as int].1, pre[j as int].2.push(
                                nodes@[i as int],
                            )),
                        ));
                    }
                } else {
                    proof {
                        assert(forall|k: int|
                            0 <= k < pre.len() ==> (#[trigger] pre[k].0) == acc@[k
                            ].cluster_name@);
                        lemma_find_group_none(pre, nodes@[i as int].value.cluster_name@);
                    }
                    let delay = delay_of(settings, &nodes[i].value.cluster_name);
                    let cn = ClusterNodeInfo::new(&nodes[i], delay);
                    acc.push(cn);
                    proof {
                        assert(acc@.map_values(|c: ClusterNodeInfo| spec_cluster_view(c))
                            =~~= pre.push(
                            (
                                nodes@[i as int].value.cluster_name@,
                                spec_delay_of(settings@, nodes@[i as int].value.cluster_name@),
                                seq![nodes@[i as int]],
                            ),
                        ));
                    }
                }
            }
            i += 1;
        }
        proof {
            assert(nodes@.subrange(0, nodes@.len() as int) =~= nodes@);
        }
        AllNode { nodes: acc }
    }

    /// Whether a computed table may replace the published one: only with
    /// a write endpoint; without one the pass is retried, so the table
    /// never goes empty during the brief failover window.
    pub fn should_publish(&self, rinfo: &RouteInfo) -> (r: bool)
        ensures
            r == (rinfo.write.host@.len() > 0),
    {
        rinfo.write.host.as_str().unicode_len() > 0
    }
}

} // verus!
