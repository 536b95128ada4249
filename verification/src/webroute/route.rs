//! Administrative requests on nodes, users, rollback data and manual
//! switchover, and the computations answering them.

use vstd::prelude::*;
use vstd::multiset::Multiset;
use vstd::seq_lib::group_to_multiset_ensures;
use crate::ha::nodes_manager::{DifferenceSql, SqlRelation};
use crate::storage::opdb::{HaChangeLog, HostInfoValue, UserInfo};
use crate::storage::rocks::RowValue;
use crate::strutil::{spec_starts_with, spec_u64_dec, str_starts_with, i64_to_string};

verus! {

/// A node registration request.
#[derive(Debug)]
pub struct HostInfo {
    pub host: String,
    pub rtype: String,
    pub dbport: usize,
    pub cluster_name: String,
}

/// An edit of a node's identity, port and cluster.
pub struct EditInfo {
    pub cluster_name: String,
    pub host: String,
    pub dbport: usize,
    pub role: String,
    pub online: bool,
}

/// A maintenance-mode toggle; `maintain` carries the mode the node
/// leaves.
pub struct EditMainTain {
    pub host: String,
    pub maintain: String,
}

/// A node deletion request.
pub struct DeleteNode {
    pub host: String,
}

impl DeleteNode {
    /// Only a node under maintenance may be deleted; anything else is
    /// rejected with no effect.
    pub fn permitted(&self, value: &HostInfoValue) -> (r: Result<(), String>)
        ensures
            r is Ok <==> value.maintain,
    {
        if value.maintain {
            Ok(())
        } else {
            Err("the maintenance mode node is only deleted".to_owned())
        }
    }
}

/// A manual switchover request: the replica to promote.
#[derive(Debug)]
pub struct SwitchInfo {
    pub host: String,
}

/// Credentials of a user request.
pub struct PostUserInfo {
    pub user_name: String,
    pub password: String,
}

/// A logout request.
pub struct PostUser {
    pub user_name: String,
}

/// One failover record with the store key it lies under.
pub struct RowLog {
    pub row_key: String,
    pub data: HaChangeLog,
}

/// A failover record joined with its key.
pub open spec fn spec_row_log(r: RowValue<HaChangeLog>) -> RowLog {
    RowLog { row_key: r.key, data: r.value }
}

/// The whole switch history, as the log page shows it.
pub struct SwitchLog {
    pub log_data: Vec<RowLog>,
}

impl SwitchLog {
    pub fn new() -> (r: SwitchLog)
        ensures
            r.log_data@.len() == 0,
    {
        SwitchLog { log_data: Vec::new() }
    }

    /// Takes every failover record over, in store order.
    pub fn get_all(&mut self, rows: Vec<RowValue<HaChangeLog>>)
        ensures
            final(self).log_data@ == old(self).log_data@ + rows@.map_values(
                |r: RowValue<HaChangeLog>| spec_row_log(r),
            ),
    {
        let ghost orig = rows@;
        let mut rows = rows;
        while rows.len() > 0
            invariant
                rows@.len() <= orig.len(),
                rows@ == orig.subrange(
                    orig.len() - rows@.len(),
                    orig.len() as int,
                ),
                self.log_data@ == old(self).log_data@ + orig.subrange(
                    0,
                    orig.len() - rows@.len(),
                ).map_values(|r: RowValue<HaChangeLog>| spec_row_log(r)),
            decreases rows@.len(),
        {
            let ghost k = orig.len() - rows@.len();
            let row = rows.remove(0);
            proof {
                assert(row == orig[k]);
                assert(rows@ =~= orig.subrange(k + 1, orig.len() as int));
            }
            self.log_data.push(RowLog { row_key: row.key, data: row.value });
            proof {
                assert(self.log_data@ =~= old(self).log_data@ + orig.subrange(0, k + 1).map_values(
                    |r: RowValue<HaChangeLog>| spec_row_log(r),
                ));
            }
        }
        proof {
            assert(orig.subrange(0, orig.len() as int) =~= orig);
        }
    }
}

/// The published tables a routing consumer asked for.
pub struct ResponseRouteInfo {
    pub route: Vec<crate::ha::route_manager::RouteInfo>,
}

/// A routing consumer's request: its access id and the clusters it
/// wants.
pub struct GetRouteInfo {
    pub hook_id: String,
    pub clusters: Vec<String>,
}

/// A user account as the interface shows it, without the password.
pub struct GetUserInfo {
    pub user_name: String,
    pub hook_id: String,
    pub create_time: i64,
    pub update_time: i64,
}

impl GetUserInfo {
    pub fn new(user_info: &UserInfo) -> (r: GetUserInfo)
        ensures
            r.user_name == user_info.user_name,
            r.hook_id == user_info.hook_id,
            r.create_time == user_info.create_time,
            r.update_time == user_info.update_time,
    {
        GetUserInfo {
            user_name: user_info.user_name.clone(),
            hook_id: user_info.hook_id.clone(),
            create_time: user_info.create_time,
            update_time: user_info.update_time,
        }
    }
}

/// Asks for the rollback data of one cluster.
#[derive(Debug)]
pub struct GetSql {
    pub cluster_name: String,
}

/// One rollback statement pair as the review page lists it: the set's
/// identity and one numbered pair with its flags.
#[derive(Debug)]
pub struct ResponseSql {
    pub cluster_name: String,
    pub host: String,
    pub time: i64,
    pub number: u64,
    pub current: String,
    pub rollback: String,
    pub carried: bool,
    pub confirm: bool,
}

impl ResponseSql {
    pub fn new(info: &DifferenceSql) -> (r: ResponseSql)
        ensures
            r.cluster_name == info.cluster,
            r.host == info.host,
            r.time == info.time,
            r.number == 0,
            r.current@ == Seq::<char>::empty(),
            r.rollback@ == Seq::<char>::empty(),
            !r.carried,
            !r.confirm,
    {
        ResponseSql {
            cluster_name: info.cluster.clone(),
            host: info.host.clone(),
            time: info.time,
            number: 0,
            current: String::new(),
            rollback: String::new(),
            carried: false,
            confirm: false,
        }
    }

    /// Fills one statement pair in.
    pub fn append_sql_info(&mut self, info: &SqlRelation)
        ensures
            final(self).number == info.number,
            final(self).current == info.current,
            final(self).rollback == info.rollback,
            final(self).carried == info.carried,
            final(self).confirm == info.confirm,
            final(self).cluster_name == old(self).cluster_name,
            final(self).host == old(self).host,
            final(self).time == old(self).time,
    {
        self.number = info.number;
        self.current = info.current.clone();
        self.rollback = info.rollback.clone();
        self.carried = info.carried;
        self.confirm = info.confirm;
    }
}

/// The entries one rollback set contributes, in pair order.
pub open spec fn spec_row_sqls(d: DifferenceSql) -> Seq<ResponseSql> {
    Seq::new(
        d.sqls@.len(),
        |j: int|
            ResponseSql {
                cluster_name: d.cluster,
                host: d.host,
                time: d.time,
                number: d.sqls@[j].number,
                current: d.sqls@[j].current,
                rollback: d.sqls@[j].rollback,
                carried: d.sqls@[j].carried,
                confirm: d.sqls@[j].confirm,
            },
    )
}

/// Every entry of every rollback set, in store order.
pub open spec fn spec_all_sql_rows(rows: Seq<RowValue<DifferenceSql>>) -> Seq<ResponseSql>
    decreases rows.len(),
{
    if rows.len() == 0 {
        Seq::empty()
    } else {
        spec_all_sql_rows(rows.drop_last()) + spec_row_sqls(rows.last().value)
    }
}

/// Whether the entries stand newest first.
pub open spec fn spec_sorted_by_time_desc(s: Seq<ResponseSql>) -> bool {
    forall|i: int, j: int| 0 <= i < j < s.len() ==> s[i].time >= s[j].time
}

fn max_time_from(v: &Vec<ResponseSql>, i: usize) -> (r: usize)
    requires
        0 <= i < v@.len(),
    ensures
        i <= r < v@.len(),
        forall|j: int| i <= j < v@.len() ==> (#[trigger] v@[j].time) <= v@[r as int].time,
    decreases v@.len() - i,
{
    if i == v.len() - 1 {
        return i;
    }
    let rest = max_time_from(v, i + 1);
    if v[i].time >= v[rest].time {
        i
    } else {
        rest
    }
}

/// Orders the entries newest first; the result holds exactly the given
/// entries.
fn sort_by_time_desc(v: Vec<ResponseSql>) -> (r: Vec<ResponseSql>)
    ensures
        spec_sorted_by_time_desc(r@),
        r@.to_multiset() == v@.to_multiset(),
        r@.len() == v@.len(),
{
    broadcast use group_to_multiset_ensures;
    broadcast use vstd::multiset::group_multiset_axioms;

    let ghost orig = v@;
    let mut src = v;
    let mut out: Vec<ResponseSql> = Vec::new();
    while src.len() > 0
        invariant
            spec_sorted_by_time_desc(out@),
            out@.to_multiset().add(src@.to_multiset()) =~= orig.to_multiset(),
            out@.len() + src@.len() == orig.len(),
            forall|a: int, b: int|
                0 <= a < out@.len() && 0 <= b < src@.len() ==> (#[trigger] out@[a].time)
                    >= (#[trigger] src@[b].time),
        decreases src@.len(),
    {
        let mi = max_time_from(&src, 0);
        let ghost pre_src = src@;
        let ghost pre_out = out@;
        let x = src.remove(mi);
        out.push(x);
        proof {
            pre_src.to_multiset_ensures();
            pre_out.to_multiset_ensures();
            assert(pre_src[mi as int] == x);
            assert(pre_src.contains(x));
            assert(pre_src.remove(mi as int).to_multiset() =~= pre_src.to_multiset().remove(x));
            assert(pre_out.push(x).to_multiset() =~= pre_out.to_multiset().insert(x));
            assert(pre_src.to_multiset().contains(x));
            assert(out@.to_multiset().add(src@.to_multiset()) =~= orig.to_multiset());
            assert forall|b: int| 0 <= b < src@.len() implies x.time >= (#[trigger] src@[b].time)
                by {
                if b < mi {
                    assert(src@[b] == pre_src[b]);
                } else {
                    assert(src@[b] == pre_src[b + 1]);
                }
            }
        }
    }
    proof {
        src@.to_multiset_ensures();
        assert(src@.to_multiset() =~= Multiset::<ResponseSql>::empty());
        assert(out@.to_multiset() =~= orig.to_multiset());
    }
    out
}

/// Every open rollback entry, newest set first.
#[derive(Debug)]
pub struct ResponseAllSql {
    pub total: usize,
    pub sql_info: Vec<ResponseSql>,
}

impl ResponseAllSql {
    pub fn new() -> (r: ResponseAllSql)
        ensures
            r.total == 0,
            r.sql_info@.len() == 0,
    {
        ResponseAllSql { total: 0, sql_info: Vec::new() }
    }

    /// Flattens the rollback sets into one list of entries, newest set
    /// first.
    pub fn init_sql_info(&mut self, rows: &Vec<RowValue<DifferenceSql>>) -> (r: Result<
        (),
        String,
    >)
        requires
            spec_all_sql_rows(rows@).len() <= usize::MAX,
        ensures
            r is Ok,
            final(self).total == spec_all_sql_rows(rows@).len(),
            final(self).sql_info@.len() == spec_all_sql_rows(rows@).len(),
            final(self).sql_info@.to_multiset() == spec_all_sql_rows(rows@).to_multiset(),
            spec_sorted_by_time_desc(final(self).sql_info@),
    {
        let mut sql_vec: Vec<ResponseSql> = Vec::new();
        let mut total: usize = 0;
        let mut i: usize = 0;
        proof {
            lemma_all_sql_rows_len(rows@, 0);
        }
        while i < rows.len()
            invariant
                0 <= i <= rows@.len(),
                sql_vec@ == spec_all_sql_rows(rows@.subrange(0, i as int)),
                total == sql_vec@.len(),
                spec_all_sql_rows(rows@).len() <= usize::MAX,
                spec_all_sql_rows(rows@.subrange(0, i as int)).len() <= spec_all_sql_rows(
                    rows@,
                ).len(),
            decreases rows@.len() - i,
        {
            proof {
                assert(rows@.subrange(0, i as int + 1).drop_last() =~= rows@.subrange(
                    0,
                    i as int,
                ));
                lemma_all_sql_rows_len(rows@, i as int + 1);
            }
            let row = &rows[i];
            let mut j: usize = 0;
            while j < row.value.sqls.len()
                invariant
                    0 <= j <= row.value.sqls@.len(),
                    row == rows@[i as int],
                    i < rows@.len(),
                    sql_vec@ == spec_all_sql_rows(rows@.subrange(0, i as int)) + spec_row_sqls(
                        rows@[i as int].value,
                    ).subrange(0, j as int),
                    total == sql_vec@.len(),
                    spec_all_sql_rows(rows@.subrange(0, i as int)).len() + spec_row_sqls(
                        rows@[i as int].value,
                    ).len() <= usize::MAX,
                decreases row.value.sqls@.len() - j,
            {
                let mut res_all = ResponseSql::new(&row.value);
                res_all.append_sql_info(&row.value.sqls[j]);
                sql_vec.push(res_all);
                total += 1;
                proof {
                    assert(sql_vec@ =~= spec_all_sql_rows(rows@.subrange(0, i as int))
                        + spec_row_sqls(rows@[i as int].value).subrange(0, j as int + 1));
                }
                j += 1;
            }
            proof {
                assert(spec_row_sqls(rows@[i as int].value).subrange(
                    0,
                    spec_row_sqls(rows@[i as int].value).len() as int,
                ) =~= spec_row_sqls(rows@[i as int].value));
                assert(sql_vec@ =~= spec_all_sql_rows(rows@.subrange(0, i as int + 1)));
            }
            i += 1;
        }
        proof {
            assert(rows@.subrange(0, rows@.len() as int) =~= rows@);
        }
        let sorted = sort_by_time_desc(sql_vec);
        self.sql_info = sorted;
        self.total = total;
        Ok(())
    }
}

proof fn lemma_all_sql_rows_len(rows: Seq<RowValue<DifferenceSql>>, i: int)
    requires
        0 <= i <= rows.len(),
    ensures
        spec_all_sql_rows(rows.subrange(0, i)).len() <= spec_all_sql_rows(rows).len(),
    decreases rows.len() - i,
{
    if i == rows.len() {
        assert(rows.subrange(0, i) =~= rows);
    } else {
        assert(rows.subrange(0, i + 1).drop_last() =~= rows.subrange(0, i));
        lemma_all_sql_rows_len(rows, i + 1);
    }
}

/// One approved statement to replay on its cluster's primary.
#[derive(Debug)]
pub struct PushSqlInfo {
    pub cluster_name: String,
    pub host: String,
    pub time: i64,
    pub number: u64,
    pub sql: String,
}

/// Every statement an operator approved for replay.
#[derive(Debug)]
pub struct PushSqlAll {
    pub sql_info: Vec<PushSqlInfo>,
}

/// The statements of one cluster gathered for a single replay call,
/// with the marks to set afterwards.
#[derive(Debug)]
pub struct ExtractSql {
    pub cluster_name: String,
    pub sqls: Vec<String>,
    pub markinfo: Vec<MarkSqlInfo>,
}

impl ExtractSql {
    pub fn new() -> (r: ExtractSql)
        ensures
            r.cluster_name@ == Seq::<char>::empty(),
            r.sqls@.len() == 0,
            r.markinfo@.len() == 0,
    {
        ExtractSql { cluster_name: String::new(), sqls: Vec::new(), markinfo: Vec::new() }
    }
}

/// A replay group as plain values.
pub open spec fn spec_extract_view(e: ExtractSql) -> (Seq<char>, Seq<String>, Seq<MarkSqlInfo>) {
    (e.cluster_name@, e.sqls@, e.markinfo@)
}

/// The mark an approved statement leaves once replayed.
pub open spec fn spec_mark_of(info: PushSqlInfo) -> MarkSqlInfo {
    MarkSqlInfo {
        cluster_name: info.cluster_name,
        host: info.host,
        time: info.time,
        number: info.number,
    }
}

/// The first group carrying `name`, or -1.
pub open spec fn spec_find_extract(
    gs: Seq<(Seq<char>, Seq<String>, Seq<MarkSqlInfo>)>,
    name: Seq<char>,
) -> int
    decreases gs.len(),
{
    if gs.len() == 0 {
        -1
    } else if gs[0].0 == name {
        0
    } else {
        let r = spec_find_extract(gs.drop_first(), name);
        if r == -1 {
            -1
        } else {
            1 + r
        }
    }
}

proof fn lemma_find_extract_at(
    gs: Seq<(Seq<char>, Seq<String>, Seq<MarkSqlInfo>)>,
    name: Seq<char>,
    i: int,
)
    requires
        0 <= i < gs.len(),
        gs[i].0 == name,
        forall|j: int| 0 <= j < i ==> (#[trigger] gs[j].0) != name,
    ensures
        spec_find_extract(gs, name) == i,
    decreases i,
{
    if i > 0 {
        let t = gs.drop_first();
        assert(forall|j: int| 0 <= j < i - 1 ==> t[j] == #[trigger] gs[j + 1]);
        lemma_find_extract_at(t, name, i - 1);
    }
}

proof fn lemma_find_extract_none(
    gs: Seq<(Seq<char>, Seq<String>, Seq<MarkSqlInfo>)>,
    name: Seq<char>,
)
    requires
        forall|j: int| 0 <= j < gs.len() ==> (#[trigger] gs[j].0) != name,
    ensures
        spec_find_extract(gs, name) == -1,
    decreases gs.len(),
{
    if gs.len() > 0 {
        let t = gs.drop_first();
        assert(forall|j: int| 0 <= j < t.len() ==> t[j] == #[trigger] gs[j + 1]);
        lemma_find_extract_none(t, name);
    }
}

/// The approved statements grouped by cluster, and the clusters already
/// replayed.
#[derive(Debug)]
pub struct ExtractAll {
    pub info: Vec<ExtractSql>,
    pub success_cluster: Vec<String>,
}

impl ExtractAll {
    pub fn new() -> (r: ExtractAll)
        ensures
            r.info@.len() == 0,
            r.success_cluster@.len() == 0,
    {
        ExtractAll { info: Vec::new(), success_cluster: Vec::new() }
    }

    /// Sorts one approved statement into its cluster's replay group,
    /// opening the group when the cluster is new.
    pub fn extract(&mut self, info: &PushSqlInfo)
        ensures
            final(self).success_cluster == old(self).success_cluster,
            final(self).info@.map_values(|e: ExtractSql| spec_extract_view(e)) == ({
                let gs = old(self).info@.map_values(|e: ExtractSql| spec_extract_view(e));
                let k = spec_find_extract(gs, info.cluster_name@);
                if k >= 0 {
                    gs.update(k, (gs[k].0, gs[k].1.push(info.sql), gs[k].2.push(spec_mark_of(
                        *info,
                    ))))
                } else {
                    gs.push(
                        (
                            info.cluster_name@,
                            seq![info.sql],
                            seq![spec_mark_of(*info)],
                        ),
                    )
                }
            }),
    {
        let ghost gs = self.info@.map_values(|e: ExtractSql| spec_extract_view(e));
        let mark_info = MarkSqlInfo {
            cluster_name: info.cluster_name.clone(),
            host: info.host.clone(),
            time: info.time,
            number: info.number,
        };
        let mut j: usize = 0;
        while j < self.info.len() && !(self.info[j].cluster_name == info.cluster_name)
            invariant
                0 <= j <= self.info@.len(),
                forall|k: int|
                    0 <= k < j ==> (#[trigger] self.info@[k].cluster_name@)
                        != info.cluster_name@,
                *self == *old(self),
            decreases self.info@.len() - j,
        {
            j += 1;
        }
        proof {
            assert(forall|k: int|
                0 <= k < gs.len() ==> (#[trigger] gs[k].0) == old(self).info@[k].cluster_name@);
        }
        if j < self.info.len() {
            proof {
                lemma_find_extract_at(gs, info.cluster_name@, j as int);
            }
            self.info[j].sqls.push(info.sql.clone());
            self.info[j].markinfo.push(mark_info);
            proof {
                assert(self.info@.map_values(|e: ExtractSql| spec_extract_view(e)) =~~= gs.update(
                    j as int,
                    (gs[j as int].0, gs[j as int].1.push(info.sql), gs[j as int].2.push(
                        spec_mark_of(*info),
                    )),
                ));
            }
        } else {
            proof {
                lemma_find_extract_none(gs, info.cluster_name@);
            }
            let mut extra = ExtractSql::new();
            extra.sqls.push(info.sql.clone());
            extra.markinfo.push(mark_info);
            extra.cluster_name = info.cluster_name.clone();
            self.info.push(extra);
            proof {
                assert(self.info@.map_values(|e: ExtractSql| spec_extract_view(e)) =~~= gs.push(
                    (info.cluster_name@, seq![info.sql], seq![spec_mark_of(*info)]),
                ));
            }
        }
    }

    /// Records a cluster whose statements all replayed.
    pub fn push_sql(&mut self, cluster_name: &String)
        ensures
            final(self).success_cluster@ == old(self).success_cluster@.push(*cluster_name),
            final(self).info == old(self).info,
    {
        self.success_cluster.push(cluster_name.clone());
    }

    /// Finds the registered node serving as a cluster's primary: the
    /// first whose store key opens with the published write address and
    /// whose cluster matches.
    pub fn get_master_info(
        &self,
        cluster_name: &String,
        route_info: &crate::ha::route_manager::RouteInfo,
        nodes: &Vec<RowValue<HostInfoValue>>,
    ) -> (r: Result<String, String>)
        ensures
            r is Ok <==> spec_find_master(nodes@, route_info.write.host@, cluster_name@)
                is Some,
            r is Ok ==> Some(r->Ok_0) == spec_find_master(
                nodes@,
                route_info.write.host@,
                cluster_name@,
            ),
    {
        proof {
            assert(nodes@.skip(0) =~= nodes@);
        }
        match find_master_from(nodes, &route_info.write.host, cluster_name, 0) {
            Some(key) => Ok(key),
            None => Err("could not get master information for this cluster".to_owned()),
        }
    }
}

/// The first registered node whose key opens with the write address and
/// whose cluster matches, by key.
pub open spec fn spec_find_master(
    nodes: Seq<RowValue<HostInfoValue>>,
    write_host: Seq<char>,
    cluster: Seq<char>,
) -> Option<String>
    decreases nodes.len(),
{
    if nodes.len() == 0 {
        None
    } else if spec_starts_with(nodes[0].key@, write_host) && nodes[0].value.cluster_name@
        == cluster {
        Some(nodes[0].key)
    } else {
        spec_find_master(nodes.drop_first(), write_host, cluster)
    }
}

fn find_master_from(
    nodes: &Vec<RowValue<HostInfoValue>>,
    write_host: &String,
    cluster: &String,
    i: usize,
) -> (r: Option<String>)
    requires
        0 <= i <= nodes@.len(),
    ensures
        r == spec_find_master(nodes@.skip(i as int), write_host@, cluster@),
    decreases nodes@.len() - i,
{
    if i == nodes.len() {
        return None;
    }
    proof {
        assert(nodes@.skip(i as int)[0] == nodes@[i as int]);
        assert(nodes@.skip(i as int).drop_first() =~= nodes@.skip(i as int + 1));
    }
    if str_starts_with(nodes[i].key.as_str(), write_host.as_str()) && nodes[i].value.cluster_name
        == *cluster {
        Some(nodes[i].key.clone())
    } else {
        find_master_from(nodes, write_host, cluster, i + 1)
    }
}

/// Names one statement pair to mark as confirmed.
#[derive(Debug)]
pub struct MarkSqlInfo {
    pub cluster_name: String,
    pub host: String,
    pub time: i64,
    pub number: u64,
}

impl MarkSqlInfo {
    /// The record key of the rollback set this mark belongs to.
    pub fn mark_key(&self) -> (r: String)
        requires
            self.time >= 0,
        ensures
            r@ == self.cluster_name@ + ":"@ + self.host@ + "_"@ + spec_u64_dec(
                self.time as nat,
            ),
    {
        let mut k = self.cluster_name.clone();
        k.append(":");
        k.append(self.host.as_str());
        k.append("_");
        let ts = i64_to_string(self.time);
        k.append(ts.as_str());
        k
    }
}

/// Every pair an operator marked at once.
#[derive(Debug)]
pub struct MarkSqlAll {
    pub sql_info: Vec<MarkSqlInfo>,
}

} // verus!
