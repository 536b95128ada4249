//! The failure-handling core: the quorum tally that classifies a suspected
//! outage, the election of the most-caught-up replica with the switch plan
//! that follows, the recovery of a node that returns after a failover, and
//! the manual switchover. Everything here decides; the loops that probe,
//! fan out and send stand outside and hand the results in.

use vstd::prelude::*;
use crate::ha::procotol::{
    BinlogValue, ChangeMasterInfo, DownNodeCheck, DownNodeCheckStatus, GetRecoveryInfo,
    HostInfoValueGetAllState, MysqlState, RecoveryInfo, ReplicationState, RowsSql, SyncBinlogInfo,
    TractionValue,
};
use crate::storage::opdb::{HaChangeLog, HostInfoValue};
use crate::strutil::spec_prefix_until;

verus! {

/// One statement of a divergent transaction and the statement that rolls
/// it back, with its approval state: `carried` once replayed, `confirm`
/// once an operator approved it.
#[derive(Debug, Clone)]
pub struct SqlRelation {
    pub number: u64,
    pub current: String,
    pub rollback: String,
    pub carried: bool,
    pub confirm: bool,
}

impl SqlRelation {
    pub fn new(cur: &String, rollback: &String, num: &u64) -> (r: SqlRelation)
        ensures
            r.number == *num,
            r.current == *cur,
            r.rollback == *rollback,
            !r.carried,
            !r.confirm,
    {
        SqlRelation {
            number: *num,
            current: cur.clone(),
            rollback: rollback.clone(),
            carried: false,
            confirm: false,
        }
    }
}

/// How many statements the divergent transactions hold in all.
pub open spec fn spec_total_stmts(sqls: Seq<TractionValue>) -> int
    decreases sqls.len(),
{
    if sqls.len() == 0 {
        0
    } else {
        spec_total_stmts(sqls.drop_last()) + sqls.last().cur_sql@.len()
    }
}

/// The statement pairs of one transaction, numbered from `num0 + 1` on.
pub open spec fn spec_relation_pairs(t: TractionValue, num0: int) -> Seq<SqlRelation> {
    Seq::new(
        t.cur_sql@.len(),
        |i: int|
            SqlRelation {
                number: (num0 + 1 + i) as u64,
                current: t.cur_sql@[i],
                rollback: t.rollback_sql@[i],
                carried: false,
                confirm: false,
            },
    )
}

/// Every statement pair of the transactions, numbered consecutively from 1.
pub open spec fn spec_relations(sqls: Seq<TractionValue>) -> Seq<SqlRelation>
    decreases sqls.len(),
{
    if sqls.len() == 0 {
        Seq::empty()
    } else {
        spec_relations(sqls.drop_last()) + spec_relation_pairs(
            sqls.last(),
            spec_total_stmts(sqls.drop_last()),
        )
    }
}

proof fn lemma_total_stmts_nonneg(sqls: Seq<TractionValue>)
    ensures
        spec_total_stmts(sqls) >= 0,
    decreases sqls.len(),
{
    if sqls.len() > 0 {
        lemma_total_stmts_nonneg(sqls.drop_last());
    }
}

proof fn lemma_relations_len(sqls: Seq<TractionValue>)
    ensures
        spec_relations(sqls).len() == spec_total_stmts(sqls),
    decreases sqls.len(),
{
    if sqls.len() > 0 {
        lemma_relations_len(sqls.drop_last());
        lemma_total_stmts_nonneg(sqls.drop_last());
    }
}

/// How many pairs carry the operator's approval.
pub open spec fn spec_confirmed_count(s: Seq<SqlRelation>) -> int
    decreases s.len(),
{
    if s.len() == 0 {
        0
    } else {
        spec_confirmed_count(s.drop_last()) + if s.last().confirm {
            1int
        } else {
            0int
        }
    }
}

/// The divergent data one failover recovery produced on one node: every
/// (statement, rollback) pair, each approved one at a time, and a flag
/// that records when all of them are resolved.
#[derive(Debug)]
pub struct DifferenceSql {
    /// The node that produced the data.
    pub host: String,
    /// What the node did with the statements: rolled them back or kept
    /// them for appending.
    pub etype: String,
    pub cluster: String,
    /// How many pairs there are.
    pub total: usize,
    pub sqls: Vec<SqlRelation>,
    pub time: i64,
    /// 1 once every pair is confirmed, 0 while any is open.
    pub status: u8,
}

impl DifferenceSql {
    /// Numbers every statement pair of a resynchronization response
    /// consecutively, none yet replayed or confirmed.
    pub fn new(row_sql: &RowsSql, host: &String) -> (r: Result<DifferenceSql, String>)
        requires
            forall|i: int|
                0 <= i < row_sql.sqls@.len() ==> row_sql.sqls@[i].rollback_sql@.len()
                    >= row_sql.sqls@[i].cur_sql@.len(),
            spec_total_stmts(row_sql.sqls@) <= usize::MAX,
            spec_total_stmts(row_sql.sqls@) <= u64::MAX,
        ensures
            r is Ok,
            r->Ok_0.host == *host,
            r->Ok_0.etype == row_sql.etype,
            r->Ok_0.cluster@ == Seq::<char>::empty(),
            r->Ok_0.sqls@ == spec_relations(row_sql.sqls@),
            r->Ok_0.total == spec_total_stmts(row_sql.sqls@),
            r->Ok_0.status == 0,
    {
        let mut sqls: Vec<SqlRelation> = Vec::new();
        let mut num: u64 = 0;
        let mut k: usize = 0;
        proof {
            lemma_total_stmts_nonneg(row_sql.sqls@);
        }
        while k < row_sql.sqls.len()
            invariant
                0 <= k <= row_sql.sqls@.len(),
                forall|i: int|
                    0 <= i < row_sql.sqls@.len() ==> row_sql.sqls@[i].rollback_sql@.len()
                        >= row_sql.sqls@[i].cur_sql@.len(),
                spec_total_stmts(row_sql.sqls@) <= usize::MAX,
                spec_total_stmts(row_sql.sqls@) <= u64::MAX,
                num == spec_total_stmts(row_sql.sqls@.subrange(0, k as int)),
                sqls@ == spec_relations(row_sql.sqls@.subrange(0, k as int)),
            decreases row_sql.sqls@.len() - k,
        {
            let traction = &row_sql.sqls[k];
            let ghost prefix = row_sql.sqls@.subrange(0, k as int);
            let ghost prefix1 = row_sql.sqls@.subrange(0, k as int + 1);
            proof {
                assert(prefix1.drop_last() =~= prefix);
                lemma_prefix_total_le(row_sql.sqls@, k as int + 1);
                lemma_total_stmts_nonneg(prefix);
            }
            let ghost base = num as int;
            let mut index: usize = 0;
            while index < traction.cur_sql.len()
                invariant
                    0 <= index <= traction.cur_sql@.len(),
                    traction == row_sql.sqls@[k as int],
                    k < row_sql.sqls@.len(),
                    traction.rollback_sql@.len() >= traction.cur_sql@.len(),
                    num == base + index,
                    base + traction.cur_sql@.len() <= u64::MAX,
                    base + traction.cur_sql@.len() <= usize::MAX,
                    base >= 0,
                    sqls@ == spec_relations(row_sql.sqls@.subrange(0, k as int))
                        + spec_relation_pairs(row_sql.sqls@[k as int], base).subrange(
                        0,
                        index as int,
                    ),
                decreases traction.cur_sql@.len() - index,
            {
                num = num + 1;
                let rel = SqlRelation::new(
                    &traction.cur_sql[index],
                    &traction.rollback_sql[index],
                    &num,
                );
                sqls.push(rel);
                proof {
                    assert(spec_relation_pairs(row_sql.sqls@[k as int], base).subrange(
                        0,
                        index as int,
                    ).push(rel) =~= spec_relation_pairs(row_sql.sqls@[k as int], base).subrange(
                        0,
                        index as int + 1,
                    ));
                }
                index += 1;
            }
            proof {
                assert(spec_relation_pairs(row_sql.sqls@[k as int], base).subrange(
                    0,
                    traction.cur_sql@.len() as int,
                ) =~= spec_relation_pairs(row_sql.sqls@[k as int], base));
                assert(sqls@ =~= spec_relations(prefix1));
            }
            k += 1;
        }
        proof {
            assert(row_sql.sqls@.subrange(0, row_sql.sqls@.len() as int) =~= row_sql.sqls@);
            lemma_relations_len(row_sql.sqls@);
        }
        let total = sqls.len();
        Ok(
            DifferenceSql {
                host: host.clone(),
                etype: row_sql.etype.clone(),
                cluster: String::new(),
                total,
                sqls,
                time: crate::timestamp(),
                status: 0,
            },
        )
    }

    /// Takes the cluster name over from the node's registration record.
    pub fn alter_cluster(&mut self, info: &HostInfoValue)
        ensures
            final(self).cluster == info.cluster_name,
            final(self).host == old(self).host,
            final(self).etype == old(self).etype,
            final(self).total == old(self).total,
            final(self).sqls == old(self).sqls,
            final(self).time == old(self).time,
            final(self).status == old(self).status,
    {
        self.cluster = info.cluster_name.clone();
    }

    /// Confirms the pair numbered `number`, and marks the whole set
    /// resolved once every pair is confirmed. A set already marked
    /// resolved is left untouched.
    pub fn alter(&mut self, number: &u64)
        ensures
            old(self).status == 1 ==> *final(self) == *old(self),
            old(self).status != 1 ==> {
                &&& final(self).sqls@.len() == old(self).sqls@.len()
                &&& forall|i: int|
                    0 <= i < old(self).sqls@.len() ==> final(self).sqls@[i] == (SqlRelation {
                        confirm: old(self).sqls@[i].confirm || old(self).sqls@[i].number
                            == *number,
                        ..old(self).sqls@[i]
                    })
                &&& final(self).status == if spec_confirmed_count(final(self).sqls@) == old(self).total {
                    1u8
                } else {
                    old(self).status
                }
                &&& final(self).host == old(self).host
                &&& final(self).etype == old(self).etype
                &&& final(self).cluster == old(self).cluster
                &&& final(self).total == old(self).total
                &&& final(self).time == old(self).time
            },
    {
        if self.status == 1 {
            return ;
        }
        let mut total_c: usize = 0;
        let mut i: usize = 0;
        let ghost orig = self.sqls@;
        while i < self.sqls.len()
            invariant
                0 <= i <= self.sqls@.len(),
                self.sqls@.len() == orig.len(),
                total_c == spec_confirmed_count(self.sqls@.subrange(0, i as int)),
                total_c <= i,
                forall|j: int|
                    0 <= j < i ==> self.sqls@[j] == (SqlRelation {
                        confirm: orig[j].confirm || orig[j].number == *number,
                        ..orig[j]
                    }),
                forall|j: int| i <= j < orig.len() ==> self.sqls@[j] == orig[j],
                self.host == old(self).host,
                self.etype == old(self).etype,
                self.cluster == old(self).cluster,
                self.total == old(self).total,
                self.time == old(self).time,
                self.status == old(self).status,
            decreases self.sqls@.len() - i,
        {
            let ghost pre = self.sqls@;
            if self.sqls[i].confirm {
                total_c += 1;
            } else if self.sqls[i].number == *number {
                self.sqls[i].confirm = true;
                total_c += 1;
            }
            proof {
                assert(self.sqls@.subrange(0, i as int + 1).drop_last() =~= self.sqls@.subrange(
                    0,
                    i as int,
                ));
                assert(self.sqls@.subrange(0, i as int) =~= pre.subrange(0, i as int));
            }
            i += 1;
        }
        proof {
            assert(self.sqls@.subrange(0, self.sqls@.len() as int) =~= self.sqls@);
        }
        if total_c == self.total {
            self.status = 1;
        }
    }
}

proof fn lemma_prefix_total_le(sqls: Seq<TractionValue>, i: int)
    requires
        0 <= i <= sqls.len(),
    ensures
        spec_total_stmts(sqls.subrange(0, i)) <= spec_total_stmts(sqls),
    decreases sqls.len() - i,
{
    if i == sqls.len() {
        assert(sqls.subrange(0, i) =~= sqls);
    } else {
        assert(sqls.subrange(0, i + 1).drop_last() =~= sqls.subrange(0, i));
        lemma_prefix_total_le(sqls, i + 1);
    }
}

/// The quorum majority for `total` respondents.
pub open spec fn spec_quorum(total: int) -> int {
    total / 2 + 1
}

/// The tally flags hold exactly when their counters reached the majority.
pub open spec fn spec_flags_ok(s: CheckState) -> bool {
    &&& (s.db_down <==> s.db_offline >= spec_quorum(s.all_nodes as int))
    &&& (s.client_down <==> s.client_offline >= spec_quorum(s.all_nodes as int))
}

/// The counters never exceed the number of respondents.
pub open spec fn spec_counts_ok(s: CheckState) -> bool {
    s.db_offline <= s.all_nodes && s.client_offline <= s.all_nodes
}

/// The quorum tally for one suspected-down host: how many peers could not
/// reach its database, how many could not reach its monitoring agent, the
/// effective number of respondents, and the two verdicts once a count
/// reaches `floor(total/2) + 1`.
#[derive(Debug, Clone)]
pub struct CheckState {
    pub db_offline: usize,
    pub client_offline: usize,
    pub all_nodes: usize,
    pub db_down: bool,
    pub client_down: bool,
    pub role: String,
}

impl CheckState {
    pub fn new(all_nodes: usize) -> (r: CheckState)
        ensures
            r.db_offline == 0,
            r.client_offline == 0,
            r.all_nodes == all_nodes,
            !r.db_down,
            !r.client_down,
            r.role@ == Seq::<char>::empty(),
            spec_flags_ok(r),
            spec_counts_ok(r),
    {
        CheckState {
            db_offline: 0,
            client_offline: 0,
            all_nodes,
            db_down: false,
            client_down: false,
            role: String::new(),
        }
    }

    /// Tallies one peer's verdict. A verdict without a host identity is
    /// dropped; otherwise each unreachable report raises its counter, and
    /// both flags are drawn afresh from the counts.
    pub fn check(&mut self, state: &DownNodeCheckStatus)
        requires
            old(self).db_offline < old(self).all_nodes,
            old(self).client_offline < old(self).all_nodes,
        ensures
            final(self).all_nodes == old(self).all_nodes,
            final(self).role == old(self).role,
            final(self).db_offline == old(self).db_offline + if state.host@.len() > 0
                && !state.db_status {
                1int
            } else {
                0int
            },
            final(self).client_offline == old(self).client_offline + if state.host@.len() > 0
                && !state.client_status {
                1int
            } else {
                0int
            },
            spec_flags_ok(*final(self)),
            spec_counts_ok(*final(self)),
    {
        if self.host_known(state) {
            if !state.client_status {
                self.client_offline += 1;
            }
            if !state.db_status {
                self.db_offline += 1;
            }
        }
        self.db_down = self.db_offline >= self.all_nodes / 2 + 1;
        self.client_down = self.client_offline >= self.all_nodes / 2 + 1;
    }

    /// Whether a verdict names the host it speaks of.
    fn host_known(&self, state: &DownNodeCheckStatus) -> (r: bool)
        ensures
            r == (state.host@.len() > 0),
    {
        state.host.as_str().unicode_len() > 0
    }

    /// Removes one peer that never answered from the effective total; its
    /// silence counts as no vote either way. Both flags are drawn afresh.
    pub fn mark_unanswered(&mut self)
        requires
            old(self).all_nodes >= 1,
            old(self).db_offline < old(self).all_nodes,
            old(self).client_offline < old(self).all_nodes,
        ensures
            final(self).all_nodes == old(self).all_nodes - 1,
            final(self).db_offline == old(self).db_offline,
            final(self).client_offline == old(self).client_offline,
            final(self).role == old(self).role,
            spec_flags_ok(*final(self)),
            spec_counts_ok(*final(self)),
    {
        self.all_nodes -= 1;
        self.db_down = self.db_offline >= self.all_nodes / 2 + 1;
        self.client_down = self.client_offline >= self.all_nodes / 2 + 1;
    }

    /// Whether the node's last reported role was replica.
    pub fn is_slave(&self, state: &MysqlState) -> (r: bool)
        ensures
            r == !(state.role@ == "master"@),
    {
        let m: String = "master".to_owned();
        if state.role == m {
            false
        } else {
            true
        }
    }

    /// Whether only the monitoring agent, not the database, was ever
    /// confirmed down.
    pub fn is_client_down(&self, value: &CheckState) -> (r: bool)
        ensures
            r == !value.db_down,
    {
        if value.db_down {
            false
        } else {
            true
        }
    }
}

/// On every consistent tally, `db_down` holds exactly when the
/// database-unreachable count reached `floor(total/2) + 1`; with no
/// respondents it never holds, so an outage without a quorum confirms
/// nothing.
pub proof fn lemma_quorum_verdict(s: CheckState)
    requires
        spec_flags_ok(s),
        spec_counts_ok(s),
    ensures
        s.db_down <==> s.db_offline >= s.all_nodes / 2 + 1,
        s.all_nodes == 0 ==> !s.db_down,
{
}

/// A replica of the suspected primary's cluster, as the election sees it:
/// identity and last reported replication position.
#[derive(Debug, Clone)]
pub struct SlaveInfo {
    pub host: String,
    pub dbport: usize,
    pub slave_info: ReplicationState,
    pub new_master: bool,
}

/// The candidate a registration and state snapshot yield.
pub open spec fn spec_slave_info(node: HostInfoValue, state: MysqlState) -> SlaveInfo {
    SlaveInfo {
        host: node.host,
        dbport: node.dbport,
        slave_info: ReplicationState {
            log_name: state.master_log_file,
            read_log_pos: state.read_master_log_pos,
            exec_log_pos: state.exec_master_log_pos,
        },
        new_master: false,
    }
}

impl SlaveInfo {
    /// Reads a candidate from a node's registration and its last state
    /// snapshot.
    pub fn new(host: String, dbport: usize, state: &MysqlState) -> (r: SlaveInfo)
        ensures
            r.host == host,
            r.dbport == dbport,
            r.slave_info.log_name == state.master_log_file,
            r.slave_info.read_log_pos == state.read_master_log_pos,
            r.slave_info.exec_log_pos == state.exec_master_log_pos,
            !r.new_master,
    {
        SlaveInfo {
            host,
            dbport,
            slave_info: ReplicationState {
                log_name: state.master_log_file.clone(),
                read_log_pos: state.read_master_log_pos,
                exec_log_pos: state.exec_master_log_pos,
            },
            new_master: false,
        }
    }
}

/// Whether some peer confirmed the suspected node's database down.
pub open spec fn spec_db_votes(votes: Seq<DownNodeCheckStatus>) -> int
    decreases votes.len(),
{
    if votes.len() == 0 {
        0
    } else {
        spec_db_votes(votes.drop_last()) + if votes.last().host@.len() > 0
            && !votes.last().db_status {
            1int
        } else {
            0int
        }
    }
}

/// How many peers confirmed the suspected node's monitoring agent down.
pub open spec fn spec_client_votes(votes: Seq<DownNodeCheckStatus>) -> int
    decreases votes.len(),
{
    if votes.len() == 0 {
        0
    } else {
        spec_client_votes(votes.drop_last()) + if votes.last().host@.len() > 0
            && !votes.last().client_status {
            1int
        } else {
            0int
        }
    }
}

/// Whether a round's tally clears the suspected node: someone answered,
/// and no quorum confirmed the database down. The detector then stops
/// early and treats the outage as a transient blip.
pub open spec fn spec_round_not_down(votes: Seq<DownNodeCheckStatus>) -> bool {
    votes.len() > 0 && spec_db_votes(votes) < spec_quorum(votes.len() as int)
}

/// The round whose tally the detector keeps: the first that clears the
/// node, or the last round run.
pub open spec fn spec_last_round(rounds: Seq<RoundVotes>) -> int
    decreases rounds.len(),
{
    if rounds.len() <= 1 {
        0
    } else if spec_round_not_down(rounds[0].votes@) {
        0
    } else {
        1 + spec_last_round(rounds.drop_first())
    }
}

proof fn lemma_last_round_at(rounds: Seq<RoundVotes>, i: int)
    requires
        0 <= i < rounds.len(),
        forall|j: int| 0 <= j < i ==> !spec_round_not_down(#[trigger] rounds[j].votes@),
        spec_round_not_down(rounds[i].votes@) || i == rounds.len() - 1,
    ensures
        spec_last_round(rounds) == i,
    decreases i,
{
    if i > 0 {
        let t = rounds.drop_first();
        assert(forall|j: int| 0 <= j < i - 1 ==> t[j] == #[trigger] rounds[j + 1]);
        lemma_last_round_at(t, i - 1);
    }
}

/// One corroboration round: how many peers were asked, and the verdicts
/// that came back before the timeout.
pub struct RoundVotes {
    pub asked: usize,
    pub votes: Vec<DownNodeCheckStatus>,
}

/// What the engine decides once the detection settles.
#[derive(Debug, Clone, Copy, PartialEq, Eq, Structural)]
pub enum ChangePlan {
    /// The down node was no primary: nothing to switch.
    NotMaster,
    /// Database and agent both confirmed down: switch at once; the
    /// unreplicated log can only be reconciled when the node returns.
    DirectSwitch,
    /// The database is down but its agent still answers: pull the log the
    /// deposed primary holds, replay it into the elected node, refresh the
    /// recovery coordinates, then switch.
    ReconcileThenSwitch,
    /// Only the agent is down: no failover, the outage is surfaced.
    ClientDownOnly,
    /// No quorum confirmed anything: leave the topology alone.
    NoAction,
}

/// One step of a switch sequence: promote the named node, or repoint it
/// at the new primary.
#[derive(Debug)]
pub struct SwitchCmd {
    pub host: String,
    pub set_master: bool,
}

/// The first marked candidate.
pub open spec fn spec_first_marked(nodes: Seq<SlaveInfo>) -> int
    decreases nodes.len(),
{
    if nodes.len() == 0 {
        0
    } else if nodes[0].new_master {
        0
    } else {
        1 + spec_first_marked(nodes.drop_first())
    }
}

proof fn lemma_first_marked_at(nodes: Seq<SlaveInfo>, i: int)
    requires
        0 <= i < nodes.len(),
        nodes[i].new_master,
        forall|j: int| 0 <= j < i ==> !(#[trigger] nodes[j].new_master),
    ensures
        spec_first_marked(nodes) == i,
    decreases i,
{
    if i > 0 {
        let t = nodes.drop_first();
        assert(forall|j: int| 0 <= j < i - 1 ==> t[j] == #[trigger] nodes[j + 1]);
        lemma_first_marked_at(t, i - 1);
    }
}

/// Whether `i` names the replica the election must choose: its fetched
/// offset is maximal, and every earlier candidate's is strictly smaller.
pub open spec fn spec_is_first_max(nodes: Seq<SlaveInfo>, i: int) -> bool {
    &&& 0 <= i < nodes.len()
    &&& forall|j: int|
        0 <= j < nodes.len() ==> #[trigger] nodes[j].slave_info.read_log_pos
            <= nodes[i].slave_info.read_log_pos
    &&& forall|j: int|
        0 <= j < i ==> #[trigger] nodes[j].slave_info.read_log_pos
            < nodes[i].slave_info.read_log_pos
}

/// At most one candidate qualifies: for a fixed candidate list the
/// election's choice is fully determined, so running it twice on the same
/// list yields the same replica.
pub proof fn lemma_election_deterministic(nodes: Seq<SlaveInfo>, i1: int, i2: int)
    requires
        spec_is_first_max(nodes, i1),
        spec_is_first_max(nodes, i2),
    ensures
        i1 == i2,
{
    if i1 < i2 {
        assert(nodes[i1].slave_info.read_log_pos < nodes[i2].slave_info.read_log_pos);
        assert(nodes[i2].slave_info.read_log_pos <= nodes[i1].slave_info.read_log_pos);
    }
    if i2 < i1 {
        assert(nodes[i2].slave_info.read_log_pos < nodes[i1].slave_info.read_log_pos);
        assert(nodes[i1].slave_info.read_log_pos <= nodes[i2].slave_info.read_log_pos);
    }
}

/// A node of the suspected primary's cluster qualifies as a candidate
/// when it is someone else, online, not under maintenance, and of the
/// same cluster.
pub open spec fn spec_eligible(node: HostInfoValue, cluster: Seq<char>, down_host: Seq<char>) -> bool {
    &&& node.host@ != down_host
    &&& node.online
    &&& !node.maintain
    &&& node.cluster_name@ == cluster
}

/// The candidates among parallel registration and state lists, in order.
pub open spec fn spec_candidates(
    nodes: Seq<HostInfoValue>,
    states: Seq<MysqlState>,
    cluster: Seq<char>,
    down_host: Seq<char>,
) -> Seq<SlaveInfo>
    decreases nodes.len(),
{
    if nodes.len() == 0 {
        Seq::empty()
    } else {
        let rest = spec_candidates(nodes.drop_last(), states.drop_last(), cluster, down_host);
        if spec_eligible(nodes.last(), cluster, down_host) {
            rest + seq![spec_slave_info(nodes.last(), states.last())]
        } else {
            rest
        }
    }
}

/// The election and failover engine for one confirmed outage: it keeps
/// the corroboration tally, the candidate list, and the durable failover
/// record it builds up phase by phase.
pub struct ElectionMaster {
    pub cluster_name: String,
    pub down_node_info: DownNodeCheck,
    pub check_state: CheckState,
    pub slave_nodes: Vec<SlaveInfo>,
    pub ha_log: HaChangeLog,
}

impl ElectionMaster {
    /// Opens a failover record for the suspected host.
    pub fn new(cluster_name: String, down_node_info: DownNodeCheck) -> (r: ElectionMaster)
        ensures
            r.cluster_name == cluster_name,
            r.down_node_info == down_node_info,
            r.check_state.db_offline == 0,
            r.check_state.client_offline == 0,
            r.check_state.all_nodes == 0,
            !r.check_state.db_down,
            !r.check_state.client_down,
            r.slave_nodes@.len() == 0,
            r.ha_log.key == down_node_info.host,
            r.ha_log.cluster_name == cluster_name,
            r.ha_log.old_master_info == down_node_info,
            !r.ha_log.recovery_status,
            !r.ha_log.switch_status,
            r.ha_log.wf(),
    {
        let mut ha_log = HaChangeLog::new();
        ha_log.old_master_info = DownNodeCheck {
            host: down_node_info.host.clone(),
            dbport: down_node_info.dbport,
        };
        ha_log.key = down_node_info.host.clone();
        ha_log.cluster_name = cluster_name.clone();
        ElectionMaster {
            cluster_name,
            down_node_info,
            check_state: CheckState {
                db_offline: 0,
                client_offline: 0,
                all_nodes: 0,
                db_down: false,
                client_down: false,
                role: String::new(),
            },
            slave_nodes: Vec::new(),
            ha_log,
        }
    }

    /// Tallies one corroboration round: unanswered peers leave the
    /// denominator, the verdicts are counted, and the flags drawn. The
    /// answer says whether the detector must keep going; it is false
    /// exactly when someone answered and no quorum confirmed the database
    /// down.
    pub fn process_round(&mut self, round: &RoundVotes) -> (cont: bool)
        requires
            round.votes@.len() <= round.asked,
        ensures
            final(self).check_state.all_nodes == round.votes@.len(),
            final(self).check_state.db_offline == spec_db_votes(round.votes@),
            final(self).check_state.client_offline == spec_client_votes(round.votes@),
            final(self).check_state.role@ == Seq::<char>::empty(),
            spec_flags_ok(final(self).check_state),
            spec_counts_ok(final(self).check_state),
            cont == !spec_round_not_down(round.votes@),
            final(self).cluster_name == old(self).cluster_name,
            final(self).down_node_info == old(self).down_node_info,
            final(self).slave_nodes == old(self).slave_nodes,
            final(self).ha_log == old(self).ha_log,
    {
        let mut cs = CheckState::new(round.asked);
        let timeouts = round.asked - round.votes.len();
        let mut t: usize = 0;
        while t < timeouts
            invariant
                0 <= t <= timeouts,
                timeouts == round.asked - round.votes@.len(),
                round.votes@.len() <= round.asked,
                cs.all_nodes == round.asked - t,
                cs.db_offline == 0,
                cs.client_offline == 0,
                cs.role@ == Seq::<char>::empty(),
                spec_flags_ok(cs),
                spec_counts_ok(cs),
            decreases timeouts - t,
        {
            cs.mark_unanswered();
            t += 1;
        }
        let mut j: usize = 0;
        while j < round.votes.len()
            invariant
                0 <= j <= round.votes@.len(),
                cs.all_nodes == round.votes@.len(),
                cs.db_offline == spec_db_votes(round.votes@.subrange(0, j as int)),
                cs.client_offline == spec_client_votes(round.votes@.subrange(0, j as int)),
                cs.db_offline <= j,
                cs.client_offline <= j,
                cs.role@ == Seq::<char>::empty(),
                spec_flags_ok(cs),
                spec_counts_ok(cs),
            decreases round.votes@.len() - j,
        {
            proof {
                assert(round.votes@.subrange(0, j as int + 1).drop_last() =~= round.votes@.subrange(
                    0,
                    j as int,
                ));
            }
            cs.check(&round.votes[j]);
            j += 1;
        }
        proof {
            assert(round.votes@.subrange(0, round.votes@.len() as int) =~= round.votes@);
        }
        let cont = !(cs.all_nodes > 0 && !cs.db_down);
        self.check_state = cs;
        cont
    }

    /// Runs the corroboration rounds in order, at most three, stopping at
    /// the first whose tally clears the node; the kept tally is the round
    /// the detector stopped after.
    pub fn check_downnode_status(&mut self, rounds: &Vec<RoundVotes>)
        requires
            rounds@.len() <= 3,
            forall|j: int|
                0 <= j < rounds@.len() ==> #[trigger] rounds@[j].votes@.len() <= rounds@[j].asked,
        ensures
            rounds@.len() == 0 ==> *final(self) == *old(self),
            rounds@.len() > 0 ==> {
                let li = spec_last_round(rounds@);
                &&& final(self).check_state.all_nodes == rounds@[li].votes@.len()
                &&& final(self).check_state.db_offline == spec_db_votes(rounds@[li].votes@)
                &&& final(self).check_state.client_offline == spec_client_votes(rounds@[li].votes@)
                &&& spec_flags_ok(final(self).check_state)
                &&& spec_counts_ok(final(self).check_state)
                &&& forall|j: int|
                    0 <= j < li ==> !spec_round_not_down(#[trigger] rounds@[j].votes@)
            },
            final(self).cluster_name == old(self).cluster_name,
            final(self).down_node_info == old(self).down_node_info,
            final(self).slave_nodes == old(self).slave_nodes,
            final(self).ha_log == old(self).ha_log,
    {
        let mut i: usize = 0;
        while i < rounds.len()
            invariant
                0 <= i <= rounds@.len(),
                forall|j: int|
                    0 <= j < rounds@.len() ==> #[trigger] rounds@[j].votes@.len()
                        <= rounds@[j].asked,
                forall|j: int| 0 <= j < i ==> !spec_round_not_down(#[trigger] rounds@[j].votes@),
                i > 0 ==> {
                    &&& self.check_state.all_nodes == rounds@[i - 1].votes@.len()
                    &&& self.check_state.db_offline == spec_db_votes(rounds@[i - 1].votes@)
                    &&& self.check_state.client_offline == spec_client_votes(rounds@[i - 1].votes@)
                    &&& spec_flags_ok(self.check_state)
                    &&& spec_counts_ok(self.check_state)
                },
                i == 0 ==> self.check_state == old(self).check_state,
                self.cluster_name == old(self).cluster_name,
                self.down_node_info == old(self).down_node_info,
                self.slave_nodes == old(self).slave_nodes,
                self.ha_log == old(self).ha_log,
            decreases rounds@.len() - i,
        {
            let cont = self.process_round(&rounds[i]);
            if !cont {
                proof {
                    lemma_last_round_at(rounds@, i as int);
                }
                return ;
            }
            i += 1;
        }
        proof {
            if rounds@.len() > 0 {
                lemma_last_round_at(rounds@, rounds@.len() - 1);
            }
        }
    }

    /// Collects the eligible candidates of the cluster, each with its
    /// last reported replication position; the states stand in the same
    /// order as the registrations.
    pub fn get_slave_nodes(&mut self, nodes: &Vec<HostInfoValue>, states: &Vec<MysqlState>)
        requires
            nodes@.len() == states@.len(),
        ensures
            final(self).slave_nodes@ == old(self).slave_nodes@ + spec_candidates(
                nodes@,
                states@,
                old(self).cluster_name@,
                old(self).down_node_info.host@,
            ),
            final(self).cluster_name == old(self).cluster_name,
            final(self).down_node_info == old(self).down_node_info,
            final(self).check_state == old(self).check_state,
            final(self).ha_log == old(self).ha_log,
    {
        let mut i: usize = 0;
        while i < nodes.len()
            invariant
                0 <= i <= nodes@.len(),
                nodes@.len() == states@.len(),
                self.slave_nodes@ == old(self).slave_nodes@ + spec_candidates(
                    nodes@.subrange(0, i as int),
                    states@.subrange(0, i as int),
                    old(self).cluster_name@,
                    old(self).down_node_info.host@,
                ),
                self.cluster_name == old(self).cluster_name,
                self.down_node_info == old(self).down_node_info,
                self.check_state == old(self).check_state,
                self.ha_log == old(self).ha_log,
            decreases nodes@.len() - i,
        {
            proof {
                assert(nodes@.subrange(0, i as int + 1).drop_last() =~= nodes@.subrange(
                    0,
                    i as int,
                ));
                assert(states@.subrange(0, i as int + 1).drop_last() =~= states@.subrange(
                    0,
                    i as int,
                ));
            }
            if !(nodes[i].host == self.down_node_info.host) && nodes[i].online
                && !nodes[i].maintain && nodes[i].cluster_name == self.cluster_name {
                let s = SlaveInfo::new(nodes[i].host.clone(), nodes[i].dbport, &states[i]);
                self.slave_nodes.push(s);
                proof {
                    assert(self.slave_nodes@ =~= old(self).slave_nodes@ + spec_candidates(
                        nodes@.subrange(0, i as int + 1),
                        states@.subrange(0, i as int + 1),
                        old(self).cluster_name@,
                        old(self).down_node_info.host@,
                    ));
                }
            }
            i += 1;
        }
        proof {
            assert(nodes@.subrange(0, nodes@.len() as int) =~= nodes@);
            assert(states@.subrange(0, states@.len() as int) =~= states@);
        }
    }

    /// Elects the replica with the highest fetched-log offset; on a tie
    /// the earliest candidate wins, so the choice is deterministic for a
    /// fixed candidate order. The chosen candidate is marked and recorded
    /// in the failover record; with no candidate the election fails and
    /// nothing changes.
    pub fn elc_new_master(&mut self) -> (r: Result<usize, String>)
        requires
            forall|j: int|
                0 <= j < old(self).slave_nodes@.len() ==> !(#[trigger] old(self).slave_nodes@[j].new_master),
        ensures
            r is Err <==> old(self).slave_nodes@.len() == 0,
            r is Err ==> *final(self) == *old(self),
            r is Ok ==> {
                let i = r->Ok_0 as int;
                &&& spec_is_first_max(old(self).slave_nodes@, i)
                &&& final(self).slave_nodes@ == old(self).slave_nodes@.update(
                    i,
                    SlaveInfo { new_master: true, ..old(self).slave_nodes@[i] },
                )
                &&& spec_first_marked(final(self).slave_nodes@) == i
                &&& final(self).ha_log == (HaChangeLog {
                    new_master_binlog_info: final(self).slave_nodes@[i],
                    ..old(self).ha_log
                })
                &&& final(self).cluster_name == old(self).cluster_name
                &&& final(self).down_node_info == old(self).down_node_info
                &&& final(self).check_state == old(self).check_state
            },
    {
        if self.slave_nodes.len() == 0 {
            return Err("no eligible replica can be elected".to_owned());
        }
        let mut index: usize = 0;
        let mut i: usize = 1;
        while i < self.slave_nodes.len()
            invariant
                1 <= i <= self.slave_nodes@.len(),
                0 <= index < i,
                *self == *old(self),
                forall|j: int|
                    0 <= j < i ==> #[trigger] self.slave_nodes@[j].slave_info.read_log_pos
                        <= self.slave_nodes@[index as int].slave_info.read_log_pos,
                forall|j: int|
                    0 <= j < index ==> #[trigger] self.slave_nodes@[j].slave_info.read_log_pos
                        < self.slave_nodes@[index as int].slave_info.read_log_pos,
            decreases self.slave_nodes@.len() - i,
        {
            if self.slave_nodes[i].slave_info.read_log_pos
                > self.slave_nodes[index].slave_info.read_log_pos {
                index = i;
            }
            i += 1;
        }
        self.slave_nodes[index].new_master = true;
        let marked = SlaveInfo {
            host: self.slave_nodes[index].host.clone(),
            dbport: self.slave_nodes[index].dbport,
            slave_info: ReplicationState {
                log_name: self.slave_nodes[index].slave_info.log_name.clone(),
                read_log_pos: self.slave_nodes[index].slave_info.read_log_pos,
                exec_log_pos: self.slave_nodes[index].slave_info.exec_log_pos,
            },
            new_master: true,
        };
        self.ha_log.new_master_binlog_info = marked;
        proof {
            lemma_first_marked_at(self.slave_nodes@, index as int);
        }
        Ok(index)
    }

    /// Stores the recovery coordinates fetched from the elected node into
    /// the failover record, joined with that node's identity and position.
    pub fn set_recovery_info(&mut self, info: &GetRecoveryInfo)
        requires
            exists|j: int|
                0 <= j < old(self).slave_nodes@.len() && (#[trigger] old(self).slave_nodes@[j].new_master),
        ensures
            ({
                let m = spec_first_marked(old(self).slave_nodes@);
                &&& final(self).ha_log.recovery_info.binlog == info.binlog
                &&& final(self).ha_log.recovery_info.position == info.position
                &&& final(self).ha_log.recovery_info.gtid == info.gtid
                &&& final(self).ha_log.recovery_info.masterhost@ == spec_prefix_until(
                    old(self).slave_nodes@[m].host@,
                    ':',
                )
                &&& final(self).ha_log.recovery_info.masterport == old(self).slave_nodes@[m].dbport
                &&& final(self).ha_log.recovery_info.read_binlog == old(self).slave_nodes@[m].slave_info.log_name
                &&& final(self).ha_log.recovery_info.read_position == old(self).slave_nodes@[m].slave_info.read_log_pos
            }),
            final(self).ha_log == (HaChangeLog {
                recovery_info: final(self).ha_log.recovery_info,
                ..old(self).ha_log
            }),
            final(self).cluster_name == old(self).cluster_name,
            final(self).down_node_info == old(self).down_node_info,
            final(self).check_state == old(self).check_state,
            final(self).slave_nodes == old(self).slave_nodes,
    {
        let m = self.find_new_master();
        let ri = RecoveryInfo::new(&self.slave_nodes[m], info);
        self.ha_log.recovery_info = ri;
    }

    /// After the pulled log was replayed into the elected node, refreshes
    /// the recovery coordinates and clears the fetched-position fields,
    /// which the replay has outdated.
    pub fn reacquire_recovery_info(&mut self, info: &GetRecoveryInfo)
        requires
            exists|j: int|
                0 <= j < old(self).slave_nodes@.len() && (#[trigger] old(self).slave_nodes@[j].new_master),
        ensures
            ({
                let m = spec_first_marked(old(self).slave_nodes@);
                &&& final(self).ha_log.recovery_info.binlog == info.binlog
                &&& final(self).ha_log.recovery_info.position == info.position
                &&& final(self).ha_log.recovery_info.gtid == info.gtid
                &&& final(self).ha_log.recovery_info.masterhost@ == spec_prefix_until(
                    old(self).slave_nodes@[m].host@,
                    ':',
                )
                &&& final(self).ha_log.recovery_info.masterport == old(self).slave_nodes@[m].dbport
                &&& final(self).ha_log.recovery_info.read_binlog@ == Seq::<char>::empty()
                &&& final(self).ha_log.recovery_info.read_position == 0
            }),
            final(self).ha_log == (HaChangeLog {
                recovery_info: final(self).ha_log.recovery_info,
                ..old(self).ha_log
            }),
            final(self).cluster_name == old(self).cluster_name,
            final(self).down_node_info == old(self).down_node_info,
            final(self).check_state == old(self).check_state,
            final(self).slave_nodes == old(self).slave_nodes,
    {
        self.set_recovery_info(info);
        self.ha_log.recovery_info.read_binlog = String::new();
        self.ha_log.recovery_info.read_position = 0;
    }

    /// The repoint command every other replica receives: the elected
    /// node's address and port, and the transaction-id set of the
    /// refreshed recovery coordinates.
    pub fn change_master_info(&self) -> (r: ChangeMasterInfo)
        requires
            exists|j: int|
                0 <= j < self.slave_nodes@.len() && (#[trigger] self.slave_nodes@[j].new_master),
        ensures
            ({
                let m = spec_first_marked(self.slave_nodes@);
                &&& r.master_host@ == spec_prefix_until(self.slave_nodes@[m].host@, ':')
                &&& r.master_port == self.slave_nodes@[m].dbport
                &&& r.gtid_set == self.ha_log.recovery_info.gtid
            }),
    {
        let m = self.find_new_master();
        ChangeMasterInfo::new(
            self.slave_nodes[m].host.clone(),
            self.slave_nodes[m].dbport,
            self.ha_log.recovery_info.gtid.clone(),
        )
    }

    fn find_new_master(&self) -> (r: usize)
        requires
            exists|j: int|
                0 <= j < self.slave_nodes@.len() && (#[trigger] self.slave_nodes@[j].new_master),
        ensures
            r == spec_first_marked(self.slave_nodes@),
            0 <= r < self.slave_nodes@.len(),
            self.slave_nodes@[r as int].new_master,
    {
        let mut i: usize = 0;
        while i < self.slave_nodes.len()
            invariant
                0 <= i <= self.slave_nodes@.len(),
                exists|j: int|
                    0 <= j < self.slave_nodes@.len() && (#[trigger] self.slave_nodes@[j
                    ].new_master),
                forall|j: int| 0 <= j < i ==> !(#[trigger] self.slave_nodes@[j].new_master),
            decreases self.slave_nodes@.len() - i,
        {
            if self.slave_nodes[i].new_master {
                proof {
                    lemma_first_marked_at(self.slave_nodes@, i as int);
                }
                return i;
            }
            i += 1;
        }
        proof {
            assert(false);
        }
        0
    }

    /// Whether unreplicated log must be pulled from the deposed primary:
    /// only when the elected node had a log position to pull beyond.
    pub fn pull_downnode_binlog(&self) -> (r: Option<SyncBinlogInfo>)
        ensures
            self.ha_log.new_master_binlog_info.slave_info.log_name@.len() > 0 <==> r is Some,
            r is Some ==> r->0.binlog == self.ha_log.new_master_binlog_info.slave_info.log_name
                && r->0.position == self.ha_log.new_master_binlog_info.slave_info.read_log_pos,
    {
        if self.ha_log.new_master_binlog_info.slave_info.log_name.as_str().unicode_len() > 0 {
            Some(
                SyncBinlogInfo {
                    binlog: self.ha_log.new_master_binlog_info.slave_info.log_name.clone(),
                    position: self.ha_log.new_master_binlog_info.slave_info.read_log_pos,
                },
            )
        } else {
            None
        }
    }

    /// Whether a pulled log segment holds anything to push into the
    /// elected node.
    pub fn push_downnode_binlog_to(&self, buf: &BinlogValue) -> (r: bool)
        ensures
            r == (buf.value@.len() > 0),
    {
        buf.value.len() > 0
    }

    /// What to do for the classified outage: nothing for a down replica,
    /// a direct switch when the deposed primary is wholly unreachable, a
    /// reconciliation first when its agent still answers, and no failover
    /// when the database was never confirmed down.
    pub fn change_plan(&self, down_is_master: bool) -> (r: ChangePlan)
        ensures
            r == spec_change_plan(self.check_state, down_is_master),
    {
        if !down_is_master {
            ChangePlan::NotMaster
        } else if self.check_state.db_down {
            if self.check_state.client_down {
                ChangePlan::DirectSwitch
            } else {
                ChangePlan::ReconcileThenSwitch
            }
        } else if self.check_state.client_down {
            ChangePlan::ClientDownOnly
        } else {
            ChangePlan::NoAction
        }
    }

    /// Records the deposed node's role in the tally and says whether it
    /// was the cluster's primary; a node without a state snapshot counts
    /// as a replica.
    pub fn is_master(&mut self, state: Option<&MysqlState>) -> (r: bool)
        ensures
            r == match state {
                Some(s) => s.role@ == "master"@,
                None => false,
            },
            final(self).check_state.role@ == if r {
                "master"@
            } else {
                "slave"@
            },
            final(self).check_state == (CheckState {
                role: final(self).check_state.role,
                ..old(self).check_state
            }),
            final(self).cluster_name == old(self).cluster_name,
            final(self).down_node_info == old(self).down_node_info,
            final(self).slave_nodes == old(self).slave_nodes,
            final(self).ha_log == old(self).ha_log,
    {
        let m: String = "master".to_owned();
        match state {
            Some(s) => {
                if s.role == m {
                    self.check_state.role = m;
                    return true;
                }
            },
            None => {},
        }
        self.check_state.role = "slave".to_owned();
        false
    }

    /// The switch sequence: one command per candidate, in candidate
    /// order, promoting the marked one and repointing every other.
    pub fn switch_plan(&self) -> (r: Vec<SwitchCmd>)
        ensures
            r@.len() == self.slave_nodes@.len(),
            forall|i: int|
                0 <= i < r@.len() ==> (#[trigger] r@[i].host) == self.slave_nodes@[i].host && r@[i
                ].set_master == self.slave_nodes@[i].new_master,
    {
        let mut r: Vec<SwitchCmd> = Vec::new();
        let mut i: usize = 0;
        while i < self.slave_nodes.len()
            invariant
                0 <= i <= self.slave_nodes@.len(),
                r@.len() == i,
                forall|k: int|
                    0 <= k < i ==> (#[trigger] r@[k].host) == self.slave_nodes@[k].host && r@[k
                    ].set_master == self.slave_nodes@[k].new_master,
            decreases self.slave_nodes@.len() - i,
        {
            let ghost pre = r@;
            r.push(
                SwitchCmd {
                    host: self.slave_nodes[i].host.clone(),
                    set_master: self.slave_nodes[i].new_master,
                },
            );
            proof {
                assert(r@[i as int].host == self.slave_nodes@[i as int].host);
                assert(r@[i as int].set_master == self.slave_nodes@[i as int].new_master);
                assert(forall|k: int| 0 <= k < i ==> (#[trigger] r@[k]) == pre[k]);
            }
            i += 1;
        }
        r
    }

    /// Closes the record once every switch command went through: the
    /// switch is complete, the recovery still outstanding.
    pub fn complete_switch(&mut self)
        ensures
            final(self).ha_log == (HaChangeLog {
                recovery_status: false,
                switch_status: true,
                ..old(self).ha_log
            }),
            final(self).ha_log.wf(),
            final(self).cluster_name == old(self).cluster_name,
            final(self).down_node_info == old(self).down_node_info,
            final(self).check_state == old(self).check_state,
            final(self).slave_nodes == old(self).slave_nodes,
    {
        self.ha_log.recovery_status = false;
        self.ha_log.switch_status = true;
    }
}

/// The decision the classified outage leads to.
pub open spec fn spec_change_plan(cs: CheckState, down_is_master: bool) -> ChangePlan {
    if !down_is_master {
        ChangePlan::NotMaster
    } else if cs.db_down {
        if cs.client_down {
            ChangePlan::DirectSwitch
        } else {
            ChangePlan::ReconcileThenSwitch
        }
    } else if cs.client_down {
        ChangePlan::ClientDownOnly
    } else {
        ChangePlan::NoAction
    }
}

/// One durable failover record read back from the store, with the
/// timestamp its key carries.
#[derive(Debug)]
pub struct HaLogRow {
    pub key: String,
    pub time: i64,
    pub log: HaChangeLog,
}

/// The first row carrying the maximal timestamp: the most recent record,
/// since records of one host are told apart by timestamp.
pub open spec fn spec_latest_row(rows: Seq<HaLogRow>) -> int
    decreases rows.len(),
{
    if rows.len() <= 1 {
        0
    } else {
        let rest = 1 + spec_latest_row(rows.drop_first());
        if rows[0].time >= rows[rest].time {
            0
        } else {
            rest
        }
    }
}

/// The latest row's index lies in the rows, its timestamp is maximal, and
/// every earlier row's timestamp is strictly smaller.
pub proof fn lemma_latest_row_props(rows: Seq<HaLogRow>)
    requires
        rows.len() > 0,
    ensures
        0 <= spec_latest_row(rows) < rows.len(),
        forall|j: int|
            0 <= j < rows.len() ==> #[trigger] rows[j].time <= rows[spec_latest_row(rows)].time,
        forall|j: int|
            0 <= j < spec_latest_row(rows) ==> #[trigger] rows[j].time < rows[spec_latest_row(
                rows,
            )].time,
    decreases rows.len(),
{
    if rows.len() > 1 {
        let t = rows.drop_first();
        lemma_latest_row_props(t);
        let rt = spec_latest_row(t);
        let rest = 1 + rt;
        assert(forall|j: int| 1 <= j < rows.len() ==> rows[j] == #[trigger] t[j - 1]);
        if rows[0].time >= rows[rest].time {
            assert forall|j: int| 0 <= j < rows.len() implies #[trigger] rows[j].time
                <= rows[0].time by {
                if j >= 1 {
                    assert(t[j - 1].time <= t[rt].time);
                }
            }
        } else {
            assert forall|j: int| 0 <= j < rows.len() implies #[trigger] rows[j].time
                <= rows[rest].time by {
                if j >= 1 {
                    assert(t[j - 1].time <= t[rt].time);
                }
            }
            assert forall|j: int| 0 <= j < rest implies #[trigger] rows[j].time
                < rows[rest].time by {
                if j >= 1 {
                    assert(t[j - 1].time < t[rt].time);
                }
            }
        }
    }
}

/// What the recovery of a returned node must do, read off its most
/// recent failover record.
#[derive(Debug, Clone, Copy, PartialEq, Eq, Structural)]
pub enum RecoveryAction {
    /// No record shows a completed switch: the topology is inconsistent
    /// and must not be auto-corrected; the node is left untouched.
    LeaveUntouched,
    /// The record is already fully recovered: nothing to do.
    AlreadyRecovered,
    /// The switch completed and the recovery is outstanding: send the
    /// node the record's recovery coordinates.
    Resync,
}

/// The action a failover record asks of the reconciler.
pub open spec fn spec_recovery_action(log: HaChangeLog) -> RecoveryAction {
    if !log.switch_status {
        RecoveryAction::LeaveUntouched
    } else if log.recovery_status {
        RecoveryAction::AlreadyRecovered
    } else {
        RecoveryAction::Resync
    }
}

/// Running the reconciler on a record whose recovery already completed is
/// a no-op: it asks for nothing, so no second divergent-transaction set
/// can arise.
pub proof fn lemma_recovery_idempotent(log: HaChangeLog)
    requires
        log.recovery_status,
        log.wf(),
    ensures
        spec_recovery_action(log) == RecoveryAction::AlreadyRecovered,
{
}

/// The recovery of one node that came back online after it was deposed:
/// it reads the node's most recent failover record back and resumes where
/// the failover left off.
pub struct RecoveryDownNode {
    pub host: String,
    pub ha_log: HaChangeLog,
    pub ha_log_key: String,
}

impl RecoveryDownNode {
    pub fn new(host: String) -> (r: RecoveryDownNode)
        ensures
            r.host == host,
            !r.ha_log.recovery_status,
            !r.ha_log.switch_status,
            r.ha_log.wf(),
            r.ha_log_key@ == Seq::<char>::empty(),
    {
        RecoveryDownNode { host, ha_log: HaChangeLog::new(), ha_log_key: String::new() }
    }

    /// Takes the most recent failover record of this host over, with the
    /// store key it must be written back under; with no records, the
    /// default record stays, whose switch never completed.
    pub fn get_recovery_info(&mut self, rows: Vec<HaLogRow>)
        ensures
            rows@.len() == 0 ==> *final(self) == *old(self),
            rows@.len() > 0 ==> {
                let l = spec_latest_row(rows@);
                &&& final(self).ha_log == rows@[l].log
                &&& final(self).ha_log_key == rows@[l].key
            },
            final(self).host == old(self).host,
    {
        let mut rows = rows;
        if rows.len() > 0 {
            let idx = crate::ha::route_manager::latest_row_index(&rows);
            let ghost all = rows@;
            let row = rows.remove(idx);
            proof {
                assert(row == all[spec_latest_row(all)]);
            }
            self.ha_log_key = row.key;
            self.ha_log = row.log;
        }
    }

    /// What the record asks for; the caller performs it and reports the
    /// divergent transactions back.
    pub fn recovery_action(&self) -> (r: RecoveryAction)
        ensures
            r == spec_recovery_action(self.ha_log),
    {
        if !self.ha_log.switch_status {
            RecoveryAction::LeaveUntouched
        } else if self.ha_log.recovery_status {
            RecoveryAction::AlreadyRecovered
        } else {
            RecoveryAction::Resync
        }
    }

    /// Marks the recovery complete once the node was resynchronized; the
    /// switch must have completed first, so the record stays well formed.
    pub fn update_state(&mut self)
        requires
            old(self).ha_log.switch_status,
        ensures
            final(self).ha_log == (HaChangeLog { recovery_status: true, ..old(self).ha_log }),
            final(self).ha_log.wf(),
            final(self).host == old(self).host,
            final(self).ha_log_key == old(self).ha_log_key,
    {
        self.ha_log.recovery_status = true;
    }
}

/// Whether a node takes part in a manual switchover of `cluster` started
/// from `self_host`: it must be someone else, online, and of the cluster.
pub open spec fn spec_switch_member(
    node: HostInfoValue,
    self_host: Seq<char>,
    cluster: Seq<char>,
) -> bool {
    &&& node.online
    &&& node.host@ != self_host
    &&& node.cluster_name@ == cluster
}

/// The registration and role of a node joined, as the switchover reads
/// the cluster.
pub open spec fn spec_all_state(node: HostInfoValue, role: String) -> HostInfoValueGetAllState {
    HostInfoValueGetAllState {
        host: node.host,
        dbport: node.dbport,
        rtype: node.rtype,
        online: node.online,
        maintain: node.maintain,
        cluster_name: node.cluster_name,
        role,
    }
}

/// The scan of the cluster for a manual switchover: the current primary
/// (the last member reported as such) and the other members in order, or
/// nothing when any member is under maintenance, which forbids the
/// switchover altogether.
pub open spec fn spec_switch_scan(
    nodes: Seq<HostInfoValue>,
    roles: Seq<String>,
    self_host: Seq<char>,
    cluster: Seq<char>,
) -> Option<(int, Seq<int>)>
    decreases nodes.len(),
{
    if nodes.len() == 0 {
        Some((-1int, Seq::empty()))
    } else {
        match spec_switch_scan(nodes.drop_last(), roles.drop_last(), self_host, cluster) {
            None => None,
            Some((m, sl)) => {
                if !spec_switch_member(nodes.last(), self_host, cluster) {
                    Some((m, sl))
                } else if nodes.last().maintain {
                    None
                } else if roles.last()@ == "master"@ {
                    Some((nodes.len() - 1, sl))
                } else {
                    Some((m, sl.push(nodes.len() - 1)))
                }
            },
        }
    }
}

proof fn lemma_switch_scan_none_extends(
    nodes: Seq<HostInfoValue>,
    roles: Seq<String>,
    self_host: Seq<char>,
    cluster: Seq<char>,
    i: int,
)
    requires
        0 <= i <= nodes.len(),
        nodes.len() == roles.len(),
        spec_switch_scan(nodes.subrange(0, i), roles.subrange(0, i), self_host, cluster) is None,
    ensures
        spec_switch_scan(nodes, roles, self_host, cluster) is None,
    decreases nodes.len() - i,
{
    if i == nodes.len() {
        assert(nodes.subrange(0, i) =~= nodes);
        assert(roles.subrange(0, i) =~= roles);
    } else {
        assert(nodes.subrange(0, i + 1).drop_last() =~= nodes.subrange(0, i));
        assert(roles.subrange(0, i + 1).drop_last() =~= roles.subrange(0, i));
        lemma_switch_scan_none_extends(nodes, roles, self_host, cluster, i + 1);
    }
}

/// An operator-invoked promotion of one replica, with a graceful drain
/// instead of an emergency switch.
pub struct SwitchForNodes {
    /// The replica to promote.
    pub host: String,
    pub dbport: usize,
    pub cluster_name: String,
    pub old_master_info: HostInfoValueGetAllState,
    pub slave_nodes_info: Vec<HostInfoValueGetAllState>,
    pub repl_info: ChangeMasterInfo,
    pub success_slave_host: Vec<String>,
}

impl SwitchForNodes {
    pub fn new(host: &String) -> (r: SwitchForNodes)
        ensures
            r.host == *host,
            r.dbport == 0,
            r.cluster_name@ == Seq::<char>::empty(),
            r.old_master_info.host@ == Seq::<char>::empty(),
            !r.old_master_info.online,
            !r.old_master_info.maintain,
            r.slave_nodes_info@.len() == 0,
            r.repl_info.master_host@ == Seq::<char>::empty(),
            r.repl_info.master_port == 0,
            r.repl_info.gtid_set@ == Seq::<char>::empty(),
            r.success_slave_host@.len() == 0,
    {
        SwitchForNodes {
            host: host.clone(),
            dbport: 0,
            cluster_name: String::new(),
            old_master_info: HostInfoValueGetAllState {
                host: String::new(),
                dbport: 0,
                rtype: String::new(),
                online: false,
                maintain: false,
                role: String::new(),
                cluster_name: String::new(),
            },
            slave_nodes_info: Vec::new(),
            repl_info: ChangeMasterInfo {
                master_host: String::new(),
                master_port: 0,
                gtid_set: String::new(),
            },
            success_slave_host: Vec::new(),
        }
    }

    /// Takes the promoted node's cluster and port over from its
    /// registration record.
    pub fn load_node_info(&mut self, node_info: &HostInfoValue)
        ensures
            final(self).cluster_name == node_info.cluster_name,
            final(self).dbport == node_info.dbport,
            final(self).host == old(self).host,
            final(self).old_master_info == old(self).old_master_info,
            final(self).slave_nodes_info == old(self).slave_nodes_info,
            final(self).repl_info == old(self).repl_info,
            final(self).success_slave_host == old(self).success_slave_host,
    {
        self.cluster_name = node_info.cluster_name.clone();
        self.dbport = node_info.dbport;
    }

    /// Whether the chosen node may be promoted: it must be online, not
    /// under maintenance, and not already the primary.
    pub fn check_host_status(&self, node_state: &HostInfoValue, role: &String) -> (r: Result<
        (),
        String,
    >)
        ensures
            r is Ok <==> node_state.online && !node_state.maintain && role@ != "master"@,
    {
        if !node_state.online {
            return Err("the host is not online".to_owned());
        }
        if node_state.maintain {
            return Err("the host is in maintenance mode".to_owned());
        }
        let m: String = "master".to_owned();
        if *role == m {
            return Err(
                "do not allow the current master to perform this operation".to_owned(),
            );
        }
        Ok(())
    }

    /// Scans the cluster: the reported primary becomes the old master,
    /// every other online member a replica to repoint; a member under
    /// maintenance forbids the whole switchover. The roles stand in the
    /// same order as the registrations.
    pub fn get_all_nodes_for_cluster_name(
        &mut self,
        nodes: &Vec<HostInfoValue>,
        roles: &Vec<String>,
    ) -> (r: Result<(), String>)
        requires
            nodes@.len() == roles@.len(),
        ensures
            r is Ok <==> spec_switch_scan(
                nodes@,
                roles@,
                old(self).host@,
                old(self).cluster_name@,
            ) is Some,
            r is Ok ==> {
                let (m, sl) = spec_switch_scan(
                    nodes@,
                    roles@,
                    old(self).host@,
                    old(self).cluster_name@,
                )->0;
                &&& final(self).old_master_info == if m >= 0 {
                    spec_all_state(nodes@[m], roles@[m])
                } else {
                    old(self).old_master_info
                }
                &&& final(self).slave_nodes_info@ == old(self).slave_nodes_info@ + sl.map_values(
                    |k: int| spec_all_state(nodes@[k], roles@[k]),
                )
            },
            final(self).host == old(self).host,
            final(self).dbport == old(self).dbport,
            final(self).cluster_name == old(self).cluster_name,
            final(self).repl_info == old(self).repl_info,
            final(self).success_slave_host == old(self).success_slave_host,
    {
        let mut i: usize = 0;
        let ghost mut sm: int = -1;
        while i < nodes.len()
            invariant
                0 <= i <= nodes@.len(),
                nodes@.len() == roles@.len(),
                spec_switch_scan(
                    nodes@.subrange(0, i as int),
                    roles@.subrange(0, i as int),
                    old(self).host@,
                    old(self).cluster_name@,
                ) is Some,
                ({
                    let (m, sl) = spec_switch_scan(
                        nodes@.subrange(0, i as int),
                        roles@.subrange(0, i as int),
                        old(self).host@,
                        old(self).cluster_name@,
                    )->0;
                    &&& m == sm
                    &&& self.old_master_info == if m >= 0 {
                        spec_all_state(nodes@[m], roles@[m])
                    } else {
                        old(self).old_master_info
                    }
                    &&& self.slave_nodes_info@ == old(self).slave_nodes_info@ + sl.map_values(
                        |k: int| spec_all_state(nodes@[k], roles@[k]),
                    )
                }),
                self.host == old(self).host,
                self.dbport == old(self).dbport,
                self.cluster_name == old(self).cluster_name,
                self.repl_info == old(self).repl_info,
                self.success_slave_host == old(self).success_slave_host,
            decreases nodes@.len() - i,
        {
            let ghost pre_nodes = nodes@.subrange(0, i as int);
            let ghost pre_roles = roles@.subrange(0, i as int);
            proof {
                assert(nodes@.subrange(0, i as int + 1).drop_last() =~= pre_nodes);
                assert(roles@.subrange(0, i as int + 1).drop_last() =~= pre_roles);
            }
            let ghost pre_scan = spec_switch_scan(
                pre_nodes,
                pre_roles,
                old(self).host@,
                old(self).cluster_name@,
            );
            if nodes[i].online && !(nodes[i].host == self.host) && nodes[i].cluster_name
                == self.cluster_name {
                let v = HostInfoValueGetAllState::new(&nodes[i], roles[i].clone());
                if nodes[i].maintain {
                    proof {
                        assert(spec_switch_scan(
                            nodes@.subrange(0, i as int + 1),
                            roles@.subrange(0, i as int + 1),
                            old(self).host@,
                            old(self).cluster_name@,
                        ) is None);
                        lemma_switch_scan_none_extends(
                            nodes@,
                            roles@,
                            old(self).host@,
                            old(self).cluster_name@,
                            i as int + 1,
                        );
                    }
                    return Err("a host of the cluster is in maintenance mode".to_owned());
                }
                let m: String = "master".to_owned();
                if roles[i] == m {
                    self.old_master_info = v;
                    proof {
                        sm = i as int;
                    }
                } else {
                    self.slave_nodes_info.push(v);
                    proof {
                        let (pm, psl) = pre_scan->0;
                        assert(psl.push(i as int).map_values(
                            |k: int| spec_all_state(nodes@[k], roles@[k]),
                        ) =~= psl.map_values(|k: int| spec_all_state(nodes@[k], roles@[k])).push(
                            spec_all_state(nodes@[i as int], roles@[i as int]),
                        ));
                        assert(self.slave_nodes_info@ =~= old(self).slave_nodes_info@ + psl.push(
                            i as int,
                        ).map_values(|k: int| spec_all_state(nodes@[k], roles@[k])));
                    }
                }
            }
            i += 1;
        }
        proof {
            assert(nodes@.subrange(0, nodes@.len() as int) =~= nodes@);
            assert(roles@.subrange(0, roles@.len() as int) =~= roles@);
        }
        Ok(())
    }

    /// Once the promoted node's lag has drained to zero, fixes the
    /// repoint command: its own address, port, and the transaction-id set
    /// it reported. With lag remaining nothing is fixed and the caller
    /// waits.
    pub fn get_repl_info(&mut self, state: &MysqlState) -> (r: bool)
        ensures
            r == (state.seconds_behind == 0),
            !r ==> *final(self) == *old(self),
            r ==> {
                &&& final(self).repl_info.master_host@ == spec_prefix_until(old(self).host@, ':')
                &&& final(self).repl_info.master_port == old(self).dbport
                &&& final(self).repl_info.gtid_set == state.executed_gtid_set
                &&& final(self).host == old(self).host
                &&& final(self).dbport == old(self).dbport
                &&& final(self).cluster_name == old(self).cluster_name
                &&& final(self).old_master_info == old(self).old_master_info
                &&& final(self).slave_nodes_info == old(self).slave_nodes_info
                &&& final(self).success_slave_host == old(self).success_slave_host
            },
    {
        if state.seconds_behind > 0 {
            return false;
        }
        self.repl_info = ChangeMasterInfo::new(
            self.host.clone(),
            self.dbport,
            state.executed_gtid_set.clone(),
        );
        true
    }

    /// The drain-and-switch sequence: repoint every replica, then the old
    /// primary, then promote the chosen node — in that order, one at a
    /// time.
    pub fn run_switch(&self) -> (r: Vec<SwitchCmd>)
        ensures
            r@.len() == self.slave_nodes_info@.len() + 2,
            forall|i: int|
                0 <= i < self.slave_nodes_info@.len() ==> (#[trigger] r@[i].host)
                    == self.slave_nodes_info@[i].host && !r@[i].set_master,
            r@[r@.len() - 2].host == self.old_master_info.host,
            !r@[r@.len() - 2].set_master,
            r@[r@.len() - 1].host == self.host,
            r@[r@.len() - 1].set_master,
    {
        let mut r: Vec<SwitchCmd> = Vec::new();
        let mut i: usize = 0;
        while i < self.slave_nodes_info.len()
            invariant
                0 <= i <= self.slave_nodes_info@.len(),
                r@.len() == i,
                forall|k: int|
                    0 <= k < i ==> (#[trigger] r@[k].host) == self.slave_nodes_info@[k].host
                        && !r@[k].set_master,
            decreases self.slave_nodes_info@.len() - i,
        {
            let ghost pre = r@;
            r.push(SwitchCmd { host: self.slave_nodes_info[i].host.clone(), set_master: false });
            proof {
                assert(r@[i as int].host == self.slave_nodes_info@[i as int].host);
                assert(forall|k: int| 0 <= k < i ==> (#[trigger] r@[k]) == pre[k]);
            }
            i += 1;
        }
        r.push(SwitchCmd { host: self.old_master_info.host.clone(), set_master: false });
        r.push(SwitchCmd { host: self.host.clone(), set_master: true });
        r
    }

    /// Records one replica that was repointed, so a partial switch shows
    /// what it reached.
    pub fn switch_slave(&mut self, host: &String)
        ensures
            final(self).success_slave_host@ == old(self).success_slave_host@.push(*host),
            final(self).host == old(self).host,
            final(self).dbport == old(self).dbport,
            final(self).cluster_name == old(self).cluster_name,
            final(self).old_master_info == old(self).old_master_info,
            final(self).slave_nodes_info == old(self).slave_nodes_info,
            final(self).repl_info == old(self).repl_info,
    {
        self.success_slave_host.push(host.clone());
    }

    /// The rollback of a failed switch, which re-promotes the old primary
    /// and repoints everything back at it. The old primary's reachability
    /// is checked again before anything replays: a rollback towards an
    /// offline primary is refused.
    pub fn rollback_switch(&mut self, old_master_state: &HostInfoValue) -> (r: Result<
        Vec<SwitchCmd>,
        String,
    >)
        ensures
            r is Ok <==> old_master_state.online,
            r is Err ==> *final(self) == *old(self),
            r is Ok ==> {
                let cmds = r->Ok_0@;
                &&& final(self).repl_info.master_host@ == spec_prefix_until(
                    old(self).old_master_info.host@,
                    ':',
                )
                &&& final(self).repl_info.master_port == old(self).old_master_info.dbport
                &&& final(self).repl_info.gtid_set@ == Seq::<char>::empty()
                &&& cmds.len() == old(self).slave_nodes_info@.len() + 2
                &&& cmds[0].host == old(self).old_master_info.host
                &&& cmds[0].set_master
                &&& forall|i: int|
                    1 <= i < cmds.len() - 1 ==> (#[trigger] cmds[i].host) == old(self).slave_nodes_info@[i - 1].host && !cmds[i].set_master
                &&& cmds[cmds.len() - 1].host == old(self).host
                &&& !cmds[cmds.len() - 1].set_master
                &&& final(self).host == old(self).host
                &&& final(self).old_master_info == old(self).old_master_info
                &&& final(self).slave_nodes_info == old(self).slave_nodes_info
            },
    {
        if !old_master_state.online {
            return Err("the old master is not reachable; rollback is refused".to_owned());
        }
        self.repl_info = ChangeMasterInfo::new(
            self.old_master_info.host.clone(),
            self.old_master_info.dbport,
            String::new(),
        );
        let mut cmds: Vec<SwitchCmd> = Vec::new();
        cmds.push(SwitchCmd { host: self.old_master_info.host.clone(), set_master: true });
        let mut i: usize = 0;
        while i < self.slave_nodes_info.len()
            invariant
                0 <= i <= self.slave_nodes_info@.len(),
                cmds@.len() == i + 1,
                cmds@[0].host == self.old_master_info.host,
                cmds@[0].set_master,
                self.slave_nodes_info == old(self).slave_nodes_info,
                self.old_master_info == old(self).old_master_info,
                forall|k: int|
                    1 <= k < i + 1 ==> (#[trigger] cmds@[k].host) == self.slave_nodes_info@[k
                        - 1].host && !cmds@[k].set_master,
            decreases self.slave_nodes_info@.len() - i,
        {
            let ghost pre = cmds@;
            cmds.push(SwitchCmd { host: self.slave_nodes_info[i].host.clone(), set_master: false });
            proof {
                assert(cmds@[i as int + 1].host == self.slave_nodes_info@[i as int].host);
                assert(forall|k: int| 0 <= k < i + 1 ==> (#[trigger] cmds@[k]) == pre[k]);
            }
            i += 1;
        }
        cmds.push(SwitchCmd { host: self.host.clone(), set_master: false });
        Ok(cmds)
    }
}

} // verus!
