//! Names and key formats of the persistent store: the key spaces the
//! controller uses, the prefixes that partition the shared system space,
//! and the row types read back from iteration. The store itself is an
//! external collaborator; everything here is the pure keying scheme.

use vstd::prelude::*;

verus! {

/// The prefixes that partition the system key space.
#[derive(Debug, Clone, Copy, PartialEq, Eq, Structural)]
pub enum PrefixTypeCode {
    /// Published per-cluster routing tables.
    RouteInfo,
    /// Divergent-transaction sets awaiting operator review.
    RollBackSql,
    /// User accounts.
    UserInfo,
    /// Per-cluster replica lag thresholds.
    SlaveDelaySeting,
    /// Per-node monitoring switches.
    NodeMonitorSeting,
    /// Per-node monitoring samples.
    NodeMonitorData,
}

impl PrefixTypeCode {
    /// The key prefix of this partition.
    pub fn prefix(&self) -> (r: String)
        ensures
            r@ == spec_prefix_of(*self),
    {
        match self {
            PrefixTypeCode::RouteInfo => "1crcp".to_owned(),
            PrefixTypeCode::RollBackSql => "2crcp".to_owned(),
            PrefixTypeCode::UserInfo => "3crcp".to_owned(),
            PrefixTypeCode::SlaveDelaySeting => "4crcp".to_owned(),
            PrefixTypeCode::NodeMonitorSeting => "5crcp".to_owned(),
            PrefixTypeCode::NodeMonitorData => "6crcp".to_owned(),
        }
    }
}

/// The key prefix of each partition of the system key space.
pub open spec fn spec_prefix_of(p: PrefixTypeCode) -> Seq<char> {
    match p {
        PrefixTypeCode::RouteInfo => "1crcp"@,
        PrefixTypeCode::RollBackSql => "2crcp"@,
        PrefixTypeCode::UserInfo => "3crcp"@,
        PrefixTypeCode::SlaveDelaySeting => "4crcp"@,
        PrefixTypeCode::NodeMonitorSeting => "5crcp"@,
        PrefixTypeCode::NodeMonitorData => "6crcp"@,
    }
}

/// The key spaces of the store.
#[derive(Debug, Clone, Copy, PartialEq, Eq, Structural)]
pub enum CfNameTypeCode {
    /// Registered nodes.
    HaNodesInfo,
    /// Rollback statements of past failovers.
    RollbackSqlInfo,
    /// Durable failover records.
    HaChangeLog,
    /// The latest state snapshot of each node.
    NodesState,
    /// The shared, prefix-partitioned system space.
    SystemData,
    /// Quorum tallies of suspected-down nodes.
    CheckState,
}

impl CfNameTypeCode {
    /// The name of this key space.
    pub fn get(&self) -> (r: String)
        ensures
            r@ == spec_cf_name(*self),
    {
        match self {
            CfNameTypeCode::HaNodesInfo => "Ha_nodes_info".to_owned(),
            CfNameTypeCode::RollbackSqlInfo => "Rollback_sql_info".to_owned(),
            CfNameTypeCode::HaChangeLog => "Ha_change_log".to_owned(),
            CfNameTypeCode::SystemData => "System_data".to_owned(),
            CfNameTypeCode::NodesState => "Nodes_state".to_owned(),
            CfNameTypeCode::CheckState => "Check_state".to_owned(),
        }
    }
}

/// The name of each key space.
pub open spec fn spec_cf_name(c: CfNameTypeCode) -> Seq<char> {
    match c {
        CfNameTypeCode::HaNodesInfo => "Ha_nodes_info"@,
        CfNameTypeCode::RollbackSqlInfo => "Rollback_sql_info"@,
        CfNameTypeCode::HaChangeLog => "Ha_change_log"@,
        CfNameTypeCode::SystemData => "System_data"@,
        CfNameTypeCode::NodesState => "Nodes_state"@,
        CfNameTypeCode::CheckState => "Check_state"@,
    }
}

/// One raw row of the store.
#[derive(Debug, Clone)]
pub struct KeyValue {
    pub key: String,
    pub value: String,
}

impl KeyValue {
    pub fn new(key: &String, value: &String) -> (r: KeyValue)
        ensures
            r.key == *key,
            r.value == *value,
    {
        KeyValue { key: key.clone(), value: value.clone() }
    }
}

/// One decoded row of the store.
#[derive(Debug)]
pub struct RowValue<T> {
    pub key: String,
    pub value: T,
}

/// The full key of a record in the system space: the partition's prefix, a
/// colon, then the record's own key.
pub open spec fn spec_prefix_key(p: PrefixTypeCode, key: Seq<char>) -> Seq<char> {
    spec_prefix_of(p) + ":"@ + key
}

/// Builds the full key of a record in the system space.
pub fn prefix_key(prefix_type: &PrefixTypeCode, key: &String) -> (r: String)
    ensures
        r@ == spec_prefix_key(*prefix_type, key@),
{
    let mut k = prefix_type.prefix();
    k.append(":");
    k.append(key.as_str());
    k
}

} // verus!
