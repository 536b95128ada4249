//! High-availability management: the wire protocol, the quorum failure
//! detector, election and failover, recovery of returned nodes, and the
//! routing table, together with the health poller's transition rules.

use vstd::prelude::*;

pub mod nodes_manager;
pub mod procotol;
pub mod route_manager;
pub mod sys_manager;

verus! {

/// An online/offline transition raised by the health poller and consumed by
/// the election and recovery engine.
#[derive(Debug)]
pub struct DownNodeInfo {
    pub cluster_name: String,
    pub host: String,
    pub dbport: usize,
    pub online: bool,
}

/// The transition event a node raises when its reachability flips to
/// `state`.
pub open spec fn spec_down_info(n: NodesInfo, state: bool) -> DownNodeInfo {
    DownNodeInfo {
        cluster_name: n.value.cluster_name,
        host: n.key,
        dbport: n.value.dbport,
        online: state,
    }
}

/// One registered node as the health poller holds it in memory: its store
/// key, its registration record, and the key space the record lives in.
#[derive(Debug)]
pub struct NodesInfo {
    pub key: String,
    pub value: crate::storage::opdb::HostInfoValue,
    pub cf_name: String,
}

impl NodesInfo {
    /// The transition event to escalate, if any: a maintenance node is
    /// still probed, but its transitions are suppressed at this boundary.
    pub fn send_down_info(&self, state: bool) -> (r: Option<DownNodeInfo>)
        ensures
            r == if !self.value.maintain {
                Some(spec_down_info(*self, state))
            } else {
                None::<DownNodeInfo>
            },
    {
        if !self.value.maintain {
            Some(
                DownNodeInfo {
                    host: self.key.clone(),
                    dbport: self.value.dbport,
                    online: state,
                    cluster_name: self.value.cluster_name.clone(),
                },
            )
        } else {
            None
        }
    }

    /// Marks the node offline after a failed probe. The flag flips and an
    /// event is raised only on the transition; a node already offline
    /// stays silent.
    pub fn set_offline(&mut self) -> (r: Option<DownNodeInfo>)
        ensures
            !old(self).value.online ==> *final(self) == *old(self) && r is None,
            old(self).value.online ==> {
                &&& !final(self).value.online
                &&& final(self).value == (crate::storage::opdb::HostInfoValue {
                    online: false,
                    ..old(self).value
                })
                &&& final(self).key == old(self).key
                &&& final(self).cf_name == old(self).cf_name
                &&& r == if !old(self).value.maintain {
                    Some(spec_down_info(*final(self), false))
                } else {
                    None::<DownNodeInfo>
                }
            },
    {
        if self.value.online {
            self.value.online = false;
            self.send_down_info(false)
        } else {
            None
        }
    }

    /// Marks the node online after a successful probe; the counterpart of
    /// `set_offline`.
    pub fn set_online(&mut self) -> (r: Option<DownNodeInfo>)
        ensures
            old(self).value.online ==> *final(self) == *old(self) && r is None,
            !old(self).value.online ==> {
                &&& final(self).value.online
                &&& final(self).value == (crate::storage::opdb::HostInfoValue {
                    online: true,
                    ..old(self).value
                })
                &&& final(self).key == old(self).key
                &&& final(self).cf_name == old(self).cf_name
                &&& r == if !old(self).value.maintain {
                    Some(spec_down_info(*final(self), true))
                } else {
                    None::<DownNodeInfo>
                }
            },
    {
        if !self.value.online {
            self.value.online = true;
            self.send_down_info(true)
        } else {
            None
        }
    }

    /// One poller step for this node: a successful probe whose state says
    /// online marks it online, everything else marks it offline; the
    /// transition event, if one is due, is handed back.
    pub fn apply_probe(&mut self, probe: Option<&crate::ha::procotol::MysqlState>) -> (r: Option<
        DownNodeInfo,
    >)
        ensures
            ({
                let up = match probe {
                    Some(s) => s.online,
                    None => false,
                };
                if up == old(self).value.online {
                    r is None && *final(self) == *old(self)
                } else {
                    &&& final(self).value == (crate::storage::opdb::HostInfoValue {
                        online: up,
                        ..old(self).value
                    })
                    &&& final(self).key == old(self).key
                    &&& final(self).cf_name == old(self).cf_name
                    &&& r == if !old(self).value.maintain {
                        Some(spec_down_info(*final(self), up))
                    } else {
                        None::<DownNodeInfo>
                    }
                }
            }),
    {
        let up = match probe {
            Some(s) => s.online,
            None => false,
        };
        if up {
            self.set_online()
        } else {
            self.set_offline()
        }
    }
}

/// Every node the poller walks each second.
#[derive(Debug)]
pub struct AllNodes {
    pub info: Vec<NodesInfo>,
}

} // verus!
