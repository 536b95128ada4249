//! Cluster-level views of the administrative interface: fleet-wide
//! monitoring sums and per-node alarm states.

use vstd::prelude::*;
use crate::ha::nodes_manager::CheckState;
use crate::ha::procotol::{MysqlMonitorStatus, MysqlState};
use crate::storage::opdb::HostInfoValue;

verus! {

/// Names the cluster a request speaks of.
#[derive(Debug)]
pub struct PostCluster {
    pub cluster_name: String,
}

/// Names the node a monitoring request speaks of.
#[derive(Debug, Clone)]
pub struct PostMonitorHost {
    pub host: String,
}

/// Fleet-wide sums over the latest sample of every monitored node.
#[derive(Clone, Copy)]
pub struct ResponseMonitorStatic {
    pub current_qps: usize,
    pub slow_queries: usize,
    pub thread_running: usize,
    pub thread_connected: usize,
    pub com_insert: usize,
    pub com_update: usize,
    pub com_delete: usize,
    pub com_select: usize,
}

impl ResponseMonitorStatic {
    pub fn new() -> (r: ResponseMonitorStatic)
        ensures
            r.current_qps == 0,
            r.slow_queries == 0,
            r.thread_running == 0,
            r.thread_connected == 0,
            r.com_insert == 0,
            r.com_update == 0,
            r.com_delete == 0,
            r.com_select == 0,
    {
        ResponseMonitorStatic {
            current_qps: 0,
            slow_queries: 0,
            thread_running: 0,
            thread_connected: 0,
            com_insert: 0,
            com_update: 0,
            com_delete: 0,
            com_select: 0,
        }
    }

    /// Adds one node's sample into the sums.
    pub fn update(&mut self, ms: &MysqlMonitorStatus)
        requires
            old(self).current_qps + ms.questions <= usize::MAX,
            old(self).slow_queries + ms.slow_queries <= usize::MAX,
            old(self).thread_running + ms.threads_running <= usize::MAX,
            old(self).thread_connected + ms.threads_connected <= usize::MAX,
            old(self).com_insert + ms.com_insert <= usize::MAX,
            old(self).com_update + ms.com_update <= usize::MAX,
            old(self).com_delete + ms.com_delete <= usize::MAX,
            old(self).com_select + ms.com_select <= usize::MAX,
        ensures
            final(self).current_qps == old(self).current_qps + ms.questions,
            final(self).slow_queries == old(self).slow_queries + ms.slow_queries,
            final(self).thread_running == old(self).thread_running + ms.threads_running,
            final(self).thread_connected == old(self).thread_connected + ms.threads_connected,
            final(self).com_insert == old(self).com_insert + ms.com_insert,
            final(self).com_update == old(self).com_update + ms.com_update,
            final(self).com_delete == old(self).com_delete + ms.com_delete,
            final(self).com_select == old(self).com_select + ms.com_select,
    {
        self.current_qps += ms.questions;
        self.slow_queries += ms.slow_queries;
        self.thread_running += ms.threads_running;
        self.thread_connected += ms.threads_connected;
        self.com_select += ms.com_select;
        self.com_delete += ms.com_delete;
        self.com_update += ms.com_update;
        self.com_insert += ms.com_insert;
    }

    /// The load figures shown on the cluster page.
    pub fn get_total_a(&self) -> (r: ResponseMonitorA)
        ensures
            r.current_qps == self.current_qps,
            r.slow_queries == self.slow_queries,
            r.thread_running == self.thread_running,
            r.thread_connected == self.thread_connected,
    {
        ResponseMonitorA {
            current_qps: self.current_qps,
            slow_queries: self.slow_queries,
            thread_running: self.thread_running,
            thread_connected: self.thread_connected,
        }
    }

    /// The statement figures shown on the route page.
    pub fn get_total_b(&self) -> (r: ResponseMonitorB)
        ensures
            r.com_insert == self.com_insert,
            r.com_update == self.com_update,
            r.com_delete == self.com_delete,
            r.com_select == self.com_select,
    {
        ResponseMonitorB {
            com_insert: self.com_insert,
            com_update: self.com_update,
            com_delete: self.com_delete,
            com_select: self.com_select,
        }
    }
}

/// The cluster page's load figures.
pub struct ResponseMonitorA {
    pub current_qps: usize,
    pub slow_queries: usize,
    pub thread_running: usize,
    pub thread_connected: usize,
}

/// The route page's statement figures.
pub struct ResponseMonitorB {
    pub com_insert: usize,
    pub com_update: usize,
    pub com_delete: usize,
    pub com_select: usize,
}

/// An alarm request, authorized by an access id.
#[derive(Debug)]
pub struct PostAlter {
    pub hook_id: String,
}

/// One node's alarm state: role, stopped replication threads, and the
/// quorum verdicts, each flag as 0 or 1.
#[derive(Debug)]
pub struct ResponseDownNodeInfo {
    pub cluster_name: String,
    pub host: String,
    pub role: String,
    pub sql_thread: usize,
    pub io_thread: usize,
    pub db_down: usize,
    pub client_down: usize,
}

impl ResponseDownNodeInfo {
    pub fn new(info: &HostInfoValue) -> (r: ResponseDownNodeInfo)
        ensures
            r.cluster_name == info.cluster_name,
            r.host == info.host,
            r.role@ == Seq::<char>::empty(),
            r.sql_thread == 0,
            r.io_thread == 0,
            r.db_down == 0,
            r.client_down == 0,
    {
        ResponseDownNodeInfo {
            cluster_name: info.cluster_name.clone(),
            host: info.host.clone(),
            role: String::new(),
            sql_thread: 0,
            io_thread: 0,
            db_down: 0,
            client_down: 0,
        }
    }

    /// Reads the role and raises a flag for each stopped replication
    /// thread.
    pub fn init(&mut self, state: &MysqlState)
        ensures
            final(self).role == state.role,
            final(self).sql_thread == if state.sql_thread {
                old(self).sql_thread as int
            } else {
                1int
            },
            final(self).io_thread == if state.io_thread {
                old(self).io_thread as int
            } else {
                1int
            },
            final(self).cluster_name == old(self).cluster_name,
            final(self).host == old(self).host,
            final(self).db_down == old(self).db_down,
            final(self).client_down == old(self).client_down,
    {
        self.role = state.role.clone();
        if !state.sql_thread {
            self.sql_thread = 1;
        }
        if !state.io_thread {
            self.io_thread = 1;
        }
    }

    /// Raises the down flags the recorded quorum tally confirmed; with
    /// no tally nothing is raised.
    pub fn check_down_state(&mut self, check: Option<&CheckState>)
        ensures
            final(self).db_down == match check {
                Some(c) => if c.db_down {
                    1int
                } else {
                    old(self).db_down as int
                },
                None => old(self).db_down as int,
            },
            final(self).client_down == match check {
                Some(c) => if c.client_down {
                    1int
                } else {
                    old(self).client_down as int
                },
                None => old(self).client_down as int,
            },
            final(self).cluster_name == old(self).cluster_name,
            final(self).host == old(self).host,
            final(self).role == old(self).role,
            final(self).sql_thread == old(self).sql_thread,
            final(self).io_thread == old(self).io_thread,
    {
        match check {
            Some(c) => {
                if c.db_down {
                    self.db_down = 1;
                }
                if c.client_down {
                    self.client_down = 1;
                }
            },
            None => {},
        }
    }
}

/// Every node's alarm state.
#[derive(Debug)]
pub struct ResponseAlter {
    pub nodes_info: Vec<ResponseDownNodeInfo>,
}

impl ResponseAlter {
    /// One alarm entry per registered node; an offline node's entry
    /// carries the recorded quorum verdicts. Tallies stand in the same
    /// order as the registrations.
    pub fn new(nodes: &Vec<HostInfoValue>, checks: &Vec<Option<CheckState>>) -> (r: Result<
        ResponseAlter,
        String,
    >)
        requires
            nodes@.len() == checks@.len(),
        ensures
            r is Ok,
            r->Ok_0.nodes_info@.len() == nodes@.len(),
            forall|i: int|
                0 <= i < nodes@.len() ==> {
                    let e = #[trigger] r->Ok_0.nodes_info@[i];
                    &&& e.cluster_name == nodes@[i].cluster_name
                    &&& e.host == nodes@[i].host
                    &&& e.role@ == Seq::<char>::empty()
                    &&& e.sql_thread == 0
                    &&& e.io_thread == 0
                    &&& e.db_down == if !nodes@[i].online && checks@[i] is Some
                        && checks@[i]->0.db_down {
                        1int
                    } else {
                        0int
                    }
                    &&& e.client_down == if !nodes@[i].online && checks@[i] is Some
                        && checks@[i]->0.client_down {
                        1int
                    } else {
                        0int
                    }
                },
    {
        let mut nodes_info: Vec<ResponseDownNodeInfo> = Vec::new();
        let mut i: usize = 0;
        while i < nodes.len()
            invariant
                0 <= i <= nodes@.len(),
                nodes@.len() == checks@.len(),
                nodes_info@.len() == i,
                forall|k: int|
                    0 <= k < i ==> {
                        let e = #[trigger] nodes_info@[k];
                        &&& e.cluster_name == nodes@[k].cluster_name
                        &&& e.host == nodes@[k].host
                        &&& e.role@ == Seq::<char>::empty()
                        &&& e.sql_thread == 0
                        &&& e.io_thread == 0
                        &&& e.db_down == if !nodes@[k].online && checks@[k] is Some
                            && checks@[k]->0.db_down {
                            1int
                        } else {
                            0int
                        }
                        &&& e.client_down == if !nodes@[k].online && checks@[k] is Some
                            && checks@[k]->0.client_down {
                            1int
                        } else {
                            0int
                        }
                    },
            decreases nodes@.len() - i,
        {
            let ghost pre = nodes_info@;
            let mut rdi = ResponseDownNodeInfo::new(&nodes[i]);
            if !nodes[i].online {
                rdi.check_down_state(
                    match &checks[i] {
                        Some(c) => Some(c),
                        None => None,
                    },
                );
            }
            nodes_info.push(rdi);
            proof {
                assert(forall|k: int| 0 <= k < i ==> (#[trigger] nodes_info@[k]) == pre[k]);
            }
            i += 1;
        }
        Ok(ResponseAlter { nodes_info })
    }

    /// Fills every entry's role and thread flags from the latest state
    /// snapshots, given in entry order.
    pub fn init(&mut self, states: &Vec<MysqlState>)
        requires
            states@.len() == old(self).nodes_info@.len(),
        ensures
            final(self).nodes_info@.len() == old(self).nodes_info@.len(),
            forall|i: int|
                0 <= i < old(self).nodes_info@.len() ==> {
                    let e = #[trigger] final(self).nodes_info@[i];
                    let o = old(self).nodes_info@[i];
                    &&& e.role == states@[i].role
                    &&& e.sql_thread == if states@[i].sql_thread {
                        o.sql_thread as int
                    } else {
                        1int
                    }
                    &&& e.io_thread == if states@[i].io_thread {
                        o.io_thread as int
                    } else {
                        1int
                    }
                    &&& e.cluster_name == o.cluster_name
                    &&& e.host == o.host
                    &&& e.db_down == o.db_down
                    &&& e.client_down == o.client_down
                },
    {
        let mut i: usize = 0;
        while i < self.nodes_info.len()
            invariant
                0 <= i <= self.nodes_info@.len(),
                states@.len() == old(self).nodes_info@.len(),
                self.nodes_info@.len() == old(self).nodes_info@.len(),
                forall|k: int|
                    0 <= k < i ==> {
                        let e = #[trigger] self.nodes_info@[k];
                        let o = old(self).nodes_info@[k];
                        &&& e.role == states@[k].role
                        &&& e.sql_thread == if states@[k].sql_thread {
                            o.sql_thread as int
                        } else {
                            1int
                        }
                        &&& e.io_thread == if states@[k].io_thread {
                            o.io_thread as int
                        } else {
                            1int
                        }
                        &&& e.cluster_name == o.cluster_name
                        &&& e.host == o.host
                        &&& e.db_down == o.db_down
                        &&& e.client_down == o.client_down
                    },
                forall|k: int|
                    i <= k < self.nodes_info@.len() ==> (#[trigger] self.nodes_info@[k]) == old(
                        self,
                    ).nodes_info@[k],
            decreases self.nodes_info@.len() - i,
        {
            let ghost pre = self.nodes_info@;
            self.nodes_info[i].init(&states[i]);
            proof {
                assert(forall|k: int|
                    0 <= k < self.nodes_info@.len() && k != i ==> (#[trigger] self.nodes_info@[k])
                        == pre[k]);
            }
            i += 1;
        }
    }
}

} // verus!
