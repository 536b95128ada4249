use mysql_ha::ha::nodes_manager::{
    ChangePlan, CheckState, DifferenceSql, ElectionMaster, HaLogRow, RecoveryAction,
    RecoveryDownNode, RoundVotes, SwitchForNodes,
};
use mysql_ha::ha::procotol::{
    DownNodeCheck, DownNodeCheckStatus, GetRecoveryInfo, MysqlState, RowsSql, TractionValue,
};
use mysql_ha::ha::route_manager::{ClusterNodeInfo, NodeInfo, NodeRouteState, RouteInfo};
use mysql_ha::storage::opdb::{HaChangeLog, HostInfoValue};

fn registration(host: &str, cluster: &str, online: bool) -> HostInfoValue {
    HostInfoValue {
        host: String::from(host),
        dbport: 3306,
        rtype: String::from("db"),
        cluster_name: String::from(cluster),
        online,
        insert_time: 0,
        update_time: 0,
        maintain: false,
    }
}

fn replica_state(log: &str, read_pos: usize) -> MysqlState {
    let mut s = MysqlState::new();
    s.online = true;
    s.role = String::from("slave");
    s.sql_thread = true;
    s.io_thread = true;
    s.master_log_file = String::from(log);
    s.read_master_log_pos = read_pos;
    s.exec_master_log_pos = read_pos;
    s
}

fn verdict(host: &str, client_up: bool, db_up: bool) -> DownNodeCheckStatus {
    let mut v = DownNodeCheckStatus::new();
    v.host = String::from(host);
    v.client_status = client_up;
    v.db_status = db_up;
    v
}

#[test]
fn quorum_flag_follows_majority() {
    let mut cs = CheckState::new(3);
    cs.check(&verdict("p", true, false));
    assert!(!cs.db_down);
    cs.check(&verdict("p", true, false));
    assert!(cs.db_down);
    assert!(!cs.client_down);
    assert_eq!(cs.db_offline, 2);
    assert_eq!(cs.all_nodes, 3);
}

#[test]
fn quorum_with_no_peers_confirms_nothing() {
    let cs = CheckState::new(0);
    assert!(!cs.db_down);
    assert!(!cs.client_down);
}

#[test]
fn unanswered_peer_shrinks_the_denominator() {
    let mut cs = CheckState::new(3);
    cs.check(&verdict("p", true, false));
    assert!(!cs.db_down);
    cs.mark_unanswered();
    assert_eq!(cs.all_nodes, 2);
    cs.check(&verdict("p", true, false));
    assert!(cs.db_down);
}

#[test]
fn verdict_without_host_is_dropped() {
    let mut cs = CheckState::new(1);
    cs.check(&verdict("", false, false));
    assert_eq!(cs.db_offline, 0);
    assert!(!cs.db_down);
}

#[test]
fn election_takes_highest_fetched_offset() {
    let mut em = ElectionMaster::new(
        String::from("c1"),
        DownNodeCheck::new(String::from("10.0.0.1:3306"), 3306),
    );
    let nodes = vec![
        registration("10.0.0.2:3306", "c1", true),
        registration("10.0.0.3:3306", "c1", true),
    ];
    let states = vec![
        replica_state("mysql-bin.000003", 100),
        replica_state("mysql-bin.000003", 200),
    ];
    em.get_slave_nodes(&nodes, &states);
    assert_eq!(em.slave_nodes.len(), 2);
    let chosen = em.elc_new_master().unwrap();
    assert_eq!(chosen, 1);
    assert!(em.slave_nodes[1].new_master);
    assert!(!em.slave_nodes[0].new_master);
}

#[test]
fn election_tie_break_is_deterministic() {
    let build = || {
        let mut em = ElectionMaster::new(
            String::from("c1"),
            DownNodeCheck::new(String::from("10.0.0.1:3306"), 3306),
        );
        let nodes = vec![
            registration("10.0.0.2:3306", "c1", true),
            registration("10.0.0.3:3306", "c1", true),
        ];
        let states = vec![
            replica_state("mysql-bin.000003", 150),
            replica_state("mysql-bin.000003", 150),
        ];
        em.get_slave_nodes(&nodes, &states);
        em.elc_new_master().unwrap()
    };
    let first = build();
    let second = build();
    assert_eq!(first, 0);
    assert_eq!(first, second);
}

#[test]
fn election_with_no_candidate_fails_safe() {
    let mut em = ElectionMaster::new(
        String::from("c1"),
        DownNodeCheck::new(String::from("10.0.0.1:3306"), 3306),
    );
    assert!(em.elc_new_master().is_err());
}

#[test]
fn maintenance_node_is_no_candidate() {
    let mut em = ElectionMaster::new(
        String::from("c1"),
        DownNodeCheck::new(String::from("10.0.0.1:3306"), 3306),
    );
    let mut maint = registration("10.0.0.2:3306", "c1", true);
    maint.maintain = true;
    let nodes = vec![maint, registration("10.0.0.3:3306", "c1", true)];
    let states = vec![
        replica_state("mysql-bin.000003", 500),
        replica_state("mysql-bin.000003", 100),
    ];
    em.get_slave_nodes(&nodes, &states);
    assert_eq!(em.slave_nodes.len(), 1);
    assert_eq!(em.slave_nodes[0].host, "10.0.0.3:3306");
}

#[test]
fn primary_database_down_is_confirmed_and_switched() {
    // A three-node cluster: primary P stops answering on the database
    // side while its agent still replies; replicas A (higher fetched
    // offset) and B corroborate.
    let mut em = ElectionMaster::new(
        String::from("c1"),
        DownNodeCheck::new(String::from("10.0.0.1:3306"), 3306),
    );
    let nodes = vec![
        registration("10.0.0.1:3306", "c1", false),
        registration("10.0.0.2:3306", "c1", true),
        registration("10.0.0.3:3306", "c1", true),
    ];
    let states = vec![
        MysqlState::new(),
        replica_state("mysql-bin.000003", 100),
        replica_state("mysql-bin.000003", 200),
    ];
    em.get_slave_nodes(&nodes, &states);
    assert_eq!(em.slave_nodes.len(), 2);

    let round = || RoundVotes {
        asked: 2,
        votes: vec![
            verdict("10.0.0.1:3306", true, false),
            verdict("10.0.0.1:3306", true, false),
        ],
    };
    em.check_downnode_status(&vec![round(), round(), round()]);
    assert!(em.check_state.db_down);
    assert!(!em.check_state.client_down);

    assert_eq!(em.change_plan(true), ChangePlan::ReconcileThenSwitch);

    let chosen = em.elc_new_master().unwrap();
    assert_eq!(em.slave_nodes[chosen].host, "10.0.0.3:3306");

    let pull = em.pull_downnode_binlog().unwrap();
    assert_eq!(pull.binlog, "mysql-bin.000003");
    assert_eq!(pull.position, 200);

    em.reacquire_recovery_info(&GetRecoveryInfo {
        binlog: String::from("mysql-bin.000004"),
        position: 4,
        gtid: String::from("uuid:1-42"),
    });
    assert_eq!(em.ha_log.recovery_info.binlog, "mysql-bin.000004");
    assert_eq!(em.ha_log.recovery_info.read_binlog, "");
    assert_eq!(em.ha_log.recovery_info.read_position, 0);

    let cm = em.change_master_info();
    assert_eq!(cm.master_host, "10.0.0.3");
    assert_eq!(cm.master_port, 3306);
    assert_eq!(cm.gtid_set, "uuid:1-42");

    let plan = em.switch_plan();
    assert_eq!(plan.len(), 2);
    assert_eq!(plan[0].host, "10.0.0.2:3306");
    assert!(!plan[0].set_master);
    assert_eq!(plan[1].host, "10.0.0.3:3306");
    assert!(plan[1].set_master);

    em.complete_switch();
    assert!(em.ha_log.switch_status);
    assert!(!em.ha_log.recovery_status);
    assert_eq!(em.ha_log.key, "10.0.0.1:3306");
}

#[test]
fn agent_only_outage_triggers_no_failover() {
    // Same cluster, but only the agent on P is unreachable: peers report
    // the database alive, so the detector stops after one round and no
    // failover runs; the routing pass keeps P as the writer.
    let mut em = ElectionMaster::new(
        String::from("c1"),
        DownNodeCheck::new(String::from("10.0.0.1:3306"), 3306),
    );
    let round = || RoundVotes {
        asked: 2,
        votes: vec![
            verdict("10.0.0.1:3306", false, true),
            verdict("10.0.0.1:3306", false, true),
        ],
    };
    em.check_downnode_status(&vec![round(), round(), round()]);
    assert!(!em.check_state.db_down);
    assert!(em.check_state.client_down);
    assert_eq!(em.change_plan(true), ChangePlan::ClientDownOnly);

    let cluster = ClusterNodeInfo {
        cluster_name: String::from("c1"),
        slave_behind_setting: 100,
        node_list: vec![NodeInfo::new(
            &String::from("10.0.0.1:3306"),
            &registration("10.0.0.1:3306", "c1", false),
        )],
    };
    let mut p_state = MysqlState::new();
    p_state.role = String::from("master");
    let ctx = vec![NodeRouteState {
        state: p_state,
        check_state: Some(em.check_state.clone()),
        failover_rows: Vec::new(),
    }];
    let table = cluster.route_check(&ctx, 5000).unwrap();
    assert_eq!(table.write.host, "10.0.0.1");
    assert_eq!(table.write.port, 3306);
}

#[test]
fn returning_primary_is_resynchronized_once() {
    // P returns after the failover: the resynchronize call reports two
    // divergent statement pairs; the record closes with the recovery
    // complete, and a second pass finds nothing to do.
    let mut log = HaChangeLog::new();
    log.key = String::from("10.0.0.1:3306");
    log.cluster_name = String::from("c1");
    log.switch_status = true;
    log.recovery_status = false;
    let mut rdn = RecoveryDownNode::new(String::from("10.0.0.1:3306"));
    rdn.get_recovery_info(vec![HaLogRow {
        key: String::from("10.0.0.1:3306_1000"),
        time: 1000,
        log,
    }]);
    assert_eq!(rdn.ha_log_key, "10.0.0.1:3306_1000");
    assert_eq!(rdn.recovery_action(), RecoveryAction::Resync);

    let row_sql = RowsSql {
        sqls: vec![
            TractionValue {
                cur_sql: vec![String::from("insert into t values (1)")],
                rollback_sql: vec![String::from("delete from t where id = 1")],
            },
            TractionValue {
                cur_sql: vec![String::from("insert into t values (2)")],
                rollback_sql: vec![String::from("delete from t where id = 2")],
            },
        ],
        error: String::new(),
        etype: String::from("rollback"),
    };
    let dif = DifferenceSql::new(&row_sql, &rdn.host).unwrap();
    assert_eq!(dif.total, 2);
    assert_eq!(dif.status, 0);
    assert_eq!(dif.sqls[0].number, 1);
    assert_eq!(dif.sqls[1].number, 2);
    assert!(!dif.sqls[0].confirm);

    rdn.update_state();
    assert!(rdn.ha_log.recovery_status);
    assert_eq!(rdn.recovery_action(), RecoveryAction::AlreadyRecovered);
    // A second invocation still asks for nothing: no second set arises.
    assert_eq!(rdn.recovery_action(), RecoveryAction::AlreadyRecovered);
}

#[test]
fn recovery_without_completed_switch_leaves_node_alone() {
    let mut rdn = RecoveryDownNode::new(String::from("10.0.0.1:3306"));
    rdn.get_recovery_info(Vec::new());
    assert_eq!(rdn.recovery_action(), RecoveryAction::LeaveUntouched);
}

#[test]
fn most_recent_failover_record_wins() {
    let mut old_log = HaChangeLog::new();
    old_log.switch_status = true;
    old_log.recovery_status = true;
    let mut new_log = HaChangeLog::new();
    new_log.switch_status = true;
    new_log.recovery_status = false;
    let mut rdn = RecoveryDownNode::new(String::from("h"));
    rdn.get_recovery_info(vec![
        HaLogRow { key: String::from("h_2000"), time: 2000, log: new_log },
        HaLogRow { key: String::from("h_1000"), time: 1000, log: old_log },
    ]);
    assert_eq!(rdn.ha_log_key, "h_2000");
    assert_eq!(rdn.recovery_action(), RecoveryAction::Resync);
}

#[test]
fn rollback_statement_confirmation_resolves_the_set() {
    let row_sql = RowsSql {
        sqls: vec![TractionValue {
            cur_sql: vec![String::from("a"), String::from("b")],
            rollback_sql: vec![String::from("ra"), String::from("rb")],
        }],
        error: String::new(),
        etype: String::from("rollback"),
    };
    let mut dif = DifferenceSql::new(&row_sql, &String::from("h")).unwrap();
    assert_eq!(dif.total, 2);
    dif.alter(&1);
    assert_eq!(dif.status, 0);
    assert!(dif.sqls[0].confirm);
    dif.alter(&2);
    assert_eq!(dif.status, 1);
    // A resolved set is left untouched.
    dif.alter(&2);
    assert_eq!(dif.status, 1);
}

#[test]
fn routing_table_is_reproducible_and_single_writer() {
    let cluster = ClusterNodeInfo {
        cluster_name: String::from("c1"),
        slave_behind_setting: 100,
        node_list: vec![
            NodeInfo::new(
                &String::from("10.0.0.1:3306"),
                &registration("10.0.0.1:3306", "c1", true),
            ),
            NodeInfo::new(
                &String::from("10.0.0.2:3306"),
                &registration("10.0.0.2:3306", "c1", true),
            ),
            NodeInfo::new(
                &String::from("10.0.0.3:3306"),
                &registration("10.0.0.3:3306", "c1", true),
            ),
        ],
    };
    let make_ctx = || {
        let mut master = MysqlState::new();
        master.online = true;
        master.role = String::from("master");
        let healthy = replica_state("mysql-bin.000001", 10);
        let mut stalled = replica_state("mysql-bin.000001", 10);
        stalled.io_thread = false;
        vec![
            NodeRouteState { state: master, check_state: None, failover_rows: Vec::new() },
            NodeRouteState { state: healthy, check_state: None, failover_rows: Vec::new() },
            NodeRouteState { state: stalled, check_state: None, failover_rows: Vec::new() },
        ]
    };
    let t1 = cluster.route_check(&make_ctx(), 5000).unwrap();
    let t2 = cluster.route_check(&make_ctx(), 5000).unwrap();
    assert_eq!(t1.write.host, "10.0.0.1");
    assert_eq!(t1.read.len(), 1);
    assert_eq!(t1.read[0].host, "10.0.0.2");
    // The same fixture yields the same table.
    assert_eq!(t1.write.host, t2.write.host);
    assert_eq!(t1.write.port, t2.write.port);
    assert_eq!(t1.read.len(), t2.read.len());
    assert_eq!(t1.read[0].host, t2.read[0].host);
    // And the table never lists more than one write endpoint: it has a
    // single write slot.
    assert_eq!(t1.cluster_name, "c1");
}

#[test]
fn lagging_replica_is_excluded_unless_check_disabled() {
    let node = NodeInfo::new(
        &String::from("10.0.0.2:3306"),
        &registration("10.0.0.2:3306", "c1", true),
    );
    let mut lagging = replica_state("mysql-bin.000001", 10);
    lagging.seconds_behind = 500;
    let strict = ClusterNodeInfo {
        cluster_name: String::from("c1"),
        slave_behind_setting: 100,
        node_list: vec![NodeInfo::new(&node.key, &node.value)],
    };
    let relaxed = ClusterNodeInfo {
        cluster_name: String::from("c1"),
        slave_behind_setting: 0,
        node_list: vec![NodeInfo::new(&node.key, &node.value)],
    };
    let ctx = || vec![NodeRouteState {
        state: {
            let mut s = replica_state("mysql-bin.000001", 10);
            s.seconds_behind = 500;
            s
        },
        check_state: None,
        failover_rows: Vec::new(),
    }];
    assert_eq!(strict.route_check(&ctx(), 0).unwrap().read.len(), 0);
    assert_eq!(relaxed.route_check(&ctx(), 0).unwrap().read.len(), 1);
    let _ = lagging;
}

#[test]
fn undecided_down_primary_blocks_the_pass() {
    let cluster = ClusterNodeInfo {
        cluster_name: String::from("c1"),
        slave_behind_setting: 100,
        node_list: vec![NodeInfo::new(
            &String::from("10.0.0.1:3306"),
            &registration("10.0.0.1:3306", "c1", false),
        )],
    };
    let mut p_state = MysqlState::new();
    p_state.role = String::from("master");
    // No tally recorded: the pass must not publish.
    let ctx = vec![NodeRouteState {
        state: p_state,
        check_state: None,
        failover_rows: Vec::new(),
    }];
    assert!(cluster.route_check(&ctx, 0).is_err());
}

#[test]
fn stale_failover_record_keeps_table_unchanged() {
    let r = RouteInfo::new(String::from("c1"));
    assert!(r.check_time_dif(1000, 5000).is_ok());
    assert!(r.check_time_dif(1000, 12000).is_err());
    let mut done = HaChangeLog::new();
    done.switch_status = true;
    done.recovery_status = false;
    let rows = vec![HaLogRow { key: String::from("h_1000"), time: 1000, log: done }];
    assert!(r.check_recovery_status(&rows, 5000).is_ok());
    assert!(r.check_recovery_status(&rows, 20000).is_err());
    assert!(r.check_recovery_status(&Vec::new(), 0).is_err());
}

#[test]
fn manual_switchover_rejects_unfit_hosts() {
    let sw = SwitchForNodes::new(&String::from("10.0.0.2:3306"));
    let offline = registration("10.0.0.2:3306", "c1", false);
    assert!(sw.check_host_status(&offline, &String::from("slave")).is_err());
    let mut maint = registration("10.0.0.2:3306", "c1", true);
    maint.maintain = true;
    assert!(sw.check_host_status(&maint, &String::from("slave")).is_err());
    let fine = registration("10.0.0.2:3306", "c1", true);
    assert!(sw.check_host_status(&fine, &String::from("master")).is_err());
    assert!(sw.check_host_status(&fine, &String::from("slave")).is_ok());
}

#[test]
fn manual_switchover_scans_and_orders_the_drain() {
    let mut sw = SwitchForNodes::new(&String::from("10.0.0.2:3306"));
    sw.load_node_info(&registration("10.0.0.2:3306", "c1", true));
    assert_eq!(sw.cluster_name, "c1");
    let nodes = vec![
        registration("10.0.0.1:3306", "c1", true),
        registration("10.0.0.2:3306", "c1", true),
        registration("10.0.0.3:3306", "c1", true),
    ];
    let roles = vec![
        String::from("master"),
        String::from("slave"),
        String::from("slave"),
    ];
    sw.get_all_nodes_for_cluster_name(&nodes, &roles).unwrap();
    assert_eq!(sw.old_master_info.host, "10.0.0.1:3306");
    assert_eq!(sw.slave_nodes_info.len(), 1);
    assert_eq!(sw.slave_nodes_info[0].host, "10.0.0.3:3306");

    let mut drained = replica_state("mysql-bin.000009", 42);
    drained.executed_gtid_set = String::from("uuid:1-9");
    assert!(sw.get_repl_info(&drained));
    assert_eq!(sw.repl_info.master_host, "10.0.0.2");
    assert_eq!(sw.repl_info.gtid_set, "uuid:1-9");

    let plan = sw.run_switch();
    assert_eq!(plan.len(), 3);
    assert_eq!(plan[0].host, "10.0.0.3:3306");
    assert!(!plan[0].set_master);
    assert_eq!(plan[1].host, "10.0.0.1:3306");
    assert!(!plan[1].set_master);
    assert_eq!(plan[2].host, "10.0.0.2:3306");
    assert!(plan[2].set_master);
}

#[test]
fn manual_switchover_refuses_maintenance_in_cluster() {
    let mut sw = SwitchForNodes::new(&String::from("10.0.0.2:3306"));
    sw.load_node_info(&registration("10.0.0.2:3306", "c1", true));
    let mut maint = registration("10.0.0.3:3306", "c1", true);
    maint.maintain = true;
    let nodes = vec![registration("10.0.0.1:3306", "c1", true), maint];
    let roles = vec![String::from("master"), String::from("slave")];
    assert!(sw.get_all_nodes_for_cluster_name(&nodes, &roles).is_err());
}

#[test]
fn rollback_of_failed_switch_revalidates_the_old_primary() {
    let mut sw = SwitchForNodes::new(&String::from("10.0.0.2:3306"));
    sw.load_node_info(&registration("10.0.0.2:3306", "c1", true));
    let nodes = vec![registration("10.0.0.1:3306", "c1", true)];
    let roles = vec![String::from("master")];
    sw.get_all_nodes_for_cluster_name(&nodes, &roles).unwrap();

    let gone = registration("10.0.0.1:3306", "c1", false);
    assert!(sw.rollback_switch(&gone).is_err());

    let back = registration("10.0.0.1:3306", "c1", true);
    let cmds = sw.rollback_switch(&back).unwrap();
    assert_eq!(cmds[0].host, "10.0.0.1:3306");
    assert!(cmds[0].set_master);
    assert_eq!(cmds[cmds.len() - 1].host, "10.0.0.2:3306");
    assert!(!cmds[cmds.len() - 1].set_master);
    assert_eq!(sw.repl_info.master_host, "10.0.0.1");
    assert_eq!(sw.repl_info.gtid_set, "");
}

#[test]
fn detector_short_circuits_on_a_clean_round() {
    let mut em = ElectionMaster::new(
        String::from("c1"),
        DownNodeCheck::new(String::from("p"), 3306),
    );
    let clean = RoundVotes { asked: 2, votes: vec![verdict("p", true, true), verdict("p", true, true)] };
    let cont = em.process_round(&clean);
    assert!(!cont);
    assert!(!em.check_state.db_down);
    assert_eq!(em.check_state.all_nodes, 2);
}

#[test]
fn failover_record_key_carries_host_and_time() {
    let mut log = HaChangeLog::new();
    log.key = String::from("10.0.0.1:3306");
    assert_eq!(log.save_key(12345), "10.0.0.1:3306_12345");
}

#[test]
fn failover_record_order_invariant_holds_through_the_flow() {
    // switchCompleted leads, recoveryCompleted follows: at no point in
    // the failover flow does a record claim recovery before the switch.
    let mut em = ElectionMaster::new(
        String::from("c1"),
        DownNodeCheck::new(String::from("p:3306"), 3306),
    );
    assert!(!em.ha_log.recovery_status || em.ha_log.switch_status);
    em.complete_switch();
    assert!(!em.ha_log.recovery_status || em.ha_log.switch_status);
    let mut rdn = RecoveryDownNode::new(String::from("p:3306"));
    rdn.get_recovery_info(vec![HaLogRow {
        key: String::from("p:3306_1"),
        time: 1,
        log: em.ha_log,
    }]);
    rdn.update_state();
    assert!(!rdn.ha_log.recovery_status || rdn.ha_log.switch_status);
    assert!(rdn.ha_log.recovery_status && rdn.ha_log.switch_status);
}
