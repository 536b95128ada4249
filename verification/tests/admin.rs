use mysql_ha::ha::nodes_manager::{DifferenceSql, HaLogRow, SqlRelation};
use mysql_ha::ha::procotol::{MysqlMonitorStatus, MysqlState};
use mysql_ha::ha::route_manager::{delay_of, AllNode, NodeInfo, RouteInfo};
use mysql_ha::ha::sys_manager::{init_monitor_set, monitor_expired, MonitorNodeSetInfo, MonitorSetting};
use mysql_ha::ha::{DownNodeInfo, NodesInfo};
use mysql_ha::storage::opdb::{
    check_user_info, ClusterNodeInfo, HostInfoValue, MonitorSample, NodeClusterList, SlaveBehindSetting,
    UserInfo,
};
use mysql_ha::storage::rocks::{prefix_key, CfNameTypeCode, KeyValue, PrefixTypeCode, RowValue};
use mysql_ha::webroute::monitor_route::{PostMonitorMetricValue, ResponseClusterMetric};
use mysql_ha::webroute::new_route::ResponseMonitorStatic;
use mysql_ha::webroute::op_value::ClusterMonitorInfo;
use mysql_ha::webroute::response::ResponseState;
use mysql_ha::webroute::route::{
    DeleteNode, ExtractAll, MarkSqlInfo, PostUserInfo, PushSqlInfo, ResponseAllSql, RowLog,
    SwitchLog,
};

fn registration(host: &str, cluster: &str, online: bool) -> HostInfoValue {
    HostInfoValue {
        host: String::from(host),
        dbport: 3306,
        rtype: String::from("db"),
        cluster_name: String::from(cluster),
        online,
        insert_time: 0,
        update_time: 0,
        maintain: false,
    }
}

fn sample(host: &str, monitor: bool, questions: usize, time: i64) -> MonitorSample {
    let mut v = MysqlMonitorStatus::new();
    v.questions = questions;
    v.time = time;
    MonitorSample { host: String::from(host), monitor, value: v }
}

#[test]
fn store_names_and_prefixes() {
    assert_eq!(CfNameTypeCode::HaNodesInfo.get(), "Ha_nodes_info");
    assert_eq!(CfNameTypeCode::CheckState.get(), "Check_state");
    assert_eq!(PrefixTypeCode::RouteInfo.prefix(), "1crcp");
    assert_eq!(PrefixTypeCode::RollBackSql.prefix(), "2crcp");
    assert_eq!(
        prefix_key(&PrefixTypeCode::RouteInfo, &String::from("c1")),
        "1crcp:c1"
    );
    let kv = KeyValue::new(&String::from("k"), &String::from("v"));
    assert_eq!(kv.key, "k");
    assert_eq!(kv.value, "v");
}

#[test]
fn poller_raises_transitions_once() {
    let mut node = NodesInfo {
        key: String::from("10.0.0.1:3306"),
        value: registration("10.0.0.1:3306", "c1", true),
        cf_name: CfNameTypeCode::HaNodesInfo.get(),
    };
    let down: Option<DownNodeInfo> = node.apply_probe(None);
    let down = down.unwrap();
    assert_eq!(down.host, "10.0.0.1:3306");
    assert!(!down.online);
    assert!(!node.value.online);
    // A second failed probe raises nothing.
    assert!(node.apply_probe(None).is_none());
    let mut up_state = MysqlState::new();
    up_state.online = true;
    let up = node.apply_probe(Some(&up_state)).unwrap();
    assert!(up.online);
}

#[test]
fn maintenance_suppresses_transition_events() {
    let mut reg = registration("10.0.0.1:3306", "c1", true);
    reg.maintain = true;
    let mut node = NodesInfo {
        key: String::from("10.0.0.1:3306"),
        value: reg,
        cf_name: CfNameTypeCode::HaNodesInfo.get(),
    };
    assert!(node.apply_probe(None).is_none());
    assert!(!node.value.online);
}

#[test]
fn maintenance_toggle_and_delete_rule() {
    let mut reg = registration("10.0.0.1:3306", "c1", true);
    let toggle = mysql_ha::webroute::route::EditMainTain {
        host: String::from("10.0.0.1:3306"),
        maintain: String::from("false"),
    };
    reg.maintain(&toggle);
    assert!(reg.maintain);
    let del = DeleteNode { host: String::from("10.0.0.1:3306") };
    assert!(del.permitted(&reg).is_ok());
    let back = mysql_ha::webroute::route::EditMainTain {
        host: String::from("10.0.0.1:3306"),
        maintain: String::from("true"),
    };
    reg.maintain(&back);
    assert!(!reg.maintain);
    assert!(del.permitted(&reg).is_err());
}

#[test]
fn user_accounts_and_access_ids() {
    let user = UserInfo::new(&PostUserInfo {
        user_name: String::from("admin"),
        password: String::from("pw"),
    });
    assert_eq!(user.user_name, "admin");
    assert_eq!(user.hook_id.chars().count(), 32);
    let hook = user.hook_id.clone();
    let users = vec![user];
    assert!(check_user_info(&users, &hook).is_ok());
    assert!(check_user_info(&users, &String::from("wrong")).is_err());
}

#[test]
fn cluster_name_list_is_deduplicated() {
    let mut list = NodeClusterList::new();
    list.init(&vec![
        registration("a", "c1", true),
        registration("b", "c2", true),
        registration("c", "c1", true),
    ]);
    assert_eq!(list.cluster_name_list.len(), 2);
    assert!(list.is_exists(&String::from("c1")));
    assert!(list.is_exists(&String::from("c2")));
    assert!(!list.is_exists(&String::from("c3")));
}

#[test]
fn cluster_node_join() {
    let mut info = ClusterNodeInfo::new(&String::from("c1"));
    let nodes = vec![
        registration("a", "c1", true),
        registration("b", "c2", true),
        registration("c", "c1", false),
    ];
    let states = vec![MysqlState::new(), MysqlState::new(), MysqlState::new()];
    info.init(&nodes, &states);
    assert_eq!(info.total, 2);
    assert_eq!(info.nodes_info.len(), 2);
    assert_eq!(info.nodes_info[0].host, "a");
    assert_eq!(info.nodes_info[1].host, "c");
}

#[test]
fn fleet_summary_takes_latest_sample_per_monitored_host() {
    let mut info = ClusterNodeInfo::new(&String::from("c1"));
    info.init(
        &vec![registration("a", "c1", true), registration("b", "c1", true)],
        &vec![MysqlState::new(), MysqlState::new()],
    );
    let rows = vec![
        sample("a", true, 100, 3000),
        sample("b", false, 50, 3000),
        sample("a", true, 70, 2000),
        sample("x", true, 9, 1000),
    ];
    let mut rsm = ResponseMonitorStatic::new();
    info.static_monitor(&rows, &mut rsm).unwrap();
    // Only host a counts: its newest sample once, b is unmonitored, x is
    // no member.
    assert_eq!(rsm.current_qps, 100);
    let a = rsm.get_total_a();
    assert_eq!(a.current_qps, 100);
    let b = rsm.get_total_b();
    assert_eq!(b.com_insert, 0);
}

#[test]
fn monitor_difference_is_averaged_per_second() {
    let mut last = MysqlMonitorStatus::new();
    last.com_insert = 100;
    last.questions = 1000;
    last.time = 0;
    let mut cur = MysqlMonitorStatus::new();
    cur.com_insert = 160;
    cur.questions = 1600;
    cur.threads_running = 5;
    cur.time = 2000;
    let d = cur.calculation(&last);
    assert_eq!(d.com_insert, 30);
    assert_eq!(d.questions, 300);
    assert_eq!(d.threads_running, 5);
    assert_eq!(d.time, 2000);
}

#[test]
fn monitor_set_refresh_carries_last_samples_over() {
    let setting_a = MonitorSetting { host: String::from("a"), monitor: true, days: 7 };
    let mut old_a = MonitorNodeSetInfo::new(&setting_a);
    let mut seen = MysqlMonitorStatus::new();
    seen.questions = 42;
    seen.time = 99;
    old_a.update_value(&seen);
    let refreshed = init_monitor_set(
        &vec![
            RowValue { key: String::from("a"), value: MonitorSetting { host: String::from("a"), monitor: true, days: 7 } },
            RowValue { key: String::from("b"), value: MonitorSetting::new(&String::from("b")) },
        ],
        &vec![old_a],
    );
    assert_eq!(refreshed.len(), 2);
    assert_eq!(refreshed[0].last_monitor_value.questions, 42);
    assert_eq!(refreshed[1].last_monitor_value.questions, 0);
    assert!(!refreshed[1].setting.monitor);
}

#[test]
fn expiry_rules() {
    assert!(!monitor_expired(0, 86400000 * 7, 7));
    assert!(monitor_expired(0, 86400000 * 7 + 1, 7));
    let dif = DifferenceSql {
        host: String::from("h"),
        etype: String::from("rollback"),
        cluster: String::from("c1"),
        total: 0,
        sqls: Vec::new(),
        time: 1000,
        status: 0,
    };
    assert!(!dif.expired(1000 + 604799999));
    assert!(dif.expired(1000 + 604800000));
    assert_eq!(dif.delete_key(), "2crcp:c1:h_1000");
    let route = RouteInfo::new(String::from("c1"));
    assert_eq!(route.delete_key(), "1crcp:c1");
    let mut names = NodeClusterList::new();
    names.init(&vec![registration("a", "c2", true)]);
    assert!(route.expired(&names));
    let setting = MonitorSetting::new(&String::from("h"));
    assert_eq!(setting.delete_key(), "5crcp:h");
}

#[test]
fn lag_threshold_lookup_defaults_to_100() {
    let settings = vec![
        SlaveBehindSetting { cluster_name: String::from("c1"), delay: 30 },
        SlaveBehindSetting { cluster_name: String::from("c2"), delay: 0 },
    ];
    assert_eq!(delay_of(&settings, &String::from("c1")), 30);
    assert_eq!(delay_of(&settings, &String::from("c2")), 0);
    assert_eq!(delay_of(&settings, &String::from("c3")), 100);
    let fresh = SlaveBehindSetting::new(&String::from("c9"));
    assert_eq!(fresh.delay, 100);
}

#[test]
fn nodes_group_by_cluster_and_skip_routing_nodes() {
    let mut router = registration("r:8000", "c1", true);
    router.rtype = String::from("route");
    let nodes = vec![
        NodeInfo::new(&String::from("a"), &registration("a", "c1", true)),
        NodeInfo::new(&String::from("r"), &router),
        NodeInfo::new(&String::from("b"), &registration("b", "c2", true)),
        NodeInfo::new(&String::from("c"), &registration("c", "c1", true)),
    ];
    let settings = vec![SlaveBehindSetting { cluster_name: String::from("c2"), delay: 5 }];
    let grouped = AllNode::new(&nodes, &settings);
    assert_eq!(grouped.nodes.len(), 2);
    assert_eq!(grouped.nodes[0].cluster_name, "c1");
    assert_eq!(grouped.nodes[0].slave_behind_setting, 100);
    assert_eq!(grouped.nodes[0].node_list.len(), 2);
    assert_eq!(grouped.nodes[1].cluster_name, "c2");
    assert_eq!(grouped.nodes[1].slave_behind_setting, 5);
    let copy = grouped.nodes[0].my_clone();
    assert_eq!(copy.cluster_name, "c1");
    assert_eq!(copy.node_list.len(), 2);
    let empty = RouteInfo::new(String::from("c1"));
    assert!(!grouped.should_publish(&empty));
}

#[test]
fn metric_values_read_by_name() {
    let mut v = MysqlMonitorStatus::new();
    v.com_delete = 9;
    v.bytes_sent = 11;
    assert_eq!(v.get_value(&String::from("com_delete")), 9);
    assert_eq!(v.get_value(&String::from("bytes_sent")), 11);
    assert_eq!(v.get_value(&String::from("no_such_metric")), 0);
    let catalogue = ResponseClusterMetric::new();
    assert_eq!(catalogue.metric_info.len(), 25);
    assert_eq!(catalogue.metric_info[0], "com_insert");
}

#[test]
fn metric_series_respect_the_window() {
    let req = PostMonitorMetricValue {
        host: String::from("a"),
        metric: vec![String::from("questions")],
        start_time: 1000,
        stop_time: 2000,
    };
    let mut s1 = MysqlMonitorStatus::new();
    s1.questions = 5;
    s1.time = 500;
    let mut s2 = MysqlMonitorStatus::new();
    s2.questions = 7;
    s2.time = 1500;
    assert!(!req.check_time(&s1));
    assert!(req.check_time(&s2));
    let r = req.get_value(&vec![s1, s2]);
    assert_eq!(r.monitor_value.len(), 1);
    assert_eq!(r.monitor_value[0].value.len(), 1);
    assert_eq!(r.monitor_value[0].value[0], vec![1500usize, 7usize]);
}

#[test]
fn rollback_review_list_is_flattened_and_sorted() {
    let older = DifferenceSql {
        host: String::from("h1"),
        etype: String::from("rollback"),
        cluster: String::from("c1"),
        total: 1,
        sqls: vec![SqlRelation::new(&String::from("a"), &String::from("ra"), &1)],
        time: 1000,
        status: 0,
    };
    let newer = DifferenceSql {
        host: String::from("h2"),
        etype: String::from("rollback"),
        cluster: String::from("c1"),
        total: 2,
        sqls: vec![
            SqlRelation::new(&String::from("b"), &String::from("rb"), &1),
            SqlRelation::new(&String::from("c"), &String::from("rc"), &2),
        ],
        time: 2000,
        status: 0,
    };
    let mut all = ResponseAllSql::new();
    all.init_sql_info(&vec![
        RowValue { key: String::from("k1"), value: older },
        RowValue { key: String::from("k2"), value: newer },
    ])
    .unwrap();
    assert_eq!(all.total, 3);
    assert_eq!(all.sql_info.len(), 3);
    assert_eq!(all.sql_info[0].time, 2000);
    assert_eq!(all.sql_info[1].time, 2000);
    assert_eq!(all.sql_info[2].time, 1000);
    assert_eq!(all.sql_info[2].current, "a");
}

#[test]
fn approved_statements_group_by_cluster() {
    let mut extra = ExtractAll::new();
    extra.extract(&PushSqlInfo {
        cluster_name: String::from("c1"),
        host: String::from("h1"),
        time: 1,
        number: 1,
        sql: String::from("s1"),
    });
    extra.extract(&PushSqlInfo {
        cluster_name: String::from("c2"),
        host: String::from("h2"),
        time: 2,
        number: 1,
        sql: String::from("s2"),
    });
    extra.extract(&PushSqlInfo {
        cluster_name: String::from("c1"),
        host: String::from("h1"),
        time: 1,
        number: 2,
        sql: String::from("s3"),
    });
    assert_eq!(extra.info.len(), 2);
    assert_eq!(extra.info[0].cluster_name, "c1");
    assert_eq!(extra.info[0].sqls, vec![String::from("s1"), String::from("s3")]);
    assert_eq!(extra.info[0].markinfo.len(), 2);
    assert_eq!(extra.info[1].sqls, vec![String::from("s2")]);
}

#[test]
fn master_lookup_follows_the_published_writer() {
    let extra = ExtractAll::new();
    let mut table = RouteInfo::new(String::from("c1"));
    let m = NodeInfo::new(
        &String::from("10.0.0.1:3306"),
        &registration("10.0.0.1:3306", "c1", true),
    );
    table.set_master_info(&m);
    let nodes = vec![
        RowValue { key: String::from("10.0.0.2:3306"), value: registration("10.0.0.2:3306", "c1", true) },
        RowValue { key: String::from("10.0.0.1:3306"), value: registration("10.0.0.1:3306", "c1", true) },
    ];
    let found = extra
        .get_master_info(&String::from("c1"), &table, &nodes)
        .unwrap();
    assert_eq!(found, "10.0.0.1:3306");
    let elsewhere = extra.get_master_info(&String::from("c9"), &table, &Vec::new());
    assert!(elsewhere.is_err());
}

#[test]
fn mark_key_matches_the_rollback_keying() {
    let mark = MarkSqlInfo {
        cluster_name: String::from("c1"),
        host: String::from("h"),
        time: 1000,
        number: 1,
    };
    assert_eq!(mark.mark_key(), "c1:h_1000");
}

#[test]
fn switch_log_takes_rows_over() {
    let mut log = SwitchLog::new();
    let mut a = mysql_ha::storage::opdb::HaChangeLog::new();
    a.cluster_name = String::from("c1");
    log.get_all(vec![RowValue { key: String::from("h_1"), value: a }]);
    assert_eq!(log.log_data.len(), 1);
    let entry: &RowLog = &log.log_data[0];
    assert_eq!(entry.row_key, "h_1");
    assert_eq!(entry.data.cluster_name, "c1");
}

#[test]
fn cluster_summary_counts_and_last_switch() {
    let mut info = ClusterMonitorInfo::new(&String::from("c1"));
    let mut members = ClusterNodeInfo::new(&String::from("c1"));
    let mut master_state = MysqlState::new();
    master_state.role = String::from("master");
    let mut online_master = registration("a", "c1", true);
    online_master.online = true;
    members.init(
        &vec![online_master, registration("b", "c1", false)],
        &vec![master_state, MysqlState::new()],
    );
    let mut done = mysql_ha::storage::opdb::HaChangeLog::new();
    done.cluster_name = String::from("c1");
    done.switch_status = true;
    let rows = vec![HaLogRow { key: String::from("b_2000"), time: 2000, log: done }];
    info.init(&members, &Vec::new(), &rows, &String::from("c1"));
    assert_eq!(info.monitor_status.failover_count, "1/2");
    assert!(info.cluster_info.cluster_state);
    assert!(!info.cluster_info.difference_data);
    assert_eq!(info.switch_info.switch_total, 1);
    assert_eq!(info.switch_info.last_switch_time, 2000);
    assert!(info.switch_info.last_switch_state);
}

#[test]
fn response_states() {
    let ok = ResponseState::ok();
    assert_eq!(ok.status, 1);
    assert_eq!(ok.err, "OK");
    let err = ResponseState::error(String::from("boom"));
    assert_eq!(err.status, 0);
    assert_eq!(err.err, "boom");
    assert_eq!(ResponseState::no_session().status, 2);
}
