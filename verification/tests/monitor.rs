use node_monitor::cli::{health_port, Cli};
use node_monitor::fetch::{
    api_token_header, cluster_status_urls, fetch_step, most_updated_index, token_header_name,
    FetchAction, FetchError, FetchEvent, FetchStage,
};
use node_monitor::health::{health_data_dir, health_status_code};
use node_monitor::paths::{data_file_path, settings_file_path, status_url};
use node_monitor::store::{
    fallback_local_response, mark_unreachable_at, record_round, record_round_at, round_arithmetic_fits,
    RoundRecord,
};
use node_monitor::types::{MonitorSettings, NodeResponse, Payload, Status};

fn node(round: i64, since: i64) -> NodeResponse {
    let mut r = NodeResponse::default();
    r.last_round = round;
    r.time_since_last_round = since;
    r
}

fn payload(status: Status, stamp: Option<&str>, local: i64, remote: i64, offset: i64) -> Payload {
    Payload {
        status,
        time_stamp: stamp.map(|s| s.to_string()),
        local_last_round: local,
        remote_last_round: remote,
        offset,
        time_since_last: 0,
    }
}

fn same(a: &Payload, b: &Payload) -> bool {
    a.status == b.status
        && a.time_stamp == b.time_stamp
        && a.local_last_round == b.local_last_round
        && a.remote_last_round == b.remote_last_round
        && a.offset == b.offset
        && a.time_since_last == b.time_since_last
}

fn settings(nodes: &[&str], local: &str) -> MonitorSettings {
    let mut s = MonitorSettings::default();
    s.cluster_nodes = nodes.iter().map(|n| n.to_string()).collect();
    s.local_node = local.to_string();
    s.valid_round_range = 1;
    s
}

#[test]
fn fresh_record_answers_ok() {
    // A fresh record reports a synced node, which the health endpoint answers with OK.
    let p = Payload::default();
    assert_eq!(p.status, Status::Synced);
    assert_eq!(health_status_code(p.status), 200);
}

#[test]
fn health_codes_for_each_status() {
    assert_eq!(health_status_code(Status::Synced), 200);
    assert_eq!(health_status_code(Status::Stopped), 503);
    assert_eq!(health_status_code(Status::CatchingUp), 503);
}

#[test]
fn health_dir_ignores_missing_or_empty() {
    assert_eq!(health_data_dir(None), None);
    assert_eq!(health_data_dir(Some(String::new())), None);
    assert_eq!(health_data_dir(Some("/var/lib".to_string())), Some("/var/lib".to_string()));
}

#[test]
fn settings_path_defaults() {
    assert_eq!(settings_file_path(None, "/opt/monitor".to_string()), "/opt/monitor/settings.json");
    assert_eq!(settings_file_path(Some("conf/a.json".to_string()), "/opt/monitor".to_string()), "conf/a.json");
}

#[test]
fn data_path_in_dir_or_here() {
    assert_eq!(data_file_path(None, "/opt/monitor".to_string()), "/opt/monitor/data.json");
    assert_eq!(data_file_path(Some("/tmp/mon".to_string()), "/opt/monitor".to_string()), "/tmp/mon/data.json");
    assert_eq!(data_file_path(Some(String::new()), "/opt/monitor".to_string()), "/data.json");
}

#[test]
fn status_url_appends_endpoint() {
    assert_eq!(status_url("http://localhost:8080"), "http://localhost:8080/v2/status");
    assert_eq!(status_url(""), "/v2/status");
}

#[test]
fn log_filter_follows_verbosity() {
    let mut c = Cli::default();
    assert_eq!(c.log_filter(), "actix_web=info,node_monitor=info");
    c.verbose = true;
    assert_eq!(c.log_filter(), "actix_web=trace,node_monitor=trace");
}

#[test]
fn port_must_fit() {
    assert_eq!(health_port(9030), Some(9030));
    assert_eq!(health_port(65535), Some(65535));
    assert_eq!(health_port(65536), None);
}

#[test]
fn token_header_cases() {
    assert_eq!(token_header_name(), "X-Algo-API-Token");
    assert!(matches!(api_token_header(""), Ok(None)));
    match api_token_header("abc\tdef") {
        Ok(Some(v)) => assert_eq!(v.value.to_str().unwrap(), "abc\tdef"),
        _ => panic!("valid token refused"),
    }
    assert!(matches!(api_token_header("bad\ntoken"), Err(FetchError::InvalidToken)));
    assert!(matches!(api_token_header("del\u{7f}"), Err(FetchError::InvalidToken)));
    assert!(matches!(api_token_header("caf\u{e9}"), Ok(Some(_))));
}

#[test]
fn most_updated_prefers_highest_then_last() {
    let answers = vec![Some(node(5, 0)), None, Some(node(9, 1)), Some(node(9, 2)), Some(node(3, 0))];
    assert_eq!(most_updated_index(&answers), Some(3));
    let answers = vec![None, Some(node(-4, 0)), None];
    assert_eq!(most_updated_index(&answers), Some(1));
    let answers: Vec<Option<NodeResponse>> = vec![None, None];
    assert_eq!(most_updated_index(&answers), None);
    assert_eq!(most_updated_index(&Vec::new()), None);
}

#[test]
fn stall_beyond_range_marks_stopped_once() {
    let store = payload(Status::Synced, None, 10, 12, 5);
    let r: RoundRecord = record_round_at(store, &node(10, 7), &node(20, 0), 1, true, "t1".to_string());
    let expected = Payload {
        status: Status::Stopped,
        time_stamp: Some("t1".to_string()),
        local_last_round: 10,
        remote_last_round: 20,
        offset: 10,
        time_since_last: 7,
    };
    assert!(same(&r.store, &expected));
    assert_eq!(r.writes.len(), 1);
    assert!(same(&r.writes[0], &expected));
    // Already stopped: the first stop time stays.
    let again = record_round_at(r.store, &node(10, 8), &node(25, 0), 1, true, "t2".to_string());
    assert_eq!(again.store.time_stamp, Some("t1".to_string()));
    assert_eq!(again.store.offset, 15);
    assert_eq!(again.writes.len(), 1);
}

#[test]
fn stall_within_range_writes_nothing() {
    let store = payload(Status::CatchingUp, None, 10, 11, 1);
    let r = record_round_at(store, &node(10, 3), &node(30, 0), 1, true, "t".to_string());
    assert!(r.writes.is_empty());
    assert!(same(&r.store, &payload(Status::CatchingUp, None, 10, 11, 1)));
}

#[test]
fn progress_to_remote_round_is_synced() {
    let store = payload(Status::Stopped, Some("t0"), 10, 15, 5);
    let r = record_round_at(store, &node(15, 2), &node(15, 0), 1, true, "t".to_string());
    let expected = Payload {
        status: Status::Synced,
        time_stamp: None,
        local_last_round: 15,
        remote_last_round: 15,
        offset: 0,
        time_since_last: 2,
    };
    assert_eq!(r.writes, vec![expected.clone()]);
    assert_eq!(r.store, expected);
    assert_eq!(health_status_code(r.store.status), 200);
}

#[test]
fn progress_behind_remote_is_catching_up() {
    let store = payload(Status::Synced, None, 10, 10, 0);
    let r = record_round_at(store, &node(12, 4), &node(20, 0), 1, true, "t".to_string());
    assert_eq!(r.writes.len(), 1);
    assert_eq!(r.store.status, Status::CatchingUp);
    assert_eq!(r.store.offset, 8);
    assert_eq!(r.store.local_last_round, 12);
    assert_eq!(r.store.remote_last_round, 20);
}

#[test]
fn lower_round_matching_remote_is_synced_only() {
    let store = payload(Status::CatchingUp, None, 30, 30, 0);
    let r = record_round_at(store, &node(20, 1), &node(20, 0), 1, true, "t".to_string());
    assert_eq!(r.writes.len(), 1);
    assert_eq!(r.store.status, Status::Synced);
    assert_eq!(r.store.local_last_round, 30);
    assert_eq!(r.store.remote_last_round, 20);
    assert_eq!(r.store.offset, 0);
}

#[test]
fn lower_round_behind_remote_changes_nothing() {
    let store = payload(Status::CatchingUp, None, 30, 30, 0);
    let r = record_round_at(store, &node(20, 1), &node(40, 0), 1, true, "t".to_string());
    assert!(r.writes.is_empty());
    assert!(same(&r.store, &payload(Status::CatchingUp, None, 30, 30, 0)));
}

#[test]
fn lost_connection_counts_as_idle() {
    let store = payload(Status::Synced, None, 10, 10, 3);
    let r = record_round_at(store, &node(10, 0), &node(14, 0), 2, false, "t9".to_string());
    assert_eq!(r.store.status, Status::Stopped);
    assert_eq!(r.store.time_stamp, Some("t9".to_string()));
    assert_eq!(r.store.offset, 4);
}

#[test]
fn record_round_reads_clock_when_stopping() {
    let store = payload(Status::Synced, None, 10, 12, 5);
    let r = record_round(store, &node(10, 0), &node(20, 0), 1, true);
    assert_eq!(r.store.status, Status::Stopped);
    let stamp = r.store.time_stamp.clone().expect("stop time set");
    assert!(stamp.ends_with("UTC"));
    let store = payload(Status::Synced, None, 10, 10, 0);
    let r = record_round(store, &node(11, 0), &node(11, 0), 1, true);
    assert_eq!(r.store.time_stamp, None);
    assert_eq!(r.store.status, Status::Synced);
    let r = record_round(payload(Status::Synced, None, 10, 10, 0), &node(12, 0), &node(15, 0), 1, true);
    assert_eq!(r.store.status, Status::CatchingUp);
}

#[test]
fn unreachable_local_node_is_stopped() {
    let store = payload(Status::CatchingUp, None, 50, 55, 5);
    let p = mark_unreachable_at(store, 70, "t3".to_string());
    assert!(same(&p, &Payload {
        status: Status::Stopped,
        time_stamp: Some("t3".to_string()),
        local_last_round: 50,
        remote_last_round: 70,
        offset: 20,
        time_since_last: 0,
    }));
    let f = fallback_local_response(&p);
    assert_eq!(f.last_round, 50);
    assert_eq!(f.time_since_last_round, 0);
    assert_eq!(f.last_version, "");
    assert!(!f.next_version_supported);
}

#[test]
fn defaults_are_empty() {
    let p = Payload::default();
    assert!(same(&p, &payload(Status::Synced, None, 0, 0, 0)));
    assert_eq!(Status::default(), Status::Synced);
    let n = NodeResponse::default();
    assert_eq!(n.last_round, 0);
    assert_eq!(n.next_version, "");
    let c = Cli::default();
    assert!(c.config.is_none() && c.data_dir.is_none() && !c.verbose);
}

#[test]
fn cluster_urls_in_order() {
    let s = settings(&["http://a", "http://b"], "http://local");
    assert_eq!(cluster_status_urls(&s), vec!["http://a/v2/status".to_string(), "http://b/v2/status".to_string()]);
}

#[test]
fn poll_with_reachable_local_node() {
    let s = settings(&["http://a", "http://b"], "http://local");
    let (st, act) = fetch_step(FetchStage::Start, FetchEvent::Begin, &s);
    assert!(matches!(st, FetchStage::AwaitRemotes));
    match act {
        FetchAction::QueryRemotes(urls) => assert_eq!(urls, vec!["http://a/v2/status", "http://b/v2/status"]),
        _ => panic!("expected remote queries"),
    }
    let (st, act) = fetch_step(st, FetchEvent::RemotesAnswered(vec![Some(node(7, 0)), Some(node(9, 0))]), &s);
    match &st {
        FetchStage::AwaitLocal { remote } => assert_eq!(remote.last_round, 9),
        _ => panic!("expected to await the local node"),
    }
    match act {
        FetchAction::QueryLocal(url) => assert_eq!(url, "http://local/v2/status"),
        _ => panic!("expected local query"),
    }
    let (st, act) = fetch_step(st, FetchEvent::LocalAnswered(Some(node(8, 1))), &s);
    assert!(matches!(st, FetchStage::Done));
    match act {
        FetchAction::Record { local, remote, local_connection } => {
            assert_eq!(local.last_round, 8);
            assert_eq!(remote.last_round, 9);
            assert!(local_connection);
        }
        _ => panic!("expected to record the round"),
    }
}

#[test]
fn poll_with_unreachable_local_node() {
    let s = settings(&["http://a"], "http://local");
    let st = FetchStage::AwaitLocal { remote: node(40, 0) };
    let (st, act) = fetch_step(st, FetchEvent::LocalAnswered(None), &s);
    assert!(matches!(st, FetchStage::AwaitStore { .. }));
    assert!(matches!(act, FetchAction::LoadStore));
    let store = payload(Status::Synced, None, 30, 30, 0);
    let (st, act) = fetch_step(st, FetchEvent::StoreLoaded(store), &s);
    match act {
        FetchAction::WriteStore(p) => {
            assert_eq!(p.status, Status::Stopped);
            assert_eq!(p.offset, 10);
            assert_eq!(p.remote_last_round, 40);
            assert!(p.time_stamp.is_some());
        }
        _ => panic!("expected a write"),
    }
    let (st, act) = fetch_step(st, FetchEvent::StoreWritten, &s);
    assert!(matches!(st, FetchStage::Done));
    match act {
        FetchAction::Record { local, remote, local_connection } => {
            assert_eq!(local.last_round, 30);
            assert_eq!(remote.last_round, 40);
            assert!(!local_connection);
        }
        _ => panic!("expected to record the round"),
    }
}

#[test]
fn poll_ends_when_no_remote_answers() {
    let s = settings(&["http://a"], "http://local");
    let (st, act) = fetch_step(FetchStage::AwaitRemotes, FetchEvent::RemotesAnswered(vec![None]), &s);
    assert!(matches!(st, FetchStage::Done));
    assert!(matches!(act, FetchAction::Finish));
    let (st, act) = fetch_step(FetchStage::Done, FetchEvent::Begin, &s);
    assert!(matches!(st, FetchStage::Done));
    assert!(matches!(act, FetchAction::Finish));
}

fn consistent(p: &Payload) -> bool {
    (p.status == Status::Stopped) == p.time_stamp.is_some()
}

#[test]
fn arithmetic_fit_is_checked_per_branch() {
    let store = payload(Status::Synced, None, i64::MIN, 0, 5);
    // Idle beyond range: remote minus stored local round overflows.
    assert!(!round_arithmetic_fits(&store, &node(i64::MIN, 0), &node(1, 0), 1, true));
    // Idle within range: nothing is computed.
    assert!(round_arithmetic_fits(&store, &node(i64::MIN, 0), &node(1, 0), 10, true));
    // Progress behind the remote round: remote minus reported local round.
    assert!(!round_arithmetic_fits(&store, &node(-1, 0), &node(i64::MAX, 0), 1, true));
    assert!(round_arithmetic_fits(&store, &node(-1, 0), &node(5, 0), 1, true));
    // Level with the remote round: nothing is subtracted.
    assert!(round_arithmetic_fits(&store, &node(i64::MAX, 0), &node(i64::MAX, 0), 1, true));
}

#[test]
fn stop_time_stays_consistent_over_rounds() {
    let mut store = Payload::default();
    assert!(consistent(&store));
    let rounds: [(i64, i64, bool); 7] =
        [(0, 5, true), (0, 9, false), (3, 9, true), (9, 9, true), (10, 12, true), (10, 14, true), (10, 16, false)];
    for (local, remote, conn) in rounds {
        let local = if conn { local } else { store.local_last_round };
        let before = store.local_last_round;
        let r = record_round_at(store, &node(local, 0), &node(remote, 0), 0, conn, format!("t{remote}"));
        for w in &r.writes {
            assert!(consistent(w));
            if w.status == Status::Synced {
                assert_eq!(w.offset, 0);
            } else {
                assert_eq!(w.offset, w.remote_last_round - w.local_last_round);
            }
        }
        assert!(consistent(&r.store));
        assert!(r.store.local_last_round >= before);
        store = r.store;
    }
    assert_eq!(store.status, Status::Stopped);
    assert_eq!(store.time_stamp, Some("t14".to_string()));
    assert_eq!(store.offset, 6);
    let p = mark_unreachable_at(payload(Status::Synced, None, 4, 4, 0), 6, "t".to_string());
    assert!(consistent(&p));
    assert_eq!(p.offset, p.remote_last_round - p.local_last_round);
}

#[test]
fn tie_has_a_single_winner() {
    let answers = vec![Some(node(4, 0)), Some(node(4, 1))];
    assert_eq!(most_updated_index(&answers), Some(1));
}

#[test]
fn records_compare_by_fields() {
    let a = payload(Status::Stopped, Some("t"), 1, 2, 1);
    assert_eq!(a, a.clone());
    assert_ne!(a, payload(Status::Stopped, None, 1, 2, 1));
    assert_ne!(a, payload(Status::Stopped, Some("u"), 1, 2, 1));
    assert_ne!(a, payload(Status::Synced, Some("t"), 1, 2, 1));
    assert_eq!(node(3, 4), node(3, 4));
    let mut n = node(3, 4);
    n.next_version = "v2".to_string();
    assert_ne!(n, node(3, 4));
}

#[test]
fn each_round_writes_at_most_once() {
    let stores = [
        payload(Status::Synced, None, 10, 12, 5),
        payload(Status::Stopped, Some("t"), 10, 12, 5),
        payload(Status::CatchingUp, None, 10, 12, 0),
    ];
    for st in stores.iter() {
        for (local, remote, conn) in [(10, 12, true), (12, 12, true), (11, 12, true), (9, 9, true), (10, 20, false)] {
            let r = record_round_at(st.clone(), &node(local, 0), &node(remote, 0), 1, conn, "n UTC".to_string());
            assert!(r.writes.len() <= 1);
            match r.writes.last() {
                Some(w) => assert_eq!(w, &r.store),
                None => assert_eq!(&r.store, st),
            }
            if r.store.time_stamp.is_some() {
                assert_eq!(r.store.status, Status::Stopped);
            }
        }
    }
}
