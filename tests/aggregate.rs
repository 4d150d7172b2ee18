use syncthing_monitor::aggregator::DataAggregator;
use syncthing_monitor::daemon::{
    ConnectionState, ConnectionsResponse, DeviceConfig, FolderConfig, FolderDevice, RemoteCompletion,
    SyncthingConfig,
};
use syncthing_monitor::events::{latest_folder_change, latest_folder_changes, SyncthingEvent};
use syncthing_monitor::json::JsonValue;
use syncthing_monitor::metrics::{need_summary_for, progress_for, wants_completion, CompletionSample};
use syncthing_monitor::overview::SyncthingOverview;
use syncthing_monitor::peer::PeerProgress;
use syncthing_monitor::roster::{compose_peers, insertion_point};
use syncthing_monitor::state::FolderStateCode;

fn s(v: &str) -> JsonValue {
    JsonValue::Str(v.to_string())
}

fn obj(fields: Vec<(&str, JsonValue)>) -> JsonValue {
    JsonValue::Object(fields.into_iter().map(|(k, v)| (k.to_string(), v)).collect())
}

fn event(id: u64, t: &str, data: JsonValue) -> SyncthingEvent {
    SyncthingEvent { id, event_type: t.to_string(), time: "2024-01-01T00:00:00Z".to_string(), data }
}

fn folder(id: &str, label: Option<&str>, devices: &[&str]) -> FolderConfig {
    FolderConfig {
        id: id.to_string(),
        label: label.map(|l| l.to_string()),
        path: Some(format!("/data/{id}")),
        paused: None,
        devices: devices.iter().map(|d| FolderDevice { device_id: d.to_string() }).collect(),
    }
}

fn device(id: &str, name: Option<&str>, paused: Option<bool>) -> DeviceConfig {
    DeviceConfig { device_id: id.to_string(), name: name.map(|n| n.to_string()), paused }
}

fn sample(folder_index: usize, device_id: &str, completion: Option<u64>, need: Option<u64>) -> CompletionSample {
    CompletionSample {
        folder_index,
        device_id: device_id.to_string(),
        remote: RemoteCompletion { completion, need_bytes: need },
    }
}

const NOW: i64 = 1_704_067_200_000 + 600_000;

#[test]
fn event_fields_follow_their_fallbacks() {
    let e = event(
        1,
        "ItemFinished",
        obj(vec![
            ("folder", s("docs")),
            ("items", JsonValue::Array(vec![obj(vec![("x", s("y"))]), obj(vec![("item", s("a.txt")), ("action", s("update"))])])),
            ("peerID", s("PEER")),
        ]),
    );
    assert_eq!(e.folder_id(), Some("docs"));
    assert_eq!(e.file_name(), Some("a.txt".to_string()));
    assert_eq!(e.action(), Some("update".to_string()));
    assert_eq!(e.origin(), Some("PEER".to_string()));
}

#[test]
fn event_fields_missing_or_of_other_shape() {
    let e = event(2, "ItemStarted", obj(vec![("item", JsonValue::Number(Some(3))), ("files", JsonValue::Array(vec![obj(vec![("path", s("b.md"))])]))]));
    assert_eq!(e.folder_id(), None);
    assert_eq!(e.file_name(), Some("b.md".to_string()));
    assert_eq!(e.action(), None);
    assert_eq!(e.origin(), None);
    let odd = event(3, "ItemStarted", JsonValue::Array(vec![]));
    assert_eq!(odd.file_name(), None);
}

#[test]
fn latest_change_is_from_the_largest_id() {
    let mk = |id: u64, name: &str| event(id, "ItemFinished", obj(vec![("folder", s("f")), ("item", s(name))]));
    let events = vec![mk(50, "fifty"), mk(40, "forty"), mk(30, "thirty")];
    let c = latest_folder_change(&events, "f", NOW).unwrap();
    assert_eq!(c.name, "fifty");
    assert_eq!(c.action, "ItemFinished");
    assert_eq!(c.when, "10 min ago");
    let shuffled = vec![mk(30, "thirty"), mk(50, "fifty"), mk(40, "forty")];
    assert_eq!(latest_folder_change(&shuffled, "f", NOW).unwrap().name, "fifty");
}

#[test]
fn latest_change_skips_other_folders_and_types() {
    let events = vec![
        event(9, "StateChanged", obj(vec![("folder", s("f")), ("item", s("no"))])),
        event(8, "ItemFinished", obj(vec![("folder", s("g")), ("item", s("other"))])),
        event(7, "ItemFinished", obj(vec![("folder", s("f"))])),
        event(6, "LocalIndexUpdated", obj(vec![("folder", s("f")), ("file", s("yes"))])),
    ];
    assert_eq!(latest_folder_change(&events, "f", NOW).unwrap().name, "yes");
    let all = latest_folder_changes(&events, &vec!["f".to_string(), "h".to_string()], NOW);
    assert_eq!(all.len(), 2);
    assert!(all[1].is_none());
}

#[test]
fn average_is_held_below_full_while_bytes_are_owed() {
    let f = folder("f", None, &["A"]);
    let mut p = PeerProgress::new();
    p.record(&f, &RemoteCompletion { completion: Some(10000), need_bytes: Some(5) });
    p.record(&f, &RemoteCompletion { completion: Some(10000), need_bytes: None });
    assert_eq!(p.avg_completion(), Some(9999));
    assert_eq!(p.outstanding_need(), Some(5));
    assert_eq!(p.folders.len(), 2);
    assert_eq!(p.folders[0].folder_label, "f");
}

#[test]
fn average_without_owed_bytes() {
    let f = folder("f", Some("Photos"), &["A"]);
    let mut p = PeerProgress::new();
    assert_eq!(p.avg_completion(), None);
    assert_eq!(p.outstanding_need(), None);
    p.record(&f, &RemoteCompletion { completion: Some(10000), need_bytes: Some(0) });
    p.record(&f, &RemoteCompletion { completion: Some(5000), need_bytes: None });
    assert_eq!(p.avg_completion(), Some(7500));
    assert_eq!(p.outstanding_need(), None);
    assert_eq!(p.folders[1].folder_label, "Photos");
}

#[test]
fn need_sum_saturates() {
    let f = folder("f", None, &["A"]);
    let mut p = PeerProgress::new();
    p.record(&f, &RemoteCompletion { completion: None, need_bytes: Some(u64::MAX) });
    p.record(&f, &RemoteCompletion { completion: None, need_bytes: Some(10) });
    assert_eq!(p.outstanding_need(), Some(u64::MAX));
    assert_eq!(p.avg_completion(), None);
}

#[test]
fn local_and_unnamed_devices_are_not_asked() {
    assert!(wants_completion("PEER", Some("ME")));
    assert!(!wants_completion("ME", Some("ME")));
    assert!(!wants_completion("", None));
    assert!(wants_completion("PEER", None));
}

#[test]
fn progress_and_need_per_device_and_folder() {
    let folders = vec![folder("f", None, &["A", "B"]), folder("g", None, &["A"])];
    let samples = vec![
        sample(0, "A", Some(5000), Some(100)),
        sample(0, "B", Some(10000), Some(0)),
        sample(1, "A", Some(10000), Some(20)),
        sample(7, "A", Some(0), Some(1)),
    ];
    let pa = progress_for(&folders, &samples, &"A".to_string());
    assert_eq!(pa.completion_samples, 2);
    assert_eq!(pa.total_need_bytes, 120);
    assert_eq!(pa.avg_completion(), Some(7500));
    let sf = need_summary_for(&folders, &samples, &"f".to_string(), Some("ME")).unwrap();
    assert_eq!((sf.peer_count, sf.need_bytes), (1, 100));
    assert!(need_summary_for(&folders, &samples, &"g".to_string(), Some("A")).is_none());
}

#[test]
fn peers_sorted_case_insensitively_without_local() {
    let devices = vec![
        device("ME", Some("me"), None),
        device("Z", Some("Zed"), None),
        device("A", Some("apple"), None),
        device("", Some("nobody"), None),
        device("M", None, Some(true)),
    ];
    let peers = compose_peers(&devices, Some("ME"), &vec![], &vec![], &ConnectionsResponse::empty());
    let names: Vec<&str> = peers.iter().map(|p| p.name.as_str()).collect();
    assert_eq!(names, vec!["apple", "M", "Zed"]);
    assert!(peers.iter().all(|p| p.id != "ME" && !p.id.is_empty()));
}

#[test]
fn peers_without_connections_show_device_flags_only() {
    let devices = vec![device("A", Some("a"), Some(true)), device("B", Some("b"), None)];
    let peers = compose_peers(&devices, None, &vec![], &vec![], &ConnectionsResponse::empty());
    assert_eq!(peers.len(), 2);
    assert!(peers.iter().all(|p| !p.connected && p.address.is_none()));
    assert!(peers[0].paused);
    assert!(!peers[1].paused);
}

#[test]
fn peers_take_their_connection() {
    let devices = vec![device("A", Some("a"), None)];
    let conns = ConnectionsResponse {
        connections: vec![(
            "A".to_string(),
            ConnectionState {
                connected: true,
                paused: true,
                client_version: Some("v1.27".to_string()),
                address: Some("10.0.0.2:22000".to_string()),
                last_seen: None,
            },
        )],
    };
    let folders = vec![folder("f", None, &["A"])];
    let samples = vec![sample(0, "A", Some(10000), Some(0))];
    let peers = compose_peers(&devices, None, &folders, &samples, &conns);
    assert!(peers[0].connected && peers[0].paused);
    assert_eq!(peers[0].address.as_deref(), Some("10.0.0.2:22000"));
    assert_eq!(peers[0].client_version.as_deref(), Some("v1.27"));
    assert_eq!(peers[0].completion, Some(10000));
    assert_eq!(peers[0].need_bytes, None);
    assert_eq!(peers[0].folders.len(), 1);
}

#[test]
fn overview_reads_status_with_fallbacks() {
    let v = obj(vec![
        ("myID", s("ME")),
        ("version", s("v2")),
        ("status", s("ok")),
        ("startedAt", s("2024")),
        ("uptime", JsonValue::Number(Some(42))),
        ("dbSequence", JsonValue::Number(Some(7))),
        ("goroutineCount", JsonValue::Number(None)),
    ]);
    let o = SyncthingOverview::from_value(&v);
    assert!(o.available);
    assert_eq!(o.my_id.as_deref(), Some("ME"));
    assert_eq!(o.state.as_deref(), Some("ok"));
    assert_eq!(o.health.as_deref(), Some("ok"));
    assert_eq!(o.started_at.as_deref(), Some("2024"));
    assert_eq!(o.uptime_seconds, Some(42));
    assert_eq!(o.sequence, Some(7));
    assert_eq!(o.goroutine_count, None);
    assert!(o.errors.is_empty());
    let e = SyncthingOverview::error("down".to_string());
    assert!(!e.available);
    assert_eq!(e.errors, vec!["down".to_string()]);
}

#[test]
fn payload_of_a_cycle_without_connections() {
    let status = obj(vec![("myID", s("ME")), ("state", s("running"))]);
    let config = SyncthingConfig {
        folders: vec![folder("f", Some("Docs"), &["ME", "A"]), folder("g", None, &[])],
        devices: vec![device("ME", None, None), device("A", Some("alpha"), Some(true))],
    };
    let events = vec![event(5, "ItemFinished", obj(vec![("folder", s("f")), ("item", s("x.txt"))]))];
    let statuses = vec![
        obj(vec![
            ("globalBytes", JsonValue::Number(Some(400))),
            ("needBytes", JsonValue::Number(Some(100))),
            ("inSyncBytes", JsonValue::Number(Some(300))),
            ("state", s("syncing")),
        ]),
        obj(vec![("state", s("idle"))]),
    ];
    let samples = vec![sample(0, "A", Some(5000), Some(64)), sample(0, "ME", Some(0), Some(999))];
    let data = match DataAggregator::new(NOW).compose_payload(&status, &config, &events, &statuses, &samples, &ConnectionsResponse::empty()) {
        Ok(data) => data,
        Err(_) => panic!("the statuses match the folders"),
    };
    assert!(data.overview.available);
    assert_eq!(data.folders.len(), 2);
    let f = &data.folders[0];
    assert_eq!(f.label, "Docs");
    assert_eq!(f.completion, 7500);
    assert_eq!(f.state_code, FolderStateCode::Syncing);
    assert_eq!(f.last_changes.len(), 1);
    assert_eq!(f.last_changes[0].name, "x.txt");
    let summary = f.peers_need_summary.unwrap();
    assert_eq!((summary.peer_count, summary.need_bytes), (1, 64));
    let g = &data.folders[1];
    assert_eq!(g.label, "g");
    assert_eq!(g.completion, 0);
    assert_eq!(g.state_code, FolderStateCode::UpToDate);
    assert!(g.last_changes.is_empty());
    assert!(g.peers_need_summary.is_none());
    assert_eq!(data.peers.len(), 1);
    assert_eq!(data.peers[0].id, "A");
    assert!(!data.peers[0].connected);
    assert!(data.peers[0].paused);
    assert_eq!(data.peers[0].completion, Some(5000));
    assert_eq!(data.peers[0].need_bytes, Some(64));
}

#[test]
fn insertion_point_after_equal_keys() {
    let keys: Vec<Vec<char>> = ["alpha", "beta", "beta", "delta"].iter().map(|k| k.chars().collect()).collect();
    assert_eq!(insertion_point(&keys, &"beta".chars().collect()), 3);
    assert_eq!(insertion_point(&keys, &"aardvark".chars().collect()), 0);
    assert_eq!(insertion_point(&keys, &"zulu".chars().collect()), 4);
    assert_eq!(insertion_point(&vec![], &"x".chars().collect()), 0);
}

#[test]
fn peers_with_equal_names_keep_configuration_order() {
    let devices = vec![device("B", Some("Same"), None), device("A", Some("same"), None), device("C", Some("other"), None)];
    let peers = compose_peers(&devices, None, &vec![], &vec![], &ConnectionsResponse::empty());
    let ids: Vec<&str> = peers.iter().map(|p| p.id.as_str()).collect();
    assert_eq!(ids, vec!["C", "B", "A"]);
}

#[test]
fn payload_refuses_statuses_that_do_not_match_the_folders() {
    let config = SyncthingConfig { folders: vec![folder("f", None, &[])], devices: vec![] };
    let r = DataAggregator::new(NOW).compose_payload(&JsonValue::Null, &config, &vec![], &vec![], &vec![], &ConnectionsResponse::empty());
    assert!(r.is_err());
}
