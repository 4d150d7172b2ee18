use syncthing_monitor::client::MonitorError;
use syncthing_monitor::cycle::{next_pair, AggregationCycle, CycleReply, CycleRequest, CycleStep};
use syncthing_monitor::daemon::{
    ConnectionsResponse, DeviceConfig, FolderConfig, FolderDevice, RemoteCompletion, SyncthingConfig,
};
use syncthing_monitor::events::SyncthingEvent;
use syncthing_monitor::json::JsonValue;

fn s(v: &str) -> JsonValue {
    JsonValue::Str(v.to_string())
}

fn obj(fields: Vec<(&str, JsonValue)>) -> JsonValue {
    JsonValue::Object(fields.into_iter().map(|(k, v)| (k.to_string(), v)).collect())
}

fn folder(id: &str, devices: &[&str]) -> FolderConfig {
    FolderConfig {
        id: id.to_string(),
        label: None,
        path: None,
        paused: None,
        devices: devices.iter().map(|d| FolderDevice { device_id: d.to_string() }).collect(),
    }
}

fn config() -> SyncthingConfig {
    SyncthingConfig {
        folders: vec![folder("docs", &["ME", "A"]), folder("music", &[]), folder("pics", &["", "B", "A"])],
        devices: vec![
            DeviceConfig { device_id: "ME".to_string(), name: None, paused: None },
            DeviceConfig { device_id: "A".to_string(), name: Some("alpha".to_string()), paused: Some(true) },
            DeviceConfig { device_id: "B".to_string(), name: Some("Beta".to_string()), paused: None },
        ],
    }
}

fn next(step: CycleStep) -> CycleRequest {
    match step {
        CycleStep::Next(r) => r,
        _ => panic!("the cycle should go on"),
    }
}

fn folder_status(global: u64, need: u64) -> JsonValue {
    obj(vec![
        ("globalBytes", JsonValue::Number(Some(global))),
        ("needBytes", JsonValue::Number(Some(need))),
        ("state", s("idle")),
    ])
}

#[test]
fn cycle_asks_in_order_and_survives_lost_connections() {
    let mut cycle = AggregationCycle::new(0);
    assert_eq!(cycle.pending, CycleRequest::Status);
    let mut seen = vec![cycle.pending];
    seen.push(next(cycle.step(CycleReply::Status(obj(vec![("myID", s("ME"))])))));
    seen.push(next(cycle.step(CycleReply::Config(config()))));
    let events = vec![SyncthingEvent {
        id: 3,
        event_type: "ItemFinished".to_string(),
        time: "bad".to_string(),
        data: obj(vec![("folder", s("pics")), ("item", s("cat.jpg"))]),
    }];
    seen.push(next(cycle.step(CycleReply::Events(events))));
    seen.push(next(cycle.step(CycleReply::FolderStatus(folder_status(100, 0)))));
    seen.push(next(cycle.step(CycleReply::FolderStatus(folder_status(0, 0)))));
    seen.push(next(cycle.step(CycleReply::FolderStatus(folder_status(200, 50)))));
    seen.push(next(cycle.step(CycleReply::Completion(RemoteCompletion { completion: Some(10000), need_bytes: Some(0) }))));
    seen.push(next(cycle.step(CycleReply::Failed(MonitorError::Http("timeout".to_string())))));
    seen.push(next(cycle.step(CycleReply::Completion(RemoteCompletion { completion: Some(5000), need_bytes: Some(7) }))));
    assert_eq!(
        seen,
        vec![
            CycleRequest::Status,
            CycleRequest::Config,
            CycleRequest::Events,
            CycleRequest::FolderStatus(0),
            CycleRequest::FolderStatus(1),
            CycleRequest::FolderStatus(2),
            CycleRequest::Completion(0, 1),
            CycleRequest::Completion(2, 1),
            CycleRequest::Completion(2, 2),
            CycleRequest::Connections,
        ]
    );
    assert_eq!(cycle.samples.len(), 2);
    let data = match cycle.step(CycleReply::Failed(MonitorError::Http("refused".to_string()))) {
        CycleStep::Done(data) => data,
        _ => panic!("lost connections should not end the cycle"),
    };
    assert!(data.overview.available);
    assert_eq!(data.overview.my_id.as_deref(), Some("ME"));
    assert_eq!(data.folders.len(), 3);
    assert_eq!(data.folders[2].completion, 7500);
    assert_eq!(data.folders[2].last_changes[0].name, "cat.jpg");
    assert_eq!(data.folders[2].last_changes[0].when, "bad");
    assert_eq!(data.folders[2].peers_need_summary.map(|s| (s.peer_count, s.need_bytes)), Some((1, 7)));
    let names: Vec<&str> = data.peers.iter().map(|p| p.name.as_str()).collect();
    assert_eq!(names, vec!["alpha", "Beta"]);
    assert!(data.peers.iter().all(|p| !p.connected));
    assert!(data.peers[0].paused);
    assert!(!data.peers[1].paused);
    assert_eq!(data.peers[0].completion, Some(7500));
    assert_eq!(data.peers[0].need_bytes, Some(7));
    assert_eq!(data.peers[1].completion, None);
}

#[test]
fn cycle_ends_on_a_mandatory_failure() {
    let mut cycle = AggregationCycle::new(0);
    next(cycle.step(CycleReply::Status(JsonValue::Null)));
    match cycle.step(CycleReply::Failed(MonitorError::Syncthing("/rest/config returned 403".to_string()))) {
        CycleStep::Failed(MonitorError::Syncthing(m)) => assert_eq!(m, "/rest/config returned 403"),
        _ => panic!("a failed configuration ends the cycle"),
    }
}

#[test]
fn cycle_ends_on_a_failed_folder_status() {
    let mut cycle = AggregationCycle::new(0);
    next(cycle.step(CycleReply::Status(JsonValue::Null)));
    next(cycle.step(CycleReply::Config(config())));
    next(cycle.step(CycleReply::Events(vec![])));
    assert!(matches!(cycle.step(CycleReply::Failed(MonitorError::Http("x".to_string()))), CycleStep::Failed(MonitorError::Http(_))));
}

#[test]
fn cycle_without_folders_goes_to_connections() {
    let mut cycle = AggregationCycle::new(0);
    next(cycle.step(CycleReply::Status(JsonValue::Null)));
    let empty = SyncthingConfig { folders: vec![], devices: vec![] };
    assert_eq!(next(cycle.step(CycleReply::Config(empty))), CycleRequest::Connections);
    match cycle.step(CycleReply::Connections(ConnectionsResponse::empty())) {
        CycleStep::Done(data) => {
            assert!(data.folders.is_empty());
            assert!(data.peers.is_empty());
        }
        _ => panic!("the cycle should be done"),
    }
}

#[test]
fn cycle_refuses_a_reply_of_another_kind() {
    let mut cycle = AggregationCycle::new(0);
    assert!(matches!(cycle.step(CycleReply::Events(vec![])), CycleStep::Failed(MonitorError::Syncthing(_))));
}

#[test]
fn next_pair_skips_local_and_empty_devices() {
    let folders = vec![folder("docs", &["ME", "A"]), folder("music", &[]), folder("pics", &["", "B"])];
    assert_eq!(next_pair(&folders, Some("ME"), 0, 0), Some((0, 1)));
    assert_eq!(next_pair(&folders, Some("ME"), 0, 2), Some((2, 1)));
    assert_eq!(next_pair(&folders, Some("ME"), 2, 2), None);
    assert_eq!(next_pair(&folders, None, 0, 0), Some((0, 0)));
}

#[test]
fn cycle_goes_on_without_events() {
    let mut cycle = AggregationCycle::new(0);
    next(cycle.step(CycleReply::Status(obj(vec![("myID", s("ME"))]))));
    next(cycle.step(CycleReply::Config(config())));
    let after = next(cycle.step(CycleReply::Failed(MonitorError::Http("events timed out".to_string()))));
    assert_eq!(after, CycleRequest::FolderStatus(0));
    assert!(cycle.events.is_empty());
    next(cycle.step(CycleReply::FolderStatus(folder_status(100, 0))));
    next(cycle.step(CycleReply::FolderStatus(folder_status(0, 0))));
    next(cycle.step(CycleReply::FolderStatus(folder_status(200, 50))));
    next(cycle.step(CycleReply::Failed(MonitorError::Http("x".to_string()))));
    next(cycle.step(CycleReply::Failed(MonitorError::Http("x".to_string()))));
    let last = next(cycle.step(CycleReply::Failed(MonitorError::Http("x".to_string()))));
    assert_eq!(last, CycleRequest::Connections);
    match cycle.step(CycleReply::Connections(ConnectionsResponse::empty())) {
        CycleStep::Done(data) => {
            assert_eq!(data.folders.len(), 3);
            assert!(data.folders.iter().all(|f| f.last_changes.is_empty()));
            assert_eq!(data.folders[2].completion, 7500);
        }
        _ => panic!("a failed events request should not end the cycle"),
    }
}
