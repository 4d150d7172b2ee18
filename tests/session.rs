use syncthing_monitor::client::{
    api_key_from_config_xml, api_key_from_env, clamp_wait_secs, extract_api_key, join_url,
    push_unique_url, wait_result, ApiSession, MonitorError,
};
use syncthing_monitor::config::{default_config_dir, default_service_name, Config};
use syncthing_monitor::deployment::DownloadProgress;

#[test]
fn api_key_between_tags_trimmed() {
    let xml = "<configuration><gui><apikey>\n  abc123 \t</apikey></gui></configuration>";
    assert_eq!(extract_api_key(xml), Some("abc123".to_string()));
    assert_eq!(extract_api_key("<apikey></apikey><apikey>x</apikey>"), Some(String::new()));
}

#[test]
fn missing_api_key_is_a_missing_credential() {
    assert!(matches!(api_key_from_config_xml("<configuration/>"), Err(MonitorError::MissingApiKey)));
    assert!(matches!(api_key_from_config_xml("<apikey>never closed"), Err(MonitorError::MissingApiKey)));
    assert!(matches!(api_key_from_config_xml("<apikey>k</apikey>"), Ok(k) if k == "k"));
    assert_eq!(api_key_from_env(None), None);
    assert_eq!(api_key_from_env(Some("   ")), None);
    assert_eq!(api_key_from_env(Some(" key ")), Some(" key ".to_string()));
}

#[test]
fn endpoints_in_order_without_repeats() {
    let plain = ApiSession::new("k".to_string(), None);
    assert_eq!(plain.base_urls, vec!["https://127.0.0.1:8384".to_string(), "http://127.0.0.1:8384".to_string()]);
    let custom = ApiSession::new("k".to_string(), Some("  http://10.0.0.5:8384/ "));
    assert_eq!(custom.base_urls.len(), 3);
    assert_eq!(custom.base_urls[0], "http://10.0.0.5:8384/");
    assert_eq!(custom.url_for("/rest/config"), "http://10.0.0.5:8384/rest/config");
    let same = ApiSession::new("k".to_string(), Some("http://127.0.0.1:8384"));
    assert_eq!(same.base_urls, vec!["http://127.0.0.1:8384".to_string(), "https://127.0.0.1:8384".to_string()]);
    let blank = ApiSession::new("k".to_string(), Some("  "));
    assert_eq!(blank.base_urls.len(), 2);
    assert_eq!(blank.api_key, "k");
}

#[test]
fn push_unique_keeps_one_copy() {
    let mut v = vec!["a".to_string()];
    push_unique_url(&mut v, "a".to_string());
    push_unique_url(&mut v, "b".to_string());
    assert_eq!(v, vec!["a".to_string(), "b".to_string()]);
}

#[test]
fn urls_join_with_one_slash() {
    assert_eq!(join_url("http://h:1///", "//rest/x"), "http://h:1/rest/x");
    assert_eq!(join_url("http://h:1", "rest/x"), "http://h:1/rest/x");
}

#[test]
fn long_poll_outcome() {
    let r = wait_result(5, &vec![7, 6]);
    assert_eq!(r.last_event_id, 7);
    assert!(r.has_updates);
    let none = wait_result(5, &vec![]);
    assert_eq!(none.last_event_id, 5);
    assert!(!none.has_updates);
    let older = wait_result(9, &vec![3]);
    assert_eq!(older.last_event_id, 9);
    assert!(older.has_updates);
}

#[test]
fn long_poll_wait_is_clamped() {
    assert_eq!(clamp_wait_secs(0), 1);
    assert_eq!(clamp_wait_secs(30), 30);
    assert_eq!(clamp_wait_secs(301), 300);
}

#[test]
fn config_paths() {
    let mut c = Config::default();
    assert_eq!(c.systemd_service_name, default_service_name());
    assert_eq!(c.syncthing_config_dir, default_config_dir());
    assert!(!c.disable_syncthing_installer);
    assert_eq!(c.syncthing_config_xml_path(), "/home/root/.config/syncthing/config.xml");
    c.syncthing_config_dir = "/etc/st//".to_string();
    assert_eq!(c.syncthing_config_xml_path(), "/etc/st/config.xml");
    assert_eq!(c.syncthing_binary_path("/opt/app"), "/opt/app/syncthing");
    assert_eq!(c.syncthing_binary_path("/"), "/syncthing");
    assert!(c.with_installer_default(false).disable_syncthing_installer);
}

#[test]
fn download_percent() {
    assert_eq!(DownloadProgress { downloaded_bytes: 5, total_bytes: None }.percent(), None);
    assert_eq!(DownloadProgress { downloaded_bytes: 5, total_bytes: Some(0) }.percent(), Some(100));
    assert_eq!(DownloadProgress { downloaded_bytes: 25, total_bytes: Some(200) }.percent(), Some(12));
    assert_eq!(DownloadProgress { downloaded_bytes: 500, total_bytes: Some(200) }.percent(), Some(100));
    assert_eq!(DownloadProgress { downloaded_bytes: u64::MAX, total_bytes: Some(u64::MAX) }.percent(), Some(1));
    let p = DownloadProgress { downloaded_bytes: u64::MAX - 1, total_bytes: Some(3) }.advanced(10);
    assert_eq!(p.downloaded_bytes, u64::MAX);
}

#[test]
fn api_key_trims_unicode_white_space() {
    assert_eq!(extract_api_key("<apikey>\u{3000}\u{a0}key\u{2009}</apikey>"), Some("key".to_string()));
    assert_eq!(extract_api_key("<apikey>\u{200b}k</apikey>"), Some("\u{200b}k".to_string()));
}
