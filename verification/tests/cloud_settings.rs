//! The cloud settings, the key, and the switch, on a host in memory.
use hakotauri::cloud_sync::config::{mode_to_str, parse_mode, GetConfig};
use hakotauri::cloud_sync::credentials::LoadKey;
use hakotauri::cloud_sync::switch::{CloudBootStep, CloudStart, CloudToggleStep};
use hakotauri::cloud_sync::{
    bootstrap_cloud_sync, get_cloud_config, load_api_key, save_api_key, toggle_cloud_sync,
    CloudSyncConfig, CloudSyncMode, APP_STATE_COLLECTION, CLOUD_CREDS_DOC, CLOUD_KEYS_COLLECTION,
    CLOUD_PREFS_DOC, EVENT_CLOUD_SYNC_OFF, EVENT_CLOUD_SYNC_ON,
};
use hakotauri::document::{Doc, Value};
use hakotauri::host::{Reply, Step, StoreAction, SyncAction};
use std::collections::BTreeMap;

#[derive(Default)]
struct Host {
    docs: BTreeMap<(String, String), Doc>,
    made: Option<CloudStart>,
    made_key: Option<String>,
    syncer: Option<CloudStart>,
    syncer_key: Option<String>,
    events: Vec<String>,
    start_error: Option<String>,
    unreadable: bool,
    starts: usize,
}

fn copy_of(doc: &Doc) -> Doc {
    let mut copy = Doc::new();
    for (name, value) in doc.fields() {
        copy.insert(name, value.duplicate());
    }
    copy
}

impl Host {
    fn get(&self, collection: &str, id: &str) -> Option<Doc> {
        self.docs.get(&(collection.to_string(), id.to_string())).map(copy_of)
    }

    fn put(&mut self, collection: &str, id: &str, doc: Doc) {
        self.docs.insert((collection.to_string(), id.to_string()), doc);
    }

    fn prefs(&self) -> Doc {
        self.get(APP_STATE_COLLECTION, CLOUD_PREFS_DOC).unwrap()
    }

    fn saved_key(&self) -> Option<String> {
        self.get(CLOUD_KEYS_COLLECTION, CLOUD_CREDS_DOC).and_then(|d| d.text("api_key"))
    }

    fn store(&mut self, action: StoreAction) -> Reply {
        match action {
            StoreAction::Get { collection, id } => {
                if self.unreadable {
                    return Reply::Failed("unreadable".to_string());
                }
                match self.get(&collection, &id) {
                    Some(doc) => Reply::Found(doc),
                    None => Reply::Missing,
                }
            }
            StoreAction::Put { collection, id, doc } => {
                if collection == APP_STATE_COLLECTION {
                    assert!(doc.get("api_key").is_none());
                }
                self.put(&collection, &id, doc);
                Reply::Done
            }
        }
    }

    fn sync(&mut self, action: SyncAction<CloudStart>) -> Reply {
        match action {
            SyncAction::Store(action) => self.store(action),
            SyncAction::Make(start) => {
                self.made = Some(start);
                self.made_key = None;
                Reply::Done
            }
            SyncAction::SetKey(api_key) => {
                assert!(self.made.is_some());
                self.made_key = api_key;
                Reply::Done
            }
            SyncAction::Start => {
                self.starts += 1;
                let made = self.made.take();
                assert!(made.is_some());
                match &self.start_error {
                    Some(error) => Reply::Failed(error.clone()),
                    None => {
                        self.syncer = made;
                        self.syncer_key = self.made_key.take();
                        Reply::Done
                    }
                }
            }
            SyncAction::Stop => {
                self.syncer = None;
                Reply::Done
            }
            SyncAction::Emit(event) => {
                self.events.push(event);
                Reply::Done
            }
        }
    }

    fn load(&mut self) -> Option<String> {
        let mut step: Step<LoadKey, StoreAction, Option<String>> = load_api_key();
        loop {
            step = match step {
                Step::Do(load, action) => load.next(self.store(action)),
                Step::Done(key) => return key,
                Step::Fail(message) => panic!("{}", message),
            };
        }
    }

    fn config(&mut self) -> Option<CloudSyncConfig> {
        let mut step: Step<GetConfig, StoreAction, Option<CloudSyncConfig>> = get_cloud_config();
        loop {
            step = match step {
                Step::Do(waiting, action) => waiting.next(self.store(action)),
                Step::Done(config) => return config,
                Step::Fail(message) => panic!("{}", message),
            };
        }
    }

    fn finish(&mut self, first: CloudToggleStep) -> Result<String, String> {
        let mut step = first;
        loop {
            step = match step {
                Step::Do(waiting, action) => waiting.next(self.sync(action)),
                Step::Done(answer) => return Ok(answer),
                Step::Fail(message) => return Err(message),
            };
        }
    }

    fn toggle(&mut self, enabled: bool, mode: &str, api_key: Option<&str>) -> Result<String, String> {
        let running = self.syncer.is_some();
        self.finish(toggle_cloud_sync(
            enabled,
            mode,
            Some("wss://awan".to_string()),
            None,
            Some("toko".to_string()),
            None,
            "token".to_string(),
            api_key.map(|k| k.to_string()),
            "alat-1".to_string(),
            running,
        ))
    }

    fn boot(&mut self) {
        let mut step: CloudBootStep = bootstrap_cloud_sync("alat-1".to_string(), self.syncer.is_some());
        loop {
            step = match step {
                Step::Do(waiting, action) => waiting.next(self.sync(action)),
                Step::Done(()) => return,
                Step::Fail(message) => panic!("{}", message),
            };
        }
    }
}

#[test]
fn api_key_migrates_out_of_app_state() {
    let mut gw = Host::default();
    // Old layout: key inside replicating app_state prefs.
    let mut prefs = Doc::new();
    prefs.insert("enabled", Value::Bool(true));
    prefs.insert("api_key", Value::Text("lama-1234567890".to_string()));
    gw.put(APP_STATE_COLLECTION, CLOUD_PREFS_DOC, prefs);
    // First load migrates + scrubs.
    assert_eq!(gw.load().as_deref(), Some("lama-1234567890"));
    let after = gw.get(APP_STATE_COLLECTION, CLOUD_PREFS_DOC).unwrap();
    assert!(after.get("api_key").is_none());
    assert!(gw.load().is_some());
    // The other settings stay, and the key is the same.
    assert!(after.flag("enabled"));
    assert_eq!(gw.load().as_deref(), Some("lama-1234567890"));
    assert_eq!(gw.saved_key().as_deref(), Some("lama-1234567890"));
}

#[test]
fn empty_or_foreign_keys_do_not_count() {
    let mut gw = Host::default();
    assert_eq!(gw.load(), None);
    let mut prefs = Doc::new();
    prefs.insert("api_key", Value::Text(String::new()));
    gw.put(APP_STATE_COLLECTION, CLOUD_PREFS_DOC, prefs);
    let mut creds = Doc::new();
    creds.insert("api_key", Value::Int(1));
    gw.put(CLOUD_KEYS_COLLECTION, CLOUD_CREDS_DOC, creds);
    assert_eq!(gw.load(), None);
    assert!(gw.prefs().get("api_key").is_some());
    gw.unreadable = true;
    assert_eq!(gw.load(), None);
}

#[test]
fn saving_no_key_clears_the_saved_one() {
    for key in [None, Some("")] {
        match save_api_key(key) {
            StoreAction::Put { collection, id, doc } => {
                assert_eq!(collection, "__cloud_client");
                assert_eq!(id, "creds");
                assert!(doc.fields().is_empty());
            }
            StoreAction::Get { .. } => panic!("a read"),
        }
    }
}

#[test]
fn saved_key_is_loaded_until_cleared() {
    let mut host = Host::default();
    host.store(save_api_key(Some("kunci")));
    assert_eq!(host.load().as_deref(), Some("kunci"));
    host.store(save_api_key(Some("baru")));
    assert_eq!(host.load().as_deref(), Some("baru"));
    host.store(save_api_key(None));
    assert_eq!(host.load(), None);
}

#[test]
fn switching_leaves_other_documents() {
    let mut host = Host::default();
    let mut other = Doc::new();
    other.insert("enabled", Value::Int(7));
    host.put(APP_STATE_COLLECTION, "sync_prefs", other);
    host.toggle(true, "client", Some("kunci")).unwrap();
    host.toggle(false, "client", None).unwrap();
    assert_eq!(host.docs.len(), 3);
    let kept = host.get(APP_STATE_COLLECTION, "sync_prefs").unwrap();
    assert!(matches!(kept.get("enabled"), Some(Value::Int(7))));
}

#[test]
fn modes_have_names() {
    assert_eq!(mode_to_str(CloudSyncMode::Server), "server");
    assert_eq!(mode_to_str(CloudSyncMode::Client), "client");
    assert!(matches!(parse_mode("SerVer"), CloudSyncMode::Server));
    assert!(matches!(parse_mode("client"), CloudSyncMode::Client));
    assert!(matches!(parse_mode(" server"), CloudSyncMode::Client));
    assert!(matches!(parse_mode(""), CloudSyncMode::Client));
}

#[test]
fn client_starts_with_saved_settings() {
    let mut host = Host::default();
    assert_eq!(host.toggle(true, "client", Some("kunci")).unwrap(), "ON");
    assert_eq!(host.events, vec![EVENT_CLOUD_SYNC_ON.to_string()]);
    match host.syncer.as_ref().unwrap() {
        CloudStart::Client { self_id, room_name, room_key, auth_token, address } => {
            assert_eq!(self_id, "alat-1");
            assert_eq!(room_name, "toko");
            assert_eq!(room_key, "");
            assert_eq!(auth_token, "token");
            assert_eq!(address, "wss://awan");
        }
        CloudStart::Server { .. } => panic!("a server"),
    }
    assert_eq!(host.syncer_key.as_deref(), Some("kunci"));
    assert_eq!(host.saved_key().as_deref(), Some("kunci"));
    let config = host.config().unwrap();
    assert!(config.enabled);
    assert!(matches!(config.mode, CloudSyncMode::Client));
    assert_eq!(config.server_url.as_deref(), Some("wss://awan"));
    assert_eq!(config.bind_addr, None);
    assert_eq!(config.room_name.as_deref(), Some("toko"));
    assert_eq!(config.room_key, None);
    assert_eq!(config.auth_token, "token");
    assert_eq!(config.api_key.as_deref(), Some("kunci"));
}

#[test]
fn server_binds_the_default_address() {
    let mut host = Host::default();
    assert_eq!(host.toggle(true, "SERVER", None).unwrap(), "ON");
    match host.syncer.as_ref().unwrap() {
        CloudStart::Server { self_id, auth_token, address } => {
            assert_eq!(self_id, "alat-1");
            assert_eq!(auth_token, "token");
            assert_eq!(address, "0.0.0.0:8056");
        }
        CloudStart::Client { .. } => panic!("a client"),
    }
    assert_eq!(host.syncer_key, None);
}

#[test]
fn client_defaults() {
    let mut host = Host::default();
    let step = toggle_cloud_sync(
        true,
        "client",
        None,
        None,
        None,
        None,
        String::new(),
        Some(String::new()),
        "alat-1".to_string(),
        false,
    );
    assert_eq!(host.finish(step).unwrap(), "ON");
    match host.syncer.as_ref().unwrap() {
        CloudStart::Client { room_name, room_key, address, .. } => {
            assert_eq!(room_name, "default");
            assert_eq!(room_key, "");
            assert_eq!(address, "ws://127.0.0.1:8056");
        }
        CloudStart::Server { .. } => panic!("a server"),
    }
    assert_eq!(host.syncer_key, None);
}

#[test]
fn saved_key_is_used_where_none_is_given() {
    let mut host = Host::default();
    host.toggle(true, "client", Some("kunci")).unwrap();
    host.toggle(false, "client", None).unwrap();
    host.toggle(true, "client", Some("")).unwrap();
    assert!(matches!(host.syncer, Some(CloudStart::Client { .. })));
    assert_eq!(host.syncer_key.as_deref(), Some("kunci"));
}

#[test]
fn second_switch_on_starts_nothing() {
    let mut host = Host::default();
    host.toggle(true, "client", None).unwrap();
    assert_eq!(host.toggle(true, "client", None).unwrap(), "ON");
    assert_eq!(host.starts, 1);
    assert_eq!(host.events.len(), 1);
}

#[test]
fn switch_off_stops_and_tells() {
    let mut host = Host::default();
    host.toggle(true, "client", None).unwrap();
    assert_eq!(host.toggle(false, "client", None).unwrap(), "OFF");
    assert!(host.syncer.is_none());
    assert!(!host.prefs().flag("enabled"));
    assert_eq!(host.events, vec![EVENT_CLOUD_SYNC_ON.to_string(), EVENT_CLOUD_SYNC_OFF.to_string()]);
    // off again tells again, and saves nothing
    assert_eq!(host.toggle(false, "client", None).unwrap(), "OFF");
    assert_eq!(host.events.len(), 3);
}

#[test]
fn settings_are_saved_only_when_the_switch_moves() {
    let mut host = Host::default();
    host.toggle(true, "client", None).unwrap();
    host.toggle(true, "server", None).unwrap();
    assert_eq!(host.prefs().text("mode").as_deref(), Some("client"));
}

#[test]
fn failed_start_is_answered_with_its_error() {
    let mut host = Host { start_error: Some("port in use".to_string()), ..Host::default() };
    assert_eq!(
        host.toggle(true, "server", None).err().unwrap(),
        "cloud sync server start failed: port in use"
    );
    assert!(host.prefs().flag("enabled"));
    assert_eq!(
        host.toggle(true, "client", None).err().unwrap(),
        "cloud sync client start failed: port in use"
    );
    assert!(host.syncer.is_none());
    assert!(host.events.is_empty());
}

#[test]
fn no_settings_no_config() {
    let mut host = Host::default();
    assert!(host.config().is_none());
    host.toggle(true, "client", None).unwrap();
    host.unreadable = true;
    assert!(host.config().is_none());
}

#[test]
fn config_of_an_odd_document() {
    let mut host = Host::default();
    let mut prefs = Doc::new();
    prefs.insert("enabled", Value::Text("true".to_string()));
    prefs.insert("mode", Value::Bool(true));
    prefs.insert("room_key", Value::Int(4));
    host.put(APP_STATE_COLLECTION, CLOUD_PREFS_DOC, prefs);
    let config = host.config().unwrap();
    assert!(!config.enabled);
    assert!(matches!(config.mode, CloudSyncMode::Client));
    assert_eq!(config.room_key, None);
    assert_eq!(config.auth_token, "");
}

#[test]
fn sync_comes_back_at_the_next_start() {
    let mut host = Host::default();
    host.toggle(true, "client", Some("kunci")).unwrap();
    host.syncer = None;
    host.syncer_key = None;
    host.boot();
    match host.syncer.as_ref().unwrap() {
        CloudStart::Client { room_name, address, .. } => {
            assert_eq!(room_name, "toko");
            assert_eq!(address, "wss://awan");
        }
        CloudStart::Server { .. } => panic!("a server"),
    }
    assert_eq!(host.syncer_key.as_deref(), Some("kunci"));
    assert_eq!(host.starts, 2);
}

#[test]
fn sync_that_was_off_stays_off() {
    let mut host = Host::default();
    host.boot();
    host.toggle(true, "client", None).unwrap();
    host.toggle(false, "client", None).unwrap();
    host.boot();
    assert!(host.syncer.is_none());
    assert_eq!(host.starts, 1);
}

#[test]
fn start_of_the_application_survives_a_failed_start() {
    let mut host = Host::default();
    host.toggle(true, "client", None).unwrap();
    host.syncer = None;
    host.start_error = Some("no network".to_string());
    host.boot();
    assert!(host.syncer.is_none());
    assert_eq!(host.starts, 2);
}

#[test]
fn cloud_commands_end_where_every_action_fails() {
    let failed = || Reply::Failed("gone".to_string());
    let mut step: CloudToggleStep = toggle_cloud_sync(
        true,
        "server",
        None,
        None,
        None,
        None,
        String::new(),
        None,
        "alat-1".to_string(),
        false,
    );
    let mut actions = 0;
    while let Step::Do(waiting, _) = step {
        actions += 1;
        step = waiting.next(failed());
    }
    assert_eq!(actions, 7);
    assert!(matches!(step, Step::Fail(m) if m == "cloud sync server start failed: gone"));
    match bootstrap_cloud_sync("alat-1".to_string(), false) {
        Step::Do(waiting, _) => assert!(matches!(waiting.next(failed()), Step::Done(()))),
        _ => panic!("no read"),
    }
    match get_cloud_config() {
        Step::Do(waiting, _) => assert!(matches!(waiting.next(failed()), Step::Done(None))),
        _ => panic!("no read"),
    }
}

/// Settings as an older installation left them, with the key among them.
fn old_prefs(enabled: bool, key: Value) -> Doc {
    let mut prefs = Doc::new();
    prefs.insert("enabled", Value::Bool(enabled));
    prefs.insert("room_name", Value::Text("lama".to_string()));
    prefs.insert("api_key", key);
    prefs
}

#[test]
fn fresh_key_wins_over_one_left_in_the_settings() {
    for was_enabled in [true, false] {
        for enabled in [true, false] {
            for start_error in [None, Some("port in use".to_string())] {
                let mut host = Host { start_error, ..Host::default() };
                let old = Value::Text("lama-1234567890".to_string());
                host.put(APP_STATE_COLLECTION, CLOUD_PREFS_DOC, old_prefs(was_enabled, old));
                let _ = host.toggle(enabled, "client", Some("kunci"));
                assert!(host.prefs().get("api_key").is_none());
                assert_eq!(host.prefs().flag("enabled"), enabled);
                assert_eq!(host.saved_key().as_deref(), Some("kunci"));
                assert_eq!(host.load().as_deref(), Some("kunci"));
                assert_eq!(host.config().unwrap().api_key.as_deref(), Some("kunci"));
            }
        }
    }
}

#[test]
fn taking_the_old_key_out_keeps_the_other_settings() {
    let mut host = Host::default();
    host.put(APP_STATE_COLLECTION, CLOUD_PREFS_DOC, old_prefs(true, Value::Int(3)));
    assert_eq!(host.toggle(true, "server", Some("kunci")).unwrap(), "ON");
    assert_eq!(host.prefs().fields().len(), 2);
    assert_eq!(host.prefs().text("room_name").as_deref(), Some("lama"));
    assert!(matches!(host.syncer, Some(CloudStart::Server { .. })));
    assert_eq!(host.syncer_key.as_deref(), Some("kunci"));
}

#[test]
fn old_key_is_used_and_moved_where_none_is_given() {
    let mut host = Host::default();
    let old = Value::Text("lama-1234567890".to_string());
    host.put(APP_STATE_COLLECTION, CLOUD_PREFS_DOC, old_prefs(true, old));
    assert_eq!(host.toggle(true, "client", None).unwrap(), "ON");
    assert!(host.prefs().get("api_key").is_none());
    assert_eq!(host.saved_key().as_deref(), Some("lama-1234567890"));
}

#[test]
fn key_is_set_between_making_and_starting() {
    let mut step: CloudToggleStep = toggle_cloud_sync(
        true,
        "client",
        None,
        None,
        None,
        None,
        String::new(),
        Some("kunci".to_string()),
        "alat-1".to_string(),
        false,
    );
    let mut order: Vec<String> = Vec::new();
    while let Step::Do(waiting, action) = step {
        order.push(match action {
            SyncAction::Store(StoreAction::Get { id, .. }) => format!("get {}", id),
            SyncAction::Store(StoreAction::Put { id, .. }) => format!("put {}", id),
            SyncAction::Make(_) => "make".to_string(),
            SyncAction::SetKey(key) => format!("key {}", key.unwrap()),
            SyncAction::Start => "start".to_string(),
            SyncAction::Stop => "stop".to_string(),
            SyncAction::Emit(event) => event,
        });
        step = waiting.next(Reply::Done);
    }
    assert_eq!(
        order,
        vec![
            "put creds",
            "get cloud_sync_prefs",
            "put cloud_sync_prefs",
            "make",
            "key kunci",
            "start",
            "cloud_sync_on"
        ]
    );
}
