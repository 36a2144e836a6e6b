//! The mesh switch, the peers, the restore and the security check, on a host in memory.
use hakotauri::document::{Doc, Value};
use hakotauri::host::{Reply, Step, StoreAction, SyncAction};
use hakotauri::net_sync::peers::{PeerEntry, PeerStep};
use hakotauri::net_sync::restore::RestoreStep;
use hakotauri::net_sync::switch::{NetBootStep, NetStart, NetToggleStep};
use hakotauri::net_sync::{
    bootstrap_sync, check_sync_security_exists, list_network_peers, prepare_sync_restore,
    read_room_key, toggle_net_sync, APP_STATE_COLLECTION, EVENT_SYNC_OFF, EVENT_SYNC_ON,
    FALLBACK_ROOM_KEY, NET_GROUP_DOC, NET_PREFS_DOC,
};
use std::collections::BTreeMap;

#[derive(Default)]
struct Host {
    docs: BTreeMap<(String, String), Doc>,
    made: Option<NetStart>,
    syncer: Option<NetStart>,
    events: Vec<String>,
    start_error: Option<String>,
    starts: usize,
}

fn copy_of(doc: &Doc) -> Doc {
    let mut copy = Doc::new();
    for (name, value) in doc.fields() {
        copy.insert(name, value.duplicate());
    }
    copy
}

fn text_doc(name: &str, value: &str) -> Doc {
    let mut doc = Doc::new();
    doc.insert(name, Value::Text(value.to_string()));
    doc
}

impl Host {
    fn get(&self, collection: &str, id: &str) -> Option<Doc> {
        self.docs.get(&(collection.to_string(), id.to_string())).map(copy_of)
    }

    fn put(&mut self, collection: &str, id: &str, doc: Doc) {
        self.docs.insert((collection.to_string(), id.to_string()), doc);
    }

    fn sync(&mut self, action: SyncAction<NetStart>) -> Reply {
        match action {
            SyncAction::Store(StoreAction::Get { collection, id }) => match self.get(&collection, &id) {
                Some(doc) => Reply::Found(doc),
                None => Reply::Missing,
            },
            SyncAction::Store(StoreAction::Put { collection, id, doc }) => {
                self.put(&collection, &id, doc);
                Reply::Done
            }
            SyncAction::Make(start) => {
                self.made = Some(start);
                Reply::Done
            }
            SyncAction::SetKey(_) => panic!("a key"),
            SyncAction::Start => {
                self.starts += 1;
                let made = self.made.take();
                assert!(made.is_some());
                match &self.start_error {
                    Some(error) => Reply::Failed(error.clone()),
                    None => {
                        self.syncer = made;
                        Reply::Done
                    }
                }
            }
            SyncAction::Stop => {
                self.syncer = None;
                Reply::Done
            }
            SyncAction::Emit(event) => {
                self.events.push(event);
                Reply::Done
            }
        }
    }

    fn toggle(&mut self, enabled: bool, room_key: Option<&str>, excluded: Option<Vec<String>>) -> Result<String, String> {
        let mut step: NetToggleStep = toggle_net_sync(
            enabled,
            8055,
            "alat-1".to_string(),
            room_key.map(|k| k.to_string()),
            excluded,
            self.syncer.is_some(),
        );
        loop {
            step = match step {
                Step::Do(waiting, action) => waiting.next(self.sync(action)),
                Step::Done(answer) => return Ok(answer),
                Step::Fail(message) => return Err(message),
            };
        }
    }

    fn boot(&mut self) {
        let mut step: NetBootStep = bootstrap_sync(8055, "alat-1".to_string(), None, self.syncer.is_some());
        loop {
            step = match step {
                Step::Do(waiting, action) => waiting.next(self.sync(action)),
                Step::Done(()) => return,
                Step::Fail(message) => panic!("{}", message),
            };
        }
    }
}

#[test]
fn room_key_is_read_from_the_group() {
    assert_eq!(read_room_key(&None), None);
    assert_eq!(read_room_key(&Some(Doc::new())), None);
    assert_eq!(read_room_key(&Some(text_doc("room_key", ""))), None);
    assert_eq!(read_room_key(&Some(text_doc("room_key", "1234"))).as_deref(), Some("1234"));
}

#[test]
fn mesh_starts_in_the_fallback_room() {
    let mut host = Host::default();
    assert_eq!(host.toggle(true, None, None).unwrap(), "ON");
    let start = host.syncer.as_ref().unwrap();
    assert_eq!(start.self_id, "alat-1");
    assert_eq!(start.room_key, FALLBACK_ROOM_KEY);
    assert_eq!(start.excluded, vec![APP_STATE_COLLECTION.to_string()]);
    assert_eq!(start.port, 8055);
    assert_eq!(host.events, vec![EVENT_SYNC_ON.to_string()]);
    assert!(host.get(APP_STATE_COLLECTION, NET_PREFS_DOC).unwrap().flag("enabled"));
}

#[test]
fn given_room_key_wins_over_the_group() {
    let mut host = Host::default();
    host.put(APP_STATE_COLLECTION, NET_GROUP_DOC, text_doc("room_key", "1234"));
    host.toggle(true, Some("5678"), Some(vec![])).unwrap();
    assert_eq!(host.syncer.as_ref().unwrap().room_key, "5678");
    assert!(host.syncer.as_ref().unwrap().excluded.is_empty());
    host.toggle(false, None, None).unwrap();
    host.toggle(true, Some(""), None).unwrap();
    assert_eq!(host.syncer.as_ref().unwrap().room_key, "1234");
}

#[test]
fn mesh_switches_off_and_does_not_start_twice() {
    let mut host = Host::default();
    host.toggle(true, None, None).unwrap();
    assert_eq!(host.toggle(true, None, None).unwrap(), "ON");
    assert_eq!(host.starts, 1);
    assert_eq!(host.toggle(false, None, None).unwrap(), "OFF");
    assert!(host.syncer.is_none());
    assert!(!host.get(APP_STATE_COLLECTION, NET_PREFS_DOC).unwrap().flag("enabled"));
    assert_eq!(host.toggle(false, None, None).unwrap(), "OFF");
    assert_eq!(
        host.events,
        vec![EVENT_SYNC_ON.to_string(), EVENT_SYNC_OFF.to_string(), EVENT_SYNC_OFF.to_string()]
    );
}

#[test]
fn failed_mesh_start_is_answered_with_its_error() {
    let mut host = Host { start_error: Some("port in use".to_string()), ..Host::default() };
    assert_eq!(host.toggle(true, None, None).err().unwrap(), "port in use");
    assert!(host.syncer.is_none());
    assert!(host.events.is_empty());
    assert!(host.get(APP_STATE_COLLECTION, NET_PREFS_DOC).unwrap().flag("enabled"));
}

#[test]
fn mesh_comes_back_where_it_was_on() {
    let mut host = Host::default();
    host.boot();
    assert_eq!(host.starts, 0);
    host.toggle(true, Some("5678"), None).unwrap();
    host.syncer = None;
    host.put(APP_STATE_COLLECTION, NET_GROUP_DOC, text_doc("room_key", "1234"));
    host.boot();
    assert_eq!(host.syncer.as_ref().unwrap().room_key, "1234");
    host.toggle(false, None, None).unwrap();
    host.boot();
    assert!(host.syncer.is_none());
}

#[test]
fn security_check_tells_what_the_read_told() {
    let check = |reply: Reply| match check_sync_security_exists("security") {
        Step::Do(waiting, StoreAction::Get { collection, id }) => {
            assert_eq!(collection, "security");
            assert_eq!(id, "config");
            match waiting.next(reply) {
                Step::Done(exists) => Ok(exists),
                Step::Fail(message) => Err(message),
                Step::Do(..) => panic!("not done"),
            }
        }
        _ => panic!("no read"),
    };
    assert_eq!(check(Reply::Found(Doc::new())), Ok(true));
    assert_eq!(check(Reply::Missing), Ok(false));
    assert_eq!(check(Reply::Failed("denied".to_string())), Err("denied".to_string()));
}

fn text_of(value: &Value) -> String {
    match value {
        Value::Text(s) => s.clone(),
        _ => panic!("no text"),
    }
}

fn listed(live: &[&str], rows: Vec<(String, Doc)>) -> Vec<PeerEntry> {
    let ids: Vec<String> = live.iter().map(|s| s.to_string()).collect();
    match list_network_peers("security", Some(ids.clone())) {
        PeerStep::Query(listing, query) => {
            assert_eq!(query.collection, "security");
            assert_eq!(query.ids, ids);
            listing.found(Ok(rows)).unwrap_or_else(|e| panic!("{}", e))
        }
        PeerStep::Done(_) => panic!("nothing asked"),
    }
}

#[test]
fn no_live_peers_no_query() {
    assert!(matches!(list_network_peers("security", None), PeerStep::Done(list) if list.is_empty()));
    assert!(matches!(list_network_peers("security", Some(vec![])), PeerStep::Done(list) if list.is_empty()));
}

#[test]
fn live_peers_are_listed_in_order() {
    let mut known = text_doc("status", "authorized");
    known.insert("name", Value::Text("Kasir".to_string()));
    let rows = vec![
        ("b".to_string(), text_doc("status", "old")),
        ("elsewhere".to_string(), text_doc("status", "authorized")),
        ("b".to_string(), known),
    ];
    let list = listed(&["c", "b", "b"], rows);
    assert_eq!(list.len(), 3);
    assert!(list.iter().all(|p| p.is_online));
    assert_eq!(list[0].id, "c");
    assert_eq!(text_of(&list[0].status), "new_device");
    assert_eq!(text_of(&list[0].name), "Perangkat Baru");
    assert_eq!(list[1].id, "b");
    assert_eq!(text_of(&list[1].status), "authorized");
    assert_eq!(text_of(&list[1].name), "Kasir");
    assert_eq!(text_of(&list[2].name), "Kasir");
}

#[test]
fn peer_fields_keep_their_type() {
    let mut doc = Doc::new();
    doc.insert("status", Value::Array(vec![Value::Int(1), Value::Null]));
    let list = listed(&["a"], vec![("a".to_string(), doc)]);
    assert!(matches!(&list[0].status, Value::Array(items) if items.len() == 2));
    assert_eq!(text_of(&list[0].name), "Perangkat Baru");
}

#[test]
fn failed_peer_query_is_answered_with_its_error() {
    match list_network_peers("security", Some(vec!["a".to_string()])) {
        PeerStep::Query(listing, _) => {
            assert_eq!(listing.found(Err("denied".to_string())).err().unwrap(), "denied");
        }
        PeerStep::Done(_) => panic!("nothing asked"),
    }
}

fn restore(collections: &[&str], purged: &[Result<usize, String>]) -> (Vec<String>, Result<Vec<String>, String>) {
    let mut replicated = Vec::new();
    let mut vacuumed = 0;
    let mut step = prepare_sync_restore(collections.iter().map(|s| s.to_string()).collect());
    loop {
        step = match step {
            RestoreStep::Vacuum(waiting, collection) => {
                assert_eq!(collection, collections[vacuumed]);
                vacuumed += 1;
                waiting.vacuumed(purged[vacuumed - 1].clone())
            }
            RestoreStep::Replicate(waiting, collection) => {
                replicated.push(collection);
                waiting.replicated()
            }
            RestoreStep::Done(reports) => return (replicated, Ok(reports)),
            RestoreStep::Fail(message) => return (replicated, Err(message)),
        };
    }
}

#[test]
fn restore_reports_on_each_collection() {
    let (replicated, reports) = restore(&["sales", "items", "empty"], &[Ok(12), Ok(1000000007), Ok(0)]);
    assert_eq!(replicated, vec!["sales", "items", "empty"]);
    assert_eq!(reports.unwrap(), vec!["sales:12", "items:1000000007", "empty:0"]);
    let (replicated, reports) = restore(&[], &[]);
    assert!(replicated.is_empty());
    assert!(reports.unwrap().is_empty());
}

#[test]
fn restore_stops_at_a_failure() {
    let (replicated, reports) = restore(&["sales", "items", "rest"], &[Ok(1), Err("denied".to_string()), Ok(1)]);
    assert_eq!(replicated, vec!["sales"]);
    assert_eq!(reports.err().unwrap(), "denied");
}

#[test]
fn mesh_commands_end_where_every_action_fails() {
    let mut step: NetToggleStep = toggle_net_sync(true, 8055, "alat-1".to_string(), None, None, false);
    let mut actions = 0;
    while let Step::Do(waiting, _) = step {
        actions += 1;
        step = waiting.next(Reply::Failed("gone".to_string()));
    }
    assert_eq!(actions, 5);
    assert!(matches!(step, Step::Fail(m) if m == "gone"));
    match bootstrap_sync(8055, "alat-1".to_string(), None, false) {
        Step::Do(waiting, _) => {
            assert!(matches!(waiting.next(Reply::Failed("gone".to_string())), Step::Done(())))
        }
        _ => panic!("no read"),
    }
}
