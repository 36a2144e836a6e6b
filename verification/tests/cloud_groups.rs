//! Group policies on a store in memory.
use hakotauri::cloud_sync::groups::{
    GroupStep, EMPTY_CLIENT, EMPTY_ROOM, KEY_NEEDED, SHORT_KEY, UNKNOWN_MODE,
};
use hakotauri::cloud_sync::keys::key_of;
use hakotauri::cloud_sync::{
    cloud_group_add_member, cloud_group_get, cloud_group_new_key, cloud_group_remove_member,
    cloud_group_set, GroupPolicy, CLOUD_KEYS_COLLECTION, GROUPS_COLLECTION,
};
use hakotauri::document::{Doc, Value};
use hakotauri::host::{Reply, StoreAction};
use std::collections::BTreeMap;

#[derive(Default)]
struct Store {
    docs: BTreeMap<(String, String), Doc>,
    broken: bool,
}

fn copy_of(doc: &Doc) -> Doc {
    let mut copy = Doc::new();
    for (name, value) in doc.fields() {
        copy.insert(name, value.duplicate());
    }
    copy
}

impl Store {
    fn get(&self, collection: &str, id: &str) -> Option<Doc> {
        self.docs.get(&(collection.to_string(), id.to_string())).map(copy_of)
    }

    fn put(&mut self, collection: &str, id: &str, doc: Doc) {
        self.docs.insert((collection.to_string(), id.to_string()), doc);
    }

    fn perform(&mut self, action: StoreAction) -> Reply {
        match action {
            StoreAction::Get { collection, id } => match self.get(&collection, &id) {
                Some(doc) => Reply::Found(doc),
                None => Reply::Missing,
            },
            StoreAction::Put { collection, id, doc } => {
                if self.broken {
                    return Reply::Failed("disk full".to_string());
                }
                self.put(&collection, &id, doc);
                Reply::Done
            }
        }
    }
}

/// The SHA-256 digests of the keys that the tests use, in hexadecimal digits.
fn hash_api_key(key: &str) -> String {
    match key {
        "kunci-rahasia-123456" => "e7565f47cd6aaa7b08b2ed9a82a76fb4c4df3108ae8583dda14e50ee6d38061f",
        "kunci-baru-1234567890" => "f5267e6f62f6e2f0e2f45ae711e184d9c4d05db56d227272b16bd82299856f22",
        "0123456789abcdef" => "9f9f5111f7b27a781f1f1ddde5ebc2dd2b796bfc7365c9c28b548e564176929f",
        _ => "00",
    }
    .to_string()
}

fn run(store: &mut Store, first: GroupStep) -> Result<GroupPolicy, String> {
    let mut step = first;
    loop {
        step = match step {
            GroupStep::Do(command, action) => {
                let reply = store.perform(action);
                command.next(reply)
            }
            GroupStep::Hash(keying, key) => keying.with_hash(hash_api_key(&key)),
            GroupStep::Done(policy) => return Ok(policy),
            GroupStep::Fail(message) => return Err(message),
        };
    }
}

fn group_set_inner(
    store: &mut Store,
    room_name: &str,
    mode: &str,
    api_key: Option<String>,
    members: Option<Vec<String>>,
) -> Result<GroupPolicy, String> {
    run(store, cloud_group_set(room_name, mode, api_key, members))
}

fn texts(items: &[&str]) -> Vec<String> {
    items.iter().map(|s| s.to_string()).collect()
}

#[test]
fn registered_group_roundtrip() {
    let mut gw = Store::default();
    // registered without key must fail
    assert!(group_set_inner(&mut gw, "toko", "registered", None, None).is_err());
    // with key: ok, hash stored (never raw), members kept
    let p = group_set_inner(
        &mut gw,
        "toko",
        "registered",
        Some("kunci-rahasia-123456".to_string()),
        Some(vec!["cabang-1".to_string()]),
    )
    .unwrap_or_else(|e| panic!("{}", e));
    assert_eq!(p.mode, "registered");
    assert!(p.has_key);
    assert_eq!(p.members, vec!["cabang-1".to_string()]);
    // stored doc holds the hash, not the raw key
    let doc = gw.get(GROUPS_COLLECTION, "toko").unwrap();
    let stored = doc.text("api_key_hash").unwrap();
    assert_eq!(stored, hash_api_key("kunci-rahasia-123456"));
    assert!(!stored.contains("rahasia"));
    // rotation keeps members when omitted
    let p2 = group_set_inner(&mut gw, "toko", "open", None, None).unwrap_or_else(|e| panic!("{}", e));
    assert_eq!(p2.mode, "open");
    assert!(p2.has_key);
    assert_eq!(p2.members, vec!["cabang-1".to_string()]);
}

#[test]
fn open_group_needs_nothing() {
    let mut gw = Store::default();
    let p = group_set_inner(&mut gw, "bebas", "open", None, None).unwrap_or_else(|e| panic!("{}", e));
    assert_eq!(p.mode, "open");
    assert!(!p.has_key);
}

#[test]
fn refused_requests_leave_the_store_alone() {
    let mut gw = Store::default();
    let key = || Some("kunci-rahasia-123456".to_string());
    assert_eq!(group_set_inner(&mut gw, " \t ", "open", None, None).err().unwrap(), EMPTY_ROOM);
    assert_eq!(group_set_inner(&mut gw, "toko", "closed", key(), None).err().unwrap(), UNKNOWN_MODE);
    assert_eq!(
        group_set_inner(&mut gw, "toko", "open", Some("kependekan".to_string()), None).err().unwrap(),
        SHORT_KEY
    );
    assert_eq!(group_set_inner(&mut gw, "toko", "registered", None, None).err().unwrap(), KEY_NEEDED);
    // a blank key counts as none
    assert_eq!(
        group_set_inner(&mut gw, "toko", "registered", Some("   ".to_string()), None).err().unwrap(),
        KEY_NEEDED
    );
    assert_eq!(run(&mut gw, cloud_group_get("  ")).err().unwrap(), EMPTY_ROOM);
    assert_eq!(run(&mut gw, cloud_group_add_member("toko", " ")).err().unwrap(), EMPTY_CLIENT);
    assert!(gw.docs.is_empty());
}

#[test]
fn messages_are_the_documented_ones() {
    assert_eq!(EMPTY_ROOM, "Nama room tidak boleh kosong.");
    assert_eq!(UNKNOWN_MODE, "Mode harus \"open\" atau \"registered\".");
    assert_eq!(SHORT_KEY, "API key minimal 16 karakter.");
    assert_eq!(KEY_NEEDED, "Mode registered butuh API key — buat/generate dulu.");
    assert_eq!(EMPTY_CLIENT, "Client ID tidak boleh kosong.");
}

#[test]
fn names_are_trimmed_and_modes_fold_case() {
    let mut gw = Store::default();
    let p = group_set_inner(
        &mut gw,
        "\u{3000} toko \n",
        " ReGiStErEd ",
        Some("  0123456789abcdef\t".to_string()),
        Some(texts(&[" a ", "", "  ", "b"])),
    )
    .unwrap_or_else(|e| panic!("{}", e));
    assert_eq!(p.room_name, "toko");
    assert_eq!(p.mode, "registered");
    assert_eq!(p.members, texts(&["a", "b"]));
    let doc = gw.get(GROUPS_COLLECTION, "toko").unwrap();
    assert_eq!(doc.text("api_key_hash").unwrap(), hash_api_key("0123456789abcdef"));
}

#[test]
fn key_length_counts_bytes() {
    let mut gw = Store::default();
    // eight characters of two bytes each
    let p = group_set_inner(&mut gw, "toko", "registered", Some("éééééééé".to_string()), None);
    assert!(p.is_ok());
    let q = group_set_inner(&mut gw, "toko2", "registered", Some("ééééééé".to_string()), None);
    assert_eq!(q.err().unwrap(), SHORT_KEY);
}

#[test]
fn rotation_replaces_the_hash() {
    let mut gw = Store::default();
    let first = Some("kunci-rahasia-123456".to_string());
    let second = Some("kunci-baru-1234567890".to_string());
    group_set_inner(&mut gw, "toko", "registered", first, None).unwrap_or_else(|e| panic!("{}", e));
    group_set_inner(&mut gw, "toko", "registered", second, None).unwrap_or_else(|e| panic!("{}", e));
    let doc = gw.get(GROUPS_COLLECTION, "toko").unwrap();
    assert_eq!(doc.text("api_key_hash").unwrap(), hash_api_key("kunci-baru-1234567890"));
    // without a key the hash stays
    group_set_inner(&mut gw, "toko", "registered", None, None).unwrap_or_else(|e| panic!("{}", e));
    let doc = gw.get(GROUPS_COLLECTION, "toko").unwrap();
    assert_eq!(doc.text("api_key_hash").unwrap(), hash_api_key("kunci-baru-1234567890"));
}

#[test]
fn failed_write_is_answered_with_its_error() {
    let mut gw = Store { broken: true, ..Store::default() };
    assert_eq!(group_set_inner(&mut gw, "toko", "open", None, None).err().unwrap(), "disk full");
}

#[test]
fn policy_of_a_room_without_a_document() {
    let mut gw = Store::default();
    let p = run(&mut gw, cloud_group_get(" baru ")).unwrap_or_else(|e| panic!("{}", e));
    assert_eq!(p.room_name, "baru");
    assert_eq!(p.mode, "open");
    assert!(!p.has_key);
    assert!(p.members.is_empty());
}

#[test]
fn policy_skips_values_of_the_wrong_type() {
    let mut gw = Store::default();
    let mut doc = Doc::new();
    doc.insert("mode", Value::Int(3));
    doc.insert("api_key_hash", Value::Text(String::new()));
    doc.insert("members", Value::Array(vec![Value::Null, Value::Text("a".to_string()), Value::Bool(true)]));
    gw.put(GROUPS_COLLECTION, "toko", doc);
    let p = run(&mut gw, cloud_group_get("toko")).unwrap_or_else(|e| panic!("{}", e));
    assert_eq!(p.mode, "open");
    assert!(!p.has_key);
    assert_eq!(p.members, texts(&["a"]));
}

#[test]
fn members_are_added_once_and_removed() {
    let mut gw = Store::default();
    let key = Some("kunci-rahasia-123456".to_string());
    group_set_inner(&mut gw, "toko", "registered", key, Some(texts(&["a"])))
        .unwrap_or_else(|e| panic!("{}", e));
    let p = run(&mut gw, cloud_group_add_member(" toko ", " b ")).unwrap_or_else(|e| panic!("{}", e));
    assert_eq!(p.members, texts(&["a", "b"]));
    assert_eq!(p.mode, "registered");
    assert!(p.has_key);
    let p = run(&mut gw, cloud_group_add_member("toko", "b")).unwrap_or_else(|e| panic!("{}", e));
    assert_eq!(p.members, texts(&["a", "b"]));
    let p = run(&mut gw, cloud_group_remove_member("toko", " b ")).unwrap_or_else(|e| panic!("{}", e));
    assert_eq!(p.members, texts(&["a"]));
    assert!(p.has_key);
    let p = run(&mut gw, cloud_group_remove_member("toko", "nobody")).unwrap_or_else(|e| panic!("{}", e));
    assert_eq!(p.members, texts(&["a"]));
    // a room without a name is refused when the policy is set
    assert_eq!(run(&mut gw, cloud_group_add_member(" ", "b")).err().unwrap(), EMPTY_ROOM);
    assert_eq!(run(&mut gw, cloud_group_remove_member(" ", "b")).err().unwrap(), EMPTY_ROOM);
}

#[test]
fn member_of_a_room_with_a_foreign_mode_is_refused() {
    let mut gw = Store::default();
    let mut doc = Doc::new();
    doc.insert("mode", Value::Text("closed".to_string()));
    gw.put(GROUPS_COLLECTION, "toko", doc);
    assert_eq!(run(&mut gw, cloud_group_add_member("toko", "b")).err().unwrap(), UNKNOWN_MODE);
}

#[test]
fn kept_hash_may_be_any_value() {
    let mut gw = Store::default();
    let mut doc = Doc::new();
    doc.insert("api_key_hash", Value::Int(7));
    gw.put(GROUPS_COLLECTION, "toko", doc);
    let p = group_set_inner(&mut gw, "toko", "open", None, None).unwrap_or_else(|e| panic!("{}", e));
    assert!(!p.has_key);
    let doc = gw.get(GROUPS_COLLECTION, "toko").unwrap();
    assert!(matches!(doc.get("api_key_hash"), Some(Value::Int(7))));
}

#[test]
fn fresh_keys_are_random_and_taken() {
    let a = cloud_group_new_key().unwrap_or_else(|e| panic!("{}", e));
    let b = cloud_group_new_key().unwrap_or_else(|e| panic!("{}", e));
    assert_ne!(a, b);
    assert_eq!(a.len(), 64);
    assert!(a.chars().all(|c| c.is_ascii_digit() || ('a'..='f').contains(&c)));
    let digits: Vec<char> = a.chars().collect();
    assert_eq!(digits[12], '4');
    assert_eq!(digits[44], '4');
    assert!("89ab".contains(digits[16]));
    assert!("89ab".contains(digits[48]));
    assert_ne!(digits[..32], digits[32..]);
    let mut gw = Store::default();
    let p = group_set_inner(&mut gw, "toko", "registered", Some(a), None).unwrap_or_else(|e| panic!("{}", e));
    assert!(p.has_key);
}

#[test]
fn local_collections_have_local_names() {
    assert_eq!(CLOUD_KEYS_COLLECTION, "__cloud_client");
    assert_eq!(GROUPS_COLLECTION, "__groups");
    assert!(CLOUD_KEYS_COLLECTION.starts_with('_'));
    assert!(GROUPS_COLLECTION.starts_with('_'));
}

#[test]
fn group_commands_end_where_every_action_fails() {
    let mut step = cloud_group_add_member("toko", "cabang-1");
    let mut actions = 0;
    loop {
        step = match step {
            GroupStep::Do(command, _) => {
                actions += 1;
                command.next(Reply::Failed("gone".to_string()))
            }
            GroupStep::Fail(message) => {
                assert_eq!(message, "gone");
                break;
            }
            _ => panic!("not refused"),
        };
    }
    assert_eq!(actions, 4);
}

#[test]
fn key_holds_both_draws_in_order() {
    let first = "0123456789ab4def8123456789abcdef";
    let second = "fedcba98765442109edcba9876543210";
    let key = key_of(first.to_string(), second.to_string());
    assert_eq!(key, "0123456789ab4def8123456789abcdeffedcba98765442109edcba9876543210");
    assert_eq!(key_of("a".to_string(), String::new()), "a");
}

#[test]
fn only_the_hash_tells_keys_apart() {
    let set = |key: &str| {
        let mut store = Store::default();
        let policy = group_set_inner(
            &mut store,
            " toko ",
            "Registered",
            Some(key.to_string()),
            Some(texts(&["cabang-1", " "])),
        )
        .unwrap_or_else(|e| panic!("{}", e));
        (store, policy)
    };
    let (first, a) = set("kunci-rahasia-123456");
    let (second, b) = set(" kunci-baru-1234567890 ");
    assert_eq!(a.room_name, b.room_name);
    assert_eq!(a.mode, b.mode);
    assert_eq!(a.has_key, b.has_key);
    assert_eq!(a.members, b.members);
    assert_eq!(first.docs.len(), 1);
    assert_eq!(second.docs.len(), 1);
    let mut row = first.get(GROUPS_COLLECTION, "toko").unwrap();
    let mut other = second.get(GROUPS_COLLECTION, "toko").unwrap();
    let hash = row.remove("api_key_hash");
    let other_hash = other.remove("api_key_hash");
    assert!(matches!(hash, Some(Value::Text(h)) if h == hash_api_key("kunci-rahasia-123456")));
    assert!(matches!(other_hash, Some(Value::Text(h)) if h == hash_api_key("kunci-baru-1234567890")));
    assert_eq!(row.text("mode"), other.text("mode"));
    assert_eq!(row.fields().len(), 2);
    assert_eq!(other.fields().len(), 2);
}

#[test]
fn every_row_stays_sound() {
    let mut store = Store::default();
    let _ = group_set_inner(&mut store, " a ", " OPEN ", None, Some(texts(&["", " x ", "\ty"])));
    let _ = group_set_inner(&mut store, "a", "registered", None, None);
    let _ = group_set_inner(&mut store, "  ", "open", None, None);
    let _ = group_set_inner(&mut store, "b", "closed", None, None);
    let _ = group_set_inner(&mut store, "c", "registered", Some("0123456789abcdef".to_string()), None);
    let _ = run(&mut store, cloud_group_add_member(" c", " kasir "));
    let _ = run(&mut store, cloud_group_add_member(" ", "kasir"));
    let _ = run(&mut store, cloud_group_add_member("d", "kasir"));
    let _ = run(&mut store, cloud_group_remove_member("a", "x"));
    let rooms: Vec<&str> = store.docs.keys().map(|(_, room)| room.as_str()).collect();
    assert_eq!(rooms, vec!["a", "c", "d"]);
    for ((collection, room), doc) in &store.docs {
        assert_eq!(collection, GROUPS_COLLECTION);
        assert_eq!(room.trim(), room);
        let mode = doc.text("mode").unwrap();
        assert!(mode == "open" || mode == "registered");
        if mode == "registered" {
            assert!(!doc.text("api_key_hash").unwrap().is_empty());
        }
        match doc.get("members") {
            Some(Value::Array(items)) => {
                for item in items {
                    assert!(matches!(item, Value::Text(m) if !m.is_empty() && m.trim() == m));
                }
            }
            _ => panic!("no members"),
        }
    }
    let members = |store: &mut Store, room: &str| {
        run(store, cloud_group_get(room)).unwrap_or_else(|e| panic!("{}", e)).members
    };
    assert_eq!(members(&mut store, "a"), texts(&["y"]));
    assert_eq!(members(&mut store, "c"), texts(&["kasir"]));
    assert_eq!(members(&mut store, "d"), texts(&["kasir"]));
}

/// The rows of a store, written out.
fn rows(store: &Store) -> Vec<String> {
    let mut lines = Vec::new();
    for ((_, room), doc) in &store.docs {
        for (name, value) in doc.fields() {
            lines.push(match value {
                Value::Text(t) => format!("{} {} {}", room, name, t),
                Value::Array(items) => {
                    let members: Vec<&str> = items
                        .iter()
                        .map(|v| match v {
                            Value::Text(t) => t.as_str(),
                            _ => "?",
                        })
                        .collect();
                    format!("{} {} {}", room, name, members.join(","))
                }
                _ => format!("{} {} ?", room, name),
            });
        }
    }
    lines
}

#[test]
fn setting_or_adding_twice_is_as_good_as_once() {
    let mut store = Store::default();
    let mut odd = Doc::new();
    odd.insert("api_key_hash", Value::Int(3));
    odd.insert("members", Value::Array(vec![Value::Text(" x ".to_string()), Value::Null]));
    store.put(GROUPS_COLLECTION, "toko", odd);
    let once = group_set_inner(&mut store, "toko", "open", None, None).unwrap_or_else(|e| panic!("{}", e));
    let after = rows(&store);
    let twice = group_set_inner(&mut store, "toko", "open", None, None).unwrap_or_else(|e| panic!("{}", e));
    assert_eq!(rows(&store), after);
    assert_eq!(once.members, twice.members);
    assert_eq!(once.members, texts(&["x"]));
    let added = run(&mut store, cloud_group_add_member("toko", " y ")).unwrap_or_else(|e| panic!("{}", e));
    let after = rows(&store);
    let again = run(&mut store, cloud_group_add_member("toko", "y")).unwrap_or_else(|e| panic!("{}", e));
    assert_eq!(rows(&store), after);
    assert_eq!(added.members, texts(&["x", "y"]));
    assert_eq!(again.members, added.members);
    // removing it brings back what was before, the hash included
    let removed = run(&mut store, cloud_group_remove_member("toko", "y")).unwrap_or_else(|e| panic!("{}", e));
    assert_eq!(removed.members, once.members);
    let row = store.get(GROUPS_COLLECTION, "toko").unwrap();
    assert!(matches!(row.get("api_key_hash"), Some(Value::Int(3))));
}
