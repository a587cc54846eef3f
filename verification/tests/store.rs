use fossdeck_core::auth_store::{AuthorizedDevice, AuthorizedStore};
use fossdeck_core::digest::{generate_token, hex_encode, sha256_hex, token_from_bytes};

fn device(hash: &str, added_at: i64, last_seen: i64) -> AuthorizedDevice {
    AuthorizedDevice { name: None, token_hash: hash.to_string(), added_at, last_seen }
}

#[test]
fn sha256_hex_of_known_inputs() {
    assert_eq!(
        sha256_hex("abc"),
        "ba7816bf8f01cfea414140de5dae2223b00361a396177a9cb410ff61f20015ad"
    );
    assert_eq!(
        sha256_hex(""),
        "e3b0c44298fc1c149afbf4c8996fb92427ae41e4649b934ca495991b7852b855"
    );
}

#[test]
fn token_from_bytes_is_lowercase_hex() {
    let mut bytes: [u8; 32] = [0u8; 32];
    bytes[0] = 0x01;
    bytes[1] = 0xab;
    bytes[2] = 0xf0;
    bytes[31] = 0xff;
    let token = token_from_bytes(&bytes);
    assert_eq!(token.len(), 64);
    assert_eq!(&token[..6], "01abf0");
    assert_eq!(&token[6..62], "0".repeat(56));
    assert_eq!(&token[62..], "ff");
}

#[test]
fn generated_tokens_have_the_shape_of_a_token() {
    let first = generate_token().expect("randomness");
    let second = generate_token().expect("randomness");
    for token in [&first, &second] {
        assert_eq!(token.len(), 64);
        assert!(token.chars().all(|c| c.is_ascii_digit() || ('a'..='f').contains(&c)));
    }
    assert_ne!(first, second);
}

#[test]
fn empty_store_holds_nothing() {
    let store = AuthorizedStore::new();
    assert_eq!(store.len(), 0);
    assert!(!store.contains("phone"));
    assert!(store.get("phone").is_none());
    assert!(store.list().is_empty());
    assert!(!store.is_authorized("phone", "secret"));
}

#[test]
fn upsert_inserts_with_both_times_set() {
    let mut store = AuthorizedStore::new();
    store.upsert("phone".to_string(), Some("Pixel".to_string()), sha256_hex("secret"), 1_700_000_000);
    assert_eq!(store.len(), 1);
    assert!(store.contains("phone"));
    let kept = store.get("phone").expect("present");
    assert_eq!(
        *kept,
        AuthorizedDevice {
            name: Some("Pixel".to_string()),
            token_hash: sha256_hex("secret"),
            added_at: 1_700_000_000,
            last_seen: 1_700_000_000,
        }
    );
}

#[test]
fn upsert_replaces_the_record_of_the_same_id() {
    let mut store = AuthorizedStore::new();
    store.upsert("phone".to_string(), Some("Old".to_string()), sha256_hex("one"), 10);
    store.upsert("tablet".to_string(), None, sha256_hex("t"), 11);
    store.upsert("phone".to_string(), None, sha256_hex("two"), 20);
    assert_eq!(store.len(), 2);
    assert_eq!(*store.get("phone").expect("present"), device(&sha256_hex("two"), 20, 20));
    assert_eq!(*store.get("tablet").expect("present"), device(&sha256_hex("t"), 11, 11));
    assert!(!store.is_authorized("phone", "one"));
    assert!(store.is_authorized("phone", "two"));
}

#[test]
fn is_authorized_compares_hashes_not_text() {
    let mut store = AuthorizedStore::new();
    store.upsert("phone".to_string(), None, sha256_hex("secret"), 1);
    assert!(store.is_authorized("phone", "secret"));
    assert!(!store.is_authorized("phone", "Secret"));
    assert!(!store.is_authorized("phone", &sha256_hex("secret")));
    assert!(!store.is_authorized("other", "secret"));
    // a record that holds the plain text does not accept the plain text
    store.upsert("plain".to_string(), None, "secret".to_string(), 1);
    assert!(!store.is_authorized("plain", "secret"));
}

#[test]
fn remove_takes_the_record_out() {
    let mut store = AuthorizedStore::new();
    store.upsert("a".to_string(), None, "ha".to_string(), 1);
    store.upsert("b".to_string(), None, "hb".to_string(), 2);
    store.upsert("c".to_string(), None, "hc".to_string(), 3);
    assert!(store.remove("b"));
    assert!(!store.remove("b"));
    assert_eq!(store.len(), 2);
    assert!(store.contains("a"));
    assert!(!store.contains("b"));
    assert!(store.contains("c"));
    assert_eq!(*store.get("c").expect("present"), device("hc", 3, 3));
}

#[test]
fn touch_sets_last_seen_only() {
    let mut store = AuthorizedStore::new();
    store.upsert("a".to_string(), Some("A".to_string()), "ha".to_string(), 5);
    assert!(store.touch("a", 9));
    assert_eq!(
        *store.get("a").expect("present"),
        AuthorizedDevice {
            name: Some("A".to_string()),
            token_hash: "ha".to_string(),
            added_at: 5,
            last_seen: 9,
        }
    );
    assert!(!store.touch("missing", 9));
    assert_eq!(store.len(), 1);
}

#[test]
fn list_is_most_recently_seen_first() {
    let mut store = AuthorizedStore::new();
    store.upsert("old".to_string(), None, "h1".to_string(), 100);
    store.upsert("new".to_string(), None, "h2".to_string(), 300);
    store.upsert("mid".to_string(), None, "h3".to_string(), 200);
    store.upsert("neg".to_string(), None, "h4".to_string(), i64::MIN);
    store.upsert("max".to_string(), None, "h5".to_string(), i64::MAX);
    let ids: Vec<String> = store.list().into_iter().map(|(id, _)| id).collect();
    assert_eq!(ids, vec!["max", "new", "mid", "old", "neg"]);
    store.touch("old", 400);
    let ids: Vec<String> = store.list().into_iter().map(|(id, _)| id).collect();
    assert_eq!(ids, vec!["max", "old", "new", "mid", "neg"]);
}

#[test]
fn list_holds_each_record_once() {
    let mut store = AuthorizedStore::new();
    store.upsert("a".to_string(), None, "h".to_string(), 7);
    store.upsert("b".to_string(), None, "h".to_string(), 7);
    store.upsert("a".to_string(), None, "h".to_string(), 7);
    let mut ids: Vec<String> = store.list().into_iter().map(|(id, _)| id).collect();
    ids.sort();
    assert_eq!(ids, vec!["a", "b"]);
}

#[test]
fn from_records_lets_the_last_record_of_an_id_count() {
    let records = vec![
        ("a".to_string(), device("first", 1, 1)),
        ("b".to_string(), device("hb", 2, 2)),
        ("a".to_string(), device("second", 3, 3)),
    ];
    let store = AuthorizedStore::from_records(records);
    assert_eq!(store.len(), 2);
    assert_eq!(*store.get("a").expect("present"), device("second", 3, 3));
    assert_eq!(*store.get("b").expect("present"), device("hb", 2, 2));
}

#[test]
fn records_round_trip_keeps_the_mapping() {
    let mut store = AuthorizedStore::new();
    store.upsert("phone".to_string(), Some("Pixel".to_string()), sha256_hex("x"), 10);
    store.upsert("tablet".to_string(), None, sha256_hex("y"), 20);
    store.touch("phone", 30);
    let restored = AuthorizedStore::from_records(store.list());
    assert_eq!(restored.len(), store.len());
    for id in ["phone", "tablet"] {
        assert_eq!(restored.get(id), store.get(id));
    }
    assert!(restored.is_authorized("phone", "x"));
    let copy = store.clone();
    assert_eq!(copy.list(), store.list());
}

#[test]
fn records_round_trip_through_json_text() {
    let mut store = AuthorizedStore::new();
    store.upsert("phone".to_string(), Some("Pi\"xel".to_string()), sha256_hex("x"), 10);
    store.upsert("tablet".to_string(), None, sha256_hex("y"), -5);

    let mut devices = serde_json::Map::new();
    for (id, kept) in store.list() {
        let mut entry = serde_json::Map::new();
        entry.insert(
            "name".to_string(),
            match kept.name {
                Some(name) => serde_json::Value::String(name),
                None => serde_json::Value::Null,
            },
        );
        entry.insert("token_hash".to_string(), serde_json::Value::String(kept.token_hash));
        entry.insert("added_at".to_string(), serde_json::Value::from(kept.added_at));
        entry.insert("last_seen".to_string(), serde_json::Value::from(kept.last_seen));
        devices.insert(id, serde_json::Value::Object(entry));
    }
    let mut root = serde_json::Map::new();
    root.insert("devices".to_string(), serde_json::Value::Object(devices));
    let text = serde_json::to_string_pretty(&serde_json::Value::Object(root)).expect("text");

    let read: serde_json::Value = serde_json::from_str(&text).expect("json");
    let mut records: Vec<(String, AuthorizedDevice)> = Vec::new();
    for (id, entry) in read["devices"].as_object().expect("object") {
        records.push((
            id.clone(),
            AuthorizedDevice {
                name: entry["name"].as_str().map(|s| s.to_string()),
                token_hash: entry["token_hash"].as_str().expect("hash").to_string(),
                added_at: entry["added_at"].as_i64().expect("time"),
                last_seen: entry["last_seen"].as_i64().expect("time"),
            },
        ));
    }
    let restored = AuthorizedStore::from_records(records);
    assert_eq!(restored.len(), 2);
    assert_eq!(restored.get("phone"), store.get("phone"));
    assert_eq!(restored.get("tablet"), store.get("tablet"));
}

#[test]
fn hex_encode_of_known_bytes() {
    assert_eq!(hex_encode(&[]), "");
    assert_eq!(hex_encode(&[0x00, 0x0f, 0x10, 0x9a, 0xa9, 0xff]), "000f109aa9ff");
    assert_eq!(hex_encode(b"Hello world!"), "48656c6c6f20776f726c6421");
}

#[test]
fn hex_encode_agrees_with_the_hex_crate() {
    let mut all: Vec<u8> = Vec::new();
    for byte in 0..=255u8 {
        all.push(byte);
        all.push(255 - byte);
    }
    assert_eq!(hex_encode(&all), hex::encode(&all));
    let mut bytes: [u8; 32] = [0u8; 32];
    for (at, byte) in bytes.iter_mut().enumerate() {
        *byte = (at * 37 % 256) as u8;
    }
    assert_eq!(token_from_bytes(&bytes), hex::encode(bytes));
}
