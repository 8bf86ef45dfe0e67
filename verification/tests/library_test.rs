// The library called directly, on plain values.

use std::io;

use docdb::db::{DocDb, DumpPolicy};
use docdb::error::{DocError, ErrorType};
use docdb::serialization::{
    BincodeSerializer, CborSerializer, DocSerializer, JsonSerializer, SerializationMethod,
    Serializer, YamlSerializer,
};
use docdb::staging::{decimal_text, staging_path, FileOp};
use docdb::table::{str_eq, Table};

fn bytes(text: &str) -> Vec<u8> {
    text.as_bytes().to_vec()
}

fn locked() -> io::Error {
    io::Error::new(io::ErrorKind::PermissionDenied, "the file is locked")
}

fn table_of(pairs: &[(&str, &[u8])]) -> Table {
    let mut table = Table::new();
    for (key, value) in pairs {
        table.insert(key.to_string(), value.to_vec());
    }
    table
}

/// The path and the bytes of a write.
fn written(op: FileOp) -> (String, Vec<u8>) {
    match op {
        FileOp::Write { path, bytes } => (path, bytes),
        _ => panic!("a write was expected"),
    }
}

/// The two paths of a rename.
fn renamed(op: FileOp) -> (String, String) {
    match op {
        FileOp::Rename { from, to } => (from, to),
        _ => panic!("a rename was expected"),
    }
}

fn is_nothing(op: &FileOp) -> bool {
    matches!(op, FileOp::Nothing)
}

/// Reports that the write and the rename of a dump went well, at `now`.
fn finish(db: &mut DocDb, now: u128) {
    let _ = renamed(db.settle(Ok(()), now).unwrap());
    assert!(is_nothing(&db.settle(Ok(()), now).unwrap()));
}

#[test]
fn str_eq_compares_texts() {
    assert!(str_eq("", ""));
    assert!(str_eq("key", "key"));
    assert!(!str_eq("key", "kez"));
    assert!(!str_eq("key", "key1"));
    assert!(str_eq("שָׁלוֹם😻", "שָׁלוֹם😻"));
    assert!(!str_eq("é", "e"));
}

#[test]
fn table_binds_each_key_once() {
    let mut table = Table::new();
    assert_eq!(table.len(), 0);
    assert_eq!(table.insert("a".to_string(), vec![1]), None);
    assert_eq!(table.insert("b".to_string(), vec![2]), None);
    assert_eq!(table.insert("a".to_string(), vec![3]), Some(vec![1]));
    assert_eq!(table.len(), 2);
    assert_eq!(table.get("a"), Some(&vec![3]));
    assert_eq!(table.get("b"), Some(&vec![2]));
    assert_eq!(table.get("c"), None);
    assert!(table.contains_key("a"));
    assert!(!table.contains_key(""));
    let mut keys = table.keys();
    keys.sort();
    assert_eq!(keys, vec!["a".to_string(), "b".to_string()]);
    assert_eq!(table.entries().len(), 2);
}

#[test]
fn table_remove_returns_the_old_value() {
    let mut table = table_of(&[("a", &[1]), ("b", &[2]), ("c", &[3])]);
    assert_eq!(table.remove("b"), Some(vec![2]));
    assert_eq!(table.remove("b"), None);
    assert_eq!(table.len(), 2);
    assert_eq!(table.position("b"), None);
    assert_eq!(table.get("a"), Some(&vec![1]));
    assert_eq!(table.get("c"), Some(&vec![3]));
    let at = table.position("c").unwrap();
    assert_eq!(table.entries()[at].key, "c");
}

#[test]
fn decimal_text_writes_numerals() {
    assert_eq!(decimal_text(0), "0");
    assert_eq!(decimal_text(9), "9");
    assert_eq!(decimal_text(10), "10");
    assert_eq!(decimal_text(120), "120");
    assert_eq!(decimal_text(1234567890), "1234567890");
    assert_eq!(decimal_text(u64::MAX), "18446744073709551615");
}

#[test]
fn staging_file_stands_beside_its_target() {
    assert_eq!(
        staging_path("dir/store.db", 1700000000),
        "dir/store.db.temp.1700000000"
    );
    assert_eq!(staging_path("", 0), ".temp.0");
}

#[test]
fn json_snapshot_is_an_object_in_key_order() {
    let table = table_of(&[("b", b"\"x\""), ("a", b"1")]);
    let encoded = JsonSerializer::new().serialize_db(&table).unwrap();
    assert_eq!(encoded, bytes(r#"{"a":"1","b":"\"x\""}"#));
    let empty = JsonSerializer::new().serialize_db(&Table::new()).unwrap();
    assert_eq!(empty, bytes("{}"));
}

#[test]
fn json_snapshot_is_read_back() {
    let table = JsonSerializer::new()
        .deserialize_db(br#"{"b":"\"x\"", "a":"1"}"#)
        .unwrap();
    assert_eq!(table.len(), 2);
    assert_eq!(table.get("a"), Some(&bytes("1")));
    assert_eq!(table.get("b"), Some(&bytes("\"x\"")));
}

#[test]
fn json_rejects_a_value_that_is_not_text() {
    let table = table_of(&[("a", &[0xff, 0xfe])]);
    let err = JsonSerializer::new().serialize_db(&table).err().unwrap();
    assert!(matches!(err, DocError::Serialization(_)));
    let expected = std::str::from_utf8(&[0xff, 0xfe]).err().unwrap().to_string();
    assert_eq!(err.to_string(), format!("Serialization err: {}", expected));
}

#[test]
fn json_rejects_what_is_no_snapshot() {
    let err = JsonSerializer::new().deserialize_db(b"[1, 2]").err().unwrap();
    assert!(matches!(err, DocError::Deserialization(_)));
    let expected = serde_json::from_str::<std::collections::HashMap<String, String>>("[1, 2]")
        .err()
        .unwrap()
        .to_string();
    assert_eq!(err.to_string(), format!("Deserialization err: {}", expected));

    let err = JsonSerializer::new().deserialize_db(&[b'{', 0xff, b'}']).err().unwrap();
    assert!(matches!(err, DocError::Deserialization(_)));
    let expected = std::str::from_utf8(&[b'{', 0xff, b'}']).err().unwrap().to_string();
    assert_eq!(err.to_string(), format!("Deserialization err: {}", expected));
}

#[test]
fn doc_serializer_files_json_failures_under_serialization() {
    let codec = DocSerializer {};
    let table = table_of(&[("k", b"true")]);
    assert_eq!(codec.serialize_db(&table).unwrap(), bytes(r#"{"k":"true"}"#));
    let back = codec.deserialize_db(br#"{"k":"true"}"#).unwrap();
    assert_eq!(back.get("k"), Some(&bytes("true")));
    let err = codec.deserialize_db(b"not json").err().unwrap();
    assert!(matches!(err, DocError::Serialization(_)));
    let err = codec.deserialize_db(&[0xc0]).err().unwrap();
    assert!(matches!(err, DocError::Deserialization(_)));
}

#[test]
fn yaml_snapshot_is_a_mapping_in_key_order() {
    let table = table_of(&[("b", b"y"), ("a", b"x")]);
    let encoded = YamlSerializer::new().serialize_db(&table).unwrap();
    assert_eq!(encoded, bytes("a: x\nb: y\n"));
}

#[test]
fn yaml_snapshot_is_read_back() {
    let table = YamlSerializer::new().deserialize_db(b"b: y\na: x\n").unwrap();
    assert_eq!(table.len(), 2);
    assert_eq!(table.get("a"), Some(&bytes("x")));
    assert_eq!(table.get("b"), Some(&bytes("y")));
}

#[test]
fn yaml_rejects_what_it_cannot_hold() {
    let table = table_of(&[("a", &[0x80])]);
    let err = YamlSerializer::new().serialize_db(&table).err().unwrap();
    assert!(matches!(err, DocError::Serialization(_)));

    let err = YamlSerializer::new().deserialize_db(b"- 1\n- 2\n").err().unwrap();
    assert!(matches!(err, DocError::Deserialization(_)));
    let expected = serde_yaml::from_str::<std::collections::HashMap<String, String>>("- 1\n- 2\n")
        .err()
        .unwrap()
        .to_string();
    assert_eq!(err.to_string(), format!("Deserialization err: {}", expected));

    let err = YamlSerializer::new().deserialize_db(&[0xff]).err().unwrap();
    assert!(matches!(err, DocError::Deserialization(_)));
}

#[test]
fn bincode_snapshot_is_a_map_in_key_order() {
    let table = table_of(&[("b", &[]), ("a", &[1, 0xff])]);
    let encoded = BincodeSerializer::new().serialize_db(&table).unwrap();
    let expected: Vec<u8> = vec![
        2, 0, 0, 0, 0, 0, 0, 0, // two entries
        1, 0, 0, 0, 0, 0, 0, 0, b'a', // the key a
        2, 0, 0, 0, 0, 0, 0, 0, 1, 0xff, // its two bytes
        1, 0, 0, 0, 0, 0, 0, 0, b'b', // the key b
        0, 0, 0, 0, 0, 0, 0, 0, // its no bytes
    ];
    assert_eq!(encoded, expected);
}

#[test]
fn bincode_snapshot_is_read_back() {
    let file: Vec<u8> = vec![
        1, 0, 0, 0, 0, 0, 0, 0, 1, 0, 0, 0, 0, 0, 0, 0, b'k', 3, 0, 0, 0, 0, 0, 0, 0, 9, 8, 7,
    ];
    let table = BincodeSerializer::new().deserialize_db(&file).unwrap();
    assert_eq!(table.len(), 1);
    assert_eq!(table.get("k"), Some(&vec![9, 8, 7]));
}

#[test]
fn bincode_failures_carry_one_message() {
    let err = BincodeSerializer::new().deserialize_db(b"{}").err().unwrap();
    assert_eq!(
        err.to_string(),
        "Deserialization err: cannot deserialize from db"
    );
    let err = BincodeSerializer::new().deserialize_db(&[]).err().unwrap();
    assert!(matches!(err, DocError::Deserialization(_)));
}

#[test]
fn cbor_is_not_available() {
    let err = CborSerializer::new().serialize_db(&Table::new()).err().unwrap();
    assert_eq!(
        err.to_string(),
        "Serialization err: the CBOR format is not available"
    );
    let err = CborSerializer::new().deserialize_db(b"").err().unwrap();
    assert_eq!(
        err.to_string(),
        "Deserialization err: the CBOR format is not available"
    );
}

#[test]
fn serializer_uses_the_chosen_format() {
    let table = table_of(&[("a", b"x")]);
    let json = Serializer::new(SerializationMethod::Json);
    assert!(matches!(json.ser_method(), SerializationMethod::Json));
    assert_eq!(json.serialize_db(&table).unwrap(), bytes(r#"{"a":"x"}"#));
    let yaml = Serializer::new(SerializationMethod::Yaml);
    assert_eq!(yaml.serialize_db(&table).unwrap(), bytes("a: x\n"));
    let bin = Serializer::new(SerializationMethod::Bin);
    assert_eq!(bin.serialize_db(&table).unwrap().len(), 8 + 8 + 1 + 8 + 1);
    let cbor = Serializer::new(SerializationMethod::Cbor);
    assert!(cbor.serialize_db(&table).is_err());

    assert_eq!(
        json.deserialize_db(br#"{"a":"x"}"#).unwrap().get("a"),
        Some(&bytes("x"))
    );
    assert_eq!(
        yaml.deserialize_db(b"a: x\n").unwrap().get("a"),
        Some(&bytes("x"))
    );
    let encoded = bin.serialize_db(&table).unwrap();
    assert_eq!(
        bin.deserialize_db(&encoded).unwrap().get("a"),
        Some(&bytes("x"))
    );
    assert!(cbor.deserialize_db(&encoded).is_err());
}

#[test]
fn serialization_method_from_number() {
    assert!(matches!(SerializationMethod::from(0), SerializationMethod::Json));
    assert!(matches!(SerializationMethod::from(1), SerializationMethod::Bin));
    assert!(matches!(SerializationMethod::from(2), SerializationMethod::Yaml));
    assert!(matches!(SerializationMethod::from(3), SerializationMethod::Cbor));
    assert!(matches!(SerializationMethod::from(4), SerializationMethod::Json));
    assert!(matches!(SerializationMethod::from(-1), SerializationMethod::Json));
}

#[test]
fn serialization_method_has_a_name() {
    assert_eq!(SerializationMethod::Json.to_string(), "Json");
    assert_eq!(SerializationMethod::Bin.to_string(), "Bin");
    assert_eq!(SerializationMethod::Yaml.to_string(), "Yaml");
    assert_eq!(SerializationMethod::Cbor.to_string(), "Cbor");
}

#[test]
fn errors_are_classified_and_rendered() {
    let io = DocError::from(locked());
    assert!(matches!(io, DocError::IO(_)));
    assert!(matches!(io.get_type(), ErrorType::IO));
    assert_eq!(io.to_string(), locked().to_string());

    let ser = DocError::Serialization("bad value".to_string());
    assert!(matches!(ser.get_type(), ErrorType::Serialization));
    assert_eq!(ser.to_string(), "Serialization err: bad value");

    let de = DocError::Deserialization("bad file".to_string());
    assert!(matches!(de.get_type(), ErrorType::Serialization));
    assert_eq!(de.to_string(), "Deserialization err: bad file");
}

#[test]
fn new_store_is_empty() {
    let db = DocDb::new("s.db", DumpPolicy::AutoDump, SerializationMethod::Json, 5);
    assert_eq!(db.total_nums(), 0);
    assert!(db.get_all_keys().is_empty());
    assert!(!db.exist("k"));
    assert_eq!(db.get("k"), None);
    assert!(db.iter().next().is_none());
    assert_eq!(DocDb::new_json("s.db", DumpPolicy::NeverDump, 0).total_nums(), 0);
    assert_eq!(DocDb::new_yaml("s.db", DumpPolicy::NeverDump, 0).total_nums(), 0);
    assert_eq!(DocDb::new_bincode("s.db", DumpPolicy::NeverDump, 0).total_nums(), 0);
}

#[test]
fn set_then_get_gives_the_bytes_back() {
    let mut db = DocDb::new("s.db", DumpPolicy::NeverDump, SerializationMethod::Bin, 0);
    assert!(is_nothing(&db.set("k", vec![1, 2], 1, 1).unwrap()));
    assert!(is_nothing(&db.set("", vec![], 1, 1).unwrap()));
    assert_eq!(db.get("k"), Some(&vec![1, 2]));
    assert_eq!(db.get(""), Some(&vec![]));
    assert!(is_nothing(&db.set("k", vec![3], 1, 1).unwrap()));
    assert_eq!(db.get("k"), Some(&vec![3]));
    assert_eq!(db.total_nums(), 2);
}

#[test]
fn never_dump_asks_for_nothing() {
    let mut db = DocDb::new("s.db", DumpPolicy::NeverDump, SerializationMethod::Json, 0);
    assert!(is_nothing(&db.set("a", bytes("1"), 10, 1).unwrap()));
    assert!(is_nothing(&db.set("b", vec![0xff], 20, 1).unwrap()));
    let (was_present, op) = db.rem("a", 30, 1).unwrap();
    assert!(was_present);
    assert!(is_nothing(&op));
    assert!(is_nothing(&db.dump_now(u128::MAX, 1).unwrap()));
    assert!(is_nothing(&db.dump(1).unwrap()));
    assert!(is_nothing(&db.settle(Ok(()), 40).unwrap()));
    assert!(is_nothing(&db.close(1)));
    assert_eq!(db.total_nums(), 1);
}

#[test]
fn dump_is_a_write_and_then_a_rename() {
    let mut db = DocDb::new("s.db", DumpPolicy::DumpRelyRequest, SerializationMethod::Json, 0);
    assert!(is_nothing(&db.set("a", bytes("1"), 0, 1).unwrap()));
    let (path, file) = written(db.dump(1700000000).unwrap());
    assert_eq!(path, "s.db.temp.1700000000");
    assert_eq!(file, bytes(r#"{"a":"1"}"#));
    let (from, to) = renamed(db.settle(Ok(()), 1).unwrap());
    assert_eq!(from, "s.db.temp.1700000000");
    assert_eq!(to, "s.db");
    assert!(is_nothing(&db.settle(Ok(()), 2).unwrap()));
    assert!(is_nothing(&db.settle(Ok(()), 3).unwrap()));
}

#[test]
fn no_rename_follows_a_failed_write() {
    let mut db = DocDb::new("s.db", DumpPolicy::DumpRelyRequest, SerializationMethod::Json, 0);
    let _ = written(db.dump(1).unwrap());
    let err = db.settle(Err(locked()), 1).err().unwrap();
    assert!(matches!(err, DocError::IO(_)));
    assert!(is_nothing(&db.settle(Ok(()), 2).unwrap()));
}

#[test]
fn auto_dump_asks_after_each_change() {
    let mut db = DocDb::new("s.db", DumpPolicy::AutoDump, SerializationMethod::Json, 0);
    let (path, file) = written(db.set("b", bytes("2"), 0, 7).unwrap());
    assert_eq!(path, "s.db.temp.7");
    assert_eq!(file, bytes(r#"{"b":"2"}"#));
    finish(&mut db, 0);

    let (path, file) = written(db.set("a", bytes("1"), 0, 8).unwrap());
    assert_eq!(path, "s.db.temp.8");
    assert_eq!(file, bytes(r#"{"a":"1","b":"2"}"#));
    finish(&mut db, 0);

    let (was_present, op) = db.rem("b", 0, 9).unwrap();
    assert!(was_present);
    assert_eq!(written(op).1, bytes(r#"{"a":"1"}"#));
    finish(&mut db, 0);

    let reloaded = DocDb::load_read_only(
        "s.db",
        SerializationMethod::Json,
        Ok(bytes(r#"{"a":"1"}"#)),
        0,
    )
    .unwrap();
    assert_eq!(reloaded.get("a"), Some(&bytes("1")));
    assert!(!reloaded.exist("b"));
}

#[test]
fn rely_on_request_asks_only_on_dump() {
    let mut db = DocDb::new(
        "s.db",
        DumpPolicy::DumpRelyRequest,
        SerializationMethod::Yaml,
        0,
    );
    assert!(is_nothing(&db.set("a", bytes("x"), 0, 1).unwrap()));
    assert!(is_nothing(&db.dump_now(u128::MAX, 1).unwrap()));
    assert!(is_nothing(&db.rem("zz", 0, 1).unwrap().1));
    let (path, file) = written(db.dump(42).unwrap());
    assert_eq!(path, "s.db.temp.42");
    assert_eq!(file, bytes("a: x\n"));
    finish(&mut db, 0);
    assert!(is_nothing(&db.close(1)));
}

#[test]
fn periodic_dump_waits_for_more_than_the_interval() {
    let mut db = DocDb::new(
        "s.db",
        DumpPolicy::PeriodicDump(10),
        SerializationMethod::Bin,
        100,
    );
    assert!(is_nothing(&db.set("a", vec![1], 100, 1).unwrap()));
    assert!(is_nothing(&db.set("b", vec![2], 110, 1).unwrap()));
    // the clock may go back
    assert!(is_nothing(&db.set("c", vec![3], 50, 1).unwrap()));
    let (_, file) = written(db.set("d", vec![4], 111, 1).unwrap());
    let all = BincodeSerializer::new().deserialize_db(&file).unwrap();
    assert_eq!(all.len(), 4);
    // nothing has been reported of that dump, and the next change is not due
    assert!(is_nothing(&db.set("e", vec![5], 121, 1).unwrap()));
    let (path, _) = written(db.set("f", vec![6], 122, 1).unwrap());
    assert_eq!(path, "s.db.temp.1");
    finish(&mut db, 130);
    // the end of the dump moved the time of the last dump to 130
    assert!(is_nothing(&db.set("g", vec![7], 140, 1).unwrap()));
    assert!(!is_nothing(&db.set("h", vec![8], 141, 1).unwrap()));
}

#[test]
fn periodic_dump_does_not_retry_at_once_after_a_failure() {
    let mut db = DocDb::new(
        "s.db",
        DumpPolicy::PeriodicDump(10),
        SerializationMethod::Json,
        0,
    );
    // a value that JSON cannot hold: the dump that is due fails
    let err = db.set("a", vec![0xff], 11, 1).err().unwrap();
    assert!(matches!(err, DocError::Serialization(_)));
    assert!(!db.exist("a"));
    // within the interval after the failed try nothing is due
    assert!(is_nothing(&db.set("a", vec![0xff], 21, 1).unwrap()));
    assert!(db.exist("a"));
    assert!(db.set("b", bytes("1"), 22, 1).is_err());
    assert!(!db.exist("b"));
}

#[test]
fn dump_on_request_stamps_a_periodic_store() {
    let mut db = DocDb::new(
        "s.db",
        DumpPolicy::PeriodicDump(10),
        SerializationMethod::Bin,
        0,
    );
    let _ = written(db.dump(1).unwrap());
    // the write alone is not the dump
    let _ = renamed(db.settle(Ok(()), 50).unwrap());
    assert!(is_nothing(&db.settle(Ok(()), 100).unwrap()));
    assert!(is_nothing(&db.set("a", vec![], 110, 1).unwrap()));
    assert!(!is_nothing(&db.set("a", vec![], 111, 1).unwrap()));
}

#[test]
fn failed_write_takes_a_set_back() {
    let mut db = DocDb::new("s.db", DumpPolicy::AutoDump, SerializationMethod::Bin, 0);
    let _ = written(db.set("k", vec![1], 0, 1).unwrap());
    finish(&mut db, 0);

    let _ = written(db.set("k", vec![2], 0, 1).unwrap());
    assert_eq!(db.get("k"), Some(&vec![2]));
    let err = db.settle(Err(locked()), 0).err().unwrap();
    assert!(matches!(err.get_type(), ErrorType::IO));
    assert_eq!(err.to_string(), locked().to_string());
    assert_eq!(db.get("k"), Some(&vec![1]));

    let _ = written(db.set("fresh", vec![3], 0, 1).unwrap());
    assert!(db.exist("fresh"));
    assert!(db.settle(Err(locked()), 0).is_err());
    assert!(!db.exist("fresh"));
    assert_eq!(db.total_nums(), 1);
}

#[test]
fn failed_rename_takes_a_set_back() {
    let mut db = DocDb::new("s.db", DumpPolicy::AutoDump, SerializationMethod::Bin, 0);
    let _ = written(db.set("k", vec![1], 0, 1).unwrap());
    finish(&mut db, 0);

    let _ = written(db.set("k", vec![2], 0, 1).unwrap());
    let _ = renamed(db.settle(Ok(()), 0).unwrap());
    assert_eq!(db.get("k"), Some(&vec![2]));
    let err = db.settle(Err(locked()), 0).err().unwrap();
    assert!(matches!(err.get_type(), ErrorType::IO));
    assert_eq!(db.get("k"), Some(&vec![1]));

    let _ = written(db.set("fresh", vec![3], 0, 1).unwrap());
    let _ = renamed(db.settle(Ok(()), 0).unwrap());
    assert!(db.settle(Err(locked()), 0).is_err());
    assert!(!db.exist("fresh"));
}

#[test]
fn failed_write_takes_a_rem_back() {
    let mut db = DocDb::new("s.db", DumpPolicy::AutoDump, SerializationMethod::Bin, 0);
    let _ = written(db.set("k", vec![1], 0, 1).unwrap());
    finish(&mut db, 0);

    let (was_present, op) = db.rem("k", 0, 1).unwrap();
    assert!(was_present);
    let _ = written(op);
    assert!(!db.exist("k"));
    let err = db.settle(Err(locked()), 0).err().unwrap();
    assert!(matches!(err, DocError::IO(_)));
    assert_eq!(db.get("k"), Some(&vec![1]));

    let (_, op) = db.rem("k", 0, 1).unwrap();
    let _ = written(op);
    let _ = renamed(db.settle(Ok(()), 0).unwrap());
    assert!(db.settle(Err(locked()), 0).is_err());
    assert_eq!(db.get("k"), Some(&vec![1]));
}

#[test]
fn failed_dump_on_request_changes_nothing() {
    let mut db = DocDb::new("s.db", DumpPolicy::DumpRelyRequest, SerializationMethod::Bin, 0);
    assert!(is_nothing(&db.set("k", vec![1], 0, 1).unwrap()));
    let _ = written(db.dump(1).unwrap());
    assert!(db.settle(Err(locked()), 0).is_err());
    assert_eq!(db.get("k"), Some(&vec![1]));
    assert_eq!(db.total_nums(), 1);
}

#[test]
fn failed_encoding_takes_a_change_back() {
    let mut db = DocDb::new("s.db", DumpPolicy::AutoDump, SerializationMethod::Json, 0);
    let _ = written(db.set("k", bytes("1"), 0, 1).unwrap());
    finish(&mut db, 0);

    let err = db.set("k", vec![0xff], 0, 1).err().unwrap();
    assert!(matches!(err, DocError::Serialization(_)));
    assert_eq!(db.get("k"), Some(&bytes("1")));
    let err = db.set("other", vec![0xff], 0, 1).err().unwrap();
    assert!(matches!(err.get_type(), ErrorType::Serialization));
    assert!(!db.exist("other"));
    // the failed call left nothing to report
    assert!(db.settle(Err(locked()), 0).is_err());
    assert_eq!(db.get("k"), Some(&bytes("1")));

    let mut cbor = DocDb::new("s.db", DumpPolicy::AutoDump, SerializationMethod::Cbor, 0);
    let err = cbor.set("k", vec![1], 0, 1).err().unwrap();
    assert_eq!(
        err.to_string(),
        "Serialization err: the CBOR format is not available"
    );
    assert!(!cbor.exist("k"));
    assert!(is_nothing(&cbor.close(1)));
}

#[test]
fn rem_of_an_absent_key_changes_nothing() {
    let mut db = DocDb::new("s.db", DumpPolicy::AutoDump, SerializationMethod::Bin, 0);
    let (was_present, op) = db.rem("k", 0, 1).unwrap();
    assert!(!was_present);
    assert!(is_nothing(&op));

    // a dump that is under way stays under way
    let _ = written(db.set("k", vec![1], 0, 1).unwrap());
    let (was_present, op) = db.rem("other", 0, 1).unwrap();
    assert!(!was_present);
    assert!(is_nothing(&op));
    assert!(db.settle(Err(locked()), 0).is_err());
    assert!(!db.exist("k"));
}

#[test]
fn settle_on_an_idle_store_changes_nothing() {
    let mut db = DocDb::new(
        "s.db",
        DumpPolicy::PeriodicDump(10),
        SerializationMethod::Bin,
        0,
    );
    assert!(is_nothing(&db.set("k", vec![1], 5, 1).unwrap()));
    assert!(is_nothing(&db.settle(Ok(()), 1000).unwrap()));
    // the time of the last dump is still 0
    assert!(!is_nothing(&db.set("k", vec![1], 11, 1).unwrap()));
    finish(&mut db, 11);
    let err = db.settle(Err(locked()), 12).err().unwrap();
    assert!(matches!(err, DocError::IO(_)));
    assert_eq!(db.get("k"), Some(&vec![1]));
}

#[test]
fn stage_turns_bytes_into_a_write() {
    let mut never = DocDb::new("s.db", DumpPolicy::NeverDump, SerializationMethod::Bin, 0);
    assert!(is_nothing(&never.stage(Ok(vec![5, 6]), 33).unwrap()));
    let failed = Err(DocError::Serialization("no".to_string()));
    assert!(is_nothing(&never.stage(failed, 33).unwrap()));
    assert!(is_nothing(&never.settle(Ok(()), 0).unwrap()));

    let mut db = DocDb::new("s.db", DumpPolicy::DumpRelyRequest, SerializationMethod::Bin, 0);
    let (path, file) = written(db.stage(Ok(vec![5, 6]), 33).unwrap());
    assert_eq!(path, "s.db.temp.33");
    assert_eq!(file, vec![5, 6]);
    let (from, to) = renamed(db.settle(Ok(()), 0).unwrap());
    assert_eq!(from, "s.db.temp.33");
    assert_eq!(to, "s.db");
    let err = db
        .stage(Err(DocError::Serialization("no".to_string())), 33)
        .err()
        .unwrap();
    assert_eq!(err.to_string(), "Serialization err: no");
    assert!(is_nothing(&db.settle(Ok(()), 0).unwrap()));
}

#[test]
fn guard_takes_the_change_back_on_an_error() {
    let mut db = DocDb::new("s.db", DumpPolicy::DumpRelyRequest, SerializationMethod::Bin, 0);
    db.set("k", vec![2], 0, 1).unwrap();
    let r = db.guard(
        "k",
        Some(vec![1]),
        Err(DocError::Serialization("no".to_string())),
    );
    assert!(r.is_err());
    assert_eq!(db.get("k"), Some(&vec![1]));
    let r = db.guard("k", None, Err(DocError::Serialization("no".to_string())));
    assert!(r.is_err());
    assert!(!db.exist("k"));

    db.set("k", vec![2], 0, 1).unwrap();
    assert!(is_nothing(&db.guard("k", Some(vec![1]), Ok(FileOp::Nothing)).unwrap()));
    assert_eq!(db.get("k"), Some(&vec![2]));

    let planned = db.stage(Ok(vec![]), 1);
    let _ = written(db.guard("k", Some(vec![1]), planned).unwrap());
    assert_eq!(db.get("k"), Some(&vec![2]));
    assert!(db.settle(Err(locked()), 0).is_err());
    assert_eq!(db.get("k"), Some(&vec![1]));
}

#[test]
fn load_reports_what_went_wrong() {
    let missing = io::Error::new(io::ErrorKind::NotFound, "no such file");
    let expected = missing.to_string();
    let err = DocDb::load("s.db", DumpPolicy::AutoDump, SerializationMethod::Json, Err(missing), 0)
        .err()
        .unwrap();
    assert!(matches!(err.get_type(), ErrorType::IO));
    assert_eq!(err.to_string(), expected);

    let err = DocDb::load_json("s.db", DumpPolicy::AutoDump, Ok(bytes("[]")), 0)
        .err()
        .unwrap();
    assert!(matches!(err, DocError::Deserialization(_)));
    let err = DocDb::load_yaml("s.db", DumpPolicy::AutoDump, Ok(bytes("[]")), 0)
        .err()
        .unwrap();
    assert!(matches!(err, DocError::Deserialization(_)));
    let err = DocDb::load_bin("s.db", DumpPolicy::AutoDump, Ok(bytes("[]")), 0)
        .err()
        .unwrap();
    assert_eq!(
        err.to_string(),
        "Deserialization err: cannot deserialize from db"
    );
    let err = DocDb::load("s.db", DumpPolicy::AutoDump, SerializationMethod::Cbor, Ok(vec![]), 0)
        .err()
        .unwrap();
    assert!(matches!(err, DocError::Deserialization(_)));
}

#[test]
fn loaded_store_keeps_its_policy_and_time() {
    let mut db = DocDb::load(
        "s.db",
        DumpPolicy::PeriodicDump(10),
        SerializationMethod::Json,
        Ok(bytes(r#"{"a":"1"}"#)),
        100,
    )
    .unwrap();
    assert_eq!(db.total_nums(), 1);
    assert!(is_nothing(&db.set("b", bytes("2"), 110, 1).unwrap()));
    let (path, file) = written(db.set("c", bytes("3"), 111, 5).unwrap());
    assert_eq!(path, "s.db.temp.5");
    assert_eq!(file, bytes(r#"{"a":"1","b":"2","c":"3"}"#));

    let mut read_only = DocDb::load_read_only(
        "s.db",
        SerializationMethod::Json,
        Ok(bytes(r#"{"a":"1"}"#)),
        0,
    )
    .unwrap();
    assert!(is_nothing(&read_only.set("b", bytes("2"), 0, 1).unwrap()));
    assert!(is_nothing(&read_only.dump(1).unwrap()));
}

#[test]
fn from_decoded_hands_the_error_on() {
    let err = DocDb::from_decoded(
        "s.db",
        DumpPolicy::AutoDump,
        SerializationMethod::Json,
        Err(DocError::Deserialization("bad".to_string())),
        0,
    )
    .err()
    .unwrap();
    assert_eq!(err.to_string(), "Deserialization err: bad");
    let db = DocDb::from_decoded(
        "s.db",
        DumpPolicy::AutoDump,
        SerializationMethod::Json,
        Ok(table_of(&[("a", b"1")])),
        0,
    )
    .unwrap();
    assert_eq!(db.get("a"), Some(&bytes("1")));
}

#[test]
fn close_plans_a_last_dump() {
    let mut auto = DocDb::new("s.db", DumpPolicy::AutoDump, SerializationMethod::Json, 0);
    assert_eq!(written(auto.close(3)).1, bytes("{}"));
    let (from, to) = renamed(auto.settle(Ok(()), 0).unwrap());
    assert_eq!((from.as_str(), to.as_str()), ("s.db.temp.3", "s.db"));
    let mut periodic = DocDb::new(
        "s.db",
        DumpPolicy::PeriodicDump(1_000_000),
        SerializationMethod::Json,
        0,
    );
    assert!(is_nothing(&periodic.set("a", bytes("1"), 1, 1).unwrap()));
    let (path, file) = written(periodic.close(4));
    assert_eq!(path, "s.db.temp.4");
    assert_eq!(file, bytes(r#"{"a":"1"}"#));
    let mut on_request = DocDb::new(
        "s.db",
        DumpPolicy::DumpRelyRequest,
        SerializationMethod::Json,
        0,
    );
    assert!(is_nothing(&on_request.close(1)));
    // a table that cannot be encoded is given up in silence
    let mut broken = DocDb::new(
        "s.db",
        DumpPolicy::PeriodicDump(1_000_000),
        SerializationMethod::Json,
        0,
    );
    assert!(is_nothing(&broken.set("a", vec![0xff], 1, 1).unwrap()));
    assert!(is_nothing(&broken.close(1)));
}

#[test]
fn walk_hands_out_every_entry_once() {
    let mut db = DocDb::new("s.db", DumpPolicy::NeverDump, SerializationMethod::Bin, 0);
    db.set("a", vec![1], 0, 1).unwrap();
    db.set("b", vec![2], 0, 1).unwrap();
    db.set("a", vec![3], 0, 1).unwrap();
    let mut seen: Vec<(String, Vec<u8>)> = Vec::new();
    let mut walk = db.iter();
    while let Some(item) = walk.next() {
        seen.push((item.get_key().to_string(), item.get_value().clone()));
    }
    assert!(walk.next().is_none());
    seen.sort();
    assert_eq!(
        seen,
        vec![("a".to_string(), vec![3]), ("b".to_string(), vec![2])]
    );
}

#[test]
fn wrong_type_reads_as_absent_and_the_key_stays() {
    let mut db = DocDb::new("s.db", DumpPolicy::NeverDump, SerializationMethod::Json, 0);
    db.set("k", serde_json::to_string(&3.14).unwrap().into_bytes(), 0, 1)
        .unwrap();
    let stored = db.get("k").unwrap();
    assert_eq!(serde_json::from_slice::<String>(stored).ok(), None);
    assert_eq!(serde_json::from_slice::<f64>(stored).ok(), Some(3.14));
    assert!(db.exist("k"));
}

#[test]
fn auto_dump_store_is_reloaded_from_its_last_snapshot() {
    let mut db = DocDb::new("s.db", DumpPolicy::AutoDump, SerializationMethod::Json, 0);
    let mut file: Vec<u8> = Vec::new();
    for (key, value) in [("num", "100"), ("str", "\"hello\"")] {
        file = written(db.set(key, bytes(value), 0, 1).unwrap()).1;
        finish(&mut db, 0);
    }
    let (was_present, op) = db.rem("num", 0, 1).unwrap();
    assert!(was_present);
    let file_after = written(op).1;
    finish(&mut db, 0);
    assert_ne!(file, file_after);

    let reloaded = DocDb::load("s.db", DumpPolicy::AutoDump, SerializationMethod::Json, Ok(file_after), 0)
        .unwrap();
    assert_eq!(reloaded.get("num"), None);
    let stored = reloaded.get("str").unwrap();
    assert_eq!(serde_json::from_slice::<String>(stored).unwrap(), "hello");
}
