//! The snapshot codecs: how the whole table becomes the bytes of a file and
//! back.
//!
//! Three formats are available. JSON and YAML write a flat mapping from each
//! key to the text of its value, so they can encode a table only if every
//! value in it is valid UTF-8. Bincode writes the keys and the raw bytes.
//! Every format lists the keys in their order, so that a table has one
//! snapshot in it, whatever the order in which its keys were set.
//!
//! The encoders and decoders themselves belong to `serde_json`, `serde_yaml`
//! and `bincode`; what they return is named here and not described. Encoding
//! single values is not done here: a store holds values that its caller has
//! encoded.

use crate::error::DocError;
use crate::table::{bindings, distinct_keys, lemma_entry_is_binding, slot_of, Entry, Table};
use std::collections::BTreeMap;
use std::collections::HashMap;
use vstd::prelude::*;
use vstd::string::StringExecFns;
use vstd::utf8::*;

verus! {

/// The error of `serde_json`.
#[verifier::external_type_specification]
#[verifier::external_body]
pub struct ExJsonError(serde_json::Error);

/// The error of `serde_yaml`.
#[verifier::external_type_specification]
#[verifier::external_body]
pub struct ExYamlError(serde_yaml::Error);

/// The error of `bincode`, which hands it out boxed.
#[verifier::external_type_specification]
#[verifier::external_body]
pub struct ExBincodeErrorKind(bincode::ErrorKind);

/// The error of `std::str::from_utf8`.
#[verifier::external_type_specification]
#[verifier::external_body]
pub struct ExUtf8Error(std::str::Utf8Error);

/// The JSON text that `serde_json::to_string` gives for a mapping from keys
/// to the bytes of text values, walked in key order; `None` where it fails.
pub uninterp spec fn json_snapshot(table: Map<Seq<char>, Seq<u8>>) -> Option<Seq<u8>>;

/// The mapping that `serde_json::from_str` reads from a text as a map from
/// strings to strings, each value given by its bytes; `None` where it fails.
pub uninterp spec fn json_mapping(text: Seq<char>) -> Option<Map<Seq<char>, Seq<u8>>>;

/// The YAML text that `serde_yaml::to_string` gives for a mapping from keys
/// to the bytes of text values, walked in key order; `None` where it fails.
pub uninterp spec fn yaml_snapshot(table: Map<Seq<char>, Seq<u8>>) -> Option<Seq<u8>>;

/// The mapping that `serde_yaml::from_str` reads from a text as a map from
/// strings to strings, each value given by its bytes; `None` where it fails.
pub uninterp spec fn yaml_mapping(text: Seq<char>) -> Option<Map<Seq<char>, Seq<u8>>>;

/// The bytes that `bincode::serialize` gives for a mapping from keys to byte
/// strings, walked in key order; `None` where it fails.
pub uninterp spec fn bincode_snapshot(table: Map<Seq<char>, Seq<u8>>) -> Option<Seq<u8>>;

/// The mapping that `bincode::deserialize` reads from bytes as a map from
/// strings to byte strings; `None` where it fails.
pub uninterp spec fn bincode_mapping(bytes: Seq<u8>) -> Option<Map<Seq<char>, Seq<u8>>>;

/// Every value of the table is valid UTF-8.
pub open spec fn is_text(table: Map<Seq<char>, Seq<u8>>) -> bool {
    forall|k: Seq<char>| table.contains_key(k) ==> valid_utf8(#[trigger] table[k])
}

/// Every value of the list is valid UTF-8.
pub open spec fn all_text(entries: Seq<Entry>) -> bool {
    forall|i: int| 0 <= i < entries.len() ==> valid_utf8((#[trigger] entries[i]).value@)
}

/// `std::str::from_utf8`: succeeds exactly on valid UTF-8, and the string it
/// returns has the given bytes.
pub assume_specification[ std::str::from_utf8 ](bytes: &[u8]) -> (r: Result<
    &str,
    std::str::Utf8Error,
>)
    ensures
        r is Ok <==> valid_utf8(bytes@),
        r matches Ok(text) ==> encode_utf8(text@) == bytes@,
;

/// The text that valid UTF-8 bytes spell.
fn as_text(bytes: &Vec<u8>) -> (text: &str)
    requires
        valid_utf8(bytes@),
    ensures
        encode_utf8(text@) == bytes@,
{
    match std::str::from_utf8(bytes.as_slice()) {
        Ok(text) => text,
        Err(_) => "",
    }
}

/// `serde_json::to_string` on a `BTreeMap` from each key to the text of its
/// value. The result is the named JSON text of the bindings.
#[verifier::external_body]
fn json_encode(entries: &Vec<Entry>) -> (r: Result<Vec<u8>, serde_json::Error>)
    requires
        distinct_keys(entries@),
        all_text(entries@),
    ensures
        match r {
            Ok(bytes) => json_snapshot(bindings(entries@)) == Some(bytes@),
            Err(_) => json_snapshot(bindings(entries@)) is None,
        },
{
    let object: BTreeMap<&String, &str> = entries.iter().map(
        |e| (&e.key, as_text(&e.value)),
    ).collect();
    serde_json::to_string(&object).map(String::into_bytes)
}

/// `serde_json::from_str` into a `HashMap<String, String>`, handed out as a
/// list of entries. The list has each key once and spells the named mapping.
#[verifier::external_body]
fn json_decode(text: &str) -> (r: Result<Vec<Entry>, serde_json::Error>)
    ensures
        match r {
            Ok(entries) => distinct_keys(entries@) && json_mapping(text@) == Some(
                bindings(entries@),
            ),
            Err(_) => json_mapping(text@) is None,
        },
{
    serde_json::from_str::<HashMap<String, String>>(text).map(
        |m| m.into_iter().map(|(key, v)| Entry { key, value: v.into_bytes() }).collect(),
    )
}

/// `serde_json::Error`'s `Display`. Nothing is claimed of the text.
#[verifier::external_body]
fn json_error_text(err: &serde_json::Error) -> String {
    err.to_string()
}

/// `serde_yaml::to_string` on a `BTreeMap` from each key to the text of its
/// value. The result is the named YAML text of the bindings.
#[verifier::external_body]
fn yaml_encode(entries: &Vec<Entry>) -> (r: Result<Vec<u8>, serde_yaml::Error>)
    requires
        distinct_keys(entries@),
        all_text(entries@),
    ensures
        match r {
            Ok(bytes) => yaml_snapshot(bindings(entries@)) == Some(bytes@),
            Err(_) => yaml_snapshot(bindings(entries@)) is None,
        },
{
    let object: BTreeMap<&String, &str> = entries.iter().map(
        |e| (&e.key, as_text(&e.value)),
    ).collect();
    serde_yaml::to_string(&object).map(String::into_bytes)
}

/// `serde_yaml::from_str` into a `HashMap<String, String>`, handed out as a
/// list of entries. The list has each key once and spells the named mapping.
#[verifier::external_body]
fn yaml_decode(text: &str) -> (r: Result<Vec<Entry>, serde_yaml::Error>)
    ensures
        match r {
            Ok(entries) => distinct_keys(entries@) && yaml_mapping(text@) == Some(
                bindings(entries@),
            ),
            Err(_) => yaml_mapping(text@) is None,
        },
{
    serde_yaml::from_str::<HashMap<String, String>>(text).map(
        |m| m.into_iter().map(|(key, v)| Entry { key, value: v.into_bytes() }).collect(),
    )
}

/// `serde_yaml::Error`'s `Display`. Nothing is claimed of the text.
#[verifier::external_body]
fn yaml_error_text(err: &serde_yaml::Error) -> String {
    err.to_string()
}

/// `bincode::serialize` on a `BTreeMap` from each key to its value. The
/// result is the named encoding of the bindings.
#[verifier::external_body]
fn bincode_encode(entries: &Vec<Entry>) -> (r: Result<Vec<u8>, Box<bincode::ErrorKind>>)
    requires
        distinct_keys(entries@),
    ensures
        match r {
            Ok(bytes) => bincode_snapshot(bindings(entries@)) == Some(bytes@),
            Err(_) => bincode_snapshot(bindings(entries@)) is None,
        },
{
    let object: BTreeMap<&String, &Vec<u8>> = entries.iter().map(|e| (&e.key, &e.value)).collect();
    bincode::serialize(&object)
}

/// `bincode::deserialize` into a `HashMap<String, Vec<u8>>`, handed out as a
/// list of entries. The list has each key once and spells the named mapping.
#[verifier::external_body]
fn bincode_decode(bytes: &[u8]) -> (r: Result<Vec<Entry>, Box<bincode::ErrorKind>>)
    ensures
        match r {
            Ok(entries) => distinct_keys(entries@) && bincode_mapping(bytes@) == Some(
                bindings(entries@),
            ),
            Err(_) => bincode_mapping(bytes@) is None,
        },
{
    bincode::deserialize::<HashMap<String, Vec<u8>>>(bytes).map(
        |m| m.into_iter().map(|(key, value)| Entry { key, value }).collect(),
    )
}

/// `bincode::ErrorKind`'s `Display`. Nothing is claimed of the text.
#[verifier::external_body]
fn bincode_error_text(err: &Box<bincode::ErrorKind>) -> String {
    err.to_string()
}

/// The format in which a store encodes its values and its snapshot.
#[derive(Debug, Clone, Copy, PartialEq, Eq, Structural)]
pub enum SerializationMethod {
    /// JSON, by `serde_json`.
    Json,
    /// Bincode, by `bincode`.
    Bin,
    /// YAML, by `serde_yaml`.
    Yaml,
    /// CBOR. No codec is available for it: every encoding and decoding fails.
    Cbor,
}

impl SerializationMethod {
    /// The name of the format.
    pub open spec fn name(self) -> Seq<char> {
        match self {
            SerializationMethod::Json => "Json"@,
            SerializationMethod::Bin => "Bin"@,
            SerializationMethod::Yaml => "Yaml"@,
            SerializationMethod::Cbor => "Cbor"@,
        }
    }

    /// The name of the format.
    pub fn to_string(&self) -> (s: String)
        ensures
            s@ == self.name(),
    {
        match self {
            SerializationMethod::Json => String::from_str("Json"),
            SerializationMethod::Bin => String::from_str("Bin"),
            SerializationMethod::Yaml => String::from_str("Yaml"),
            SerializationMethod::Cbor => String::from_str("Cbor"),
        }
    }
}

impl From<i32> for SerializationMethod {
    /// The format with the given number: 0 is JSON, 1 bincode, 2 YAML and 3
    /// CBOR. Every other number stands for JSON.
    fn from(value: i32) -> (m: Self) {
        match value {
            0 => SerializationMethod::Json,
            1 => SerializationMethod::Bin,
            2 => SerializationMethod::Yaml,
            3 => SerializationMethod::Cbor,
            _ => SerializationMethod::Json,
        }
    }
}

impl vstd::std_specs::convert::FromSpecImpl<i32> for SerializationMethod {
    open spec fn obeys_from_spec() -> bool {
        true
    }

    open spec fn from_spec(value: i32) -> Self {
        if value == 1 {
            SerializationMethod::Bin
        } else if value == 2 {
            SerializationMethod::Yaml
        } else if value == 3 {
            SerializationMethod::Cbor
        } else {
            SerializationMethod::Json
        }
    }
}

/// The message of every CBOR failure.
pub open spec fn cbor_message() -> Seq<char> {
    "the CBOR format is not available"@
}

/// The message of the error that bytes which bincode cannot read give.
pub open spec fn bincode_message() -> Seq<char> {
    "cannot deserialize from db"@
}

/// Whether `e` is an error of encoding a snapshot in the format.
pub open spec fn is_encoding_error(method: SerializationMethod, e: DocError) -> bool {
    e matches DocError::Serialization(msg) && (method is Cbor ==> msg@ == cbor_message())
}

/// Whether `e` is an error of decoding a snapshot in the format. Bincode and
/// CBOR have one message each; JSON and YAML pass on what their parser says.
pub open spec fn is_decoding_error(method: SerializationMethod, e: DocError) -> bool {
    e matches DocError::Deserialization(msg) && match method {
        SerializationMethod::Bin => msg@ == bincode_message(),
        SerializationMethod::Cbor => msg@ == cbor_message(),
        _ => true,
    }
}

/// The snapshot of a table in a format; `None` where the table cannot be
/// encoded in it.
pub open spec fn snapshot_encoding(
    method: SerializationMethod,
    table: Map<Seq<char>, Seq<u8>>,
) -> Option<Seq<u8>> {
    match method {
        SerializationMethod::Json => if is_text(table) {
            json_snapshot(table)
        } else {
            None
        },
        SerializationMethod::Yaml => if is_text(table) {
            yaml_snapshot(table)
        } else {
            None
        },
        SerializationMethod::Bin => bincode_snapshot(table),
        SerializationMethod::Cbor => None,
    }
}

/// The table that a file's bytes hold in a format; `None` where they do not
/// parse as a snapshot.
pub open spec fn snapshot_decoding(method: SerializationMethod, bytes: Seq<u8>) -> Option<
    Map<Seq<char>, Seq<u8>>,
> {
    match method {
        SerializationMethod::Json => if valid_utf8(bytes) {
            json_mapping(decode_utf8(bytes))
        } else {
            None
        },
        SerializationMethod::Yaml => if valid_utf8(bytes) {
            yaml_mapping(decode_utf8(bytes))
        } else {
            None
        },
        SerializationMethod::Bin => bincode_mapping(bytes),
        SerializationMethod::Cbor => None,
    }
}

/// `std::str::Utf8Error`'s `Display`. Nothing is claimed of the text.
#[verifier::external_body]
fn utf8_error_text(err: &std::str::Utf8Error) -> String {
    err.to_string()
}

/// Looks for a value that is not valid UTF-8 and returns the error of the
/// first one found.
fn ensure_text(entries: &Vec<Entry>) -> (r: Result<(), std::str::Utf8Error>)
    requires
        distinct_keys(entries@),
    ensures
        r is Ok <==> all_text(entries@),
        r is Ok <==> is_text(bindings(entries@)),
{
    let mut i: usize = 0;
    while i < entries.len()
        invariant
            i <= entries.len(),
            distinct_keys(entries@),
            forall|j: int| 0 <= j < i ==> valid_utf8((#[trigger] entries@[j]).value@),
        decreases entries.len() - i,
    {
        match std::str::from_utf8(entries[i].value.as_slice()) {
            Ok(_) => {},
            Err(e) => {
                proof {
                    lemma_entry_is_binding(entries@, i as int);
                }
                return Err(e);
            },
        }
        i += 1;
    }
    proof {
        let s = entries@;
        assert forall|k: Seq<char>| bindings(s).contains_key(k) implies valid_utf8(
            #[trigger] bindings(s)[k],
        ) by {
            let j = slot_of(s, k);
            assert(valid_utf8(s[j].value@));
        }
    }
    Ok(())
}

/// A JSON codec of snapshots that files every failure of `serde_json` under
/// serialization, whichever way the call went.
pub struct DocSerializer {}

impl DocSerializer {
    /// Encodes the table as one JSON object from each key to the text of its
    /// value. Fails if a value is not text, or if `serde_json` fails.
    pub fn serialize_db(&self, map: &Table) -> (r: Result<Vec<u8>, DocError>)
        ensures
            match r {
                Ok(bytes) => snapshot_encoding(SerializationMethod::Json, map@) == Some(bytes@),
                Err(e) => e is Serialization && snapshot_encoding(SerializationMethod::Json, map@)
                    is None,
            },
    {
        JsonSerializer::new().serialize_db(map)
    }

    /// Decodes a JSON object from keys to strings into a table. Bytes that
    /// are not UTF-8 give a deserialization error, text that is not such an
    /// object a serialization error.
    pub fn deserialize_db(&self, db: &[u8]) -> (r: Result<Table, DocError>)
        ensures
            match r {
                Ok(table) => snapshot_decoding(SerializationMethod::Json, db@) == Some(table@),
                Err(e) => snapshot_decoding(SerializationMethod::Json, db@) is None && (
                if valid_utf8(db@) {
                    e is Serialization
                } else {
                    e is Deserialization
                }),
            },
    {
        broadcast use encode_utf8_decode_utf8;

        match std::str::from_utf8(db) {
            Ok(text) => match json_decode(text) {
                Ok(entries) => Ok(Table::from_entries(entries)),
                Err(e) => Err(DocError::Serialization(json_error_text(&e))),
            },
            Err(e) => Err(DocError::Deserialization(utf8_error_text(&e))),
        }
    }
}

/// The JSON codec of snapshots.
pub struct JsonSerializer {}

impl JsonSerializer {
    pub fn new() -> Self {
        JsonSerializer {  }
    }

    /// Encodes the table as one JSON object from each key to the text of its
    /// value. Fails if a value is not text, or if `serde_json` fails.
    pub fn serialize_db(&self, map: &Table) -> (r: Result<Vec<u8>, DocError>)
        ensures
            match r {
                Ok(bytes) => snapshot_encoding(SerializationMethod::Json, map@) == Some(bytes@),
                Err(e) => e is Serialization && snapshot_encoding(SerializationMethod::Json, map@)
                    is None,
            },
    {
        let entries = map.entries();
        match ensure_text(entries) {
            Ok(_) => match json_encode(entries) {
                Ok(bytes) => Ok(bytes),
                Err(e) => Err(DocError::Serialization(json_error_text(&e))),
            },
            Err(e) => Err(DocError::Serialization(utf8_error_text(&e))),
        }
    }

    /// Decodes a JSON object from keys to strings into a table.
    pub fn deserialize_db(&self, ser_data: &[u8]) -> (r: Result<Table, DocError>)
        ensures
            match r {
                Ok(table) => snapshot_decoding(SerializationMethod::Json, ser_data@) == Some(
                    table@,
                ),
                Err(e) => e is Deserialization && snapshot_decoding(
                    SerializationMethod::Json,
                    ser_data@,
                ) is None,
            },
    {
        broadcast use encode_utf8_decode_utf8;

        match std::str::from_utf8(ser_data) {
            Ok(text) => match json_decode(text) {
                Ok(entries) => Ok(Table::from_entries(entries)),
                Err(e) => Err(DocError::Deserialization(json_error_text(&e))),
            },
            Err(e) => Err(DocError::Deserialization(utf8_error_text(&e))),
        }
    }
}

/// The YAML codec of snapshots.
pub struct YamlSerializer {}

impl YamlSerializer {
    pub fn new() -> Self {
        YamlSerializer {  }
    }

    /// Encodes the table as one YAML mapping from each key to the text of its
    /// value. Fails if a value is not text, or if `serde_yaml` fails.
    pub fn serialize_db(&self, map: &Table) -> (r: Result<Vec<u8>, DocError>)
        ensures
            match r {
                Ok(bytes) => snapshot_encoding(SerializationMethod::Yaml, map@) == Some(bytes@),
                Err(e) => e is Serialization && snapshot_encoding(SerializationMethod::Yaml, map@)
                    is None,
            },
    {
        let entries = map.entries();
        match ensure_text(entries) {
            Ok(_) => match yaml_encode(entries) {
                Ok(bytes) => Ok(bytes),
                Err(e) => Err(DocError::Serialization(yaml_error_text(&e))),
            },
            Err(e) => Err(DocError::Serialization(utf8_error_text(&e))),
        }
    }

    /// Decodes a YAML mapping from keys to strings into a table.
    pub fn deserialize_db(&self, db: &[u8]) -> (r: Result<Table, DocError>)
        ensures
            match r {
                Ok(table) => snapshot_decoding(SerializationMethod::Yaml, db@) == Some(table@),
                Err(e) => e is Deserialization && snapshot_decoding(SerializationMethod::Yaml, db@)
                    is None,
            },
    {
        broadcast use encode_utf8_decode_utf8;

        match std::str::from_utf8(db) {
            Ok(text) => match yaml_decode(text) {
                Ok(entries) => Ok(Table::from_entries(entries)),
                Err(e) => Err(DocError::Deserialization(yaml_error_text(&e))),
            },
            Err(e) => Err(DocError::Deserialization(utf8_error_text(&e))),
        }
    }
}

/// The CBOR codec of snapshots, for which nothing is available: it fails on
/// every input.
pub struct CborSerializer {}

impl CborSerializer {
    pub fn new() -> Self {
        CborSerializer {  }
    }

    pub fn serialize_db(&self, map: &Table) -> (r: Result<Vec<u8>, DocError>)
        ensures
            r matches Err(DocError::Serialization(msg)) && msg@ == cbor_message(),
    {
        Err(DocError::Serialization(String::from_str("the CBOR format is not available")))
    }

    pub fn deserialize_db(&self, db: &[u8]) -> (r: Result<Table, DocError>)
        ensures
            r matches Err(DocError::Deserialization(msg)) && msg@ == cbor_message(),
    {
        Err(DocError::Deserialization(String::from_str("the CBOR format is not available")))
    }
}

/// The bincode codec of snapshots.
pub struct BincodeSerializer {}

impl BincodeSerializer {
    pub fn new() -> Self {
        BincodeSerializer {  }
    }

    /// Encodes the table as one bincode map from each key to its bytes.
    pub fn serialize_db(&self, map: &Table) -> (r: Result<Vec<u8>, DocError>)
        ensures
            match r {
                Ok(bytes) => snapshot_encoding(SerializationMethod::Bin, map@) == Some(bytes@),
                Err(e) => e is Serialization && snapshot_encoding(SerializationMethod::Bin, map@)
                    is None,
            },
    {
        match bincode_encode(map.entries()) {
            Ok(bytes) => Ok(bytes),
            Err(e) => Err(DocError::Serialization(bincode_error_text(&e))),
        }
    }

    /// Decodes a bincode map from keys to bytes into a table. Every failure
    /// carries the same message.
    pub fn deserialize_db(&self, db: &[u8]) -> (r: Result<Table, DocError>)
        ensures
            match r {
                Ok(table) => snapshot_decoding(SerializationMethod::Bin, db@) == Some(table@),
                Err(e) => snapshot_decoding(SerializationMethod::Bin, db@) is None && (
                e matches DocError::Deserialization(msg) && msg@ == bincode_message()),
            },
    {
        match bincode_decode(db) {
            Ok(entries) => Ok(Table::from_entries(entries)),
            Err(_) => Err(
                DocError::Deserialization(String::from_str("cannot deserialize from db")),
            ),
        }
    }
}

/// The snapshot codec of a store: the format that was chosen, and the codec
/// of each format.
pub struct Serializer {
    ser_method: SerializationMethod,
    json_serializer: JsonSerializer,
    yaml_serializer: YamlSerializer,
    cbor_serializer: CborSerializer,
    bin_serializer: BincodeSerializer,
}

impl Serializer {
    /// The format that was chosen.
    pub closed spec fn method(self) -> SerializationMethod {
        self.ser_method
    }

    pub fn new(ser_method: SerializationMethod) -> (s: Self)
        ensures
            s.method() == ser_method,
    {
        Serializer {
            ser_method,
            json_serializer: JsonSerializer::new(),
            yaml_serializer: YamlSerializer::new(),
            cbor_serializer: CborSerializer::new(),
            bin_serializer: BincodeSerializer::new(),
        }
    }

    /// The format that was chosen.
    pub fn ser_method(&self) -> (m: SerializationMethod)
        ensures
            m == self.method(),
    {
        self.ser_method
    }

    /// Encodes the table in the chosen format.
    pub fn serialize_db(&self, map: &Table) -> (r: Result<Vec<u8>, DocError>)
        ensures
            match r {
                Ok(bytes) => snapshot_encoding(self.method(), map@) == Some(bytes@),
                Err(e) => is_encoding_error(self.method(), e) && snapshot_encoding(
                    self.method(),
                    map@,
                ) is None,
            },
    {
        match self.ser_method {
            SerializationMethod::Json => self.json_serializer.serialize_db(map),
            SerializationMethod::Yaml => self.yaml_serializer.serialize_db(map),
            SerializationMethod::Cbor => self.cbor_serializer.serialize_db(map),
            SerializationMethod::Bin => self.bin_serializer.serialize_db(map),
        }
    }

    /// Decodes a table from bytes in the chosen format.
    pub fn deserialize_db(&self, v: &[u8]) -> (r: Result<Table, DocError>)
        ensures
            match r {
                Ok(table) => snapshot_decoding(self.method(), v@) == Some(table@),
                Err(e) => is_decoding_error(self.method(), e) && snapshot_decoding(
                    self.method(),
                    v@,
                ) is None,
            },
    {
        match self.ser_method {
            SerializationMethod::Json => self.json_serializer.deserialize_db(v),
            SerializationMethod::Yaml => self.yaml_serializer.deserialize_db(v),
            SerializationMethod::Cbor => self.cbor_serializer.deserialize_db(v),
            SerializationMethod::Bin => self.bin_serializer.deserialize_db(v),
        }
    }
}

} // verus!
