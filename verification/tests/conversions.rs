use serde::de::{Deserialize, Deserializer, Error as DeError, IgnoredAny, MapAccess, SeqAccess, Visitor};
use serde::ser::{Error as SerError, Serialize, SerializeStruct, Serializer};
use serdeconv::{
    from_json_reader, from_json_slice, from_json_str, from_msgpack_reader, from_msgpack_slice,
    from_toml_reader, from_toml_slice, from_toml_str, to_json_string, to_json_string_pretty,
    to_json_writer, to_json_writer_pretty, to_msgpack_vec, to_msgpack_writer, to_toml_string,
    to_toml_writer, Cause, ErrorKind,
};
use std::collections::BTreeMap;

#[derive(Debug, Clone, PartialEq, Eq)]
struct Foo {
    bar: String,
    baz: usize,
}

impl Serialize for Foo {
    fn serialize<S: Serializer>(&self, serializer: S) -> Result<S::Ok, S::Error> {
        let mut fields = serializer.serialize_struct("Foo", 2)?;
        fields.serialize_field("bar", &self.bar)?;
        fields.serialize_field("baz", &self.baz)?;
        fields.end()
    }
}

struct FooVisitor;

impl<'de> Visitor<'de> for FooVisitor {
    type Value = Foo;

    fn expecting(&self, f: &mut std::fmt::Formatter) -> std::fmt::Result {
        f.write_str("struct Foo")
    }

    fn visit_seq<A: SeqAccess<'de>>(self, mut seq: A) -> Result<Foo, A::Error> {
        let bar = match seq.next_element()? {
            Some(v) => v,
            None => return Err(A::Error::invalid_length(0, &self)),
        };
        let baz = match seq.next_element()? {
            Some(v) => v,
            None => return Err(A::Error::invalid_length(1, &self)),
        };
        Ok(Foo { bar, baz })
    }

    fn visit_map<A: MapAccess<'de>>(self, mut map: A) -> Result<Foo, A::Error> {
        let mut bar: Option<String> = None;
        let mut baz: Option<usize> = None;
        while let Some(key) = map.next_key::<String>()? {
            if key == "bar" {
                bar = Some(map.next_value()?);
            } else if key == "baz" {
                baz = Some(map.next_value()?);
            } else {
                let _: IgnoredAny = map.next_value()?;
            }
        }
        match (bar, baz) {
            (Some(bar), Some(baz)) => Ok(Foo { bar, baz }),
            (None, _) => Err(A::Error::missing_field("bar")),
            (_, None) => Err(A::Error::missing_field("baz")),
        }
    }
}

impl<'de> Deserialize<'de> for Foo {
    fn deserialize<D: Deserializer<'de>>(deserializer: D) -> Result<Foo, D::Error> {
        deserializer.deserialize_struct("Foo", &["bar", "baz"], FooVisitor)
    }
}

/// A value that no format can hold: its `Serialize` always refuses.
struct Unencodable;

impl Serialize for Unencodable {
    fn serialize<S: Serializer>(&self, _serializer: S) -> Result<S::Ok, S::Error> {
        Err(S::Error::custom("this value has no encoding"))
    }
}

fn foo() -> Foo {
    Foo { bar: "aaa".to_string(), baz: 123 }
}

fn not_found() -> std::io::Error {
    std::io::Error::new(std::io::ErrorKind::NotFound, "no such file")
}

#[test]
fn json_encoding_of_struct_is_exact() {
    assert_eq!(to_json_string(&foo()).unwrap(), "{\"bar\":\"aaa\",\"baz\":123}");
}

#[test]
fn toml_encoding_of_struct_is_exact() {
    assert_eq!(to_toml_string(&foo()).unwrap(), "bar = \"aaa\"\nbaz = 123\n");
}

#[test]
fn json_pretty_encoding_of_struct_is_exact() {
    assert_eq!(
        to_json_string_pretty(&foo()).unwrap(),
        "{\n  \"bar\": \"aaa\",\n  \"baz\": 123\n}"
    );
}

#[test]
fn msgpack_encoding_of_struct_is_exact() {
    assert_eq!(
        to_msgpack_vec(&foo()).unwrap(),
        vec![0x92u8, 0xa3, b'a', b'a', b'a', 0x7b]
    );
}

#[test]
fn json_text_decodes_to_struct() {
    let got: Foo = from_json_str("{\"bar\":\"aaa\",\"baz\":123}").unwrap();
    assert_eq!(got, foo());
    let spaced: Foo = from_json_str("{\n    \"bar\": \"aaa\",\n    \"baz\": 123\n}").unwrap();
    assert_eq!(spaced, foo());
}

#[test]
fn toml_text_decodes_to_struct() {
    let got: Foo = from_toml_str("\nbar = \"aaa\"\nbaz = 123\n").unwrap();
    assert_eq!(got.bar, "aaa");
    assert_eq!(got.baz, 123);
}

#[test]
fn json_round_trip() {
    let text = to_json_string(&foo()).unwrap();
    assert_eq!(from_json_str::<Foo>(&text).unwrap(), foo());
    assert_eq!(from_json_slice::<Foo>(text.as_bytes()).unwrap(), foo());

    let numbers: Vec<u64> = vec![0, 1, u64::MAX];
    let text = to_json_string(&numbers).unwrap();
    assert_eq!(text, "[0,1,18446744073709551615]");
    assert_eq!(from_json_str::<Vec<u64>>(&text).unwrap(), numbers);

    let mut map: BTreeMap<String, Option<i32>> = BTreeMap::new();
    map.insert("a".to_string(), Some(-1));
    map.insert("b".to_string(), None);
    let text = to_json_string(&map).unwrap();
    assert_eq!(text, "{\"a\":-1,\"b\":null}");
    assert_eq!(from_json_str::<BTreeMap<String, Option<i32>>>(&text).unwrap(), map);
}

#[test]
fn toml_round_trip() {
    let text = to_toml_string(&foo()).unwrap();
    assert_eq!(from_toml_str::<Foo>(&text).unwrap(), foo());
    assert_eq!(from_toml_slice::<Foo>(text.as_bytes()).unwrap(), foo());

    let mut map: BTreeMap<String, Vec<i64>> = BTreeMap::new();
    map.insert("xs".to_string(), vec![-3, 0, 7]);
    map.insert("ys".to_string(), vec![]);
    let text = to_toml_string(&map).unwrap();
    assert_eq!(from_toml_str::<BTreeMap<String, Vec<i64>>>(&text).unwrap(), map);
}

#[test]
fn msgpack_round_trip() {
    let bytes = to_msgpack_vec(&foo()).unwrap();
    assert_eq!(from_msgpack_slice::<Foo>(&bytes).unwrap(), foo());

    let pair: (String, Vec<u8>, bool) = ("snow".to_string(), vec![1, 2, 3], true);
    let bytes = to_msgpack_vec(&pair).unwrap();
    assert_eq!(from_msgpack_slice::<(String, Vec<u8>, bool)>(&bytes).unwrap(), pair);
}

#[test]
fn round_trip_keeps_unicode_text() {
    let value = Foo { bar: "né \u{1F600} \"q\"\n".to_string(), baz: 0 };
    let json = to_json_string(&value).unwrap();
    assert_eq!(from_json_str::<Foo>(&json).unwrap(), value);
    let toml = to_toml_string(&value).unwrap();
    assert_eq!(from_toml_str::<Foo>(&toml).unwrap(), value);
    let bytes = to_msgpack_vec(&value).unwrap();
    assert_eq!(from_msgpack_slice::<Foo>(&bytes).unwrap(), value);
}

#[test]
fn encoding_twice_gives_the_same_output() {
    assert_eq!(to_json_string(&foo()).unwrap(), to_json_string(&foo()).unwrap());
    assert_eq!(to_json_string_pretty(&foo()).unwrap(), to_json_string_pretty(&foo()).unwrap());
    assert_eq!(to_toml_string(&foo()).unwrap(), to_toml_string(&foo()).unwrap());
    assert_eq!(to_msgpack_vec(&foo()).unwrap(), to_msgpack_vec(&foo()).unwrap());
}

#[test]
fn pretty_and_compact_json_decode_alike() {
    let compact = to_json_string(&foo()).unwrap();
    let pretty = to_json_string_pretty(&foo()).unwrap();
    assert!(!compact.contains('\n'));
    assert!(!compact.contains(' '));
    assert!(pretty.contains('\n'));
    assert!(pretty.contains("  "));
    assert_eq!(
        from_json_str::<Foo>(&compact).unwrap(),
        from_json_str::<Foo>(&pretty).unwrap()
    );
}

#[test]
fn truncated_toml_is_invalid() {
    let e = from_toml_str::<Foo>("bar = ").unwrap_err();
    assert_eq!(*e.kind(), ErrorKind::Invalid);
    assert!(matches!(e.cause(), Cause::TomlDecode(_)));
}

#[test]
fn truncated_json_is_invalid() {
    let e = from_json_str::<Foo>("{ invalid").unwrap_err();
    assert_eq!(*e.kind(), ErrorKind::Invalid);
    assert!(matches!(e.cause(), Cause::Json(_)));
    let e = from_json_slice::<Foo>(b"{ invalid").unwrap_err();
    assert_eq!(*e.kind(), ErrorKind::Invalid);
    assert!(matches!(e.cause(), Cause::Json(_)));
}

#[test]
fn truncated_msgpack_is_invalid() {
    let mut bytes = to_msgpack_vec(&foo()).unwrap();
    bytes.truncate(3);
    let e = from_msgpack_slice::<Foo>(&bytes).unwrap_err();
    assert_eq!(*e.kind(), ErrorKind::Invalid);
    assert!(matches!(e.cause(), Cause::MsgPackDecode(_)));
    let e = from_msgpack_slice::<Foo>(&[]).unwrap_err();
    assert_eq!(*e.kind(), ErrorKind::Invalid);
}

#[test]
fn wrong_shape_is_invalid() {
    let e = from_json_str::<Foo>("{\"bar\":\"aaa\"}").unwrap_err();
    assert_eq!(*e.kind(), ErrorKind::Invalid);
    let e = from_toml_str::<Foo>("bar = 1\nbaz = 2\n").unwrap_err();
    assert_eq!(*e.kind(), ErrorKind::Invalid);
    let e = from_json_str::<Vec<u64>>("[1, -2]").unwrap_err();
    assert_eq!(*e.kind(), ErrorKind::Invalid);
}

#[test]
fn toml_bytes_that_are_not_utf8_are_refused_before_parsing() {
    let e = from_toml_slice::<Foo>(&[0xff, 0xfe]).unwrap_err();
    assert_eq!(*e.kind(), ErrorKind::Invalid);
    assert!(matches!(e.cause(), Cause::Utf8(_)));
    // an overlong encoding and a lone continuation byte are not UTF-8 either
    let e = from_toml_slice::<Foo>(&[b'a', 0xc0, 0x80]).unwrap_err();
    assert!(matches!(e.cause(), Cause::Utf8(_)));
    let e = from_toml_slice::<Foo>(&[0x80]).unwrap_err();
    assert!(matches!(e.cause(), Cause::Utf8(_)));
    // UTF-8 that is not TOML fails in the codec
    let e = from_toml_slice::<Foo>("bar = ".as_bytes()).unwrap_err();
    assert!(matches!(e.cause(), Cause::TomlDecode(_)));
}

#[test]
fn json_bytes_that_are_not_utf8_are_invalid() {
    let e = from_json_slice::<String>(&[b'"', 0xff, b'"']).unwrap_err();
    assert_eq!(*e.kind(), ErrorKind::Invalid);
    assert!(matches!(e.cause(), Cause::Json(_)));
}

#[test]
fn failed_read_is_other() {
    let e = from_json_reader::<Foo>(Err(not_found())).unwrap_err();
    assert_eq!(*e.kind(), ErrorKind::Other);
    match e.into_cause() {
        Cause::Io(f) => assert_eq!(f.kind(), std::io::ErrorKind::NotFound),
        _ => panic!("the cause of a failed read is the I/O failure"),
    }
    let e = from_toml_reader::<Foo>(Err(not_found())).unwrap_err();
    assert_eq!(*e.kind(), ErrorKind::Other);
    assert!(matches!(e.cause(), Cause::Io(_)));
    let e = from_msgpack_reader::<Foo>(Err(not_found())).unwrap_err();
    assert_eq!(*e.kind(), ErrorKind::Other);
    assert!(matches!(e.cause(), Cause::Io(_)));
}

#[test]
fn completed_read_is_parsed() {
    let got: Foo = from_json_reader(Ok(b"{\"bar\":\"aaa\",\"baz\":123}".to_vec())).unwrap();
    assert_eq!(got, foo());
    let got: Foo = from_toml_reader(Ok("bar = \"aaa\"\nbaz = 123\n".to_string())).unwrap();
    assert_eq!(got, foo());
    let got: Foo = from_msgpack_reader(Ok(vec![0x92u8, 0xa3, b'a', b'a', b'a', 0x7b])).unwrap();
    assert_eq!(got, foo());

    let e = from_json_reader::<Foo>(Ok(b"{ invalid".to_vec())).unwrap_err();
    assert_eq!(*e.kind(), ErrorKind::Invalid);
    let e = from_toml_reader::<Foo>(Ok("bar = ".to_string())).unwrap_err();
    assert_eq!(*e.kind(), ErrorKind::Invalid);
    let e = from_msgpack_reader::<Foo>(Ok(vec![0x92u8])).unwrap_err();
    assert_eq!(*e.kind(), ErrorKind::Invalid);
}

#[test]
fn writers_append_the_encoding() {
    let mut out: Vec<u8> = b"# ".to_vec();
    to_json_writer(&foo(), &mut out).unwrap();
    assert_eq!(out, b"# {\"bar\":\"aaa\",\"baz\":123}".to_vec());

    let mut out: Vec<u8> = Vec::new();
    to_json_writer_pretty(&foo(), &mut out).unwrap();
    assert_eq!(out, b"{\n  \"bar\": \"aaa\",\n  \"baz\": 123\n}".to_vec());

    let mut out: Vec<u8> = b"x = 1\n".to_vec();
    to_toml_writer(&foo(), &mut out).unwrap();
    assert_eq!(out, b"x = 1\nbar = \"aaa\"\nbaz = 123\n".to_vec());

    let mut out: Vec<u8> = vec![0xc0];
    to_msgpack_writer(&foo(), &mut out).unwrap();
    assert_eq!(out, vec![0xc0u8, 0x92, 0xa3, b'a', b'a', b'a', 0x7b]);
}

#[test]
fn writers_write_nothing_when_encoding_fails() {
    let mut out: Vec<u8> = b"kept".to_vec();
    let e = to_json_writer(&Unencodable, &mut out).unwrap_err();
    assert_eq!(*e.kind(), ErrorKind::Invalid);
    assert_eq!(out, b"kept".to_vec());
    let e = to_json_writer_pretty(&Unencodable, &mut out).unwrap_err();
    assert_eq!(*e.kind(), ErrorKind::Invalid);
    assert_eq!(out, b"kept".to_vec());
    let e = to_toml_writer(&Unencodable, &mut out).unwrap_err();
    assert_eq!(*e.kind(), ErrorKind::Invalid);
    assert_eq!(out, b"kept".to_vec());
    let e = to_msgpack_writer(&Unencodable, &mut out).unwrap_err();
    assert_eq!(*e.kind(), ErrorKind::Invalid);
    assert_eq!(out, b"kept".to_vec());
}

#[test]
fn unencodable_value_is_invalid() {
    let e = to_json_string(&Unencodable).unwrap_err();
    assert_eq!(*e.kind(), ErrorKind::Invalid);
    assert!(matches!(e.cause(), Cause::Json(_)));
    let e = to_json_string_pretty(&Unencodable).unwrap_err();
    assert!(matches!(e.cause(), Cause::Json(_)));
    let e = to_toml_string(&Unencodable).unwrap_err();
    assert_eq!(*e.kind(), ErrorKind::Invalid);
    assert!(matches!(e.cause(), Cause::TomlEncode(_)));
    let e = to_msgpack_vec(&Unencodable).unwrap_err();
    assert_eq!(*e.kind(), ErrorKind::Invalid);
    assert!(matches!(e.cause(), Cause::MsgPackEncode(_)));
}

#[test]
fn map_key_that_json_cannot_hold_is_invalid() {
    let mut map: BTreeMap<(u8, u8), u8> = BTreeMap::new();
    map.insert((1, 2), 3);
    let e = to_json_string(&map).unwrap_err();
    assert_eq!(*e.kind(), ErrorKind::Invalid);
}

#[test]
fn bare_number_is_not_a_toml_document() {
    let e = to_toml_string(&7u32).unwrap_err();
    assert_eq!(*e.kind(), ErrorKind::Invalid);
    assert!(matches!(e.cause(), Cause::TomlEncode(_)));
}

#[test]
fn empty_input_is_judged_by_the_codec() {
    let e = from_json_str::<Foo>("").unwrap_err();
    assert_eq!(*e.kind(), ErrorKind::Invalid);
    let e = from_json_slice::<Foo>(b"").unwrap_err();
    assert_eq!(*e.kind(), ErrorKind::Invalid);
    // an empty TOML document is a table without keys
    let e = from_toml_str::<Foo>("").unwrap_err();
    assert_eq!(*e.kind(), ErrorKind::Invalid);
    let empty: BTreeMap<String, u8> = from_toml_str("").unwrap();
    assert!(empty.is_empty());
    let empty: BTreeMap<String, u8> = from_toml_slice(b"").unwrap();
    assert!(empty.is_empty());
    let e = from_msgpack_slice::<Foo>(b"").unwrap_err();
    assert_eq!(*e.kind(), ErrorKind::Invalid);
}
