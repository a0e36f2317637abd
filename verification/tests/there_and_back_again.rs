use std::fmt;
use std::io::Cursor;

use serde::de::IgnoredAny;
use serde::de::MapAccess;
use serde::de::SeqAccess;
use serde::de::Visitor;
use serde::ser::SerializeStruct;

use serde_any::AnyError;
use serde_any::Format;
use serde_any::from_reader;
use serde_any::from_slice;
use serde_any::from_slice_any;
use serde_any::from_str;
use serde_any::to_string;
use serde_any::to_string_pretty;
use serde_any::to_vec;
use serde_any::to_vec_pretty;
use serde_any::to_writer;
use serde_any::to_writer_pretty;

#[derive(PartialEq, Eq, Debug)]
pub struct Hobbit {
    pub name: String,
    pub age: u32,
    pub has_ring: bool,
}


struct FieldName(String);

struct FieldNameVisitor;

impl<'de> Visitor<'de> for FieldNameVisitor {
    type Value = FieldName;

    fn expecting(&self, f: &mut fmt::Formatter) -> fmt::Result {
        f.write_str("a field name")
    }

    fn visit_str<E: serde::de::Error>(self, v: &str) -> Result<FieldName, E> {
        Ok(FieldName(v.to_string()))
    }
}

impl<'de> serde::Deserialize<'de> for FieldName {
    fn deserialize<D: serde::Deserializer<'de>>(deserializer: D) -> Result<FieldName, D::Error> {
        deserializer.deserialize_identifier(FieldNameVisitor)
    }
}

struct HobbitVisitor;

impl<'de> Visitor<'de> for HobbitVisitor {
    type Value = Hobbit;

    fn expecting(&self, f: &mut fmt::Formatter) -> fmt::Result {
        f.write_str("struct Hobbit")
    }

    fn visit_map<A: MapAccess<'de>>(self, mut map: A) -> Result<Hobbit, A::Error> {
        let mut name: Option<String> = None;
        let mut age: Option<u32> = None;
        let mut has_ring: Option<bool> = None;
        while let Some(FieldName(key)) = map.next_key::<FieldName>()? {
            match key.as_str() {
                "name" => name = Some(map.next_value()?),
                "age" => age = Some(map.next_value()?),
                "has_ring" => has_ring = Some(map.next_value()?),
                _ => {
                    let _ignored: IgnoredAny = map.next_value()?;
                },
            }
        }
        let name = name.ok_or_else(|| serde::de::Error::missing_field("name"))?;
        let age = age.ok_or_else(|| serde::de::Error::missing_field("age"))?;
        let has_ring = has_ring.ok_or_else(|| serde::de::Error::missing_field("has_ring"))?;
        Ok(Hobbit { name, age, has_ring })
    }

    fn visit_seq<A: SeqAccess<'de>>(self, mut seq: A) -> Result<Hobbit, A::Error> {
        let name = seq
            .next_element()?
            .ok_or_else(|| serde::de::Error::invalid_length(0, &self))?;
        let age = seq
            .next_element()?
            .ok_or_else(|| serde::de::Error::invalid_length(1, &self))?;
        let has_ring = seq
            .next_element()?
            .ok_or_else(|| serde::de::Error::invalid_length(2, &self))?;
        Ok(Hobbit { name, age, has_ring })
    }
}

impl<'de> serde::Deserialize<'de> for Hobbit {
    fn deserialize<D: serde::Deserializer<'de>>(deserializer: D) -> Result<Hobbit, D::Error> {
        deserializer.deserialize_struct("Hobbit", &["name", "age", "has_ring"], HobbitVisitor)
    }
}

impl serde::Serialize for Hobbit {
    fn serialize<S: serde::Serializer>(&self, serializer: S) -> Result<S::Ok, S::Error> {
        let mut state = serializer.serialize_struct("Hobbit", 3)?;
        state.serialize_field("name", &self.name)?;
        state.serialize_field("age", &self.age)?;
        state.serialize_field("has_ring", &self.has_ring)?;
        state.end()
    }
}

pub fn young_bilbo() -> Hobbit {
    Hobbit { name: "Bilbo Baggins".to_string(), age: 50, has_ring: false }
}

pub fn old_bilbo() -> Hobbit {
    Hobbit { name: "Bilbo Baggins".to_string(), age: 111, has_ring: true }
}

pub fn all_formats() -> Vec<Format> {
    vec![
        Format::Json,
        Format::Toml,
        Format::Yaml,
        Format::Ron,
        Format::Xml,
        Format::Url,
    ]
}

#[test]
fn to_vec_and_back_and_to_vec_again() {
    let bilbo = young_bilbo();

    for format in all_formats() {
        assert!(format.is_supported());

        let bilbo_the_serialized = to_vec(&bilbo, format).unwrap();
        let bilbo_the_deserialized: Hobbit = from_slice(&bilbo_the_serialized, format).unwrap();
        assert_eq!(bilbo_the_deserialized, bilbo);
        let bilbo_the_serialized_again = to_vec(&bilbo_the_deserialized, format).unwrap();
        assert_eq!(bilbo_the_serialized_again, bilbo_the_serialized);
    }
}

#[test]
fn to_string_and_back_and_to_string_again() {
    let bilbo = old_bilbo();

    for format in all_formats() {
        assert!(format.is_supported());

        let bilbo_the_serialized = to_string(&bilbo, format).unwrap();
        let bilbo_the_deserialized: Hobbit = from_str(&bilbo_the_serialized, format).unwrap();
        assert_eq!(bilbo_the_deserialized, bilbo);
        let bilbo_the_serialized_again = to_string(&bilbo_the_deserialized, format).unwrap();
        assert_eq!(bilbo_the_serialized_again, bilbo_the_serialized);
    }
}

#[test]
fn to_cursor_and_back_again() {
    let bilbo = old_bilbo();

    for format in all_formats() {
        assert!(format.is_supported());

        let mut v: Vec<u8> = Vec::new();
        to_writer(Cursor::new(&mut v), &bilbo, format).unwrap();

        let bilbo_the_deserialized_from_reader: Hobbit =
            from_reader(Cursor::new(&mut v), format).unwrap();
        assert_eq!(bilbo_the_deserialized_from_reader, bilbo);

        let bilbo_the_deserialized_from_slice: Hobbit = from_slice(&v, format).unwrap();
        assert_eq!(bilbo_the_deserialized_from_slice, bilbo);

        let bilbo_the_deserialized_from_slice_any: Hobbit = from_slice_any(&v).unwrap();
        assert_eq!(bilbo_the_deserialized_from_slice_any, bilbo);
    }
}

#[test]
fn to_vec_and_back_and_to_vec_again_pretty() {
    let bilbo = young_bilbo();

    for format in all_formats() {
        assert!(format.is_supported());

        let bilbo_the_serialized = to_vec_pretty(&bilbo, format).unwrap();
        let bilbo_the_deserialized: Hobbit = from_slice(&bilbo_the_serialized, format).unwrap();
        assert_eq!(bilbo_the_deserialized, bilbo);
        let bilbo_the_serialized_again = to_vec_pretty(&bilbo_the_deserialized, format).unwrap();
        assert_eq!(bilbo_the_serialized_again, bilbo_the_serialized);
    }
}

#[test]
fn to_string_and_back_and_to_string_again_pretty() {
    let bilbo = old_bilbo();

    for format in all_formats() {
        assert!(format.is_supported());

        let bilbo_the_serialized = to_string_pretty(&bilbo, format).unwrap();
        let bilbo_the_deserialized: Hobbit = from_str(&bilbo_the_serialized, format).unwrap();
        assert_eq!(bilbo_the_deserialized, bilbo);
        let bilbo_the_serialized_again = to_string_pretty(&bilbo_the_deserialized, format).unwrap();
        assert_eq!(bilbo_the_serialized_again, bilbo_the_serialized);
    }
}

#[test]
fn to_cursor_and_back_again_pretty() {
    let bilbo = old_bilbo();

    for format in all_formats() {
        assert!(format.is_supported());

        let mut v: Vec<u8> = Vec::new();
        to_writer_pretty(Cursor::new(&mut v), &bilbo, format).unwrap();

        let bilbo_the_deserialized_from_reader: Hobbit =
            from_reader(Cursor::new(&mut v), format).unwrap();
        assert_eq!(bilbo_the_deserialized_from_reader, bilbo);

        let bilbo_the_deserialized_from_slice: Hobbit = from_slice(&v, format).unwrap();
        assert_eq!(bilbo_the_deserialized_from_slice, bilbo);

        let bilbo_the_deserialized_from_slice_any: Hobbit = from_slice_any(&v).unwrap();
        assert_eq!(bilbo_the_deserialized_from_slice_any, bilbo);
    }
}

#[test]
fn exact_toml_encoding() {
    let bilbo = young_bilbo();
    let encoded = to_string(&bilbo, Format::Toml).unwrap();
    assert_eq!(encoded, "name = \"Bilbo Baggins\"\nage = 50\nhas_ring = false\n");
}

#[test]
fn exact_json_encoding() {
    let bilbo = young_bilbo();
    let encoded = to_string(&bilbo, Format::Json).unwrap();
    assert_eq!(
        encoded,
        "{\"name\":\"Bilbo Baggins\",\"age\":50,\"has_ring\":false}"
    );
}

#[test]
fn encode_error_variants() {
    // TOML has no representation for a bare absent value.
    let absent: Option<u32> = None;
    assert!(matches!(
        to_string(&absent, Format::Toml),
        Err(AnyError::TomlSerialize(_))
    ));

    // The url codec cannot encode a nested sequence value.
    let nested: Vec<Vec<u32>> = vec![vec![1, 2]];
    assert!(matches!(
        to_string(&nested, Format::Url),
        Err(AnyError::UrlSerialize(_))
    ));
}
