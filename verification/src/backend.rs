//! Trusted declarations of the codec crates' entry points.
//!
//! Each codec crate is an external collaborator: the crate's own logic never
//! re-implements an encoding. Every item here either declares an outside
//! error type to Verus or wraps exactly one outside call. Nothing about the
//! value a codec produces or accepts is assumed: the dispatchers state only
//! how they route calls and tag failures.
use vstd::prelude::*;
use std::io::Read;
use std::io::Write;

verus! {

#[verifier::external_type_specification]
#[verifier::external_body]
pub struct ExJsonError(serde_json::Error);

#[verifier::external_type_specification]
#[verifier::external_body]
pub struct ExYamlError(serde_yaml::Error);

#[verifier::external_type_specification]
#[verifier::external_body]
pub struct ExTomlDeError(toml::de::Error);

#[verifier::external_type_specification]
#[verifier::external_body]
pub struct ExTomlSerError(toml::ser::Error);

#[verifier::external_type_specification]
#[verifier::external_body]
pub struct ExRonSpannedError(ron::error::SpannedError);

#[verifier::external_type_specification]
#[verifier::external_body]
pub struct ExRonError(ron::error::Error);

#[verifier::external_type_specification]
#[verifier::external_body]
pub struct ExXmlError(serde_xml_rs::Error);

#[verifier::external_type_specification]
#[verifier::external_body]
pub struct ExUrlDeError(serde_urlencoded::de::Error);

#[verifier::external_type_specification]
#[verifier::external_body]
pub struct ExUrlSerError(serde_urlencoded::ser::Error);

#[verifier::external_type_specification]
#[verifier::external_body]
pub struct ExIoError(std::io::Error);

/// Relies on serde_json::from_str: parses JSON text into a `T`.
#[verifier::external_body]
pub(crate) fn json_from_str<T: serde::de::DeserializeOwned>(s: &str) -> Result<
    T,
    serde_json::Error,
> {
    serde_json::from_str(s)
}

/// Relies on serde_json::from_slice: parses JSON bytes into a `T`.
#[verifier::external_body]
pub(crate) fn json_from_slice<T: serde::de::DeserializeOwned>(s: &[u8]) -> Result<
    T,
    serde_json::Error,
> {
    serde_json::from_slice(s)
}

/// Relies on serde_json::from_reader: parses JSON from a stream into a `T`.
#[verifier::external_body]
pub(crate) fn json_from_reader<T: serde::de::DeserializeOwned, R: Read>(reader: R) -> Result<
    T,
    serde_json::Error,
> {
    serde_json::from_reader(reader)
}

/// Relies on serde_yaml::from_str: parses YAML text into a `T`.
#[verifier::external_body]
pub(crate) fn yaml_from_str<T: serde::de::DeserializeOwned>(s: &str) -> Result<
    T,
    serde_yaml::Error,
> {
    serde_yaml::from_str(s)
}

/// Relies on serde_yaml::from_slice: parses YAML bytes into a `T`.
#[verifier::external_body]
pub(crate) fn yaml_from_slice<T: serde::de::DeserializeOwned>(s: &[u8]) -> Result<
    T,
    serde_yaml::Error,
> {
    serde_yaml::from_slice(s)
}

/// Relies on serde_yaml::from_reader: parses YAML from a stream into a `T`.
#[verifier::external_body]
pub(crate) fn yaml_from_reader<T: serde::de::DeserializeOwned, R: Read>(reader: R) -> Result<
    T,
    serde_yaml::Error,
> {
    serde_yaml::from_reader(reader)
}

/// Relies on toml::from_str: parses TOML text into a `T`.
#[verifier::external_body]
pub(crate) fn toml_from_str<T: serde::de::DeserializeOwned>(s: &str) -> Result<
    T,
    toml::de::Error,
> {
    toml::from_str(s)
}

/// Relies on toml::from_slice: parses TOML bytes into a `T`.
#[verifier::external_body]
pub(crate) fn toml_from_slice<T: serde::de::DeserializeOwned>(s: &[u8]) -> Result<
    T,
    toml::de::Error,
> {
    toml::from_slice(s)
}

/// Relies on ron::de::from_str: parses RON text into a `T`.
#[verifier::external_body]
pub(crate) fn ron_from_str<T: serde::de::DeserializeOwned>(s: &str) -> Result<
    T,
    ron::error::SpannedError,
> {
    ron::de::from_str(s)
}

/// Relies on ron::de::from_bytes: parses RON bytes into a `T`.
#[verifier::external_body]
pub(crate) fn ron_from_bytes<T: serde::de::DeserializeOwned>(s: &[u8]) -> Result<
    T,
    ron::error::SpannedError,
> {
    ron::de::from_bytes(s)
}

/// Relies on ron::de::from_reader: parses RON from a stream into a `T`.
#[verifier::external_body]
pub(crate) fn ron_from_reader<T: serde::de::DeserializeOwned, R: Read>(reader: R) -> Result<
    T,
    ron::error::SpannedError,
> {
    ron::de::from_reader(reader)
}

/// Relies on serde_xml_rs::from_reader: parses XML from a stream into a `T`.
#[verifier::external_body]
pub(crate) fn xml_from_reader<T: serde::de::DeserializeOwned, R: Read>(reader: R) -> Result<
    T,
    serde_xml_rs::Error,
> {
    serde_xml_rs::from_reader(reader)
}

/// Relies on serde_xml_rs::from_str: parses XML text into a `T`.
#[verifier::external_body]
pub(crate) fn xml_from_str<T: serde::de::DeserializeOwned>(s: &str) -> Result<
    T,
    serde_xml_rs::Error,
> {
    serde_xml_rs::from_str(s)
}

/// Relies on serde_urlencoded::from_str: parses url-encoded text into a `T`.
#[verifier::external_body]
pub(crate) fn url_from_str<T: serde::de::DeserializeOwned>(s: &str) -> Result<
    T,
    serde_urlencoded::de::Error,
> {
    serde_urlencoded::from_str(s)
}

/// Relies on serde_urlencoded::from_bytes: parses url-encoded bytes into a `T`.
#[verifier::external_body]
pub(crate) fn url_from_bytes<T: serde::de::DeserializeOwned>(s: &[u8]) -> Result<
    T,
    serde_urlencoded::de::Error,
> {
    serde_urlencoded::from_bytes(s)
}

/// Relies on serde_urlencoded::from_reader: parses url-encoded data from a
/// stream into a `T`.
#[verifier::external_body]
pub(crate) fn url_from_reader<T: serde::de::DeserializeOwned, R: Read>(reader: R) -> Result<
    T,
    serde_urlencoded::de::Error,
> {
    serde_urlencoded::from_reader(reader)
}

/// Relies on std::io::Read::read_to_end: reads the rest of the stream into
/// a fresh buffer.
#[verifier::external_body]
pub(crate) fn read_to_end<R: Read>(reader: &mut R) -> Result<Vec<u8>, std::io::Error> {
    let mut buf = Vec::new();
    reader.read_to_end(&mut buf)?;
    Ok(buf)
}

/// Relies on serde_json::to_string: serializes a `T` to JSON text.
#[verifier::external_body]
pub(crate) fn json_to_string<T: serde::Serialize>(value: &T) -> Result<String, serde_json::Error> {
    serde_json::to_string(value)
}

/// Relies on serde_json::to_string_pretty: serializes a `T` to pretty JSON text.
#[verifier::external_body]
pub(crate) fn json_to_string_pretty<T: serde::Serialize>(value: &T) -> Result<
    String,
    serde_json::Error,
> {
    serde_json::to_string_pretty(value)
}

/// Relies on serde_json::to_vec: serializes a `T` to JSON bytes.
#[verifier::external_body]
pub(crate) fn json_to_vec<T: serde::Serialize>(value: &T) -> Result<Vec<u8>, serde_json::Error> {
    serde_json::to_vec(value)
}

/// Relies on serde_json::to_vec_pretty: serializes a `T` to pretty JSON bytes.
#[verifier::external_body]
pub(crate) fn json_to_vec_pretty<T: serde::Serialize>(value: &T) -> Result<
    Vec<u8>,
    serde_json::Error,
> {
    serde_json::to_vec_pretty(value)
}

/// Relies on serde_json::to_writer: serializes a `T` as JSON into a writer.
#[verifier::external_body]
pub(crate) fn json_to_writer<W: Write, T: serde::Serialize>(writer: W, value: &T) -> Result<
    (),
    serde_json::Error,
> {
    serde_json::to_writer(writer, value)
}

/// Relies on serde_json::to_writer_pretty: serializes a `T` as pretty JSON
/// into a writer.
#[verifier::external_body]
pub(crate) fn json_to_writer_pretty<W: Write, T: serde::Serialize>(writer: W, value: &T) -> Result<
    (),
    serde_json::Error,
> {
    serde_json::to_writer_pretty(writer, value)
}

/// Relies on serde_yaml::to_string: serializes a `T` to YAML text.
#[verifier::external_body]
pub(crate) fn yaml_to_string<T: serde::Serialize>(value: &T) -> Result<String, serde_yaml::Error> {
    serde_yaml::to_string(value)
}

/// Relies on serde_yaml::to_vec: serializes a `T` to YAML bytes.
#[verifier::external_body]
pub(crate) fn yaml_to_vec<T: serde::Serialize>(value: &T) -> Result<Vec<u8>, serde_yaml::Error> {
    serde_yaml::to_vec(value)
}

/// Relies on serde_yaml::to_writer: serializes a `T` as YAML into a writer.
#[verifier::external_body]
pub(crate) fn yaml_to_writer<W: Write, T: serde::Serialize>(writer: W, value: &T) -> Result<
    (),
    serde_yaml::Error,
> {
    serde_yaml::to_writer(writer, value)
}

/// Relies on toml::to_string: serializes a `T` to TOML text.
#[verifier::external_body]
pub(crate) fn toml_to_string<T: serde::Serialize>(value: &T) -> Result<String, toml::ser::Error> {
    toml::to_string(value)
}

/// Relies on toml::to_string_pretty: serializes a `T` to pretty TOML text.
#[verifier::external_body]
pub(crate) fn toml_to_string_pretty<T: serde::Serialize>(value: &T) -> Result<
    String,
    toml::ser::Error,
> {
    toml::to_string_pretty(value)
}

/// Relies on toml::to_vec: serializes a `T` to TOML bytes.
#[verifier::external_body]
pub(crate) fn toml_to_vec<T: serde::Serialize>(value: &T) -> Result<Vec<u8>, toml::ser::Error> {
    toml::to_vec(value)
}

/// Relies on ron::ser::to_string: serializes a `T` to RON text.
#[verifier::external_body]
pub(crate) fn ron_to_string<T: serde::Serialize>(value: &T) -> Result<String, ron::error::Error> {
    ron::ser::to_string(value)
}

/// Relies on ron::ser::to_string_pretty with the default layout: serializes
/// a `T` to pretty RON text.
#[verifier::external_body]
pub(crate) fn ron_to_string_pretty<T: serde::Serialize>(value: &T) -> Result<
    String,
    ron::error::Error,
> {
    ron::ser::to_string_pretty(value, ron::ser::PrettyConfig::default())
}

/// Relies on serde_xml_rs::to_string: serializes a `T` to XML text.
#[verifier::external_body]
pub(crate) fn xml_to_string<T: serde::Serialize>(value: &T) -> Result<String, serde_xml_rs::Error> {
    serde_xml_rs::to_string(value)
}

/// Relies on serde_xml_rs::to_writer: serializes a `T` as XML into a writer.
#[verifier::external_body]
pub(crate) fn xml_to_writer<W: Write, T: serde::Serialize>(writer: W, value: &T) -> Result<
    (),
    serde_xml_rs::Error,
> {
    serde_xml_rs::to_writer(writer, value)
}

/// Relies on serde_urlencoded::to_string: serializes a `T` to url-encoded text.
#[verifier::external_body]
pub(crate) fn url_to_string<T: serde::Serialize>(value: &T) -> Result<
    String,
    serde_urlencoded::ser::Error,
> {
    serde_urlencoded::to_string(value)
}

/// Relies on String::push: appends one character to the string.
#[verifier::external_body]
pub(crate) fn string_push(s: &mut String, c: char)
    ensures
        final(s)@ == old(s)@.push(c),
{
    s.push(c);
}

/// Relies on std::io::Write::write_all: writes the whole buffer to the writer.
#[verifier::external_body]
pub(crate) fn write_all<W: Write>(writer: &mut W, buf: &[u8]) -> Result<(), std::io::Error> {
    writer.write_all(buf)
}

} // verus!
