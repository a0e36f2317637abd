use vstd::prelude::*;
use std::io::Write;

use crate::backend;
use crate::error::AnyError;
use crate::error::is_encode_error_for;
use crate::format::Format;
use crate::format::guess_format;
use crate::format::path_extension;
use crate::format::spec_extension;
use crate::format::spec_guess_format;

verus! {

/// Serialize to a `String` using the given format.
///
/// On failure the returned error is the codec variant belonging to
/// `format`, with the codec's own error as its cause.
pub fn to_string<T: serde::Serialize>(value: &T, format: Format) -> (r: Result<String, AnyError>)
    ensures
        r matches Err(e) ==> is_encode_error_for(e, format),
{
    match format {
        Format::Yaml => match backend::yaml_to_string(value) {
            Ok(s) => Ok(s),
            Err(e) => Err(AnyError::Yaml(e)),
        },
        Format::Json => match backend::json_to_string(value) {
            Ok(s) => Ok(s),
            Err(e) => Err(AnyError::Json(e)),
        },
        Format::Toml => match backend::toml_to_string(value) {
            Ok(s) => Ok(s),
            Err(e) => Err(AnyError::TomlSerialize(e)),
        },
        Format::Ron => match backend::ron_to_string(value) {
            Ok(s) => Ok(s),
            Err(e) => Err(AnyError::RonSerialize(e)),
        },
        Format::Xml => match backend::xml_to_string(value) {
            Ok(s) => Ok(s),
            Err(e) => Err(AnyError::Xml(e)),
        },
        Format::Url => match backend::url_to_string(value) {
            Ok(s) => Ok(s),
            Err(e) => Err(AnyError::UrlSerialize(e)),
        },
    }
}

/// Serialize to a pretty-printed `String` using the given format.
///
/// A codec without a pretty-printing capability falls back to its standard
/// encoding; that is not an error. On failure the returned error is the
/// codec variant belonging to `format`.
pub fn to_string_pretty<T: serde::Serialize>(value: &T, format: Format) -> (r: Result<
    String,
    AnyError,
>)
    ensures
        r matches Err(e) ==> is_encode_error_for(e, format),
{
    match format {
        Format::Yaml => match backend::yaml_to_string(value) {
            Ok(s) => Ok(s),
            Err(e) => Err(AnyError::Yaml(e)),
        },
        Format::Json => match backend::json_to_string_pretty(value) {
            Ok(s) => Ok(s),
            Err(e) => Err(AnyError::Json(e)),
        },
        Format::Toml => match backend::toml_to_string_pretty(value) {
            Ok(s) => Ok(s),
            Err(e) => Err(AnyError::TomlSerialize(e)),
        },
        Format::Ron => match backend::ron_to_string_pretty(value) {
            Ok(s) => Ok(s),
            Err(e) => Err(AnyError::RonSerialize(e)),
        },
        Format::Xml => match backend::xml_to_string(value) {
            Ok(s) => Ok(s),
            Err(e) => Err(AnyError::Xml(e)),
        },
        Format::Url => match backend::url_to_string(value) {
            Ok(s) => Ok(s),
            Err(e) => Err(AnyError::UrlSerialize(e)),
        },
    }
}

/// Serialize to a byte vector using the given format.
///
/// On failure the returned error is the codec variant belonging to
/// `format`, with the codec's own error as its cause.
pub fn to_vec<T: serde::Serialize>(value: &T, format: Format) -> (r: Result<Vec<u8>, AnyError>)
    ensures
        r matches Err(e) ==> is_encode_error_for(e, format),
{
    match format {
        Format::Yaml => match backend::yaml_to_vec(value) {
            Ok(v) => Ok(v),
            Err(e) => Err(AnyError::Yaml(e)),
        },
        Format::Json => match backend::json_to_vec(value) {
            Ok(v) => Ok(v),
            Err(e) => Err(AnyError::Json(e)),
        },
        Format::Toml => match backend::toml_to_vec(value) {
            Ok(v) => Ok(v),
            Err(e) => Err(AnyError::TomlSerialize(e)),
        },
        Format::Ron => match backend::ron_to_string(value) {
            Ok(s) => Ok(string_into_bytes(s)),
            Err(e) => Err(AnyError::RonSerialize(e)),
        },
        Format::Xml => match backend::xml_to_string(value) {
            Ok(s) => Ok(string_into_bytes(s)),
            Err(e) => Err(AnyError::Xml(e)),
        },
        Format::Url => match backend::url_to_string(value) {
            Ok(s) => Ok(string_into_bytes(s)),
            Err(e) => Err(AnyError::UrlSerialize(e)),
        },
    }
}

/// Serialize to a pretty-printed byte vector using the given format.
///
/// A codec without a pretty-printing capability falls back to its standard
/// encoding; that is not an error. On failure the returned error is the
/// codec variant belonging to `format`.
pub fn to_vec_pretty<T: serde::Serialize>(value: &T, format: Format) -> (r: Result<
    Vec<u8>,
    AnyError,
>)
    ensures
        r matches Err(e) ==> is_encode_error_for(e, format),
{
    match format {
        Format::Yaml => match backend::yaml_to_vec(value) {
            Ok(v) => Ok(v),
            Err(e) => Err(AnyError::Yaml(e)),
        },
        Format::Json => match backend::json_to_vec_pretty(value) {
            Ok(v) => Ok(v),
            Err(e) => Err(AnyError::Json(e)),
        },
        Format::Toml => match backend::toml_to_string_pretty(value) {
            Ok(s) => Ok(string_into_bytes(s)),
            Err(e) => Err(AnyError::TomlSerialize(e)),
        },
        Format::Ron => match backend::ron_to_string_pretty(value) {
            Ok(s) => Ok(string_into_bytes(s)),
            Err(e) => Err(AnyError::RonSerialize(e)),
        },
        Format::Xml => match backend::xml_to_string(value) {
            Ok(s) => Ok(string_into_bytes(s)),
            Err(e) => Err(AnyError::Xml(e)),
        },
        Format::Url => match backend::url_to_string(value) {
            Ok(s) => Ok(string_into_bytes(s)),
            Err(e) => Err(AnyError::UrlSerialize(e)),
        },
    }
}

/// Relies on String::into_bytes: the UTF-8 bytes of the string, unchanged.
#[verifier::external_body]
fn string_into_bytes(s: String) -> (r: Vec<u8>)
    ensures
        r@ == vstd::utf8::encode_utf8(s@),
{
    s.into_bytes()
}

/// Serialize into a writer using the given format.
///
/// A codec that only encodes in memory has its full output produced first
/// and then written whole, so a serialization failure writes nothing.
/// Write failures surface as `Io`; any other failure is the codec variant
/// belonging to `format`.
pub fn to_writer<W: Write, T: serde::Serialize>(writer: W, value: &T, format: Format) -> (r:
    Result<(), AnyError>)
    ensures
        r matches Err(e) ==> is_encode_error_for(e, format) || e is Io,
{
    match format {
        Format::Yaml => match backend::yaml_to_writer(writer, value) {
            Ok(()) => Ok(()),
            Err(e) => Err(AnyError::Yaml(e)),
        },
        Format::Json => match backend::json_to_writer(writer, value) {
            Ok(()) => Ok(()),
            Err(e) => Err(AnyError::Json(e)),
        },
        Format::Toml => match backend::toml_to_vec(value) {
            Ok(buf) => {
                let mut writer = writer;
                match backend::write_all(&mut writer, buf.as_slice()) {
                    Ok(()) => Ok(()),
                    Err(e) => Err(AnyError::Io(e)),
                }
            },
            Err(e) => Err(AnyError::TomlSerialize(e)),
        },
        Format::Ron => match backend::ron_to_string(value) {
            Ok(s) => {
                let mut writer = writer;
                match backend::write_all(&mut writer, s.as_str().as_bytes()) {
                    Ok(()) => Ok(()),
                    Err(e) => Err(AnyError::Io(e)),
                }
            },
            Err(e) => Err(AnyError::RonSerialize(e)),
        },
        Format::Xml => match backend::xml_to_writer(writer, value) {
            Ok(()) => Ok(()),
            Err(e) => Err(AnyError::Xml(e)),
        },
        Format::Url => match backend::url_to_string(value) {
            Ok(s) => {
                let mut writer = writer;
                match backend::write_all(&mut writer, s.as_str().as_bytes()) {
                    Ok(()) => Ok(()),
                    Err(e) => Err(AnyError::Io(e)),
                }
            },
            Err(e) => Err(AnyError::UrlSerialize(e)),
        },
    }
}

/// Serialize into a writer with pretty printing.
///
/// A codec without a pretty-printing capability falls back to its standard
/// encoding; that is not an error. In-memory encodings are written whole,
/// so a serialization failure writes nothing. Write failures surface as
/// `Io`; any other failure is the codec variant belonging to `format`.
pub fn to_writer_pretty<W: Write, T: serde::Serialize>(writer: W, value: &T, format: Format) -> (r:
    Result<(), AnyError>)
    ensures
        r matches Err(e) ==> is_encode_error_for(e, format) || e is Io,
{
    match format {
        Format::Yaml => match backend::yaml_to_writer(writer, value) {
            Ok(()) => Ok(()),
            Err(e) => Err(AnyError::Yaml(e)),
        },
        Format::Json => match backend::json_to_writer_pretty(writer, value) {
            Ok(()) => Ok(()),
            Err(e) => Err(AnyError::Json(e)),
        },
        Format::Toml => match backend::toml_to_string_pretty(value) {
            Ok(s) => {
                let mut writer = writer;
                match backend::write_all(&mut writer, s.as_str().as_bytes()) {
                    Ok(()) => Ok(()),
                    Err(e) => Err(AnyError::Io(e)),
                }
            },
            Err(e) => Err(AnyError::TomlSerialize(e)),
        },
        Format::Ron => match backend::ron_to_string_pretty(value) {
            Ok(s) => {
                let mut writer = writer;
                match backend::write_all(&mut writer, s.as_str().as_bytes()) {
                    Ok(()) => Ok(()),
                    Err(e) => Err(AnyError::Io(e)),
                }
            },
            Err(e) => Err(AnyError::RonSerialize(e)),
        },
        Format::Xml => match backend::xml_to_writer(writer, value) {
            Ok(()) => Ok(()),
            Err(e) => Err(AnyError::Xml(e)),
        },
        Format::Url => match backend::url_to_string(value) {
            Ok(s) => {
                let mut writer = writer;
                match backend::write_all(&mut writer, s.as_str().as_bytes()) {
                    Ok(()) => Ok(()),
                    Err(e) => Err(AnyError::Io(e)),
                }
            },
            Err(e) => Err(AnyError::UrlSerialize(e)),
        },
    }
}

/// Resolve the format that a write to `path` must use.
///
/// A write needs exactly one definite target format, so there is no probing
/// fallback: a path whose extension designates no format is rejected with
/// `UnsupportedFileExtension` carrying that extension, or the empty string
/// when the path has none. Nothing else is touched on rejection.
pub fn resolve_write_format(path: &str) -> (r: Result<Format, AnyError>)
    ensures
        match spec_guess_format(path@) {
            Some(f) => r == Ok::<Format, AnyError>(f),
            None => r matches Err(e) && (e matches AnyError::UnsupportedFileExtension(ext)
                && ext@ == match spec_extension(path@) {
                    Some(x) => x,
                    None => Seq::<char>::empty(),
                }),
        },
{
    match guess_format(path) {
        Some(format) => Ok(format),
        None => {
            let ext: String = match path_extension(path) {
                Some(e) => e.to_owned(),
                None => String::new(),
            };
            Err(AnyError::UnsupportedFileExtension(ext))
        },
    }
}

} // verus!
