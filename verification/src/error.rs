use vstd::prelude::*;
use crate::format::Format;

verus! {

/// The common error type of every operation in this crate.
///
/// A caller can always tell a format that was never attempted
/// (`UnsupportedFormat`, `UnsupportedFileExtension`) from a format that was
/// attempted and rejected the input (a codec variant, or an entry inside
/// `NoSuccessfulParse`). Codec failures keep the codec's native error as
/// their cause; probing failures carry every attempt in registry order.
#[derive(Debug)]
pub enum AnyError {
    /// Error serializing or deserializing with JSON
    Json(serde_json::Error),
    /// Error serializing or deserializing with YAML
    Yaml(serde_yaml::Error),
    /// Error deserializing with TOML
    TomlDeserialize(toml::de::Error),
    /// Error serializing with TOML
    TomlSerialize(toml::ser::Error),
    /// Error deserializing with RON
    RonDeserialize(ron::error::SpannedError),
    /// Error serializing with RON
    RonSerialize(ron::error::Error),
    /// Error serializing or deserializing with XML
    Xml(serde_xml_rs::Error),
    /// Error deserializing with URL encoding
    UrlDeserialize(serde_urlencoded::de::Error),
    /// Error serializing with URL encoding
    UrlSerialize(serde_urlencoded::ser::Error),
    /// IO error
    Io(std::io::Error),
    /// The format is known but not enabled in this build
    UnsupportedFormat(Format),
    /// The file extension does not designate a format, so a write target
    /// cannot be resolved
    UnsupportedFileExtension(String),
    /// Every enabled format was tried and none parsed the input; the list
    /// holds one (format, error) attempt per enabled format, in registry
    /// order
    NoSuccessfulParse(Vec<(Format, AnyError)>),
}

/// Whether `e` is the error that a failed decode with format `f` produces:
/// the codec variant belonging to `f`, carrying the codec's cause.
pub open spec fn is_decode_error_for(e: AnyError, f: Format) -> bool {
    match f {
        Format::Toml => e is TomlDeserialize,
        Format::Json => e is Json,
        Format::Yaml => e is Yaml,
        Format::Ron => e is RonDeserialize,
        Format::Xml => e is Xml,
        Format::Url => e is UrlDeserialize,
    }
}

/// Whether `e` is the error that a failed encode with format `f` produces:
/// the codec variant belonging to `f`, carrying the codec's cause.
pub open spec fn is_encode_error_for(e: AnyError, f: Format) -> bool {
    match f {
        Format::Toml => e is TomlSerialize,
        Format::Json => e is Json,
        Format::Yaml => e is Yaml,
        Format::Ron => e is RonSerialize,
        Format::Xml => e is Xml,
        Format::Url => e is UrlSerialize,
    }
}

} // verus!
