use vstd::prelude::*;
use std::io::Read;

use crate::backend;
use crate::error::AnyError;
use crate::error::is_decode_error_for;
use crate::format::Format;
use crate::format::guess_format;
use crate::format::lemma_extension_format_agreement;
use crate::format::spec_format_of_extension;
use crate::format::spec_guess_format;
use crate::format::spec_supported_extensions;
use crate::format::spec_supported_formats;
use crate::format::supported_extensions;
use crate::format::supported_formats;

verus! {

/// Whether `attempts` is a complete probing record: one failed decode
/// attempt per enabled format, in registry order, each carrying the error
/// variant of its own format.
pub open spec fn decode_attempts_complete(attempts: Seq<(Format, AnyError)>) -> bool {
    &&& attempts.len() == spec_supported_formats().len()
    &&& forall|i: int|
        0 <= i < attempts.len() ==> (#[trigger] attempts[i]).0 == spec_supported_formats()[i]
            && is_decode_error_for(attempts[i].1, attempts[i].0)
}

/// Deserialize from a string using the given format.
///
/// On failure the returned error is the codec variant belonging to
/// `format`, with the codec's own error as its cause.
pub fn from_str<T: serde::de::DeserializeOwned>(s: &str, format: Format) -> (r: Result<
    T,
    AnyError,
>)
    ensures
        r matches Err(e) ==> is_decode_error_for(e, format),
{
    match format {
        Format::Yaml => match backend::yaml_from_str(s) {
            Ok(t) => Ok(t),
            Err(e) => Err(AnyError::Yaml(e)),
        },
        Format::Json => match backend::json_from_str(s) {
            Ok(t) => Ok(t),
            Err(e) => Err(AnyError::Json(e)),
        },
        Format::Toml => match backend::toml_from_str(s) {
            Ok(t) => Ok(t),
            Err(e) => Err(AnyError::TomlDeserialize(e)),
        },
        Format::Ron => match backend::ron_from_str(s) {
            Ok(t) => Ok(t),
            Err(e) => Err(AnyError::RonDeserialize(e)),
        },
        Format::Xml => match backend::xml_from_str(s) {
            Ok(t) => Ok(t),
            Err(e) => Err(AnyError::Xml(e)),
        },
        Format::Url => match backend::url_from_str(s) {
            Ok(t) => Ok(t),
            Err(e) => Err(AnyError::UrlDeserialize(e)),
        },
    }
}

/// Deserialize from a byte slice using the given format.
///
/// On failure the returned error is the codec variant belonging to
/// `format`, with the codec's own error as its cause.
pub fn from_slice<T: serde::de::DeserializeOwned>(s: &[u8], format: Format) -> (r: Result<
    T,
    AnyError,
>)
    ensures
        r matches Err(e) ==> is_decode_error_for(e, format),
{
    match format {
        Format::Yaml => match backend::yaml_from_slice(s) {
            Ok(t) => Ok(t),
            Err(e) => Err(AnyError::Yaml(e)),
        },
        Format::Json => match backend::json_from_slice(s) {
            Ok(t) => Ok(t),
            Err(e) => Err(AnyError::Json(e)),
        },
        Format::Toml => match backend::toml_from_slice(s) {
            Ok(t) => Ok(t),
            Err(e) => Err(AnyError::TomlDeserialize(e)),
        },
        Format::Ron => match backend::ron_from_bytes(s) {
            Ok(t) => Ok(t),
            Err(e) => Err(AnyError::RonDeserialize(e)),
        },
        Format::Xml => match backend::xml_from_reader(s) {
            Ok(t) => Ok(t),
            Err(e) => Err(AnyError::Xml(e)),
        },
        Format::Url => match backend::url_from_bytes(s) {
            Ok(t) => Ok(t),
            Err(e) => Err(AnyError::UrlDeserialize(e)),
        },
    }
}

/// Deserialize from a stream using the given format.
///
/// A codec that needs the whole input in memory gets it buffered first;
/// buffering failures surface as `Io` before that codec runs. Any other
/// failure is the codec variant belonging to `format`.
pub fn from_reader<T: serde::de::DeserializeOwned, R: Read>(reader: R, format: Format) -> (r:
    Result<T, AnyError>)
    ensures
        r matches Err(e) ==> is_decode_error_for(e, format) || e is Io,
{
    match format {
        Format::Yaml => match backend::yaml_from_reader(reader) {
            Ok(t) => Ok(t),
            Err(e) => Err(AnyError::Yaml(e)),
        },
        Format::Json => match backend::json_from_reader(reader) {
            Ok(t) => Ok(t),
            Err(e) => Err(AnyError::Json(e)),
        },
        Format::Toml => {
            let mut reader = reader;
            match backend::read_to_end(&mut reader) {
                Ok(buf) => match backend::toml_from_slice(buf.as_slice()) {
                    Ok(t) => Ok(t),
                    Err(e) => Err(AnyError::TomlDeserialize(e)),
                },
                Err(e) => Err(AnyError::Io(e)),
            }
        },
        Format::Ron => match backend::ron_from_reader(reader) {
            Ok(t) => Ok(t),
            Err(e) => Err(AnyError::RonDeserialize(e)),
        },
        Format::Xml => match backend::xml_from_reader(reader) {
            Ok(t) => Ok(t),
            Err(e) => Err(AnyError::Xml(e)),
        },
        Format::Url => match backend::url_from_reader(reader) {
            Ok(t) => Ok(t),
            Err(e) => Err(AnyError::UrlDeserialize(e)),
        },
    }
}

/// Deserialize from a string by probing every enabled format.
///
/// The formats are tried in registry order and the first success wins,
/// whether or not a later format would also parse. If every format fails,
/// the error is `NoSuccessfulParse` carrying one attempt per enabled
/// format, in that same order.
pub fn from_str_any<T: serde::de::DeserializeOwned>(s: &str) -> (r: Result<T, AnyError>)
    ensures
        r matches Err(e) ==> (e matches AnyError::NoSuccessfulParse(attempts)
            && decode_attempts_complete(attempts@)),
{
    let formats = supported_formats();
    let mut errors: Vec<(Format, AnyError)> = Vec::new();
    let mut i: usize = 0;
    while i < formats.len()
        invariant
            formats@ == spec_supported_formats(),
            0 <= i <= formats@.len(),
            errors@.len() == i,
            forall|j: int|
                0 <= j < i ==> (#[trigger] errors@[j]).0 == spec_supported_formats()[j]
                    && is_decode_error_for(errors@[j].1, errors@[j].0),
        decreases formats@.len() - i,
    {
        let format = formats[i];
        match from_str::<T>(s, format) {
            Ok(t) => {
                return Ok(t);
            },
            Err(err) => {
                errors.push((format, err));
            },
        }
        i += 1;
    }
    Err(AnyError::NoSuccessfulParse(errors))
}

/// Deserialize from a byte slice by probing every enabled format.
///
/// The formats are tried in registry order and the first success wins,
/// whether or not a later format would also parse. If every format fails,
/// the error is `NoSuccessfulParse` carrying one attempt per enabled
/// format, in that same order.
pub fn from_slice_any<T: serde::de::DeserializeOwned>(s: &[u8]) -> (r: Result<T, AnyError>)
    ensures
        r matches Err(e) ==> (e matches AnyError::NoSuccessfulParse(attempts)
            && decode_attempts_complete(attempts@)),
{
    let formats = supported_formats();
    let mut errors: Vec<(Format, AnyError)> = Vec::new();
    let mut i: usize = 0;
    while i < formats.len()
        invariant
            formats@ == spec_supported_formats(),
            0 <= i <= formats@.len(),
            errors@.len() == i,
            forall|j: int|
                0 <= j < i ==> (#[trigger] errors@[j]).0 == spec_supported_formats()[j]
                    && is_decode_error_for(errors@[j].1, errors@[j].0),
        decreases formats@.len() - i,
    {
        let format = formats[i];
        match from_slice::<T>(s, format) {
            Ok(t) => {
                return Ok(t);
            },
            Err(err) => {
                errors.push((format, err));
            },
        }
        i += 1;
    }
    Err(AnyError::NoSuccessfulParse(errors))
}

/// The path of the `i`-th candidate file for a stem: the stem, a dot, and
/// the `i`-th supported extension.
pub open spec fn spec_stem_candidate(stem: Seq<char>, i: int) -> Seq<char> {
    stem + "."@ + spec_supported_extensions()[i]
}

/// For a plain stem (nonempty, without '/' or '.'), every candidate path's
/// extension resolves, namely to the format of its supported extension. A
/// probing run over such a stem that fails on every candidate therefore
/// records exactly one attempt per supported extension, in extension order.
pub proof fn lemma_stem_candidate_format(stem: Seq<char>, i: int)
    requires
        stem.len() > 0,
        forall|j: int| 0 <= j < stem.len() ==> stem[j] != '/' && stem[j] != '.',
        0 <= i < spec_supported_extensions().len(),
    ensures
        spec_guess_format(spec_stem_candidate(stem, i)) == spec_format_of_extension(
            spec_supported_extensions()[i],
        ),
        spec_guess_format(spec_stem_candidate(stem, i)) is Some,
{
    lemma_extension_format_agreement(stem, i);
}

/// The decision core of deserializing from a file stem.
///
/// Probing candidate files alternates filesystem work with decisions, so
/// the decisions live here and an I/O shell drives them: ask for the next
/// candidate path, try to read and decode that file, and hand each failure
/// back. Every failure whose candidate extension resolves to a format is
/// recorded, in candidate order; when the candidates are exhausted the
/// collected attempts become a `NoSuccessfulParse` error.
pub struct StemProbe {
    stem: String,
    index: usize,
    attempts: Vec<(Format, AnyError)>,
}

impl StemProbe {
    /// The stem the probe was built from.
    pub closed spec fn stem_chars(&self) -> Seq<char> {
        self.stem@
    }

    /// How many candidates have been disposed of so far.
    pub closed spec fn tried(&self) -> int {
        self.index as int
    }

    /// The failures recorded so far, in candidate order.
    pub closed spec fn attempt_seq(&self) -> Seq<(Format, AnyError)> {
        self.attempts@
    }

    /// Well-formedness: the probe never walks past the extension list.
    pub open spec fn wf(&self) -> bool {
        0 <= self.tried() <= spec_supported_extensions().len()
    }

    /// Start probing for files with the given stem.
    pub fn new(stem: &str) -> (r: StemProbe)
        ensures
            r.wf(),
            r.stem_chars() == stem@,
            r.tried() == 0,
            r.attempt_seq() == Seq::<(Format, AnyError)>::empty(),
    {
        let probe = StemProbe { stem: stem.to_owned(), index: 0, attempts: Vec::new() };
        proof {
            assert(probe.attempt_seq() =~= Seq::<(Format, AnyError)>::empty());
        }
        probe
    }

    /// The path of the next candidate file, or `None` when every supported
    /// extension has been tried.
    pub fn next_candidate(&self) -> (r: Option<String>)
        requires
            self.wf(),
        ensures
            match r {
                Some(p) => self.tried() < spec_supported_extensions().len() && p@
                    == spec_stem_candidate(self.stem_chars(), self.tried()),
                None => self.tried() == spec_supported_extensions().len(),
            },
    {
        let extensions = supported_extensions();
        if self.index < extensions.len() {
            let mut p = self.stem.clone();
            p.append(".");
            p.append(extensions[self.index]);
            Some(p)
        } else {
            None
        }
    }

    /// Record that the current candidate did not work, and move on.
    ///
    /// A missing file and a failed parse both count: the candidate's
    /// failure is recorded whenever its extension resolves to a format.
    pub fn record_failure(&mut self, err: AnyError)
        requires
            old(self).wf(),
            old(self).tried() < spec_supported_extensions().len(),
        ensures
            final(self).wf(),
            final(self).stem_chars() == old(self).stem_chars(),
            final(self).tried() == old(self).tried() + 1,
            final(self).attempt_seq() == match spec_guess_format(
                spec_stem_candidate(old(self).stem_chars(), old(self).tried()),
            ) {
                Some(f) => old(self).attempt_seq().push((f, err)),
                None => old(self).attempt_seq(),
            },
    {
        let extensions = supported_extensions();
        let mut p = self.stem.clone();
        p.append(".");
        p.append(extensions[self.index]);
        match guess_format(p.as_str()) {
            Some(format) => {
                self.attempts.push((format, err));
            },
            None => {},
        }
        self.index += 1;
    }

    /// Give up: every candidate failed, and the collected attempts become
    /// the aggregate error.
    pub fn exhausted(self) -> (r: AnyError)
        ensures
            r matches AnyError::NoSuccessfulParse(attempts) && attempts@ == self.attempt_seq(),
    {
        AnyError::NoSuccessfulParse(self.attempts)
    }
}

} // verus!
