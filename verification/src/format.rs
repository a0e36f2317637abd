use vstd::prelude::*;

verus! {

/// Serialization and deserialization formats known to this crate.
///
/// Every format is enabled in this build; the registry order below
/// (Toml, Json, Yaml, Ron, Xml, Url) is the fixed priority order that
/// probing follows.
#[derive(Clone, Copy, Debug, PartialEq, Eq, Structural)]
pub enum Format {
    /// TOML (Tom's Obvious, Minimal Language)
    Toml,
    /// JSON (JavaScript Object Notation)
    Json,
    /// YAML (YAML Ain't Markup Language)
    Yaml,
    /// RON (Rusty Object Notation)
    Ron,
    /// XML
    Xml,
    /// URL encoding (percent encoding)
    Url,
}

/// Error returned when a string names no known format.
#[derive(Debug)]
pub struct UnknownFormatStringError(pub String);

/// The fixed priority order in which enabled formats are tried.
pub open spec fn spec_supported_formats() -> Seq<Format> {
    seq![Format::Toml, Format::Json, Format::Yaml, Format::Ron, Format::Xml, Format::Url]
}

/// The file extensions of the enabled formats, in format order and,
/// within one format, in that format's own extension order.
pub open spec fn spec_supported_extensions() -> Seq<Seq<char>> {
    seq!["toml"@, "json"@, "yml"@, "yaml"@, "ron"@, "xml"@]
}

/// Whether a format is enabled in this build. All of them are: the
/// enabled set is fixed once and never consulted from outside state.
pub open spec fn spec_format_enabled(f: Format) -> bool {
    true
}

/// The format that a file extension designates, independent of whether
/// that format is enabled. `Url` has no file extension.
pub open spec fn spec_format_of_extension(ext: Seq<char>) -> Option<Format> {
    if ext == "yml"@ || ext == "yaml"@ {
        Some(Format::Yaml)
    } else if ext == "json"@ {
        Some(Format::Json)
    } else if ext == "toml"@ {
        Some(Format::Toml)
    } else if ext == "ron"@ {
        Some(Format::Ron)
    } else if ext == "xml"@ {
        Some(Format::Xml)
    } else {
        None
    }
}

/// ASCII lower-casing of one character; other characters are unchanged.
pub open spec fn spec_lower_char(c: char) -> char {
    match c {
        'A' => 'a',
        'B' => 'b',
        'C' => 'c',
        'D' => 'd',
        'E' => 'e',
        'F' => 'f',
        'G' => 'g',
        'H' => 'h',
        'I' => 'i',
        'J' => 'j',
        'K' => 'k',
        'L' => 'l',
        'M' => 'm',
        'N' => 'n',
        'O' => 'o',
        'P' => 'p',
        'Q' => 'q',
        'R' => 'r',
        'S' => 's',
        'T' => 't',
        'U' => 'u',
        'V' => 'v',
        'W' => 'w',
        'X' => 'x',
        'Y' => 'y',
        'Z' => 'z',
        _ => c,
    }
}

/// ASCII lower-casing of a character sequence.
pub open spec fn spec_lower(s: Seq<char>) -> Seq<char> {
    s.map_values(|c: char| spec_lower_char(c))
}

/// The format that a name designates, compared without regard to ASCII case.
pub open spec fn spec_parse_format(s: Seq<char>) -> Option<Format> {
    if spec_lower(s) == "toml"@ {
        Some(Format::Toml)
    } else if spec_lower(s) == "json"@ {
        Some(Format::Json)
    } else if spec_lower(s) == "yaml"@ {
        Some(Format::Yaml)
    } else if spec_lower(s) == "ron"@ {
        Some(Format::Ron)
    } else if spec_lower(s) == "xml"@ {
        Some(Format::Xml)
    } else if spec_lower(s) == "url"@ {
        Some(Format::Url)
    } else {
        None
    }
}

/// ASCII lower-casing of one character.
fn lower_char(c: char) -> (r: char)
    ensures
        r == spec_lower_char(c),
{
    match c {
        'A' => 'a',
        'B' => 'b',
        'C' => 'c',
        'D' => 'd',
        'E' => 'e',
        'F' => 'f',
        'G' => 'g',
        'H' => 'h',
        'I' => 'i',
        'J' => 'j',
        'K' => 'k',
        'L' => 'l',
        'M' => 'm',
        'N' => 'n',
        'O' => 'o',
        'P' => 'p',
        'Q' => 'q',
        'R' => 'r',
        'S' => 's',
        'T' => 't',
        'U' => 'u',
        'V' => 'v',
        'W' => 'w',
        'X' => 'x',
        'Y' => 'y',
        'Z' => 'z',
        _ => c,
    }
}

/// Whether the ASCII lower-casing of `s` equals `t`.
fn str_eq_lower(s: &str, t: &str) -> (r: bool)
    ensures
        r == (spec_lower(s@) == t@),
{
    let sn = s.unicode_len();
    let tn = t.unicode_len();
    if sn != tn {
        proof {
            assert(spec_lower(s@).len() == s@.len());
        }
        return false;
    }
    let mut i: usize = 0;
    while i < sn
        invariant
            sn == s@.len(),
            sn == t@.len(),
            0 <= i <= sn,
            forall|j: int| 0 <= j < i ==> spec_lower(s@)[j] == t@[j],
        decreases sn - i,
    {
        if lower_char(s.get_char(i)) != t.get_char(i) {
            proof {
                assert(spec_lower(s@)[i as int] == spec_lower_char(s@[i as int]));
            }
            return false;
        }
        i += 1;
    }
    proof {
        assert(spec_lower(s@) =~= t@);
    }
    true
}

/// ASCII lower-casing of a string.
fn lowercase(s: &str) -> (r: String)
    ensures
        r@ == spec_lower(s@),
{
    let n = s.unicode_len();
    let mut out = String::new();
    let mut i: usize = 0;
    while i < n
        invariant
            n == s@.len(),
            0 <= i <= n,
            out@ =~= spec_lower(s@).subrange(0, i as int),
        decreases n - i,
    {
        let c = lower_char(s.get_char(i));
        crate::backend::string_push(&mut out, c);
        proof {
            assert(spec_lower(s@)[i as int] == spec_lower_char(s@[i as int]));
            assert(out@ =~= spec_lower(s@).subrange(0, i as int + 1));
        }
        i += 1;
    }
    proof {
        assert(out@ =~= spec_lower(s@));
    }
    out
}

/// The index of the last occurrence of `c` in `s`, if any.
pub open spec fn last_index_of(s: Seq<char>, c: char) -> Option<int>
    decreases s.len(),
{
    if s.len() == 0 {
        None
    } else if s[s.len() - 1] == c {
        Some(s.len() - 1)
    } else {
        last_index_of(s.drop_last(), c)
    }
}

/// `last_index_of` finds an occurrence with nothing equal after it,
/// and finds none exactly when there is none.
pub proof fn lemma_last_index_of(s: Seq<char>, c: char)
    ensures
        match last_index_of(s, c) {
            Some(i) => 0 <= i < s.len() && s[i] == c && (forall|j: int|
                i < j < s.len() ==> s[j] != c),
            None => forall|j: int| 0 <= j < s.len() ==> s[j] != c,
        },
    decreases s.len(),
{
    if s.len() > 0 && s[s.len() - 1] != c {
        lemma_last_index_of(s.drop_last(), c);
        assert forall|j: int| 0 <= j < s.len() - 1 implies s.drop_last()[j] == s[j] by {}
    }
}

/// An occurrence with nothing equal after it is the last occurrence.
pub proof fn lemma_last_index_of_witness(s: Seq<char>, c: char, i: int)
    requires
        0 <= i < s.len(),
        s[i] == c,
        forall|j: int| i < j < s.len() ==> s[j] != c,
    ensures
        last_index_of(s, c) == Some(i),
{
    lemma_last_index_of(s, c);
}

/// Whether a path ends in something its file name ignores: a separator, or
/// a lone '.' component.
pub open spec fn trailing_strippable(p: Seq<char>) -> bool {
    p.len() > 0 && (p[p.len() - 1] == '/' || (p[p.len() - 1] == '.' && (p.len() == 1 || p[p.len()
        - 2] == '/')))
}

/// The path with trailing separators and trailing '.' components removed,
/// as the standard path rules ignore them.
pub open spec fn strip_trailing_path(p: Seq<char>) -> Seq<char>
    decreases p.len(),
{
    if trailing_strippable(p) {
        strip_trailing_path(p.drop_last())
    } else {
        p
    }
}

/// The file-name component of a '/'-separated path: what follows the last
/// '/' once trailing separators and trailing '.' components are ignored.
/// A path that is empty, is all separators and '.' components, or ends in
/// a '..' component has no file name.
pub open spec fn spec_file_name(path: Seq<char>) -> Option<Seq<char>> {
    let p = strip_trailing_path(path);
    let name = match last_index_of(p, '/') {
        Some(i) => p.subrange(i + 1, p.len() as int),
        None => p,
    };
    if name.len() == 0 {
        None
    } else if name.len() == 2 && name[0] == '.' && name[1] == '.' {
        None
    } else {
        Some(name)
    }
}

/// The extension of a '/'-separated path: what follows the last '.' of the
/// file-name component, provided the path has a file name and that dot is
/// not the file name's first character.
pub open spec fn spec_extension(path: Seq<char>) -> Option<Seq<char>> {
    match spec_file_name(path) {
        Some(name) => match last_index_of(name, '.') {
            Some(i) => if i == 0 {
                None
            } else {
                Some(name.subrange(i + 1, name.len() as int))
            },
            None => None,
        },
        None => None,
    }
}

/// The format guessed from a path's extension.
pub open spec fn spec_guess_format(path: Seq<char>) -> Option<Format> {
    match spec_extension(path) {
        Some(ext) => spec_format_of_extension(ext),
        None => None,
    }
}

/// Character-by-character string equality.
fn str_eq(a: &str, b: &str) -> (r: bool)
    ensures
        r == (a@ == b@),
{
    let an = a.unicode_len();
    let bn = b.unicode_len();
    if an != bn {
        return false;
    }
    let mut i: usize = 0;
    while i < an
        invariant
            an == a@.len(),
            an == b@.len(),
            0 <= i <= an,
            forall|j: int| 0 <= j < i ==> a@[j] == b@[j],
        decreases an - i,
    {
        if a.get_char(i) != b.get_char(i) {
            return false;
        }
        i += 1;
    }
    proof {
        assert(a@ =~= b@);
    }
    true
}

impl Format {
    /// Whether this format is enabled. Every format is enabled in this build.
    pub fn is_supported(&self) -> (r: bool)
        ensures
            r == spec_format_enabled(*self),
    {
        match self {
            Format::Toml => true,
            Format::Json => true,
            Format::Yaml => true,
            Format::Ron => true,
            Format::Xml => true,
            Format::Url => true,
        }
    }

    /// The display name of this format.
    pub open spec fn spec_name(&self) -> Seq<char> {
        match *self {
            Format::Toml => "Toml"@,
            Format::Json => "Json"@,
            Format::Yaml => "Yaml"@,
            Format::Ron => "Ron"@,
            Format::Xml => "Xml"@,
            Format::Url => "Url"@,
        }
    }

    /// A human-readable name for this format.
    pub fn name(&self) -> (r: &'static str)
        ensures
            r@ == self.spec_name(),
    {
        match self {
            Format::Toml => "Toml",
            Format::Json => "Json",
            Format::Yaml => "Yaml",
            Format::Ron => "Ron",
            Format::Xml => "Xml",
            Format::Url => "Url",
        }
    }
}

impl Format {
    /// Parse a format from its name, without regard to ASCII case.
    ///
    /// An unrecognized name is not a format at all, which is a different
    /// condition from a known format that is disabled; the error carries
    /// the lower-cased name.
    pub fn from_name(s: &str) -> (r: Result<Format, UnknownFormatStringError>)
        ensures
            match spec_parse_format(s@) {
                Some(f) => r == Ok::<Format, UnknownFormatStringError>(f),
                None => r matches Err(e) && e.0@ == spec_lower(s@),
            },
    {
        if str_eq_lower(s, "toml") {
            Ok(Format::Toml)
        } else if str_eq_lower(s, "json") {
            Ok(Format::Json)
        } else if str_eq_lower(s, "yaml") {
            Ok(Format::Yaml)
        } else if str_eq_lower(s, "ron") {
            Ok(Format::Ron)
        } else if str_eq_lower(s, "xml") {
            Ok(Format::Xml)
        } else if str_eq_lower(s, "url") {
            Ok(Format::Url)
        } else {
            Err(UnknownFormatStringError(lowercase(s)))
        }
    }
}

/// Parsing a format's display name, in any ASCII case, yields that format
/// back.
pub proof fn lemma_name_parse_round_trip(f: Format)
    ensures
        spec_parse_format(f.spec_name()) == Some(f),
{
    reveal_strlit("Toml");
    reveal_strlit("Json");
    reveal_strlit("Yaml");
    reveal_strlit("Ron");
    reveal_strlit("Xml");
    reveal_strlit("Url");
    reveal_strlit("toml");
    reveal_strlit("json");
    reveal_strlit("yaml");
    reveal_strlit("ron");
    reveal_strlit("xml");
    reveal_strlit("url");
    let lowered = spec_lower(f.spec_name());
    match f {
        Format::Toml => {
            assert(lowered =~= "toml"@);
        },
        Format::Json => {
            assert(lowered =~= "json"@);
            assert("json"@[0] == 'j' && "toml"@[0] == 't');
        },
        Format::Yaml => {
            assert(lowered =~= "yaml"@);
            assert("yaml"@[0] == 'y' && "toml"@[0] == 't' && "json"@[0] == 'j');
        },
        Format::Ron => {
            assert(lowered =~= "ron"@);
            assert("ron"@.len() == 3);
            assert("toml"@.len() == 4 && "json"@.len() == 4 && "yaml"@.len() == 4);
        },
        Format::Xml => {
            assert(lowered =~= "xml"@);
            assert("xml"@.len() == 3);
            assert("toml"@.len() == 4 && "json"@.len() == 4 && "yaml"@.len() == 4);
            assert("xml"@[0] == 'x' && "ron"@[0] == 'r');
        },
        Format::Url => {
            assert(lowered =~= "url"@);
            assert("url"@.len() == 3);
            assert("toml"@.len() == 4 && "json"@.len() == 4 && "yaml"@.len() == 4);
            assert("url"@[0] == 'u' && "ron"@[0] == 'r' && "xml"@[0] == 'x');
        },
    }
}

impl core::str::FromStr for Format {
    type Err = UnknownFormatStringError;

    fn from_str(s: &str) -> Result<Format, UnknownFormatStringError> {
        Format::from_name(s)
    }
}

/// Return the enabled formats, in the fixed priority order that probing uses.
pub fn supported_formats() -> (r: Vec<Format>)
    ensures
        r@ == spec_supported_formats(),
{
    let mut f: Vec<Format> = Vec::new();
    f.push(Format::Toml);
    f.push(Format::Json);
    f.push(Format::Yaml);
    f.push(Format::Ron);
    f.push(Format::Xml);
    f.push(Format::Url);
    proof {
        assert(f@ =~= spec_supported_formats());
    }
    f
}

/// Return the file extensions recognized for the enabled formats,
/// in format order.
pub fn supported_extensions() -> (r: Vec<&'static str>)
    ensures
        r@.len() == spec_supported_extensions().len(),
        forall|i: int|
            0 <= i < r@.len() ==> #[trigger] r@[i]@ == spec_supported_extensions()[i],
{
    let mut e: Vec<&'static str> = Vec::new();
    e.push("toml");
    e.push("json");
    e.push("yml");
    e.push("yaml");
    e.push("ron");
    e.push("xml");
    e
}

/// Attempt to guess the format from a file extension.
///
/// A format may be recognized here even though guessing is independent of
/// the enabled set.
pub fn guess_format_from_extension(ext: &str) -> (r: Option<Format>)
    ensures
        r == spec_format_of_extension(ext@),
{
    if str_eq(ext, "yml") || str_eq(ext, "yaml") {
        Some(Format::Yaml)
    } else if str_eq(ext, "json") {
        Some(Format::Json)
    } else if str_eq(ext, "toml") {
        Some(Format::Toml)
    } else if str_eq(ext, "ron") {
        Some(Format::Ron)
    } else if str_eq(ext, "xml") {
        Some(Format::Xml)
    } else {
        None
    }
}

/// The index of the last occurrence of `c` in `s` at or after `from` and
/// before `to`.
fn rfind_char_in(s: &str, c: char, from: usize, to: usize) -> (r: Option<usize>)
    requires
        from <= to <= s@.len(),
    ensures
        match r {
            Some(i) => from <= i < to && s@[i as int] == c && (forall|j: int|
                i < j < to ==> s@[j] != c),
            None => forall|j: int| from <= j < to ==> s@[j] != c,
        },
{
    let mut i: usize = to;
    while i > from
        invariant
            from <= i <= to <= s@.len(),
            forall|j: int| i <= j < to ==> s@[j] != c,
        decreases i,
    {
        i -= 1;
        if s.get_char(i) == c {
            return Some(i);
        }
    }
    None
}

/// Whether the prefix of `path` that ends at `end` has a strippable tail.
fn has_strippable_tail(path: &str, end: usize) -> (r: bool)
    requires
        end <= path@.len(),
    ensures
        r == trailing_strippable(path@.subrange(0, end as int)),
{
    if end == 0 {
        false
    } else {
        let c = path.get_char(end - 1);
        if c == '/' {
            true
        } else if c == '.' {
            end == 1 || path.get_char(end - 2) == '/'
        } else {
            false
        }
    }
}

/// The extension of a '/'-separated path, as `spec_extension` defines it.
pub fn path_extension<'a>(path: &'a str) -> (r: Option<&'a str>)
    ensures
        match r {
            Some(ext) => spec_extension(path@) == Some(ext@),
            None => spec_extension(path@) is None,
        },
{
    let n = path.unicode_len();
    proof {
        assert(path@.subrange(0, n as int) =~= path@);
    }
    let mut end: usize = n;
    while has_strippable_tail(path, end)
        invariant
            0 <= end <= n,
            n == path@.len(),
            strip_trailing_path(path@) == strip_trailing_path(path@.subrange(0, end as int)),
        decreases end,
    {
        proof {
            assert(path@.subrange(0, end as int).drop_last() =~= path@.subrange(
                0,
                end as int - 1,
            ));
        }
        end -= 1;
    }
    let ghost p = path@.subrange(0, end as int);
    proof {
        assert(strip_trailing_path(path@) == p);
    }
    let name_start: usize = match rfind_char_in(path, '/', 0, end) {
        Some(i) => i + 1,
        None => 0,
    };
    proof {
        lemma_last_index_of(p, '/');
        if name_start > 0 {
            lemma_last_index_of_witness(p, '/', name_start - 1);
        }
    }
    let ghost name = p.subrange(name_start as int, end as int);
    proof {
        if name.len() != 0 && !(name.len() == 2 && name[0] == '.' && name[1] == '.') {
            assert(spec_file_name(path@) == Some(name));
        }
    }
    if end == name_start {
        return None;
    }
    if end - name_start == 2 && path.get_char(name_start) == '.' && path.get_char(name_start + 1)
        == '.' {
        return None;
    }
    match rfind_char_in(path, '.', name_start, end) {
        None => {
            proof {
                lemma_last_index_of(name, '.');
                if last_index_of(name, '.') is Some {
                    let i: int = last_index_of(name, '.')->0;
                    assert(path@[name_start + i] == '.');
                }
            }
            None
        },
        Some(di) => {
            proof {
                assert(name[di - name_start] == '.');
                assert forall|j: int| di - name_start < j < name.len() implies name[j] != '.' by {
                    assert(name[j] == path@[name_start + j]);
                }
                lemma_last_index_of_witness(name, '.', di - name_start);
            }
            if di == name_start {
                None
            } else {
                let ext = path.substring_char(di + 1, end);
                proof {
                    assert(ext@ =~= name.subrange(di - name_start + 1, name.len() as int));
                }
                Some(ext)
            }
        },
    }
}

/// Appending a dot and a nonempty extension to a plain stem (nonempty,
/// without '/' or '.') yields a path whose extension is exactly the
/// appended one.
pub proof fn lemma_extension_of_stem_path(stem: Seq<char>, ext: Seq<char>)
    requires
        stem.len() > 0,
        ext.len() > 0,
        forall|j: int| 0 <= j < stem.len() ==> stem[j] != '/' && stem[j] != '.',
        forall|j: int| 0 <= j < ext.len() ==> ext[j] != '/' && ext[j] != '.',
    ensures
        spec_extension(stem + "."@ + ext) == Some(ext),
{
    reveal_strlit(".");
    let path = stem + "."@ + ext;
    assert(path[stem.len() as int] == '.');
    assert(path[path.len() - 1] == ext[ext.len() - 1]);
    assert(!trailing_strippable(path));
    assert(strip_trailing_path(path) == path);
    assert forall|j: int| 0 <= j < path.len() implies path[j] != '/' by {
        if j > stem.len() {
            assert(path[j] == ext[j - stem.len() - 1]);
        }
    }
    lemma_last_index_of(path, '/');
    assert(last_index_of(path, '/') is None);
    assert(path[0] == stem[0]);
    assert(spec_file_name(path) == Some(path));
    assert forall|j: int| stem.len() < j < path.len() implies path[j] != '.' by {
        assert(path[j] == ext[j - stem.len() - 1]);
    }
    lemma_last_index_of_witness(path, '.', stem.len() as int);
    assert(path.subrange(stem.len() as int + 1, path.len() as int) =~= ext);
}

/// Extension/format agreement: every supported extension designates a
/// format, and guessing from a path built as stem + "." + extension agrees
/// with guessing from the extension alone, for any plain stem (nonempty,
/// without '/' or '.').
pub proof fn lemma_extension_format_agreement(stem: Seq<char>, i: int)
    requires
        stem.len() > 0,
        forall|j: int| 0 <= j < stem.len() ==> stem[j] != '/' && stem[j] != '.',
        0 <= i < spec_supported_extensions().len(),
    ensures
        spec_format_of_extension(spec_supported_extensions()[i]) is Some,
        spec_guess_format(stem + "."@ + spec_supported_extensions()[i])
            == spec_format_of_extension(spec_supported_extensions()[i]),
{
    reveal_strlit("toml");
    reveal_strlit("json");
    reveal_strlit("yml");
    reveal_strlit("yaml");
    reveal_strlit("ron");
    reveal_strlit("xml");
    let ext = spec_supported_extensions()[i];
    assert(ext.len() > 0);
    assert forall|j: int| 0 <= j < ext.len() implies ext[j] != '/' && ext[j] != '.' by {
        if i == 0 {
            assert(ext == "toml"@);
        } else if i == 1 {
            assert(ext == "json"@);
        } else if i == 2 {
            assert(ext == "yml"@);
        } else if i == 3 {
            assert(ext == "yaml"@);
        } else if i == 4 {
            assert(ext == "ron"@);
        } else {
            assert(ext == "xml"@);
        }
    }
    lemma_extension_of_stem_path(stem, ext);
}

/// Attempt to guess the format from a file name.
///
/// A format may be recognized here even though guessing is independent of
/// the enabled set.
pub fn guess_format(path: &str) -> (r: Option<Format>)
    ensures
        r == spec_guess_format(path@),
{
    match path_extension(path) {
        Some(ext) => guess_format_from_extension(ext),
        None => None,
    }
}

} // verus!

