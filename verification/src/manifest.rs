//! Reading the required metadata out of a package manifest.
//!
//! The manifest is a TOML document. Parsing and key lookup are done by the
//! `toml` crate behind a small set of trusted items; everything the reader
//! decides — which fields are required, which error names which missing
//! field, and how the binary name falls back to the package name — is
//! verified against the names those items introduce.

use vstd::prelude::*;

use crate::error::Error;
use crate::error::SpecError;

verus! {

/// A parsed TOML document, carried opaquely between the trusted items below.
#[verifier::external_type_specification]
#[verifier::external_body]
pub struct ExTomlValue(toml::Value);

/// Whether a text is a well-formed TOML document, i.e. whether parsing it
/// succeeds.
pub uninterp spec fn toml_parses(s: Seq<char>) -> bool;

/// The string-valued fields of the TOML document written in a text, keyed by
/// top-level table name and key name: the pair `(t, k)` maps to `v` exactly
/// when the document's top-level entry `t` is a table whose entry `k` holds
/// the string `v`.
pub uninterp spec fn toml_str_fields(s: Seq<char>) -> Map<(Seq<char>, Seq<char>), Seq<char>>;

/// The authors named in the TOML document written in a text: the longest
/// prefix of the `package.authors` array consisting of strings, or the empty
/// sequence if that array is absent, not an array, or starts with a
/// non-string.
pub uninterp spec fn toml_author_list(s: Seq<char>) -> Seq<Seq<char>>;

/// What a parsed document holds: same as [`toml_str_fields`] of the text it
/// was parsed from.
pub uninterp spec fn doc_str_fields(d: toml::Value) -> Map<(Seq<char>, Seq<char>), Seq<char>>;

/// What a parsed document holds: same as [`toml_author_list`] of the text it
/// was parsed from.
pub uninterp spec fn doc_author_list(d: toml::Value) -> Seq<Seq<char>>;

/// Relies on `<toml::Value as FromStr>::from_str`: parsing succeeds exactly
/// when the text is a well-formed TOML document, and the parsed value is a
/// function of the text alone. On failure the parser's message is returned.
#[verifier::external_body]
fn parse_toml(content: &str) -> (r: Result<toml::Value, String>)
    ensures
        r matches Ok(d) ==> toml_parses(content@) && doc_str_fields(d) == toml_str_fields(
            content@,
        ) && doc_author_list(d) == toml_author_list(content@),
        r is Err ==> !toml_parses(content@),
{
    content.parse::<toml::Value>().map_err(|e| e.to_string())
}

/// Relies on `toml::Value::get`, `toml::Value::as_table`, `toml::map::Map::get`
/// and `toml::Value::as_str`: looks up the string under the named key of the
/// named top-level table, returning `None` when the table or key is absent or
/// either has the wrong type.
#[verifier::external_body]
fn get_table_str(doc: &toml::Value, table: &str, key: &str) -> (r: Option<String>)
    ensures
        r matches Some(v) ==> doc_str_fields(*doc).dom().contains((table@, key@)) && v@
            == doc_str_fields(*doc)[(table@, key@)],
        r is None ==> !doc_str_fields(*doc).dom().contains((table@, key@)),
{
    doc.get(table).and_then(|t| t.as_table()).and_then(|t| t.get(key)).and_then(|v| v.as_str()).map(
        |s| s.to_string(),
    )
}

/// Relies on `toml::Value::get`, `toml::Value::as_table`, `toml::map::Map::get`,
/// `toml::Value::as_array` and `toml::Value::as_str`: the first entry of the
/// `package.authors` array, if it is a string; `None` when the array is
/// absent, not an array, empty, or starts with a non-string.
#[verifier::external_body]
fn get_first_author(doc: &toml::Value) -> (r: Option<String>)
    ensures
        r matches Some(a) ==> doc_author_list(*doc).len() > 0 && a@ == doc_author_list(*doc)[0],
        r is None ==> doc_author_list(*doc).len() == 0,
{
    doc.get("package").and_then(|p| p.as_table()).and_then(|t| t.get("authors")).and_then(
        |a| a.as_array(),
    ).and_then(|a| a.get(0)).and_then(|f| f.as_str()).map(|s| s.to_string())
}

/// The string field of the document in `s` under the top-level table `table`
/// and key `key`, if any.
pub open spec fn spec_doc_field(s: Seq<char>, table: Seq<char>, key: Seq<char>) -> Option<
    Seq<char>,
> {
    if toml_str_fields(s).dom().contains((table, key)) {
        Some(toml_str_fields(s)[(table, key)])
    } else {
        None
    }
}

/// A required string field of the `package` table.
pub open spec fn spec_pkg_field(s: Seq<char>, key: Seq<char>) -> Option<Seq<char>> {
    spec_doc_field(s, "package"@, key)
}

/// The optional `bin.name` override.
pub open spec fn spec_bin_field(s: Seq<char>) -> Option<Seq<char>> {
    spec_doc_field(s, "bin"@, "name"@)
}

/// Whether every field the reader requires is present in the document:
/// `package.version`, `package.name` and `package.description` as strings,
/// and a first author in `package.authors`.
pub open spec fn spec_required_fields_ok(s: Seq<char>) -> bool {
    &&& spec_pkg_field(s, "version"@) is Some
    &&& spec_pkg_field(s, "name"@) is Some
    &&& spec_pkg_field(s, "description"@) is Some
    &&& toml_author_list(s).len() > 0
}

/// The mathematical value of a [`Manifest`].
pub struct ManifestV {
    pub version: Seq<char>,
    pub name: Seq<char>,
    pub description: Seq<char>,
    pub author: Seq<char>,
    pub bin_name: Seq<char>,
}

/// The metadata the pipeline needs, extracted once from the package manifest.
#[derive(Debug, Clone, PartialEq, Eq)]
pub struct Manifest {
    /// The value of `package.version`.
    pub version: String,
    /// The value of `package.name`.
    pub name: String,
    /// The value of `package.description`.
    pub description: String,
    /// The first entry of `package.authors`.
    pub author: String,
    /// The value of `bin.name`, or `package.name` where that override is
    /// absent.
    pub bin_name: String,
}

impl View for Manifest {
    type V = ManifestV;

    open spec fn view(&self) -> ManifestV {
        ManifestV {
            version: self.version@,
            name: self.name@,
            description: self.description@,
            author: self.author@,
            bin_name: self.bin_name@,
        }
    }
}

/// The manifest a well-formed document with all required fields yields.
pub open spec fn spec_manifest_of(s: Seq<char>) -> ManifestV
    recommends
        spec_required_fields_ok(s),
{
    ManifestV {
        version: spec_pkg_field(s, "version"@)->Some_0,
        name: spec_pkg_field(s, "name"@)->Some_0,
        description: spec_pkg_field(s, "description"@)->Some_0,
        author: toml_author_list(s)[0],
        bin_name: match spec_bin_field(s) {
            Some(b) => b,
            None => spec_pkg_field(s, "name"@)->Some_0,
        },
    }
}

/// Reads the pipeline's metadata out of the text of a package manifest.
///
/// Fails with `ParseFailure` when the text is not well-formed TOML, and with
/// `Manifest(field)` when a required field is missing, naming the first
/// absent one of `version`, `name`, `description`, `authors` — in that
/// order, so no later lookup masks an earlier one. The `bin.name` override
/// is best-effort: where absent, the binary name falls back to the package
/// name.
pub fn read_manifest(content: &str) -> (r: Result<Manifest, Error>)
    ensures
        r is Ok <==> (toml_parses(content@) && spec_required_fields_ok(content@)),
        r matches Ok(m) ==> m@ == spec_manifest_of(content@),
        !toml_parses(content@) ==> (r matches Err(e) && e@ matches SpecError::ParseFailure(_)),
        (toml_parses(content@) && spec_pkg_field(content@, "version"@) is None) ==> (r matches Err(
            e,
        ) && e@ == SpecError::Manifest("version"@)),
        (toml_parses(content@) && spec_pkg_field(content@, "version"@) is Some && spec_pkg_field(
            content@,
            "name"@,
        ) is None) ==> (r matches Err(e) && e@ == SpecError::Manifest("name"@)),
        (toml_parses(content@) && spec_pkg_field(content@, "version"@) is Some && spec_pkg_field(
            content@,
            "name"@,
        ) is Some && spec_pkg_field(content@, "description"@) is None) ==> (r matches Err(e) && e@
            == SpecError::Manifest("description"@)),
        (toml_parses(content@) && spec_pkg_field(content@, "version"@) is Some && spec_pkg_field(
            content@,
            "name"@,
        ) is Some && spec_pkg_field(content@, "description"@) is Some && toml_author_list(content@).len()
            == 0) ==> (r matches Err(e) && e@ == SpecError::Manifest("authors"@)),
        r matches Ok(m) ==> (spec_bin_field(content@) is None ==> m@.bin_name == m@.name),
        r matches Ok(m) ==> (spec_bin_field(content@) matches Some(b) ==> m@.bin_name == b),
{
    let doc = match parse_toml(content) {
        Ok(d) => d,
        Err(m) => {
            return Err(Error::ParseFailure(m));
        },
    };
    let version = match get_table_str(&doc, "package", "version") {
        Some(v) => v,
        None => {
            return Err(Error::Manifest(String::from_str("version")));
        },
    };
    let name = match get_table_str(&doc, "package", "name") {
        Some(n) => n,
        None => {
            return Err(Error::Manifest(String::from_str("name")));
        },
    };
    let description = match get_table_str(&doc, "package", "description") {
        Some(d) => d,
        None => {
            return Err(Error::Manifest(String::from_str("description")));
        },
    };
    let author = match get_first_author(&doc) {
        Some(a) => a,
        None => {
            return Err(Error::Manifest(String::from_str("authors")));
        },
    };
    let bin_name = match get_table_str(&doc, "bin", "name") {
        Some(b) => b,
        None => name.clone(),
    };
    Ok(Manifest { version, name, description, author, bin_name })
}

} // verus!
