//! The project manifest, read as a TOML document, and the version it states.

use vstd::prelude::*;

verus! {

/// `toml::Value`: a value of a TOML document. Nothing of what it holds is
/// known but through the names below.
#[verifier::external_type_specification]
#[verifier::external_body]
pub struct ExTomlValue(toml::Value);

/// `toml::de::Error`: what the parser answers to a text that is no TOML
/// document.
#[verifier::external_type_specification]
#[verifier::external_body]
pub struct ExTomlError(toml::de::Error);

/// What the `toml` crate makes of a document: the value of its root table,
/// or the error that it finds in the text.
pub uninterp spec fn toml_document(contents: Seq<char>) -> Result<toml::Value, toml::de::Error>;

/// The message that an error of the `toml` crate displays.
pub uninterp spec fn toml_error_message(error: toml::de::Error) -> Seq<char>;

/// The entry of a TOML table under a key, if `value` is a table that has
/// one.
pub uninterp spec fn toml_entry(value: toml::Value, key: Seq<char>) -> Option<toml::Value>;

/// The text of a TOML string, if `value` is a string.
pub uninterp spec fn toml_text(value: toml::Value) -> Option<Seq<char>>;

/// Parses a TOML document with `toml::from_str`. The outcome depends on the
/// text alone; the contract gives it the name `toml_document(contents@)`.
#[verifier::external_body]
fn parse_document(contents: &str) -> (document: Result<toml::Value, toml::de::Error>)
    ensures
        document == toml_document(contents@),
{
    toml::from_str::<toml::Value>(contents)
}

/// Formats an error of the `toml` crate as it displays itself. The
/// contract gives the text the name `toml_error_message(*error)`.
#[verifier::external_body]
fn error_message(error: &toml::de::Error) -> (message: String)
    ensures
        message@ == toml_error_message(*error),
{
    error.to_string()
}

/// Looks a key up with `toml::Value::get`, which finds an entry only in a
/// table. The contract gives the entry, or its absence, the name
/// `toml_entry(*value, key@)`.
#[verifier::external_body]
fn entry<'a>(value: &'a toml::Value, key: &str) -> (found: Option<&'a toml::Value>)
    ensures
        match found {
            Some(inner) => toml_entry(*value, key@) == Some(*inner),
            None => toml_entry(*value, key@) is None,
        },
{
    value.get(key)
}

/// Reads a string with `toml::Value::as_str`, which gives the text of a
/// string and nothing for any other value. The contract gives the text, or
/// its absence, the name `toml_text(*value)`.
#[verifier::external_body]
fn text<'a>(value: &'a toml::Value) -> (found: Option<&'a str>)
    ensures
        match found {
            Some(inner) => toml_text(*value) == Some(inner@),
            None => toml_text(*value) is None,
        },
{
    value.as_str()
}

/// Why a manifest states no version.
#[derive(Debug)]
pub enum ManifestError {
    /// The text is no TOML document; the parser's message says why.
    Syntax(String),
    /// The document has no entry `package`.
    MissingPackage,
    /// `package` is no table with an entry `version`.
    MissingVersion,
    /// `version` is no string.
    VersionNotString,
}

/// A `ManifestError` as contracts speak of it.
pub ghost enum ManifestFault {
    Syntax(Seq<char>),
    MissingPackage,
    MissingVersion,
    VersionNotString,
}

impl View for ManifestError {
    type V = ManifestFault;

    open spec fn view(&self) -> ManifestFault {
        match *self {
            ManifestError::Syntax(message) => ManifestFault::Syntax(message@),
            ManifestError::MissingPackage => ManifestFault::MissingPackage,
            ManifestError::MissingVersion => ManifestFault::MissingVersion,
            ManifestError::VersionNotString => ManifestFault::VersionNotString,
        }
    }
}

/// What each fault says of itself: the parser's message, or what the
/// document lacks.
pub open spec fn fault_message(fault: ManifestFault) -> Seq<char> {
    match fault {
        ManifestFault::Syntax(message) => message,
        ManifestFault::MissingPackage => "missing field `package`"@,
        ManifestFault::MissingVersion => "missing field `version`"@,
        ManifestFault::VersionNotString => "invalid type for field `version`: expected a string"@,
    }
}

impl ManifestError {
    /// What the error says of itself.
    pub fn message(&self) -> (message: String)
        ensures
            message@ == fault_message(self@),
    {
        match self {
            ManifestError::Syntax(message) => message.clone(),
            ManifestError::MissingPackage => String::from_str("missing field `package`"),
            ManifestError::MissingVersion => String::from_str("missing field `version`"),
            ManifestError::VersionNotString => String::from_str(
                "invalid type for field `version`: expected a string",
            ),
        }
    }
}

/// The version that a manifest states: the string under the key `version`
/// of the table under the key `package`, or the fault that keeps the text
/// from stating one.
pub open spec fn manifest_version_of(contents: Seq<char>) -> Result<Seq<char>, ManifestFault> {
    match toml_document(contents) {
        Err(error) => Err(ManifestFault::Syntax(toml_error_message(error))),
        Ok(root) => match toml_entry(root, "package"@) {
            None => Err(ManifestFault::MissingPackage),
            Some(package) => match toml_entry(package, "version"@) {
                None => Err(ManifestFault::MissingVersion),
                Some(version) => match toml_text(version) {
                    None => Err(ManifestFault::VersionNotString),
                    Some(found) => Ok(found),
                },
            },
        },
    }
}

/// The outcome of reading a manifest as contracts speak of it.
pub open spec fn outcome_view(out: Result<String, ManifestError>) -> Result<
    Seq<char>,
    ManifestFault,
> {
    match out {
        Ok(version) => Ok(version@),
        Err(error) => Err(error@),
    }
}

/// Reads the version that a manifest states.
pub fn manifest_version(contents: &str) -> (out: Result<String, ManifestError>)
    ensures
        outcome_view(out) == manifest_version_of(contents@),
{
    match parse_document(contents) {
        Err(error) => Err(ManifestError::Syntax(error_message(&error))),
        Ok(root) => match entry(&root, "package") {
            None => Err(ManifestError::MissingPackage),
            Some(package) => match entry(package, "version") {
                None => Err(ManifestError::MissingVersion),
                Some(version) => match text(version) {
                    None => Err(ManifestError::VersionNotString),
                    Some(found) => Ok(String::from_str(found)),
                },
            },
        },
    }
}

} // verus!
