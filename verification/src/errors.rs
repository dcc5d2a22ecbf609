//! Error taxonomy: `FormatError` for malformed reference strings, audience
//! tags and documents unreadable in both formats; `SchemaError` for documents
//! that parse but violate the record schema; `ValidationError` for authoring
//! rules a hand-authored entry breaks.

use vstd::prelude::*;

verus! {

/// A value is textually malformed: a reference string, an audience tag, or a
/// whole document that neither format could read.
#[derive(Clone, Debug, PartialEq, Eq)]
pub enum FormatError {
    /// A reference string held no `#` separator.
    MissingSeparator { input: String },
    /// The portion of a reference string after `#` is not an unsigned integer.
    InvalidNumber { text: String },
    /// The scope portion of a reference string is not an allowed project name.
    UnexpectedRepo { repo: String },
    /// An audience tag matched none of the recognized forms.
    UnrecognizedAudience { value: String },
    /// The document could be read neither as TOML nor, after stripping
    /// comment lines, as JSON; both underlying messages are kept verbatim.
    BothFormatsFailed { toml_error: String, json_error: String },
}

/// A document parsed structurally but violated the record schema.
#[derive(Clone, Debug, PartialEq, Eq)]
pub enum SchemaError {
    /// A record (or the whole document) was expected to be an object.
    ExpectedObject,
    /// The named field was expected to hold an array.
    ExpectedArray { field: String },
    /// The named field was expected to hold a string.
    ExpectedString { field: String },
    /// The named field was expected to hold a boolean.
    ExpectedBool { field: String },
    /// A required field was absent.
    MissingField { field: String },
    /// A metadata object held a field outside its strict schema.
    UnknownField { field: String },
    /// A reference string inside the document was malformed.
    InvalidReference { message: String },
    /// An audience tag inside the document was unrecognized.
    UnrecognizedAudience { value: String },
    /// A model-change kind matched neither recognized form.
    UnrecognizedKind { value: String },
}

/// A hand-authored entry broke an authoring rule.
#[derive(Clone, Copy, Debug, PartialEq, Eq, Structural)]
pub enum ValidationError {
    /// The author field is empty.
    EmptyAuthor,
    /// The author field holds a character outside letters, digits and `-`.
    InvalidAuthor,
    /// The entry refers to no pull request or issue.
    NoReferences,
}

/// The text of a validation error, as collected by `Changelog::validate`.
pub open spec fn spec_validation_message(e: ValidationError) -> Seq<char> {
    match e {
        ValidationError::EmptyAuthor => "Author must be set (was empty)"@,
        ValidationError::InvalidAuthor => "Author must be valid GitHub username: [a-zA-Z0-9\\-]"@,
        ValidationError::NoReferences => "Changelog entry must refer to at least one pull request or issue"@,
    }
}

impl ValidationError {
    /// A human-readable description of the broken rule.
    pub fn message(&self) -> (r: String)
        ensures
            r@ == spec_validation_message(*self),
    {
        match self {
            ValidationError::EmptyAuthor => String::from_str("Author must be set (was empty)"),
            ValidationError::InvalidAuthor => String::from_str(
                "Author must be valid GitHub username: [a-zA-Z0-9\\-]",
            ),
            ValidationError::NoReferences => String::from_str(
                "Changelog entry must refer to at least one pull request or issue",
            ),
        }
    }
}

/// The text of a schema error, used when a failed decode attempt is embedded
/// in a combined format error.
pub open spec fn spec_schema_message(e: SchemaError) -> Seq<char> {
    match e {
        SchemaError::ExpectedObject => "expected an object"@,
        SchemaError::ExpectedArray { field } => "expected an array in field `"@ + field@ + "`"@,
        SchemaError::ExpectedString { field } => "expected a string in field `"@ + field@ + "`"@,
        SchemaError::ExpectedBool { field } => "expected a boolean in field `"@ + field@ + "`"@,
        SchemaError::MissingField { field } => "missing field `"@ + field@ + "`"@,
        SchemaError::UnknownField { field } => "unknown field `"@ + field@ + "`"@,
        SchemaError::InvalidReference { message } => "invalid reference: "@ + message@,
        SchemaError::UnrecognizedAudience { value } => "An invalid type of SDK type "@ + value@
            + " has been mentioned in the meta tags"@,
        SchemaError::UnrecognizedKind { value } => "unrecognized change kind "@ + value@,
    }
}

impl SchemaError {
    /// A human-readable description of the schema violation.
    pub fn message(&self) -> (r: String)
        ensures
            r@ == spec_schema_message(*self),
    {
        match self {
            SchemaError::ExpectedObject => String::from_str("expected an object"),
            SchemaError::ExpectedArray { field } => String::from_str("expected an array in field `")
                .concat(field.as_str()).concat("`"),
            SchemaError::ExpectedString { field } => String::from_str("expected a string in field `")
                .concat(field.as_str()).concat("`"),
            SchemaError::ExpectedBool { field } => String::from_str("expected a boolean in field `")
                .concat(field.as_str()).concat("`"),
            SchemaError::MissingField { field } => String::from_str("missing field `")
                .concat(field.as_str()).concat("`"),
            SchemaError::UnknownField { field } => String::from_str("unknown field `")
                .concat(field.as_str()).concat("`"),
            SchemaError::InvalidReference { message } => String::from_str("invalid reference: ")
                .concat(message.as_str()),
            SchemaError::UnrecognizedAudience { value } => String::from_str(
                "An invalid type of SDK type ",
            ).concat(value.as_str()).concat(" has been mentioned in the meta tags"),
            SchemaError::UnrecognizedKind { value } => String::from_str("unrecognized change kind ")
                .concat(value.as_str()),
        }
    }
}

/// The text of a format error.
pub open spec fn spec_format_message(e: FormatError) -> Seq<char> {
    match e {
        FormatError::MissingSeparator { input } => "Reference must of the form `repo#number` but found "@
            + input@,
        FormatError::InvalidNumber { text } => "invalid reference number: "@ + text@,
        FormatError::UnexpectedRepo { repo } => "unexpected repo: "@ + repo@,
        FormatError::UnrecognizedAudience { value } => "An invalid type of SDK type "@ + value@
            + " has been mentioned in the meta tags"@,
        FormatError::BothFormatsFailed { toml_error, json_error } => "Invalid JSON or TOML changelog format:\n"@
            + toml_error@ + "\n"@ + json_error@,
    }
}

impl FormatError {
    /// A human-readable description of the malformed value.
    pub fn message(&self) -> (r: String)
        ensures
            r@ == spec_format_message(*self),
    {
        match self {
            FormatError::MissingSeparator { input } => String::from_str(
                "Reference must of the form `repo#number` but found ",
            ).concat(input.as_str()),
            FormatError::InvalidNumber { text } => String::from_str("invalid reference number: ")
                .concat(text.as_str()),
            FormatError::UnexpectedRepo { repo } => String::from_str("unexpected repo: ")
                .concat(repo.as_str()),
            FormatError::UnrecognizedAudience { value } => String::from_str(
                "An invalid type of SDK type ",
            ).concat(value.as_str()).concat(" has been mentioned in the meta tags"),
            FormatError::BothFormatsFailed { toml_error, json_error } => String::from_str(
                "Invalid JSON or TOML changelog format:\n",
            ).concat(toml_error.as_str()).concat("\n").concat(json_error.as_str()),
        }
    }
}

} // verus!
