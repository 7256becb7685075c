//! The closed set of failures that the dcli tools can report, with the
//! message each renders to.
//!
//! One error type serves every API call and every tool. The tools mostly
//! load and parse API data, so a small flat vocabulary covers their failures.

use vstd::prelude::*;
use vstd::string::StringExecFns;

use crate::outside::{
    debug_text_of_io, debug_text_of_json, debug_text_of_request, debug_text_of_zip,
    json_debug_shape, request_debug_shape, zip_debug_shape,
};

verus! {

/// Every reason an operation of the dcli tools can fail.
#[derive(Debug)]
pub enum Error {
    /// The call to the API could not be completed.
    ApiRequest { description: String },
    /// The API answered, but reported an error status.
    ApiStatus { description: String },
    /// Parameters were in the wrong format (for example a name where an id was expected).
    ParameterParseFailure,
    /// The id and platform given do not go together.
    InvalidParameters,
    /// No API key was set.
    ApiKeyMissingFromRequest,
    /// The API is down for now.
    ApiNotAvailableException,
    /// The account's privacy settings hide the data asked for.
    PrivacyException,
    /// The API's answer could not be decoded.
    ApiParse { description: String },
    /// A file system operation failed.
    IoError { description: String },
    /// A path that should be a directory is a file.
    IoErrorDirIsFile { description: String },
    /// Decompressing the manifest failed.
    ZipError { description: String },
    /// Anything not classified otherwise.
    Unknown { description: String },
}

/// The fixed part of each variant's message: for a variant that carries a
/// description, the sentence that the description follows; for one that does
/// not, the whole message.
pub open spec fn heading(e: Error) -> Seq<char> {
    match e {
        Error::ApiRequest { .. } => "Error calling the API. "@,
        Error::ApiStatus { .. } => "Destiny 2 API call returned an error. "@,
        Error::ApiParse { .. } => "Error parsing results from the API call. "@,
        Error::IoError { .. } => "Error working with file system. "@,
        Error::ZipError { .. } => "Error decompressing manifest. "@,
        Error::IoErrorDirIsFile { .. } => "Expected directory but found file. "@,
        Error::Unknown { .. } => "An unknown error occured. "@,
        Error::ParameterParseFailure => "Could not parse Parameters. (code 7)"@,
        Error::InvalidParameters => "Invalid input parameters. (code 18)"@,
        Error::ApiKeyMissingFromRequest =>
            "Missing API Key. Set DESTINY_API_KEY environment variable before compiling."@,
        Error::ApiNotAvailableException => "The Destiny API is currently not available. (code 5)"@,
        Error::PrivacyException =>
            "Privacy settings for Bungie account are too restrictive. (code 5)"@,
    }
}

/// The label naming the outside error type that an adapter puts before that
/// error's own text; empty for the variants that no adapter builds.
pub open spec fn origin_label(e: Error) -> Seq<char> {
    match e {
        Error::ApiRequest { .. } => "reqwest::Error : "@,
        Error::ApiParse { .. } => "serde_json::Error : "@,
        Error::IoError { .. } => "std::io::Error : "@,
        Error::ZipError { .. } => "zip::result::ZipError : "@,
        _ => Seq::empty(),
    }
}

impl Error {
    /// The diagnostic text a variant carries, if it carries one.
    pub open spec fn description(self) -> Option<Seq<char>> {
        match self {
            Error::ApiRequest { description } => Some(description@),
            Error::ApiStatus { description } => Some(description@),
            Error::ApiParse { description } => Some(description@),
            Error::IoError { description } => Some(description@),
            Error::IoErrorDirIsFile { description } => Some(description@),
            Error::ZipError { description } => Some(description@),
            Error::Unknown { description } => Some(description@),
            Error::ParameterParseFailure => None,
            Error::InvalidParameters => None,
            Error::ApiKeyMissingFromRequest => None,
            Error::ApiNotAvailableException => None,
            Error::PrivacyException => None,
        }
    }

    /// The message shown to the user: the variant's heading, followed by its
    /// description where it has one.
    pub open spec fn message(self) -> Seq<char> {
        match self.description() {
            Some(d) => heading(self) + d,
            None => heading(self),
        }
    }

    /// Renders the error for display.
    pub fn render(&self) -> (r: String)
        ensures
            r@ == self.message(),
    {
        match self {
            Error::ApiRequest { description } =>
                String::from_str("Error calling the API. ").concat(description.as_str()),
            Error::ApiStatus { description } =>
                String::from_str("Destiny 2 API call returned an error. ").concat(description.as_str()),
            Error::ApiParse { description } =>
                String::from_str("Error parsing results from the API call. ").concat(description.as_str()),
            Error::IoError { description } =>
                String::from_str("Error working with file system. ").concat(description.as_str()),
            Error::ZipError { description } =>
                String::from_str("Error decompressing manifest. ").concat(description.as_str()),
            Error::IoErrorDirIsFile { description } =>
                String::from_str("Expected directory but found file. ").concat(description.as_str()),
            Error::Unknown { description } =>
                String::from_str("An unknown error occured. ").concat(description.as_str()),
            Error::ParameterParseFailure => String::from_str("Could not parse Parameters. (code 7)"),
            Error::InvalidParameters => String::from_str("Invalid input parameters. (code 18)"),
            Error::ApiKeyMissingFromRequest => String::from_str(
                "Missing API Key. Set DESTINY_API_KEY environment variable before compiling.",
            ),
            Error::ApiNotAvailableException => String::from_str(
                "The Destiny API is currently not available. (code 5)",
            ),
            Error::PrivacyException => String::from_str(
                "Privacy settings for Bungie account are too restrictive. (code 5)",
            ),
        }
    }
}

impl Error {
    /// Builds the error for a failed API call from the `Debug` text of the
    /// transport error.
    pub fn from_request_text(text: String) -> (r: Error)
        ensures
            r is ApiRequest,
            r.description() == Some(origin_label(r) + text@),
    {
        Error::ApiRequest { description: String::from_str("reqwest::Error : ").concat(text.as_str()) }
    }

    /// Builds the error for an undecodable API answer from the `Debug` text of
    /// the JSON error.
    pub fn from_json_text(text: String) -> (r: Error)
        ensures
            r is ApiParse,
            r.description() == Some(origin_label(r) + text@),
    {
        Error::ApiParse { description: String::from_str("serde_json::Error : ").concat(text.as_str()) }
    }

    /// Builds the error for a failed file system operation from the `Debug`
    /// text of the I/O error.
    pub fn from_io_text(text: String) -> (r: Error)
        ensures
            r is IoError,
            r.description() == Some(origin_label(r) + text@),
    {
        Error::IoError { description: String::from_str("std::io::Error : ").concat(text.as_str()) }
    }

    /// Builds the error for a failed decompression from the `Debug` text of the
    /// archive error.
    pub fn from_zip_text(text: String) -> (r: Error)
        ensures
            r is ZipError,
            r.description() == Some(origin_label(r) + text@),
    {
        Error::ZipError {
            description: String::from_str("zip::result::ZipError : ").concat(text.as_str()),
        }
    }
}

impl From<reqwest::Error> for Error {
    /// Converts a transport error into `ApiRequest`: the description is the label of the
    /// outside type followed by the error's `Debug` text, which names the error's kind.
    fn from(err: reqwest::Error) -> (r: Error)
        ensures
            r is ApiRequest,
            exists|t: Seq<char>| r.description() == Some(origin_label(r) + t) && request_debug_shape(err, t),
    {
        let text = debug_text_of_request(&err);
        let r = Error::from_request_text(text);
        assert(r.description() == Some(origin_label(r) + text@) && request_debug_shape(err, text@));
        r
    }
}

impl vstd::std_specs::convert::FromSpecImpl<reqwest::Error> for Error {
    // The description holds the outside error's `Debug` text, of which
    // nothing is specified, so no result is promised here; `from` itself
    // states what holds of every result.
    open spec fn obeys_from_spec() -> bool {
        false
    }

    open spec fn from_spec(v: reqwest::Error) -> Error {
        arbitrary()
    }
}

impl From<serde_json::Error> for Error {
    /// Converts a JSON decoding error into `ApiParse`: the description is the label of the
    /// outside type followed by the error's `Debug` text, which holds its message, line
    /// and column.
    fn from(err: serde_json::Error) -> (r: Error)
        ensures
            r is ApiParse,
            exists|t: Seq<char>| r.description() == Some(origin_label(r) + t) && json_debug_shape(err, t),
    {
        let text = debug_text_of_json(&err);
        let r = Error::from_json_text(text);
        assert(r.description() == Some(origin_label(r) + text@) && json_debug_shape(err, text@));
        r
    }
}

impl vstd::std_specs::convert::FromSpecImpl<serde_json::Error> for Error {
    // The description holds the outside error's `Debug` text, of which
    // nothing is specified, so no result is promised here; `from` itself
    // states what holds of every result.
    open spec fn obeys_from_spec() -> bool {
        false
    }

    open spec fn from_spec(v: serde_json::Error) -> Error {
        arbitrary()
    }
}

impl From<std::io::Error> for Error {
    /// Converts an I/O error into `IoError`: the description is the label of the
    /// outside type followed by the error's `Debug` text.
    fn from(err: std::io::Error) -> (r: Error)
        ensures
            r is IoError,
            exists|t: Seq<char>| r.description() == Some(origin_label(r) + t),
    {
        Error::from_io_text(debug_text_of_io(&err))
    }
}

impl vstd::std_specs::convert::FromSpecImpl<std::io::Error> for Error {
    // The description holds the outside error's `Debug` text, of which
    // nothing is specified, so no result is promised here; `from` itself
    // states what holds of every result.
    open spec fn obeys_from_spec() -> bool {
        false
    }

    open spec fn from_spec(v: std::io::Error) -> Error {
        arbitrary()
    }
}

impl From<zip::result::ZipError> for Error {
    /// Converts an archive error into `ZipError`: the description is the label of the
    /// outside type followed by the error's `Debug` text, which names its variant.
    fn from(err: zip::result::ZipError) -> (r: Error)
        ensures
            r is ZipError,
            exists|t: Seq<char>| r.description() == Some(origin_label(r) + t) && zip_debug_shape(err, t),
    {
        let text = debug_text_of_zip(&err);
        let r = Error::from_zip_text(text);
        assert(r.description() == Some(origin_label(r) + text@) && zip_debug_shape(err, text@));
        r
    }
}

impl vstd::std_specs::convert::FromSpecImpl<zip::result::ZipError> for Error {
    // The description holds the outside error's `Debug` text, of which
    // nothing is specified, so no result is promised here; `from` itself
    // states what holds of every result.
    open spec fn obeys_from_spec() -> bool {
        false
    }

    open spec fn from_spec(v: zip::result::ZipError) -> Error {
        arbitrary()
    }
}

/// Whether `t` occurs as a contiguous run of characters within `s`.
pub open spec fn holds_text(s: Seq<char>, t: Seq<char>) -> bool {
    exists|i: int| 0 <= i <= s.len() - t.len() && #[trigger] s.subrange(i, i + t.len()) == t
}

/// An error built by an adapter from an outside error's text keeps that text
/// whole, in its description and in its rendered message.
pub proof fn lemma_adapted_text_kept(e: Error, text: Seq<char>)
    requires
        e.description() == Some(origin_label(e) + text),
    ensures
        holds_text(e.description().unwrap(), text),
        holds_text(e.message(), text),
{
    let d = origin_label(e) + text;
    assert(d.subrange(origin_label(e).len() as int, d.len() as int) =~= text);
    let m = heading(e) + d;
    let k = heading(e).len() + origin_label(e).len();
    assert(e.message() == m);
    assert(m.subrange(k as int, (k + text.len()) as int) =~= text);
}

/// Every error renders to a message that is not empty.
pub proof fn lemma_message_not_empty(e: Error)
    ensures
        e.message().len() > 0,
{
    reveal_strlit("Error calling the API. ");
    reveal_strlit("Destiny 2 API call returned an error. ");
    reveal_strlit("Error parsing results from the API call. ");
    reveal_strlit("Error working with file system. ");
    reveal_strlit("Error decompressing manifest. ");
    reveal_strlit("Expected directory but found file. ");
    reveal_strlit("An unknown error occured. ");
    reveal_strlit("Could not parse Parameters. (code 7)");
    reveal_strlit("Invalid input parameters. (code 18)");
    reveal_strlit("Missing API Key. Set DESTINY_API_KEY environment variable before compiling.");
    reveal_strlit("The Destiny API is currently not available. (code 5)");
    reveal_strlit("Privacy settings for Bungie account are too restrictive. (code 5)");
}

/// Rendering depends on the error alone: equal errors render to the same
/// message.
pub proof fn lemma_message_determined(a: Error, b: Error)
    requires
        a == b,
    ensures
        a.message() == b.message(),
{
}

/// An error is one of the twelve listed kinds; there is no other.
pub proof fn lemma_kinds_closed(e: Error)
    ensures
        e is ApiRequest || e is ApiStatus || e is ParameterParseFailure || e is InvalidParameters
            || e is ApiKeyMissingFromRequest || e is ApiNotAvailableException
            || e is PrivacyException || e is ApiParse || e is IoError || e is IoErrorDirIsFile
            || e is ZipError || e is Unknown,
{
}

} // verus!
