//! What the library takes on trust from outside crates: the outside error
//! types that the adapters of `error` take, and the `Debug` text of each,
//! with what the crates' sources show of that text.

use reqwest::Error as RequestError;
use serde_json::Error as JsonError;
use vstd::prelude::*;

verus! {

/// Declares reqwest's error type, carried opaquely into the transport adapter.
#[verifier::external_type_specification]
#[verifier::external_body]
pub struct ExReqwestError(RequestError);

/// Declares serde_json's error type, carried opaquely into the parse adapter.
#[verifier::external_type_specification]
#[verifier::external_body]
pub struct ExJsonError(JsonError);

/// Declares std's I/O error type, carried opaquely into the file system adapter.
#[verifier::external_type_specification]
#[verifier::external_body]
pub struct ExIoError(std::io::Error);

/// Declares zip's error type, carried opaquely into the archive adapter.
#[verifier::external_type_specification]
#[verifier::external_body]
pub struct ExZipError(zip::result::ZipError);

/// The decimal digits of `n`, most significant first, as `Display` and
/// `Debug` write an unsigned integer.
pub open spec fn decimal(n: nat) -> Seq<char>
    decreases n,
{
    let digit = seq!['0', '1', '2', '3', '4', '5', '6', '7', '8', '9'][(n % 10) as int];
    if n < 10 {
        seq![digit]
    } else {
        decimal(n / 10) + seq![digit]
    }
}

/// What reqwest::Error::is_builder reports: the error's kind is `Builder`.
pub uninterp spec fn request_is_builder(e: RequestError) -> bool;

/// What reqwest::Error::is_request reports: the error's kind is `Request`.
pub uninterp spec fn request_is_request(e: RequestError) -> bool;

/// What reqwest::Error::is_redirect reports: the error's kind is `Redirect`.
pub uninterp spec fn request_is_redirect(e: RequestError) -> bool;

/// What reqwest::Error::is_status reports: the error's kind is `Status`.
pub uninterp spec fn request_is_status(e: RequestError) -> bool;

/// What reqwest::Error::is_body reports: the error's kind is `Body`.
pub uninterp spec fn request_is_body(e: RequestError) -> bool;

/// What reqwest::Error::is_decode reports: the error's kind is `Decode`.
pub uninterp spec fn request_is_decode(e: RequestError) -> bool;

/// The shape of the `Debug` text of a reqwest error: a struct named
/// `reqwest::Error` whose first field is the error's kind.
pub open spec fn request_debug_shape(e: RequestError, t: Seq<char>) -> bool {
    &&& "reqwest::Error { kind: "@.is_prefix_of(t)
    &&& request_is_builder(e) ==> "reqwest::Error { kind: Builder"@.is_prefix_of(t)
    &&& request_is_request(e) ==> "reqwest::Error { kind: Request"@.is_prefix_of(t)
    &&& request_is_redirect(e) ==> "reqwest::Error { kind: Redirect"@.is_prefix_of(t)
    &&& request_is_status(e) ==> "reqwest::Error { kind: Status("@.is_prefix_of(t)
    &&& request_is_body(e) ==> "reqwest::Error { kind: Body"@.is_prefix_of(t)
    &&& request_is_decode(e) ==> "reqwest::Error { kind: Decode"@.is_prefix_of(t)
}

/// What serde_json::Error::line returns: the one-based line of the error.
pub uninterp spec fn json_line(e: JsonError) -> usize;

/// What serde_json::Error::column returns: the one-based column of the error.
pub uninterp spec fn json_column(e: JsonError) -> usize;

/// The shape of the `Debug` text of a serde_json error: its quoted message,
/// then its line and column.
pub open spec fn json_debug_shape(e: JsonError, t: Seq<char>) -> bool {
    exists|m: Seq<char>|
        t == "Error("@ + m + ", line: "@ + decimal(json_line(e) as nat) + ", column: "@
            + decimal(json_column(e) as nat) + ")"@
}

/// Whether a zip error is the variant `Io`.
pub uninterp spec fn zip_is_io(e: zip::result::ZipError) -> bool;

/// Whether a zip error is the variant `InvalidArchive`.
pub uninterp spec fn zip_is_invalid_archive(e: zip::result::ZipError) -> bool;

/// Whether a zip error is the variant `UnsupportedArchive`.
pub uninterp spec fn zip_is_unsupported_archive(e: zip::result::ZipError) -> bool;

/// Whether a zip error is the variant `FileNotFound`.
pub uninterp spec fn zip_is_file_not_found(e: zip::result::ZipError) -> bool;

/// Whether a zip error is the variant `InvalidPassword`.
pub uninterp spec fn zip_is_invalid_password(e: zip::result::ZipError) -> bool;

/// The method number that a `CompressionMethodNotSupported` zip error holds.
pub uninterp spec fn zip_unsupported_method(e: zip::result::ZipError) -> Option<u16>;

/// The shape of the derived `Debug` text of a zip error: the variant's name,
/// with its field in parentheses where it has one.
pub open spec fn zip_debug_shape(e: zip::result::ZipError, t: Seq<char>) -> bool {
    &&& {
        ||| t == "FileNotFound"@
        ||| t == "InvalidPassword"@
        ||| "Io("@.is_prefix_of(t)
        ||| "InvalidArchive("@.is_prefix_of(t)
        ||| "UnsupportedArchive("@.is_prefix_of(t)
        ||| "CompressionMethodNotSupported("@.is_prefix_of(t)
    }
    &&& zip_is_file_not_found(e) ==> t == "FileNotFound"@
    &&& zip_is_invalid_password(e) ==> t == "InvalidPassword"@
    &&& zip_is_io(e) ==> "Io("@.is_prefix_of(t)
    &&& zip_is_invalid_archive(e) ==> "InvalidArchive("@.is_prefix_of(t)
    &&& zip_is_unsupported_archive(e) ==> "UnsupportedArchive("@.is_prefix_of(t)
    &&& zip_unsupported_method(e) matches Some(n) ==> t == "CompressionMethodNotSupported("@
        + decimal(n as nat) + ")"@
}

/// Relies on the `Debug` impl of reqwest::Error: `debug_struct("reqwest::Error")`
/// whose first field is the derived `Debug` of the error's kind.
#[verifier::external_body]
pub(crate) fn debug_text_of_request(err: &RequestError) -> (r: String)
    ensures
        "reqwest::Error { kind: "@.is_prefix_of(r@),
        request_is_builder(*err) ==> "reqwest::Error { kind: Builder"@.is_prefix_of(r@),
        request_is_request(*err) ==> "reqwest::Error { kind: Request"@.is_prefix_of(r@),
        request_is_redirect(*err) ==> "reqwest::Error { kind: Redirect"@.is_prefix_of(r@),
        request_is_status(*err) ==> "reqwest::Error { kind: Status("@.is_prefix_of(r@),
        request_is_body(*err) ==> "reqwest::Error { kind: Body"@.is_prefix_of(r@),
        request_is_decode(*err) ==> "reqwest::Error { kind: Decode"@.is_prefix_of(r@),
{
    format!("{:?}", err)
}

/// Relies on the `Debug` impl of serde_json::Error, which writes
/// `Error({message:?}, line: {line}, column: {column})`.
#[verifier::external_body]
pub(crate) fn debug_text_of_json(err: &JsonError) -> (r: String)
    ensures
        exists|m: Seq<char>|
            r@ == "Error("@ + m + ", line: "@ + decimal(json_line(*err) as nat) + ", column: "@
                + decimal(json_column(*err) as nat) + ")"@,
{
    format!("{:?}", err)
}

/// Relies on the `Debug` impl of std::io::Error, whose format std does not
/// document; nothing is stated of it.
#[verifier::external_body]
pub(crate) fn debug_text_of_io(err: &std::io::Error) -> (r: String) {
    format!("{:?}", err)
}

/// Relies on the derived `Debug` impl of zip::result::ZipError.
#[verifier::external_body]
pub(crate) fn debug_text_of_zip(err: &zip::result::ZipError) -> (r: String)
    ensures
        r@ == "FileNotFound"@ || r@ == "InvalidPassword"@ || "Io("@.is_prefix_of(r@)
            || "InvalidArchive("@.is_prefix_of(r@) || "UnsupportedArchive("@.is_prefix_of(r@)
            || "CompressionMethodNotSupported("@.is_prefix_of(r@),
        zip_is_file_not_found(*err) ==> r@ == "FileNotFound"@,
        zip_is_invalid_password(*err) ==> r@ == "InvalidPassword"@,
        zip_is_io(*err) ==> "Io("@.is_prefix_of(r@),
        zip_is_invalid_archive(*err) ==> "InvalidArchive("@.is_prefix_of(r@),
        zip_is_unsupported_archive(*err) ==> "UnsupportedArchive("@.is_prefix_of(r@),
        zip_unsupported_method(*err) matches Some(n) ==> r@ == "CompressionMethodNotSupported("@
            + decimal(n as nat) + ")"@,
{
    format!("{:?}", err)
}

} // verus!
