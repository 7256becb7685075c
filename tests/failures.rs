use dcli::error::Error;

fn description(e: &Error) -> Option<&str> {
    match e {
        Error::ApiRequest { description }
        | Error::ApiStatus { description }
        | Error::ApiParse { description }
        | Error::IoError { description }
        | Error::IoErrorDirIsFile { description }
        | Error::ZipError { description }
        | Error::Unknown { description } => Some(description.as_str()),
        _ => None,
    }
}

fn malformed_json(text: &str) -> serde_json::Error {
    match serde_json::from_str::<serde_json::Value>(text) {
        Err(e) => e,
        Ok(_) => panic!("expected a parse failure"),
    }
}

#[test]
fn transport_text_reaches_message() {
    let e = Error::from_request_text("connection reset by peer".to_string());
    assert!(matches!(e, Error::ApiRequest { .. }));
    assert_eq!(description(&e), Some("reqwest::Error : connection reset by peer"));
    let m = e.render();
    assert!(m.starts_with("Error calling the API."));
    assert!(m.contains("connection reset by peer"));
    assert_eq!(m, "Error calling the API. reqwest::Error : connection reset by peer");
}

#[test]
fn transport_error_converts() {
    let err = match reqwest::Client::new().get("not a url").build() {
        Err(e) => e,
        Ok(_) => panic!("expected a builder failure"),
    };
    let debug = format!("{:?}", err);
    let e = Error::from(err);
    assert!(matches!(e, Error::ApiRequest { .. }));
    assert_eq!(description(&e), Some(format!("reqwest::Error : {}", debug).as_str()));
    assert!(e.render().starts_with("Error calling the API. reqwest::Error : "));
}

#[test]
fn filesystem_error_converts() {
    let io = std::io::Error::new(std::io::ErrorKind::PermissionDenied, "permission denied");
    let e = Error::from(io);
    assert!(matches!(e, Error::IoError { .. }));
    let d = description(&e).unwrap();
    assert!(d.starts_with("std::io::Error : "));
    assert!(d.contains("permission denied"));
    assert!(e.render().starts_with("Error working with file system. std::io::Error : "));
}

#[test]
fn filesystem_text_builds_io_error() {
    let e = Error::from_io_text("NotFound".to_string());
    assert_eq!(description(&e), Some("std::io::Error : NotFound"));
    assert_eq!(e.render(), "Error working with file system. std::io::Error : NotFound");
}

#[test]
fn missing_key_names_the_setting() {
    let m = Error::ApiKeyMissingFromRequest.render();
    assert_eq!(
        m,
        "Missing API Key. Set DESTINY_API_KEY environment variable before compiling."
    );
    assert!(m.contains("DESTINY_API_KEY"));
    assert_eq!(Error::ApiKeyMissingFromRequest.render(), m);
}

#[test]
fn dir_is_file_message() {
    let e = Error::IoErrorDirIsFile { description: "expected /data but found file".to_string() };
    assert_eq!(e.render(), "Expected directory but found file. expected /data but found file");
}

#[test]
fn two_json_errors_share_heading() {
    let a = Error::from(malformed_json("{"));
    let b = Error::from(malformed_json("[1, 2"));
    assert!(matches!(a, Error::ApiParse { .. }));
    assert!(matches!(b, Error::ApiParse { .. }));
    let (ma, mb) = (a.render(), b.render());
    assert_ne!(ma, mb);
    let heading = "Error parsing results from the API call. serde_json::Error : ";
    assert!(ma.starts_with(heading));
    assert!(mb.starts_with(heading));
    assert!(ma.contains("EOF"));
}

#[test]
fn json_text_builds_parse_error() {
    let e = Error::from_json_text("Error(\"expected value\", line: 1, column: 1)".to_string());
    assert_eq!(
        e.render(),
        "Error parsing results from the API call. serde_json::Error : Error(\"expected value\", line: 1, column: 1)"
    );
}

#[test]
fn archive_error_converts() {
    let e = Error::from(zip::result::ZipError::FileNotFound);
    assert!(matches!(e, Error::ZipError { .. }));
    assert_eq!(description(&e), Some("zip::result::ZipError : FileNotFound"));
    assert_eq!(e.render(), "Error decompressing manifest. zip::result::ZipError : FileNotFound");
}

#[test]
fn archive_text_builds_zip_error() {
    let e = Error::from_zip_text("InvalidPassword".to_string());
    assert_eq!(description(&e), Some("zip::result::ZipError : InvalidPassword"));
}

#[test]
fn fixed_messages() {
    assert_eq!(Error::ParameterParseFailure.render(), "Could not parse Parameters. (code 7)");
    assert_eq!(Error::InvalidParameters.render(), "Invalid input parameters. (code 18)");
    assert_eq!(
        Error::ApiNotAvailableException.render(),
        "The Destiny API is currently not available. (code 5)"
    );
    assert_eq!(
        Error::PrivacyException.render(),
        "Privacy settings for Bungie account are too restrictive. (code 5)"
    );
}

#[test]
fn described_messages() {
    let d = || "detail".to_string();
    assert_eq!(Error::ApiStatus { description: d() }.render(), "Destiny 2 API call returned an error. detail");
    assert_eq!(Error::Unknown { description: d() }.render(), "An unknown error occured. detail");
    assert_eq!(Error::ApiRequest { description: d() }.render(), "Error calling the API. detail");
    assert_eq!(Error::ZipError { description: d() }.render(), "Error decompressing manifest. detail");
}

#[test]
fn empty_description_still_renders() {
    let e = Error::Unknown { description: String::new() };
    assert_eq!(e.render(), "An unknown error occured. ");
    assert!(!e.render().is_empty());
}

#[test]
fn rendering_is_repeatable_and_leaves_others_alone() {
    let a = Error::ApiStatus { description: "status 500".to_string() };
    let b = Error::ApiStatus { description: "status 404".to_string() };
    let first = a.render();
    let other = b.render();
    assert_eq!(a.render(), first);
    assert_eq!(b.render(), other);
    assert_eq!(description(&b), Some("status 404"));
    assert_eq!(description(&a), Some("status 500"));
}

#[test]
fn transport_text_names_the_kind() {
    let err = match reqwest::Client::new().get("not a url").build() {
        Err(e) => e,
        Ok(_) => panic!("expected a builder failure"),
    };
    assert!(err.is_builder());
    let e = Error::from(err);
    assert!(description(&e).unwrap().starts_with("reqwest::Error : reqwest::Error { kind: Builder"));
}

#[test]
fn json_text_holds_line_and_column() {
    let err = malformed_json("[1,\n  x]");
    let (line, column) = (err.line(), err.column());
    let e = Error::from(err);
    let d = description(&e).unwrap();
    assert!(d.starts_with("serde_json::Error : Error(\""));
    assert!(d.ends_with(&format!(", line: {}, column: {})", line, column)));
    assert_eq!(line, 2);
}

#[test]
fn archive_text_holds_method_number() {
    let e = Error::from(zip::result::ZipError::CompressionMethodNotSupported(12));
    assert_eq!(description(&e), Some("zip::result::ZipError : CompressionMethodNotSupported(12)"));
    let p = Error::from(zip::result::ZipError::InvalidPassword);
    assert_eq!(description(&p), Some("zip::result::ZipError : InvalidPassword"));
}
