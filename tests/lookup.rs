use release_lookup::handler::{
    accept_media_type, fractions_fit_in, json_fault, read_release_response, release_info_from_json,
    user_agent, MAX_FRACTION_DIGITS,
};
use release_lookup::{AuError, JsonFault, ReleaseInfo, ReleaseInfoSourceType, VersionHandler};

const BASE: &str = "https://api.github.com/repos/org/repo/releases";

#[test]
fn latest_uri_ends_in_latest() {
    let h = VersionHandler::new(BASE, &ReleaseInfoSourceType::TelosGithub);
    assert_eq!(
        h.release_uri(None),
        "https://api.github.com/repos/org/repo/releases/latest"
    );
}

#[test]
fn tag_uri_ends_in_tag() {
    let h = VersionHandler::new(BASE, &ReleaseInfoSourceType::TelosGithub);
    let uri = h.release_uri(Some(String::from("v0.9.1")));
    assert_eq!(uri, "https://api.github.com/repos/org/repo/releases/tags/v0.9.1");
    assert!(uri.ends_with("/tags/v0.9.1"));
}

#[test]
fn tag_is_appended_unescaped() {
    let h = VersionHandler::new("base", &ReleaseInfoSourceType::TelosGithub);
    assert_eq!(h.release_uri(Some(String::from("a b/c"))), "base/tags/a b/c");
    assert_eq!(h.release_uri(Some(String::new())), "base/tags/");
}

#[test]
fn latest_release_scenario() {
    let h = VersionHandler::new(BASE, &ReleaseInfoSourceType::TelosGithub);
    assert!(h.release_uri(None).ends_with("/releases/latest"));
    let body = br#"{"tag_name": "v1.2.3", "name": "Release 1.2.3", "assets": []}"#;
    let info = read_release_response(200, body).unwrap();
    assert_eq!(info.version(), "v1.2.3");
}

#[test]
fn well_formed_release_gives_its_tag() {
    let body = br#"{"id": 7, "tag_name": "2.0.0-rc1", "assets": [{"name": "x.tar.gz"}]}"#;
    let info = read_release_response(200, body).unwrap();
    assert_eq!(info.version(), "2.0.0-rc1");
}

#[test]
fn json_without_tag_is_mapping_error() {
    let r = read_release_response(200, br#"{"name": "Release"}"#);
    assert_eq!(
        r,
        Err(AuError::JsonParseError(String::from("release info json parse error")))
    );
}

#[test]
fn non_string_tag_is_mapping_error() {
    let r = read_release_response(200, br#"{"tag_name": 12}"#);
    assert!(matches!(r, Err(AuError::JsonParseError(_))));
}

#[test]
fn json_array_is_mapping_error() {
    let r = read_release_response(200, br#"[{"tag_name": "v1"}]"#);
    assert!(matches!(r, Err(AuError::JsonParseError(_))));
}

#[test]
fn invalid_json_is_parse_error() {
    let r = read_release_response(200, b"not json");
    assert!(matches!(r, Err(AuError::ParseError(_))));
}

#[test]
fn empty_body_is_parse_error() {
    let r = read_release_response(200, b"");
    assert_eq!(r, Err(AuError::ParseError(JsonFault::UnexpectedEndOfJson)));
}

#[test]
fn non_utf8_body_reads_as_empty_text() {
    let r = read_release_response(200, &[0x7b, 0xff, 0xfe, 0x7d]);
    assert_eq!(r, Err(AuError::ParseError(JsonFault::UnexpectedEndOfJson)));
}

#[test]
fn not_found_is_http_error() {
    let r = read_release_response(404, br#"{"tag_name": "v1.2.3"}"#);
    assert_eq!(r, Err(AuError::HttpError(String::from("request error"))));
}

#[test]
fn server_error_is_http_error() {
    let r = read_release_response(500, b"not json");
    assert!(matches!(r, Err(AuError::HttpError(_))));
    let r = read_release_response(301, b"");
    assert!(matches!(r, Err(AuError::HttpError(_))));
}

#[test]
fn release_from_json_object() {
    let v = json::parse(r#"{"tag_name": "v3.1.4"}"#).unwrap();
    let info = ReleaseInfo::new_from_json_object(&v).unwrap();
    assert_eq!(info.version(), "v3.1.4");
    let v = json::parse(r#"{"tag": "v3.1.4"}"#).unwrap();
    assert!(ReleaseInfo::new_from_json_object(&v).is_none());
    let v = json::parse(r#""v3.1.4""#).unwrap();
    assert!(ReleaseInfo::new_from_json_object(&v).is_none());
}

#[test]
fn release_from_parse_result() {
    let r = release_info_from_json(json::parse(r#"{"tag_name": "x"}"#));
    assert_eq!(r.unwrap().version(), "x");
    let r = release_info_from_json(json::parse("{"));
    assert_eq!(r, Err(AuError::ParseError(JsonFault::UnexpectedEndOfJson)));
    let r = release_info_from_json(json::parse("null"));
    assert!(matches!(r, Err(AuError::JsonParseError(_))));
}

#[test]
fn json_faults_keep_their_details() {
    assert_eq!(
        json_fault(json::Error::UnexpectedCharacter { ch: 'o', line: 1, column: 2 }),
        JsonFault::UnexpectedCharacter { ch: 'o', line: 1, column: 2 }
    );
    assert_eq!(json_fault(json::Error::ExceededDepthLimit), JsonFault::ExceededDepthLimit);
    assert_eq!(json_fault(json::Error::FailedUtf8Parsing), JsonFault::FailedUtf8Parsing);
    assert_eq!(
        json_fault(json::Error::WrongType(String::from("u8"))),
        JsonFault::WrongType(String::from("u8"))
    );
}

#[test]
fn request_carries_uri_and_headers() {
    let h = VersionHandler::new(BASE, &ReleaseInfoSourceType::TelosGithub);
    let req = h.release_request(Some(String::from("v1.0.0"))).unwrap();
    assert_eq!(req.method(), hyper::Method::GET);
    assert_eq!(
        req.uri().to_string(),
        "https://api.github.com/repos/org/repo/releases/tags/v1.0.0"
    );
    assert_eq!(req.headers()["User-Agent"], "hyper/0.14");
    assert_eq!(req.headers()["Accept"], "application/vnd.github+json");
}

#[test]
fn unparsable_uri_is_http_error() {
    let h = VersionHandler::new("http://exa mple.com", &ReleaseInfoSourceType::TelosGithub);
    match h.release_request(None) {
        Err(e) => assert_eq!(e, AuError::HttpError(String::from("request error"))),
        Ok(_) => panic!("a URI with a space was accepted"),
    }
}

#[test]
fn fixed_header_values() {
    assert_eq!(user_agent(), "hyper/0.14");
    assert_eq!(accept_media_type(), "application/vnd.github+json");
}

fn body_with_fraction(zeros: usize) -> Vec<u8> {
    let mut body = br#"{"tag_name": "v1.0.0", "size": 0."#.to_vec();
    body.extend(std::iter::repeat(b'0').take(zeros));
    body.push(b'}');
    body
}

#[test]
fn longest_fraction_is_parsed() {
    let info = read_release_response(200, &body_with_fraction(MAX_FRACTION_DIGITS)).unwrap();
    assert_eq!(info.version(), "v1.0.0");
}

#[test]
fn overlong_fraction_is_parse_error() {
    let r = read_release_response(200, &body_with_fraction(MAX_FRACTION_DIGITS + 1));
    assert_eq!(r, Err(AuError::ParseError(JsonFault::NumberTooLong)));
}

#[test]
fn overlong_digits_on_other_status_are_http_error() {
    let r = read_release_response(404, &body_with_fraction(MAX_FRACTION_DIGITS + 1));
    assert_eq!(r, Err(AuError::HttpError(String::from("request error"))));
}

#[test]
fn fractions_are_measured() {
    assert!(fractions_fit_in(b""));
    assert!(fractions_fit_in(b"12.34"));
    let mut b = b"0.".to_vec();
    b.extend(vec![b'7'; MAX_FRACTION_DIGITS]);
    assert!(fractions_fit_in(&b));
    b.push(b'1');
    assert!(!fractions_fit_in(&b));
    let mut whole = vec![b'1'; MAX_FRACTION_DIGITS + 5];
    assert!(fractions_fit_in(&whole));
    whole.extend(b"e5");
    assert!(fractions_fit_in(&whole));
}

#[test]
fn digits_inside_strings_are_not_fractions() {
    let mut b = br#"["a.b\".c", "."#.to_vec();
    b.extend(vec![b'9'; MAX_FRACTION_DIGITS + 1]);
    b.extend(br#""]"#);
    assert!(fractions_fit_in(&b));
    let mut escaped = br#""\"."#.to_vec();
    escaped.extend(vec![b'9'; MAX_FRACTION_DIGITS + 1]);
    escaped.push(b'"');
    assert!(fractions_fit_in(&escaped));
    let mut closed = br#""\\"."#.to_vec();
    closed.extend(vec![b'9'; MAX_FRACTION_DIGITS + 1]);
    assert!(!fractions_fit_in(&closed));
}

#[test]
fn long_digit_string_in_release_is_read() {
    let mut body = br#"{"tag_name": "v1", "body": "0."#.to_vec();
    body.extend(vec![b'4'; 40000]);
    body.extend(br#"", "id": 123456789012345678901234567890}"#);
    let info = read_release_response(200, &body).unwrap();
    assert_eq!(info.version(), "v1");
}

#[test]
fn long_digit_string_without_tag_is_mapping_error() {
    let mut body = br#"{"name": ".1"#.to_vec();
    body.extend(vec![b'4'; 40000]);
    body.extend(br#""}"#);
    let r = read_release_response(200, &body);
    assert_eq!(
        r,
        Err(AuError::JsonParseError(String::from("release info json parse error")))
    );
}

#[test]
fn other_success_codes_are_http_error() {
    let r = read_release_response(201, br#"{"tag_name": "v1.2.3"}"#);
    assert_eq!(r, Err(AuError::HttpError(String::from("request error"))));
}
