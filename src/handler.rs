use vstd::prelude::*;
use vstd::utf8::{decode_utf8, valid_utf8};
use vstd::string::StringSliceAdditionalSpecFns;

use crate::config::ReleaseInfoSourceType;
use crate::error::{AuError, JsonFault};
use crate::release::{tag_key, text_members, ReleaseInfo};

verus! {

/// The status code of a successful answer.
pub const STATUS_OK: u16 = 200;

/// The request target for a release: `{base}/tags/{tag}` for a given tag,
/// `{base}/latest` for the latest release.
pub open spec fn release_uri(base: Seq<char>, tag: Option<Seq<char>>) -> Seq<char> {
    match tag {
        Some(t) => base + "/tags/"@ + t,
        None => base + "/latest"@,
    }
}

/// The text of an optional tag.
pub open spec fn tag_view(tag: Option<String>) -> Option<Seq<char>> {
    match tag {
        Some(t) => Some(t@),
        None => None,
    }
}

/// Whether `s` ends with `suffix`.
pub open spec fn ends_with(s: Seq<char>, suffix: Seq<char>) -> bool {
    suffix.len() <= s.len() && s.subrange(s.len() - suffix.len(), s.len() as int) == suffix
}

/// The text of a response body: the body decoded as UTF-8, or the empty text
/// when it is not valid UTF-8.
pub open spec fn body_text(body: Seq<u8>) -> Seq<char> {
    if valid_utf8(body) {
        decode_utf8(body)
    } else {
        Seq::empty()
    }
}

/// The most fraction digits that one number may have when handed to the JSON
/// parser. Each digit of a fraction lowers a 16-bit exponent in the parser,
/// which overflows on a fraction of more digits than this.
pub const MAX_FRACTION_DIGITS: usize = 32768;

/// Whether `c` is an ASCII digit.
pub open spec fn is_ascii_digit(c: u8) -> bool {
    48 <= c <= 57
}

/// Where a scan of JSON text stands after some prefix: inside a string (and
/// just after a backslash there), and, outside strings, how many digits have
/// followed a `.` so far (`-1` when the last byte is not such a digit or the
/// `.` itself).
pub ghost struct ScanState {
    pub in_string: bool,
    pub escaped: bool,
    pub fraction: int,
}

/// The scan state after the first `i` bytes of `b`.
pub open spec fn scan(b: Seq<u8>, i: int) -> ScanState
    decreases i,
{
    if i <= 0 {
        ScanState { in_string: false, escaped: false, fraction: -1 }
    } else {
        step(scan(b, i - 1), b[i - 1])
    }
}

/// The scan state after byte `c`, from state `st`.
pub open spec fn step(st: ScanState, c: u8) -> ScanState {
    if st.in_string {
        if st.escaped {
            ScanState { in_string: true, escaped: false, fraction: -1 }
        } else if c == 92 {
            ScanState { in_string: true, escaped: true, fraction: -1 }
        } else {
            ScanState { in_string: c != 34, escaped: false, fraction: -1 }
        }
    } else if c == 34 {
        ScanState { in_string: true, escaped: false, fraction: -1 }
    } else if c == 46 {
        ScanState { in_string: false, escaped: false, fraction: 0 }
    } else if is_ascii_digit(c) && st.fraction >= 0 {
        ScanState { in_string: false, escaped: false, fraction: st.fraction + 1 }
    } else {
        ScanState { in_string: false, escaped: false, fraction: -1 }
    }
}

/// Whether no fraction in `b`, outside JSON strings, has more than
/// `MAX_FRACTION_DIGITS` digits.
pub open spec fn fractions_fit(b: Seq<u8>) -> bool {
    forall|i: int| 0 <= i <= b.len() ==> #[trigger] scan(b, i).fraction <= MAX_FRACTION_DIGITS
}

/// Tells whether no fraction in `b`, outside JSON strings, has more than
/// `MAX_FRACTION_DIGITS` digits.
pub fn fractions_fit_in(b: &[u8]) -> (r: bool)
    ensures
        r == fractions_fit(b@),
{
    let mut in_string = false;
    let mut escaped = false;
    let mut in_fraction = false;
    let mut digits: usize = 0;
    let mut i: usize = 0;
    while i < b.len()
        invariant
            0 <= i <= b.len(),
            digits <= MAX_FRACTION_DIGITS,
            scan(b@, i as int) == (ScanState {
                in_string,
                escaped,
                fraction: if in_fraction { digits as int } else { -1 },
            }),
            forall|j: int| 0 <= j <= i ==> #[trigger] scan(b@, j).fraction <= MAX_FRACTION_DIGITS,
        decreases b.len() - i,
    {
        let c = b[i];
        if in_string {
            if escaped {
                escaped = false;
            } else if c == 92 {
                escaped = true;
            } else if c == 34 {
                in_string = false;
            }
        } else if c == 34 {
            in_string = true;
            in_fraction = false;
        } else if c == 46 {
            in_fraction = true;
            digits = 0;
        } else if 48 <= c && c <= 57 && in_fraction {
            if digits == MAX_FRACTION_DIGITS {
                assert(scan(b@, i + 1).fraction > MAX_FRACTION_DIGITS);
                return false;
            }
            digits = digits + 1;
        } else {
            in_fraction = false;
        }
        i = i + 1;
    }
    true
}

/// The string members of the JSON document that `s` holds, or `None` when `s`
/// is not valid JSON.
pub uninterp spec fn parsed_members(s: Seq<char>) -> Option<Map<Seq<char>, Seq<char>>>;

/// Relies on `std::str::from_utf8`: it succeeds exactly on valid UTF-8, and
/// then holds the text those bytes encode.
#[verifier::external_body]
fn utf8_text(b: &[u8]) -> (r: Result<&str, std::str::Utf8Error>)
    ensures
        r is Ok <==> valid_utf8(b@),
        r matches Ok(s) ==> s@ == decode_utf8(b@),
{
    std::str::from_utf8(b)
}

#[verifier::external_type_specification]
#[verifier::external_body]
pub struct ExUtf8Error(std::str::Utf8Error);

#[verifier::external_type_specification]
pub struct ExJsonError(json::Error);

/// Relies on `json::parse`: it succeeds exactly on valid JSON text, and gives
/// a value whose string members depend on the text alone. It is not handed a
/// fraction of more than `MAX_FRACTION_DIGITS` digits, on which its exponent
/// arithmetic overflows.
#[verifier::external_body]
fn parse_json(text: &str) -> (r: Result<json::JsonValue, json::Error>)
    requires
        fractions_fit(text.spec_bytes()),
    ensures
        r is Ok <==> parsed_members(text@) is Some,
        r matches Ok(v) ==> parsed_members(text@) == Some(text_members(v)),
{
    json::parse(text)
}

/// The library's account of a JSON syntax error.
pub open spec fn fault_of(e: json::Error) -> JsonFault {
    match e {
        json::Error::UnexpectedCharacter { ch, line, column } => JsonFault::UnexpectedCharacter {
            ch,
            line,
            column,
        },
        json::Error::UnexpectedEndOfJson => JsonFault::UnexpectedEndOfJson,
        json::Error::ExceededDepthLimit => JsonFault::ExceededDepthLimit,
        json::Error::FailedUtf8Parsing => JsonFault::FailedUtf8Parsing,
        json::Error::WrongType(s) => JsonFault::WrongType(s),
    }
}

/// Turns a JSON syntax error into the library's own account of it.
pub fn json_fault(e: json::Error) -> (r: JsonFault)
    ensures
        r == fault_of(e),
{
    match e {
        json::Error::UnexpectedCharacter { ch, line, column } => JsonFault::UnexpectedCharacter {
            ch,
            line,
            column,
        },
        json::Error::UnexpectedEndOfJson => JsonFault::UnexpectedEndOfJson,
        json::Error::ExceededDepthLimit => JsonFault::ExceededDepthLimit,
        json::Error::FailedUtf8Parsing => JsonFault::FailedUtf8Parsing,
        json::Error::WrongType(s) => JsonFault::WrongType(s),
    }
}

/// What a lookup yields for an answer with this status code and body.
pub open spec fn response_outcome(status: u16, body: Seq<u8>) -> ResponseOutcome {
    if status != STATUS_OK {
        ResponseOutcome::Http
    } else if valid_utf8(body) && !fractions_fit(body) {
        ResponseOutcome::NumberTooLong
    } else {
        match parsed_members(body_text(body)) {
            None => ResponseOutcome::Syntax,
            Some(m) => if m.contains_key(tag_key()) {
                ResponseOutcome::Release(m[tag_key()])
            } else {
                ResponseOutcome::NotARelease
            },
        }
    }
}

/// The ways a lookup can end, as a function of the registry's answer.
pub ghost enum ResponseOutcome {
    /// A release with this version.
    Release(Seq<char>),
    /// An answer other than `200 OK`.
    Http,
    /// A body that is not JSON.
    Syntax,
    /// A body with a fraction of more than `MAX_FRACTION_DIGITS` digits.
    NumberTooLong,
    /// A JSON body without the fields of a release.
    NotARelease,
}

/// The description carried by every `HttpError`.
pub open spec fn http_error_message() -> Seq<char> {
    "request error"@
}

/// The description carried by a `JsonParseError`.
pub open spec fn mapping_error_message() -> Seq<char> {
    "release info json parse error"@
}

/// Whether a lookup result is the one owed for an outcome.
pub open spec fn result_matches(r: Result<ReleaseInfo, AuError>, o: ResponseOutcome) -> bool {
    match o {
        ResponseOutcome::Release(v) => r matches Ok(info) && info.spec_version() == v,
        ResponseOutcome::Http => r matches Err(AuError::HttpError(m)) && m@ == http_error_message(),
        ResponseOutcome::Syntax => r matches Err(AuError::ParseError(_)),
        ResponseOutcome::NumberTooLong => r matches Err(AuError::ParseError(JsonFault::NumberTooLong)),
        ResponseOutcome::NotARelease => r matches Err(AuError::JsonParseError(m)) && m@
            == mapping_error_message(),
    }
}

/// Reads a release from a parsed body: a parse failure is a `ParseError`
/// carrying the parser's diagnostic; a value without the fields of a release
/// is a `JsonParseError`.
pub fn release_info_from_json(parsed: Result<json::JsonValue, json::Error>) -> (r: Result<ReleaseInfo, AuError>)
    ensures
        parsed matches Err(e) ==> r == Err::<ReleaseInfo, AuError>(AuError::ParseError(fault_of(e))),
        parsed matches Ok(v) ==> {
            &&& r is Ok <==> text_members(v).contains_key(tag_key())
            &&& r matches Ok(info) ==> info.spec_version() == text_members(v)[tag_key()]
            &&& r is Err ==> (r matches Err(AuError::JsonParseError(m)) && m@
                == mapping_error_message())
        },
{
    match parsed {
        Err(e) => Err(AuError::ParseError(json_fault(e))),
        Ok(v) => match ReleaseInfo::new_from_json_object(&v) {
            Some(info) => Ok(info),
            None => Err(AuError::JsonParseError(String::from_str("release info json parse error"))),
        },
    }
}

/// Reads the registry's answer to a release request: anything but `200 OK` is
/// an `HttpError`, whatever the body; otherwise the body is read as UTF-8 text
/// (an empty text when it is not UTF-8), parsed as JSON, and read as a release.
/// A text with a fraction (outside strings) of more than `MAX_FRACTION_DIGITS`
/// digits is not parsed: it is a `ParseError` of `JsonFault::NumberTooLong`.
pub fn read_release_response(status: u16, body: &[u8]) -> (r: Result<ReleaseInfo, AuError>)
    ensures
        result_matches(r, response_outcome(status, body@)),
{
    if status != STATUS_OK {
        return Err(AuError::HttpError(String::from_str("request error")));
    }
    let text: &str = match utf8_text(body) {
        Ok(t) => t,
        Err(_) => "",
    };
    proof {
        reveal_strlit("");
        assert(text@ =~= body_text(body@));
        broadcast use vstd::utf8::decode_utf8_encode_utf8;
        assert(text.spec_bytes() =~= if valid_utf8(body@) { body@ } else { Seq::empty() });
    }
    if !fractions_fit_in(text.as_bytes()) {
        return Err(AuError::ParseError(JsonFault::NumberTooLong));
    }
    let parsed = parse_json(text);
    release_info_from_json(parsed)
}

#[verifier::external_type_specification]
#[verifier::external_body]
#[verifier::reject_recursive_types(T)]
pub struct ExRequest<T>(hyper::Request<T>);

#[verifier::external_type_specification]
#[verifier::external_body]
pub struct ExBody(hyper::Body);

#[verifier::external_type_specification]
#[verifier::external_body]
pub struct ExHttpError(hyper::http::Error);

/// Whether `h` holds the headers of every request, by name and value: the
/// client's `User-Agent` and the `Accept` media type of release objects.
pub open spec fn are_request_headers(h: Seq<(&str, &str)>) -> bool {
    &&& h.len() == 2
    &&& h[0].0@ == "User-Agent"@ && h[0].1@ == "hyper/0.14"@
    &&& h[1].0@ == "Accept"@ && h[1].1@ == "application/vnd.github+json"@
}

/// Whether `s` parses as a request URI.
pub uninterp spec fn uri_accepted(s: Seq<char>) -> bool;

/// Relies on hyper's `Request::builder`: a `GET` request with an empty body and
/// the two headers given, whose names and values are valid; building it fails
/// exactly when `uri` does not parse as a URI (`http::Uri::try_from`).
#[verifier::external_body]
fn build_get_request(uri: &str, headers: [(&str, &str); 2]) -> (r: Result<
    hyper::Request<hyper::Body>,
    hyper::http::Error,
>)
    requires
        are_request_headers(headers@),
    ensures
        r is Ok <==> uri_accepted(uri@),
{
    hyper::Request::builder()
        .method(hyper::Method::GET)
        .uri(uri)
        .header(headers[0].0, headers[0].1)
        .header(headers[1].0, headers[1].1)
        .body(hyper::Body::empty())
}

/// A client of a release registry, bound to the base URI of its releases
/// (for GitHub, `.../repos/{owner}/{repo}/releases`).
pub struct VersionHandler<'a> {
    uri: &'a str,
}

impl<'a> VersionHandler<'a> {
    /// The base URI that requests are made under.
    pub closed spec fn base(&self) -> Seq<char> {
        self.uri@
    }

    /// A handler for the releases under `uri`. Only supported registry kinds
    /// are accepted.
    pub fn new(uri: &'a str, release_info_type: &ReleaseInfoSourceType) -> (r: Self)
        requires
            release_info_type.is_supported(),
        ensures
            r.base() == uri@,
    {
        VersionHandler { uri }
    }

    /// The URI to request for the release of `tag_name`, or for the latest
    /// release when there is none. The tag is appended as it is.
    pub fn release_uri(&self, tag_name: Option<String>) -> (r: String)
        ensures
            r@ == release_uri(self.base(), tag_view(tag_name)),
    {
        let mut uri = String::from_str(self.uri);
        match tag_name {
            Some(tag) => {
                uri.append("/tags/");
                uri.append(tag.as_str());
            },
            None => {
                uri.append("/latest");
            },
        }
        uri
    }

    /// The `GET` request for the release of `tag_name` (the latest release when
    /// there is none), with the fixed `User-Agent` and `Accept` headers; an
    /// `HttpError` when the request URI does not parse. The contract states
    /// when building succeeds: the request is opaque here, and its target and
    /// headers are the values `release_uri` and `are_request_headers` describe,
    /// which it is built from.
    pub fn release_request(&self, tag_name: Option<String>) -> (r: Result<
        hyper::Request<hyper::Body>,
        AuError,
    >)
        ensures
            r is Ok <==> uri_accepted(release_uri(self.base(), tag_view(tag_name))),
            r is Err ==> (r matches Err(AuError::HttpError(m)) && m@ == http_error_message()),
    {
        let uri = self.release_uri(tag_name);
        match build_get_request(uri.as_str(), [("User-Agent", user_agent()), ("Accept", accept_media_type())]) {
            Ok(req) => Ok(req),
            Err(_) => Err(AuError::HttpError(String::from_str("request error"))),
        }
    }
}

/// The `User-Agent` header sent with every request.
pub fn user_agent() -> (r: &'static str)
    ensures
        r@ == "hyper/0.14"@,
{
    "hyper/0.14"
}

/// The `Accept` header sent with every request: the registry's media type for
/// release objects.
pub fn accept_media_type() -> (r: &'static str)
    ensures
        r@ == "application/vnd.github+json"@,
{
    "application/vnd.github+json"
}

/// Whether the parser is handed all of a `200 OK` body: it is not UTF-8 (and
/// so read as the empty text), or has no fraction, outside strings, of more
/// than `MAX_FRACTION_DIGITS` digits.
pub open spec fn within_parser_limits(body: Seq<u8>) -> bool {
    !valid_utf8(body) || fractions_fit(body)
}

/// A request for a tag targets a URI that ends in `/tags/{tag}`; a request for
/// the latest release targets one that ends in `/latest`.
pub proof fn lemma_release_uri_suffix(base: Seq<char>, tag: Option<Seq<char>>)
    ensures
        tag matches Some(t) ==> ends_with(release_uri(base, tag), "/tags/"@ + t),
        tag is None ==> ends_with(release_uri(base, tag), "/latest"@),
{
    match tag {
        Some(t) => {
            let u = release_uri(base, tag);
            assert(u == base + ("/tags/"@ + t));
            assert(u.subrange(u.len() - ("/tags/"@ + t).len(), u.len() as int) =~= "/tags/"@ + t);
        },
        None => {
            let u = release_uri(base, tag);
            assert(u.subrange(u.len() - "/latest"@.len(), u.len() as int) =~= "/latest"@);
        },
    }
}

/// A `200 OK` answer whose body is a JSON object with a string `tag_name`
/// yields a release whose version is that string.
pub proof fn lemma_release_body_yields_version(body: Seq<u8>)
    requires
        within_parser_limits(body),
        parsed_members(body_text(body)) matches Some(m) && m.contains_key(tag_key()),
    ensures
        response_outcome(STATUS_OK, body) == ResponseOutcome::Release(
            parsed_members(body_text(body))->Some_0[tag_key()],
        ),
{
}

/// A `200 OK` answer whose body is valid JSON without a string `tag_name`
/// yields a `JsonParseError`.
pub proof fn lemma_json_without_tag_is_mapping_error(body: Seq<u8>)
    requires
        within_parser_limits(body),
        parsed_members(body_text(body)) matches Some(m) && !m.contains_key(tag_key()),
    ensures
        response_outcome(STATUS_OK, body) == ResponseOutcome::NotARelease,
{
}

/// A `200 OK` answer whose body is not valid JSON yields a `ParseError`.
pub proof fn lemma_invalid_json_is_parse_error(body: Seq<u8>)
    requires
        within_parser_limits(body),
        parsed_members(body_text(body)) is None,
    ensures
        response_outcome(STATUS_OK, body) == ResponseOutcome::Syntax,
{
}

/// Any answer but `200 OK` yields an `HttpError`, whatever its body.
pub proof fn lemma_other_status_is_http_error(status: u16, body: Seq<u8>)
    requires
        status != STATUS_OK,
    ensures
        response_outcome(status, body) == ResponseOutcome::Http,
{
}

} // verus!
