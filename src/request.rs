use vstd::prelude::*;
use vstd::string::{to_string_from_display_ensures, StringExecFns, StringSliceAdditionalSpecFns};
use crate::sanitize::push_char;

verus! {

/// Where the store's search and detail endpoints live.
pub const SEARCH_ENDPOINT: &'static str = "https://flathub.org/api/v1/apps/search/";

pub const DETAILS_ENDPOINT: &'static str = "https://flathub.org/api/v1/apps/";

/// The `User-Agent` header sent with each request.
pub const USER_AGENT: &'static str = "Tinted-Linux-Store/1.0";

/// The bound on the whole of one request, in seconds.
pub const REQUEST_TIMEOUT_SECS: u64 = 30;

/// Which of the two operations a request belongs to.
#[derive(Clone, Copy, Debug, PartialEq, Eq, Structural)]
pub enum Operation {
    Search,
    Details,
}

/// Why a request gave no result. Each kind ends the call: nothing is retried.
#[derive(Debug, PartialEq, Eq)]
pub enum FetchError {
    /// The HTTP client could not be built; holds the client's explanation.
    ClientInit(String),
    /// The request did not finish within the timeout.
    Timeout(Operation),
    /// The host could not be reached.
    Connect,
    /// Sending failed otherwise; holds the client's explanation.
    Transport(String),
    /// The server answered with a status outside 200 to 299.
    Server(u16),
    /// The body did not have the expected shape; holds the decoder's explanation.
    Parse(String),
}

#[verifier::external_type_specification]
#[verifier::external_body]
pub struct ExReqwestError(reqwest::Error);

/// Whether the error, or one of its causes, is a timeout.
pub uninterp spec fn timed_out_of(e: reqwest::Error) -> bool;

/// Whether the error, or one of its causes, is a failure to connect.
pub uninterp spec fn connect_failed_of(e: reqwest::Error) -> bool;

/// Relies on reqwest::Error::is_timeout: it walks the error's chain of causes,
/// so the answer depends on the error alone.
pub assume_specification[ reqwest::Error::is_timeout ](e: &reqwest::Error) -> (r: bool)
    ensures
        r == timed_out_of(*e),
;

/// Relies on reqwest::Error::is_connect: it walks the error's chain of causes,
/// so the answer depends on the error alone.
pub assume_specification[ reqwest::Error::is_connect ](e: &reqwest::Error) -> (r: bool)
    ensures
        r == connect_failed_of(*e),
;

/// Percent-encoding keeps these bytes as they are.
pub open spec fn is_unreserved(b: u8) -> bool {
    (0x30 <= b && b <= 0x39) || (0x41 <= b && b <= 0x5a) || (0x61 <= b && b <= 0x7a) || b == 0x2d
        || b == 0x2e || b == 0x5f || b == 0x7e
}

/// The upper-case hex digit of a value below 16.
pub open spec fn hex_digit(d: u8) -> char {
    seq!['0', '1', '2', '3', '4', '5', '6', '7', '8', '9', 'A', 'B', 'C', 'D', 'E', 'F'][d as int]
}

/// One byte percent-encoded.
pub open spec fn encoded_byte(b: u8) -> Seq<char> {
    if is_unreserved(b) {
        seq![b as char]
    } else {
        seq!['%', hex_digit(b / 16), hex_digit(b % 16)]
    }
}

/// Each byte kept where unreserved, else written `%XY` in upper-case hex.
pub open spec fn percent_encoded(bytes: Seq<u8>) -> Seq<char>
    decreases bytes.len(),
{
    if bytes.len() == 0 {
        Seq::empty()
    } else {
        percent_encoded(bytes.drop_last()) + encoded_byte(bytes.last())
    }
}

/// The decimal digit of a value below 10.
pub open spec fn digit_char(d: nat) -> char {
    seq!['0', '1', '2', '3', '4', '5', '6', '7', '8', '9'][d as int]
}

/// The decimal digits of `n`, without leading zeros.
pub open spec fn decimal_digits(n: nat) -> Seq<char>
    decreases n,
{
    if n < 10 {
        seq![digit_char(n)]
    } else {
        decimal_digits(n / 10).push(digit_char(n % 10))
    }
}

/// The standard reason phrase of an HTTP status code, where it has one.
pub uninterp spec fn reason_phrase(code: u16) -> Option<Seq<char>>;

/// A status as HTTP clients print it: the code, a space, and the reason phrase.
pub open spec fn status_text(code: u16) -> Seq<char> {
    decimal_digits(code as nat) + " "@ + match reason_phrase(code) {
        Some(p) => p,
        None => "<unknown status code>"@,
    }
}

/// The success range of HTTP statuses.
pub open spec fn is_success_status(code: u16) -> bool {
    200 <= code && code <= 299
}

/// What the user is told of each failure.
pub open spec fn message_of(e: FetchError) -> Seq<char> {
    match e {
        FetchError::ClientInit(d) => "Failed to create HTTP client: "@ + d@,
        FetchError::Timeout(Operation::Search) => "Request timeout: The search took too long to complete"@,
        FetchError::Timeout(Operation::Details) => "Request timeout: The request took too long to complete"@,
        FetchError::Connect => "Network error: Unable to connect to Flathub"@,
        FetchError::Transport(d) => "Request failed: "@ + d@,
        FetchError::Server(code) => "Server error: HTTP "@ + status_text(code),
        FetchError::Parse(d) => "JSON parsing error: Failed to parse server response - "@ + d@,
    }
}

/// Relies on urlencoding::encode: percent-encodes each UTF-8 byte of `s` except
/// ASCII letters, digits, `-`, `.`, `_` and `~`, with upper-case hex digits.
#[verifier::external_body]
fn url_encode(s: &str) -> (r: String)
    ensures
        r@ == percent_encoded(s.spec_bytes()),
{
    urlencoding::encode(s).into_owned()
}

/// Relies on reqwest::StatusCode::from_u16 and canonical_reason: the standard
/// reason phrase of a code, none for a code outside 100 to 999.
#[verifier::external_body]
fn canonical_reason(code: u16) -> (r: Option<String>)
    ensures
        match r {
            Some(s) => reason_phrase(code) == Some(s@),
            None => reason_phrase(code) is None,
        },
{
    match reqwest::StatusCode::from_u16(code) {
        Ok(status) => status.canonical_reason().map(String::from),
        Err(_) => None,
    }
}

fn digit(d: u16) -> (r: char)
    requires
        d < 10,
    ensures
        r == digit_char(d as nat),
{
    match d {
        0 => '0',
        1 => '1',
        2 => '2',
        3 => '3',
        4 => '4',
        5 => '5',
        6 => '6',
        7 => '7',
        8 => '8',
        _ => '9',
    }
}

/// `n` in decimal.
pub fn decimal(n: u16) -> (r: String)
    ensures
        r@ == decimal_digits(n as nat),
    decreases n,
{
    if n < 10 {
        let mut s = String::new();
        push_char(&mut s, digit(n));
        s
    } else {
        let mut s = decimal(n / 10);
        push_char(&mut s, digit(n % 10));
        s
    }
}

/// The status as HTTP clients print it, such as `404 Not Found`.
pub fn status_display(code: u16) -> (r: String)
    ensures
        r@ == status_text(code),
{
    let s = decimal(code).concat(" ");
    match canonical_reason(code) {
        Some(p) => s.concat(p.as_str()),
        None => s.concat("<unknown status code>"),
    }
}

/// Whether a status counts as success: 200 to 299.
pub fn is_success(code: u16) -> (r: bool)
    ensures
        r == is_success_status(code),
{
    200 <= code && code <= 299
}

/// A status outside the success range is a server error carrying it.
pub fn check_status(code: u16) -> (r: Result<(), FetchError>)
    ensures
        is_success_status(code) ==> r == Ok::<(), FetchError>(()),
        !is_success_status(code) ==> r == Err::<(), FetchError>(FetchError::Server(code)),
{
    if is_success(code) {
        Ok(())
    } else {
        Err(FetchError::Server(code))
    }
}

/// Sorts a failure to send: a timeout first, then a failure to connect, then
/// anything else with the client's explanation.
pub fn classify_send_error(op: Operation, timed_out: bool, connect_failed: bool, detail: String) -> (r:
    FetchError)
    ensures
        timed_out ==> r == FetchError::Timeout(op),
        !timed_out && connect_failed ==> r == FetchError::Connect,
        !timed_out && !connect_failed ==> r == FetchError::Transport(detail),
{
    if timed_out {
        FetchError::Timeout(op)
    } else if connect_failed {
        FetchError::Connect
    } else {
        FetchError::Transport(detail)
    }
}

/// The kind of a failure of the HTTP client to send a request: a timeout
/// first, then a failure to connect, then anything else with the error's text.
pub fn send_error(op: Operation, e: &reqwest::Error) -> (r: FetchError)
    ensures
        timed_out_of(*e) ==> r == FetchError::Timeout(op),
        !timed_out_of(*e) && connect_failed_of(*e) ==> r == FetchError::Connect,
        !timed_out_of(*e) && !connect_failed_of(*e) ==> r is Transport,
        r is Transport ==> to_string_from_display_ensures::<reqwest::Error>(e, r->Transport_0),
{
    let timed_out = e.is_timeout();
    let connect_failed = e.is_connect();
    classify_send_error(op, timed_out, connect_failed, e.to_string())
}

/// A failure to build the HTTP client, with the error's text.
pub fn client_error(e: &reqwest::Error) -> (r: FetchError)
    ensures
        r is ClientInit,
        to_string_from_display_ensures::<reqwest::Error>(e, r->ClientInit_0),
{
    FetchError::ClientInit(e.to_string())
}

/// A failure to decode the response body, with the error's text.
pub fn decode_error(e: &reqwest::Error) -> (r: FetchError)
    ensures
        r is Parse,
        to_string_from_display_ensures::<reqwest::Error>(e, r->Parse_0),
{
    FetchError::Parse(e.to_string())
}

/// The address of a search for `query`, which is percent-encoded.
pub fn search_url(query: &str) -> (r: String)
    ensures
        r@ == SEARCH_ENDPOINT@ + percent_encoded(query.spec_bytes()),
{
    let encoded = url_encode(query);
    String::from_str(SEARCH_ENDPOINT).concat(encoded.as_str())
}

/// The address of the record of `app_id`, which is percent-encoded.
pub fn details_url(app_id: &str) -> (r: String)
    ensures
        r@ == DETAILS_ENDPOINT@ + percent_encoded(app_id.spec_bytes()),
{
    let encoded = url_encode(app_id);
    String::from_str(DETAILS_ENDPOINT).concat(encoded.as_str())
}

impl FetchError {
    /// The message shown to the user.
    pub fn message(&self) -> (r: String)
        ensures
            r@ == message_of(*self),
    {
        match self {
            FetchError::ClientInit(d) => String::from_str("Failed to create HTTP client: ").concat(
                d.as_str(),
            ),
            FetchError::Timeout(Operation::Search) => String::from_str(
                "Request timeout: The search took too long to complete",
            ),
            FetchError::Timeout(Operation::Details) => String::from_str(
                "Request timeout: The request took too long to complete",
            ),
            FetchError::Connect => String::from_str("Network error: Unable to connect to Flathub"),
            FetchError::Transport(d) => String::from_str("Request failed: ").concat(d.as_str()),
            FetchError::Server(code) => {
                let status = status_display(*code);
                String::from_str("Server error: HTTP ").concat(status.as_str())
            },
            FetchError::Parse(d) => String::from_str(
                "JSON parsing error: Failed to parse server response - ",
            ).concat(d.as_str()),
        }
    }
}

} // verus!
