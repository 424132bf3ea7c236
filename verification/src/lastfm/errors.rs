//! The error model: what can go wrong with a call, and the codes by which the
//! service names its own failures.

use crate::lastfm::json::{other_member_is_passed_over, Json, JsonValue};
use vstd::prelude::*;

verus! {

/// A failure that the service reports about a request, by its published name.
///
/// On the wire each code is a bare integer, see [`ErrorCode::wire`]. The
/// integers 1, 19 and 28 are not defined by the service and name no code.
#[derive(Debug, Clone, Copy, PartialEq, Eq, Structural)]
pub enum ErrorCode {
    /// Invalid service - This service does not exist
    InvalidService,
    /// Invalid Method - No method with that name in this package
    InvalidMethod,
    /// Authentication Failed - You do not have permissions to access the service
    AuthenticationFailed,
    /// Invalid format - This service doesn't exist in that format
    InvalidFormat,
    /// Invalid parameters - Your request is missing a required parameter
    InvalidParameters,
    /// Invalid resource specified
    InvalidResource,
    /// Operation failed - Most likely the backend service failed. Please try again.
    OperationFailed,
    /// Invalid session key - Please re-authenticate
    InvalidSessionKey,
    /// Invalid API key - You must be granted a valid key by last.fm
    InvalidAPIKey,
    /// Service Offline - This service is temporarily offline. Try again later.
    ServiceOffline,
    /// Subscribers Only - This station is only available to paid last.fm subscribers
    SubscribersOnly,
    /// Invalid method signature supplied
    InvalidMethodSignature,
    /// Unauthorized Token - This token has not been authorized
    UnauthorizedToken,
    /// This item is not available for streaming.
    StreamingNotAvailable,
    /// The service is temporarily unavailable, please try again.
    ServiceTemporarilyUnavailable,
    /// Login: User requires to be logged in
    RequiresLogin,
    /// Trial Expired - This user has no free radio plays left. Subscription required.
    TrialExpired,
    /// Not Enough Content - There is not enough content to play this station
    NotEnoughContent,
    /// Not Enough Members - This group does not have enough members for radio
    NotEnoughMembers,
    /// Not Enough Fans - This artist does not have enough fans for for radio
    NotEnoughFans,
    /// Not Enough Neighbours - There are not enough neighbours for radio
    NotEnoughNeighbours,
    /// No Peak Radio - This user is not allowed to listen to radio during peak usage
    NoPeakRadio,
    /// Radio Not Found - Radio station not found
    RadioNotFound,
    /// API Key Suspended - This application is not allowed to make requests to the web services
    APIKeySuspended,
    /// Deprecated - This type of request is no longer supported
    Deprecated,
    /// Rate Limit Exceded - Your IP has made too many requests in a short period
    RateLimitExceeded,
}

/// An integer that names no [`ErrorCode`], kept for diagnostics.
#[derive(Debug, Clone, Copy, PartialEq, Eq, Structural)]
pub struct InvalidErrorCode(pub u64);

impl ErrorCode {
    /// The integer that stands for this code on the wire.
    pub open spec fn wire(self) -> u64 {
        match self {
            ErrorCode::InvalidService => 2,
            ErrorCode::InvalidMethod => 3,
            ErrorCode::AuthenticationFailed => 4,
            ErrorCode::InvalidFormat => 5,
            ErrorCode::InvalidParameters => 6,
            ErrorCode::InvalidResource => 7,
            ErrorCode::OperationFailed => 8,
            ErrorCode::InvalidSessionKey => 9,
            ErrorCode::InvalidAPIKey => 10,
            ErrorCode::ServiceOffline => 11,
            ErrorCode::SubscribersOnly => 12,
            ErrorCode::InvalidMethodSignature => 13,
            ErrorCode::UnauthorizedToken => 14,
            ErrorCode::StreamingNotAvailable => 15,
            ErrorCode::ServiceTemporarilyUnavailable => 16,
            ErrorCode::RequiresLogin => 17,
            ErrorCode::TrialExpired => 18,
            ErrorCode::NotEnoughContent => 20,
            ErrorCode::NotEnoughMembers => 21,
            ErrorCode::NotEnoughFans => 22,
            ErrorCode::NotEnoughNeighbours => 23,
            ErrorCode::NoPeakRadio => 24,
            ErrorCode::RadioNotFound => 25,
            ErrorCode::APIKeySuspended => 26,
            ErrorCode::Deprecated => 27,
            ErrorCode::RateLimitExceeded => 29,
        }
    }

    /// Whether the service defines a code for the integer `n`.
    pub open spec fn defined(n: u64) -> bool {
        2 <= n <= 29 && n != 19 && n != 28
    }

    /// The integer that stands for this code on the wire.
    pub fn code(&self) -> (n: u64)
        ensures
            n == self.wire(),
            ErrorCode::defined(n),
    {
        match self {
            ErrorCode::InvalidService => 2,
            ErrorCode::InvalidMethod => 3,
            ErrorCode::AuthenticationFailed => 4,
            ErrorCode::InvalidFormat => 5,
            ErrorCode::InvalidParameters => 6,
            ErrorCode::InvalidResource => 7,
            ErrorCode::OperationFailed => 8,
            ErrorCode::InvalidSessionKey => 9,
            ErrorCode::InvalidAPIKey => 10,
            ErrorCode::ServiceOffline => 11,
            ErrorCode::SubscribersOnly => 12,
            ErrorCode::InvalidMethodSignature => 13,
            ErrorCode::UnauthorizedToken => 14,
            ErrorCode::StreamingNotAvailable => 15,
            ErrorCode::ServiceTemporarilyUnavailable => 16,
            ErrorCode::RequiresLogin => 17,
            ErrorCode::TrialExpired => 18,
            ErrorCode::NotEnoughContent => 20,
            ErrorCode::NotEnoughMembers => 21,
            ErrorCode::NotEnoughFans => 22,
            ErrorCode::NotEnoughNeighbours => 23,
            ErrorCode::NoPeakRadio => 24,
            ErrorCode::RadioNotFound => 25,
            ErrorCode::APIKeySuspended => 26,
            ErrorCode::Deprecated => 27,
            ErrorCode::RateLimitExceeded => 29,
        }
    }

    /// The code whose wire integer is `n`, where the service defines one.
    pub open spec fn of_wire(n: u64) -> ErrorCode {
        choose|c: ErrorCode| c.wire() == n
    }

    /// What the wire integer `n` reads as: the code that it stands for, or
    /// `n` itself as an invalid code.
    pub open spec fn decoded(n: u64) -> Result<ErrorCode, InvalidErrorCode> {
        if ErrorCode::defined(n) {
            Ok(ErrorCode::of_wire(n))
        } else {
            Err(InvalidErrorCode(n))
        }
    }
}

impl TryFrom<u64> for ErrorCode {
    type Error = InvalidErrorCode;

    /// Reads a code from its wire integer.
    ///
    /// Succeeds exactly on the integers that the service defines, with the code
    /// that stands for `u`; any other integer comes back in the error.
    fn try_from(u: u64) -> (r: Result<ErrorCode, InvalidErrorCode>)
        ensures
            r == ErrorCode::decoded(u),
            r is Ok <==> ErrorCode::defined(u),
            r matches Ok(c) ==> c.wire() == u,
            r matches Err(e) ==> e == InvalidErrorCode(u),
    {
        let r = match u {
            2 => Ok(ErrorCode::InvalidService),
            3 => Ok(ErrorCode::InvalidMethod),
            4 => Ok(ErrorCode::AuthenticationFailed),
            5 => Ok(ErrorCode::InvalidFormat),
            6 => Ok(ErrorCode::InvalidParameters),
            7 => Ok(ErrorCode::InvalidResource),
            8 => Ok(ErrorCode::OperationFailed),
            9 => Ok(ErrorCode::InvalidSessionKey),
            10 => Ok(ErrorCode::InvalidAPIKey),
            11 => Ok(ErrorCode::ServiceOffline),
            12 => Ok(ErrorCode::SubscribersOnly),
            13 => Ok(ErrorCode::InvalidMethodSignature),
            14 => Ok(ErrorCode::UnauthorizedToken),
            15 => Ok(ErrorCode::StreamingNotAvailable),
            16 => Ok(ErrorCode::ServiceTemporarilyUnavailable),
            17 => Ok(ErrorCode::RequiresLogin),
            18 => Ok(ErrorCode::TrialExpired),
            20 => Ok(ErrorCode::NotEnoughContent),
            21 => Ok(ErrorCode::NotEnoughMembers),
            22 => Ok(ErrorCode::NotEnoughFans),
            23 => Ok(ErrorCode::NotEnoughNeighbours),
            24 => Ok(ErrorCode::NoPeakRadio),
            25 => Ok(ErrorCode::RadioNotFound),
            26 => Ok(ErrorCode::APIKeySuspended),
            27 => Ok(ErrorCode::Deprecated),
            29 => Ok(ErrorCode::RateLimitExceeded),
            _ => Err(InvalidErrorCode(u)),
        };
        proof {
            if let Ok(c) = r {
                wire_is_injective(c, ErrorCode::of_wire(u));
            }
        }
        r
    }
}

impl vstd::std_specs::convert::TryFromSpecImpl<u64> for ErrorCode {
    open spec fn obeys_try_from_spec() -> bool {
        true
    }

    open spec fn try_from_spec(u: u64) -> Result<ErrorCode, InvalidErrorCode> {
        ErrorCode::decoded(u)
    }
}

/// Why a body could not be read as the document that was expected.
#[derive(Debug, PartialEq)]
pub enum ParseFailure {
    /// The body is not JSON text; the parser's complaint.
    Syntax(String),
    /// The body is JSON, but a field that the document needs is missing or
    /// holds a value of the wrong kind.
    Shape,
    /// The body is an error envelope whose code the service does not define.
    InvalidErrorCode(InvalidErrorCode),
}

/// What a [`ParseFailure`] says.
pub enum ParseFailureView {
    Syntax(Seq<char>),
    Shape,
    InvalidErrorCode(u64),
}

impl View for ParseFailure {
    type V = ParseFailureView;

    open spec fn view(&self) -> ParseFailureView {
        match self {
            ParseFailure::Syntax(complaint) => ParseFailureView::Syntax(complaint@),
            ParseFailure::Shape => ParseFailureView::Shape,
            ParseFailure::InvalidErrorCode(code) => ParseFailureView::InvalidErrorCode(code.0),
        }
    }
}

/// A request that got no reply: the connection failed, timed out or broke off.
#[derive(Debug, PartialEq)]
pub struct TransportFailure {
    /// What the HTTP client said of the failure.
    pub message: String,
}

/// The envelope in which the service reports a failure of its own.
#[derive(Debug, PartialEq)]
pub struct ErrorResponse {
    pub error: ErrorCode,
    pub message: String,
}

/// What an [`ErrorResponse`] says.
pub struct ErrorResponseView {
    pub error: ErrorCode,
    pub message: Seq<char>,
}

impl View for ErrorResponse {
    type V = ErrorResponseView;

    open spec fn view(&self) -> ErrorResponseView {
        ErrorResponseView { error: self.error, message: self.message@ }
    }
}

/// What an error envelope holds: the member `error`, a defined code, and the
/// member `message`, a text. A code that is not defined is reported as such;
/// anything else that is amiss is a matter of shape.
pub open spec fn error_response_of(j: JsonValue) -> Result<ErrorResponseView, ParseFailureView> {
    match j.member("error"@) {
        Some(JsonValue::Number(Some(n))) => if !ErrorCode::defined(n) {
            Err(ParseFailureView::InvalidErrorCode(n))
        } else {
            match j.member("message"@) {
                Some(JsonValue::Text(message)) => Ok(
                    ErrorResponseView { error: ErrorCode::of_wire(n), message },
                ),
                _ => Err(ParseFailureView::Shape),
            }
        },
        _ => Err(ParseFailureView::Shape),
    }
}

impl ErrorResponse {
    /// Reads an error envelope from a document.
    pub fn from_json(j: &Json) -> (r: Result<ErrorResponse, ParseFailure>)
        ensures
            match r {
                Ok(response) => error_response_of(j@) == Ok::<_, ParseFailureView>(response@),
                Err(failure) => error_response_of(j@) == Err::<ErrorResponseView, _>(failure@),
            },
    {
        let n = match j.member("error") {
            Some(Json::Number(Some(n))) => *n,
            _ => return Err(ParseFailure::Shape),
        };
        let error = match ErrorCode::try_from(n) {
            Ok(code) => code,
            Err(invalid) => return Err(ParseFailure::InvalidErrorCode(invalid)),
        };
        match j.member("message") {
            Some(Json::Text(message)) => Ok(ErrorResponse { error, message: message.clone() }),
            _ => Err(ParseFailure::Shape),
        }
    }
}

/// What went wrong with a call.
#[derive(Debug, PartialEq)]
pub enum Error {
    /// The body of the reply could not be read as what its status announced.
    ParsingError(ParseFailure),
    /// The request got no reply.
    HTTPError(TransportFailure),
    /// The service answered with an error of its own.
    APIError(ErrorResponse),
}

/// What an [`Error`] says.
pub enum ErrorView {
    ParsingError(ParseFailureView),
    HTTPError(Seq<char>),
    APIError(ErrorResponseView),
}

impl View for Error {
    type V = ErrorView;

    open spec fn view(&self) -> ErrorView {
        match self {
            Error::ParsingError(failure) => ErrorView::ParsingError(failure@),
            Error::HTTPError(failure) => ErrorView::HTTPError(failure.message@),
            Error::APIError(response) => ErrorView::APIError(response@),
        }
    }
}

impl From<ParseFailure> for Error {
    fn from(failure: ParseFailure) -> (e: Error) {
        Error::ParsingError(failure)
    }
}

impl vstd::std_specs::convert::FromSpecImpl<ParseFailure> for Error {
    open spec fn obeys_from_spec() -> bool {
        true
    }

    open spec fn from_spec(failure: ParseFailure) -> Error {
        Error::ParsingError(failure)
    }
}

impl From<TransportFailure> for Error {
    fn from(failure: TransportFailure) -> (e: Error) {
        Error::HTTPError(failure)
    }
}

impl vstd::std_specs::convert::FromSpecImpl<TransportFailure> for Error {
    open spec fn obeys_from_spec() -> bool {
        true
    }

    open spec fn from_spec(failure: TransportFailure) -> Error {
        Error::HTTPError(failure)
    }
}

/// Distinct codes have distinct wire integers, and every wire integer is one
/// that the service defines.
pub proof fn wire_is_injective(a: ErrorCode, b: ErrorCode)
    ensures
        ErrorCode::defined(a.wire()),
        a.wire() == b.wire() ==> a == b,
{
}

/// Every integer that the service defines is the wire integer of some code.
pub proof fn defined_has_code(n: u64) -> (c: ErrorCode)
    requires
        ErrorCode::defined(n),
    ensures
        c.wire() == n,
{
    if n == 2 { ErrorCode::InvalidService }
    else if n == 3 { ErrorCode::InvalidMethod }
    else if n == 4 { ErrorCode::AuthenticationFailed }
    else if n == 5 { ErrorCode::InvalidFormat }
    else if n == 6 { ErrorCode::InvalidParameters }
    else if n == 7 { ErrorCode::InvalidResource }
    else if n == 8 { ErrorCode::OperationFailed }
    else if n == 9 { ErrorCode::InvalidSessionKey }
    else if n == 10 { ErrorCode::InvalidAPIKey }
    else if n == 11 { ErrorCode::ServiceOffline }
    else if n == 12 { ErrorCode::SubscribersOnly }
    else if n == 13 { ErrorCode::InvalidMethodSignature }
    else if n == 14 { ErrorCode::UnauthorizedToken }
    else if n == 15 { ErrorCode::StreamingNotAvailable }
    else if n == 16 { ErrorCode::ServiceTemporarilyUnavailable }
    else if n == 17 { ErrorCode::RequiresLogin }
    else if n == 18 { ErrorCode::TrialExpired }
    else if n == 20 { ErrorCode::NotEnoughContent }
    else if n == 21 { ErrorCode::NotEnoughMembers }
    else if n == 22 { ErrorCode::NotEnoughFans }
    else if n == 23 { ErrorCode::NotEnoughNeighbours }
    else if n == 24 { ErrorCode::NoPeakRadio }
    else if n == 25 { ErrorCode::RadioNotFound }
    else if n == 26 { ErrorCode::APIKeySuspended }
    else if n == 27 { ErrorCode::Deprecated }
    else { ErrorCode::RateLimitExceeded }
}

/// Reading and writing a code are inverse to each other. Every code reads
/// back from its own wire integer. An integer that the service defines, which
/// is one of 2 to 18, 20 to 27 and 29, reads as the code that it stands for.
/// Any other integer is refused, and the refusal carries it.
pub proof fn code_round_trip(c: ErrorCode, n: u64)
    ensures
        ErrorCode::decoded(c.wire()) == Ok::<_, InvalidErrorCode>(c),
        ErrorCode::defined(n) <==> (2 <= n <= 18 || 20 <= n <= 27 || n == 29),
        ErrorCode::defined(n) ==> ErrorCode::decoded(n) is Ok && ErrorCode::decoded(n)->Ok_0.wire()
            == n,
        !ErrorCode::defined(n) ==> ErrorCode::decoded(n) == Err::<ErrorCode, _>(
            InvalidErrorCode(n),
        ),
{
    wire_is_injective(c, ErrorCode::of_wire(c.wire()));
    if ErrorCode::defined(n) {
        let code = defined_has_code(n);
    }
}

/// An error envelope may hold more than its two fields: with a member of
/// another name put in at any place, it reads as it did.
pub proof fn envelope_ignores_other_members(
    members: Seq<(Seq<char>, JsonValue)>,
    at: int,
    key: Seq<char>,
    value: JsonValue,
)
    requires
        0 <= at <= members.len(),
        key != "error"@,
        key != "message"@,
    ensures
        error_response_of(JsonValue::Object(members.insert(at, (key, value))))
            == error_response_of(JsonValue::Object(members)),
{
    other_member_is_passed_over(members, at, key, value, "error"@);
    other_member_is_passed_over(members, at, key, value, "message"@);
}

} // verus!
