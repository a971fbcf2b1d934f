//! HTTP status codes, their numbers and their reason phrases.

use vstd::prelude::*;
use vstd::string::StringExecFns;
use crate::text::same_text;

verus! {

/// The status of a response.
///
/// Every variant has one number and one reason phrase. `Unknown` is the
/// library's own sentinel, with the number 0.
#[derive(Debug, Copy, Clone, PartialEq, Eq, Structural)]
pub enum StatusCode {
    // Internal: no status has been chosen
    Unknown,
    // Informational
    Continue,
    SwitchingProtocols,
    Processing,
    EarlyHints,
    // Successful
    OK,
    Created,
    Accepted,
    NonAuthoritiveInformation,
    NoContent,
    ResetContent,
    PartialContent,
    MultiStatus,
    AlreadyReported,
    ImUsed,
    // Redirection
    MultipleChoices,
    MovedPermanently,
    Found,
    SeeOther,
    NotMethod,
    UseProxy,
    Reserved306,
    TemporaryRedirect,
    PermanentRedirect,
    // Client errors
    BadRequest,
    Unauthorized,
    PaymentRequired,
    Forbidden,
    NotFound,
    MethodNotAllowed,
    NotAcceptable,
    ProxyAuthenticationRequired,
    RequestTimeout,
    Conflict,
    Gone,
    LengthRequired,
    PreconditionFailed,
    RequestEntityTooLarge,
    RequestUriTooLong,
    UnsupportedMediaType,
    RequestedRangeNotSatisfiable,
    ExpectationFailed,
    ImATeapot,
    MisdirectedRequest,
    UnprocessableEntity,
    Locked,
    FailedDependency,
    TooEarly,
    UpgradeRequired,
    PreconditionRequired,
    TooManyRequests,
    RequestHeaderFieldsTooLarge,
    UnavailableForLegalReasons,
    // Server errors
    InternalServerError,
    NotImplemented,
    BadGateway,
    ServiceUnavailable,
    GatewayTimeout,
    HttpVersionNotSupported,
    VariantAlsoNegotiates,
    InsufficientStorage,
    LoopDetected,
    NotExtended,
    NetworkAuthenticationRequired,
}

impl StatusCode {
    /// The number of the status.
    pub open spec fn spec_code(self) -> u16 {
        match self {
            StatusCode::Unknown => 0,
            StatusCode::Continue => 100,
            StatusCode::SwitchingProtocols => 101,
            StatusCode::Processing => 102,
            StatusCode::EarlyHints => 103,
            StatusCode::OK => 200,
            StatusCode::Created => 201,
            StatusCode::Accepted => 202,
            StatusCode::NonAuthoritiveInformation => 203,
            StatusCode::NoContent => 204,
            StatusCode::ResetContent => 205,
            StatusCode::PartialContent => 206,
            StatusCode::MultiStatus => 207,
            StatusCode::AlreadyReported => 208,
            StatusCode::ImUsed => 226,
            StatusCode::MultipleChoices => 300,
            StatusCode::MovedPermanently => 301,
            StatusCode::Found => 302,
            StatusCode::SeeOther => 303,
            StatusCode::NotMethod => 304,
            StatusCode::UseProxy => 305,
            StatusCode::Reserved306 => 306,
            StatusCode::TemporaryRedirect => 307,
            StatusCode::PermanentRedirect => 308,
            StatusCode::BadRequest => 400,
            StatusCode::Unauthorized => 401,
            StatusCode::PaymentRequired => 402,
            StatusCode::Forbidden => 403,
            StatusCode::NotFound => 404,
            StatusCode::MethodNotAllowed => 405,
            StatusCode::NotAcceptable => 406,
            StatusCode::ProxyAuthenticationRequired => 407,
            StatusCode::RequestTimeout => 408,
            StatusCode::Conflict => 409,
            StatusCode::Gone => 410,
            StatusCode::LengthRequired => 411,
            StatusCode::PreconditionFailed => 412,
            StatusCode::RequestEntityTooLarge => 413,
            StatusCode::RequestUriTooLong => 414,
            StatusCode::UnsupportedMediaType => 415,
            StatusCode::RequestedRangeNotSatisfiable => 416,
            StatusCode::ExpectationFailed => 417,
            StatusCode::ImATeapot => 418,
            StatusCode::MisdirectedRequest => 421,
            StatusCode::UnprocessableEntity => 422,
            StatusCode::Locked => 423,
            StatusCode::FailedDependency => 424,
            StatusCode::TooEarly => 425,
            StatusCode::UpgradeRequired => 426,
            StatusCode::PreconditionRequired => 428,
            StatusCode::TooManyRequests => 429,
            StatusCode::RequestHeaderFieldsTooLarge => 431,
            StatusCode::UnavailableForLegalReasons => 451,
            StatusCode::InternalServerError => 500,
            StatusCode::NotImplemented => 501,
            StatusCode::BadGateway => 502,
            StatusCode::ServiceUnavailable => 503,
            StatusCode::GatewayTimeout => 504,
            StatusCode::HttpVersionNotSupported => 505,
            StatusCode::VariantAlsoNegotiates => 506,
            StatusCode::InsufficientStorage => 507,
            StatusCode::LoopDetected => 508,
            StatusCode::NotExtended => 510,
            StatusCode::NetworkAuthenticationRequired => 511,
        }
    }

    /// The reason phrase of the status.
    pub open spec fn reason_phrase(self) -> Seq<char> {
        match self {
            StatusCode::Unknown => "Unknown"@,
            StatusCode::Continue => "Continue"@,
            StatusCode::SwitchingProtocols => "Switching Protocols"@,
            StatusCode::Processing => "Processing"@,
            StatusCode::EarlyHints => "Early Hints"@,
            StatusCode::OK => "OK"@,
            StatusCode::Created => "Created"@,
            StatusCode::Accepted => "Accepted"@,
            StatusCode::NonAuthoritiveInformation => "Non-Authoritive Information"@,
            StatusCode::NoContent => "No Content"@,
            StatusCode::ResetContent => "Reset Content"@,
            StatusCode::PartialContent => "Partial Content"@,
            StatusCode::MultiStatus => "Multi Status"@,
            StatusCode::AlreadyReported => "Already Reported"@,
            StatusCode::ImUsed => "IM Used"@,
            StatusCode::MultipleChoices => "Multiple Choices"@,
            StatusCode::MovedPermanently => "Moved Permanently"@,
            StatusCode::Found => "Found"@,
            StatusCode::SeeOther => "See Other"@,
            StatusCode::NotMethod => "Not Method"@,
            StatusCode::UseProxy => "Use Proxy"@,
            StatusCode::Reserved306 => "Reserved306"@,
            StatusCode::TemporaryRedirect => "Temporary Redirect"@,
            StatusCode::PermanentRedirect => "Permanent Redirect"@,
            StatusCode::BadRequest => "Bad Request"@,
            StatusCode::Unauthorized => "Unauthorized"@,
            StatusCode::PaymentRequired => "Payment Required"@,
            StatusCode::Forbidden => "Forbidden"@,
            StatusCode::NotFound => "Not Found"@,
            StatusCode::MethodNotAllowed => "Method Not Allowed"@,
            StatusCode::NotAcceptable => "Not Acceptable"@,
            StatusCode::ProxyAuthenticationRequired => "Proxy Authentication Required"@,
            StatusCode::RequestTimeout => "Request Timeout"@,
            StatusCode::Conflict => "Conflict"@,
            StatusCode::Gone => "Gone"@,
            StatusCode::LengthRequired => "Length Required"@,
            StatusCode::PreconditionFailed => "Precondition Failed"@,
            StatusCode::RequestEntityTooLarge => "Request Entity Too Large"@,
            StatusCode::RequestUriTooLong => "Request URI Too Long"@,
            StatusCode::UnsupportedMediaType => "Unsupported Media Type"@,
            StatusCode::RequestedRangeNotSatisfiable => "Requested Range Not Satisfiable"@,
            StatusCode::ExpectationFailed => "Expectation Failed"@,
            StatusCode::ImATeapot => "I'm A Teapot"@,
            StatusCode::MisdirectedRequest => "Misdirected Request"@,
            StatusCode::UnprocessableEntity => "Unprocessable Entity"@,
            StatusCode::Locked => "Locked"@,
            StatusCode::FailedDependency => "Failed Dependency"@,
            StatusCode::TooEarly => "Too Early"@,
            StatusCode::UpgradeRequired => "Upgrade Required"@,
            StatusCode::PreconditionRequired => "Precondition Required"@,
            StatusCode::TooManyRequests => "Too Many Requests"@,
            StatusCode::RequestHeaderFieldsTooLarge => "Request Header Fields Too Large"@,
            StatusCode::UnavailableForLegalReasons => "Unavailable For Legal Reasons"@,
            StatusCode::InternalServerError => "Internal Server Error"@,
            StatusCode::NotImplemented => "Not Implemented"@,
            StatusCode::BadGateway => "Bad Gateway"@,
            StatusCode::ServiceUnavailable => "Service Unavailable"@,
            StatusCode::GatewayTimeout => "Gateway Timeout"@,
            StatusCode::HttpVersionNotSupported => "HTTP Version Not Supported"@,
            StatusCode::VariantAlsoNegotiates => "Variant Also Negotiates"@,
            StatusCode::InsufficientStorage => "Insufficient Storage"@,
            StatusCode::LoopDetected => "Loop Detected"@,
            StatusCode::NotExtended => "Not Extended"@,
            StatusCode::NetworkAuthenticationRequired => "Network Authentication Required"@,
        }
    }

    /// The status whose reason phrase is `s`, if there is one.
    pub open spec fn spec_from_str(s: Seq<char>) -> Option<StatusCode> {
        if exists|status: StatusCode| status.reason_phrase() == s {
            Some(choose|status: StatusCode| status.reason_phrase() == s)
        } else {
            None
        }
    }

    /// The message that reports that `s` is no reason phrase.
    pub open spec fn spec_invalid(s: Seq<char>) -> Seq<char> {
        "'"@ + s + "' is not a valid value for Http::StatusCode"@
    }

    /// The number of the status.
    pub fn code(&self) -> (c: u16)
        ensures
            c == self.spec_code(),
    {
        match self {
            StatusCode::Unknown => 0,
            StatusCode::Continue => 100,
            StatusCode::SwitchingProtocols => 101,
            StatusCode::Processing => 102,
            StatusCode::EarlyHints => 103,
            StatusCode::OK => 200,
            StatusCode::Created => 201,
            StatusCode::Accepted => 202,
            StatusCode::NonAuthoritiveInformation => 203,
            StatusCode::NoContent => 204,
            StatusCode::ResetContent => 205,
            StatusCode::PartialContent => 206,
            StatusCode::MultiStatus => 207,
            StatusCode::AlreadyReported => 208,
            StatusCode::ImUsed => 226,
            StatusCode::MultipleChoices => 300,
            StatusCode::MovedPermanently => 301,
            StatusCode::Found => 302,
            StatusCode::SeeOther => 303,
            StatusCode::NotMethod => 304,
            StatusCode::UseProxy => 305,
            StatusCode::Reserved306 => 306,
            StatusCode::TemporaryRedirect => 307,
            StatusCode::PermanentRedirect => 308,
            StatusCode::BadRequest => 400,
            StatusCode::Unauthorized => 401,
            StatusCode::PaymentRequired => 402,
            StatusCode::Forbidden => 403,
            StatusCode::NotFound => 404,
            StatusCode::MethodNotAllowed => 405,
            StatusCode::NotAcceptable => 406,
            StatusCode::ProxyAuthenticationRequired => 407,
            StatusCode::RequestTimeout => 408,
            StatusCode::Conflict => 409,
            StatusCode::Gone => 410,
            StatusCode::LengthRequired => 411,
            StatusCode::PreconditionFailed => 412,
            StatusCode::RequestEntityTooLarge => 413,
            StatusCode::RequestUriTooLong => 414,
            StatusCode::UnsupportedMediaType => 415,
            StatusCode::RequestedRangeNotSatisfiable => 416,
            StatusCode::ExpectationFailed => 417,
            StatusCode::ImATeapot => 418,
            StatusCode::MisdirectedRequest => 421,
            StatusCode::UnprocessableEntity => 422,
            StatusCode::Locked => 423,
            StatusCode::FailedDependency => 424,
            StatusCode::TooEarly => 425,
            StatusCode::UpgradeRequired => 426,
            StatusCode::PreconditionRequired => 428,
            StatusCode::TooManyRequests => 429,
            StatusCode::RequestHeaderFieldsTooLarge => 431,
            StatusCode::UnavailableForLegalReasons => 451,
            StatusCode::InternalServerError => 500,
            StatusCode::NotImplemented => 501,
            StatusCode::BadGateway => 502,
            StatusCode::ServiceUnavailable => 503,
            StatusCode::GatewayTimeout => 504,
            StatusCode::HttpVersionNotSupported => 505,
            StatusCode::VariantAlsoNegotiates => 506,
            StatusCode::InsufficientStorage => 507,
            StatusCode::LoopDetected => 508,
            StatusCode::NotExtended => 510,
            StatusCode::NetworkAuthenticationRequired => 511,
        }
    }

    fn phrase(&self) -> (s: &'static str)
        ensures
            s@ == self.reason_phrase(),
    {
        match self {
            StatusCode::Unknown => "Unknown",
            StatusCode::Continue => "Continue",
            StatusCode::SwitchingProtocols => "Switching Protocols",
            StatusCode::Processing => "Processing",
            StatusCode::EarlyHints => "Early Hints",
            StatusCode::OK => "OK",
            StatusCode::Created => "Created",
            StatusCode::Accepted => "Accepted",
            StatusCode::NonAuthoritiveInformation => "Non-Authoritive Information",
            StatusCode::NoContent => "No Content",
            StatusCode::ResetContent => "Reset Content",
            StatusCode::PartialContent => "Partial Content",
            StatusCode::MultiStatus => "Multi Status",
            StatusCode::AlreadyReported => "Already Reported",
            StatusCode::ImUsed => "IM Used",
            StatusCode::MultipleChoices => "Multiple Choices",
            StatusCode::MovedPermanently => "Moved Permanently",
            StatusCode::Found => "Found",
            StatusCode::SeeOther => "See Other",
            StatusCode::NotMethod => "Not Method",
            StatusCode::UseProxy => "Use Proxy",
            StatusCode::Reserved306 => "Reserved306",
            StatusCode::TemporaryRedirect => "Temporary Redirect",
            StatusCode::PermanentRedirect => "Permanent Redirect",
            StatusCode::BadRequest => "Bad Request",
            StatusCode::Unauthorized => "Unauthorized",
            StatusCode::PaymentRequired => "Payment Required",
            StatusCode::Forbidden => "Forbidden",
            StatusCode::NotFound => "Not Found",
            StatusCode::MethodNotAllowed => "Method Not Allowed",
            StatusCode::NotAcceptable => "Not Acceptable",
            StatusCode::ProxyAuthenticationRequired => "Proxy Authentication Required",
            StatusCode::RequestTimeout => "Request Timeout",
            StatusCode::Conflict => "Conflict",
            StatusCode::Gone => "Gone",
            StatusCode::LengthRequired => "Length Required",
            StatusCode::PreconditionFailed => "Precondition Failed",
            StatusCode::RequestEntityTooLarge => "Request Entity Too Large",
            StatusCode::RequestUriTooLong => "Request URI Too Long",
            StatusCode::UnsupportedMediaType => "Unsupported Media Type",
            StatusCode::RequestedRangeNotSatisfiable => "Requested Range Not Satisfiable",
            StatusCode::ExpectationFailed => "Expectation Failed",
            StatusCode::ImATeapot => "I'm A Teapot",
            StatusCode::MisdirectedRequest => "Misdirected Request",
            StatusCode::UnprocessableEntity => "Unprocessable Entity",
            StatusCode::Locked => "Locked",
            StatusCode::FailedDependency => "Failed Dependency",
            StatusCode::TooEarly => "Too Early",
            StatusCode::UpgradeRequired => "Upgrade Required",
            StatusCode::PreconditionRequired => "Precondition Required",
            StatusCode::TooManyRequests => "Too Many Requests",
            StatusCode::RequestHeaderFieldsTooLarge => "Request Header Fields Too Large",
            StatusCode::UnavailableForLegalReasons => "Unavailable For Legal Reasons",
            StatusCode::InternalServerError => "Internal Server Error",
            StatusCode::NotImplemented => "Not Implemented",
            StatusCode::BadGateway => "Bad Gateway",
            StatusCode::ServiceUnavailable => "Service Unavailable",
            StatusCode::GatewayTimeout => "Gateway Timeout",
            StatusCode::HttpVersionNotSupported => "HTTP Version Not Supported",
            StatusCode::VariantAlsoNegotiates => "Variant Also Negotiates",
            StatusCode::InsufficientStorage => "Insufficient Storage",
            StatusCode::LoopDetected => "Loop Detected",
            StatusCode::NotExtended => "Not Extended",
            StatusCode::NetworkAuthenticationRequired => "Network Authentication Required",
        }
    }

    /// The reason phrase of the status, as text.
    pub fn to_string(&self) -> (s: String)
        ensures
            s@ == self.reason_phrase(),
    {
        String::from_str(self.phrase())
    }

    /// The status whose reason phrase is `s`. The comparison is exact: case
    /// and spacing count. Any other text is an error that quotes it.
    pub fn from_str(s: &str) -> (r: Result<StatusCode, String>)
        ensures
            match r {
                Ok(status) => StatusCode::spec_from_str(s@) == Some(status),
                Err(message) => StatusCode::spec_from_str(s@) is None
                    && message@ == StatusCode::spec_invalid(s@),
            },
    {
        match StatusCode::lookup(s) {
            Some(status) => {
                proof {
                    lemma_reason_phrase_injective(
                        status,
                        choose|other: StatusCode| other.reason_phrase() == s@,
                    );
                }
                Ok(status)
            },
            None => {
                let message = String::from_str("'").concat(s).concat(
                    "' is not a valid value for Http::StatusCode",
                );
                Err(message)
            },
        }
    }

    fn lookup(s: &str) -> (r: Option<StatusCode>)
        ensures
            match r {
                Some(status) => status.reason_phrase() == s@,
                None => forall|status: StatusCode| status.reason_phrase() != s@,
            },
    {
        if same_text(s, "Unknown") {
            Some(StatusCode::Unknown)
        } else if same_text(s, "Continue") {
            Some(StatusCode::Continue)
        } else if same_text(s, "Switching Protocols") {
            Some(StatusCode::SwitchingProtocols)
        } else if same_text(s, "Processing") {
            Some(StatusCode::Processing)
        } else if same_text(s, "Early Hints") {
            Some(StatusCode::EarlyHints)
        } else if same_text(s, "OK") {
            Some(StatusCode::OK)
        } else if same_text(s, "Created") {
            Some(StatusCode::Created)
        } else if same_text(s, "Accepted") {
            Some(StatusCode::Accepted)
        } else if same_text(s, "Non-Authoritive Information") {
            Some(StatusCode::NonAuthoritiveInformation)
        } else if same_text(s, "No Content") {
            Some(StatusCode::NoContent)
        } else if same_text(s, "Reset Content") {
            Some(StatusCode::ResetContent)
        } else if same_text(s, "Partial Content") {
            Some(StatusCode::PartialContent)
        } else if same_text(s, "Multi Status") {
            Some(StatusCode::MultiStatus)
        } else if same_text(s, "Already Reported") {
            Some(StatusCode::AlreadyReported)
        } else if same_text(s, "IM Used") {
            Some(StatusCode::ImUsed)
        } else if same_text(s, "Multiple Choices") {
            Some(StatusCode::MultipleChoices)
        } else if same_text(s, "Moved Permanently") {
            Some(StatusCode::MovedPermanently)
        } else if same_text(s, "Found") {
            Some(StatusCode::Found)
        } else if same_text(s, "See Other") {
            Some(StatusCode::SeeOther)
        } else if same_text(s, "Not Method") {
            Some(StatusCode::NotMethod)
        } else if same_text(s, "Use Proxy") {
            Some(StatusCode::UseProxy)
        } else if same_text(s, "Reserved306") {
            Some(StatusCode::Reserved306)
        } else if same_text(s, "Temporary Redirect") {
            Some(StatusCode::TemporaryRedirect)
        } else if same_text(s, "Permanent Redirect") {
            Some(StatusCode::PermanentRedirect)
        } else if same_text(s, "Bad Request") {
            Some(StatusCode::BadRequest)
        } else if same_text(s, "Unauthorized") {
            Some(StatusCode::Unauthorized)
        } else if same_text(s, "Payment Required") {
            Some(StatusCode::PaymentRequired)
        } else if same_text(s, "Forbidden") {
            Some(StatusCode::Forbidden)
        } else if same_text(s, "Not Found") {
            Some(StatusCode::NotFound)
        } else if same_text(s, "Method Not Allowed") {
            Some(StatusCode::MethodNotAllowed)
        } else if same_text(s, "Not Acceptable") {
            Some(StatusCode::NotAcceptable)
        } else if same_text(s, "Proxy Authentication Required") {
            Some(StatusCode::ProxyAuthenticationRequired)
        } else if same_text(s, "Request Timeout") {
            Some(StatusCode::RequestTimeout)
        } else if same_text(s, "Conflict") {
            Some(StatusCode::Conflict)
        } else if same_text(s, "Gone") {
            Some(StatusCode::Gone)
        } else if same_text(s, "Length Required") {
            Some(StatusCode::LengthRequired)
        } else if same_text(s, "Precondition Failed") {
            Some(StatusCode::PreconditionFailed)
        } else if same_text(s, "Request Entity Too Large") {
            Some(StatusCode::RequestEntityTooLarge)
        } else if same_text(s, "Request URI Too Long") {
            Some(StatusCode::RequestUriTooLong)
        } else if same_text(s, "Unsupported Media Type") {
            Some(StatusCode::UnsupportedMediaType)
        } else if same_text(s, "Requested Range Not Satisfiable") {
            Some(StatusCode::RequestedRangeNotSatisfiable)
        } else if same_text(s, "Expectation Failed") {
            Some(StatusCode::ExpectationFailed)
        } else if same_text(s, "I'm A Teapot") {
            Some(StatusCode::ImATeapot)
        } else if same_text(s, "Misdirected Request") {
            Some(StatusCode::MisdirectedRequest)
        } else if same_text(s, "Unprocessable Entity") {
            Some(StatusCode::UnprocessableEntity)
        } else if same_text(s, "Locked") {
            Some(StatusCode::Locked)
        } else if same_text(s, "Failed Dependency") {
            Some(StatusCode::FailedDependency)
        } else if same_text(s, "Too Early") {
            Some(StatusCode::TooEarly)
        } else if same_text(s, "Upgrade Required") {
            Some(StatusCode::UpgradeRequired)
        } else if same_text(s, "Precondition Required") {
            Some(StatusCode::PreconditionRequired)
        } else if same_text(s, "Too Many Requests") {
            Some(StatusCode::TooManyRequests)
        } else if same_text(s, "Request Header Fields Too Large") {
            Some(StatusCode::RequestHeaderFieldsTooLarge)
        } else if same_text(s, "Unavailable For Legal Reasons") {
            Some(StatusCode::UnavailableForLegalReasons)
        } else if same_text(s, "Internal Server Error") {
            Some(StatusCode::InternalServerError)
        } else if same_text(s, "Not Implemented") {
            Some(StatusCode::NotImplemented)
        } else if same_text(s, "Bad Gateway") {
            Some(StatusCode::BadGateway)
        } else if same_text(s, "Service Unavailable") {
            Some(StatusCode::ServiceUnavailable)
        } else if same_text(s, "Gateway Timeout") {
            Some(StatusCode::GatewayTimeout)
        } else if same_text(s, "HTTP Version Not Supported") {
            Some(StatusCode::HttpVersionNotSupported)
        } else if same_text(s, "Variant Also Negotiates") {
            Some(StatusCode::VariantAlsoNegotiates)
        } else if same_text(s, "Insufficient Storage") {
            Some(StatusCode::InsufficientStorage)
        } else if same_text(s, "Loop Detected") {
            Some(StatusCode::LoopDetected)
        } else if same_text(s, "Not Extended") {
            Some(StatusCode::NotExtended)
        } else if same_text(s, "Network Authentication Required") {
            Some(StatusCode::NetworkAuthenticationRequired)
        } else {
            None
        }
    }
}

impl std::str::FromStr for StatusCode {
    type Err = String;

    /// The status whose reason phrase is `s`, as `StatusCode::from_str`
    /// gives it: this is what `str::parse` calls.
    fn from_str(s: &str) -> (r: Result<StatusCode, String>)
        ensures
            match r {
                Ok(status) => StatusCode::spec_from_str(s@) == Some(status),
                Err(message) => StatusCode::spec_from_str(s@) is None
                    && message@ == StatusCode::spec_invalid(s@),
            },
    {
        StatusCode::from_str(s)
    }
}


proof fn reveal_reason_phrases()
    ensures
        StatusCode::Unknown.reason_phrase().len() == 7,
        StatusCode::Unknown.reason_phrase()[0] == 'U',
        StatusCode::Unknown.reason_phrase()[3] == 'n',
        StatusCode::Unknown.reason_phrase()[5] == 'w',
        StatusCode::Continue.reason_phrase().len() == 8,
        StatusCode::Continue.reason_phrase()[0] == 'C',
        StatusCode::Continue.reason_phrase()[4] == 'i',
        StatusCode::Continue.reason_phrase()[6] == 'u',
        StatusCode::SwitchingProtocols.reason_phrase().len() == 19,
        StatusCode::SwitchingProtocols.reason_phrase()[0] == 'S',
        StatusCode::SwitchingProtocols.reason_phrase()[9] == ' ',
        StatusCode::SwitchingProtocols.reason_phrase()[17] == 'l',
        StatusCode::Processing.reason_phrase().len() == 10,
        StatusCode::Processing.reason_phrase()[0] == 'P',
        StatusCode::Processing.reason_phrase()[5] == 's',
        StatusCode::Processing.reason_phrase()[8] == 'n',
        StatusCode::EarlyHints.reason_phrase().len() == 11,
        StatusCode::EarlyHints.reason_phrase()[0] == 'E',
        StatusCode::EarlyHints.reason_phrase()[5] == ' ',
        StatusCode::EarlyHints.reason_phrase()[9] == 't',
        StatusCode::OK.reason_phrase().len() == 2,
        StatusCode::OK.reason_phrase()[0] == 'O',
        StatusCode::OK.reason_phrase()[1] == 'K',
        StatusCode::OK.reason_phrase()[0] == 'O',
        StatusCode::Created.reason_phrase().len() == 7,
        StatusCode::Created.reason_phrase()[0] == 'C',
        StatusCode::Created.reason_phrase()[3] == 'a',
        StatusCode::Created.reason_phrase()[5] == 'e',
        StatusCode::Accepted.reason_phrase().len() == 8,
        StatusCode::Accepted.reason_phrase()[0] == 'A',
        StatusCode::Accepted.reason_phrase()[4] == 'p',
        StatusCode::Accepted.reason_phrase()[6] == 'e',
        StatusCode::NonAuthoritiveInformation.reason_phrase().len() == 27,
        StatusCode::NonAuthoritiveInformation.reason_phrase()[0] == 'N',
        StatusCode::NonAuthoritiveInformation.reason_phrase()[13] == 'v',
        StatusCode::NonAuthoritiveInformation.reason_phrase()[25] == 'o',
        StatusCode::NoContent.reason_phrase().len() == 10,
        StatusCode::NoContent.reason_phrase()[0] == 'N',
        StatusCode::NoContent.reason_phrase()[5] == 'n',
        StatusCode::NoContent.reason_phrase()[8] == 'n',
        StatusCode::ResetContent.reason_phrase().len() == 13,
        StatusCode::ResetContent.reason_phrase()[0] == 'R',
        StatusCode::ResetContent.reason_phrase()[6] == 'C',
        StatusCode::ResetContent.reason_phrase()[11] == 'n',
        StatusCode::PartialContent.reason_phrase().len() == 15,
        StatusCode::PartialContent.reason_phrase()[0] == 'P',
        StatusCode::PartialContent.reason_phrase()[7] == ' ',
        StatusCode::PartialContent.reason_phrase()[13] == 'n',
        StatusCode::MultiStatus.reason_phrase().len() == 12,
        StatusCode::MultiStatus.reason_phrase()[0] == 'M',
        StatusCode::MultiStatus.reason_phrase()[6] == 'S',
        StatusCode::MultiStatus.reason_phrase()[10] == 'u',
        StatusCode::AlreadyReported.reason_phrase().len() == 16,
        StatusCode::AlreadyReported.reason_phrase()[0] == 'A',
        StatusCode::AlreadyReported.reason_phrase()[8] == 'R',
        StatusCode::AlreadyReported.reason_phrase()[14] == 'e',
        StatusCode::ImUsed.reason_phrase().len() == 7,
        StatusCode::ImUsed.reason_phrase()[0] == 'I',
        StatusCode::ImUsed.reason_phrase()[3] == 'U',
        StatusCode::ImUsed.reason_phrase()[5] == 'e',
        StatusCode::MultipleChoices.reason_phrase().len() == 16,
        StatusCode::MultipleChoices.reason_phrase()[0] == 'M',
        StatusCode::MultipleChoices.reason_phrase()[8] == ' ',
        StatusCode::MultipleChoices.reason_phrase()[14] == 'e',
        StatusCode::MovedPermanently.reason_phrase().len() == 17,
        StatusCode::MovedPermanently.reason_phrase()[0] == 'M',
        StatusCode::MovedPermanently.reason_phrase()[8] == 'r',
        StatusCode::MovedPermanently.reason_phrase()[15] == 'l',
        StatusCode::Found.reason_phrase().len() == 5,
        StatusCode::Found.reason_phrase()[0] == 'F',
        StatusCode::Found.reason_phrase()[2] == 'u',
        StatusCode::Found.reason_phrase()[3] == 'n',
        StatusCode::SeeOther.reason_phrase().len() == 9,
        StatusCode::SeeOther.reason_phrase()[0] == 'S',
        StatusCode::SeeOther.reason_phrase()[4] == 'O',
        StatusCode::SeeOther.reason_phrase()[7] == 'e',
        StatusCode::NotMethod.reason_phrase().len() == 10,
        StatusCode::NotMethod.reason_phrase()[0] == 'N',
        StatusCode::NotMethod.reason_phrase()[5] == 'e',
        StatusCode::NotMethod.reason_phrase()[8] == 'o',
        StatusCode::UseProxy.reason_phrase().len() == 9,
        StatusCode::UseProxy.reason_phrase()[0] == 'U',
        StatusCode::UseProxy.reason_phrase()[4] == 'P',
        StatusCode::UseProxy.reason_phrase()[7] == 'x',
        StatusCode::Reserved306.reason_phrase().len() == 11,
        StatusCode::Reserved306.reason_phrase()[0] == 'R',
        StatusCode::Reserved306.reason_phrase()[5] == 'v',
        StatusCode::Reserved306.reason_phrase()[9] == '0',
        StatusCode::TemporaryRedirect.reason_phrase().len() == 18,
        StatusCode::TemporaryRedirect.reason_phrase()[0] == 'T',
        StatusCode::TemporaryRedirect.reason_phrase()[9] == ' ',
        StatusCode::TemporaryRedirect.reason_phrase()[16] == 'c',
        StatusCode::PermanentRedirect.reason_phrase().len() == 18,
        StatusCode::PermanentRedirect.reason_phrase()[0] == 'P',
        StatusCode::PermanentRedirect.reason_phrase()[9] == ' ',
        StatusCode::PermanentRedirect.reason_phrase()[16] == 'c',
        StatusCode::BadRequest.reason_phrase().len() == 11,
        StatusCode::BadRequest.reason_phrase()[0] == 'B',
        StatusCode::BadRequest.reason_phrase()[5] == 'e',
        StatusCode::BadRequest.reason_phrase()[9] == 's',
        StatusCode::Unauthorized.reason_phrase().len() == 12,
        StatusCode::Unauthorized.reason_phrase()[0] == 'U',
        StatusCode::Unauthorized.reason_phrase()[6] == 'o',
        StatusCode::Unauthorized.reason_phrase()[10] == 'e',
        StatusCode::PaymentRequired.reason_phrase().len() == 16,
        StatusCode::PaymentRequired.reason_phrase()[0] == 'P',
        StatusCode::PaymentRequired.reason_phrase()[8] == 'R',
        StatusCode::PaymentRequired.reason_phrase()[14] == 'e',
        StatusCode::Forbidden.reason_phrase().len() == 9,
        StatusCode::Forbidden.reason_phrase()[0] == 'F',
        StatusCode::Forbidden.reason_phrase()[4] == 'i',
        StatusCode::Forbidden.reason_phrase()[7] == 'e',
        StatusCode::NotFound.reason_phrase().len() == 9,
        StatusCode::NotFound.reason_phrase()[0] == 'N',
        StatusCode::NotFound.reason_phrase()[4] == 'F',
        StatusCode::NotFound.reason_phrase()[7] == 'n',
        StatusCode::MethodNotAllowed.reason_phrase().len() == 18,
        StatusCode::MethodNotAllowed.reason_phrase()[0] == 'M',
        StatusCode::MethodNotAllowed.reason_phrase()[9] == 't',
        StatusCode::MethodNotAllowed.reason_phrase()[16] == 'e',
        StatusCode::NotAcceptable.reason_phrase().len() == 14,
        StatusCode::NotAcceptable.reason_phrase()[0] == 'N',
        StatusCode::NotAcceptable.reason_phrase()[7] == 'e',
        StatusCode::NotAcceptable.reason_phrase()[12] == 'l',
        StatusCode::ProxyAuthenticationRequired.reason_phrase().len() == 29,
        StatusCode::ProxyAuthenticationRequired.reason_phrase()[0] == 'P',
        StatusCode::ProxyAuthenticationRequired.reason_phrase()[14] == 'c',
        StatusCode::ProxyAuthenticationRequired.reason_phrase()[27] == 'e',
        StatusCode::RequestTimeout.reason_phrase().len() == 15,
        StatusCode::RequestTimeout.reason_phrase()[0] == 'R',
        StatusCode::RequestTimeout.reason_phrase()[7] == ' ',
        StatusCode::RequestTimeout.reason_phrase()[13] == 'u',
        StatusCode::Conflict.reason_phrase().len() == 8,
        StatusCode::Conflict.reason_phrase()[0] == 'C',
        StatusCode::Conflict.reason_phrase()[4] == 'l',
        StatusCode::Conflict.reason_phrase()[6] == 'c',
        StatusCode::Gone.reason_phrase().len() == 4,
        StatusCode::Gone.reason_phrase()[0] == 'G',
        StatusCode::Gone.reason_phrase()[2] == 'n',
        StatusCode::Gone.reason_phrase()[2] == 'n',
        StatusCode::LengthRequired.reason_phrase().len() == 15,
        StatusCode::LengthRequired.reason_phrase()[0] == 'L',
        StatusCode::LengthRequired.reason_phrase()[7] == 'R',
        StatusCode::LengthRequired.reason_phrase()[13] == 'e',
        StatusCode::PreconditionFailed.reason_phrase().len() == 19,
        StatusCode::PreconditionFailed.reason_phrase()[0] == 'P',
        StatusCode::PreconditionFailed.reason_phrase()[9] == 'i',
        StatusCode::PreconditionFailed.reason_phrase()[17] == 'e',
        StatusCode::RequestEntityTooLarge.reason_phrase().len() == 24,
        StatusCode::RequestEntityTooLarge.reason_phrase()[0] == 'R',
        StatusCode::RequestEntityTooLarge.reason_phrase()[12] == 't',
        StatusCode::RequestEntityTooLarge.reason_phrase()[22] == 'g',
        StatusCode::RequestUriTooLong.reason_phrase().len() == 20,
        StatusCode::RequestUriTooLong.reason_phrase()[0] == 'R',
        StatusCode::RequestUriTooLong.reason_phrase()[10] == 'I',
        StatusCode::RequestUriTooLong.reason_phrase()[18] == 'n',
        StatusCode::UnsupportedMediaType.reason_phrase().len() == 22,
        StatusCode::UnsupportedMediaType.reason_phrase()[0] == 'U',
        StatusCode::UnsupportedMediaType.reason_phrase()[11] == ' ',
        StatusCode::UnsupportedMediaType.reason_phrase()[20] == 'p',
        StatusCode::RequestedRangeNotSatisfiable.reason_phrase().len() == 31,
        StatusCode::RequestedRangeNotSatisfiable.reason_phrase()[0] == 'R',
        StatusCode::RequestedRangeNotSatisfiable.reason_phrase()[15] == ' ',
        StatusCode::RequestedRangeNotSatisfiable.reason_phrase()[29] == 'l',
        StatusCode::ExpectationFailed.reason_phrase().len() == 18,
        StatusCode::ExpectationFailed.reason_phrase()[0] == 'E',
        StatusCode::ExpectationFailed.reason_phrase()[9] == 'o',
        StatusCode::ExpectationFailed.reason_phrase()[16] == 'e',
        StatusCode::ImATeapot.reason_phrase().len() == 12,
        StatusCode::ImATeapot.reason_phrase()[0] == 'I',
        StatusCode::ImATeapot.reason_phrase()[6] == 'T',
        StatusCode::ImATeapot.reason_phrase()[10] == 'o',
        StatusCode::MisdirectedRequest.reason_phrase().len() == 19,
        StatusCode::MisdirectedRequest.reason_phrase()[0] == 'M',
        StatusCode::MisdirectedRequest.reason_phrase()[9] == 'e',
        StatusCode::MisdirectedRequest.reason_phrase()[17] == 's',
        StatusCode::UnprocessableEntity.reason_phrase().len() == 20,
        StatusCode::UnprocessableEntity.reason_phrase()[0] == 'U',
        StatusCode::UnprocessableEntity.reason_phrase()[10] == 'b',
        StatusCode::UnprocessableEntity.reason_phrase()[18] == 't',
        StatusCode::Locked.reason_phrase().len() == 6,
        StatusCode::Locked.reason_phrase()[0] == 'L',
        StatusCode::Locked.reason_phrase()[3] == 'k',
        StatusCode::Locked.reason_phrase()[4] == 'e',
        StatusCode::FailedDependency.reason_phrase().len() == 17,
        StatusCode::FailedDependency.reason_phrase()[0] == 'F',
        StatusCode::FailedDependency.reason_phrase()[8] == 'e',
        StatusCode::FailedDependency.reason_phrase()[15] == 'c',
        StatusCode::TooEarly.reason_phrase().len() == 9,
        StatusCode::TooEarly.reason_phrase()[0] == 'T',
        StatusCode::TooEarly.reason_phrase()[4] == 'E',
        StatusCode::TooEarly.reason_phrase()[7] == 'l',
        StatusCode::UpgradeRequired.reason_phrase().len() == 16,
        StatusCode::UpgradeRequired.reason_phrase()[0] == 'U',
        StatusCode::UpgradeRequired.reason_phrase()[8] == 'R',
        StatusCode::UpgradeRequired.reason_phrase()[14] == 'e',
        StatusCode::PreconditionRequired.reason_phrase().len() == 21,
        StatusCode::PreconditionRequired.reason_phrase()[0] == 'P',
        StatusCode::PreconditionRequired.reason_phrase()[10] == 'o',
        StatusCode::PreconditionRequired.reason_phrase()[19] == 'e',
        StatusCode::TooManyRequests.reason_phrase().len() == 17,
        StatusCode::TooManyRequests.reason_phrase()[0] == 'T',
        StatusCode::TooManyRequests.reason_phrase()[8] == ' ',
        StatusCode::TooManyRequests.reason_phrase()[15] == 't',
        StatusCode::RequestHeaderFieldsTooLarge.reason_phrase().len() == 31,
        StatusCode::RequestHeaderFieldsTooLarge.reason_phrase()[0] == 'R',
        StatusCode::RequestHeaderFieldsTooLarge.reason_phrase()[15] == 'F',
        StatusCode::RequestHeaderFieldsTooLarge.reason_phrase()[29] == 'g',
        StatusCode::UnavailableForLegalReasons.reason_phrase().len() == 29,
        StatusCode::UnavailableForLegalReasons.reason_phrase()[0] == 'U',
        StatusCode::UnavailableForLegalReasons.reason_phrase()[14] == 'r',
        StatusCode::UnavailableForLegalReasons.reason_phrase()[27] == 'n',
        StatusCode::InternalServerError.reason_phrase().len() == 21,
        StatusCode::InternalServerError.reason_phrase()[0] == 'I',
        StatusCode::InternalServerError.reason_phrase()[10] == 'e',
        StatusCode::InternalServerError.reason_phrase()[19] == 'o',
        StatusCode::NotImplemented.reason_phrase().len() == 15,
        StatusCode::NotImplemented.reason_phrase()[0] == 'N',
        StatusCode::NotImplemented.reason_phrase()[7] == 'l',
        StatusCode::NotImplemented.reason_phrase()[13] == 'e',
        StatusCode::BadGateway.reason_phrase().len() == 11,
        StatusCode::BadGateway.reason_phrase()[0] == 'B',
        StatusCode::BadGateway.reason_phrase()[5] == 'a',
        StatusCode::BadGateway.reason_phrase()[9] == 'a',
        StatusCode::ServiceUnavailable.reason_phrase().len() == 19,
        StatusCode::ServiceUnavailable.reason_phrase()[0] == 'S',
        StatusCode::ServiceUnavailable.reason_phrase()[9] == 'n',
        StatusCode::ServiceUnavailable.reason_phrase()[17] == 'l',
        StatusCode::GatewayTimeout.reason_phrase().len() == 15,
        StatusCode::GatewayTimeout.reason_phrase()[0] == 'G',
        StatusCode::GatewayTimeout.reason_phrase()[7] == ' ',
        StatusCode::GatewayTimeout.reason_phrase()[13] == 'u',
        StatusCode::HttpVersionNotSupported.reason_phrase().len() == 26,
        StatusCode::HttpVersionNotSupported.reason_phrase()[0] == 'H',
        StatusCode::HttpVersionNotSupported.reason_phrase()[13] == 'N',
        StatusCode::HttpVersionNotSupported.reason_phrase()[24] == 'e',
        StatusCode::VariantAlsoNegotiates.reason_phrase().len() == 23,
        StatusCode::VariantAlsoNegotiates.reason_phrase()[0] == 'V',
        StatusCode::VariantAlsoNegotiates.reason_phrase()[11] == 'o',
        StatusCode::VariantAlsoNegotiates.reason_phrase()[21] == 'e',
        StatusCode::InsufficientStorage.reason_phrase().len() == 20,
        StatusCode::InsufficientStorage.reason_phrase()[0] == 'I',
        StatusCode::InsufficientStorage.reason_phrase()[10] == 'n',
        StatusCode::InsufficientStorage.reason_phrase()[18] == 'g',
        StatusCode::LoopDetected.reason_phrase().len() == 13,
        StatusCode::LoopDetected.reason_phrase()[0] == 'L',
        StatusCode::LoopDetected.reason_phrase()[6] == 'e',
        StatusCode::LoopDetected.reason_phrase()[11] == 'e',
        StatusCode::NotExtended.reason_phrase().len() == 12,
        StatusCode::NotExtended.reason_phrase()[0] == 'N',
        StatusCode::NotExtended.reason_phrase()[6] == 't',
        StatusCode::NotExtended.reason_phrase()[10] == 'e',
        StatusCode::NetworkAuthenticationRequired.reason_phrase().len() == 31,
        StatusCode::NetworkAuthenticationRequired.reason_phrase()[0] == 'N',
        StatusCode::NetworkAuthenticationRequired.reason_phrase()[15] == 'i',
        StatusCode::NetworkAuthenticationRequired.reason_phrase()[29] == 'e',
{
    reveal_strlit("Unknown");
    reveal_strlit("Continue");
    reveal_strlit("Switching Protocols");
    reveal_strlit("Processing");
    reveal_strlit("Early Hints");
    reveal_strlit("OK");
    reveal_strlit("Created");
    reveal_strlit("Accepted");
    reveal_strlit("Non-Authoritive Information");
    reveal_strlit("No Content");
    reveal_strlit("Reset Content");
    reveal_strlit("Partial Content");
    reveal_strlit("Multi Status");
    reveal_strlit("Already Reported");
    reveal_strlit("IM Used");
    reveal_strlit("Multiple Choices");
    reveal_strlit("Moved Permanently");
    reveal_strlit("Found");
    reveal_strlit("See Other");
    reveal_strlit("Not Method");
    reveal_strlit("Use Proxy");
    reveal_strlit("Reserved306");
    reveal_strlit("Temporary Redirect");
    reveal_strlit("Permanent Redirect");
    reveal_strlit("Bad Request");
    reveal_strlit("Unauthorized");
    reveal_strlit("Payment Required");
    reveal_strlit("Forbidden");
    reveal_strlit("Not Found");
    reveal_strlit("Method Not Allowed");
    reveal_strlit("Not Acceptable");
    reveal_strlit("Proxy Authentication Required");
    reveal_strlit("Request Timeout");
    reveal_strlit("Conflict");
    reveal_strlit("Gone");
    reveal_strlit("Length Required");
    reveal_strlit("Precondition Failed");
    reveal_strlit("Request Entity Too Large");
    reveal_strlit("Request URI Too Long");
    reveal_strlit("Unsupported Media Type");
    reveal_strlit("Requested Range Not Satisfiable");
    reveal_strlit("Expectation Failed");
    reveal_strlit("I'm A Teapot");
    reveal_strlit("Misdirected Request");
    reveal_strlit("Unprocessable Entity");
    reveal_strlit("Locked");
    reveal_strlit("Failed Dependency");
    reveal_strlit("Too Early");
    reveal_strlit("Upgrade Required");
    reveal_strlit("Precondition Required");
    reveal_strlit("Too Many Requests");
    reveal_strlit("Request Header Fields Too Large");
    reveal_strlit("Unavailable For Legal Reasons");
    reveal_strlit("Internal Server Error");
    reveal_strlit("Not Implemented");
    reveal_strlit("Bad Gateway");
    reveal_strlit("Service Unavailable");
    reveal_strlit("Gateway Timeout");
    reveal_strlit("HTTP Version Not Supported");
    reveal_strlit("Variant Also Negotiates");
    reveal_strlit("Insufficient Storage");
    reveal_strlit("Loop Detected");
    reveal_strlit("Not Extended");
    reveal_strlit("Network Authentication Required");
}

/// No two statuses share a reason phrase.
pub proof fn lemma_reason_phrase_injective(a: StatusCode, b: StatusCode)
    requires
        a.reason_phrase() == b.reason_phrase(),
    ensures
        a == b,
{
    reveal_reason_phrases();
    let s = a.reason_phrase();
    let t = b.reason_phrase();
    assert(s.len() == t.len());
    assert(s[0] == t[0]);
    assert(s[s.len() as int / 2] == t[t.len() as int / 2]);
    assert(s[s.len() - 2] == t[t.len() - 2]);
}

/// Parsing the reason phrase of a status gives that status back, and the
/// status's text is that phrase: the two conversions are inverses.
pub proof fn lemma_status_round_trip(status: StatusCode)
    ensures
        StatusCode::spec_from_str(status.reason_phrase()) == Some(status),
{
    let found = choose|other: StatusCode| other.reason_phrase() == status.reason_phrase();
    lemma_reason_phrase_injective(found, status);
}

/// No two statuses share a number.
pub proof fn lemma_code_injective(a: StatusCode, b: StatusCode)
    requires
        a.spec_code() == b.spec_code(),
    ensures
        a == b,
{
}

} // verus!
