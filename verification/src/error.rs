//! The unified error type of the library.
//!
//! An [`Error`] pairs an [`ErrorKind`] (modelled after gRPC status codes) with
//! the text of the underlying error. The constructors ([`Error::not_found`],
//! [`Error::unavailable`], ...) build an error of the matching kind, and the
//! `from_*` functions say which kind each class of underlying error gets.

use vstd::prelude::*;
use vstd::string::StringExecFns;

verus! {

/// Error category, modelled after gRPC status codes.
#[derive(Clone, Copy, Debug, PartialEq, Eq, Hash, PartialOrd, Ord, Structural)]
pub enum ErrorKind {
    /// The operation was cancelled by the caller.
    Cancelled,
    /// Unknown error.
    Unknown,
    /// Client specified an invalid argument.
    InvalidArgument,
    /// Deadline expired before operation could complete.
    DeadlineExceeded,
    /// Requested entity was not found.
    NotFound,
    /// Attempt to create entity that already exists.
    AlreadyExists,
    /// Permission denied.
    PermissionDenied,
    /// No valid authentication credentials.
    Unauthenticated,
    /// Resource has been exhausted.
    ResourceExhausted,
    /// Invalid state.
    FailedPrecondition,
    /// Operation aborted.
    Aborted,
    /// Operation attempted past the valid range.
    OutOfRange,
    /// Not implemented.
    Unimplemented,
    /// Internal error.
    Internal,
    /// Service unavailable.
    Unavailable,
    /// Unrecoverable data loss or corruption.
    DataLoss,
    /// Operation must not be used.
    DoNotUse,
}

/// The gRPC status code of each kind.
pub open spec fn kind_code(k: ErrorKind) -> int {
    match k {
        ErrorKind::Cancelled => 1,
        ErrorKind::Unknown => 2,
        ErrorKind::InvalidArgument => 3,
        ErrorKind::DeadlineExceeded => 4,
        ErrorKind::NotFound => 5,
        ErrorKind::AlreadyExists => 6,
        ErrorKind::PermissionDenied => 7,
        ErrorKind::Unauthenticated => 16,
        ErrorKind::ResourceExhausted => 8,
        ErrorKind::FailedPrecondition => 9,
        ErrorKind::Aborted => 10,
        ErrorKind::OutOfRange => 11,
        ErrorKind::Unimplemented => 12,
        ErrorKind::Internal => 13,
        ErrorKind::Unavailable => 14,
        ErrorKind::DataLoss => 15,
        ErrorKind::DoNotUse => -1,
    }
}

/// The description shown for each kind.
pub open spec fn kind_message(k: ErrorKind) -> Seq<char> {
    match k {
        ErrorKind::Cancelled => "The operation was cancelled by the caller"@,
        ErrorKind::Unknown => "Unknown error"@,
        ErrorKind::InvalidArgument => "Client specified an invalid argument"@,
        ErrorKind::DeadlineExceeded => "Deadline expired before operation could complete"@,
        ErrorKind::NotFound => "Requested entity was not found"@,
        ErrorKind::AlreadyExists => "Attempt to create entity that already exists"@,
        ErrorKind::PermissionDenied => "Permission denied"@,
        ErrorKind::Unauthenticated => "No valid authentication credentials"@,
        ErrorKind::ResourceExhausted => "Resource has been exhausted"@,
        ErrorKind::FailedPrecondition => "Invalid state"@,
        ErrorKind::Aborted => "Operation aborted"@,
        ErrorKind::OutOfRange => "Operation attempted past the valid range"@,
        ErrorKind::Unimplemented => "Not implemented"@,
        ErrorKind::Internal => "Internal error"@,
        ErrorKind::Unavailable => "Service unavailable"@,
        ErrorKind::DataLoss => "Unrecoverable data loss or corruption"@,
        ErrorKind::DoNotUse => "Operation must not be used"@,
    }
}

impl ErrorKind {
    /// The gRPC status code of this kind.
    pub fn code(&self) -> (c: i32)
        ensures
            c as int == kind_code(*self),
    {
        match self {
            ErrorKind::Cancelled => 1,
            ErrorKind::Unknown => 2,
            ErrorKind::InvalidArgument => 3,
            ErrorKind::DeadlineExceeded => 4,
            ErrorKind::NotFound => 5,
            ErrorKind::AlreadyExists => 6,
            ErrorKind::PermissionDenied => 7,
            ErrorKind::Unauthenticated => 16,
            ErrorKind::ResourceExhausted => 8,
            ErrorKind::FailedPrecondition => 9,
            ErrorKind::Aborted => 10,
            ErrorKind::OutOfRange => 11,
            ErrorKind::Unimplemented => 12,
            ErrorKind::Internal => 13,
            ErrorKind::Unavailable => 14,
            ErrorKind::DataLoss => 15,
            ErrorKind::DoNotUse => -1,
        }
    }

    /// The description of this kind, as it is displayed.
    pub fn message(&self) -> (s: &'static str)
        ensures
            s@ == kind_message(*self),
    {
        match self {
            ErrorKind::Cancelled => "The operation was cancelled by the caller",
            ErrorKind::Unknown => "Unknown error",
            ErrorKind::InvalidArgument => "Client specified an invalid argument",
            ErrorKind::DeadlineExceeded => "Deadline expired before operation could complete",
            ErrorKind::NotFound => "Requested entity was not found",
            ErrorKind::AlreadyExists => "Attempt to create entity that already exists",
            ErrorKind::PermissionDenied => "Permission denied",
            ErrorKind::Unauthenticated => "No valid authentication credentials",
            ErrorKind::ResourceExhausted => "Resource has been exhausted",
            ErrorKind::FailedPrecondition => "Invalid state",
            ErrorKind::Aborted => "Operation aborted",
            ErrorKind::OutOfRange => "Operation attempted past the valid range",
            ErrorKind::Unimplemented => "Not implemented",
            ErrorKind::Internal => "Internal error",
            ErrorKind::Unavailable => "Service unavailable",
            ErrorKind::DataLoss => "Unrecoverable data loss or corruption",
            ErrorKind::DoNotUse => "Operation must not be used",
        }
    }

    /// The description of this kind, as a `String`.
    pub fn to_string(&self) -> (s: String)
        ensures
            s@ == kind_message(*self),
    {
        String::from_str(self.message())
    }
}

/// Distinct kinds have distinct gRPC status codes.
pub proof fn lemma_kind_codes_distinct(a: ErrorKind, b: ErrorKind)
    ensures
        kind_code(a) == kind_code(b) ==> a == b,
{
}

/// The unified error type for all library operations: a kind and the text of
/// the underlying error.
#[derive(Clone, Debug)]
pub struct Error {
    /// The error category.
    pub kind: ErrorKind,
    /// The text of the underlying error.
    pub error: String,
}

/// The text of an error when it is displayed: `"<kind> { <error> }"`.
pub open spec fn error_text(kind: ErrorKind, error: Seq<char>) -> Seq<char> {
    kind_message(kind) + " { "@ + error + " }"@
}

impl Error {
    /// Creates a new error with the given kind and underlying error text.
    pub fn new(kind: ErrorKind, error: &str) -> (e: Error)
        ensures
            e.kind == kind,
            e.error@ == error@,
    {
        Error { kind, error: String::from_str(error) }
    }

    /// Creates an `Aborted` error.
    pub fn aborted(error: &str) -> (e: Error)
        ensures
            e.kind == ErrorKind::Aborted,
            e.error@ == error@,
    {
        Error { kind: ErrorKind::Aborted, error: String::from_str(error) }
    }

    /// Creates an `AlreadyExists` error.
    pub fn already_exists(error: &str) -> (e: Error)
        ensures
            e.kind == ErrorKind::AlreadyExists,
            e.error@ == error@,
    {
        Error { kind: ErrorKind::AlreadyExists, error: String::from_str(error) }
    }

    /// Creates a `Cancelled` error.
    pub fn cancelled(error: &str) -> (e: Error)
        ensures
            e.kind == ErrorKind::Cancelled,
            e.error@ == error@,
    {
        Error { kind: ErrorKind::Cancelled, error: String::from_str(error) }
    }

    /// Creates a `DataLoss` error.
    pub fn data_loss(error: &str) -> (e: Error)
        ensures
            e.kind == ErrorKind::DataLoss,
            e.error@ == error@,
    {
        Error { kind: ErrorKind::DataLoss, error: String::from_str(error) }
    }

    /// Creates a `DeadlineExceeded` error.
    pub fn deadline_exceeded(error: &str) -> (e: Error)
        ensures
            e.kind == ErrorKind::DeadlineExceeded,
            e.error@ == error@,
    {
        Error { kind: ErrorKind::DeadlineExceeded, error: String::from_str(error) }
    }

    /// Creates a `DoNotUse` error.
    pub fn do_not_use(error: &str) -> (e: Error)
        ensures
            e.kind == ErrorKind::DoNotUse,
            e.error@ == error@,
    {
        Error { kind: ErrorKind::DoNotUse, error: String::from_str(error) }
    }

    /// Creates a `FailedPrecondition` error.
    pub fn failed_precondition(error: &str) -> (e: Error)
        ensures
            e.kind == ErrorKind::FailedPrecondition,
            e.error@ == error@,
    {
        Error { kind: ErrorKind::FailedPrecondition, error: String::from_str(error) }
    }

    /// Creates an `Internal` error.
    pub fn internal(error: &str) -> (e: Error)
        ensures
            e.kind == ErrorKind::Internal,
            e.error@ == error@,
    {
        Error { kind: ErrorKind::Internal, error: String::from_str(error) }
    }

    /// Creates an `InvalidArgument` error.
    pub fn invalid_argument(error: &str) -> (e: Error)
        ensures
            e.kind == ErrorKind::InvalidArgument,
            e.error@ == error@,
    {
        Error { kind: ErrorKind::InvalidArgument, error: String::from_str(error) }
    }

    /// Creates a `NotFound` error.
    pub fn not_found(error: &str) -> (e: Error)
        ensures
            e.kind == ErrorKind::NotFound,
            e.error@ == error@,
    {
        Error { kind: ErrorKind::NotFound, error: String::from_str(error) }
    }

    /// Creates an `OutOfRange` error.
    pub fn out_of_range(error: &str) -> (e: Error)
        ensures
            e.kind == ErrorKind::OutOfRange,
            e.error@ == error@,
    {
        Error { kind: ErrorKind::OutOfRange, error: String::from_str(error) }
    }

    /// Creates a `PermissionDenied` error.
    pub fn permission_denied(error: &str) -> (e: Error)
        ensures
            e.kind == ErrorKind::PermissionDenied,
            e.error@ == error@,
    {
        Error { kind: ErrorKind::PermissionDenied, error: String::from_str(error) }
    }

    /// Creates a `ResourceExhausted` error.
    pub fn resource_exhausted(error: &str) -> (e: Error)
        ensures
            e.kind == ErrorKind::ResourceExhausted,
            e.error@ == error@,
    {
        Error { kind: ErrorKind::ResourceExhausted, error: String::from_str(error) }
    }

    /// Creates an `Unauthenticated` error.
    pub fn unauthenticated(error: &str) -> (e: Error)
        ensures
            e.kind == ErrorKind::Unauthenticated,
            e.error@ == error@,
    {
        Error { kind: ErrorKind::Unauthenticated, error: String::from_str(error) }
    }

    /// Creates an `Unavailable` error.
    pub fn unavailable(error: &str) -> (e: Error)
        ensures
            e.kind == ErrorKind::Unavailable,
            e.error@ == error@,
    {
        Error { kind: ErrorKind::Unavailable, error: String::from_str(error) }
    }

    /// Creates an `Unimplemented` error.
    pub fn unimplemented(error: &str) -> (e: Error)
        ensures
            e.kind == ErrorKind::Unimplemented,
            e.error@ == error@,
    {
        Error { kind: ErrorKind::Unimplemented, error: String::from_str(error) }
    }

    /// Creates an `Unknown` error.
    pub fn unknown(error: &str) -> (e: Error)
        ensures
            e.kind == ErrorKind::Unknown,
            e.error@ == error@,
    {
        Error { kind: ErrorKind::Unknown, error: String::from_str(error) }
    }

    /// The displayed text of the error: `"<kind description> { <error> }"`.
    pub fn to_string(&self) -> (s: String)
        ensures
            s@ == error_text(self.kind, self.error@),
    {
        let mut s = String::from_str(self.kind.message());
        s.append(" { ");
        s.append(self.error.as_str());
        s.append(" }");
        s
    }
}

/// The kinds of I/O failure that the error mapping tells apart; `Other`
/// stands for every other kind that std reports.
#[derive(Clone, Copy, Debug, PartialEq, Eq, Structural)]
pub enum IoErrorKind {
    NotFound,
    PermissionDenied,
    AddrInUse,
    AlreadyExists,
    AddrNotAvailable,
    ConnectionRefused,
    NotConnected,
    BrokenPipe,
    ConnectionReset,
    ConnectionAborted,
    Interrupted,
    WouldBlock,
    InvalidData,
    UnexpectedEof,
    TimedOut,
    InvalidInput,
    WriteZero,
    Other,
}

/// The kind that an I/O failure of kind `k` becomes.
pub open spec fn io_error_kind(k: IoErrorKind) -> ErrorKind {
    match k {
        IoErrorKind::NotFound => ErrorKind::NotFound,
        IoErrorKind::PermissionDenied => ErrorKind::PermissionDenied,
        IoErrorKind::AddrInUse | IoErrorKind::AlreadyExists => ErrorKind::AlreadyExists,
        IoErrorKind::AddrNotAvailable | IoErrorKind::ConnectionRefused
        | IoErrorKind::NotConnected => ErrorKind::Unavailable,
        IoErrorKind::BrokenPipe | IoErrorKind::ConnectionReset
        | IoErrorKind::ConnectionAborted => ErrorKind::Aborted,
        IoErrorKind::Interrupted | IoErrorKind::WouldBlock => ErrorKind::Cancelled,
        IoErrorKind::InvalidData | IoErrorKind::UnexpectedEof => ErrorKind::FailedPrecondition,
        IoErrorKind::TimedOut => ErrorKind::DeadlineExceeded,
        IoErrorKind::InvalidInput => ErrorKind::InvalidArgument,
        IoErrorKind::WriteZero => ErrorKind::ResourceExhausted,
        IoErrorKind::Other => ErrorKind::Unknown,
    }
}

/// The error that an `http::Error` carries inside.
#[derive(Clone, Copy, Debug, PartialEq, Eq, Structural)]
pub enum HttpErrorCause {
    InvalidHeaderName,
    InvalidHeaderValue,
    InvalidMethod,
    InvalidUri,
    InvalidUriParts,
    InvalidStatusCode,
    Other,
}

/// The kind that an `http::Error` with the given inner error becomes.
pub open spec fn http_error_kind(c: HttpErrorCause) -> ErrorKind {
    match c {
        HttpErrorCause::InvalidHeaderName | HttpErrorCause::InvalidHeaderValue
        | HttpErrorCause::InvalidMethod | HttpErrorCause::InvalidUri
        | HttpErrorCause::InvalidUriParts => ErrorKind::InvalidArgument,
        HttpErrorCause::InvalidStatusCode => ErrorKind::FailedPrecondition,
        HttpErrorCause::Other => ErrorKind::Unknown,
    }
}

/// What the predicates of a `hyper::Error` answer for one error.
#[derive(Clone, Copy, Debug, PartialEq, Eq)]
pub struct HyperErrorClass {
    pub is_parse: bool,
    pub is_parse_status: bool,
    pub is_user: bool,
    pub is_canceled: bool,
    pub is_incomplete_message: bool,
    pub is_body_write_aborted: bool,
    pub is_closed: bool,
    pub is_timeout: bool,
}

/// The kind that a `hyper::Error` with the given answers becomes: the first
/// matching test, in the order below, decides.
pub open spec fn hyper_error_kind(c: HyperErrorClass) -> ErrorKind {
    if c.is_parse || c.is_parse_status || c.is_user {
        ErrorKind::Internal
    } else if c.is_canceled {
        ErrorKind::Cancelled
    } else if c.is_incomplete_message {
        ErrorKind::DataLoss
    } else if c.is_body_write_aborted || c.is_closed {
        ErrorKind::Aborted
    } else if c.is_timeout {
        ErrorKind::DeadlineExceeded
    } else {
        ErrorKind::Unknown
    }
}

/// The variants of an OAuth flow failure that the error mapping names;
/// `Other` stands for all the rest.
#[derive(Clone, Copy, Debug, PartialEq, Eq, Structural)]
pub enum OAuthErrorKind {
    AuthCodeBadUri,
    AuthCodeNotFound,
    AuthCodeListenerRead,
    AuthCodeListenerParse,
    AuthCodeStdinRead,
    AuthCodeListenerBind,
    AuthCodeListenerTerminated,
    AuthCodeListenerWrite,
    Recv,
    ExchangeCode,
    Other,
}

/// The kind that an OAuth failure becomes.
pub open spec fn oauth_error_kind(k: OAuthErrorKind) -> ErrorKind {
    match k {
        OAuthErrorKind::AuthCodeBadUri | OAuthErrorKind::AuthCodeNotFound
        | OAuthErrorKind::AuthCodeListenerRead
        | OAuthErrorKind::AuthCodeListenerParse => ErrorKind::Unavailable,
        OAuthErrorKind::AuthCodeStdinRead | OAuthErrorKind::AuthCodeListenerBind
        | OAuthErrorKind::AuthCodeListenerTerminated | OAuthErrorKind::AuthCodeListenerWrite
        | OAuthErrorKind::Recv | OAuthErrorKind::ExchangeCode => ErrorKind::Internal,
        OAuthErrorKind::Other => ErrorKind::FailedPrecondition,
    }
}

/// The other error types that convert into [`Error`] with a fixed kind.
#[derive(Clone, Copy, Debug, PartialEq, Eq, Structural)]
pub enum ErrorSource {
    /// `base64::DecodeError`
    Base64Decode,
    /// `time::error::Parse`
    TimeParse,
    /// `quick_xml::Error`
    Xml,
    /// `serde_json::Error`
    Json,
    /// `std::string::FromUtf8Error`
    FromUtf8,
    /// `std::str::Utf8Error`
    Utf8,
    /// `http::header::InvalidHeaderValue`
    InvalidHeaderValue,
    /// `http::uri::InvalidUri`
    InvalidUri,
    /// `url::ParseError`
    UrlParse,
    /// `std::num::ParseIntError`
    ParseInt,
    /// `std::num::TryFromIntError`
    TryFromInt,
    /// `protobuf::Error`
    Protobuf,
    /// `protobuf_json_mapping::ParseError`
    ProtobufJson,
    /// `http::header::ToStrError`
    HeaderToStr,
    /// `tokio::sync::oneshot::error::RecvError`
    Recv,
    /// `tokio::sync::mpsc::error::SendError`
    Send,
    /// `tokio::sync::AcquireError`
    Acquire,
    /// `tokio::sync::TryAcquireError`
    TryAcquire,
}

/// The kind that an error of each source type becomes.
pub open spec fn source_error_kind(s: ErrorSource) -> ErrorKind {
    match s {
        ErrorSource::InvalidHeaderValue | ErrorSource::InvalidUri => ErrorKind::InvalidArgument,
        ErrorSource::Recv | ErrorSource::Send => ErrorKind::Internal,
        ErrorSource::Acquire | ErrorSource::TryAcquire => ErrorKind::ResourceExhausted,
        _ => ErrorKind::FailedPrecondition,
    }
}

impl IoErrorKind {
    /// The kind that an I/O failure of this kind becomes.
    pub fn error_kind(&self) -> (k: ErrorKind)
        ensures
            k == io_error_kind(*self),
    {
        match self {
            IoErrorKind::NotFound => ErrorKind::NotFound,
            IoErrorKind::PermissionDenied => ErrorKind::PermissionDenied,
            IoErrorKind::AddrInUse | IoErrorKind::AlreadyExists => ErrorKind::AlreadyExists,
            IoErrorKind::AddrNotAvailable | IoErrorKind::ConnectionRefused
            | IoErrorKind::NotConnected => ErrorKind::Unavailable,
            IoErrorKind::BrokenPipe | IoErrorKind::ConnectionReset
            | IoErrorKind::ConnectionAborted => ErrorKind::Aborted,
            IoErrorKind::Interrupted | IoErrorKind::WouldBlock => ErrorKind::Cancelled,
            IoErrorKind::InvalidData | IoErrorKind::UnexpectedEof => ErrorKind::FailedPrecondition,
            IoErrorKind::TimedOut => ErrorKind::DeadlineExceeded,
            IoErrorKind::InvalidInput => ErrorKind::InvalidArgument,
            IoErrorKind::WriteZero => ErrorKind::ResourceExhausted,
            IoErrorKind::Other => ErrorKind::Unknown,
        }
    }
}

impl Error {
    /// The error for an I/O failure of kind `kind` with text `error`.
    pub fn from_io(kind: IoErrorKind, error: &str) -> (e: Error)
        ensures
            e.kind == io_error_kind(kind),
            e.error@ == error@,
    {
        Error::new(kind.error_kind(), error)
    }

    /// The error for an `http::Error` whose inner error is `cause`.
    pub fn from_http(cause: HttpErrorCause, error: &str) -> (e: Error)
        ensures
            e.kind == http_error_kind(cause),
            e.error@ == error@,
    {
        let kind = match cause {
            HttpErrorCause::InvalidHeaderName | HttpErrorCause::InvalidHeaderValue
            | HttpErrorCause::InvalidMethod | HttpErrorCause::InvalidUri
            | HttpErrorCause::InvalidUriParts => ErrorKind::InvalidArgument,
            HttpErrorCause::InvalidStatusCode => ErrorKind::FailedPrecondition,
            HttpErrorCause::Other => ErrorKind::Unknown,
        };
        Error::new(kind, error)
    }

    /// The error for a `hyper::Error` whose predicates answer `class`.
    pub fn from_hyper(class: HyperErrorClass, error: &str) -> (e: Error)
        ensures
            e.kind == hyper_error_kind(class),
            e.error@ == error@,
    {
        if class.is_parse || class.is_parse_status || class.is_user {
            return Error::new(ErrorKind::Internal, error);
        }
        if class.is_canceled {
            return Error::new(ErrorKind::Cancelled, error);
        }
        if class.is_incomplete_message {
            return Error::new(ErrorKind::DataLoss, error);
        }
        if class.is_body_write_aborted || class.is_closed {
            return Error::new(ErrorKind::Aborted, error);
        }
        if class.is_timeout {
            return Error::new(ErrorKind::DeadlineExceeded, error);
        }
        Error::new(ErrorKind::Unknown, error)
    }

    /// The error for a failure of the legacy hyper client; `is_connect` is
    /// whether it happened while connecting.
    pub fn from_hyper_client(is_connect: bool, error: &str) -> (e: Error)
        ensures
            e.kind == (if is_connect { ErrorKind::Unavailable } else { ErrorKind::Unknown }),
            e.error@ == error@,
    {
        if is_connect {
            return Error::new(ErrorKind::Unavailable, error);
        }
        Error::new(ErrorKind::Unknown, error)
    }

    /// The error for a failure of the OAuth flow.
    pub fn from_oauth(kind: OAuthErrorKind, error: &str) -> (e: Error)
        ensures
            e.kind == oauth_error_kind(kind),
            e.error@ == error@,
    {
        match kind {
            OAuthErrorKind::AuthCodeBadUri | OAuthErrorKind::AuthCodeNotFound
            | OAuthErrorKind::AuthCodeListenerRead
            | OAuthErrorKind::AuthCodeListenerParse => Error::unavailable(error),
            OAuthErrorKind::AuthCodeStdinRead | OAuthErrorKind::AuthCodeListenerBind
            | OAuthErrorKind::AuthCodeListenerTerminated | OAuthErrorKind::AuthCodeListenerWrite
            | OAuthErrorKind::Recv | OAuthErrorKind::ExchangeCode => Error::internal(error),
            OAuthErrorKind::Other => Error::failed_precondition(error),
        }
    }

    /// The error for an error of the given source type.
    pub fn from_source(source: ErrorSource, error: &str) -> (e: Error)
        ensures
            e.kind == source_error_kind(source),
            e.error@ == error@,
    {
        match source {
            ErrorSource::InvalidHeaderValue | ErrorSource::InvalidUri => Error::invalid_argument(
                error,
            ),
            ErrorSource::Recv | ErrorSource::Send => Error::internal(error),
            ErrorSource::Acquire | ErrorSource::TryAcquire => Error::resource_exhausted(error),
            _ => Error::failed_precondition(error),
        }
    }
}

/// The error kind of each class of outside error, as the original's
/// conversions fix it, and the gRPC status code of each kind.
pub proof fn lemma_error_kind_tables()
    ensures
        kind_code(ErrorKind::Cancelled) == 1,
        kind_code(ErrorKind::Unknown) == 2,
        kind_code(ErrorKind::InvalidArgument) == 3,
        kind_code(ErrorKind::DeadlineExceeded) == 4,
        kind_code(ErrorKind::NotFound) == 5,
        kind_code(ErrorKind::AlreadyExists) == 6,
        kind_code(ErrorKind::PermissionDenied) == 7,
        kind_code(ErrorKind::Unauthenticated) == 16,
        kind_code(ErrorKind::ResourceExhausted) == 8,
        kind_code(ErrorKind::FailedPrecondition) == 9,
        kind_code(ErrorKind::Aborted) == 10,
        kind_code(ErrorKind::OutOfRange) == 11,
        kind_code(ErrorKind::Unimplemented) == 12,
        kind_code(ErrorKind::Internal) == 13,
        kind_code(ErrorKind::Unavailable) == 14,
        kind_code(ErrorKind::DataLoss) == 15,
        kind_code(ErrorKind::DoNotUse) == -1,
        io_error_kind(IoErrorKind::NotFound) == ErrorKind::NotFound,
        io_error_kind(IoErrorKind::PermissionDenied) == ErrorKind::PermissionDenied,
        io_error_kind(IoErrorKind::AddrInUse) == ErrorKind::AlreadyExists,
        io_error_kind(IoErrorKind::AlreadyExists) == ErrorKind::AlreadyExists,
        io_error_kind(IoErrorKind::AddrNotAvailable) == ErrorKind::Unavailable,
        io_error_kind(IoErrorKind::ConnectionRefused) == ErrorKind::Unavailable,
        io_error_kind(IoErrorKind::NotConnected) == ErrorKind::Unavailable,
        io_error_kind(IoErrorKind::BrokenPipe) == ErrorKind::Aborted,
        io_error_kind(IoErrorKind::ConnectionReset) == ErrorKind::Aborted,
        io_error_kind(IoErrorKind::ConnectionAborted) == ErrorKind::Aborted,
        io_error_kind(IoErrorKind::Interrupted) == ErrorKind::Cancelled,
        io_error_kind(IoErrorKind::WouldBlock) == ErrorKind::Cancelled,
        io_error_kind(IoErrorKind::InvalidData) == ErrorKind::FailedPrecondition,
        io_error_kind(IoErrorKind::UnexpectedEof) == ErrorKind::FailedPrecondition,
        io_error_kind(IoErrorKind::TimedOut) == ErrorKind::DeadlineExceeded,
        io_error_kind(IoErrorKind::InvalidInput) == ErrorKind::InvalidArgument,
        io_error_kind(IoErrorKind::WriteZero) == ErrorKind::ResourceExhausted,
        io_error_kind(IoErrorKind::Other) == ErrorKind::Unknown,
        http_error_kind(HttpErrorCause::InvalidHeaderName) == ErrorKind::InvalidArgument,
        http_error_kind(HttpErrorCause::InvalidHeaderValue) == ErrorKind::InvalidArgument,
        http_error_kind(HttpErrorCause::InvalidMethod) == ErrorKind::InvalidArgument,
        http_error_kind(HttpErrorCause::InvalidUri) == ErrorKind::InvalidArgument,
        http_error_kind(HttpErrorCause::InvalidUriParts) == ErrorKind::InvalidArgument,
        http_error_kind(HttpErrorCause::InvalidStatusCode) == ErrorKind::FailedPrecondition,
        http_error_kind(HttpErrorCause::Other) == ErrorKind::Unknown,
        oauth_error_kind(OAuthErrorKind::AuthCodeBadUri) == ErrorKind::Unavailable,
        oauth_error_kind(OAuthErrorKind::AuthCodeNotFound) == ErrorKind::Unavailable,
        oauth_error_kind(OAuthErrorKind::AuthCodeListenerRead) == ErrorKind::Unavailable,
        oauth_error_kind(OAuthErrorKind::AuthCodeListenerParse) == ErrorKind::Unavailable,
        oauth_error_kind(OAuthErrorKind::AuthCodeStdinRead) == ErrorKind::Internal,
        oauth_error_kind(OAuthErrorKind::AuthCodeListenerBind) == ErrorKind::Internal,
        oauth_error_kind(OAuthErrorKind::AuthCodeListenerTerminated) == ErrorKind::Internal,
        oauth_error_kind(OAuthErrorKind::AuthCodeListenerWrite) == ErrorKind::Internal,
        oauth_error_kind(OAuthErrorKind::Recv) == ErrorKind::Internal,
        oauth_error_kind(OAuthErrorKind::ExchangeCode) == ErrorKind::Internal,
        oauth_error_kind(OAuthErrorKind::Other) == ErrorKind::FailedPrecondition,
        source_error_kind(ErrorSource::Base64Decode) == ErrorKind::FailedPrecondition,
        source_error_kind(ErrorSource::TimeParse) == ErrorKind::FailedPrecondition,
        source_error_kind(ErrorSource::Xml) == ErrorKind::FailedPrecondition,
        source_error_kind(ErrorSource::Json) == ErrorKind::FailedPrecondition,
        source_error_kind(ErrorSource::FromUtf8) == ErrorKind::FailedPrecondition,
        source_error_kind(ErrorSource::Utf8) == ErrorKind::FailedPrecondition,
        source_error_kind(ErrorSource::InvalidHeaderValue) == ErrorKind::InvalidArgument,
        source_error_kind(ErrorSource::InvalidUri) == ErrorKind::InvalidArgument,
        source_error_kind(ErrorSource::UrlParse) == ErrorKind::FailedPrecondition,
        source_error_kind(ErrorSource::ParseInt) == ErrorKind::FailedPrecondition,
        source_error_kind(ErrorSource::TryFromInt) == ErrorKind::FailedPrecondition,
        source_error_kind(ErrorSource::Protobuf) == ErrorKind::FailedPrecondition,
        source_error_kind(ErrorSource::ProtobufJson) == ErrorKind::FailedPrecondition,
        source_error_kind(ErrorSource::HeaderToStr) == ErrorKind::FailedPrecondition,
        source_error_kind(ErrorSource::Recv) == ErrorKind::Internal,
        source_error_kind(ErrorSource::Send) == ErrorKind::Internal,
        source_error_kind(ErrorSource::Acquire) == ErrorKind::ResourceExhausted,
        source_error_kind(ErrorSource::TryAcquire) == ErrorKind::ResourceExhausted,
{
}

/// The description of every error kind, as it is displayed.
pub proof fn lemma_kind_message_table(v: ErrorKind)
    ensures
        v is Cancelled ==> kind_message(v) == "The operation was cancelled by the caller"@,
        v is Unknown ==> kind_message(v) == "Unknown error"@,
        v is InvalidArgument ==> kind_message(v) == "Client specified an invalid argument"@,
        v is DeadlineExceeded ==> kind_message(v) == "Deadline expired before operation could complete"@,
        v is NotFound ==> kind_message(v) == "Requested entity was not found"@,
        v is AlreadyExists ==> kind_message(v) == "Attempt to create entity that already exists"@,
        v is PermissionDenied ==> kind_message(v) == "Permission denied"@,
        v is Unauthenticated ==> kind_message(v) == "No valid authentication credentials"@,
        v is ResourceExhausted ==> kind_message(v) == "Resource has been exhausted"@,
        v is FailedPrecondition ==> kind_message(v) == "Invalid state"@,
        v is Aborted ==> kind_message(v) == "Operation aborted"@,
        v is OutOfRange ==> kind_message(v) == "Operation attempted past the valid range"@,
        v is Unimplemented ==> kind_message(v) == "Not implemented"@,
        v is Internal ==> kind_message(v) == "Internal error"@,
        v is Unavailable ==> kind_message(v) == "Service unavailable"@,
        v is DataLoss ==> kind_message(v) == "Unrecoverable data loss or corruption"@,
        v is DoNotUse ==> kind_message(v) == "Operation must not be used"@,
{
}

/// An error is displayed as its kind's description, then its text in
/// braces: `<kind> { <text> }`.
pub proof fn lemma_error_text_layout(k: ErrorKind, e: Seq<char>)
    ensures
        error_text(k, e) == kind_message(k) + seq![' ', '{', ' '] + e + seq![' ', '}'],
{
    reveal_strlit(" { ");
    reveal_strlit(" }");
    assert(" { "@ =~= seq![' ', '{', ' ']);
    assert(" }"@ =~= seq![' ', '}']);
}

} // verus!
