// Error types shared by the whole library.
use vstd::prelude::*;

use crate::text::push_char;

verus! {

/// Application-wide error: a machine-readable code, a message, optional details.
#[derive(Debug, Clone)]
pub struct AppError {
    pub code: String,
    pub message: String,
    pub details: Option<String>,
}

/// The characters of an optional string.
pub open spec fn opt_view(o: Option<String>) -> Option<Seq<char>> {
    match o {
        Some(s) => Some(s@),
        None => None,
    }
}

/// Copies an optional string.
pub fn clone_opt(o: &Option<String>) -> (r: Option<String>)
    ensures
        opt_view(r) == opt_view(*o),
{
    match o {
        Some(s) => Some(s.clone()),
        None => None,
    }
}

impl AppError {
    /// The error holds exactly these code, message and details.
    pub open spec fn is(self, code: Seq<char>, message: Seq<char>, details: Option<Seq<char>>) -> bool {
        &&& self.code@ == code
        &&& self.message@ == message
        &&& opt_view(self.details) == details
    }

    pub fn new(code: &str, message: &str) -> (r: Self)
        ensures
            r.is(code@, message@, None),
    {
        AppError { code: code.to_string(), message: message.to_string(), details: None }
    }

    pub fn with_details(code: &str, message: &str, details: &str) -> (r: Self)
        ensures
            r.is(code@, message@, Some(details@)),
    {
        AppError {
            code: code.to_string(),
            message: message.to_string(),
            details: Some(details.to_string()),
        }
    }

    /// The displayed form `[code] message`.
    pub open spec fn display_view(self) -> Seq<char> {
        seq!['['] + self.code@ + seq![']', ' '] + self.message@
    }

    /// The displayed form `[code] message`.
    pub fn to_string(&self) -> (r: String)
        ensures
            r@ == self.display_view(),
    {
        let mut s = String::new();
        push_char(&mut s, '[');
        s.append(self.code.as_str());
        push_char(&mut s, ']');
        push_char(&mut s, ' ');
        s.append(self.message.as_str());
        assert(s@ =~= self.display_view());
        s
    }

    /// The application error an ADB error is reported as.
    pub fn from_adb(err: AdbError) -> (r: Self)
        ensures
            r.is(adb_error_code(err), adb_error_message(err), adb_error_details(err)),
    {
        match err {
            AdbError::NotFound => AppError::new(
                "ADB_NOT_FOUND",
                "ADB executable not found. Please ensure Android platform-tools are installed.",
            ),
            AdbError::ExecutionFailed(msg) => AppError::with_details(
                "ADB_EXECUTION_FAILED",
                "Failed to execute ADB command",
                msg.as_str(),
            ),
            AdbError::ParseError(msg) => AppError::with_details(
                "ADB_PARSE_ERROR",
                "Failed to parse ADB output",
                msg.as_str(),
            ),
            AdbError::DeviceNotFound(id) => AppError::with_details(
                "DEVICE_NOT_FOUND",
                "Device not found or disconnected",
                id.as_str(),
            ),
            AdbError::Unauthorized(id) => AppError::with_details(
                "DEVICE_UNAUTHORIZED",
                "Device requires USB debugging authorization",
                id.as_str(),
            ),
            AdbError::Timeout => AppError::new("ADB_TIMEOUT", "ADB command timed out"),
        }
    }
}

/// ADB-specific errors.
#[derive(Debug, Clone)]
pub enum AdbError {
    NotFound,
    ExecutionFailed(String),
    ParseError(String),
    DeviceNotFound(String),
    Unauthorized(String),
    Timeout,
}

pub open spec fn adb_error_code(err: AdbError) -> Seq<char> {
    match err {
        AdbError::NotFound => "ADB_NOT_FOUND"@,
        AdbError::ExecutionFailed(_) => "ADB_EXECUTION_FAILED"@,
        AdbError::ParseError(_) => "ADB_PARSE_ERROR"@,
        AdbError::DeviceNotFound(_) => "DEVICE_NOT_FOUND"@,
        AdbError::Unauthorized(_) => "DEVICE_UNAUTHORIZED"@,
        AdbError::Timeout => "ADB_TIMEOUT"@,
    }
}

pub open spec fn adb_error_message(err: AdbError) -> Seq<char> {
    match err {
        AdbError::NotFound => "ADB executable not found. Please ensure Android platform-tools are installed."@,
        AdbError::ExecutionFailed(_) => "Failed to execute ADB command"@,
        AdbError::ParseError(_) => "Failed to parse ADB output"@,
        AdbError::DeviceNotFound(_) => "Device not found or disconnected"@,
        AdbError::Unauthorized(_) => "Device requires USB debugging authorization"@,
        AdbError::Timeout => "ADB command timed out"@,
    }
}

/// The details carried over: the message or device id of the variants that have one.
pub open spec fn adb_error_details(err: AdbError) -> Option<Seq<char>> {
    match err {
        AdbError::NotFound => None,
        AdbError::ExecutionFailed(m) => Some(m@),
        AdbError::ParseError(m) => Some(m@),
        AdbError::DeviceNotFound(id) => Some(id@),
        AdbError::Unauthorized(id) => Some(id@),
        AdbError::Timeout => None,
    }
}

impl From<AdbError> for AppError {
    fn from(err: AdbError) -> (r: AppError)
        ensures
            r.is(adb_error_code(err), adb_error_message(err), adb_error_details(err)),
    {
        AppError::from_adb(err)
    }
}

impl vstd::std_specs::convert::FromSpecImpl<AdbError> for AppError {
    open spec fn obeys_from_spec() -> bool {
        false
    }

    open spec fn from_spec(v: AdbError) -> AppError {
        arbitrary()
    }
}

} // verus!
