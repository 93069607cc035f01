//! The error taxonomy shared across the binary boundary, and the richer
//! error type used inside Rust code.

use vstd::prelude::*;
use vstd::string::*;
use crate::types::CubeMelonLanguage;

verus! {

/// Result codes of every boundary operation: zero is success, negative values
/// are failures and positive values are informational.
#[derive(Debug, Clone, Copy, PartialEq, Eq, Structural)]
pub enum CubeMelonPluginErrorCode {
    Success,
    Unknown,
    InvalidParameter,
    NotSupported,
    MemoryAllocation,
    NullPointer,
    OutOfBounds,
    InvalidState,
    PermissionDenied,
    ResourceBusy,
    ResourceExhausted,
    InitializationFailed,
    AlreadyInitialized,
    NotInitialized,
    VersionMismatch,
    Incompatible,
    PluginNotFound,
    InterfaceNotSupported,
    NotImplemented,
    PluginLoadFailed,
    PluginUnloadFailed,
    ConnectionFailed,
    Timeout,
    IO,
    Network,
    Cancelled,
    Parse,
    Validation,
    Encoding,
    DataCorrupted,
    FormatUnsupported,
    LockFailed,
    Deadlock,
    State,
    ThreadPanic,
    FileNotFound,
    FileExists,
    DirectoryNotEmpty,
    DiskFull,
    ReservedStart,
    ReservedEnd,
}

/// The signed integer that stands for a code on the binary boundary.
pub open spec fn error_code_value(e: CubeMelonPluginErrorCode) -> int {
    match e {
        CubeMelonPluginErrorCode::Success => 0,
        CubeMelonPluginErrorCode::Unknown => -1,
        CubeMelonPluginErrorCode::InvalidParameter => -2,
        CubeMelonPluginErrorCode::NotSupported => -3,
        CubeMelonPluginErrorCode::MemoryAllocation => -4,
        CubeMelonPluginErrorCode::NullPointer => -5,
        CubeMelonPluginErrorCode::OutOfBounds => -6,
        CubeMelonPluginErrorCode::InvalidState => -7,
        CubeMelonPluginErrorCode::PermissionDenied => -8,
        CubeMelonPluginErrorCode::ResourceBusy => -9,
        CubeMelonPluginErrorCode::ResourceExhausted => -10,
        CubeMelonPluginErrorCode::InitializationFailed => -20,
        CubeMelonPluginErrorCode::AlreadyInitialized => -21,
        CubeMelonPluginErrorCode::NotInitialized => -22,
        CubeMelonPluginErrorCode::VersionMismatch => -23,
        CubeMelonPluginErrorCode::Incompatible => -24,
        CubeMelonPluginErrorCode::PluginNotFound => -30,
        CubeMelonPluginErrorCode::InterfaceNotSupported => -31,
        CubeMelonPluginErrorCode::NotImplemented => -32,
        CubeMelonPluginErrorCode::PluginLoadFailed => -33,
        CubeMelonPluginErrorCode::PluginUnloadFailed => -34,
        CubeMelonPluginErrorCode::ConnectionFailed => -40,
        CubeMelonPluginErrorCode::Timeout => -41,
        CubeMelonPluginErrorCode::IO => -42,
        CubeMelonPluginErrorCode::Network => -43,
        CubeMelonPluginErrorCode::Cancelled => -44,
        CubeMelonPluginErrorCode::Parse => -50,
        CubeMelonPluginErrorCode::Validation => -51,
        CubeMelonPluginErrorCode::Encoding => -52,
        CubeMelonPluginErrorCode::DataCorrupted => -53,
        CubeMelonPluginErrorCode::FormatUnsupported => -54,
        CubeMelonPluginErrorCode::LockFailed => -60,
        CubeMelonPluginErrorCode::Deadlock => -61,
        CubeMelonPluginErrorCode::State => -62,
        CubeMelonPluginErrorCode::ThreadPanic => -63,
        CubeMelonPluginErrorCode::FileNotFound => -70,
        CubeMelonPluginErrorCode::FileExists => -71,
        CubeMelonPluginErrorCode::DirectoryNotEmpty => -72,
        CubeMelonPluginErrorCode::DiskFull => -73,
        CubeMelonPluginErrorCode::ReservedStart => -100,
        CubeMelonPluginErrorCode::ReservedEnd => -999,
    }
}

/// The English description of a code.
pub open spec fn error_message(e: CubeMelonPluginErrorCode) -> Seq<char> {
    match e {
        CubeMelonPluginErrorCode::Success => "Success"@,
        CubeMelonPluginErrorCode::Unknown => "Unknown error"@,
        CubeMelonPluginErrorCode::InvalidParameter => "Invalid parameter"@,
        CubeMelonPluginErrorCode::NotSupported => "Unsupported operation"@,
        CubeMelonPluginErrorCode::MemoryAllocation => "Memory allocation failure"@,
        CubeMelonPluginErrorCode::NullPointer => "NULL pointer error"@,
        CubeMelonPluginErrorCode::OutOfBounds => "Out of bounds access"@,
        CubeMelonPluginErrorCode::InvalidState => "Invalid state"@,
        CubeMelonPluginErrorCode::PermissionDenied => "Access permission denied"@,
        CubeMelonPluginErrorCode::ResourceBusy => "Resource is busy"@,
        CubeMelonPluginErrorCode::ResourceExhausted => "Resource exhausted"@,
        CubeMelonPluginErrorCode::InitializationFailed => "Initialization failed"@,
        CubeMelonPluginErrorCode::AlreadyInitialized => "Already initialized"@,
        CubeMelonPluginErrorCode::NotInitialized => "Not initialized"@,
        CubeMelonPluginErrorCode::VersionMismatch => "Version mismatch"@,
        CubeMelonPluginErrorCode::Incompatible => "Incompatible"@,
        CubeMelonPluginErrorCode::PluginNotFound => "Plugin not found"@,
        CubeMelonPluginErrorCode::InterfaceNotSupported => "Interface not supported"@,
        CubeMelonPluginErrorCode::NotImplemented => "Not implemented"@,
        CubeMelonPluginErrorCode::PluginLoadFailed => "Plugin load failed"@,
        CubeMelonPluginErrorCode::PluginUnloadFailed => "Plugin unload failed"@,
        CubeMelonPluginErrorCode::ConnectionFailed => "Connection failed"@,
        CubeMelonPluginErrorCode::Timeout => "Timeout"@,
        CubeMelonPluginErrorCode::IO => "I/O error"@,
        CubeMelonPluginErrorCode::Network => "Network error"@,
        CubeMelonPluginErrorCode::Cancelled => "Operation cancelled"@,
        CubeMelonPluginErrorCode::Parse => "Parse error"@,
        CubeMelonPluginErrorCode::Validation => "Validation error"@,
        CubeMelonPluginErrorCode::Encoding => "Encoding error"@,
        CubeMelonPluginErrorCode::DataCorrupted => "Data corrupted"@,
        CubeMelonPluginErrorCode::FormatUnsupported => "Unsupported format"@,
        CubeMelonPluginErrorCode::LockFailed => "Lock acquisition failed"@,
        CubeMelonPluginErrorCode::Deadlock => "Deadlock detected"@,
        CubeMelonPluginErrorCode::State => "State management error"@,
        CubeMelonPluginErrorCode::ThreadPanic => "Thread panic"@,
        CubeMelonPluginErrorCode::FileNotFound => "File not found"@,
        CubeMelonPluginErrorCode::FileExists => "File already exists"@,
        CubeMelonPluginErrorCode::DirectoryNotEmpty => "Directory not empty"@,
        CubeMelonPluginErrorCode::DiskFull => "Disk full"@,
        CubeMelonPluginErrorCode::ReservedStart => "Reserved error code"@,
        CubeMelonPluginErrorCode::ReservedEnd => "Reserved error code"@,
    }
}

impl CubeMelonPluginErrorCode {
    /// The signed integer of this code.
    pub fn code(self) -> (r: i32)
        ensures
            r == error_code_value(self),
    {
        match self {
            CubeMelonPluginErrorCode::Success => 0,
            CubeMelonPluginErrorCode::Unknown => -1,
            CubeMelonPluginErrorCode::InvalidParameter => -2,
            CubeMelonPluginErrorCode::NotSupported => -3,
            CubeMelonPluginErrorCode::MemoryAllocation => -4,
            CubeMelonPluginErrorCode::NullPointer => -5,
            CubeMelonPluginErrorCode::OutOfBounds => -6,
            CubeMelonPluginErrorCode::InvalidState => -7,
            CubeMelonPluginErrorCode::PermissionDenied => -8,
            CubeMelonPluginErrorCode::ResourceBusy => -9,
            CubeMelonPluginErrorCode::ResourceExhausted => -10,
            CubeMelonPluginErrorCode::InitializationFailed => -20,
            CubeMelonPluginErrorCode::AlreadyInitialized => -21,
            CubeMelonPluginErrorCode::NotInitialized => -22,
            CubeMelonPluginErrorCode::VersionMismatch => -23,
            CubeMelonPluginErrorCode::Incompatible => -24,
            CubeMelonPluginErrorCode::PluginNotFound => -30,
            CubeMelonPluginErrorCode::InterfaceNotSupported => -31,
            CubeMelonPluginErrorCode::NotImplemented => -32,
            CubeMelonPluginErrorCode::PluginLoadFailed => -33,
            CubeMelonPluginErrorCode::PluginUnloadFailed => -34,
            CubeMelonPluginErrorCode::ConnectionFailed => -40,
            CubeMelonPluginErrorCode::Timeout => -41,
            CubeMelonPluginErrorCode::IO => -42,
            CubeMelonPluginErrorCode::Network => -43,
            CubeMelonPluginErrorCode::Cancelled => -44,
            CubeMelonPluginErrorCode::Parse => -50,
            CubeMelonPluginErrorCode::Validation => -51,
            CubeMelonPluginErrorCode::Encoding => -52,
            CubeMelonPluginErrorCode::DataCorrupted => -53,
            CubeMelonPluginErrorCode::FormatUnsupported => -54,
            CubeMelonPluginErrorCode::LockFailed => -60,
            CubeMelonPluginErrorCode::Deadlock => -61,
            CubeMelonPluginErrorCode::State => -62,
            CubeMelonPluginErrorCode::ThreadPanic => -63,
            CubeMelonPluginErrorCode::FileNotFound => -70,
            CubeMelonPluginErrorCode::FileExists => -71,
            CubeMelonPluginErrorCode::DirectoryNotEmpty => -72,
            CubeMelonPluginErrorCode::DiskFull => -73,
            CubeMelonPluginErrorCode::ReservedStart => -100,
            CubeMelonPluginErrorCode::ReservedEnd => -999,
        }
    }

    /// The code a signed integer stands for; unknown values have none.
    pub fn from_code(value: i32) -> (r: Option<CubeMelonPluginErrorCode>)
        ensures
            r matches Some(e) ==> error_code_value(e) == value,
            r is None ==> forall|e: CubeMelonPluginErrorCode| error_code_value(e) != value,
    {
        match value {
            0 => Some(CubeMelonPluginErrorCode::Success),
            -1 => Some(CubeMelonPluginErrorCode::Unknown),
            -2 => Some(CubeMelonPluginErrorCode::InvalidParameter),
            -3 => Some(CubeMelonPluginErrorCode::NotSupported),
            -4 => Some(CubeMelonPluginErrorCode::MemoryAllocation),
            -5 => Some(CubeMelonPluginErrorCode::NullPointer),
            -6 => Some(CubeMelonPluginErrorCode::OutOfBounds),
            -7 => Some(CubeMelonPluginErrorCode::InvalidState),
            -8 => Some(CubeMelonPluginErrorCode::PermissionDenied),
            -9 => Some(CubeMelonPluginErrorCode::ResourceBusy),
            -10 => Some(CubeMelonPluginErrorCode::ResourceExhausted),
            -20 => Some(CubeMelonPluginErrorCode::InitializationFailed),
            -21 => Some(CubeMelonPluginErrorCode::AlreadyInitialized),
            -22 => Some(CubeMelonPluginErrorCode::NotInitialized),
            -23 => Some(CubeMelonPluginErrorCode::VersionMismatch),
            -24 => Some(CubeMelonPluginErrorCode::Incompatible),
            -30 => Some(CubeMelonPluginErrorCode::PluginNotFound),
            -31 => Some(CubeMelonPluginErrorCode::InterfaceNotSupported),
            -32 => Some(CubeMelonPluginErrorCode::NotImplemented),
            -33 => Some(CubeMelonPluginErrorCode::PluginLoadFailed),
            -34 => Some(CubeMelonPluginErrorCode::PluginUnloadFailed),
            -40 => Some(CubeMelonPluginErrorCode::ConnectionFailed),
            -41 => Some(CubeMelonPluginErrorCode::Timeout),
            -42 => Some(CubeMelonPluginErrorCode::IO),
            -43 => Some(CubeMelonPluginErrorCode::Network),
            -44 => Some(CubeMelonPluginErrorCode::Cancelled),
            -50 => Some(CubeMelonPluginErrorCode::Parse),
            -51 => Some(CubeMelonPluginErrorCode::Validation),
            -52 => Some(CubeMelonPluginErrorCode::Encoding),
            -53 => Some(CubeMelonPluginErrorCode::DataCorrupted),
            -54 => Some(CubeMelonPluginErrorCode::FormatUnsupported),
            -60 => Some(CubeMelonPluginErrorCode::LockFailed),
            -61 => Some(CubeMelonPluginErrorCode::Deadlock),
            -62 => Some(CubeMelonPluginErrorCode::State),
            -63 => Some(CubeMelonPluginErrorCode::ThreadPanic),
            -70 => Some(CubeMelonPluginErrorCode::FileNotFound),
            -71 => Some(CubeMelonPluginErrorCode::FileExists),
            -72 => Some(CubeMelonPluginErrorCode::DirectoryNotEmpty),
            -73 => Some(CubeMelonPluginErrorCode::DiskFull),
            -100 => Some(CubeMelonPluginErrorCode::ReservedStart),
            -999 => Some(CubeMelonPluginErrorCode::ReservedEnd),
            _ => None,
        }
    }

    pub fn is_success(self) -> (r: bool)
        ensures
            r == (self == CubeMelonPluginErrorCode::Success),
    {
        match self {
            CubeMelonPluginErrorCode::Success => true,
            _ => false,
        }
    }

    pub fn is_error(self) -> (r: bool)
        ensures
            r == (error_code_value(self) < 0),
    {
        self.code() < 0
    }

    pub fn is_info(self) -> (r: bool)
        ensures
            r == (error_code_value(self) > 0),
    {
        self.code() > 0
    }

    /// A human-readable description. Only English text exists, so every
    /// language gets it.
    pub fn to_message(self, _language: CubeMelonLanguage) -> (r: &'static str)
        ensures
            r@ == error_message(self),
    {
        match self {
            CubeMelonPluginErrorCode::Success => "Success",
            CubeMelonPluginErrorCode::Unknown => "Unknown error",
            CubeMelonPluginErrorCode::InvalidParameter => "Invalid parameter",
            CubeMelonPluginErrorCode::NotSupported => "Unsupported operation",
            CubeMelonPluginErrorCode::MemoryAllocation => "Memory allocation failure",
            CubeMelonPluginErrorCode::NullPointer => "NULL pointer error",
            CubeMelonPluginErrorCode::OutOfBounds => "Out of bounds access",
            CubeMelonPluginErrorCode::InvalidState => "Invalid state",
            CubeMelonPluginErrorCode::PermissionDenied => "Access permission denied",
            CubeMelonPluginErrorCode::ResourceBusy => "Resource is busy",
            CubeMelonPluginErrorCode::ResourceExhausted => "Resource exhausted",
            CubeMelonPluginErrorCode::InitializationFailed => "Initialization failed",
            CubeMelonPluginErrorCode::AlreadyInitialized => "Already initialized",
            CubeMelonPluginErrorCode::NotInitialized => "Not initialized",
            CubeMelonPluginErrorCode::VersionMismatch => "Version mismatch",
            CubeMelonPluginErrorCode::Incompatible => "Incompatible",
            CubeMelonPluginErrorCode::PluginNotFound => "Plugin not found",
            CubeMelonPluginErrorCode::InterfaceNotSupported => "Interface not supported",
            CubeMelonPluginErrorCode::NotImplemented => "Not implemented",
            CubeMelonPluginErrorCode::PluginLoadFailed => "Plugin load failed",
            CubeMelonPluginErrorCode::PluginUnloadFailed => "Plugin unload failed",
            CubeMelonPluginErrorCode::ConnectionFailed => "Connection failed",
            CubeMelonPluginErrorCode::Timeout => "Timeout",
            CubeMelonPluginErrorCode::IO => "I/O error",
            CubeMelonPluginErrorCode::Network => "Network error",
            CubeMelonPluginErrorCode::Cancelled => "Operation cancelled",
            CubeMelonPluginErrorCode::Parse => "Parse error",
            CubeMelonPluginErrorCode::Validation => "Validation error",
            CubeMelonPluginErrorCode::Encoding => "Encoding error",
            CubeMelonPluginErrorCode::DataCorrupted => "Data corrupted",
            CubeMelonPluginErrorCode::FormatUnsupported => "Unsupported format",
            CubeMelonPluginErrorCode::LockFailed => "Lock acquisition failed",
            CubeMelonPluginErrorCode::Deadlock => "Deadlock detected",
            CubeMelonPluginErrorCode::State => "State management error",
            CubeMelonPluginErrorCode::ThreadPanic => "Thread panic",
            CubeMelonPluginErrorCode::FileNotFound => "File not found",
            CubeMelonPluginErrorCode::FileExists => "File already exists",
            CubeMelonPluginErrorCode::DirectoryNotEmpty => "Directory not empty",
            CubeMelonPluginErrorCode::DiskFull => "Disk full",
            CubeMelonPluginErrorCode::ReservedStart => "Reserved error code",
            CubeMelonPluginErrorCode::ReservedEnd => "Reserved error code",
        }
    }
}

/// The description of a code in a language.
pub fn plugin_error_code_to_string(code: CubeMelonPluginErrorCode, language: CubeMelonLanguage) -> (r: &'static str)
    ensures
        r@ == error_message(code),
{
    code.to_message(language)
}

#[verifier::external_type_specification]
#[verifier::external_body]
pub struct ExIoError(std::io::Error);

#[verifier::external_type_specification]
#[verifier::external_body]
pub struct ExUtf8Error(core::str::Utf8Error);

/// Errors as seen by Rust code on either side of the boundary.
#[derive(Debug)]
pub enum CubeMelonError {
    Plugin { code: CubeMelonPluginErrorCode, message: String },
    Io(std::io::Error),
    Utf8(core::str::Utf8Error),
    NullPointer,
    Custom(String),
}

/// The boundary code an error maps to.
pub open spec fn error_to_code(e: CubeMelonError) -> CubeMelonPluginErrorCode {
    match e {
        CubeMelonError::Plugin { code, .. } => code,
        CubeMelonError::Io(_) => CubeMelonPluginErrorCode::IO,
        CubeMelonError::Utf8(_) => CubeMelonPluginErrorCode::Encoding,
        CubeMelonError::NullPointer => CubeMelonPluginErrorCode::NullPointer,
        CubeMelonError::Custom(_) => CubeMelonPluginErrorCode::Unknown,
    }
}

/// A plugin error carrying the standard English description of `code`.
pub fn plugin_error(code: CubeMelonPluginErrorCode) -> (r: CubeMelonError)
    ensures
        r matches CubeMelonError::Plugin { code: c, message } && c == code && message@
            == error_message(code),
{
    let text = code.to_message(CubeMelonLanguage::EN_US);
    CubeMelonError::Plugin { code, message: String::from_str(text) }
}

/// A plugin error carrying a caller-chosen message.
pub fn plugin_error_with_message(code: CubeMelonPluginErrorCode, message: &str) -> (r: CubeMelonError)
    ensures
        r matches CubeMelonError::Plugin { code: c, message: m } && c == code && m@ == message@,
{
    CubeMelonError::Plugin { code, message: String::from_str(message) }
}

impl From<CubeMelonPluginErrorCode> for CubeMelonError {
    fn from(code: CubeMelonPluginErrorCode) -> (r: CubeMelonError)
        ensures
            r matches CubeMelonError::Plugin { code: c, message } && c == code && message@
                == error_message(code),
    {
        plugin_error(code)
    }
}

impl vstd::std_specs::convert::FromSpecImpl<CubeMelonPluginErrorCode> for CubeMelonError {
    open spec fn obeys_from_spec() -> bool {
        false
    }

    open spec fn from_spec(v: CubeMelonPluginErrorCode) -> CubeMelonError {
        CubeMelonError::NullPointer
    }
}

impl From<std::io::Error> for CubeMelonError {
    fn from(err: std::io::Error) -> (r: CubeMelonError)
        ensures
            r == CubeMelonError::Io(err),
    {
        CubeMelonError::Io(err)
    }
}

impl vstd::std_specs::convert::FromSpecImpl<std::io::Error> for CubeMelonError {
    open spec fn obeys_from_spec() -> bool {
        true
    }

    open spec fn from_spec(v: std::io::Error) -> CubeMelonError {
        CubeMelonError::Io(v)
    }
}

impl From<core::str::Utf8Error> for CubeMelonError {
    fn from(err: core::str::Utf8Error) -> (r: CubeMelonError)
        ensures
            r == CubeMelonError::Utf8(err),
    {
        CubeMelonError::Utf8(err)
    }
}

impl vstd::std_specs::convert::FromSpecImpl<core::str::Utf8Error> for CubeMelonError {
    open spec fn obeys_from_spec() -> bool {
        true
    }

    open spec fn from_spec(v: core::str::Utf8Error) -> CubeMelonError {
        CubeMelonError::Utf8(v)
    }
}

impl From<CubeMelonError> for CubeMelonPluginErrorCode {
    fn from(err: CubeMelonError) -> (r: CubeMelonPluginErrorCode)
        ensures
            r == error_to_code(err),
    {
        match err {
            CubeMelonError::Plugin { code, .. } => code,
            CubeMelonError::Io(_) => CubeMelonPluginErrorCode::IO,
            CubeMelonError::Utf8(_) => CubeMelonPluginErrorCode::Encoding,
            CubeMelonError::NullPointer => CubeMelonPluginErrorCode::NullPointer,
            CubeMelonError::Custom(_) => CubeMelonPluginErrorCode::Unknown,
        }
    }
}

impl vstd::std_specs::convert::FromSpecImpl<CubeMelonError> for CubeMelonPluginErrorCode {
    open spec fn obeys_from_spec() -> bool {
        true
    }

    open spec fn from_spec(v: CubeMelonError) -> CubeMelonPluginErrorCode {
        error_to_code(v)
    }
}

} // verus!
