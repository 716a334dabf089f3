//! Error types of the engine and its sibling services.

use vstd::prelude::*;
use vstd::string::StringExecFns;

verus! {

/// Every failure the job engine can report.  Validation and security
/// errors are returned synchronously to the submitter; once a job runs,
/// adapter-level errors are captured in the job record instead.
#[derive(Debug)]
pub enum PdfEngineError {
    /// A request parameter was rejected before any work started.
    InvalidInput(String),
    /// An operating-system level failure, carried as its message.
    Io(String),
    /// A snapshot or payload could not be encoded or decoded.
    Serialization(String),
    /// The matching external tool is administratively disabled.
    ToolUnavailable(String),
    /// The external tool ran and reported failure.
    ToolFailed(String),
    /// No job record exists under the requested id.
    JobNotFound,
    /// The job was canceled before its adapter was invoked.
    JobCanceled,
    /// The operation kind is reserved and not yet implemented.
    Unsupported(String),
    /// A path failed validation.
    Security(String),
    /// The external tool exceeded the configured timeout.
    Timeout,
}

pub type PdfEngineResult<T> = Result<T, PdfEngineError>;

/// The rendered message of each error, mirroring how the errors
/// are displayed to callers.
pub open spec fn spec_engine_error_message(e: PdfEngineError) -> Seq<char> {
    match e {
        PdfEngineError::InvalidInput(m) => "invalid input: "@ + m@,
        PdfEngineError::Io(m) => "io error: "@ + m@,
        PdfEngineError::Serialization(m) => "serialization error: "@ + m@,
        PdfEngineError::ToolUnavailable(m) => "tool unavailable: "@ + m@,
        PdfEngineError::ToolFailed(m) => "tool failed: "@ + m@,
        PdfEngineError::JobNotFound => "job not found"@,
        PdfEngineError::JobCanceled => "job canceled"@,
        PdfEngineError::Unsupported(m) => "unsupported operation: "@ + m@,
        PdfEngineError::Security(m) => "security violation: "@ + m@,
        PdfEngineError::Timeout => "timeout"@,
    }
}

impl PdfEngineError {
    /// The human-readable cause stored into a failed job record.
    pub fn message(&self) -> (r: String)
        ensures
            r@ == spec_engine_error_message(*self),
    {
        match self {
            PdfEngineError::InvalidInput(m) => String::from_str("invalid input: ").concat(m.as_str()),
            PdfEngineError::Io(m) => String::from_str("io error: ").concat(m.as_str()),
            PdfEngineError::Serialization(m) => String::from_str("serialization error: ").concat(m.as_str()),
            PdfEngineError::ToolUnavailable(m) => String::from_str("tool unavailable: ").concat(m.as_str()),
            PdfEngineError::ToolFailed(m) => String::from_str("tool failed: ").concat(m.as_str()),
            PdfEngineError::JobNotFound => String::from_str("job not found"),
            PdfEngineError::JobCanceled => String::from_str("job canceled"),
            PdfEngineError::Unsupported(m) => String::from_str("unsupported operation: ").concat(m.as_str()),
            PdfEngineError::Security(m) => String::from_str("security violation: ").concat(m.as_str()),
            PdfEngineError::Timeout => String::from_str("timeout"),
        }
    }
}

/// Failures of the simulated background job queue.
#[derive(Debug)]
pub enum JobError {
    /// No status exists under the requested id.
    NotFound,
    /// An operating-system level failure, carried as its message.
    Io(String),
}

impl JobError {
    /// The rendered message of the error.
    pub fn message(&self) -> (r: String)
        ensures
            self matches JobError::NotFound ==> r@ == "job not found"@,
            self matches JobError::Io(m) ==> r@ == "io error: "@ + m@,
    {
        match self {
            JobError::NotFound => String::from_str("job not found"),
            JobError::Io(m) => String::from_str("io error: ").concat(m.as_str()),
        }
    }
}

/// Failures of the licensing subsystem's bookkeeping.
#[derive(Debug)]
pub enum LicensingError {
    /// A request parameter was rejected.
    InvalidInput(String),
    /// An operating-system level failure, carried as its message.
    Io(String),
    /// A payload could not be encoded or decoded.
    Serialization(String),
    /// No license is installed but the feature requires one.
    LicenseMissing,
    /// The installed license fails validation.
    LicenseInvalid(String),
    /// A metered feature went over its monthly limit.
    UsageLimitExceeded,
    /// The credit balance cannot cover the requested amount.
    InsufficientCredits,
    /// The feature demands an online validation.
    OfflineValidationRequired,
}

pub type LicensingResult<T> = Result<T, LicensingError>;

impl LicensingError {
    /// The rendered message of the error.
    pub fn message(&self) -> (r: String)
        ensures
            self matches LicensingError::InvalidInput(m) ==> r@ == "invalid input: "@ + m@,
            self matches LicensingError::Io(m) ==> r@ == "io error: "@ + m@,
            self matches LicensingError::Serialization(m) ==> r@ == "serialization error: "@ + m@,
            self matches LicensingError::LicenseMissing ==> r@ == "license not found"@,
            self matches LicensingError::LicenseInvalid(m) ==> r@ == "license invalid: "@ + m@,
            self matches LicensingError::UsageLimitExceeded ==> r@ == "usage limit exceeded"@,
            self matches LicensingError::InsufficientCredits ==> r@ == "insufficient credits"@,
            self matches LicensingError::OfflineValidationRequired ==> r@ == "offline and validation required"@,
    {
        match self {
            LicensingError::InvalidInput(m) => String::from_str("invalid input: ").concat(m.as_str()),
            LicensingError::Io(m) => String::from_str("io error: ").concat(m.as_str()),
            LicensingError::Serialization(m) => String::from_str("serialization error: ").concat(m.as_str()),
            LicensingError::LicenseMissing => String::from_str("license not found"),
            LicensingError::LicenseInvalid(m) => String::from_str("license invalid: ").concat(m.as_str()),
            LicensingError::UsageLimitExceeded => String::from_str("usage limit exceeded"),
            LicensingError::InsufficientCredits => String::from_str("insufficient credits"),
            LicensingError::OfflineValidationRequired => String::from_str("offline and validation required"),
        }
    }
}

} // verus!
