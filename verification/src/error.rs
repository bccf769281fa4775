//! The application's error type, its severity classes and its messages.

use vstd::prelude::*;
use vstd::string::*;
use crate::error_recovery::RecoveryStrategy;
use crate::text::{decimal, push_decimal};

verus! {

/// How serious an error is for a batch of encodings.
#[derive(Debug, Clone, Copy, PartialEq, Eq, Structural)]
pub enum ErrorSeverity {
    /// Processing cannot go on.
    Critical,
    /// Only the current file is affected.
    FileLevel,
    /// An alternative way of doing the work exists.
    Recoverable,
    /// Worth telling the user; work goes on.
    Warning,
}

/// Errors of the encoder. Paths are held as their text.
#[derive(Debug, Clone)]
pub enum AppError {
    ScanError(String),
    EncodingError(String),
    TuiError(String),
    IoError(String),
    ConfigError(String),
    HardwareAccelerationError(String),
    FFmpegError(String),
    FileProcessingError { file: String, error: String },
    BatchProcessingError { completed: usize, failed: usize },
    UserCancellation,
    SystemResourceError(String),
}

/// The result type of the encoder's fallible operations.
pub type Result<T> = std::result::Result<T, AppError>;

/// The severity class of each kind of error.
pub open spec fn severity_of(e: AppError) -> ErrorSeverity {
    match e {
        AppError::ConfigError(_) => ErrorSeverity::Critical,
        AppError::UserCancellation => ErrorSeverity::Critical,
        AppError::SystemResourceError(_) => ErrorSeverity::Critical,
        AppError::EncodingError(_) => ErrorSeverity::FileLevel,
        AppError::IoError(_) => ErrorSeverity::FileLevel,
        AppError::FileProcessingError { .. } => ErrorSeverity::FileLevel,
        AppError::FFmpegError(_) => ErrorSeverity::FileLevel,
        AppError::ScanError(_) => ErrorSeverity::FileLevel,
        AppError::HardwareAccelerationError(_) => ErrorSeverity::Recoverable,
        AppError::TuiError(_) => ErrorSeverity::Recoverable,
        AppError::BatchProcessingError { .. } => ErrorSeverity::Warning,
    }
}

/// The recovery strategy that goes with each severity class.
pub open spec fn strategy_for(s: ErrorSeverity) -> RecoveryStrategy {
    match s {
        ErrorSeverity::Critical => RecoveryStrategy::Abort,
        ErrorSeverity::FileLevel => RecoveryStrategy::SkipFile,
        ErrorSeverity::Recoverable => RecoveryStrategy::Fallback,
        ErrorSeverity::Warning => RecoveryStrategy::UserConfirmation,
    }
}

/// The text shown for an error.
pub open spec fn error_message(e: AppError) -> Seq<char> {
    match e {
        AppError::ScanError(m) => "File scanning error: "@ + m@,
        AppError::EncodingError(m) => "Encoding error: "@ + m@,
        AppError::TuiError(m) => "TUI error: "@ + m@,
        AppError::IoError(m) => "IO error: "@ + m@,
        AppError::ConfigError(m) => "Configuration error: "@ + m@,
        AppError::HardwareAccelerationError(m) => "Hardware acceleration error: "@ + m@,
        AppError::FFmpegError(m) => "FFmpeg error: "@ + m@,
        AppError::FileProcessingError { file, error } => "File processing error for "@ + file@
            + ": "@ + error@,
        AppError::BatchProcessingError { completed, failed } => "Batch processing error: "@
            + decimal(completed as nat) + " completed, "@ + decimal(failed as nat) + " failed"@,
        AppError::UserCancellation => "Operation cancelled by user"@,
        AppError::SystemResourceError(m) => "System resource error: "@ + m@,
    }
}

impl AppError {
    /// A copy of the error, field by field.
    pub(crate) fn duplicate(&self) -> (e: AppError)
        ensures
            e == *self,
    {
        match self {
            AppError::ScanError(m) => AppError::ScanError(m.clone()),
            AppError::EncodingError(m) => AppError::EncodingError(m.clone()),
            AppError::TuiError(m) => AppError::TuiError(m.clone()),
            AppError::IoError(m) => AppError::IoError(m.clone()),
            AppError::ConfigError(m) => AppError::ConfigError(m.clone()),
            AppError::HardwareAccelerationError(m) => AppError::HardwareAccelerationError(m.clone()),
            AppError::FFmpegError(m) => AppError::FFmpegError(m.clone()),
            AppError::FileProcessingError { file, error } => AppError::FileProcessingError {
                file: file.clone(),
                error: error.clone(),
            },
            AppError::BatchProcessingError { completed, failed } => AppError::BatchProcessingError {
                completed: *completed,
                failed: *failed,
            },
            AppError::UserCancellation => AppError::UserCancellation,
            AppError::SystemResourceError(m) => AppError::SystemResourceError(m.clone()),
        }
    }

    /// A processing error tied to one file.
    pub fn file_error(file: String, error: &str) -> (e: AppError)
        ensures
            e matches AppError::FileProcessingError { file: f, error: m } && f == file && m@
                == error@,
    {
        AppError::FileProcessingError { file, error: error.to_owned() }
    }

    /// A failure of hardware acceleration.
    pub fn hardware_error(message: &str) -> (e: AppError)
        ensures
            e matches AppError::HardwareAccelerationError(m) && m@ == message@,
    {
        AppError::HardwareAccelerationError(message.to_owned())
    }

    /// A failure of the FFmpeg process.
    pub fn ffmpeg_error(message: &str) -> (e: AppError)
        ensures
            e matches AppError::FFmpegError(m) && m@ == message@,
    {
        AppError::FFmpegError(message.to_owned())
    }

    /// How serious this error is.
    pub fn severity(&self) -> (s: ErrorSeverity)
        ensures
            s == severity_of(*self),
    {
        match self {
            AppError::ConfigError(_) => ErrorSeverity::Critical,
            AppError::UserCancellation => ErrorSeverity::Critical,
            AppError::SystemResourceError(_) => ErrorSeverity::Critical,
            AppError::EncodingError(_) => ErrorSeverity::FileLevel,
            AppError::IoError(_) => ErrorSeverity::FileLevel,
            AppError::FileProcessingError { .. } => ErrorSeverity::FileLevel,
            AppError::FFmpegError(_) => ErrorSeverity::FileLevel,
            AppError::ScanError(_) => ErrorSeverity::FileLevel,
            AppError::HardwareAccelerationError(_) => ErrorSeverity::Recoverable,
            AppError::TuiError(_) => ErrorSeverity::Recoverable,
            AppError::BatchProcessingError { .. } => ErrorSeverity::Warning,
        }
    }

    /// The recovery strategy for this error, which follows its severity.
    pub fn recovery_strategy(&self) -> (r: RecoveryStrategy)
        ensures
            r == strategy_for(severity_of(*self)),
    {
        match self.severity() {
            ErrorSeverity::Critical => RecoveryStrategy::Abort,
            ErrorSeverity::FileLevel => RecoveryStrategy::SkipFile,
            ErrorSeverity::Recoverable => RecoveryStrategy::Fallback,
            ErrorSeverity::Warning => RecoveryStrategy::UserConfirmation,
        }
    }

    /// Whether the rest of a batch may go on after this error: for every
    /// error that is not critical.
    pub fn allows_batch_continuation(&self) -> (b: bool)
        ensures
            b == (severity_of(*self) != ErrorSeverity::Critical),
    {
        match self.severity() {
            ErrorSeverity::Critical => false,
            _ => true,
        }
    }

    /// The text shown for this error.
    pub fn to_string(&self) -> (s: String)
        ensures
            s@ == error_message(*self),
    {
        let mut s = String::new();
        match self {
            AppError::ScanError(m) => {
                s.append("File scanning error: ");
                s.append(m.as_str());
            },
            AppError::EncodingError(m) => {
                s.append("Encoding error: ");
                s.append(m.as_str());
            },
            AppError::TuiError(m) => {
                s.append("TUI error: ");
                s.append(m.as_str());
            },
            AppError::IoError(m) => {
                s.append("IO error: ");
                s.append(m.as_str());
            },
            AppError::ConfigError(m) => {
                s.append("Configuration error: ");
                s.append(m.as_str());
            },
            AppError::HardwareAccelerationError(m) => {
                s.append("Hardware acceleration error: ");
                s.append(m.as_str());
            },
            AppError::FFmpegError(m) => {
                s.append("FFmpeg error: ");
                s.append(m.as_str());
            },
            AppError::FileProcessingError { file, error } => {
                s.append("File processing error for ");
                s.append(file.as_str());
                s.append(": ");
                s.append(error.as_str());
            },
            AppError::BatchProcessingError { completed, failed } => {
                s.append("Batch processing error: ");
                push_decimal(&mut s, *completed as u64);
                s.append(" completed, ");
                push_decimal(&mut s, *failed as u64);
                s.append(" failed");
            },
            AppError::UserCancellation => {
                s.append("Operation cancelled by user");
            },
            AppError::SystemResourceError(m) => {
                s.append("System resource error: ");
                s.append(m.as_str());
            },
        }
        s
    }
}

/// The recovery strategy of an error is a function of its severity alone,
/// and a batch may go on after an error exactly when the error is not
/// critical, that is, exactly when its strategy is not to abort.
pub proof fn lemma_strategy_follows_severity(e1: AppError, e2: AppError)
    ensures
        severity_of(e1) == severity_of(e2) ==> strategy_for(severity_of(e1)) == strategy_for(
            severity_of(e2),
        ),
        (severity_of(e1) != ErrorSeverity::Critical) <==> (strategy_for(severity_of(e1))
            != RecoveryStrategy::Abort),
{
}

} // verus!
