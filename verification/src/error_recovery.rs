//! Error recovery: which decision each error leads to, what the user is told,
//! and the logs and statistics kept of errors and recovery attempts.

use vstd::prelude::*;
use vstd::string::*;
use crate::clock::instant_now;
use crate::error::{error_message, severity_of, AppError, ErrorSeverity};
use crate::paths::opt_text;

verus! {

/// Recovery strategies for different error types.
#[derive(Debug, Clone, Copy, PartialEq, Eq, Structural)]
pub enum RecoveryStrategy {
    /// Stop all processing immediately
    Abort,
    /// Skip the current file and continue with others
    SkipFile,
    /// Retry the operation with different parameters
    Retry,
    /// Fall back to alternative method (e.g., software encoding)
    Fallback,
    /// Ask user for confirmation before proceeding
    UserConfirmation,
}


/// Decision made by the error recovery manager.
#[derive(Debug, Clone, Copy, PartialEq, Eq, Structural)]
pub enum RecoveryDecision {
    /// Continue processing normally
    Continue,
    /// Skip the current file and continue with others
    SkipFile,
    /// Abort all processing
    Abort,
    /// Fall back to software encoding
    FallbackToSoftware,
    /// Retry the operation
    Retry,
    /// Ask user for confirmation
    UserConfirmation,
}

/// Counts of logged errors and recovery attempts.
#[derive(Debug, Clone)]
pub struct ErrorStatistics {
    pub total_errors: usize,
    pub critical_errors: usize,
    pub file_level_errors: usize,
    pub recoverable_errors: usize,
    pub recovery_attempts: usize,
    pub successful_recoveries: usize,
    pub failed_recoveries: usize,
}

impl Default for ErrorStatistics {
    fn default() -> (s: Self)
        ensures
            s.total_errors == 0,
            s.critical_errors == 0,
            s.file_level_errors == 0,
            s.recoverable_errors == 0,
            s.recovery_attempts == 0,
            s.successful_recoveries == 0,
            s.failed_recoveries == 0,
    {
        ErrorStatistics {
            total_errors: 0,
            critical_errors: 0,
            file_level_errors: 0,
            recoverable_errors: 0,
            recovery_attempts: 0,
            successful_recoveries: 0,
            failed_recoveries: 0,
        }
    }
}

/// One recorded attempt at recovering from an error.
#[derive(Debug, Clone)]
pub struct RecoveryAttempt {
    pub file_path: Option<String>,
    pub original_error: String,
    pub strategy: RecoveryStrategy,
    pub attempt_number: usize,
    pub success: bool,
    pub timestamp: std::time::Instant,
}

/// What the user is told about errors and recovery.
#[derive(Debug, Clone)]
pub enum ErrorNotification {
    HardwareFallback { reason: String, fallback_method: String },
    FileSkipped { file: String, reason: String },
    RecoveryAttempt { file: Option<String>, strategy: RecoveryStrategy, attempt: usize },
    BatchContinuation { completed: usize, failed: usize, remaining: usize },
    CriticalError { error: String, requires_user_action: bool },
}

/// The decision taken for an error, given whether falling back from
/// hardware to software encoding is enabled. A file-level error skips the
/// file it concerns, whether or not its path is given.
pub open spec fn decision_for(e: AppError, fallback_enabled: bool) -> RecoveryDecision {
    match severity_of(e) {
        ErrorSeverity::Critical => RecoveryDecision::Abort,
        ErrorSeverity::FileLevel => RecoveryDecision::SkipFile,
        ErrorSeverity::Recoverable => match e {
            AppError::HardwareAccelerationError(_) => if fallback_enabled {
                RecoveryDecision::FallbackToSoftware
            } else {
                RecoveryDecision::SkipFile
            },
            _ => RecoveryDecision::Continue,
        },
        ErrorSeverity::Warning => RecoveryDecision::Continue,
    }
}

/// The recovery attempt recorded for an error, as its strategy and whether
/// it succeeded, or `None` where none is recorded.
pub open spec fn attempt_for(e: AppError, fallback_enabled: bool) -> Option<
    (RecoveryStrategy, bool),
> {
    match severity_of(e) {
        ErrorSeverity::Critical => Some((RecoveryStrategy::Abort, false)),
        ErrorSeverity::FileLevel => Some((RecoveryStrategy::SkipFile, true)),
        ErrorSeverity::Recoverable => match e {
            AppError::HardwareAccelerationError(_) => if fallback_enabled {
                Some((RecoveryStrategy::Fallback, true))
            } else {
                None
            },
            _ => None,
        },
        ErrorSeverity::Warning => Some((RecoveryStrategy::UserConfirmation, true)),
    }
}

/// The notification given for an error, where one is given. A file-level
/// error given without a path skips its file without a notification, as
/// there is no file to name.
pub open spec fn notification_for(
    n: Option<ErrorNotification>,
    e: AppError,
    file_path: Option<Seq<char>>,
    fallback_enabled: bool,
) -> bool {
    match severity_of(e) {
        ErrorSeverity::Critical => n matches Some(ErrorNotification::CriticalError { error, requires_user_action })
            && error@ == error_message(e) && requires_user_action,
        ErrorSeverity::FileLevel => match file_path {
            Some(p) => n matches Some(ErrorNotification::FileSkipped { file, reason }) && file@ == p
                && reason@ == error_message(e),
            None => n is None,
        },
        ErrorSeverity::Recoverable => match e {
            AppError::HardwareAccelerationError(m) => if fallback_enabled {
                n matches Some(ErrorNotification::HardwareFallback { reason, fallback_method })
                    && reason@ == m@ && fallback_method@ == "Software encoding (libx265)"@
            } else {
                n is None
            },
            _ => n is None,
        },
        ErrorSeverity::Warning => match e {
            AppError::BatchProcessingError { completed, failed } => n == Some(
                ErrorNotification::BatchContinuation { completed, failed, remaining: 0 },
            ),
            _ => n is None,
        },
    }
}

/// Whether `a` records the given attempt (its timestamp aside).
pub open spec fn attempt_records(
    a: RecoveryAttempt,
    file_path: Option<Seq<char>>,
    error: Seq<char>,
    strategy: RecoveryStrategy,
    attempt_number: usize,
    success: bool,
) -> bool {
    &&& opt_text(a.file_path) == file_path
    &&& a.original_error@ == error
    &&& a.strategy == strategy
    &&& a.attempt_number == attempt_number
    &&& a.success == success
}

/// The number of logged errors of a severity.
pub open spec fn count_severity(log: Seq<AppError>, s: ErrorSeverity) -> nat
    decreases log.len(),
{
    if log.len() == 0 {
        0
    } else {
        count_severity(log.drop_last(), s) + if severity_of(log.last()) == s {
            1nat
        } else {
            0nat
        }
    }
}

/// The number of recovery attempts whose success is `success`.
pub open spec fn count_success(log: Seq<RecoveryAttempt>, success: bool) -> nat
    decreases log.len(),
{
    if log.len() == 0 {
        0
    } else {
        count_success(log.drop_last(), success) + if log.last().success == success {
            1nat
        } else {
            0nat
        }
    }
}

proof fn lemma_count_success_bound(log: Seq<RecoveryAttempt>, success: bool)
    ensures
        count_success(log, success) <= log.len(),
    decreases log.len(),
{
    if log.len() > 0 {
        lemma_count_success_bound(log.drop_last(), success);
    }
}

/// Manages error recovery strategies and the logs of errors and attempts.
/// Notifications are returned to the caller, which delivers them.
pub struct ErrorRecoveryManager {
    handled_errors: Vec<AppError>,
    error_log: Vec<(String, AppError)>,
    recovery_log: Vec<RecoveryAttempt>,
    max_retry_attempts: usize,
    hardware_fallback_enabled: bool,
}

impl ErrorRecoveryManager {
    /// Every error handled so far, in order; the statistics count these.
    pub closed spec fn handled(&self) -> Seq<AppError> {
        self.handled_errors@
    }

    /// The errors logged so far with the file path they were given with;
    /// errors given without a path are not logged here.
    pub closed spec fn logged_errors(&self) -> Seq<(String, AppError)> {
        self.error_log@
    }

    /// The recovery attempts logged so far.
    pub closed spec fn logged_attempts(&self) -> Seq<RecoveryAttempt> {
        self.recovery_log@
    }

    /// The configured maximum number of retries.
    pub closed spec fn max_retries(&self) -> usize {
        self.max_retry_attempts
    }

    /// Whether hardware failures fall back to software encoding.
    pub closed spec fn fallback_enabled(&self) -> bool {
        self.hardware_fallback_enabled
    }

    /// Create a new error recovery manager: empty logs, three retries,
    /// hardware fallback enabled.
    pub fn new() -> (m: Self)
        ensures
            m.handled().len() == 0,
            m.logged_errors().len() == 0,
            m.logged_attempts().len() == 0,
            m.max_retries() == 3,
            m.fallback_enabled(),
    {
        ErrorRecoveryManager {
            handled_errors: Vec::new(),
            error_log: Vec::new(),
            recovery_log: Vec::new(),
            max_retry_attempts: 3,
            hardware_fallback_enabled: true,
        }
    }

    /// Configure maximum retry attempts.
    pub fn with_max_retries(self, max_retries: usize) -> (m: Self)
        ensures
            m.max_retries() == max_retries,
            m.fallback_enabled() == self.fallback_enabled(),
            m.handled() == self.handled(),
            m.logged_errors() == self.logged_errors(),
            m.logged_attempts() == self.logged_attempts(),
    {
        let mut m = self;
        m.max_retry_attempts = max_retries;
        m
    }

    /// Enable or disable hardware acceleration fallback.
    pub fn with_hardware_fallback(self, enabled: bool) -> (m: Self)
        ensures
            m.fallback_enabled() == enabled,
            m.max_retries() == self.max_retries(),
            m.handled() == self.handled(),
            m.logged_errors() == self.logged_errors(),
            m.logged_attempts() == self.logged_attempts(),
    {
        let mut m = self;
        m.hardware_fallback_enabled = enabled;
        m
    }

    /// Record a recovery attempt.
    fn log_recovery_attempt(
        &mut self,
        file_path: Option<String>,
        original_error: String,
        strategy: RecoveryStrategy,
        attempt_number: usize,
        success: bool,
    )
        ensures
            final(self).handled() == old(self).handled(),
            final(self).logged_errors() == old(self).logged_errors(),
            final(self).max_retries() == old(self).max_retries(),
            final(self).fallback_enabled() == old(self).fallback_enabled(),
            final(self).logged_attempts().len() == old(self).logged_attempts().len() + 1,
            final(self).logged_attempts().drop_last() == old(self).logged_attempts(),
            attempt_records(
                final(self).logged_attempts().last(),
                opt_text(file_path),
                original_error@,
                strategy,
                attempt_number,
                success,
            ),
    {
        let attempt = RecoveryAttempt {
            file_path,
            original_error,
            strategy,
            attempt_number,
            success,
            timestamp: instant_now(),
        };
        self.recovery_log.push(attempt);
        assert(self.recovery_log@.drop_last() =~= old(self).recovery_log@);
    }

    /// Handle an error: count it, log it with its file path when one is
    /// given, record the recovery attempt its severity calls for, and return
    /// the decision together with the notification for the user, if any.
    pub fn handle_error(&mut self, error: AppError, file_path: Option<String>) -> (r: (
        RecoveryDecision,
        Option<ErrorNotification>,
    ))
        ensures
            r.0 == decision_for(error, old(self).fallback_enabled()),
            notification_for(r.1, error, opt_text(file_path), old(self).fallback_enabled()),
            final(self).max_retries() == old(self).max_retries(),
            final(self).fallback_enabled() == old(self).fallback_enabled(),
            final(self).handled() == old(self).handled().push(error),
            match file_path {
                Some(p) => {
                    &&& final(self).logged_errors().len() == old(self).logged_errors().len() + 1
                    &&& final(self).logged_errors().drop_last() == old(self).logged_errors()
                    &&& final(self).logged_errors().last().1 == error
                    &&& final(self).logged_errors().last().0@ == p@
                },
                None => final(self).logged_errors() == old(self).logged_errors(),
            },
            match attempt_for(error, old(self).fallback_enabled()) {
                Some((strategy, success)) => {
                    &&& final(self).logged_attempts().len() == old(self).logged_attempts().len()
                        + 1
                    &&& final(self).logged_attempts().drop_last() == old(self).logged_attempts()
                    &&& attempt_records(
                        final(self).logged_attempts().last(),
                        opt_text(file_path),
                        error_message(error),
                        strategy,
                        1,
                        success,
                    )
                },
                None => final(self).logged_attempts() == old(self).logged_attempts(),
            },
    {
        let log_path = match &file_path {
            Some(p) => Some(p.clone()),
            None => None,
        };
        let message = error.to_string();
        let fallback = self.hardware_fallback_enabled;
        let (decision, notification, attempt): (
            RecoveryDecision,
            Option<ErrorNotification>,
            Option<(RecoveryStrategy, bool)>,
        ) = match error.severity() {
            ErrorSeverity::Critical => (
                RecoveryDecision::Abort,
                Some(
                    ErrorNotification::CriticalError {
                        error: message.clone(),
                        requires_user_action: true,
                    },
                ),
                Some((RecoveryStrategy::Abort, false)),
            ),
            ErrorSeverity::FileLevel => match &file_path {
                Some(p) => (
                    RecoveryDecision::SkipFile,
                    Some(ErrorNotification::FileSkipped { file: p.clone(), reason: message.clone() }),
                    Some((RecoveryStrategy::SkipFile, true)),
                ),
                None => (RecoveryDecision::SkipFile, None, Some((RecoveryStrategy::SkipFile, true))),
            },
            ErrorSeverity::Recoverable => match &error {
                AppError::HardwareAccelerationError(m) => {
                    if fallback {
                        (
                            RecoveryDecision::FallbackToSoftware,
                            Some(
                                ErrorNotification::HardwareFallback {
                                    reason: m.clone(),
                                    fallback_method: "Software encoding (libx265)".to_owned(),
                                },
                            ),
                            Some((RecoveryStrategy::Fallback, true)),
                        )
                    } else {
                        (RecoveryDecision::SkipFile, None, None)
                    }
                },
                _ => (RecoveryDecision::Continue, None, None),
            },
            ErrorSeverity::Warning => {
                let n = match &error {
                    AppError::BatchProcessingError { completed, failed } => Some(
                        ErrorNotification::BatchContinuation {
                            completed: *completed,
                            failed: *failed,
                            remaining: 0,
                        },
                    ),
                    _ => None,
                };
                (RecoveryDecision::Continue, n, Some((RecoveryStrategy::UserConfirmation, true)))
            },
        };
        match attempt {
            Some((strategy, success)) => {
                self.log_recovery_attempt(file_path, message, strategy, 1, success);
            },
            None => {},
        }
        match log_path {
            Some(p) => {
                self.error_log.push((p, error.duplicate()));
                assert(self.error_log@.drop_last() =~= old(self).error_log@);
            },
            None => {},
        }
        self.handled_errors.push(error);
        (decision, notification)
    }

    /// Count errors by severity level.
    fn count_errors_by_severity(&self, severity: ErrorSeverity) -> (c: usize)
        ensures
            c == count_severity(self.handled(), severity),
    {
        let mut c: usize = 0;
        let mut i: usize = 0;
        while i < self.handled_errors.len()
            invariant
                i <= self.handled_errors@.len(),
                c == count_severity(self.handled_errors@.take(i as int), severity),
                c <= i,
            decreases self.handled_errors@.len() - i,
        {
            assert(self.handled_errors@.take(i + 1).drop_last() =~= self.handled_errors@.take(
                i as int,
            ));
            if self.handled_errors[i].severity() == severity {
                c = c + 1;
            }
            i = i + 1;
        }
        assert(self.handled_errors@.take(i as int) =~= self.handled_errors@);
        c
    }

    /// Count recovery attempts by outcome.
    fn count_attempts_by_success(&self, success: bool) -> (c: usize)
        ensures
            c == count_success(self.logged_attempts(), success),
    {
        let mut c: usize = 0;
        let mut i: usize = 0;
        while i < self.recovery_log.len()
            invariant
                i <= self.recovery_log@.len(),
                c == count_success(self.recovery_log@.take(i as int), success),
                c <= i,
            decreases self.recovery_log@.len() - i,
        {
            assert(self.recovery_log@.take(i + 1).drop_last() =~= self.recovery_log@.take(
                i as int,
            ));
            if self.recovery_log[i].success == success {
                c = c + 1;
            }
            i = i + 1;
        }
        assert(self.recovery_log@.take(i as int) =~= self.recovery_log@);
        c
    }

    /// Get current error statistics: every error handled is counted,
    /// whether or not it was given with a path.
    pub fn get_statistics(&self) -> (s: ErrorStatistics)
        ensures
            s.total_errors == self.handled().len(),
            s.critical_errors == count_severity(self.handled(), ErrorSeverity::Critical),
            s.file_level_errors == count_severity(self.handled(), ErrorSeverity::FileLevel),
            s.recoverable_errors == count_severity(self.handled(), ErrorSeverity::Recoverable),
            s.recovery_attempts == self.logged_attempts().len(),
            s.successful_recoveries == count_success(self.logged_attempts(), true),
            s.failed_recoveries == count_success(self.logged_attempts(), false),
    {
        ErrorStatistics {
            total_errors: self.handled_errors.len(),
            critical_errors: self.count_errors_by_severity(ErrorSeverity::Critical),
            file_level_errors: self.count_errors_by_severity(ErrorSeverity::FileLevel),
            recoverable_errors: self.count_errors_by_severity(ErrorSeverity::Recoverable),
            recovery_attempts: self.recovery_log.len(),
            successful_recoveries: self.count_attempts_by_success(true),
            failed_recoveries: self.count_attempts_by_success(false),
        }
    }

    /// Get all error logs.
    pub fn get_error_log(&self) -> (r: &[(String, AppError)])
        ensures
            r@ == self.logged_errors(),
    {
        self.error_log.as_slice()
    }

    /// Get all recovery attempts.
    pub fn get_recovery_log(&self) -> (r: &[RecoveryAttempt])
        ensures
            r@ == self.logged_attempts(),
    {
        self.recovery_log.as_slice()
    }

    /// Check if any critical errors have occurred.
    pub fn has_critical_errors(&self) -> (b: bool)
        ensures
            b == (count_severity(self.handled(), ErrorSeverity::Critical) > 0),
    {
        self.count_errors_by_severity(ErrorSeverity::Critical) > 0
    }

    /// Clear error logs (useful for testing or reset).
    pub fn clear_logs(&mut self)
        ensures
            final(self).handled().len() == 0,
            final(self).logged_errors().len() == 0,
            final(self).logged_attempts().len() == 0,
            final(self).max_retries() == old(self).max_retries(),
            final(self).fallback_enabled() == old(self).fallback_enabled(),
    {
        self.handled_errors.clear();
        self.error_log.clear();
        self.recovery_log.clear();
    }
}


/// Every handled error falls in exactly one severity class, and every
/// recovery attempt either succeeded or failed: the counts add up to the
/// lengths of the logs.
pub proof fn lemma_statistics_add_up(errors: Seq<AppError>, attempts: Seq<RecoveryAttempt>)
    ensures
        count_severity(errors, ErrorSeverity::Critical) + count_severity(
            errors,
            ErrorSeverity::FileLevel,
        ) + count_severity(errors, ErrorSeverity::Recoverable) + count_severity(
            errors,
            ErrorSeverity::Warning,
        ) == errors.len(),
        count_success(attempts, true) + count_success(attempts, false) == attempts.len(),
    decreases errors.len() + attempts.len(),
{
    if errors.len() > 0 {
        lemma_statistics_add_up(errors.drop_last(), attempts);
    }
    if attempts.len() > 0 {
        lemma_statistics_add_up(errors, attempts.drop_last());
    }
}

/// Handling only appends: the count of errors of any severity never
/// drops when the log is extended, so once a critical error has been
/// logged, `has_critical_errors` stays true until the logs are cleared.
pub proof fn lemma_counts_grow_with_log(
    earlier: Seq<AppError>,
    later: Seq<AppError>,
    s: ErrorSeverity,
)
    requires
        earlier.len() <= later.len(),
        later.take(earlier.len() as int) == earlier,
    ensures
        count_severity(earlier, s) <= count_severity(later, s),
    decreases later.len(),
{
    if later.len() > earlier.len() {
        assert(later.drop_last().take(earlier.len() as int) =~= later.take(earlier.len() as int));
        lemma_counts_grow_with_log(earlier, later.drop_last(), s);
    } else {
        assert(later =~= earlier);
    }
}

/// Processing is aborted exactly for critical errors, and a file-level
/// error always skips the file it concerns, whether or not its path is
/// given.
pub proof fn lemma_abort_exactly_on_critical(e: AppError, fallback_enabled: bool)
    ensures
        (decision_for(e, fallback_enabled) == RecoveryDecision::Abort) <==> (
        severity_of(e) == ErrorSeverity::Critical),
        severity_of(e) == ErrorSeverity::FileLevel ==> decision_for(e, fallback_enabled)
            == RecoveryDecision::SkipFile,
{
}

} // verus!
