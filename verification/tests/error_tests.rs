use video_encoder::error_recovery::{
    ErrorNotification, ErrorRecoveryManager, ErrorStatistics, RecoveryDecision, RecoveryStrategy,
};
use video_encoder::{AppError, ErrorSeverity};

#[test]
fn error_handling_tests_test_error_severity_classification() {
    assert_eq!(
        AppError::ConfigError("Invalid config".to_string()).severity(),
        ErrorSeverity::Critical
    );
    assert_eq!(AppError::UserCancellation.severity(), ErrorSeverity::Critical);
    assert_eq!(
        AppError::SystemResourceError("Out of memory".to_string()).severity(),
        ErrorSeverity::Critical
    );

    assert_eq!(
        AppError::EncodingError("FFmpeg failed".to_string()).severity(),
        ErrorSeverity::FileLevel
    );
    assert_eq!(
        AppError::IoError("File not found".to_string()).severity(),
        ErrorSeverity::FileLevel
    );
    assert_eq!(
        AppError::FileProcessingError {
            file: "/test/file.mkv".to_string(),
            error: "Processing failed".to_string()
        }
        .severity(),
        ErrorSeverity::FileLevel
    );

    assert_eq!(
        AppError::HardwareAccelerationError("AMD AMF not available".to_string()).severity(),
        ErrorSeverity::Recoverable
    );

    assert_eq!(
        AppError::BatchProcessingError { completed: 5, failed: 2 }.severity(),
        ErrorSeverity::Warning
    );
}

#[test]
fn error_handling_tests_test_recovery_strategy_determination() {
    assert_eq!(
        AppError::ConfigError("Invalid config".to_string()).recovery_strategy(),
        RecoveryStrategy::Abort
    );
    assert_eq!(AppError::UserCancellation.recovery_strategy(), RecoveryStrategy::Abort);

    assert_eq!(
        AppError::EncodingError("FFmpeg failed".to_string()).recovery_strategy(),
        RecoveryStrategy::SkipFile
    );
    assert_eq!(
        AppError::FileProcessingError {
            file: "/test/file.mkv".to_string(),
            error: "Processing failed".to_string()
        }
        .recovery_strategy(),
        RecoveryStrategy::SkipFile
    );

    assert_eq!(
        AppError::HardwareAccelerationError("AMD AMF not available".to_string())
            .recovery_strategy(),
        RecoveryStrategy::Fallback
    );

    assert_eq!(
        AppError::BatchProcessingError { completed: 5, failed: 2 }.recovery_strategy(),
        RecoveryStrategy::UserConfirmation
    );
}

#[test]
fn error_handling_tests_test_batch_continuation_allowance() {
    assert!(!AppError::ConfigError("Invalid config".to_string()).allows_batch_continuation());
    assert!(!AppError::UserCancellation.allows_batch_continuation());
    assert!(!AppError::SystemResourceError("Out of memory".to_string()).allows_batch_continuation());

    assert!(AppError::EncodingError("FFmpeg failed".to_string()).allows_batch_continuation());
    assert!(AppError::FileProcessingError {
        file: "/test/file.mkv".to_string(),
        error: "Processing failed".to_string()
    }
    .allows_batch_continuation());

    assert!(AppError::HardwareAccelerationError("AMD AMF not available".to_string())
        .allows_batch_continuation());

    assert!(AppError::BatchProcessingError { completed: 5, failed: 2 }.allows_batch_continuation());
}

#[test]
fn test_error_creation_helpers() {
    let file_path = "/test/movie.mkv".to_string();
    let error = AppError::file_error(file_path.clone(), "Encoding failed");

    match error {
        AppError::FileProcessingError { file, error } => {
            assert_eq!(file, file_path);
            assert_eq!(error, "Encoding failed");
        }
        _ => panic!("Expected FileProcessingError"),
    }

    let hw_error = AppError::hardware_error("AMD AMF initialization failed");
    match hw_error {
        AppError::HardwareAccelerationError(msg) => {
            assert_eq!(msg, "AMD AMF initialization failed");
        }
        _ => panic!("Expected HardwareAccelerationError"),
    }

    let ffmpeg_error = AppError::ffmpeg_error("Process exited with code 1");
    match ffmpeg_error {
        AppError::FFmpegError(msg) => {
            assert_eq!(msg, "Process exited with code 1");
        }
        _ => panic!("Expected FFmpegError"),
    }
}

#[test]
fn test_error_recovery_manager_critical_error_handling() {
    let mut manager = ErrorRecoveryManager::new();
    let error = AppError::ConfigError("Invalid configuration file".to_string());

    let (decision, _) = manager.handle_error(error, None);

    assert_eq!(decision, RecoveryDecision::Abort);
    assert!(manager.has_critical_errors());

    let stats = manager.get_statistics();
    assert_eq!(stats.total_errors, 1);
    assert_eq!(stats.critical_errors, 1);
}

#[test]
fn test_error_recovery_manager_file_level_error_handling() {
    let mut manager = ErrorRecoveryManager::new();
    let file_path = "/test/movie.mkv".to_string();
    let error = AppError::EncodingError("FFmpeg encoding failed".to_string());

    let (decision, _) = manager.handle_error(error, Some(file_path.clone()));

    assert_eq!(decision, RecoveryDecision::SkipFile);
    assert!(!manager.has_critical_errors());

    let stats = manager.get_statistics();
    assert_eq!(stats.total_errors, 1);
    assert_eq!(stats.file_level_errors, 1);

    let error_log = manager.get_error_log();
    assert_eq!(error_log.len(), 1);
    assert_eq!(error_log[0].0, file_path);

    let recovery_log = manager.get_recovery_log();
    assert_eq!(recovery_log.len(), 1);
    assert_eq!(recovery_log[0].file_path, Some(file_path));
    assert!(recovery_log[0].success);
}

#[test]
fn test_error_recovery_manager_hardware_fallback_enabled() {
    let mut manager = ErrorRecoveryManager::new().with_hardware_fallback(true);
    let error = AppError::HardwareAccelerationError("AMD AMF not available".to_string());

    let (decision, _) = manager.handle_error(error, None);

    assert_eq!(decision, RecoveryDecision::FallbackToSoftware);

    let stats = manager.get_statistics();
    assert_eq!(stats.total_errors, 1);
    assert_eq!(stats.recoverable_errors, 1);

    let recovery_log = manager.get_recovery_log();
    assert_eq!(recovery_log.len(), 1);
    assert_eq!(recovery_log[0].strategy, RecoveryStrategy::Fallback);
    assert!(recovery_log[0].success);
}

#[test]
fn test_error_recovery_manager_hardware_fallback_disabled() {
    let mut manager = ErrorRecoveryManager::new().with_hardware_fallback(false);
    let error = AppError::HardwareAccelerationError("AMD AMF not available".to_string());

    let (decision, notification) = manager.handle_error(error, None);

    assert_eq!(decision, RecoveryDecision::SkipFile);
    assert!(notification.is_none());
    assert_eq!(manager.get_recovery_log().len(), 0);
}

#[test]
fn test_error_recovery_manager_notifications() {
    let mut manager = ErrorRecoveryManager::new();

    let error = AppError::HardwareAccelerationError("AMD AMF not available".to_string());
    let (_, notification) = manager.handle_error(error, None);
    match notification.unwrap() {
        ErrorNotification::HardwareFallback { reason, fallback_method } => {
            assert!(reason.contains("AMD AMF not available"));
            assert_eq!(fallback_method, "Software encoding (libx265)");
        }
        _ => panic!("Expected HardwareFallback notification"),
    }

    let file_path = "/test/movie.mkv".to_string();
    let error = AppError::EncodingError("FFmpeg failed".to_string());
    let (_, notification) = manager.handle_error(error, Some(file_path.clone()));
    match notification.unwrap() {
        ErrorNotification::FileSkipped { file, reason } => {
            assert_eq!(file, file_path);
            assert!(reason.contains("FFmpeg failed"));
        }
        _ => panic!("Expected FileSkipped notification"),
    }
}

#[test]
fn test_error_recovery_manager_statistics_tracking() {
    let mut manager = ErrorRecoveryManager::new();

    let _ = manager.handle_error(AppError::ConfigError("Config error".to_string()), None);
    let _ = manager.handle_error(
        AppError::EncodingError("Encoding error".to_string()),
        Some("/test/file1.mkv".to_string()),
    );
    let _ = manager.handle_error(AppError::HardwareAccelerationError("Hardware error".to_string()), None);
    let _ = manager.handle_error(AppError::BatchProcessingError { completed: 5, failed: 2 }, None);

    let stats = manager.get_statistics();
    assert_eq!(stats.total_errors, 4);
    assert_eq!(stats.critical_errors, 1);
    assert_eq!(stats.file_level_errors, 1);
    assert_eq!(stats.recoverable_errors, 1);
    assert!(stats.recovery_attempts > 0);
    assert_eq!(stats.recovery_attempts, 4);
    assert_eq!(stats.successful_recoveries, 3);
    assert_eq!(stats.failed_recoveries, 1);
}

#[test]
fn error_handling_tests_test_error_recovery_manager_configuration() {
    let mut manager = ErrorRecoveryManager::new().with_max_retries(5).with_hardware_fallback(false);
    let hw_error = AppError::HardwareAccelerationError("Test error".to_string());
    let (decision, _) = manager.handle_error(hw_error, None);
    assert_eq!(decision, RecoveryDecision::SkipFile);
}

#[test]
fn test_error_recovery_manager_log_clearing() {
    let mut manager = ErrorRecoveryManager::new();

    let _ = manager.handle_error(
        AppError::EncodingError("Test error".to_string()),
        Some("/test/file.mkv".to_string()),
    );

    assert!(manager.get_statistics().total_errors > 0);
    assert!(!manager.get_error_log().is_empty());

    manager.clear_logs();

    assert_eq!(manager.get_statistics().total_errors, 0);
    assert!(manager.get_error_log().is_empty());
    assert!(manager.get_recovery_log().is_empty());
}

#[test]
fn error_handling_tests_test_error_notification_types() {
    let hw_notification = ErrorNotification::HardwareFallback {
        reason: "AMD AMF not available".to_string(),
        fallback_method: "Software encoding".to_string(),
    };

    match hw_notification {
        ErrorNotification::HardwareFallback { reason, fallback_method } => {
            assert_eq!(reason, "AMD AMF not available");
            assert_eq!(fallback_method, "Software encoding");
        }
        _ => panic!("Expected HardwareFallback notification"),
    }

    let file_notification = ErrorNotification::FileSkipped {
        file: "/test/movie.mkv".to_string(),
        reason: "Encoding failed".to_string(),
    };

    match file_notification {
        ErrorNotification::FileSkipped { file, reason } => {
            assert_eq!(file, "/test/movie.mkv");
            assert_eq!(reason, "Encoding failed");
        }
        _ => panic!("Expected FileSkipped notification"),
    }

    let critical_notification = ErrorNotification::CriticalError {
        error: "System failure".to_string(),
        requires_user_action: true,
    };

    match critical_notification {
        ErrorNotification::CriticalError { error, requires_user_action } => {
            assert_eq!(error, "System failure");
            assert!(requires_user_action);
        }
        _ => panic!("Expected CriticalError notification"),
    }
}

#[test]
fn test_recovery_decision_types() {
    assert_eq!(RecoveryDecision::Continue, RecoveryDecision::Continue);
    assert_eq!(RecoveryDecision::SkipFile, RecoveryDecision::SkipFile);
    assert_eq!(RecoveryDecision::Abort, RecoveryDecision::Abort);
    assert_eq!(RecoveryDecision::FallbackToSoftware, RecoveryDecision::FallbackToSoftware);
    assert_eq!(RecoveryDecision::Retry, RecoveryDecision::Retry);
    assert_eq!(RecoveryDecision::UserConfirmation, RecoveryDecision::UserConfirmation);

    assert_ne!(RecoveryDecision::Continue, RecoveryDecision::Abort);
    assert_ne!(RecoveryDecision::SkipFile, RecoveryDecision::Retry);
}

#[test]
fn test_multiple_error_scenarios() {
    let mut manager = ErrorRecoveryManager::new().with_hardware_fallback(true);

    let hw_error = AppError::HardwareAccelerationError("AMD driver issue".to_string());
    let (hw_decision, _) = manager.handle_error(hw_error, None);
    assert_eq!(hw_decision, RecoveryDecision::FallbackToSoftware);

    let file_error = AppError::EncodingError("Corrupted file".to_string());
    let file_path = "/test/corrupted.mkv".to_string();
    let (file_decision, _) = manager.handle_error(file_error, Some(file_path));
    assert_eq!(file_decision, RecoveryDecision::SkipFile);

    let stats = manager.get_statistics();
    assert_eq!(stats.total_errors, 2);
    assert_eq!(stats.recoverable_errors, 1);
    assert_eq!(stats.file_level_errors, 1);
    assert_eq!(stats.recovery_attempts, 2);
    assert_eq!(stats.successful_recoveries, 2);
}

#[test]
fn test_error_recovery_with_batch_processing() {
    let mut manager = ErrorRecoveryManager::new();

    let batch_error = AppError::BatchProcessingError { completed: 8, failed: 2 };
    let (decision, notification) = manager.handle_error(batch_error, None);
    assert_eq!(decision, RecoveryDecision::Continue);
    match notification {
        Some(ErrorNotification::BatchContinuation { completed, failed, remaining }) => {
            assert_eq!((completed, failed, remaining), (8, 2, 0));
        }
        other => panic!("Expected BatchContinuation, got {:?}", other),
    }

    let stats = manager.get_statistics();
    assert_eq!(stats.total_errors, 1);
    assert!(stats.total_errors > 0);
    assert_eq!(manager.get_recovery_log()[0].strategy, RecoveryStrategy::UserConfirmation);
}

#[test]
fn test_error_display_formatting() {
    let config_error = AppError::ConfigError("Invalid target directory".to_string());
    assert!(config_error.to_string().contains("Configuration error"));
    assert!(config_error.to_string().contains("Invalid target directory"));

    let file_error = AppError::FileProcessingError {
        file: "/test/movie.mkv".to_string(),
        error: "Encoding failed".to_string(),
    };
    assert!(file_error.to_string().contains("File processing error"));
    assert!(file_error.to_string().contains("movie.mkv"));
    assert!(file_error.to_string().contains("Encoding failed"));

    let hw_error = AppError::HardwareAccelerationError("AMD AMF not available".to_string());
    assert!(hw_error.to_string().contains("Hardware acceleration error"));
    assert!(hw_error.to_string().contains("AMD AMF not available"));
}

#[test]
fn test_error_messages_of_every_kind() {
    let cases = vec![
        (AppError::ScanError("x".to_string()), "File scanning error: x"),
        (AppError::EncodingError("x".to_string()), "Encoding error: x"),
        (AppError::TuiError("x".to_string()), "TUI error: x"),
        (AppError::IoError("x".to_string()), "IO error: x"),
        (AppError::ConfigError("x".to_string()), "Configuration error: x"),
        (AppError::HardwareAccelerationError("x".to_string()), "Hardware acceleration error: x"),
        (AppError::FFmpegError("x".to_string()), "FFmpeg error: x"),
        (
            AppError::FileProcessingError { file: "/a.mkv".to_string(), error: "x".to_string() },
            "File processing error for /a.mkv: x",
        ),
        (
            AppError::BatchProcessingError { completed: 12, failed: 0 },
            "Batch processing error: 12 completed, 0 failed",
        ),
        (AppError::UserCancellation, "Operation cancelled by user"),
        (AppError::SystemResourceError("x".to_string()), "System resource error: x"),
    ];
    for (error, expected) in cases {
        assert_eq!(error.to_string(), expected);
    }
}

#[test]
fn test_error_recovery_decision_mapping() {
    let critical_error = AppError::ConfigError("Invalid config".to_string());
    assert_eq!(critical_error.recovery_strategy(), RecoveryStrategy::Abort);

    let file_error = AppError::EncodingError("FFmpeg failed".to_string());
    assert_eq!(file_error.recovery_strategy(), RecoveryStrategy::SkipFile);

    let hw_error = AppError::HardwareAccelerationError("AMD not available".to_string());
    assert_eq!(hw_error.recovery_strategy(), RecoveryStrategy::Fallback);

    let batch_error = AppError::BatchProcessingError { completed: 5, failed: 2 };
    assert_eq!(batch_error.recovery_strategy(), RecoveryStrategy::UserConfirmation);
}

#[test]
fn test_comprehensive_error_recovery_workflow() {
    let mut manager = ErrorRecoveryManager::new().with_hardware_fallback(true).with_max_retries(2);

    let hw_error = AppError::HardwareAccelerationError("AMD driver crash".to_string());
    let (decision1, _) = manager.handle_error(hw_error, None);
    assert_eq!(decision1, RecoveryDecision::FallbackToSoftware);

    let file_error = AppError::EncodingError("Corrupted video stream".to_string());
    let file_path = "/test/corrupted.mkv".to_string();
    let (decision2, _) = manager.handle_error(file_error, Some(file_path));
    assert_eq!(decision2, RecoveryDecision::SkipFile);

    let batch_error = AppError::BatchProcessingError { completed: 8, failed: 2 };
    let (decision3, _) = manager.handle_error(batch_error, None);
    assert_eq!(decision3, RecoveryDecision::Continue);

    let stats = manager.get_statistics();
    assert_eq!(stats.total_errors, 3);
    assert_eq!(stats.recoverable_errors, 1);
    assert_eq!(stats.file_level_errors, 1);
    assert!(stats.recovery_attempts >= 3);
    assert!(stats.successful_recoveries >= 2);
}

#[test]
fn test_error_severity_and_recovery_consistency() {
    let test_cases = vec![
        (AppError::ConfigError("test".to_string()), ErrorSeverity::Critical, RecoveryStrategy::Abort),
        (AppError::UserCancellation, ErrorSeverity::Critical, RecoveryStrategy::Abort),
        (
            AppError::EncodingError("test".to_string()),
            ErrorSeverity::FileLevel,
            RecoveryStrategy::SkipFile,
        ),
        (
            AppError::HardwareAccelerationError("test".to_string()),
            ErrorSeverity::Recoverable,
            RecoveryStrategy::Fallback,
        ),
        (
            AppError::BatchProcessingError { completed: 1, failed: 1 },
            ErrorSeverity::Warning,
            RecoveryStrategy::UserConfirmation,
        ),
    ];

    for (error, expected_severity, expected_strategy) in test_cases {
        assert_eq!(error.severity(), expected_severity, "Severity mismatch for {:?}", error);
        assert_eq!(
            error.recovery_strategy(),
            expected_strategy,
            "Recovery strategy mismatch for {:?}",
            error
        );

        let allows_continuation = error.allows_batch_continuation();
        let should_allow = !matches!(expected_severity, ErrorSeverity::Critical);
        assert_eq!(
            allows_continuation, should_allow,
            "Batch continuation allowance inconsistent for {:?}",
            error
        );
    }
}

#[test]
fn test_error_recovery_with_retry_limits() {
    let mut manager = ErrorRecoveryManager::new().with_max_retries(2);
    let file_path = "/test/problematic.mkv".to_string();

    for attempt in 1..=3 {
        let error = AppError::EncodingError(format!("Attempt {} failed", attempt));
        let (decision, _) = manager.handle_error(error, Some(file_path.clone()));
        assert_eq!(decision, RecoveryDecision::SkipFile);
    }

    let recovery_log = manager.get_recovery_log();
    assert_eq!(recovery_log.len(), 3);

    for attempt in recovery_log {
        assert_eq!(attempt.file_path, Some(file_path.clone()));
        assert_eq!(attempt.strategy, RecoveryStrategy::SkipFile);
    }
}

#[test]
fn test_error_helper_functions() {
    let file_path = "/test/video.mkv".to_string();

    let file_error = AppError::file_error(file_path.clone(), "Custom error message");
    match file_error {
        AppError::FileProcessingError { file, error } => {
            assert_eq!(file, file_path);
            assert_eq!(error, "Custom error message");
        }
        _ => panic!("Expected FileProcessingError"),
    }

    let hw_error = AppError::hardware_error("Custom hardware error");
    match hw_error {
        AppError::HardwareAccelerationError(msg) => {
            assert_eq!(msg, "Custom hardware error");
        }
        _ => panic!("Expected HardwareAccelerationError"),
    }

    let ffmpeg_error = AppError::ffmpeg_error("Custom FFmpeg error");
    match ffmpeg_error {
        AppError::FFmpegError(msg) => {
            assert_eq!(msg, "Custom FFmpeg error");
        }
        _ => panic!("Expected FFmpegError"),
    }
}

#[test]
fn test_error_recovery_manager_creation() {
    let manager = ErrorRecoveryManager::new();
    assert_eq!(manager.get_error_log().len(), 0);
    assert_eq!(manager.get_recovery_log().len(), 0);
    assert!(!manager.has_critical_errors());
}

#[test]
fn test_handle_critical_error() {
    let mut manager = ErrorRecoveryManager::new();
    let error = AppError::ConfigError("Invalid configuration".to_string());

    let (decision, notification) = manager.handle_error(error, None);

    assert_eq!(decision, RecoveryDecision::Abort);
    assert!(manager.has_critical_errors());
    match notification {
        Some(ErrorNotification::CriticalError { error, requires_user_action }) => {
            assert_eq!(error, "Configuration error: Invalid configuration");
            assert!(requires_user_action);
        }
        other => panic!("Expected CriticalError, got {:?}", other),
    }
    assert!(manager.get_error_log().is_empty());
    assert_eq!(manager.get_statistics().total_errors, 1);
    assert!(!manager.get_recovery_log()[0].success);
}

#[test]
fn test_error_statistics_tracking() {
    let mut manager = ErrorRecoveryManager::new();
    let errors = vec![
        (AppError::ConfigError("Config error".to_string()), None),
        (AppError::EncodingError("Encoding error".to_string()), Some("/test/file1.mkv".to_string())),
        (AppError::HardwareAccelerationError("Hardware error".to_string()), None),
        (AppError::BatchProcessingError { completed: 3, failed: 1 }, None),
        (
            AppError::FileProcessingError {
                file: "/test/file2.mkv".to_string(),
                error: "Processing error".to_string(),
            },
            Some("/test/file2.mkv".to_string()),
        ),
    ];
    for (error, file_path) in errors {
        let _ = manager.handle_error(error, file_path);
    }
    let stats = manager.get_statistics();
    assert_eq!(stats.total_errors, 5);
    assert_eq!(stats.critical_errors, 1);
    assert_eq!(stats.file_level_errors, 2);
    assert_eq!(stats.recoverable_errors, 1);
    assert!(stats.recovery_attempts > 0);
    let error_log = manager.get_error_log();
    assert_eq!(error_log.len(), 2);
    assert_eq!(error_log[0].0, "/test/file1.mkv");
    assert_eq!(error_log[1].0, "/test/file2.mkv");
    assert_eq!(manager.get_recovery_log().len(), 5);
}

#[test]
fn test_handle_file_level_error_without_file() {
    let mut manager = ErrorRecoveryManager::new();
    let (decision, notification) =
        manager.handle_error(AppError::EncodingError("FFmpeg failed".to_string()), None);
    assert_eq!(decision, RecoveryDecision::SkipFile);
    assert!(notification.is_none());
    assert_eq!(manager.get_recovery_log().len(), 1);
    assert_eq!(manager.get_recovery_log()[0].file_path, None);
    assert_eq!(manager.get_recovery_log()[0].strategy, RecoveryStrategy::SkipFile);
    assert!(manager.get_recovery_log()[0].success);
    assert_eq!(manager.get_statistics().file_level_errors, 1);
}

#[test]
fn test_error_scenario_coverage() {
    let mut recovery_manager = ErrorRecoveryManager::new()
        .with_hardware_fallback(true)
        .with_max_retries(3);
    let error_scenarios = vec![
        (AppError::ConfigError("Invalid config".to_string()), RecoveryDecision::Abort),
        (AppError::EncodingError("Encoding failed".to_string()), RecoveryDecision::SkipFile),
        (
            AppError::HardwareAccelerationError("AMD AMF failed".to_string()),
            RecoveryDecision::FallbackToSoftware,
        ),
        (AppError::BatchProcessingError { completed: 5, failed: 2 }, RecoveryDecision::Continue),
    ];
    for (error, expected_decision) in error_scenarios {
        let (decision, _) = recovery_manager.handle_error(error, None);
        assert_eq!(decision, expected_decision);
    }
    let stats = recovery_manager.get_statistics();
    assert!(stats.total_errors > 0);
    assert!(stats.successful_recoveries > 0);
}

#[test]
fn test_other_recoverable_errors_continue() {
    let mut manager = ErrorRecoveryManager::new();
    let (decision, notification) =
        manager.handle_error(AppError::TuiError("no terminal".to_string()), None);
    assert_eq!(decision, RecoveryDecision::Continue);
    assert!(notification.is_none());
    assert_eq!(manager.get_statistics().recoverable_errors, 1);
}

#[test]
fn error_recovery_test_error_severity_classification() {
    assert_eq!(AppError::ConfigError("test".to_string()).severity(), ErrorSeverity::Critical);
    assert_eq!(AppError::EncodingError("test".to_string()).severity(), ErrorSeverity::FileLevel);
    assert_eq!(
        AppError::HardwareAccelerationError("test".to_string()).severity(),
        ErrorSeverity::Recoverable
    );
}

#[test]
fn error_recovery_test_recovery_strategy_determination() {
    assert_eq!(
        AppError::ConfigError("test".to_string()).recovery_strategy(),
        RecoveryStrategy::Abort
    );
    assert_eq!(
        AppError::EncodingError("test".to_string()).recovery_strategy(),
        RecoveryStrategy::SkipFile
    );
    assert_eq!(
        AppError::HardwareAccelerationError("test".to_string()).recovery_strategy(),
        RecoveryStrategy::Fallback
    );
}

#[test]
fn error_recovery_test_batch_continuation_allowance() {
    assert!(!AppError::ConfigError("test".to_string()).allows_batch_continuation());
    assert!(AppError::EncodingError("test".to_string()).allows_batch_continuation());
    assert!(AppError::HardwareAccelerationError("test".to_string()).allows_batch_continuation());
}

#[test]
fn test_ffmpeg_error_handling() {
    for message in ["ffmpeg: command not found", "Invalid argument", "Device creation failed"] {
        let e = AppError::ffmpeg_error(message);
        assert_eq!(e.severity(), ErrorSeverity::FileLevel);
        assert_eq!(e.recovery_strategy(), RecoveryStrategy::SkipFile);
        assert!(e.allows_batch_continuation());
        assert!(e.to_string().contains(message));
    }
}

#[test]
fn test_error_statistics_default() {
    let s = ErrorStatistics::default();
    assert_eq!(
        (
            s.total_errors,
            s.critical_errors,
            s.file_level_errors,
            s.recoverable_errors,
            s.recovery_attempts,
            s.successful_recoveries,
            s.failed_recoveries
        ),
        (0, 0, 0, 0, 0, 0, 0)
    );
}
