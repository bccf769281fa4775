use std::path::Path;

use video_encoder::cli::{validate_parallel_jobs, Config, QualityProfile};
use video_encoder::AppError;

fn config_for(target: &str, profile: QualityProfile, jobs: usize, verbose: bool) -> Config {
    Config {
        target_directory: target.to_string(),
        quality_profile: profile,
        max_parallel_jobs: jobs,
        verbose,
    }
}

fn validate_on_disk(config: &Config) -> Result<(), AppError> {
    let p = Path::new(&config.target_directory);
    let exists = p.exists();
    let is_dir = exists && p.is_dir();
    config.validate(exists, is_dir, None)
}

#[test]
fn test_quality_profile_crf_values() {
    assert_eq!(QualityProfile::Quality.crf_value(), 20);
    assert_eq!(QualityProfile::Medium.crf_value(), 23);
    assert_eq!(QualityProfile::HighCompression.crf_value(), 28);
}

#[test]
fn test_quality_profile_descriptions() {
    assert_eq!(QualityProfile::Quality.description(), "High quality (larger file size)");
    assert_eq!(QualityProfile::Medium.description(), "Balanced quality and size");
    assert_eq!(
        QualityProfile::HighCompression.description(),
        "Maximum compression (smaller file size)"
    );
}

#[test]
fn test_validate_parallel_jobs_valid() {
    assert_eq!(validate_parallel_jobs("1").unwrap(), 1);
    assert_eq!(validate_parallel_jobs("2").unwrap(), 2);
    assert_eq!(validate_parallel_jobs("4").unwrap(), 4);
    assert_eq!(validate_parallel_jobs("8").unwrap(), 8);
}

#[test]
fn test_validate_parallel_jobs_invalid() {
    assert!(validate_parallel_jobs("0").is_err());
    assert!(validate_parallel_jobs("9").is_err());
    assert!(validate_parallel_jobs("abc").is_err());
    assert!(validate_parallel_jobs("-1").is_err());
}

#[test]
fn test_validate_parallel_jobs_messages() {
    assert_eq!(validate_parallel_jobs("abc").unwrap_err(), "'abc' is not a valid number");
    assert_eq!(validate_parallel_jobs("").unwrap_err(), "'' is not a valid number");
    assert_eq!(validate_parallel_jobs("+").unwrap_err(), "'+' is not a valid number");
    assert_eq!(
        validate_parallel_jobs("0").unwrap_err(),
        "Number of parallel jobs must be at least 1"
    );
    assert_eq!(
        validate_parallel_jobs("9").unwrap_err(),
        "Number of parallel jobs cannot exceed 8"
    );
    assert_eq!(
        validate_parallel_jobs("99999999999999999999999").unwrap_err(),
        "'99999999999999999999999' is not a valid number"
    );
    assert_eq!(
        validate_parallel_jobs("18446744073709551615").unwrap_err(),
        "Number of parallel jobs cannot exceed 8"
    );
    assert_eq!(validate_parallel_jobs("+3").unwrap(), 3);
    assert_eq!(validate_parallel_jobs("0007").unwrap(), 7);
    assert!(validate_parallel_jobs(" 3").is_err());
}

#[test]
fn test_config_validation_valid_directory() {
    let config = config_for("/", QualityProfile::Medium, 2, false);
    assert!(validate_on_disk(&config).is_ok());
}

#[test]
fn test_config_validation_nonexistent_directory() {
    let config = config_for("/nonexistent/directory", QualityProfile::Medium, 2, false);
    assert!(validate_on_disk(&config).is_err());
}

#[test]
fn test_config_validation_messages() {
    let config = config_for("/data/videos", QualityProfile::Medium, 2, false);
    match config.validate(false, false, None) {
        Err(AppError::ConfigError(m)) => {
            assert_eq!(m, "Target directory does not exist: \"/data/videos\"")
        }
        other => panic!("unexpected {:?}", other),
    }
    match config.validate(true, false, None) {
        Err(AppError::ConfigError(m)) => {
            assert_eq!(m, "Target path is not a directory: \"/data/videos\"")
        }
        other => panic!("unexpected {:?}", other),
    }
    match config.validate(true, true, Some("Permission denied".to_string())) {
        Err(AppError::ConfigError(m)) => assert_eq!(
            m,
            "Cannot read target directory \"/data/videos\": Permission denied"
        ),
        other => panic!("unexpected {:?}", other),
    }
    assert!(config.validate(true, true, None).is_ok());
}

#[test]
fn test_output_directory_root_path() {
    let config = config_for("/", QualityProfile::Medium, 2, false);
    let output_dir = config.output_directory();
    assert!(output_dir.contains("-encodes"));
}

#[test]
fn test_output_directory_sibling_of_target() {
    let config = config_for("/tmp/library/videos", QualityProfile::Medium, 2, false);
    assert_eq!(config.output_directory(), "/tmp/library/videos-encodes");
    let root = config_for("/", QualityProfile::Medium, 2, false);
    assert_eq!(root.output_directory(), "/output-encodes");
    let relative = config_for("videos", QualityProfile::Medium, 2, false);
    assert_eq!(relative.output_directory(), "videos-encodes");
}

#[test]
fn test_quality_profile_equality() {
    assert_eq!(QualityProfile::Quality, QualityProfile::Quality);
    assert_eq!(QualityProfile::Medium, QualityProfile::Medium);
    assert_eq!(QualityProfile::HighCompression, QualityProfile::HighCompression);

    assert_ne!(QualityProfile::Quality, QualityProfile::Medium);
    assert_ne!(QualityProfile::Medium, QualityProfile::HighCompression);
}

#[test]
fn test_config_debug_format() {
    let config = config_for("/", QualityProfile::Quality, 4, true);
    let debug_str = format!("{:?}", config);
    assert!(debug_str.contains("Quality"));
    assert!(debug_str.contains("max_parallel_jobs: 4"));
    assert!(debug_str.contains("verbose: true"));
}

#[test]
fn test_crf_orders_quality_profiles() {
    assert!(QualityProfile::Quality.crf_value() < QualityProfile::Medium.crf_value());
    assert!(QualityProfile::Medium.crf_value() < QualityProfile::HighCompression.crf_value());
}
