//! Command-line configuration: quality profiles, the checks on the target
//! directory and on the number of parallel jobs, and the output directory.

use vstd::prelude::*;
use vstd::string::*;
use crate::error::AppError;
use crate::paths::{
    debug_path, file_name_of, join_paths, opt_text, parent_of, path_debug, path_file_name,
    path_join, path_parent,
};
use crate::text::{parse_bounded_unsigned, parse_unsigned};

verus! {

/// Quality profiles for video encoding with corresponding CRF values.
#[derive(Debug, Clone, Copy, PartialEq, Eq, Structural)]
pub enum QualityProfile {
    /// High quality encoding (CRF 18-20)
    Quality,
    /// Balanced quality and size (CRF 23-25)
    Medium,
    /// Maximum compression (CRF 28-30)
    HighCompression,
}

/// The constant rate factor of each profile: lower means higher quality.
pub open spec fn profile_crf(q: QualityProfile) -> u8 {
    match q {
        QualityProfile::Quality => 20,
        QualityProfile::Medium => 23,
        QualityProfile::HighCompression => 28,
    }
}

/// The human-readable description of each profile.
pub open spec fn profile_description(q: QualityProfile) -> Seq<char> {
    match q {
        QualityProfile::Quality => "High quality (larger file size)"@,
        QualityProfile::Medium => "Balanced quality and size"@,
        QualityProfile::HighCompression => "Maximum compression (smaller file size)"@,
    }
}

impl QualityProfile {
    /// Get the CRF value for this quality profile.
    pub fn crf_value(&self) -> (v: u8)
        ensures
            v == profile_crf(*self),
    {
        match self {
            QualityProfile::Quality => 20,
            QualityProfile::Medium => 23,
            QualityProfile::HighCompression => 28,
        }
    }

    /// Get a human-readable description of the quality profile.
    pub fn description(&self) -> (d: &'static str)
        ensures
            d@ == profile_description(*self),
    {
        match self {
            QualityProfile::Quality => "High quality (larger file size)",
            QualityProfile::Medium => "Balanced quality and size",
            QualityProfile::HighCompression => "Maximum compression (smaller file size)",
        }
    }
}

/// A higher-quality profile never has a higher CRF: Quality < Medium <
/// HighCompression.
pub proof fn lemma_crf_orders_profiles()
    ensures
        profile_crf(QualityProfile::Quality) < profile_crf(QualityProfile::Medium),
        profile_crf(QualityProfile::Medium) < profile_crf(QualityProfile::HighCompression),
{
}

/// Configuration for the video encoding application.
#[derive(Debug, Clone)]
pub struct Config {
    /// Target directory containing video files to encode
    pub target_directory: String,
    /// Quality profile for encoding
    pub quality_profile: QualityProfile,
    /// Maximum number of parallel encoding jobs
    pub max_parallel_jobs: usize,
    /// Enable verbose output
    pub verbose: bool,
}

/// The output directory for a target directory: a sibling named after the
/// target with "-encodes" appended ("output-encodes" where the target has no
/// final component), placed beside it (inside it where it has no parent).
pub open spec fn output_directory_for(target: Seq<char>) -> Seq<char> {
    let name = match path_file_name(target) {
        Some(n) => n,
        None => "output"@,
    };
    let parent = match path_parent(target) {
        Some(p) => p,
        None => target,
    };
    path_join(parent, name + "-encodes"@)
}

/// The output directory sits beside the target and is named after it:
/// whenever the target has a final component `n` and a parent `p`, the
/// output directory is `p` joined with `n` followed by "-encodes". So it
/// depends only on the target's parent and final component, not on how the
/// target is spelled (a trailing separator, say).
pub proof fn lemma_output_directory_is_sibling(target: Seq<char>, other: Seq<char>)
    ensures
        path_file_name(target) matches Some(n) ==> (path_parent(target) matches Some(p)
            ==> output_directory_for(target) == path_join(p, n + "-encodes"@)),
        path_file_name(target) is Some && path_parent(target) is Some && path_file_name(other)
            == path_file_name(target) && path_parent(other) == path_parent(target)
            ==> output_directory_for(other) == output_directory_for(target),
{
}

/// The outcome of validating a target directory, given what the filesystem
/// says of it: whether it exists, whether it is a directory, and the error
/// text of listing it, if listing failed.
pub open spec fn target_validation(
    target: Seq<char>,
    exists: bool,
    is_dir: bool,
    read_error: Option<Seq<char>>,
) -> Option<Seq<char>> {
    if !exists {
        Some("Target directory does not exist: "@ + path_debug(target))
    } else if !is_dir {
        Some("Target path is not a directory: "@ + path_debug(target))
    } else {
        match read_error {
            Some(e) => Some("Cannot read target directory "@ + path_debug(target) + ": "@ + e),
            None => None,
        }
    }
}

impl Config {
    /// Validate the configuration, given what the filesystem says of the
    /// target directory (whether it exists, whether it is a directory, and
    /// why listing it failed, if it did). Fails with a configuration error
    /// exactly when the target is missing, not a directory, or unreadable.
    pub fn validate(&self, exists: bool, is_dir: bool, read_error: Option<String>) -> (r: Result<
        (),
        AppError,
    >)
        ensures
            match target_validation(
                self.target_directory@,
                exists,
                is_dir,
                opt_text(read_error),
            ) {
                Some(m) => r matches Err(AppError::ConfigError(msg)) && msg@ == m,
                None => r is Ok,
            },
    {
        if !exists {
            let mut msg = "Target directory does not exist: ".to_owned();
            msg.append(debug_path(self.target_directory.as_str()).as_str());
            return Err(AppError::ConfigError(msg));
        }
        if !is_dir {
            let mut msg = "Target path is not a directory: ".to_owned();
            msg.append(debug_path(self.target_directory.as_str()).as_str());
            return Err(AppError::ConfigError(msg));
        }
        match read_error {
            Some(e) => {
                let mut msg = "Cannot read target directory ".to_owned();
                msg.append(debug_path(self.target_directory.as_str()).as_str());
                msg.append(": ");
                msg.append(e.as_str());
                Err(AppError::ConfigError(msg))
            },
            None => Ok(()),
        }
    }

    /// Get the output directory path based on the target directory.
    pub fn output_directory(&self) -> (d: String)
        ensures
            d@ == output_directory_for(self.target_directory@),
    {
        let mut name = match file_name_of(self.target_directory.as_str()) {
            Some(n) => n,
            None => "output".to_owned(),
        };
        let parent = match parent_of(self.target_directory.as_str()) {
            Some(p) => p,
            None => self.target_directory.clone(),
        };
        name.append("-encodes");
        join_paths(parent.as_str(), name.as_str())
    }
}

/// The outcome of checking a number of parallel jobs given as text: the
/// number, or the message that rejects it.
pub open spec fn parallel_jobs_check(s: Seq<char>) -> Result<nat, Seq<char>> {
    match parse_unsigned(s, usize::MAX as nat) {
        None => Err("'"@ + s + "' is not a valid number"@),
        Some(n) => if n == 0 {
            Err("Number of parallel jobs must be at least 1"@)
        } else if n > 8 {
            Err("Number of parallel jobs cannot exceed 8"@)
        } else {
            Ok(n)
        },
    }
}

/// Validate the parallel jobs parameter: a whole number from 1 to 8.
pub fn validate_parallel_jobs(s: &str) -> (r: Result<usize, String>)
    ensures
        match parallel_jobs_check(s@) {
            Ok(n) => r == Ok::<usize, String>(n as usize),
            Err(m) => r matches Err(e) && e@ == m,
        },
{
    let jobs = match parse_bounded_unsigned(s, usize::MAX as u64) {
        Some(v) => v as usize,
        None => {
            let mut msg = "'".to_owned();
            msg.append(s);
            msg.append("' is not a valid number");
            return Err(msg);
        },
    };
    if jobs == 0 {
        return Err("Number of parallel jobs must be at least 1".to_owned());
    }
    if jobs > 8 {
        return Err("Number of parallel jobs cannot exceed 8".to_owned());
    }
    Ok(jobs)
}

} // verus!
