use video_encoder::scanner::{
    detect_codec_from_streams, filter_encodable_files, generate_output_filename,
    generate_output_path, get_video_metadata, is_scanned_video_extension,
    output_directory_needs_creation, validate_file_preservation, StreamCodec, StreamInfo,
    VideoCodec, VideoFile,
};
use video_encoder::generate_output_filename as output_name;
use video_encoder::{AppError, Result};

fn video(name: &str, size: u64, codec: VideoCodec) -> VideoFile {
    VideoFile {
        path: name.to_string(),
        filename: name.to_string(),
        size,
        codec,
        resolution: None,
        duration: None,
        bitrate: None,
    }
}

#[test]
fn test_video_file_new() {
    let path = "/test/movie.mkv".to_string();
    let video_file = VideoFile::new(path.clone());

    assert_eq!(video_file.path, path);
    assert_eq!(video_file.filename, "movie.mkv");
    assert_eq!(video_file.size, 0);
    assert!(matches!(video_file.codec, VideoCodec::Unknown));
}

#[test]
fn test_video_file_new_without_file_name() {
    let video_file = VideoFile::new("/".to_string());
    assert_eq!(video_file.filename, "unknown");
    assert!(video_file.resolution.is_none());
    assert!(video_file.duration.is_none());
    assert!(video_file.bitrate.is_none());
}

#[test]
fn test_filter_encodable_files() {
    let files = vec![
        video("movie1.mkv", 1000, VideoCodec::H264),
        video("movie2-h265.mkv", 800, VideoCodec::H264),
        video("movie3.mkv", 1200, VideoCodec::H265),
        video("movie4-x265.mp4", 900, VideoCodec::H264),
    ];

    let filtered = filter_encodable_files(files);

    assert_eq!(filtered.len(), 1);
    assert_eq!(filtered[0].filename, "movie1.mkv");
    assert!(matches!(filtered[0].codec, VideoCodec::H264));
}

#[test]
fn test_filter_case_insensitive() {
    let files = vec![
        video("movie-H265.mkv", 1000, VideoCodec::H264),
        video("movie-X265.mp4", 800, VideoCodec::H264),
    ];

    let filtered = filter_encodable_files(files);

    assert_eq!(filtered.len(), 0);
}

#[test]
fn test_filter_keeps_order_and_drops_unknown() {
    let files = vec![
        video("b.mkv", 1, VideoCodec::H264),
        video("unknown.mkv", 2, VideoCodec::Unknown),
        video("a.mp4", 3, VideoCodec::H264),
        video("ÉPISODE-Ĥ265.mkv", 4, VideoCodec::H264),
    ];
    let filtered = filter_encodable_files(files);
    let names: Vec<&str> = filtered.iter().map(|f| f.filename.as_str()).collect();
    assert_eq!(names, vec!["b.mkv", "a.mp4", "ÉPISODE-Ĥ265.mkv"]);
}

#[test]
fn test_scanned_extensions() {
    assert!(is_scanned_video_extension("mkv"));
    assert!(is_scanned_video_extension("MP4"));
    assert!(is_scanned_video_extension("Mkv"));
    assert!(!is_scanned_video_extension("txt"));
    assert!(!is_scanned_video_extension("mkv2"));
    assert!(!is_scanned_video_extension(""));
}

#[test]
fn test_codec_from_first_video_stream() {
    let audio = StreamInfo { is_video: false, codec: StreamCodec::Other };
    let h264 = StreamInfo { is_video: true, codec: StreamCodec::H264 };
    let hevc = StreamInfo { is_video: true, codec: StreamCodec::Hevc };
    let other = StreamInfo { is_video: true, codec: StreamCodec::Other };
    assert_eq!(detect_codec_from_streams(&vec![audio, h264, hevc]), VideoCodec::H264);
    assert_eq!(detect_codec_from_streams(&vec![hevc, h264]), VideoCodec::H265);
    assert_eq!(detect_codec_from_streams(&vec![audio, other, h264]), VideoCodec::Unknown);
    assert_eq!(detect_codec_from_streams(&vec![audio]), VideoCodec::Unknown);
    assert_eq!(detect_codec_from_streams(&vec![]), VideoCodec::Unknown);
}

#[test]
fn test_video_metadata_unknown() {
    let (resolution, duration, bitrate) = get_video_metadata("/test/movie.mkv").unwrap();
    assert!(resolution.is_none());
    assert!(duration.is_none());
    assert!(bitrate.is_none());
}

#[test]
fn test_output_directory_decision() {
    assert_eq!(output_directory_needs_creation("/out", false, false).unwrap(), true);
    assert_eq!(output_directory_needs_creation("/out", true, true).unwrap(), false);
    match output_directory_needs_creation("/out", true, false) {
        Err(AppError::ScanError(msg)) => {
            assert!(msg.contains("not a directory"));
            assert_eq!(msg, "Output path exists but is not a directory: \"/out\"");
        }
        other => panic!("Expected ScanError, got {:?}", other),
    }
}

#[test]
fn test_generate_output_filename() -> Result<()> {
    let output_filename = generate_output_filename("movie.mkv")?;
    assert_eq!(output_filename, "movie-h265.mkv");
    Ok(())
}

#[test]
fn test_generate_output_filename_mp4() -> Result<()> {
    let output_filename = generate_output_filename("video.mp4")?;
    assert_eq!(output_filename, "video-h265.mp4");
    Ok(())
}

#[test]
fn test_generate_output_filename_complex() -> Result<()> {
    let output_filename = generate_output_filename("My Movie (2023) [1080p].mkv")?;
    assert_eq!(output_filename, "My Movie (2023) [1080p]-h265.mkv");
    Ok(())
}

#[test]
fn test_generate_output_filename_no_extension() {
    let result = generate_output_filename("movie");
    assert!(result.is_err());
    if let Err(AppError::ScanError(msg)) = result {
        assert!(msg.contains("No file extension"));
    } else {
        panic!("Expected ScanError for no extension");
    }
}

#[test]
fn test_generate_output_filename_edge_cases() {
    assert_eq!(generate_output_filename("/a/b/archive.tar.gz").unwrap(), "archive.tar-h265.gz");
    assert_eq!(generate_output_filename("clip.").unwrap(), "clip-h265.");
    match generate_output_filename("/videos/.hidden") {
        Err(AppError::ScanError(msg)) => {
            assert_eq!(msg, "No file extension found: \"/videos/.hidden\"")
        }
        other => panic!("unexpected {:?}", other),
    }
    match generate_output_filename("/") {
        Err(AppError::ScanError(msg)) => assert_eq!(msg, "Invalid filename: \"/\""),
        other => panic!("unexpected {:?}", other),
    }
    match generate_output_filename("/videos/..") {
        Err(AppError::ScanError(msg)) => assert!(msg.starts_with("Invalid filename")),
        other => panic!("unexpected {:?}", other),
    }
}

#[test]
fn test_generate_output_path() -> Result<()> {
    let output_path = generate_output_path("/source/movie.mkv", "/output")?;
    assert_eq!(output_path, "/output/movie-h265.mkv");
    Ok(())
}

#[test]
fn test_validate_file_preservation_different_paths() -> Result<()> {
    validate_file_preservation("/source/movie.mkv", "/output/movie-h265.mkv", false)?;
    Ok(())
}

#[test]
fn test_validate_file_preservation_same_path() {
    let path = "/source/movie.mkv";
    let result = validate_file_preservation(path, path, false);
    assert!(result.is_err());
    if let Err(AppError::ScanError(msg)) = result {
        assert!(msg.contains("overwrite input file"));
    } else {
        panic!("Expected ScanError for same path");
    }
}

#[test]
fn test_validate_file_preservation_same_path_spelled_differently() {
    let result = validate_file_preservation("/source//movie.mkv", "/source/./movie.mkv", false);
    match result {
        Err(AppError::ScanError(msg)) => {
            assert_eq!(msg, "Output path would overwrite input file: \"/source//movie.mkv\"")
        }
        other => panic!("unexpected {:?}", other),
    }
}

#[test]
fn test_validate_file_preservation_existing_output() {
    let result = validate_file_preservation("/in/input.mkv", "/out/output-h265.mkv", true);
    if let Err(AppError::ScanError(msg)) = result {
        assert!(msg.contains("already exists"));
        assert_eq!(msg, "Output file already exists: \"/out/output-h265.mkv\"");
    } else {
        panic!("Expected ScanError for existing output");
    }
}

#[test]
fn test_root_output_filename_generation() {
    assert_eq!(output_name("movie.mkv"), "movie-h265.mkv");
    assert_eq!(output_name("video.mp4"), "video-h265.mp4");
    assert_eq!(output_name("no_extension"), "no_extension-h265");
    assert_eq!(output_name("complex.name.with.dots.mkv"), "complex.name.with.dots-h265.mkv");
    assert_eq!(output_name("series.s01e01.mkv"), "series.s01e01-h265.mkv");
    assert_eq!(output_name("already-h265.mkv"), "already-h265-h265.mkv");
    assert_eq!(output_name("file with spaces.mkv"), "file with spaces-h265.mkv");
    assert_eq!(output_name(".hidden"), "-h265.hidden");
    assert_eq!(output_name(""), "-h265");
    assert_ne!(output_name("movie.mkv"), "movie.mkv");
}
