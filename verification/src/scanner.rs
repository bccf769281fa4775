//! Video files: which ones are worth encoding, which files a directory scan
//! keeps, and how output files are named and checked so that no original is
//! ever overwritten.

use vstd::prelude::*;
use vstd::string::*;
use crate::error::AppError;
use crate::paths::{
    debug_path, file_name_of, join_paths, path_debug, path_eq, path_file_name, path_join,
    paths_equal,
};
use crate::text::{
    chars_of, contains_seq, last_index_of, lowercase, rfind_char, str_contains, str_eq,
    string_of_range, to_lowercase,
};

verus! {

/// The video codec of a file.
#[derive(Debug, Clone, Copy, PartialEq, Eq, Structural)]
pub enum VideoCodec {
    H264,
    H265,
    Unknown,
}

/// A video file found by a scan.
#[derive(Debug, Clone)]
pub struct VideoFile {
    pub path: String,
    pub filename: String,
    pub size: u64,
    pub codec: VideoCodec,
    pub resolution: Option<(u32, u32)>,
    pub duration: Option<std::time::Duration>,
    pub bitrate: Option<u32>,
}

impl VideoFile {
    /// A file at `path` of which nothing is known yet: its name is the final
    /// component of the path ("unknown" where there is none).
    pub fn new(path: String) -> (f: Self)
        ensures
            f.path == path,
            f.filename@ == match path_file_name(path@) {
                Some(n) => n,
                None => "unknown"@,
            },
            f.size == 0,
            f.codec == VideoCodec::Unknown,
            f.resolution is None,
            f.duration is None,
            f.bitrate is None,
    {
        let filename = match file_name_of(path.as_str()) {
            Some(n) => n,
            None => "unknown".to_owned(),
        };
        VideoFile {
            path,
            filename,
            size: 0,
            codec: VideoCodec::Unknown,
            resolution: None,
            duration: None,
            bitrate: None,
        }
    }
}

/// Whether a file should be encoded: it is H.264, and its name, in lowercase,
/// mentions neither "x265" nor "h265".
pub open spec fn is_encodable(f: VideoFile) -> bool {
    &&& f.codec != VideoCodec::H265
    &&& !contains_seq(lowercase(f.filename@), "x265"@)
    &&& !contains_seq(lowercase(f.filename@), "h265"@)
    &&& f.codec == VideoCodec::H264
}

fn encodable(file: &VideoFile) -> (b: bool)
    ensures
        b == is_encodable(*file),
{
    if file.codec == VideoCodec::H265 {
        return false;
    }
    let lower = to_lowercase(file.filename.as_str());
    if str_contains(lower.as_str(), "x265") || str_contains(lower.as_str(), "h265") {
        return false;
    }
    file.codec == VideoCodec::H264
}

/// Keep the files that should be encoded, in their order.
pub fn filter_encodable_files(files: Vec<VideoFile>) -> (r: Vec<VideoFile>)
    ensures
        r@ == files@.filter(|f: VideoFile| is_encodable(f)),
{
    let ghost all = files@;
    let ghost pred = |f: VideoFile| is_encodable(f);
    let mut kept: Vec<VideoFile> = Vec::new();
    proof {
        reveal(Seq::filter);
        assert(all.take(0) =~= Seq::<VideoFile>::empty());
    }
    for file in it: files.into_iter()
        invariant
            it.seq() == all,
            pred == (|f: VideoFile| is_encodable(f)),
            kept@ == all.take(it.index()).filter(pred),
    {
        let ghost g = file;
        let ghost idx = it.index();
        let ghost prefix = all.take(idx + 1);
        proof {
            assert(prefix.drop_last() =~= all.take(idx));
            assert(prefix.last() == g);
        }
        let keep = encodable(&file);
        assert(keep == is_encodable(g));
        if keep {
            kept.push(file);
        }
        proof {
            reveal(Seq::filter);
            assert(prefix.filter(pred) == if pred(g) {
                prefix.drop_last().filter(pred).push(g)
            } else {
                prefix.drop_last().filter(pred)
            });
            assert(pred(g) == is_encodable(g));
        }
    }
    proof {
        assert(all.take(all.len() as int) =~= all);
    }
    kept
}

/// The files kept for encoding are exactly the H.264 files whose lowercase
/// name mentions neither "x265" nor "h265" anywhere: every kept file is one
/// of the given files and is such a file, and every such given file is kept.
pub proof fn lemma_filter_keeps_unmarked_h264(files: Seq<VideoFile>)
    ensures
        ({
            let kept = files.filter(|f: VideoFile| is_encodable(f));
            &&& forall|i: int|
                0 <= i < kept.len() ==> {
                    &&& files.contains(#[trigger] kept[i])
                    &&& kept[i].codec == VideoCodec::H264
                    &&& !contains_seq(lowercase(kept[i].filename@), "x265"@)
                    &&& !contains_seq(lowercase(kept[i].filename@), "h265"@)
                }
            &&& forall|i: int|
                0 <= i < files.len() && files[i].codec == VideoCodec::H264 && !contains_seq(
                    lowercase(files[i].filename@),
                    "x265"@,
                ) && !contains_seq(lowercase(files[i].filename@), "h265"@) ==> kept.contains(
                    #[trigger] files[i],
                )
        }),
{
    let pred = |f: VideoFile| is_encodable(f);
    let kept = files.filter(pred);
    assert forall|i: int| 0 <= i < kept.len() implies {
        &&& files.contains(#[trigger] kept[i])
        &&& kept[i].codec == VideoCodec::H264
        &&& !contains_seq(lowercase(kept[i].filename@), "x265"@)
        &&& !contains_seq(lowercase(kept[i].filename@), "h265"@)
    } by {
        files.lemma_filter_pred(pred, i);
        assert(kept.contains(kept[i]));
        files.lemma_filter_contains_rev(pred, kept[i]);
    }
    assert forall|i: int|
        0 <= i < files.len() && files[i].codec == VideoCodec::H264 && !contains_seq(
            lowercase(files[i].filename@),
            "x265"@,
        ) && !contains_seq(lowercase(files[i].filename@), "h265"@) implies kept.contains(
        #[trigger] files[i],
    ) by {
        files.lemma_filter_contains(pred, i);
    }
}

/// Whether a file extension names a container that is scanned: "mkv" or
/// "mp4", in any case.
pub open spec fn is_scanned_extension(ext: Seq<char>) -> bool {
    lowercase(ext) == "mkv"@ || lowercase(ext) == "mp4"@
}

/// Whether a directory scan keeps a file with this extension.
pub fn is_scanned_video_extension(ext: &str) -> (b: bool)
    ensures
        b == is_scanned_extension(ext@),
{
    let lower = to_lowercase(ext);
    str_eq(lower.as_str(), "mkv") || str_eq(lower.as_str(), "mp4")
}

/// How a stream of a container is coded, as far as the scan cares.
#[derive(Debug, Clone, Copy, PartialEq, Eq, Structural)]
pub enum StreamCodec {
    H264,
    Hevc,
    Other,
}

/// One stream of a container: whether it is a video stream, and its codec.
#[derive(Debug, Clone, Copy, PartialEq, Eq, Structural)]
pub struct StreamInfo {
    pub is_video: bool,
    pub codec: StreamCodec,
}

/// The codec of a file, decided by its first video stream (Unknown where
/// there is none, or where that stream is neither H.264 nor HEVC).
pub open spec fn codec_of(streams: Seq<StreamInfo>) -> VideoCodec
    decreases streams.len(),
{
    if streams.len() == 0 {
        VideoCodec::Unknown
    } else if streams[0].is_video {
        match streams[0].codec {
            StreamCodec::H264 => VideoCodec::H264,
            StreamCodec::Hevc => VideoCodec::H265,
            StreamCodec::Other => VideoCodec::Unknown,
        }
    } else {
        codec_of(streams.drop_first())
    }
}

/// Decide a file's codec from its streams, in container order.
pub fn detect_codec_from_streams(streams: &Vec<StreamInfo>) -> (c: VideoCodec)
    ensures
        c == codec_of(streams@),
{
    let mut i: usize = 0;
    assert(streams@.subrange(0, streams@.len() as int) =~= streams@);
    while i < streams.len()
        invariant
            i <= streams@.len(),
            codec_of(streams@) == codec_of(streams@.subrange(i as int, streams@.len() as int)),
        decreases streams@.len() - i,
    {
        let s = streams[i];
        assert(streams@.subrange(i as int, streams@.len() as int)[0] == s);
        if s.is_video {
            return match s.codec {
                StreamCodec::H264 => VideoCodec::H264,
                StreamCodec::Hevc => VideoCodec::H265,
                StreamCodec::Other => VideoCodec::Unknown,
            };
        }
        assert(streams@.subrange(i as int, streams@.len() as int).drop_first() =~= streams@.subrange(
            i + 1,
            streams@.len() as int,
        ));
        i = i + 1;
    }
    VideoCodec::Unknown
}

/// Metadata beyond the codec is not read yet: resolution, duration and
/// bitrate are all unknown.
pub fn get_video_metadata(_path: &str) -> (r: Result<
    (Option<(u32, u32)>, Option<std::time::Duration>, Option<u32>),
    AppError,
>)
    ensures
        r matches Ok((resolution, duration, bitrate)) && resolution is None && duration is None
            && bitrate is None,
{
    Ok((None, None, None))
}

/// What an existing output location means: `Ok(true)` when the directory
/// must be created, `Ok(false)` when it is there, and an error when something
/// other than a directory stands in its place.
pub open spec fn output_directory_status(
    output_dir: Seq<char>,
    exists: bool,
    is_dir: bool,
) -> Result<bool, Seq<char>> {
    if !exists {
        Ok(true)
    } else if !is_dir {
        Err("Output path exists but is not a directory: "@ + path_debug(output_dir))
    } else {
        Ok(false)
    }
}

/// Decide what to do about the output directory, given whether it exists
/// and whether it is a directory.
pub fn output_directory_needs_creation(output_dir: &str, exists: bool, is_dir: bool) -> (r: Result<
    bool,
    AppError,
>)
    ensures
        match output_directory_status(output_dir@, exists, is_dir) {
            Ok(b) => r == Ok::<bool, AppError>(b),
            Err(m) => r matches Err(AppError::ScanError(msg)) && msg@ == m,
        },
{
    if !exists {
        Ok(true)
    } else if !is_dir {
        let mut msg = "Output path exists but is not a directory: ".to_owned();
        msg.append(debug_path(output_dir).as_str());
        Err(AppError::ScanError(msg))
    } else {
        Ok(false)
    }
}

/// The stem of a file name, as `Path::file_stem` gives it: the part before
/// the last '.', or the whole name when there is no '.' or only a leading one.
pub open spec fn stem_of(name: Seq<char>) -> Seq<char> {
    let d = last_index_of(name, '.');
    if name == ".."@ || d <= 0 {
        name
    } else {
        name.subrange(0, d)
    }
}

/// The extension of a file name, as `Path::extension` gives it: the part
/// after the last '.', if there is a '.' that is not leading.
pub open spec fn extension_of(name: Seq<char>) -> Option<Seq<char>> {
    let d = last_index_of(name, '.');
    if name == ".."@ || d <= 0 {
        None
    } else {
        Some(name.subrange(d + 1, name.len() as int))
    }
}

/// The output file name for an input path: stem, "-h265.", extension; or
/// the message of the error when the path has no file name or no extension.
pub open spec fn output_filename_for(input: Seq<char>) -> Result<Seq<char>, Seq<char>> {
    match path_file_name(input) {
        None => Err("Invalid filename: "@ + path_debug(input)),
        Some(name) => match extension_of(name) {
            None => Err("No file extension found: "@ + path_debug(input)),
            Some(ext) => Ok(stem_of(name) + "-h265."@ + ext),
        },
    }
}

/// Generate output filename by appending "-h265" to the file stem.
pub fn generate_output_filename(input_path: &str) -> (r: Result<String, AppError>)
    ensures
        match output_filename_for(input_path@) {
            Ok(n) => r matches Ok(s) && s@ == n,
            Err(m) => r matches Err(AppError::ScanError(msg)) && msg@ == m,
        },
{
    let name = match file_name_of(input_path) {
        Some(n) => n,
        None => {
            let mut msg = "Invalid filename: ".to_owned();
            msg.append(debug_path(input_path).as_str());
            return Err(AppError::ScanError(msg));
        },
    };
    let cs = chars_of(name.as_str());
    proof {
        reveal_strlit("..");
    }
    let is_parent = cs.len() == 2 && cs[0] == '.' && cs[1] == '.';
    assert(is_parent == (name@ == ".."@)) by {
        if is_parent {
            assert(name@ =~= ".."@);
        }
    }
    let dot = rfind_char(&cs, '.');
    let d: usize = match dot {
        Some(d) if d > 0 && !is_parent => d,
        _ => {
            let mut msg = "No file extension found: ".to_owned();
            msg.append(debug_path(input_path).as_str());
            return Err(AppError::ScanError(msg));
        },
    };
    let mut out = string_of_range(name.as_str(), 0, d);
    out.append("-h265.");
    let ext = string_of_range(name.as_str(), d + 1, cs.len());
    out.append(ext.as_str());
    Ok(out)
}

/// Generate full output path for an input file: the output file name joined
/// to the output directory.
pub fn generate_output_path(input_path: &str, output_dir: &str) -> (r: Result<String, AppError>)
    ensures
        match output_filename_for(input_path@) {
            Ok(n) => r matches Ok(s) && s@ == path_join(output_dir@, n),
            Err(m) => r matches Err(AppError::ScanError(msg)) && msg@ == m,
        },
{
    let name = generate_output_filename(input_path)?;
    Ok(join_paths(output_dir, name.as_str()))
}

/// The outcome of checking that writing `output` keeps `input` intact:
/// the message of the error, or `None` when the output may be written. The
/// output is the input when the two have the same text, or are equal as
/// paths, component by component.
pub open spec fn preservation_check(input: Seq<char>, output: Seq<char>, output_exists: bool) -> Option<
    Seq<char>,
> {
    if input == output || path_eq(input, output) {
        Some("Output path would overwrite input file: "@ + path_debug(input))
    } else if output_exists {
        Some("Output file already exists: "@ + path_debug(output))
    } else {
        None
    }
}

/// Validate that original files will be preserved: the output path differs
/// from the input path and does not exist yet (`output_exists` says whether
/// it does).
pub fn validate_file_preservation(input_path: &str, output_path: &str, output_exists: bool) -> (r:
    Result<(), AppError>)
    ensures
        match preservation_check(input_path@, output_path@, output_exists) {
            Some(m) => r matches Err(AppError::ScanError(msg)) && msg@ == m,
            None => r is Ok,
        },
        input_path@ == output_path@ ==> (r matches Err(AppError::ScanError(m)) && m@
            == "Output path would overwrite input file: "@ + path_debug(input_path@)),
        r is Ok ==> input_path@ != output_path@ && !output_exists,
{
    if paths_equal(input_path, output_path) {
        let mut msg = "Output path would overwrite input file: ".to_owned();
        msg.append(debug_path(input_path).as_str());
        return Err(AppError::ScanError(msg));
    }
    if output_exists {
        let mut msg = "Output file already exists: ".to_owned();
        msg.append(debug_path(output_path).as_str());
        return Err(AppError::ScanError(msg));
    }
    Ok(())
}


/// An output file name never equals the input's own file name, and a file
/// that passes the preservation check is never the input: encoding never
/// writes over its source.
pub proof fn lemma_originals_preserved(input: Seq<char>, output: Seq<char>, output_exists: bool)
    ensures
        output_filename_for(input) matches Ok(n) ==> Some(n) != path_file_name(input),
        preservation_check(input, output, output_exists) is None ==> input != output && !path_eq(
            input,
            output,
        ) && !output_exists,
{
    if let Ok(n) = output_filename_for(input) {
        let name = path_file_name(input)->0;
        let d = last_index_of(name, '.');
        crate::text::lemma_last_index_of_bounds(name, '.');
        reveal_strlit("-h265.");
        assert(n.len() == name.len() + 5);
    }
}

} // verus!
