//! FFmpeg: the encoding command lines, what FFmpeg's output says, and the
//! order of steps of one encoding with its fallback from hardware to
//! software.

use vstd::prelude::*;
use vstd::string::*;
use crate::cli::{profile_crf, QualityProfile};
use crate::error::{error_message, AppError};
use crate::paths::opt_text;
use crate::text::{
    contains_seq, decimal, join_strings, join_with, parse_bounded_unsigned, parse_unsigned,
    push_signed_decimal, signed_decimal, starts_with, str_contains, str_starts_with, str_trim,
    string_of_range, string_texts, trim, u64_to_decimal, chars_of,
};

verus! {

/// Settings of an encoding.
#[derive(Debug)]
pub struct EncodingConfig {
    pub quality_profile: QualityProfile,
    pub use_hardware_acceleration: bool,
    pub preserve_audio: bool,
    pub preserve_subtitles: bool,
    pub output_suffix: String,
}

impl Default for EncodingConfig {
    /// Medium quality, hardware acceleration requested, audio and subtitles
    /// kept, output suffix "-h265".
    fn default() -> (c: Self)
        ensures
            c.quality_profile == QualityProfile::Medium,
            c.use_hardware_acceleration,
            c.preserve_audio,
            c.preserve_subtitles,
            c.output_suffix@ == "-h265"@,
    {
        EncodingConfig {
            quality_profile: QualityProfile::Medium,
            use_hardware_acceleration: true,
            preserve_audio: true,
            preserve_subtitles: true,
            output_suffix: "-h265".to_owned(),
        }
    }
}

/// The texts of a list of strings.
pub open spec fn texts(v: Seq<String>) -> Seq<Seq<char>> {
    v.map_values(|s: String| s@)
}

/// The arguments that keep audio and subtitle streams, as configured.
pub open spec fn stream_copy_args(preserve_audio: bool, preserve_subtitles: bool) -> Seq<Seq<char>> {
    (if preserve_audio {
        seq!["-c:a"@, "copy"@]
    } else {
        Seq::empty()
    }) + (if preserve_subtitles {
        seq!["-c:s"@, "copy"@]
    } else {
        Seq::empty()
    })
}

/// The command line for AMD AMF hardware encoding to H.265, program name
/// first: AMF decoding,
/// the hevc_amf encoder in constant-quality mode with the profile's CRF for
/// I, P and B frames, the configured stream copies, progress on stdout, and
/// overwriting of the output.
pub open spec fn amd_command(
    profile: QualityProfile,
    preserve_audio: bool,
    preserve_subtitles: bool,
    input: Seq<char>,
    output: Seq<char>,
) -> Seq<Seq<char>> {
    let crf = decimal(profile_crf(profile) as nat);
    seq!["ffmpeg"@, "-hide_banner"@, "-y"@, "-hwaccel"@, "amf"@, "-i"@, input] + seq![
        "-c:v"@,
        "hevc_amf"@,
        "-quality"@,
        "quality"@,
        "-rc"@,
        "cqp"@,
        "-qp_i"@,
        crf,
        "-qp_p"@,
        crf,
        "-qp_b"@,
        crf,
    ] + stream_copy_args(preserve_audio, preserve_subtitles) + seq![
        "-progress"@,
        "pipe:1"@,
        output,
    ]
}

/// The arguments to FFmpeg for software encoding to H.265 with libx265,
/// without the program name: the profile's CRF, the medium preset, the
/// configured stream copies, progress on stdout, and overwriting of the
/// output.
pub open spec fn software_command(
    profile: QualityProfile,
    preserve_audio: bool,
    preserve_subtitles: bool,
    input: Seq<char>,
    output: Seq<char>,
) -> Seq<Seq<char>> {
    let crf = decimal(profile_crf(profile) as nat);
    seq!["-hide_banner"@, "-y"@, "-i"@, input] + seq![
        "-c:v"@,
        "libx265"@,
        "-crf"@,
        crf,
        "-preset"@,
        "medium"@,
    ] + stream_copy_args(preserve_audio, preserve_subtitles) + seq![
        "-progress"@,
        "pipe:1"@,
        output,
    ]
}

fn push_text(args: &mut Vec<String>, s: &str)
    ensures
        texts(final(args)@) == texts(old(args)@).push(s@),
{
    args.push(s.to_owned());
    assert(texts(args@) =~= texts(old(args)@).push(s@));
}

/// Encodes videos to H.265 with FFmpeg.
pub struct FFmpegEncoder {
    config: EncodingConfig,
}

impl FFmpegEncoder {
    /// The encoder's settings.
    pub closed spec fn settings(&self) -> EncodingConfig {
        self.config
    }

    /// An encoder for a quality profile, with the other settings at their
    /// defaults.
    pub fn new(quality_profile: QualityProfile) -> (e: Self)
        ensures
            e.settings().quality_profile == quality_profile,
            e.settings().use_hardware_acceleration,
            e.settings().preserve_audio,
            e.settings().preserve_subtitles,
            e.settings().output_suffix@ == "-h265"@,
    {
        let d = EncodingConfig::default();
        let config = EncodingConfig { quality_profile, ..d };
        FFmpegEncoder { config }
    }

    /// The encoder's settings.
    pub fn config(&self) -> (c: &EncodingConfig)
        ensures
            *c == self.settings(),
    {
        &self.config
    }

    /// The CRF of the encoder's quality profile.
    pub fn get_crf_value(&self) -> (v: u32)
        ensures
            v == profile_crf(self.settings().quality_profile),
    {
        match self.config.quality_profile {
            QualityProfile::Quality => 20,
            QualityProfile::Medium => 23,
            QualityProfile::HighCompression => 28,
        }
    }

    fn push_stream_copies(&self, args: &mut Vec<String>)
        ensures
            texts(final(args)@) == texts(old(args)@) + stream_copy_args(
                self.settings().preserve_audio,
                self.settings().preserve_subtitles,
            ),
    {
        let ghost start = texts(args@);
        if self.config.preserve_audio {
            push_text(args, "-c:a");
            push_text(args, "copy");
        }
        let ghost mid = texts(args@);
        assert(mid =~= start + (if self.config.preserve_audio {
            seq!["-c:a"@, "copy"@]
        } else {
            Seq::empty()
        }));
        if self.config.preserve_subtitles {
            push_text(args, "-c:s");
            push_text(args, "copy");
        }
        assert(texts(args@) =~= start + stream_copy_args(
            self.config.preserve_audio,
            self.config.preserve_subtitles,
        ));
    }

    /// Generate FFmpeg command arguments for AMD hardware encoding.
    fn generate_amd_command_args(&self, input: &str, output: &str) -> (args: Vec<String>)
        ensures
            texts(args@) == amd_command(
                self.settings().quality_profile,
                self.settings().preserve_audio,
                self.settings().preserve_subtitles,
                input@,
                output@,
            ),
    {
        let crf = u64_to_decimal(self.get_crf_value() as u64);
        let mut args: Vec<String> = Vec::new();
        push_text(&mut args, "ffmpeg");
        push_text(&mut args, "-hide_banner");
        push_text(&mut args, "-y");
        push_text(&mut args, "-hwaccel");
        push_text(&mut args, "amf");
        push_text(&mut args, "-i");
        push_text(&mut args, input);
        push_text(&mut args, "-c:v");
        push_text(&mut args, "hevc_amf");
        push_text(&mut args, "-quality");
        push_text(&mut args, "quality");
        push_text(&mut args, "-rc");
        push_text(&mut args, "cqp");
        push_text(&mut args, "-qp_i");
        push_text(&mut args, crf.as_str());
        push_text(&mut args, "-qp_p");
        push_text(&mut args, crf.as_str());
        push_text(&mut args, "-qp_b");
        push_text(&mut args, crf.as_str());
        let ghost before_copies = texts(args@);
        self.push_stream_copies(&mut args);
        push_text(&mut args, "-progress");
        push_text(&mut args, "pipe:1");
        push_text(&mut args, output);
        assert(texts(args@) =~= amd_command(
            self.config.quality_profile,
            self.config.preserve_audio,
            self.config.preserve_subtitles,
            input@,
            output@,
        ));
        args
    }

    /// Generate FFmpeg command arguments for software encoding fallback.
    fn generate_software_command_args(&self, input: &str, output: &str) -> (args: Vec<String>)
        ensures
            texts(args@) == software_command(
                self.settings().quality_profile,
                self.settings().preserve_audio,
                self.settings().preserve_subtitles,
                input@,
                output@,
            ),
    {
        let crf = u64_to_decimal(self.get_crf_value() as u64);
        let mut args: Vec<String> = Vec::new();
        push_text(&mut args, "-hide_banner");
        push_text(&mut args, "-y");
        push_text(&mut args, "-i");
        push_text(&mut args, input);
        push_text(&mut args, "-c:v");
        push_text(&mut args, "libx265");
        push_text(&mut args, "-crf");
        push_text(&mut args, crf.as_str());
        push_text(&mut args, "-preset");
        push_text(&mut args, "medium");
        self.push_stream_copies(&mut args);
        push_text(&mut args, "-progress");
        push_text(&mut args, "pipe:1");
        push_text(&mut args, output);
        assert(texts(args@) =~= software_command(
            self.config.quality_profile,
            self.config.preserve_audio,
            self.config.preserve_subtitles,
            input@,
            output@,
        ));
        args
    }

    /// Generate the encoding command: the AMD hardware command line, program
    /// name first, when `use_hardware`; the software encoding arguments to
    /// FFmpeg otherwise.
    pub fn generate_encoding_command(&self, input: &str, output: &str, use_hardware: bool) -> (args:
        Vec<String>)
        ensures
            texts(args@) == if use_hardware {
                amd_command(
                    self.settings().quality_profile,
                    self.settings().preserve_audio,
                    self.settings().preserve_subtitles,
                    input@,
                    output@,
                )
            } else {
                software_command(
                    self.settings().quality_profile,
                    self.settings().preserve_audio,
                    self.settings().preserve_subtitles,
                    input@,
                    output@,
                )
            },
    {
        if use_hardware {
            self.generate_amd_command_args(input, output)
        } else {
            self.generate_software_command_args(input, output)
        }
    }
}


/// Whether FFmpeg's list of encoders (`ffmpeg -hide_banner -encoders`)
/// offers an AMD AMF encoder: it mentions "h264_amf" or "hevc_amf".
pub open spec fn lists_amf_encoder(listing: Seq<char>) -> bool {
    contains_seq(listing, "h264_amf"@) || contains_seq(listing, "hevc_amf"@)
}

/// Decide from FFmpeg's list of encoders whether AMD AMF hardware
/// acceleration is available.
pub fn encoders_support_amf(listing: &str) -> (b: bool)
    ensures
        b == lists_amf_encoder(listing@),
{
    str_contains(listing, "h264_amf") || str_contains(listing, "hevc_amf")
}

/// The position FFmpeg reports in a progress line: the microseconds after
/// "out_time_ms=", when the line has that form.
pub open spec fn reported_out_time(line: Seq<char>) -> Option<nat> {
    if starts_with(line, "out_time_ms="@) {
        parse_unsigned(line.subrange(12, line.len() as int), u64::MAX as nat)
    } else {
        None
    }
}

/// Read the output position, in microseconds, from one line of FFmpeg's
/// progress output.
pub fn parse_out_time(line: &str) -> (r: Option<u64>)
    ensures
        match reported_out_time(line@) {
            Some(v) => r == Some(v as u64),
            None => r is None,
        },
{
    proof {
        reveal_strlit("out_time_ms=");
    }
    if !str_starts_with(line, "out_time_ms=") {
        return None;
    }
    let n = chars_of(line).len();
    let rest = string_of_range(line, 12, n);
    parse_bounded_unsigned(rest.as_str(), u64::MAX as u64)
}

/// `{:?}` of an optional exit code: "Some(n)" or "None".
pub open spec fn debug_exit_code(code: Option<i32>) -> Seq<char> {
    match code {
        Some(c) => "Some("@ + signed_decimal(c as int) + ")"@,
        None => "None"@,
    }
}

/// What FFmpeg wrote to stderr, as shown: its lines joined by newlines,
/// trimmed.
pub open spec fn stderr_text_of(lines: Seq<String>) -> Seq<char> {
    trim(join_with(string_texts(lines), "\n"@))
}

/// The message of a failed FFmpeg run: the encoding type and exit code, and
/// what FFmpeg wrote to stderr where it wrote anything.
pub open spec fn failure_message(encoding_type: Seq<char>, code: Option<i32>, lines: Seq<String>) -> Seq<
    char,
> {
    if lines.len() > 0 {
        "FFmpeg "@ + encoding_type + " encoding failed with exit code "@ + debug_exit_code(code)
            + ". Error output: "@ + stderr_text_of(lines)
    } else {
        "FFmpeg "@ + encoding_type + " encoding failed with exit code "@ + debug_exit_code(code)
    }
}

/// The text of FFmpeg's stderr lines, joined by newlines and trimmed.
pub fn stderr_text(lines: &Vec<String>) -> (r: String)
    ensures
        r@ == stderr_text_of(lines@),
{
    let joined = join_strings(lines, "\n");
    str_trim(joined.as_str())
}

fn push_debug_exit_code(s: &mut String, code: Option<i32>)
    ensures
        final(s)@ == old(s)@ + debug_exit_code(code),
{
    match code {
        Some(c) => {
            s.append("Some(");
            push_signed_decimal(s, c as i64);
            s.append(")");
        },
        None => {
            s.append("None");
        },
    }
}

/// Build the message of a failed FFmpeg run.
pub fn ffmpeg_failure_message(encoding_type: &str, exit_code: Option<i32>, stderr_lines: &Vec<
    String,
>) -> (m: String)
    ensures
        m@ == failure_message(encoding_type@, exit_code, stderr_lines@),
{
    let mut m = "FFmpeg ".to_owned();
    m.append(encoding_type);
    m.append(" encoding failed with exit code ");
    push_debug_exit_code(&mut m, exit_code);
    if stderr_lines.len() > 0 {
        m.append(". Error output: ");
        m.append(stderr_text(stderr_lines).as_str());
    }
    m
}


/// Where one encoding stands.
#[derive(Debug, Clone, Copy, PartialEq, Eq, Structural)]
pub enum EncodeStage {
    /// Waiting to hear whether the input exists and is a file.
    CheckingInput,
    /// Waiting for the input's duration to be probed.
    ProbingDuration,
    /// Waiting to hear whether AMD hardware encoding is available.
    DetectingHardware,
    /// Waiting for hardware encoding to end.
    EncodingWithHardware,
    /// Waiting for software encoding to end.
    EncodingWithSoftware,
    /// Nothing more to do.
    Finished,
}

/// What the caller reports back after doing what an action asked.
#[derive(Debug)]
pub enum EncodeEvent {
    /// Whether the input path exists, and whether it is a file.
    InputChecked { exists: bool, is_file: bool },
    /// The failure of probing the duration, if it failed.
    DurationProbed { failure: Option<AppError> },
    /// Whether an AMD AMF encoder is available.
    HardwareChecked { available: bool },
    /// The failure of running the hardware command, if it failed.
    HardwareEncoded { failure: Option<AppError> },
    /// The failure of running the software command, if it failed.
    SoftwareEncoded { failure: Option<AppError> },
}

/// What the caller is to do next.
#[derive(Debug)]
pub enum EncodeAction {
    /// Probe the input's duration.
    ProbeDuration,
    /// Find out whether AMD AMF encoding is available.
    DetectHardware,
    /// Run the hardware encoding command.
    EncodeWithHardware,
    /// Run the software encoding command, after showing the notice, if any.
    EncodeWithSoftware { notice: Option<String> },
    /// The encoding is over, with this result.
    Finish(std::result::Result<(), AppError>),
}

/// Whether an event is the one a stage waits for.
pub open spec fn stage_accepts(stage: EncodeStage, e: EncodeEvent) -> bool {
    match e {
        EncodeEvent::InputChecked { .. } => stage == EncodeStage::CheckingInput,
        EncodeEvent::DurationProbed { .. } => stage == EncodeStage::ProbingDuration,
        EncodeEvent::HardwareChecked { .. } => stage == EncodeStage::DetectingHardware,
        EncodeEvent::HardwareEncoded { .. } => stage == EncodeStage::EncodingWithHardware,
        EncodeEvent::SoftwareEncoded { .. } => stage == EncodeStage::EncodingWithSoftware,
    }
}

/// Whether `a` ends the encoding with a processing error about `input`
/// whose text is `msg`.
pub open spec fn fails_for_file(a: EncodeAction, input: Seq<char>, msg: Seq<char>) -> bool {
    a matches EncodeAction::Finish(Err(AppError::FileProcessingError { file, error })) && file@
        == input && error@ == msg
}

/// Whether `a` ends the encoding with a hardware acceleration error whose
/// text is `msg`.
pub open spec fn fails_with_hardware_error(a: EncodeAction, msg: Seq<char>) -> bool {
    a matches EncodeAction::Finish(Err(AppError::HardwareAccelerationError(m))) && m@ == msg
}

/// Whether `a` asks for software encoding with the given notice.
pub open spec fn software_with_notice(a: EncodeAction, notice: Option<Seq<char>>) -> bool {
    a matches EncodeAction::EncodeWithSoftware { notice: n } && opt_text(n)
        == notice
}

/// The text of the error that a failed hardware run becomes.
pub open spec fn hardware_failure_text(f: AppError) -> Seq<char> {
    "Hardware acceleration error: "@ + "AMD hardware encoding failed: "@ + error_message(f)
}

/// One step of an encoding: given the settings (input, whether hardware
/// encoding is requested, whether falling back to software is allowed), the
/// stage and the event, the next stage and the action.
pub open spec fn encode_step(
    input: Seq<char>,
    use_hardware: bool,
    allow_fallback: bool,
    e: EncodeEvent,
    next: EncodeStage,
    a: EncodeAction,
) -> bool {
    match e {
        EncodeEvent::InputChecked { exists, is_file } => if !exists {
            next == EncodeStage::Finished && fails_for_file(a, input, "Input file does not exist"@)
        } else if !is_file {
            next == EncodeStage::Finished && fails_for_file(a, input, "Input path is not a file"@)
        } else {
            next == EncodeStage::ProbingDuration && a is ProbeDuration
        },
        EncodeEvent::DurationProbed { failure } => match failure {
            Some(f) => next == EncodeStage::Finished && fails_for_file(
                a,
                input,
                "Failed to get video duration: "@ + error_message(f),
            ),
            None => next == EncodeStage::DetectingHardware && a is DetectHardware,
        },
        EncodeEvent::HardwareChecked { available } => if use_hardware && available {
            next == EncodeStage::EncodingWithHardware && a is EncodeWithHardware
        } else if use_hardware {
            if allow_fallback {
                next == EncodeStage::EncodingWithSoftware && software_with_notice(
                    a,
                    Some("AMD hardware acceleration not available, using software encoding"@),
                )
            } else {
                next == EncodeStage::Finished && fails_with_hardware_error(
                    a,
                    "Hardware acceleration requested but not available, and fallback disabled"@,
                )
            }
        } else {
            next == EncodeStage::EncodingWithSoftware && software_with_notice(a, None)
        },
        EncodeEvent::HardwareEncoded { failure } => match failure {
            None => next == EncodeStage::Finished && a matches EncodeAction::Finish(Ok(())),
            Some(f) => if allow_fallback {
                next == EncodeStage::EncodingWithSoftware && software_with_notice(
                    a,
                    Some(
                        "Hardware encoding failed: "@ + hardware_failure_text(f)
                            + ". Falling back to software encoding."@,
                    ),
                )
            } else {
                next == EncodeStage::Finished && fails_with_hardware_error(
                    a,
                    "Hardware encoding failed and fallback disabled: "@ + hardware_failure_text(f),
                )
            },
        },
        EncodeEvent::SoftwareEncoded { failure } => match failure {
            None => next == EncodeStage::Finished && a matches EncodeAction::Finish(Ok(())),
            Some(f) => next == EncodeStage::Finished && (a matches EncodeAction::Finish(
                Err(AppError::FFmpegError(m)),
            ) && m@ == "Software encoding failed: "@ + error_message(f)),
        },
    }
}

/// One encoding of one input, as a sequence of steps with fallback from
/// hardware to software encoding. The caller performs each action and
/// reports what came of it.
pub struct EncodeSession {
    input_path: String,
    use_hardware_acceleration: bool,
    allow_fallback: bool,
    stage: EncodeStage,
}

impl EncodeSession {
    /// The input being encoded.
    pub closed spec fn input(&self) -> Seq<char> {
        self.input_path@
    }

    /// Whether hardware encoding is requested.
    pub closed spec fn wants_hardware(&self) -> bool {
        self.use_hardware_acceleration
    }

    /// Whether falling back to software encoding is allowed.
    pub closed spec fn fallback_allowed(&self) -> bool {
        self.allow_fallback
    }

    /// The current stage.
    pub closed spec fn current_stage(&self) -> EncodeStage {
        self.stage
    }

    /// A session that starts by checking the input.
    pub fn new(input_path: String, use_hardware_acceleration: bool, allow_fallback: bool) -> (s:
        Self)
        ensures
            s.input() == input_path@,
            s.wants_hardware() == use_hardware_acceleration,
            s.fallback_allowed() == allow_fallback,
            s.current_stage() == EncodeStage::CheckingInput,
    {
        EncodeSession { input_path, use_hardware_acceleration, allow_fallback, stage: EncodeStage::CheckingInput }
    }

    /// The current stage.
    pub fn stage(&self) -> (st: EncodeStage)
        ensures
            st == self.current_stage(),
    {
        self.stage
    }

    /// Whether `event` is the one the session waits for.
    pub fn accepts(&self, event: &EncodeEvent) -> (b: bool)
        ensures
            b == stage_accepts(self.current_stage(), *event),
    {
        match event {
            EncodeEvent::InputChecked { .. } => self.stage == EncodeStage::CheckingInput,
            EncodeEvent::DurationProbed { .. } => self.stage == EncodeStage::ProbingDuration,
            EncodeEvent::HardwareChecked { .. } => self.stage == EncodeStage::DetectingHardware,
            EncodeEvent::HardwareEncoded { .. } => self.stage == EncodeStage::EncodingWithHardware,
            EncodeEvent::SoftwareEncoded { .. } => self.stage == EncodeStage::EncodingWithSoftware,
        }
    }

    /// Take the event the session waits for, and say what to do next.
    pub fn step(&mut self, event: EncodeEvent) -> (a: EncodeAction)
        requires
            stage_accepts(old(self).current_stage(), event),
        ensures
            final(self).input() == old(self).input(),
            final(self).wants_hardware() == old(self).wants_hardware(),
            final(self).fallback_allowed() == old(self).fallback_allowed(),
            encode_step(
                old(self).input(),
                old(self).wants_hardware(),
                old(self).fallback_allowed(),
                event,
                final(self).current_stage(),
                a,
            ),
    {
        match event {
            EncodeEvent::InputChecked { exists, is_file } => {
                if !exists {
                    self.stage = EncodeStage::Finished;
                    EncodeAction::Finish(
                        Err(AppError::file_error(self.input_path.clone(), "Input file does not exist")),
                    )
                } else if !is_file {
                    self.stage = EncodeStage::Finished;
                    EncodeAction::Finish(
                        Err(AppError::file_error(self.input_path.clone(), "Input path is not a file")),
                    )
                } else {
                    self.stage = EncodeStage::ProbingDuration;
                    EncodeAction::ProbeDuration
                }
            },
            EncodeEvent::DurationProbed { failure } => match failure {
                Some(f) => {
                    self.stage = EncodeStage::Finished;
                    let mut msg = "Failed to get video duration: ".to_owned();
                    msg.append(f.to_string().as_str());
                    EncodeAction::Finish(
                        Err(AppError::file_error(self.input_path.clone(), msg.as_str())),
                    )
                },
                None => {
                    self.stage = EncodeStage::DetectingHardware;
                    EncodeAction::DetectHardware
                },
            },
            EncodeEvent::HardwareChecked { available } => {
                if self.use_hardware_acceleration && available {
                    self.stage = EncodeStage::EncodingWithHardware;
                    EncodeAction::EncodeWithHardware
                } else if self.use_hardware_acceleration {
                    if self.allow_fallback {
                        self.stage = EncodeStage::EncodingWithSoftware;
                        EncodeAction::EncodeWithSoftware {
                            notice: Some(
                                "AMD hardware acceleration not available, using software encoding".to_owned(),
                            ),
                        }
                    } else {
                        self.stage = EncodeStage::Finished;
                        EncodeAction::Finish(
                            Err(
                                AppError::hardware_error(
                                    "Hardware acceleration requested but not available, and fallback disabled",
                                ),
                            ),
                        )
                    }
                } else {
                    self.stage = EncodeStage::EncodingWithSoftware;
                    EncodeAction::EncodeWithSoftware { notice: None }
                }
            },
            EncodeEvent::HardwareEncoded { failure } => match failure {
                None => {
                    self.stage = EncodeStage::Finished;
                    EncodeAction::Finish(Ok(()))
                },
                Some(f) => {
                    let mut hw = "AMD hardware encoding failed: ".to_owned();
                    hw.append(f.to_string().as_str());
                    let hw_error = AppError::hardware_error(hw.as_str());
                    let hw_text = hw_error.to_string();
                    assert(hw_text@ =~= hardware_failure_text(f));
                    if self.allow_fallback {
                        self.stage = EncodeStage::EncodingWithSoftware;
                        let mut notice = "Hardware encoding failed: ".to_owned();
                        notice.append(hw_text.as_str());
                        notice.append(". Falling back to software encoding.");
                        EncodeAction::EncodeWithSoftware { notice: Some(notice) }
                    } else {
                        self.stage = EncodeStage::Finished;
                        let mut msg = "Hardware encoding failed and fallback disabled: ".to_owned();
                        msg.append(hw_text.as_str());
                        EncodeAction::Finish(Err(AppError::hardware_error(msg.as_str())))
                    }
                },
            },
            EncodeEvent::SoftwareEncoded { failure } => match failure {
                None => {
                    self.stage = EncodeStage::Finished;
                    EncodeAction::Finish(Ok(()))
                },
                Some(f) => {
                    self.stage = EncodeStage::Finished;
                    let mut msg = "Software encoding failed: ".to_owned();
                    msg.append(f.to_string().as_str());
                    EncodeAction::Finish(Err(AppError::ffmpeg_error(msg.as_str())))
                },
            },
        }
    }
}

impl FFmpegEncoder {
    /// Begin encoding `input`: hardware encoding is tried when the encoder's
    /// settings request it, and `allow_fallback` says whether software
    /// encoding may take over when it cannot be had or fails.
    pub fn begin_encoding(&self, input: &str, allow_fallback: bool) -> (s: EncodeSession)
        ensures
            s.input() == input@,
            s.wants_hardware() == self.settings().use_hardware_acceleration,
            s.fallback_allowed() == allow_fallback,
            s.current_stage() == EncodeStage::CheckingInput,
    {
        EncodeSession::new(input.to_owned(), self.config.use_hardware_acceleration, allow_fallback)
    }
}

/// How many steps a stage is at most from the end of an encoding.
pub open spec fn steps_left(stage: EncodeStage) -> nat {
    match stage {
        EncodeStage::CheckingInput => 5,
        EncodeStage::ProbingDuration => 4,
        EncodeStage::DetectingHardware => 3,
        EncodeStage::EncodingWithHardware => 2,
        EncodeStage::EncodingWithSoftware => 1,
        EncodeStage::Finished => 0,
    }
}

/// The quality of an encoding is the profile's whatever the path taken: in
/// the hardware command line the I, P and B frame quantizers are each the
/// profile's CRF, and the software arguments set that CRF with `-crf`.
pub proof fn lemma_quality_follows_profile(
    profile: QualityProfile,
    preserve_audio: bool,
    preserve_subtitles: bool,
    input: Seq<char>,
    output: Seq<char>,
)
    ensures
        ({
            let h = amd_command(profile, preserve_audio, preserve_subtitles, input, output);
            let s = software_command(profile, preserve_audio, preserve_subtitles, input, output);
            let crf = decimal(profile_crf(profile) as nat);
            &&& h[13] == "-qp_i"@ && h[14] == crf
            &&& h[15] == "-qp_p"@ && h[16] == crf
            &&& h[17] == "-qp_b"@ && h[18] == crf
            &&& s[6] == "-crf"@ && s[7] == crf
        }),
        profile == QualityProfile::Quality ==> decimal(profile_crf(profile) as nat) == "20"@,
        profile == QualityProfile::Medium ==> decimal(profile_crf(profile) as nat) == "23"@,
        profile == QualityProfile::HighCompression ==> decimal(profile_crf(profile) as nat)
            == "28"@,
{
    reveal_strlit("20");
    reveal_strlit("23");
    reveal_strlit("28");
    reveal_with_fuel(decimal, 3);
}

/// The steps of an encoding fit together: whatever an action asks the caller
/// to do, the event that reports its outcome, whichever outcome it is, is
/// the one the next stage accepts; and once the encoding has finished, no
/// event is accepted.
pub proof fn lemma_each_action_gets_its_answer(
    input: Seq<char>,
    use_hardware: bool,
    allow_fallback: bool,
    e: EncodeEvent,
    next: EncodeStage,
    a: EncodeAction,
)
    requires
        encode_step(input, use_hardware, allow_fallback, e, next, a),
    ensures
        a is ProbeDuration ==> forall|f: Option<AppError>|
            stage_accepts(next, EncodeEvent::DurationProbed { failure: f }),
        a is DetectHardware ==> forall|b: bool|
            stage_accepts(next, EncodeEvent::HardwareChecked { available: b }),
        a is EncodeWithHardware ==> forall|f: Option<AppError>|
            stage_accepts(next, EncodeEvent::HardwareEncoded { failure: f }),
        a is EncodeWithSoftware ==> forall|f: Option<AppError>|
            stage_accepts(next, EncodeEvent::SoftwareEncoded { failure: f }),
        a is Finish ==> forall|x: EncodeEvent| !stage_accepts(next, x),
{
}

/// Every encoding ends: each step that a stage accepts moves to a later
/// stage, so a session finishes within five steps, and a step ends the
/// encoding exactly when its action is to finish. Once software encoding
/// has begun, hardware encoding is never tried again.
pub proof fn lemma_steps_move_forward(
    input: Seq<char>,
    use_hardware: bool,
    allow_fallback: bool,
    stage: EncodeStage,
    e: EncodeEvent,
    next: EncodeStage,
    a: EncodeAction,
)
    requires
        stage_accepts(stage, e),
        encode_step(input, use_hardware, allow_fallback, e, next, a),
    ensures
        steps_left(next) < steps_left(stage),
        (next == EncodeStage::Finished) == (a is Finish),
        stage == EncodeStage::EncodingWithSoftware ==> next == EncodeStage::Finished,
{
}

/// With fallback allowed, trouble with the hardware never ends an encoding
/// in failure: when hardware encoding is unavailable or fails, software
/// encoding takes over. Without fallback, a hardware failure ends it.
pub proof fn lemma_fallback_takes_over(
    input: Seq<char>,
    use_hardware: bool,
    allow_fallback: bool,
    e: EncodeEvent,
    next: EncodeStage,
    a: EncodeAction,
)
    requires
        encode_step(input, use_hardware, allow_fallback, e, next, a),
        e is HardwareChecked || e matches EncodeEvent::HardwareEncoded { failure: Some(_) },
        !(e matches EncodeEvent::HardwareChecked { available: true } && use_hardware),
    ensures
        allow_fallback ==> next == EncodeStage::EncodingWithSoftware && a is EncodeWithSoftware,
        !allow_fallback && use_hardware ==> next == EncodeStage::Finished && (
        a matches EncodeAction::Finish(Err(_))),
{
}

/// Falling back from hardware to software encoding changes only how the
/// video is encoded: the hardware command line names FFmpeg and the software
/// arguments are FFmpeg's; both read the same input, write the same output,
/// given last, apply the same CRF, and copy the same audio and subtitle
/// streams.
pub proof fn lemma_fallback_keeps_file_and_quality(
    profile: QualityProfile,
    preserve_audio: bool,
    preserve_subtitles: bool,
    input: Seq<char>,
    output: Seq<char>,
)
    ensures
        ({
            let h = amd_command(profile, preserve_audio, preserve_subtitles, input, output);
            let s = software_command(profile, preserve_audio, preserve_subtitles, input, output);
            let crf = decimal(profile_crf(profile) as nat);
            let copies = stream_copy_args(preserve_audio, preserve_subtitles);
            &&& h[0] == "ffmpeg"@ && h[1] == "-hide_banner"@ && s[0] == "-hide_banner"@
            &&& h[5] == "-i"@ && h[6] == input
            &&& s[2] == "-i"@ && s[3] == input
            &&& h.last() == output && s.last() == output
            &&& h[14] == crf && s[7] == crf
            &&& h.subrange(19, 19 + copies.len() as int) == copies
            &&& s.subrange(10, 10 + copies.len() as int) == copies
        }),
{
    let h = amd_command(profile, preserve_audio, preserve_subtitles, input, output);
    let s = software_command(profile, preserve_audio, preserve_subtitles, input, output);
    let copies = stream_copy_args(preserve_audio, preserve_subtitles);
    assert(h.subrange(19, 19 + copies.len() as int) =~= copies);
    assert(s.subrange(10, 10 + copies.len() as int) =~= copies);
}

} // verus!
