# video_encoder

Batch encoding of H.264 videos to H.265 with FFmpeg, using AMD AMF hardware
acceleration where it is available and falling back to software encoding.

The library under `src/` is written in Verus and holds the encoder's logic
with its proofs:

- `cli`: quality profiles, the output directory, checks of the settings.
- `scanner`: which files are scanned and encoded, codec detection from the
  streams of a container, output names and the rule that originals are never
  overwritten.
- `ffmpeg`: the FFmpeg command lines, reading FFmpeg's progress and failure
  output, and the steps of one encoding with its fallback, as a state machine.
- `error`, `error_recovery`: error classification and the recovery decisions,
  logs and statistics.
- `encoder`: the job queue, the limit on parallel jobs and the tally of a batch.
- `performance`: memory accounting, the metadata cache, progress batching,
  resource sampling and benchmark checkpoints.
- `tui`: the state of the file selection screen and its key handling.
- `text`, `paths`, `clock`: text helpers, and the calls into the standard
  library for paths and time.

`app/` is the program around it: command-line parsing, the terminal screen,
running FFmpeg, the filesystem and the asynchronous encoding loop.
