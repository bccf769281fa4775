//! Batch H.264 to H.265 video encoding: the decisions, naming rules, command
//! construction, error classification and bookkeeping of the encoder, proved
//! with Verus.

pub mod cli;
pub mod clock;
pub mod encoder;
pub mod error;
pub mod error_recovery;
pub mod ffmpeg;
pub mod paths;
pub mod performance;
pub mod scanner;
pub mod text;
pub mod tui;

pub use error::{AppError, ErrorSeverity, Result};

use vstd::prelude::*;
use vstd::string::*;
use crate::text::{chars_of, last_index_of, rfind_char, string_of_range};

verus! {

/// The output name for an input file name: "-h265" inserted before the last
/// '.', or appended where the name has no '.'.
pub open spec fn h265_filename(name: Seq<char>) -> Seq<char> {
    let d = last_index_of(name, '.');
    if d < 0 {
        name + "-h265"@
    } else {
        name.subrange(0, d) + "-h265"@ + name.subrange(d, name.len() as int)
    }
}

/// Generate output filename with H.265 suffix.
pub fn generate_output_filename(input_filename: &str) -> (r: String)
    ensures
        r@ == h265_filename(input_filename@),
{
    let cs = chars_of(input_filename);
    match rfind_char(&cs, '.') {
        Some(d) => {
            let mut r = string_of_range(input_filename, 0, d);
            r.append("-h265");
            r.append(string_of_range(input_filename, d, cs.len()).as_str());
            r
        },
        None => {
            let mut r = input_filename.to_owned();
            r.append("-h265");
            r
        },
    }
}

/// An output name never equals the name it was made from, so an encoded
/// file is never written over its source.
pub proof fn lemma_output_name_differs(name: Seq<char>)
    ensures
        h265_filename(name) != name,
        h265_filename(name).len() == name.len() + 5,
{
    reveal_strlit("-h265");
    crate::text::lemma_last_index_of_bounds(name, '.');
    assert(h265_filename(name).len() == name.len() + 5);
}

} // verus!
