//! What a process printed: the raw bytes as they were captured, and the
//! text they are turned into.

use vstd::prelude::*;
use vstd::utf8::{decode_utf8, valid_utf8};

verus! {

/// What `String::from_utf8_lossy` makes of `bytes` that are not
/// well-formed UTF-8: the text they hold, with U+FFFD in place of each
/// malformed sequence.
pub uninterp spec fn repaired_text(bytes: Seq<u8>) -> Seq<char>;

/// The text that `bytes` are read as: what they encode where they are
/// well-formed UTF-8, and what lossy decoding makes of them where not.
pub open spec fn text_of(bytes: Seq<u8>) -> Seq<char> {
    if valid_utf8(bytes) {
        decode_utf8(bytes)
    } else {
        repaired_text(bytes)
    }
}

/// Decodes `bytes` with `String::from_utf8_lossy`.
///
/// Trusted: well-formed UTF-8 comes out as exactly the text it encodes,
/// and what comes out of other bytes depends on the bytes alone, as the
/// standard library documents.
#[verifier::external_body]
fn decode_lossy(bytes: &Vec<u8>) -> (text: String)
    ensures
        valid_utf8(bytes@) ==> text@ == decode_utf8(bytes@),
        !valid_utf8(bytes@) ==> text@ == repaired_text(bytes@),
{
    String::from_utf8_lossy(bytes).into_owned()
}

/// The bytes a process wrote to its two output streams.
#[derive(Debug)]
pub struct Captured {
    /// Everything written to standard output.
    pub stdout: Vec<u8>,
    /// Everything written to standard error.
    pub stderr: Vec<u8>,
}

/// The output of a process, as text.
#[derive(Debug)]
pub struct Output {
    /// The stdout output of the process.
    pub stdout: String,
    /// The stderr output of the process.
    pub stderr: String,
}

/// The two texts of an [`Output`].
pub struct OutputView {
    /// The characters of the standard output.
    pub stdout: Seq<char>,
    /// The characters of the standard error.
    pub stderr: Seq<char>,
}

impl View for Output {
    type V = OutputView;

    open spec fn view(&self) -> OutputView {
        OutputView { stdout: self.stdout@, stderr: self.stderr@ }
    }
}

/// The output of a process that printed nothing.
pub open spec fn silent() -> OutputView {
    OutputView { stdout: Seq::empty(), stderr: Seq::empty() }
}

/// The text of `captured`: each stream decoded on its own.
pub open spec fn decoded(captured: Captured) -> OutputView {
    OutputView {
        stdout: text_of(captured.stdout@),
        stderr: text_of(captured.stderr@),
    }
}

impl Default for Output {
    /// Both streams empty.
    fn default() -> (output: Output)
        ensures
            output@ == silent(),
    {
        Output { stdout: String::new(), stderr: String::new() }
    }
}

impl Output {
    /// Decodes both captured streams, replacing what is not UTF-8.
    pub fn decode(captured: &Captured) -> (output: Output)
        ensures
            output@ == decoded(*captured),
    {
        Output {
            stdout: decode_lossy(&captured.stdout),
            stderr: decode_lossy(&captured.stderr),
        }
    }
}

} // verus!
