//! The lines that a run prints, and the names of the files it writes.

use crate::pipeline::Failure;
use vstd::prelude::*;
use vstd::string::*;

verus! {

/// The file to which the vector document is written.
pub const VECTOR_PATH: &'static str = "cpu_usage.svg";

/// The name under which the vector document is read back.
pub const VECTOR_READ_PATH: &'static str = "./cpu_usage.svg";

/// The file to which the bitmap is written and which the viewer opens.
pub const BITMAP_PATH: &'static str = "cpu_usage.png";

/// The first line of every run.
pub const GREETING: &'static str = "Hello, world!";

/// What a diagnostic begins with, before the colon.
pub open spec fn spec_headline(failure: Failure) -> Seq<char> {
    match failure {
        Failure::Render => "Error saving chart"@,
        Failure::ReadBack => "Failed to read SVG file"@,
        Failure::Persist => "Failed to save PNG"@,
        Failure::Spawn => "called `Result::unwrap()` on an `Err` value"@,
    }
}

/// The diagnostic of a failure: the headline, a colon, a blank and the
/// underlying error.
pub open spec fn spec_diagnostic(failure: Failure, detail: Seq<char>) -> Seq<char> {
    spec_headline(failure) + ": "@ + detail
}

/// The line that confirms the vector document.
pub open spec fn spec_saved_line(path: Seq<char>) -> Seq<char> {
    "Chart saved successfully as "@ + path
}

/// What a diagnostic begins with, before the colon.
pub fn headline(failure: Failure) -> (text: String)
    ensures
        text@ == spec_headline(failure),
{
    match failure {
        Failure::Render => String::from_str("Error saving chart"),
        Failure::ReadBack => String::from_str("Failed to read SVG file"),
        Failure::Persist => String::from_str("Failed to save PNG"),
        Failure::Spawn => String::from_str("called `Result::unwrap()` on an `Err` value"),
    }
}

/// The one line that reports a failure, with `detail` as the text of the
/// underlying error. For a chart that could not be rendered it goes to
/// standard error and begins with `Error saving chart:`.
pub fn diagnostic(failure: Failure, detail: &str) -> (line: String)
    ensures
        line@ == spec_diagnostic(failure, detail@),
        failure == Failure::Render ==> "Error saving chart:"@.is_prefix_of(line@),
{
    let line = headline(failure).concat(": ").concat(detail);
    proof {
        if failure == Failure::Render {
            lemma_render_prefix(detail@);
        }
    }
    line
}

/// The line on standard output that confirms that the vector document has
/// been written to `path`.
pub fn saved_line(path: &str) -> (line: String)
    ensures
        line@ == spec_saved_line(path@),
{
    String::from_str("Chart saved successfully as ").concat(path)
}

/// Whatever the underlying error, the report of a chart that could not be
/// rendered begins with `Error saving chart:`.
pub proof fn lemma_render_prefix(detail: Seq<char>)
    ensures
        "Error saving chart:"@.is_prefix_of(spec_diagnostic(Failure::Render, detail)),
{
    reveal_strlit("Error saving chart:");
    reveal_strlit("Error saving chart");
    reveal_strlit(": ");
    let line = spec_diagnostic(Failure::Render, detail);
    assert(line.subrange(0, 19) =~= "Error saving chart:"@);
}

} // verus!
