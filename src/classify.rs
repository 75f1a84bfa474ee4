use vstd::prelude::*;

verus! {

/// Whether `pat` occurs as a contiguous run inside `s`.
pub open spec fn has_substring(s: Seq<char>, pat: Seq<char>) -> bool {
    exists|i: int| 0 <= i && i + pat.len() <= s.len() && #[trigger] s.subrange(i, i + pat.len()) == pat
}

/// Relies on `str::contains` with a `&str` pattern: true exactly when the
/// pattern matches a sub-slice of the string.
#[verifier::external_body]
fn contains(s: &str, pat: &str) -> (r: bool)
    ensures
        r == has_substring(s@, pat@),
{
    s.contains(pat)
}

/// The cosmetic category of a log line, which decides how it is shown.
#[derive(Clone, Copy, Debug, PartialEq, Eq, Structural)]
pub enum LineKind {
    Error,
    Warning,
    Compiling,
    Transfer,
    Completion,
    Plain,
}

pub open spec fn is_error_line(s: Seq<char>) -> bool {
    has_substring(s, "error:"@) || has_substring(s, "Error"@)
}

pub open spec fn is_warning_line(s: Seq<char>) -> bool {
    has_substring(s, "warning:"@)
}

pub open spec fn is_compiling_line(s: Seq<char>) -> bool {
    has_substring(s, "Compiling"@)
}

pub open spec fn is_transfer_line(s: Seq<char>) -> bool {
    has_substring(s, "Downloading"@) || has_substring(s, "Downloaded"@)
}

pub open spec fn is_completion_line(s: Seq<char>) -> bool {
    has_substring(s, "Finished"@)
}

/// The category of a line: the first marker that it holds, in the order
/// error, warning, compiling, transfer, completion; plain when it holds none.
pub open spec fn kind_of(s: Seq<char>) -> LineKind {
    if is_error_line(s) {
        LineKind::Error
    } else if is_warning_line(s) {
        LineKind::Warning
    } else if is_compiling_line(s) {
        LineKind::Compiling
    } else if is_transfer_line(s) {
        LineKind::Transfer
    } else if is_completion_line(s) {
        LineKind::Completion
    } else {
        LineKind::Plain
    }
}

/// Classifies a log line by the markers its text contains.
pub fn classify(line: &str) -> (r: LineKind)
    ensures
        r == kind_of(line@),
{
    if contains(line, "error:") || contains(line, "Error") {
        LineKind::Error
    } else if contains(line, "warning:") {
        LineKind::Warning
    } else if contains(line, "Compiling") {
        LineKind::Compiling
    } else if contains(line, "Downloading") || contains(line, "Downloaded") {
        LineKind::Transfer
    } else if contains(line, "Finished") {
        LineKind::Completion
    } else {
        LineKind::Plain
    }
}

/// A line that holds an error marker is classified as an error, whatever
/// other markers it holds and wherever the marker stands in it.
pub proof fn lemma_error_marker_wins(prefix: Seq<char>, marker: Seq<char>, suffix: Seq<char>)
    requires
        marker == "error:"@ || marker == "Error"@,
    ensures
        kind_of(prefix + marker + suffix) == LineKind::Error,
{
    let s = prefix + marker + suffix;
    let i = prefix.len() as int;
    assert(s.subrange(i, i + marker.len()) =~= marker);
}

} // verus!
