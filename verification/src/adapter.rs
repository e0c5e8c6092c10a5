//! Output shaping for the analysis executor: combining the primary and
//! diagnostic output channels, capping the combined size, and naming the
//! failure of an invocation.
//!
//! The invocation itself (spawning the external capability, the timeout
//! clock, process cleanup) is outside the library; callers hand the captured
//! byte channels or the failure in, and get the finished member text back.

use vstd::prelude::*;
use vstd::string::StringSliceAdditionalSpecFns;
use crate::text::{append_str, append_u64, chars_to_string, dec_digits};

verus! {

/// Ceiling on the combined byte length of one member's captured output.
pub const MAX_OUTPUT_BYTES: usize = 500000;

/// Why an invocation of the external analysis capability yielded no output:
/// its timeout elapsed first, or it could not be run at all.
pub enum ExecutionError {
    Timeout(u64),
    Unavailable(String),
}

/// Mathematical image of an [`ExecutionError`].
pub enum ExecutionErrorView {
    Timeout(u64),
    Unavailable(Seq<char>),
}

impl View for ExecutionError {
    type V = ExecutionErrorView;

    open spec fn view(&self) -> ExecutionErrorView {
        match self {
            ExecutionError::Timeout(secs) => ExecutionErrorView::Timeout(*secs),
            ExecutionError::Unavailable(detail) => ExecutionErrorView::Unavailable(detail@),
        }
    }
}

/// The human-readable rendering of an execution failure.
pub open spec fn spec_error_message(e: ExecutionErrorView) -> Seq<char> {
    match e {
        ExecutionErrorView::Timeout(secs) => "Timed out after "@ + dec_digits(secs as nat) + "s"@,
        ExecutionErrorView::Unavailable(detail) => "Process failed: "@ + detail,
    }
}

/// Renders an execution failure for presentation.
pub fn error_message(e: &ExecutionError) -> (r: String)
    ensures
        r@ == spec_error_message(e@),
{
    let mut out: Vec<char> = Vec::new();
    match e {
        ExecutionError::Timeout(secs) => {
            append_str(&mut out, "Timed out after ");
            append_u64(&mut out, *secs);
            append_str(&mut out, "s");
        },
        ExecutionError::Unavailable(detail) => {
            append_str(&mut out, "Process failed: ");
            append_str(&mut out, detail.as_str());
        },
    }
    proof {
        assert(out@ =~= spec_error_message(e@));
    }
    chars_to_string(&out)
}

/// The marker that separates diagnostic output from primary output.
pub open spec fn spec_stderr_marker() -> Seq<u8> {
    "\n[stderr]: ".spec_bytes()
}

/// The two captured channels as one byte stream: the diagnostic channel,
/// when non-empty, follows the primary one after a distinguishing marker.
pub open spec fn spec_combined(stdout: Seq<u8>, stderr: Seq<u8>) -> Seq<u8> {
    if stderr.len() == 0 {
        stdout
    } else {
        stdout + spec_stderr_marker() + stderr
    }
}

/// The combined stream capped at [`MAX_OUTPUT_BYTES`].
pub open spec fn spec_truncated(b: Seq<u8>) -> Seq<u8> {
    if b.len() <= MAX_OUTPUT_BYTES {
        b
    } else {
        b.take(MAX_OUTPUT_BYTES as int)
    }
}

/// The notice appended when the cap cut the output, naming the cap size.
pub open spec fn spec_truncation_notice() -> Seq<char> {
    "\n\n[Output truncated at "@ + dec_digits((MAX_OUTPUT_BYTES / 1000) as nat) + "KB]"@
}

/// What the adapter hands back for captured channels `stdout` and `stderr`:
/// the combined stream, capped at the ceiling, decoded from bytes, with an
/// explicit truncation notice whenever the cap was exceeded.
pub open spec fn spec_adapter_text(stdout: Seq<u8>, stderr: Seq<u8>) -> Seq<char> {
    let combined = spec_combined(stdout, stderr);
    if combined.len() <= MAX_OUTPUT_BYTES {
        lossy_utf8(combined)
    } else {
        lossy_utf8(combined.take(MAX_OUTPUT_BYTES as int)) + spec_truncation_notice()
    }
}

/// The character sequence that `String::from_utf8_lossy` decodes from `b`.
pub uninterp spec fn lossy_utf8(b: Seq<u8>) -> Seq<char>;

/// Relies on `String::from_utf8_lossy`: the decoded characters depend on
/// the bytes alone.
#[verifier::external_body]
fn utf8_lossy_chars(b: &Vec<u8>) -> (r: Vec<char>)
    ensures
        r@ == lossy_utf8(b@),
{
    String::from_utf8_lossy(b.as_slice()).chars().collect()
}

/// Appends every byte of `src` to `out`, in order.
fn append_bytes(out: &mut Vec<u8>, src: &[u8])
    ensures
        final(out)@ == old(out)@ + src@,
{
    let ghost orig = out@;
    let mut i: usize = 0;
    while i < src.len()
        invariant
            i <= src@.len(),
            out@ == orig + src@.take(i as int),
        decreases src@.len() - i,
    {
        out.push(src[i]);
        proof {
            assert(out@ =~= orig + src@.take(i + 1));
        }
        i += 1;
    }
    proof {
        assert(out@ =~= orig + src@);
    }
}

/// Joins the primary and diagnostic channels into one byte stream.
pub fn combine_streams(stdout: Vec<u8>, stderr: &Vec<u8>) -> (r: Vec<u8>)
    ensures
        r@ == spec_combined(stdout@, stderr@),
{
    let mut out = stdout;
    if stderr.len() > 0 {
        append_bytes(&mut out, "\n[stderr]: ".as_bytes());
        append_bytes(&mut out, stderr.as_slice());
    }
    out
}

/// Caps `v` at [`MAX_OUTPUT_BYTES`], leaving shorter streams unchanged.
pub fn truncate_output(v: &mut Vec<u8>)
    ensures
        final(v)@ == spec_truncated(old(v)@),
{
    if v.len() > MAX_OUTPUT_BYTES {
        v.truncate(MAX_OUTPUT_BYTES);
        proof {
            assert(v@ =~= spec_truncated(old(v)@));
        }
    }
}

/// The cap is idempotent: output at or under the cap passes unchanged, so
/// capping an already-capped stream returns it as it is.
pub proof fn lemma_truncation_idempotent(b: Seq<u8>)
    ensures
        spec_truncated(b).len() <= MAX_OUTPUT_BYTES,
        b.len() <= MAX_OUTPUT_BYTES ==> spec_truncated(b) == b,
        spec_truncated(spec_truncated(b)) == spec_truncated(b),
{
}

/// Turns the captured channels of one successful invocation into the text
/// of its member result.
pub fn assemble_output(stdout: Vec<u8>, stderr: &Vec<u8>) -> (r: String)
    ensures
        r@ == spec_adapter_text(stdout@, stderr@),
{
    let over: bool;
    let mut combined = combine_streams(stdout, stderr);
    over = combined.len() > MAX_OUTPUT_BYTES;
    truncate_output(&mut combined);
    let mut text = utf8_lossy_chars(&combined);
    if over {
        append_str(&mut text, "\n\n[Output truncated at ");
        append_u64(&mut text, (MAX_OUTPUT_BYTES / 1000) as u64);
        append_str(&mut text, "KB]");
        proof {
            assert(text@ =~= spec_adapter_text(stdout@, stderr@));
        }
    }
    chars_to_string(&text)
}

} // verus!
