//! Classification of a finished container run, and the cap on captured output.
use vstd::prelude::*;
use vstd::string::StringSliceAdditionalSpecFns;
use vstd::utf8::*;

use crate::types::Outcome;
use crate::OperationKind;

verus! {

broadcast use encode_utf8_valid_utf8, encode_utf8_decode_utf8;

/// Appended to output that was cut at the cap.
pub const TRUNCATION_NOTE: &'static str = "\n[output truncated]";

/// Appended to the diagnostics of a run that the hard timeout ended.
pub const TIMEOUT_NOTE: &'static str = "\nThe operation timed out and was terminated.";

/// The largest character boundary of `bytes` that is at most `cap`.
pub open spec fn cut_point(bytes: Seq<u8>, cap: int) -> int
    decreases cap,
{
    if cap <= 0 {
        0
    } else if is_char_boundary(bytes, cap) {
        cap
    } else {
        cut_point(bytes, cap - 1)
    }
}

/// `s` kept whole when its UTF-8 encoding fits in `cap` bytes; otherwise its
/// longest prefix that fits, followed by the truncation note.
pub open spec fn capped(s: Seq<char>, cap: nat) -> Seq<char> {
    let bytes = encode_utf8(s);
    if bytes.len() <= cap {
        s
    } else {
        decode_utf8(bytes.subrange(0, cut_point(bytes, cap as int))) + TRUNCATION_NOTE@
    }
}

/// Caps captured output at `cap` bytes, never splitting a character, and
/// flags the cut in the text.
pub fn cap_output(s: &str, cap: usize) -> (r: String)
    ensures
        r@ == capped(s@, cap as nat),
{
    let n = s.as_bytes().len();
    if n <= cap {
        assert(s.spec_bytes() == encode_utf8(s@));
        return String::from_str(s);
    }
    let ghost bytes = s.spec_bytes();
    let mut k: usize = cap;
    while k > 0 && !s.is_char_boundary(k)
        invariant
            bytes == s.spec_bytes(),
            valid_utf8(bytes),
            k <= cap < bytes.len(),
            cut_point(bytes, cap as int) == cut_point(bytes, k as int),
        decreases k,
    {
        k = k - 1;
    }
    assert(cut_point(bytes, k as int) == k);
    let (head, _) = s.split_at(k);
    proof {
        assert(head.spec_bytes() == encode_utf8(head@));
        assert(decode_utf8(encode_utf8(head@)) == head@);
        assert(head@ == decode_utf8(bytes.subrange(0, k as int)));
    }
    String::from_str(head).concat(TRUNCATION_NOTE)
}

/// Maps an exit status and the captured streams to an outcome: exit code 0 is
/// success, anything else an error. The flag says whether an artifact is
/// now to be collected, which is so for a successful build only.
pub fn classify(kind: OperationKind, exit_code: i64, stdout: String, stderr: String) -> (r: (
    Outcome,
    bool,
))
    ensures
        r.0.is_success() <==> exit_code == 0,
        r.0.stdout_view() == stdout@,
        r.0.stderr_view() == stderr@,
        r.0.artifact_view() is None,
        r.1 <==> (exit_code == 0 && kind == OperationKind::Compile),
{
    if exit_code == 0 {
        let expect = match kind {
            OperationKind::Compile => true,
            _ => false,
        };
        (Outcome::Success { artifact: None, stdout, stderr }, expect)
    } else {
        (Outcome::Error { stdout, stderr }, false)
    }
}

/// The outcome of a run that the hard timeout ended: an error whose
/// diagnostics carry the timeout note.
pub fn timed_out(stdout: String, stderr: String) -> (r: Outcome)
    ensures
        r is Error,
        r.stdout_view() == stdout@,
        r.stderr_view() == stderr@ + TIMEOUT_NOTE@,
{
    Outcome::Error { stdout, stderr: stderr.concat(TIMEOUT_NOTE) }
}

} // verus!
