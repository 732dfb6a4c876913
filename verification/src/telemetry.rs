//! Choice of the log output format.
use vstd::prelude::*;

verus! {

/// How log events are written.
#[derive(Debug, Clone, Copy, PartialEq, Eq, Structural)]
pub enum LogFormat {
    /// Structured JSON lines, for log aggregation.
    Json,
    /// Pretty, human-readable output.
    Pretty,
}

/// The code of `c` after ASCII lower-casing (other characters are kept).
pub open spec fn ascii_lower_code(c: char) -> u32 {
    if 'A' <= c && c <= 'Z' {
        (c as u32 + 32) as u32
    } else {
        c as u32
    }
}

/// `a` and `b` are equal ignoring ASCII case, as `str::eq_ignore_ascii_case`
/// compares them.
pub open spec fn eq_ignore_ascii_case(a: Seq<char>, b: Seq<char>) -> bool {
    a.len() == b.len() && forall|i: int|
        0 <= i < a.len() ==> #[trigger] ascii_lower_code(a[i]) == ascii_lower_code(b[i])
}

fn lower_code(c: char) -> (r: u32)
    ensures
        r == ascii_lower_code(c),
{
    if 'A' <= c && c <= 'Z' {
        (c as u32) + 32
    } else {
        c as u32
    }
}

/// Compares two strings ignoring ASCII case.
pub fn equals_ignore_ascii_case(a: &str, b: &str) -> (r: bool)
    ensures
        r == eq_ignore_ascii_case(a@, b@),
{
    let n = a.unicode_len();
    if n != b.unicode_len() {
        return false;
    }
    let mut i: usize = 0;
    while i < n
        invariant
            n == a@.len(),
            n == b@.len(),
            i <= n,
            forall|j: int| 0 <= j < i ==> #[trigger] ascii_lower_code(a@[j]) == ascii_lower_code(
                b@[j],
            ),
        decreases n - i,
    {
        if lower_code(a.get_char(i)) != lower_code(b.get_char(i)) {
            return false;
        }
        i = i + 1;
    }
    true
}

/// The log format selected by the value of `LOG_FORMAT`: JSON when it is
/// set to `json` in any ASCII case, pretty output otherwise (also when it
/// is unset).
pub fn log_format(value: Option<&str>) -> (r: LogFormat)
    ensures
        (r == LogFormat::Json) <==> (value matches Some(v) && eq_ignore_ascii_case(v@, "json"@)),
{
    match value {
        Some(v) => {
            if equals_ignore_ascii_case(v, "json") {
                LogFormat::Json
            } else {
                LogFormat::Pretty
            }
        },
        None => LogFormat::Pretty,
    }
}

/// Case folding changes exactly the ASCII capitals, each to its small
/// letter, and leaves every other character as it is; so comparing while
/// ignoring ASCII case is an equivalence that equal texts satisfy.
pub proof fn lemma_ascii_case_folding(c: char, a: Seq<char>, b: Seq<char>)
    ensures
        'A' <= c <= 'Z' ==> ascii_lower_code(c) == c as u32 + 32,
        !('A' <= c <= 'Z') ==> ascii_lower_code(c) == c as u32,
        eq_ignore_ascii_case(a, a),
        eq_ignore_ascii_case(a, b) ==> eq_ignore_ascii_case(b, a),
{
}

} // verus!
