//! Validation of log-file paths.
//!
//! A supplied log-file path must carry the `etl` extension on its final
//! component. The rule is stated over the path's bytes: trailing
//! separators are ignored, the final component is what follows the last
//! separator, and its extension is what follows the last dot, provided
//! that dot is not the component's first byte.

use vstd::prelude::*;
use vstd::string::StringSliceAdditionalSpecFns;

verus! {

/// A path-separator byte: `/` or `\`.
pub open spec fn is_separator(b: u8) -> bool {
    b == 47 || b == 92
}

/// The length of `s[0..n)` with trailing separators dropped.
pub open spec fn spec_trimmed_len(s: Seq<u8>, n: int) -> int
    decreases n,
{
    if n <= 0 {
        0
    } else if is_separator(s[n - 1]) {
        spec_trimmed_len(s, n - 1)
    } else {
        n
    }
}

/// The start of the final path component of `s[0..n)`: one past the last
/// separator, zero if there is none.
pub open spec fn spec_file_name_start(s: Seq<u8>, n: int) -> int
    decreases n,
{
    if n <= 0 {
        0
    } else if is_separator(s[n - 1]) {
        n
    } else {
        spec_file_name_start(s, n - 1)
    }
}

/// A valid log-file path: after trailing separators are dropped, the final
/// component ends in `.etl` and the dot is not its first byte.
pub open spec fn spec_valid_path(s: Seq<u8>) -> bool {
    let n = spec_trimmed_len(s, s.len() as int);
    let st = spec_file_name_start(s, n);
    &&& n - st >= 5
    &&& s[n - 4] == 46u8
    &&& s[n - 3] == 101u8
    &&& s[n - 2] == 116u8
    &&& s[n - 1] == 108u8
}

proof fn lemma_file_name_start_bounds(s: Seq<u8>, n: int)
    requires
        0 <= n,
    ensures
        0 <= spec_file_name_start(s, n) <= n,
    decreases n,
{
    if n > 0 && !is_separator(s[n - 1]) {
        lemma_file_name_start_bounds(s, n - 1);
    }
}

/// Checks that a log-file path carries the `etl` extension on its final
/// component.
pub fn validate_path(path: &str) -> (valid: bool)
    ensures
        valid == spec_valid_path(path.spec_bytes()),
{
    let b: &[u8] = path.as_bytes();
    let mut n = b.len();
    while n > 0 && (b[n - 1] == 47 || b[n - 1] == 92)
        invariant
            b@ == path.spec_bytes(),
            n <= b@.len(),
            spec_trimmed_len(b@, b@.len() as int) == spec_trimmed_len(b@, n as int),
        decreases n,
    {
        n = n - 1;
    }
    assert(spec_trimmed_len(b@, n as int) == n);
    if n < 5 {
        proof {
            lemma_file_name_start_bounds(b@, n as int);
        }
        return false;
    }
    if !(b[n - 4] == 46 && b[n - 3] == 101 && b[n - 2] == 116 && b[n - 1] == 108) {
        return false;
    }
    let mut st = n;
    while st > 0 && !(b[st - 1] == 47 || b[st - 1] == 92)
        invariant
            b@ == path.spec_bytes(),
            st <= n <= b@.len(),
            spec_file_name_start(b@, n as int) == spec_file_name_start(b@, st as int),
        decreases st,
    {
        st = st - 1;
    }
    assert(spec_file_name_start(b@, st as int) == st);
    n - st >= 5
}

} // verus!
