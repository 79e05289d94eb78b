//! Host version probing: the part of it that is plain computation.
//!
//! The host-facing shell obtains raw probe text (a version utility's output
//! on one platform, a release-metadata file on another); this module parses
//! it and applies the uniform `"Unknown"` fallback, so that the reported
//! version is never empty.

use vstd::prelude::*;
use crate::text::{starts_with, str_starts_with, trim_char, trim_matching, trim_space, trim_spaces};

verus! {

/// The key whose value names the distribution in an os-release file.
pub open spec fn pretty_prefix() -> Seq<char> {
    "PRETTY_NAME="@
}

/// The index of the first newline in `s` at or after `i`, or `s.len()` if
/// there is none.
pub open spec fn newline_at(s: Seq<char>, i: int) -> int
    decreases s.len() - i,
{
    if i >= s.len() {
        s.len() as int
    } else if s[i] == '\n' {
        i
    } else {
        newline_at(s, i + 1)
    }
}

/// The first newline at or after `i` lies between `i` and the end, and no
/// newline stands before it.
pub proof fn lemma_newline_at(s: Seq<char>, i: int)
    requires
        i <= s.len(),
    ensures
        i <= newline_at(s, i) <= s.len(),
        newline_at(s, i) < s.len() ==> s[newline_at(s, i)] == '\n',
        forall|j: int| i <= j < newline_at(s, i) ==> s[j] != '\n',
    decreases s.len() - i,
{
    if i >= s.len() {
    } else if s[i] == '\n' {
    } else {
        lemma_newline_at(s, i + 1);
    }
}

/// The value of the first `PRETTY_NAME=` line at or after position `i`, with
/// the key removed and surrounding quotes trimmed; `None` when no line from
/// `i` on carries the key.
pub open spec fn pretty_name_from(s: Seq<char>, i: int) -> Option<Seq<char>>
    decreases s.len() - i,
{
    if i >= s.len() {
        None
    } else {
        let j = newline_at(s, i);
        let line = s.subrange(i, j);
        if starts_with(line, pretty_prefix()) {
            Some(trim_char(line.skip(pretty_prefix().len() as int), '"'))
        } else if j >= s.len() {
            None
        } else {
            proof {
                lemma_newline_at(s, i);
            }
            pretty_name_from(s, j + 1)
        }
    }
}

/// The distribution name an os-release file declares, if any.
pub open spec fn pretty_name(s: Seq<char>) -> Option<Seq<char>> {
    pretty_name_from(s, 0)
}

/// The index of the first newline in `s` at or after `from`, or the length
/// of `s` if there is none.
fn find_newline(s: &str, from: usize) -> (j: usize)
    requires
        from <= s@.len(),
    ensures
        from <= j <= s@.len(),
        j == newline_at(s@, from as int),
{
    let n = s.unicode_len();
    let mut k = from;
    while k < n
        invariant
            from <= k <= n,
            n == s@.len(),
            newline_at(s@, from as int) == newline_at(s@, k as int),
        decreases n - k,
    {
        if s.get_char(k) == '\n' {
            return k;
        }
        k += 1;
    }
    k
}

/// Extracts the distribution name from the text of an os-release file: the
/// value of the first `PRETTY_NAME=` line, with surrounding quotes trimmed.
pub fn parse_os_release(content: &str) -> (r: Option<String>)
    ensures
        r is Some <==> pretty_name(content@) is Some,
        r matches Some(v) ==> pretty_name(content@) == Some(v@),
{
    let n = content.unicode_len();
    let mut i: usize = 0;
    while i < n
        invariant
            n == content@.len(),
            i <= n,
            pretty_name(content@) == pretty_name_from(content@, i as int),
        decreases n - i,
    {
        let j = find_newline(content, i);
        let line = content.substring_char(i, j);
        proof {
            reveal_strlit("PRETTY_NAME=");
        }
        if str_starts_with(line, "PRETTY_NAME=") {
            let rest = line.substring_char(12, line.unicode_len());
            let trimmed = trim_matching(rest, '"');
            proof {
                assert(rest@ =~= line@.skip(pretty_prefix().len() as int));
            }
            return Some(String::from_str(trimmed));
        }
        if j >= n {
            return None;
        }
        i = j + 1;
    }
    None
}

/// The version text reported for a probe outcome: the probe's output with
/// surrounding whitespace trimmed, or `"Unknown"` when the probe failed or
/// produced only whitespace.
pub open spec fn version_text(probe: Option<Seq<char>>) -> Seq<char> {
    match probe {
        Some(raw) => if trim_spaces(raw).len() > 0 {
            trim_spaces(raw)
        } else {
            "Unknown"@
        },
        None => "Unknown"@,
    }
}

/// The fallback version string.
fn unknown_version() -> (r: String)
    ensures
        r@ == "Unknown"@,
        r@.len() > 0,
{
    proof {
        reveal_strlit("Unknown");
    }
    String::from_str("Unknown")
}

/// Turns a raw probe outcome into the version to report: best-effort text,
/// never empty, `"Unknown"` on any probe failure.
pub fn os_version_from_probe(probe: Option<String>) -> (r: String)
    ensures
        r@ == version_text(probe.deep_view()),
        r@.len() > 0,
{
    match probe {
        Some(raw) => {
            let t = trim_space(raw.as_str());
            if t.unicode_len() > 0 {
                String::from_str(t)
            } else {
                unknown_version()
            }
        },
        None => unknown_version(),
    }
}

} // verus!
