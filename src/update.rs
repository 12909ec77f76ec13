//! Reading the version out of a release tag of the form `release-v<version>`.
use vstd::prelude::*;

use crate::text::{chars_of, occurs_at, occurs_at_exec};

verus! {

/// The text that precedes the version in a release tag.
pub open spec fn release_prefix() -> Seq<char> {
    seq!['r', 'e', 'l', 'e', 'a', 's', 'e', '-', 'v']
}

/// At `i` stands the release prefix followed by at least one character of
/// the same line.
pub open spec fn release_marker_at(s: Seq<char>, i: int) -> bool {
    &&& occurs_at(s, release_prefix(), i)
    &&& i + release_prefix().len() < s.len()
    &&& s[i + release_prefix().len()] != '\n'
}

/// The leftmost release marker at or after `i`.
pub open spec fn first_release_marker_from(s: Seq<char>, i: nat) -> Option<int>
    decreases s.len() - i,
{
    if i >= s.len() {
        None
    } else if release_marker_at(s, i as int) {
        Some(i as int)
    } else {
        first_release_marker_from(s, (i + 1) as nat)
    }
}

/// The end of the line that runs from `i`: the first newline at or after
/// `i`, or the end of `s`.
pub open spec fn line_end_from(s: Seq<char>, i: nat) -> int
    decreases s.len() - i,
{
    if i >= s.len() {
        s.len() as int
    } else if s[i as int] == '\n' {
        i as int
    } else {
        line_end_from(s, (i + 1) as nat)
    }
}

/// The version that a release tag names: what follows the leftmost
/// `release-v` up to the end of its line, when that is not empty.
pub open spec fn tag_version(s: Seq<char>) -> Option<Seq<char>> {
    match first_release_marker_from(s, 0) {
        Some(i) => {
            let start = i + release_prefix().len();
            Some(s.subrange(start, line_end_from(s, start as nat)))
        },
        None => None,
    }
}

fn release_marker_at_exec(s: &Vec<char>, prefix: &Vec<char>, i: usize) -> (r: bool)
    requires
        prefix@ == release_prefix(),
    ensures
        r == release_marker_at(s@, i as int),
{
    let n = s.len();
    if !occurs_at_exec(s, prefix, i) {
        return false;
    }
    let k = i + prefix.len();
    k < n && s[k] != '\n'
}

/// The version named by the release tag `tag`, if it names one.
pub fn release_version(tag: &str) -> (r: Option<String>)
    ensures
        match r {
            Some(v) => tag_version(tag@) == Some(v@),
            None => tag_version(tag@) is None,
        },
{
    let s = chars_of(tag);
    let prefix = vec!['r', 'e', 'l', 'e', 'a', 's', 'e', '-', 'v'];
    assert(prefix@ =~= release_prefix());
    let n = s.len();
    let mut i: usize = 0;
    while i < n
        invariant
            n == s@.len(),
            s@ == tag@,
            prefix@ == release_prefix(),
            i <= n,
            first_release_marker_from(s@, 0) == first_release_marker_from(s@, i as nat),
        decreases n - i,
    {
        if release_marker_at_exec(&s, &prefix, i) {
            let start = i + prefix.len();
            let mut end = start;
            while end < n && s[end] != '\n'
                invariant
                    n == s@.len(),
                    start <= end <= n,
                    line_end_from(s@, start as nat) == line_end_from(s@, end as nat),
                decreases n - end,
            {
                end += 1;
            }
            return Some(tag.substring_char(start, end).to_owned());
        }
        i += 1;
    }
    None
}

} // verus!
