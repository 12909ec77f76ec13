//! Character-level text primitives: prefix and substring tests, line joining,
//! and the scan for an ATIS information letter in broadcast text.
use vstd::prelude::*;

verus! {

/// `p` is a prefix of `s`.
pub open spec fn is_prefix_of(p: Seq<char>, s: Seq<char>) -> bool {
    p.len() <= s.len() && s.subrange(0, p.len() as int) == p
}

/// `p` occurs in `s` starting at position `i`.
pub open spec fn occurs_at(s: Seq<char>, p: Seq<char>, i: int) -> bool {
    0 <= i && i + p.len() <= s.len() && s.subrange(i, i + p.len()) == p
}

/// `p` occurs somewhere in `s`.
pub open spec fn contains_seq(s: Seq<char>, p: Seq<char>) -> bool {
    exists|i: int| occurs_at(s, p, i)
}

/// The character views of a sequence of strings.
pub open spec fn views(v: Seq<String>) -> Seq<Seq<char>> {
    v.map_values(|s: String| s@)
}

/// Lines joined with a single space between consecutive lines.
pub open spec fn joined(lines: Seq<Seq<char>>) -> Seq<char>
    decreases lines.len(),
{
    if lines.len() == 0 {
        Seq::empty()
    } else if lines.len() == 1 {
        lines[0]
    } else {
        joined(lines.drop_last()) + seq![' '] + lines.last()
    }
}

/// The characters of `s`, one per element.
pub fn chars_of(s: &str) -> (r: Vec<char>)
    ensures
        r@ == s@,
{
    let mut r: Vec<char> = Vec::new();
    for c in it: s.chars()
        invariant
            it.seq() == s@,
            r@ == it.seq().subrange(0, it.index() as int),
    {
        r.push(c);
    }
    r
}

/// Whether `p` occurs in `s` at position `i`.
pub fn occurs_at_exec(s: &Vec<char>, p: &Vec<char>, i: usize) -> (r: bool)
    ensures
        r == occurs_at(s@, p@, i as int),
{
    if i > s.len() || p.len() > s.len() - i {
        return false;
    }
    let n = s.len();
    let mut k: usize = 0;
    while k < p.len()
        invariant
            n == s@.len(),
            i + p@.len() <= n,
            k <= p@.len(),
            forall|j: int| 0 <= j < k ==> s@[i + j] == p@[j],
        decreases p@.len() - k,
    {
        if s[i + k] != p[k] {
            assert(s@.subrange(i as int, i + p@.len())[k as int] != p@[k as int]);
            return false;
        }
        k += 1;
    }
    assert(s@.subrange(i as int, i + p@.len()) =~= p@);
    true
}

/// Whether `s` starts with `p`.
pub fn has_prefix(s: &str, p: &str) -> (r: bool)
    ensures
        r == is_prefix_of(p@, s@),
{
    let sv = chars_of(s);
    let pv = chars_of(p);
    occurs_at_exec(&sv, &pv, 0)
}

/// Whether `p` occurs anywhere in `s`.
pub fn has_substring(s: &str, p: &str) -> (r: bool)
    ensures
        r == contains_seq(s@, p@),
{
    let sv = chars_of(s);
    let pv = chars_of(p);
    let n = sv.len();
    let mut i: usize = 0;
    while i < n
        invariant
            n == sv@.len(),
            i <= n,
            sv@ == s@,
            pv@ == p@,
            forall|j: int| 0 <= j < i ==> !occurs_at(s@, p@, j),
        decreases n - i,
    {
        if occurs_at_exec(&sv, &pv, i) {
            return true;
        }
        i += 1;
    }
    occurs_at_exec(&sv, &pv, n)
}

/// The lines joined with a single space, as `[String]::join(" ")` does.
pub fn join_lines(lines: &Vec<String>) -> (r: String)
    ensures
        r@ == joined(views(lines@)),
{
    let mut r = String::new();
    let mut i: usize = 0;
    while i < lines.len()
        invariant
            i <= lines@.len(),
            r@ == joined(views(lines@.subrange(0, i as int))),
        decreases lines@.len() - i,
    {
        proof {
            let pre = lines@.subrange(0, i as int);
            let next = lines@.subrange(0, i + 1);
            assert(views(next).drop_last() =~= views(pre));
            assert(views(next).last() == lines@[i as int]@);
        }
        if i > 0 {
            r.append(" ");
            proof { reveal_strlit(" "); }
        }
        r.append(lines[i].as_str());
        i += 1;
    }
    assert(lines@.subrange(0, lines@.len() as int) =~= lines@);
    r
}

/// An upper-case ASCII letter.
pub open spec fn is_upper(c: char) -> bool {
    'A' <= c && c <= 'Z'
}

/// At position `i` of `s` stand `word`, a space and one upper-case letter;
/// whatever follows the letter does not matter.
pub open spec fn letter_marker_at(s: Seq<char>, word: Seq<char>, i: int) -> bool {
    &&& occurs_at(s, word, i)
    &&& i + word.len() + 2 <= s.len()
    &&& s[i + word.len()] == ' '
    &&& is_upper(s[i + word.len() + 1])
}

/// The leftmost position at or after `i` where a letter marker for `word`
/// stands.
pub open spec fn first_marker_from(s: Seq<char>, word: Seq<char>, i: nat) -> Option<int>
    decreases s.len() - i,
{
    if i >= s.len() {
        None
    } else if letter_marker_at(s, word, i as int) {
        Some(i as int)
    } else {
        first_marker_from(s, word, (i + 1) as nat)
    }
}

/// The letter of the leftmost marker for `word` in `s`.
pub open spec fn letter_after(s: Seq<char>, word: Seq<char>) -> Option<char> {
    match first_marker_from(s, word, 0) {
        Some(i) => Some(s[i + word.len() + 1]),
        None => None,
    }
}

pub open spec fn info_word() -> Seq<char> {
    seq!['I', 'N', 'F', 'O']
}

pub open spec fn information_word() -> Seq<char> {
    seq!['I', 'N', 'F', 'O', 'R', 'M', 'A', 'T', 'I', 'O', 'N']
}

/// The information letter that broadcast text announces: the letter of the
/// leftmost `INFO X` in it, or failing that of the leftmost `INFORMATION X`,
/// where `X` is one upper-case letter.
pub open spec fn text_letter(s: Seq<char>) -> Option<char> {
    match letter_after(s, info_word()) {
        Some(c) => Some(c),
        None => letter_after(s, information_word()),
    }
}

fn is_upper_exec(c: char) -> (r: bool)
    ensures
        r == is_upper(c),
{
    'A' <= c && c <= 'Z'
}

fn marker_at_exec(s: &Vec<char>, word: &Vec<char>, i: usize) -> (r: bool)
    ensures
        r == letter_marker_at(s@, word@, i as int),
{
    let n = s.len();
    if !occurs_at_exec(s, word, i) {
        return false;
    }
    let k = i + word.len();
    if n - k < 2 {
        return false;
    }
    s[k] == ' ' && is_upper_exec(s[k + 1])
}

/// The position of the letter of the leftmost marker for `word` in `s`.
fn letter_position_after(s: &Vec<char>, word: &Vec<char>) -> (r: Option<usize>)
    ensures
        match r {
            Some(k) => k < s@.len() && letter_after(s@, word@) == Some(s@[k as int]),
            None => letter_after(s@, word@) is None,
        },
{
    let n = s.len();
    let mut i: usize = 0;
    while i < n
        invariant
            n == s@.len(),
            i <= n,
            first_marker_from(s@, word@, 0) == first_marker_from(s@, word@, i as nat),
        decreases n - i,
    {
        if marker_at_exec(s, word, i) {
            return Some(i + word.len() + 1);
        }
        i += 1;
    }
    None
}

/// The position in `s` of the letter that `text_letter` reads.
pub fn letter_position(s: &Vec<char>) -> (r: Option<usize>)
    ensures
        match r {
            Some(k) => k < s@.len() && text_letter(s@) == Some(s@[k as int]),
            None => text_letter(s@) is None,
        },
{
    let info = vec!['I', 'N', 'F', 'O'];
    assert(info@ =~= info_word());
    match letter_position_after(s, &info) {
        Some(k) => Some(k),
        None => {
            let information = vec!['I', 'N', 'F', 'O', 'R', 'M', 'A', 'T', 'I', 'O', 'N'];
            assert(information@ =~= information_word());
            letter_position_after(s, &information)
        },
    }
}

/// The information letter announced in broadcast text, read from the lines
/// joined with spaces.
pub fn parse_code_from_text(text_lines: &Vec<String>) -> (r: Option<char>)
    ensures
        r == text_letter(joined(views(text_lines@))),
{
    let joined_text = join_lines(text_lines);
    let s = chars_of(joined_text.as_str());
    match letter_position(&s) {
        Some(k) => Some(s[k]),
        None => None,
    }
}

} // verus!
