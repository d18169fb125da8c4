//! Text scanning over characters: substring search, character classes and
//! the conversions between `str`, `String` and character vectors.

use vstd::prelude::*;
use crate::wrappers::push_char;

verus! {

/// Whether `needle` occurs in `s` at position `p`.
pub open spec fn occurs_at(s: Seq<char>, needle: Seq<char>, p: int) -> bool {
    0 <= p && p + needle.len() <= s.len() && s.subrange(p, p + needle.len()) == needle
}

/// The first position at or after `from` where `needle` occurs in `s`.
pub open spec fn find_from(s: Seq<char>, needle: Seq<char>, from: int) -> Option<int>
    decreases s.len() + 1 - from,
{
    if from < 0 || from + needle.len() > s.len() {
        None
    } else if occurs_at(s, needle, from) {
        Some(from)
    } else {
        find_from(s, needle, from + 1)
    }
}

/// Whether `s` contains `needle`.
pub open spec fn contains(s: Seq<char>, needle: Seq<char>) -> bool {
    find_from(s, needle, 0) is Some
}

/// A position found by `find_from` is an occurrence, the first one.
pub proof fn lemma_find_from(s: Seq<char>, needle: Seq<char>, from: int)
    requires
        0 <= from,
    ensures
        find_from(s, needle, from) matches Some(p) ==> from <= p && occurs_at(s, needle, p)
            && forall|q: int| from <= q < p ==> !occurs_at(s, needle, q),
        find_from(s, needle, from) is None ==> forall|q: int| from <= q ==> !occurs_at(s, needle, q),
    decreases s.len() + 1 - from,
{
    if from < 0 || from + needle.len() > s.len() {
    } else if occurs_at(s, needle, from) {
    } else {
        lemma_find_from(s, needle, from + 1);
    }
}

/// The characters of `s`.
pub fn chars_of(s: &str) -> (v: Vec<char>)
    ensures
        v@ == s@,
{
    broadcast use vstd::string::group_string_axioms;
    let mut v: Vec<char> = Vec::new();
    for c in it: s.chars()
        invariant
            v@.len() == it.index(),
            forall|j: int| 0 <= j < v@.len() ==> v@[j] == it.seq()[j],
            it.seq() == s@,
    {
        v.push(c);
    }
    assert(v@ =~= s@);
    v
}

/// The string made of `v[start..end]`.
pub fn string_of(v: &[char], start: usize, end: usize) -> (s: String)
    requires
        start <= end <= v@.len(),
    ensures
        s@ == v@.subrange(start as int, end as int),
{
    let mut s = String::new();
    let mut i = start;
    while i < end
        invariant
            start <= i <= end <= v@.len(),
            s@ == v@.subrange(start as int, i as int),
        decreases end - i,
    {
        push_char(&mut s, v[i]);
        i += 1;
        assert(s@ =~= v@.subrange(start as int, i as int));
    }
    s
}

/// Whether `needle` occurs in `s` at `p`.
pub fn occurs_at_exec(s: &[char], needle: &[char], p: usize) -> (b: bool)
    ensures
        b == occurs_at(s@, needle@, p as int),
{
    if p > s.len() || needle.len() > s.len() - p {
        return false;
    }
    let mut i: usize = 0;
    while i < needle.len()
        invariant
            p + needle@.len() <= s@.len(),
            s@.len() <= usize::MAX,
            i <= needle@.len(),
            forall|j: int| 0 <= j < i ==> s@[p + j] == needle@[j],
        decreases needle@.len() - i,
    {
        if s[p + i] != needle[i] {
            assert(s@.subrange(p as int, p + needle@.len())[i as int] != needle@[i as int]);
            return false;
        }
        i += 1;
    }
    assert(s@.subrange(p as int, p + needle@.len()) =~= needle@);
    true
}

/// The first position at or after `from` where `needle` occurs in `s`.
pub fn find(s: &[char], needle: &[char], from: usize) -> (r: Option<usize>)
    ensures
        match find_from(s@, needle@, from as int) {
            Some(p) => r == Some(p as usize),
            None => r is None,
        },
{
    if needle.len() == 0 {
        if from <= s.len() {
            assert(s@.subrange(from as int, from as int) =~= needle@);
            return Some(from);
        } else {
            return None;
        }
    }
    let mut p = from;
    while p <= s.len() && needle.len() <= s.len() - p
        invariant
            from <= p,
            needle@.len() > 0,
            find_from(s@, needle@, from as int) == find_from(s@, needle@, p as int),
        decreases s@.len() + 1 - p,
    {
        if occurs_at_exec(s, needle, p) {
            return Some(p);
        }
        p += 1;
    }
    None
}

/// Whether `c` is an ASCII digit.
pub open spec fn is_digit(c: char) -> bool {
    '0' <= c && c <= '9'
}

/// Whether `c` is an ASCII letter.
pub open spec fn is_alpha(c: char) -> bool {
    ('a' <= c && c <= 'z') || ('A' <= c && c <= 'Z')
}

/// `c` in ASCII lower case.
pub open spec fn to_lower(c: char) -> char {
    if 'A' <= c && c <= 'Z' { (((c as u8) + 32) as u8) as char } else { c }
}

/// `c` in ASCII upper case.
pub open spec fn to_upper(c: char) -> char {
    if 'a' <= c && c <= 'z' { (((c as u8) - 32) as u8) as char } else { c }
}

/// `c` in ASCII lower case.
pub fn to_lower_exec(c: char) -> (r: char)
    ensures
        r == to_lower(c),
{
    if 'A' <= c && c <= 'Z' {
        let b: u8 = c as u8;
        (b + 32) as char
    } else {
        c
    }
}

/// `c` in ASCII upper case.
pub fn to_upper_exec(c: char) -> (r: char)
    ensures
        r == to_upper(c),
{
    if 'a' <= c && c <= 'z' {
        let b: u8 = c as u8;
        (b - 32) as char
    } else {
        c
    }
}

/// Whether `c` is an ASCII digit.
pub fn is_digit_exec(c: char) -> (b: bool)
    ensures
        b == is_digit(c),
{
    '0' <= c && c <= '9'
}

/// Whether `c` is an ASCII letter.
pub fn is_alpha_exec(c: char) -> (b: bool)
    ensures
        b == is_alpha(c),
{
    ('a' <= c && c <= 'z') || ('A' <= c && c <= 'Z')
}

/// Number of bytes of `c` in UTF-8.
pub open spec fn utf8_width(c: char) -> nat {
    if (c as u32) < 0x80 { 1 } else if (c as u32) < 0x800 { 2 } else if (c as u32) < 0x10000 { 3 } else { 4 }
}

/// Number of bytes of `s` in UTF-8.
pub open spec fn utf8_len(s: Seq<char>) -> nat
    decreases s.len(),
{
    if s.len() == 0 { 0 } else { utf8_len(s.drop_last()) + utf8_width(s.last()) }
}

/// Number of bytes of `c` in UTF-8.
pub fn utf8_width_exec(c: char) -> (w: usize)
    ensures
        w == utf8_width(c),
{
    let u = c as u32;
    if u < 0x80 { 1 } else if u < 0x800 { 2 } else if u < 0x10000 { 3 } else { 4 }
}

} // verus!
