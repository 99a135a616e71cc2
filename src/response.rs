//! Reading the head of a response: its status line and header lines.
use vstd::prelude::*;

use crate::text::{byte_index, char_index, index_of};

verus! {

pub open spec fn is_digit_byte(b: u8) -> bool {
    48 <= b <= 57
}

/// The status code of a status line such as `HTTP/1.1 200 OK`: the three
/// digits right after the first space, with no digit after them.
pub open spec fn status_code_of(s: Seq<u8>) -> Option<u16> {
    let k = index_of(s, 32u8);
    if k + 4 <= s.len() && is_digit_byte(s[k + 1]) && is_digit_byte(s[k + 2]) && is_digit_byte(
        s[k + 3],
    ) && (k + 4 == s.len() || !is_digit_byte(s[k + 4])) {
        Some(((s[k + 1] - 48) * 100 + (s[k + 2] - 48) * 10 + (s[k + 3] - 48)) as u16)
    } else {
        None
    }
}

/// Reads the status code of a status line.
pub fn parse_status_code(line: &[u8]) -> (r: Option<u16>)
    ensures
        r == status_code_of(line@),
{
    let k = byte_index(line, 32u8);
    if k < line.len() && line.len() - k >= 4 {
        let a = line[k + 1];
        let b = line[k + 2];
        let c = line[k + 3];
        if 48 <= a && a <= 57 && 48 <= b && b <= 57 && 48 <= c && c <= 57 && (k + 4 == line.len()
            || !(48 <= line[k + 4] && line[k + 4] <= 57)) {
            return Some((a - 48) as u16 * 100 + (b - 48) as u16 * 10 + (c - 48) as u16);
        }
    }
    None
}

pub open spec fn is_space(c: char) -> bool {
    c == ' ' || c == '\t' || c == '\r' || c == '\n'
}

pub open spec fn skip_spaces(s: Seq<char>) -> Seq<char>
    decreases s.len(),
{
    if s.len() > 0 && is_space(s[0]) {
        skip_spaces(s.drop_first())
    } else {
        s
    }
}

pub open spec fn drop_trailing_spaces(s: Seq<char>) -> Seq<char>
    decreases s.len(),
{
    if s.len() > 0 && is_space(s.last()) {
        drop_trailing_spaces(s.drop_last())
    } else {
        s
    }
}

/// `s` without the spaces, tabs and line ends at either end.
pub open spec fn trimmed(s: Seq<char>) -> Seq<char> {
    drop_trailing_spaces(skip_spaces(s))
}

/// Whether two characters are the same letter in either case, or equal.
pub open spec fn same_ignoring_case(a: char, b: char) -> bool {
    a == b || ('A' <= a <= 'Z' && b as u32 == a as u32 + 32) || ('a' <= a <= 'z' && a as u32
        == b as u32 + 32)
}

pub open spec fn equal_ignoring_case(a: Seq<char>, b: Seq<char>) -> bool {
    a.len() == b.len() && forall|i: int| 0 <= i < a.len() ==> same_ignoring_case(a[i], b[i])
}

/// The value of a header line `Name: value` when its name, trimmed, is
/// `name` up to ASCII case; the value is trimmed too.
pub open spec fn header_value_of(line: Seq<char>, name: Seq<char>) -> Option<Seq<char>> {
    let k = index_of(line, ':');
    if k < line.len() && equal_ignoring_case(trimmed(line.take(k)), name) {
        Some(trimmed(line.skip(k + 1)))
    } else {
        None
    }
}

/// Trims spaces, tabs and line ends from both ends.
pub fn trim(s: &str) -> (r: &str)
    ensures
        r@ == trimmed(s@),
{
    let n = s.unicode_len();
    let mut i: usize = 0;
    assert(s@.skip(0) =~= s@);
    while i < n && is_space_char(s.get_char(i))
        invariant
            i <= n,
            n == s@.len(),
            skip_spaces(s@) == skip_spaces(s@.skip(i as int)),
        decreases n - i,
    {
        assert(s@.skip(i as int).drop_first() =~= s@.skip(i + 1));
        i = i + 1;
    }
    let mut j: usize = n;
    let ghost front = s@.skip(i as int);
    assert(skip_spaces(s@.skip(i as int)) == s@.skip(i as int));
    while j > i && is_space_char(s.get_char(j - 1))
        invariant
            i <= j <= n,
            n == s@.len(),
            front == s@.skip(i as int),
            drop_trailing_spaces(front) == drop_trailing_spaces(s@.subrange(i as int, j as int)),
        decreases j,
    {
        assert(s@.subrange(i as int, j as int).drop_last() =~= s@.subrange(i as int, j - 1));
        j = j - 1;
    }
    assert(front =~= s@.subrange(i as int, n as int));
    s.substring_char(i, j)
}

fn is_space_char(c: char) -> (r: bool)
    ensures
        r == is_space(c),
{
    c == ' ' || c == '\t' || c == '\r' || c == '\n'
}

/// Compares two texts letter by letter, ignoring ASCII case.
pub fn eq_ignoring_case(a: &str, b: &str) -> (r: bool)
    ensures
        r == equal_ignoring_case(a@, b@),
{
    let n = a.unicode_len();
    if n != b.unicode_len() {
        return false;
    }
    let mut i: usize = 0;
    while i < n
        invariant
            i <= n,
            n == a@.len(),
            n == b@.len(),
            forall|j: int| 0 <= j < i ==> same_ignoring_case(a@[j], b@[j]),
        decreases n - i,
    {
        let x = a.get_char(i);
        let y = b.get_char(i);
        let same = x == y || ('A' <= x && x <= 'Z' && y as u32 == x as u32 + 32) || ('a' <= x
            && x <= 'z' && x as u32 == y as u32 + 32);
        if !same {
            return false;
        }
        i = i + 1;
    }
    true
}

/// The value of the header line `line` if it names the header `name`.
pub fn header_value(line: &str, name: &str) -> (r: Option<String>)
    ensures
        r is Some <==> header_value_of(line@, name@) is Some,
        r matches Some(v) ==> header_value_of(line@, name@) == Some(v@),
{
    let n = line.unicode_len();
    let k = char_index(line, ':');
    if k == n {
        return None;
    }
    let key = trim(line.substring_char(0, k));
    if !eq_ignoring_case(key, name) {
        return None;
    }
    Some(String::from_str(trim(line.substring_char(k + 1, n))))
}

} // verus!
