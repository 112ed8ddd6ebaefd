//! Extraction of the method and path from the first line of a request.

use crate::text::{chars_of, is_space, is_space_char};
use vstd::prelude::*;

verus! {

/// The index of the first line break of `s`, or its length when it has none.
pub open spec fn line_end(s: Seq<char>, i: int) -> int
    decreases s.len() - i,
{
    if i < 0 || i >= s.len() || s[i] == '\n' {
        i
    } else {
        line_end(s, i + 1)
    }
}

/// The first index from `i` on that holds no whitespace, or the length.
pub open spec fn skip_space(s: Seq<char>, i: int) -> int
    decreases s.len() - i,
{
    if i < 0 || i >= s.len() || !is_space(s[i]) {
        i
    } else {
        skip_space(s, i + 1)
    }
}

/// The first index from `i` on that holds whitespace, or the length.
pub open spec fn skip_word(s: Seq<char>, i: int) -> int
    decreases s.len() - i,
{
    if i < 0 || i >= s.len() || is_space(s[i]) {
        i
    } else {
        skip_word(s, i + 1)
    }
}

/// The first line of a request: what precedes the first line break.
pub open spec fn first_line(s: Seq<char>) -> Seq<char> {
    s.subrange(0, line_end(s, 0))
}

/// The first whitespace-separated token of `line`, if any.
pub open spec fn first_token(line: Seq<char>) -> Option<Seq<char>> {
    let a = skip_space(line, 0);
    if a < line.len() {
        Some(line.subrange(a, skip_word(line, a)))
    } else {
        None
    }
}

/// The second whitespace-separated token of `line`, if any.
pub open spec fn second_token(line: Seq<char>) -> Option<Seq<char>> {
    let a = skip_space(line, skip_word(line, skip_space(line, 0)));
    if a < line.len() {
        Some(line.subrange(a, skip_word(line, a)))
    } else {
        None
    }
}

pub open spec fn default_method() -> Seq<char> {
    "GET"@
}

pub open spec fn default_path() -> Seq<char> {
    "/"@
}

/// The method and path a request asks for.
pub struct Request {
    pub method: String,
    pub path: String,
}

fn line_end_of(v: &Vec<char>) -> (r: usize)
    ensures
        r as int == line_end(v@, 0),
        r <= v@.len(),
{
    let mut i: usize = 0;
    while i < v.len() && v[i] != '\n'
        invariant
            i <= v@.len(),
            line_end(v@, i as int) == line_end(v@, 0),
        decreases v@.len() - i,
    {
        i = i + 1;
    }
    i
}

fn skip_space_from(v: &Vec<char>, start: usize) -> (r: usize)
    requires
        start <= v@.len(),
    ensures
        r as int == skip_space(v@, start as int),
        start <= r <= v@.len(),
{
    let mut i: usize = start;
    while i < v.len() && is_space_char(v[i])
        invariant
            start <= i <= v@.len(),
            skip_space(v@, i as int) == skip_space(v@, start as int),
        decreases v@.len() - i,
    {
        i = i + 1;
    }
    i
}

fn skip_word_from(v: &Vec<char>, start: usize) -> (r: usize)
    requires
        start <= v@.len(),
    ensures
        r as int == skip_word(v@, start as int),
        start <= r <= v@.len(),
{
    let mut i: usize = start;
    while i < v.len() && !is_space_char(v[i])
        invariant
            start <= i <= v@.len(),
            skip_word(v@, i as int) == skip_word(v@, start as int),
        decreases v@.len() - i,
    {
        i = i + 1;
    }
    i
}

impl Request {
    /// Reads the method and path from the first line of `input`, the text a
    /// client sent; a token that is missing takes its default value.
    pub fn new(input: &str) -> (r: Request)
        ensures
            r.method@ == (match first_token(first_line(input@)) {
                Some(t) => t,
                None => default_method(),
            }),
            r.path@ == (match second_token(first_line(input@)) {
                Some(t) => t,
                None => default_path(),
            }),
    {
        let all = chars_of(input);
        let end = line_end_of(&all);
        let line = input.substring_char(0, end);
        let v = chars_of(line);
        let a0 = skip_space_from(&v, 0);
        let b0 = skip_word_from(&v, a0);
        let a1 = skip_space_from(&v, b0);
        let b1 = skip_word_from(&v, a1);
        let method = if a0 < v.len() {
            line.substring_char(a0, b0).to_owned()
        } else {
            String::from_str("GET")
        };
        let path = if a1 < v.len() {
            line.substring_char(a1, b1).to_owned()
        } else {
            String::from_str("/")
        };
        Request { method, path }
    }

    /// The request assumed when nothing could be read.
    pub fn default() -> (r: Request)
        ensures
            r.method@ == default_method(),
            r.path@ == default_path(),
    {
        Request { method: String::from_str("GET"), path: String::from_str("/") }
    }
}

} // verus!
