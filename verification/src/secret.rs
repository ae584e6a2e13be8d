//! Finding the key in what the game client logs.
//!
//! The client writes the key of a session to its log, as base64 text behind
//! a fixed marker. The text that the last such line holds is the secret that
//! an encryption response waits for.

use vstd::prelude::*;
use vstd::slice::{slice_subrange, slice_to_vec};
use vstd::utf8::{encode_utf8, valid_utf8};
use crate::packet::string_from_utf8;
use crate::serverbound::login::key_bytes;

verus! {

/// Whether `pattern` stands in `text` at the index `at`.
pub open spec fn occurs_at(text: Seq<u8>, pattern: Seq<u8>, at: int) -> bool {
    0 <= at && at + pattern.len() <= text.len() && text.subrange(at, at + pattern.len())
        == pattern
}

/// The first index from `from` on at which `pattern` stands in `text`.
pub open spec fn first_match(text: Seq<u8>, pattern: Seq<u8>, from: int) -> Option<int>
    decreases text.len() + 1 - from,
{
    if from < 0 || from + pattern.len() > text.len() {
        None
    } else if occurs_at(text, pattern, from) {
        Some(from)
    } else {
        first_match(text, pattern, from + 1)
    }
}

/// The first index from `from` on at which the byte `byte` stands in `text`.
pub open spec fn first_byte(text: Seq<u8>, byte: u8, from: int) -> Option<int>
    decreases text.len() - from,
{
    if from < 0 || from >= text.len() {
        None
    } else if text[from] == byte {
        Some(from)
    } else {
        first_byte(text, byte, from + 1)
    }
}

/// `text` with every byte `byte` taken out.
pub open spec fn without(text: Seq<u8>, byte: u8) -> Seq<u8>
    decreases text.len(),
{
    if text.len() == 0 {
        Seq::empty()
    } else if text.last() == byte {
        without(text.drop_last(), byte)
    } else {
        without(text.drop_last(), byte).push(text.last())
    }
}

/// The key that a line names: where the line is UTF-8 and holds the marker,
/// what stands between the first marker and the next one, or the end of the
/// line, with the carriage returns taken out.
pub open spec fn key_in_line(line: Seq<u8>, marker: Seq<u8>) -> Option<Seq<u8>> {
    if !valid_utf8(line) {
        None
    } else {
        match first_match(line, marker, 0) {
            None => None,
            Some(at) => {
                let tail = line.skip(at + marker.len());
                match first_match(tail, marker, 0) {
                    Some(next) => Some(without(tail.take(next), 0x0d)),
                    None => Some(without(tail, 0x0d)),
                }
            },
        }
    }
}

/// The key that a log names: the key of the last of its lines that names
/// one. Lines end at a line feed.
pub open spec fn key_in_log(log: Seq<u8>, marker: Seq<u8>) -> Option<Seq<u8>>
    decreases log.len(),
{
    match first_byte(log, 0x0a, 0) {
        None => key_in_line(log, marker),
        Some(end) => {
            if 0 <= end < log.len() {
                match key_in_log(log.skip(end + 1), marker) {
                    Some(key) => Some(key),
                    None => key_in_line(log.take(end), marker),
                }
            } else {
                None
            }
        },
    }
}

/// The marker behind which the client logs the key.
pub open spec fn marker() -> Seq<u8> {
    encode_utf8("[STDOUT]: Secret Key: "@)
}

/// An index that `first_byte` gives lies in the text, at or after `from`.
proof fn first_byte_bounds(text: Seq<u8>, byte: u8, from: int)
    ensures
        first_byte(text, byte, from) matches Some(at) ==> from <= at < text.len() && text[at]
            == byte,
    decreases text.len() - from,
{
    if 0 <= from < text.len() && text[from] != byte {
        first_byte_bounds(text, byte, from + 1);
    }
}

/// Whether `pattern` stands in `text` at the index `at`.
fn matches_at(text: &[u8], pattern: &[u8], at: usize) -> (r: bool)
    requires
        at + pattern@.len() <= text@.len(),
    ensures
        r == occurs_at(text@, pattern@, at as int),
{
    let size = text.len();
    let mut i: usize = 0;
    while i < pattern.len()
        invariant
            i <= pattern@.len(),
            at + pattern@.len() <= text@.len() == size,
            forall|j: int| 0 <= j < i ==> text@[at + j] == pattern@[j],
        decreases pattern@.len() - i,
    {
        if text[at + i] != pattern[i] {
            proof {
                let part = text@.subrange(at as int, at + pattern@.len());
                assert(part[i as int] == text@[at + i]);
            }
            return false;
        }
        i = i + 1;
    }
    proof {
        assert(text@.subrange(at as int, at + pattern@.len()) =~= pattern@);
    }
    true
}

/// The first index at which `pattern` stands in `text`.
fn find(text: &[u8], pattern: &[u8]) -> (r: Option<usize>)
    ensures
        match first_match(text@, pattern@, 0) {
            Some(at) => r == Some(at as usize) && 0 <= at && at + pattern@.len() <= text@.len(),
            None => r is None,
        },
{
    if pattern.len() > text.len() {
        return None;
    }
    let last = text.len() - pattern.len();
    let mut at: usize = 0;
    loop
        invariant
            at <= last,
            last + pattern@.len() == text@.len(),
            first_match(text@, pattern@, 0) == first_match(text@, pattern@, at as int),
        decreases last - at,
    {
        if matches_at(text, pattern, at) {
            return Some(at);
        }
        if at == last {
            return None;
        }
        at = at + 1;
    }
}

/// Copies `text` without its carriage returns.
fn strip_returns(text: &[u8]) -> (r: Vec<u8>)
    ensures
        r@ == without(text@, 0x0d),
{
    let mut out: Vec<u8> = Vec::new();
    let mut i: usize = 0;
    while i < text.len()
        invariant
            i <= text@.len(),
            out@ == without(text@.take(i as int), 0x0d),
        decreases text@.len() - i,
    {
        proof {
            assert(text@.take(i + 1).drop_last() == text@.take(i as int));
        }
        if text[i] != 0x0d {
            out.push(text[i]);
        }
        i = i + 1;
    }
    proof {
        assert(text@.take(i as int) == text@);
    }
    out
}

/// The key that one line of the log names.
fn line_key(line: &[u8], marker: &[u8]) -> (r: Option<Vec<u8>>)
    ensures
        key_bytes(r) == key_in_line(line@, marker@),
{
    if string_from_utf8(slice_to_vec(line)).is_none() {
        return None;
    }
    let at = match find(line, marker) {
        Some(at) => at,
        None => { return None; },
    };
    let size = line.len();
    let tail = slice_subrange(line, at + marker.len(), size);
    match find(tail, marker) {
        Some(next) => {
            let piece = slice_subrange(tail, 0, next);
            Some(strip_returns(piece))
        },
        None => Some(strip_returns(tail)),
    }
}

/// The key that `later` names, or else the one that `earlier` names.
spec fn or_else(later: Option<Seq<u8>>, earlier: Option<Seq<u8>>) -> Option<Seq<u8>> {
    match later {
        Some(key) => Some(key),
        None => earlier,
    }
}

/// The first index from `from` on at which a line feed stands in `text`.
fn find_line_end(text: &[u8], from: usize) -> (r: usize)
    requires
        from <= text@.len(),
    ensures
        from <= r <= text@.len(),
        match first_byte(text@.skip(from as int), 0x0a, 0) {
            Some(at) => r == from + at,
            None => r == text@.len(),
        },
{
    let mut at: usize = from;
    let ghost line = text@.skip(from as int);
    while at < text.len()
        invariant
            from <= at <= text@.len(),
            line == text@.skip(from as int),
            first_byte(line, 0x0a, 0) == first_byte(line, 0x0a, at - from),
        decreases text@.len() - at,
    {
        if text[at] == 0x0a {
            return at;
        }
        at = at + 1;
    }
    at
}

/// Finds in the client's log the base64 text of the key that it names last.
pub fn find_secret_key(log: &[u8]) -> (r: Option<Vec<u8>>)
    ensures
        key_bytes(r) == key_in_log(log@, marker()),
{
    let pattern = "[STDOUT]: Secret Key: ".as_bytes();
    let mut key: Option<Vec<u8>> = None;
    let mut start: usize = 0;
    proof {
        assert(log@.skip(0) == log@);
    }
    loop
        invariant
            start <= log@.len(),
            pattern@ == marker(),
            key_in_log(log@, pattern@) == or_else(
                key_in_log(log@.skip(start as int), pattern@),
                key_bytes(key),
            ),
        decreases log@.len() - start,
    {
        let ghost rest = log@.skip(start as int);
        let end = find_line_end(log, start);
        let found = line_key(slice_subrange(log, start, end), pattern);
        proof {
            first_byte_bounds(rest, 0x0a, 0);
            if end < log@.len() {
                assert(rest.take(end - start) == log@.subrange(start as int, end as int));
                assert(rest.skip(end - start + 1) == log@.skip(end + 1));
            } else {
                assert(rest == log@.subrange(start as int, end as int));
            }
        }
        if found.is_some() {
            key = found;
        }
        if end >= log.len() {
            return key;
        }
        start = end + 1;
    }
}

} // verus!
