//! Reading the header map of a response.

use reqwest::header::{HeaderMap, HeaderValue};
use vstd::prelude::*;

verus! {

/// `http::HeaderMap`, as reqwest hands it out: a multimap from header names
/// to header values that keeps the order of its lines.
#[verifier::external_type_specification]
#[verifier::external_body]
#[verifier::reject_recursive_types(T)]
pub struct ExHeaderMap<T>(HeaderMap<T>);

/// `http::HeaderValue`, the values that a header map of reqwest holds.
#[verifier::external_type_specification]
#[verifier::external_body]
pub struct ExHeaderValue(HeaderValue);

/// The lines of a header map in the order in which it yields them: each name
/// in lower case, as the map keeps it, with the bytes of one of its values.
/// The values of one name come in the order in which they were added.
pub uninterp spec fn header_lines(headers: HeaderMap) -> Seq<(Seq<char>, Seq<u8>)>;

/// The letter in lower case, any other character as it is.
pub open spec fn lower_char(c: char) -> char {
    if 'A' <= c <= 'Z' {
        ((c as u8) + 32) as char
    } else {
        c
    }
}

/// The text with its ASCII letters in lower case.
pub open spec fn ascii_lowercase(text: Seq<char>) -> Seq<char> {
    text.map_values(|c: char| lower_char(c))
}

/// A name made of ASCII letters, digits and hyphens, of 1 to 64 characters.
pub open spec fn is_plain_name(name: Seq<char>) -> bool {
    &&& 1 <= name.len() <= 64
    &&& forall|i: int|
        0 <= i < name.len() ==> {
            let c = #[trigger] name[i];
            ('a' <= c <= 'z') || ('A' <= c <= 'Z') || ('0' <= c <= '9') || c == '-'
        }
}

/// The position of the first line that carries the name, or the number of
/// lines where none does.
pub open spec fn first_line(lines: Seq<(Seq<char>, Seq<u8>)>, name: Seq<char>) -> int
    decreases lines.len(),
{
    if lines.len() == 0 {
        0
    } else if lines[0].0 == name {
        0
    } else {
        1 + first_line(lines.drop_first(), name)
    }
}

/// The first value that the lines give for a name in lower case.
pub open spec fn first_value(lines: Seq<(Seq<char>, Seq<u8>)>, name: Seq<char>) -> Option<
    Seq<u8>,
> {
    let i = first_line(lines, name);
    if i < lines.len() {
        Some(lines[i].1)
    } else {
        None
    }
}

/// The value found for a name is that of the first line that carries the
/// name, and none is found only where no line carries it.
pub proof fn lemma_first_value(lines: Seq<(Seq<char>, Seq<u8>)>, name: Seq<char>)
    ensures
        match first_value(lines, name) {
            Some(value) => exists|i: int|
                0 <= i < lines.len() && lines[i] == (name, value) && forall|j: int|
                    0 <= j < i ==> (#[trigger] lines[j]).0 != name,
            None => forall|j: int| 0 <= j < lines.len() ==> (#[trigger] lines[j]).0 != name,
        },
{
    lemma_first_line(lines, name);
    let i = first_line(lines, name);
    if i < lines.len() {
        assert(lines[i] == (name, lines[i].1));
    }
}

/// `first_line` is the least position that carries the name.
proof fn lemma_first_line(lines: Seq<(Seq<char>, Seq<u8>)>, name: Seq<char>)
    ensures
        0 <= first_line(lines, name) <= lines.len(),
        first_line(lines, name) < lines.len() ==> lines[first_line(lines, name)].0 == name,
        forall|j: int| 0 <= j < first_line(lines, name) ==> (#[trigger] lines[j]).0 != name,
    decreases lines.len(),
{
    if lines.len() == 0 {
    } else if lines[0].0 == name {
    } else {
        let rest = lines.drop_first();
        lemma_first_line(rest, name);
        assert forall|j: int| 0 <= j < first_line(lines, name) implies (#[trigger] lines[j]).0
            != name by {
            if j > 0 {
                assert(rest[j - 1] == lines[j]);
            }
        }
    }
}

/// A byte that may stand in a header value read as text: a printable ASCII
/// character, a space or a tab.
pub open spec fn is_visible_byte(b: u8) -> bool {
    (32 <= b < 127) || b == 9
}

/// Whether all the bytes may stand in a header value read as text.
pub open spec fn is_visible_ascii(bytes: Seq<u8>) -> bool {
    forall|i: int| 0 <= i < bytes.len() ==> is_visible_byte(#[trigger] bytes[i])
}

/// The bytes as characters, one for one.
pub open spec fn ascii_text(bytes: Seq<u8>) -> Seq<char> {
    bytes.map_values(|b: u8| b as char)
}

/// The text that the lines of a header map give under a name in lower case:
/// the first value under the name, where there is one and it is text.
pub open spec fn header_text(lines: Seq<(Seq<char>, Seq<u8>)>, name: Seq<char>) -> Option<
    Seq<char>,
> {
    match first_value(lines, name) {
        Some(bytes) => if is_visible_ascii(bytes) {
            Some(ascii_text(bytes))
        } else {
            None
        },
        None => None,
    }
}

/// Calls `HeaderMap::get` with a string key, and `HeaderValue::to_str` on the
/// value found. The map compares names without regard to case, and of
/// several values under one name it gives the first. A value is text where
/// all its bytes are printable ASCII, spaces or tabs.
#[verifier::external_body]
pub(crate) fn header_get_text(headers: &HeaderMap, name: &str) -> (r: Option<String>)
    requires
        is_plain_name(name@),
    ensures
        r is Some <==> header_text(header_lines(*headers), ascii_lowercase(name@)) is Some,
        r matches Some(s) ==> header_text(header_lines(*headers), ascii_lowercase(name@))
            == Some(s@),
{
    match headers.get(name) {
        Some(value) => match value.to_str() {
            Ok(text) => Some(text.to_string()),
            Err(_) => None,
        },
        None => None,
    }
}

} // verus!
