//! The method of a request, read from its token.

use reqwest::Method;
use vstd::prelude::*;

verus! {

/// `http::Method`, as reqwest hands it out.
#[verifier::external_type_specification]
#[verifier::external_body]
pub struct ExMethod(Method);

/// The letter in upper case, any other character as it is.
pub open spec fn upper_char(c: char) -> char {
    if 'a' <= c <= 'z' {
        ((c as u8) - 32) as char
    } else {
        c
    }
}

/// The text with its ASCII letters in upper case.
pub open spec fn ascii_uppercase(text: Seq<char>) -> Seq<char> {
    text.map_values(|c: char| upper_char(c))
}

/// A character that may stand in the token of a method.
pub open spec fn is_method_char(c: char) -> bool {
    ||| 'a' <= c <= 'z'
    ||| 'A' <= c <= 'Z'
    ||| '0' <= c <= '9'
    ||| c == '!'
    ||| c == '*'
    ||| c == '+'
    ||| c == '-'
    ||| c == '.'
    ||| c == '^'
    ||| c == '_'
    ||| c == '`'
    ||| c == '|'
    ||| c == '~'
}

/// A token that names a method: not empty, and made of characters that may
/// stand in one.
pub open spec fn is_method_token(token: Seq<char>) -> bool {
    &&& token.len() > 0
    &&& forall|i: int| 0 <= i < token.len() ==> is_method_char(#[trigger] token[i])
}

/// The token of a method, as the method is written on the wire.
pub uninterp spec fn method_token(method: Method) -> Seq<char>;

/// `str::to_ascii_uppercase` copies the text with the letters `a` to `z` in
/// upper case and leaves every other character as it is.
#[verifier::external_body]
fn to_ascii_uppercase(text: &str) -> (r: String)
    ensures
        r@ == ascii_uppercase(text@),
{
    text.to_ascii_uppercase()
}

/// Calls `Method::from_bytes` on the bytes of the token, which gives the
/// method of that token, or fails where the token is empty or holds a
/// character that may not stand in one.
#[verifier::external_body]
fn method_from_token(token: &str) -> (r: Option<Method>)
    ensures
        r is Some <==> is_method_token(token@),
        r matches Some(method) ==> method_token(method) == token@,
{
    match Method::from_bytes(token.as_bytes()) {
        Ok(method) => Some(method),
        Err(_) => None,
    }
}

/// The method that a token names, without regard to the case of its letters:
/// the method whose token is the given one in upper case.
pub fn parse_method(token: &str) -> (r: Option<Method>)
    ensures
        r is Some <==> is_method_token(token@),
        r matches Some(method) ==> method_token(method) == ascii_uppercase(token@),
{
    let upper = to_ascii_uppercase(token);
    proof {
        lemma_uppercase_keeps_tokens(token@);
    }
    method_from_token(upper.as_str())
}

/// A text is the token of a method exactly when it is one in upper case.
pub proof fn lemma_uppercase_keeps_tokens(token: Seq<char>)
    ensures
        is_method_token(ascii_uppercase(token)) <==> is_method_token(token),
{
    let upper = ascii_uppercase(token);
    assert(upper.len() == token.len());
    if is_method_token(token) {
        assert forall|i: int| 0 <= i < upper.len() implies is_method_char(#[trigger] upper[i]) by {
            assert(is_method_char(token[i]));
        }
    }
    if is_method_token(upper) {
        assert forall|i: int| 0 <= i < token.len() implies is_method_char(#[trigger] token[i]) by {
            assert(is_method_char(upper[i]));
        }
    }
}

} // verus!
