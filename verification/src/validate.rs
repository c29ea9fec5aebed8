//! Allow-list validation of untrusted tokens.
//!
//! Raw strings from the command line end up in filesystem paths
//! (`/run/netns/<name>`) and in the argument vector of an external tool, so
//! they are held against strict per-character allow lists rather than
//! escaped: a namespace or network name may hold only digits, lower-case
//! letters and `-`; an address or CIDR block only digits, `.` and `/`.

use vstd::prelude::*;
use vstd::string::StrSliceExecFns;

use crate::errors::{TokenClass, ToolError};

verus! {

/// Whether `c` is allowed in an identifier token: `[0-9a-z-]`.
pub open spec fn is_identifier_char(c: char) -> bool {
    ('0' as u32) <= (c as u32) <= ('9' as u32)
        || ('a' as u32) <= (c as u32) <= ('z' as u32)
        || c == '-'
}

/// Whether `c` is allowed in an IP/CIDR token: `[0-9./]`.
pub open spec fn is_ip_char(c: char) -> bool {
    ('0' as u32) <= (c as u32) <= ('9' as u32) || c == '.' || c == '/'
}

/// Whether `c` is allowed in a token of class `class`.
pub open spec fn is_token_char(c: char, class: TokenClass) -> bool {
    match class {
        TokenClass::Identifier => is_identifier_char(c),
        TokenClass::IpLiteral => is_ip_char(c),
    }
}

/// The allow-list grammar itself: non-empty, and every character admitted
/// by the class.
pub open spec fn valid_token(s: Seq<char>, class: TokenClass) -> bool {
    s.len() > 0 && (forall|i: int| 0 <= i < s.len() ==> is_token_char(s[i], class))
}

/// Shorthand for a valid namespace or network/bridge name.
pub open spec fn valid_identifier(s: Seq<char>) -> bool {
    valid_token(s, TokenClass::Identifier)
}

/// Shorthand for a valid IP-address/CIDR literal.
pub open spec fn valid_ip_literal(s: Seq<char>) -> bool {
    valid_token(s, TokenClass::IpLiteral)
}

/// Decides whether one character is admitted by the class's allow list.
pub fn token_char_ok(c: char, class: TokenClass) -> (r: bool)
    ensures
        r == is_token_char(c, class),
{
    let u = c as u32;
    match class {
        TokenClass::Identifier => (('0' as u32) <= u && u <= ('9' as u32)) || (('a' as u32) <= u
            && u <= ('z' as u32)) || c == '-',
        TokenClass::IpLiteral => (('0' as u32) <= u && u <= ('9' as u32)) || c == '.' || c == '/',
    }
}

/// Decides whether a whole raw string matches the class's grammar.
pub fn token_matches(s: &str, class: TokenClass) -> (r: bool)
    ensures
        r == valid_token(s@, class),
{
    let n = s.unicode_len();
    if n == 0 {
        return false;
    }
    for i in 0..n
        invariant
            n == s@.len(),
            forall|j: int| 0 <= j < i ==> is_token_char(s@[j], class),
    {
        let c = s.get_char(i);
        if !token_char_ok(c, class) {
            return false;
        }
    }
    true
}

/// Validates a raw string against the required token class: `Ok` exactly on
/// the strings the class's grammar accepts, and otherwise the fatal
/// validation error naming the offending input and the expected class.
pub fn validate_token(s: &str, class: TokenClass) -> (r: Result<(), ToolError>)
    ensures
        r is Ok <==> valid_token(s@, class),
        r is Err ==> (r->Err_0 matches ToolError::Validation { input, class: c } && input@ == s@
            && c == class),
{
    if token_matches(s, class) {
        Ok(())
    } else {
        Err(ToolError::Validation { input: s.to_owned(), class })
    }
}

} // verus!
