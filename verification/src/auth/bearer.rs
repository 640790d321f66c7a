//! The `Authorization` header of the bearer scheme.
//!
//! The header value is split on blanks. Its first word must be the scheme,
//! spelled exactly `Bearer`; its second word is the token. A value that is
//! not ASCII carries no token.

use vstd::prelude::*;
use vstd::utf8::is_ascii_chars;

use crate::auth::text::{blanks_end, skip_blanks, skip_word, spells, word_end};

verus! {

/// The scheme word, in the only spelling that is accepted.
pub open spec fn scheme() -> Seq<char> {
    "Bearer"@
}

/// Where the first word of `header` starts.
pub open spec fn scheme_start(header: Seq<char>) -> int {
    skip_blanks(header, 0)
}

/// Where the first word of `header` ends.
pub open spec fn scheme_end(header: Seq<char>) -> int {
    skip_word(header, scheme_start(header))
}

/// Where the second word of `header` starts.
pub open spec fn token_start(header: Seq<char>) -> int {
    skip_blanks(header, scheme_end(header))
}

/// Where the second word of `header` ends.
pub open spec fn token_end(header: Seq<char>) -> int {
    skip_word(header, token_start(header))
}

/// The token that a header value carries: its second word, where the value is
/// ASCII, its first word is the scheme and a second word follows.
pub open spec fn bearer_credentials(header: Seq<char>) -> Option<Seq<char>> {
    if is_ascii_chars(header) && header.subrange(scheme_start(header), scheme_end(header))
        == scheme() && token_start(header) < token_end(header) {
        Some(header.subrange(token_start(header), token_end(header)))
    } else {
        None
    }
}

/// Takes the token out of an `Authorization` header value.
pub fn bearer_token(header: &str) -> (token: Option<&str>)
    ensures
        match token {
            Some(t) => bearer_credentials(header@) == Some(t@),
            None => bearer_credentials(header@) is None,
        },
{
    if !header.is_ascii() {
        return None;
    }
    let a = blanks_end(header, 0);
    let b = word_end(header, a);
    proof {
        reveal_strlit("Bearer");
    }
    if !spells(header, a, b, "Bearer") {
        return None;
    }
    let c = blanks_end(header, b);
    let d = word_end(header, c);
    if c == d {
        return None;
    }
    Some(header.substring_ascii(c, d))
}

} // verus!
