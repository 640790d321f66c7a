//! Syntactic decoding of compact tokens.
//!
//! A compact token is three segments of base64url text joined by dots:
//! header, claims and signature. Parsing splits the text and reads the key
//! identifier out of the header; it trusts nothing that the token says.

use vstd::prelude::*;
use vstd::utf8::is_ascii_chars;

use alcoholic_jwt::ValidationError;
use base64::alphabet::URL_SAFE;
use base64::engine::general_purpose::{GeneralPurpose, NO_PAD_INDIFFERENT};
use base64::{DecodeError, Engine};

use crate::auth::json::{json_parsed, optional_view, parse_json, read_text, text_member};
use crate::auth::text::{ascii_len, dot_position, next_dot};

verus! {

/// The error of `alcoholic_jwt`, carried through as an opaque value.
#[verifier::external_type_specification]
#[verifier::external_body]
pub struct ExValidationError(ValidationError);

/// What `alcoholic_jwt::token_kid` makes of a token's text: nothing where it
/// fails, else the `kid` of the header, which the header may lack.
pub uninterp spec fn token_header_kid(token: Seq<char>) -> Option<Option<Seq<char>>>;

/// `alcoholic_jwt::token_kid`: decodes the text before the first dot as
/// base64url, reads it as a JSON object and hands out its `kid` member. The
/// outcome is a function of the text alone.
#[verifier::external_body]
fn header_kid(token: &str) -> (kid: Result<Option<String>, ValidationError>)
    ensures
        match kid {
            Ok(Some(k)) => token_header_kid(token@) == Some(Some(k@)),
            Ok(None) => token_header_kid(token@) == Some(None::<Seq<char>>),
            Err(_) => token_header_kid(token@) is None,
        },
{
    alcoholic_jwt::token_kid(token)
}

/// The error of `base64`, carried through as an opaque value.
#[verifier::external_type_specification]
#[verifier::external_body]
pub struct ExDecodeError(DecodeError);

/// The bytes that a segment stands for in base64url, read as `alcoholic_jwt`
/// reads it: padding may be there or not, and trailing bits are let pass.
/// Nothing for text that is no such encoding.
pub uninterp spec fn segment_bytes(segment: Seq<char>) -> Option<Seq<u8>>;

/// `Engine::decode` of `base64`, on an engine with the URL-safe alphabet that
/// is indifferent to padding and allows trailing bits. The outcome is a
/// function of the text alone.
#[verifier::external_body]
fn decode_segment(segment: &str) -> (bytes: Result<Vec<u8>, DecodeError>)
    ensures
        match bytes {
            Ok(b) => segment_bytes(segment@) == Some(b@),
            Err(_) => segment_bytes(segment@) is None,
        },
{
    let config = NO_PAD_INDIFFERENT.with_decode_allow_trailing_bits(true);
    GeneralPurpose::new(&URL_SAFE, config).decode(segment)
}

/// The algorithm that a header segment declares: the `alg` member of the
/// JSON object that it encodes, where it decodes to one and the member is a
/// string.
pub open spec fn declared_algorithm(header: Seq<char>) -> Option<Seq<char>> {
    match segment_bytes(header) {
        Some(bytes) => match json_parsed(bytes) {
            Some(value) => text_member(value, "alg"@),
            None => None,
        },
        None => None,
    }
}

/// Reads the algorithm that a header segment declares.
pub fn read_algorithm(header: &str) -> (algorithm: Option<String>)
    ensures
        optional_view(algorithm) == declared_algorithm(header@),
{
    match decode_segment(header) {
        Ok(bytes) => match parse_json(bytes.as_slice()) {
            Ok(value) => read_text(&value, "alg"),
            Err(_) => None,
        },
        Err(_) => None,
    }
}

/// The token could not be taken apart.
#[derive(Debug, Clone, Copy, PartialEq, Eq)]
pub struct Malformed;

/// The position of the first dot of `token`, or its length.
pub open spec fn first_dot(token: Seq<char>) -> int {
    next_dot(token, 0)
}

/// The position of the second dot of `token`, or its length.
pub open spec fn second_dot(token: Seq<char>) -> int {
    next_dot(token, first_dot(token) + 1)
}

/// Whether `token` is ASCII text of exactly three segments, that is, with
/// exactly two dots.
pub open spec fn has_three_segments(token: Seq<char>) -> bool {
    &&& is_ascii_chars(token)
    &&& first_dot(token) < token.len()
    &&& second_dot(token) < token.len()
    &&& next_dot(token, second_dot(token) + 1) == token.len()
}

/// The parts of a token of three segments.
pub ghost struct TokenParts {
    pub kid: Seq<char>,
    pub algorithm: Option<Seq<char>>,
    pub header: Seq<char>,
    pub claims: Seq<char>,
    pub signature: Seq<char>,
}

impl TokenParts {
    /// What the signature is made over: header, dot, claims.
    pub open spec fn signing_input(self) -> Seq<char> {
        self.header + seq!['.'] + self.claims
    }

    /// The token as it is sent: header, dot, claims, dot, signature.
    pub open spec fn compact(self) -> Seq<char> {
        self.header + seq!['.'] + self.claims + seq!['.'] + self.signature
    }
}

/// What parsing makes of `token`: its parts, where it has exactly three
/// segments and its header decodes and names a key; nothing otherwise.
pub open spec fn parsed(token: Seq<char>) -> Option<TokenParts> {
    if has_three_segments(token) && token_header_kid(token) is Some && token_header_kid(
        token,
    ).unwrap() is Some {
        Some(
            TokenParts {
                kid: token_header_kid(token).unwrap().unwrap(),
                algorithm: declared_algorithm(token.subrange(0, first_dot(token))),
                header: token.subrange(0, first_dot(token)),
                claims: token.subrange(first_dot(token) + 1, second_dot(token)),
                signature: token.subrange(second_dot(token) + 1, token.len() as int),
            },
        )
    } else {
        None
    }
}

/// A token taken apart, with nothing of it verified yet.
#[derive(Debug, Clone, PartialEq, Eq)]
pub struct ParsedToken {
    /// The identifier of the key that the header names.
    pub kid: String,
    /// The algorithm that the header declares, where it declares one. It is
    /// told, not trusted: a signature is verified with the algorithm of the
    /// key.
    pub algorithm: Option<String>,
    /// The header segment, still encoded.
    pub header: String,
    /// The claims segment, still encoded.
    pub claims: String,
    /// The signature segment, still encoded.
    pub signature: String,
}

impl View for ParsedToken {
    type V = TokenParts;

    open spec fn view(&self) -> TokenParts {
        TokenParts {
            kid: self.kid@,
            algorithm: optional_view(self.algorithm),
            header: self.header@,
            claims: self.claims@,
            signature: self.signature@,
        }
    }
}

impl ParsedToken {
    /// The text that the signature is made over.
    pub fn signing_input(&self) -> (input: String)
        ensures
            input@ == self@.signing_input(),
    {
        let mut input = self.header.clone();
        input.append(".");
        input.append(self.claims.as_str());
        proof {
            reveal_strlit(".");
            assert("."@ =~= seq!['.']);
        }
        input
    }

    /// The token as it is sent.
    pub fn compact(&self) -> (token: String)
        ensures
            token@ == self@.compact(),
    {
        let mut token = self.signing_input();
        token.append(".");
        token.append(self.signature.as_str());
        proof {
            reveal_strlit(".");
            assert("."@ =~= seq!['.']);
        }
        token
    }
}

/// A token of three segments is its parts joined by dots.
pub proof fn lemma_parts_join(token: Seq<char>)
    requires
        parsed(token) is Some,
    ensures
        parsed(token).unwrap().compact() == token,
{
    let parts = parsed(token).unwrap();
    let a = first_dot(token);
    let b = second_dot(token);
    lemma_dot_at(token, 0);
    lemma_dot_at(token, a + 1);
    assert(parts.compact() =~= token);
}

/// Where the next dot lies before the end, a dot stands there, and the
/// position is not before the start of the search.
pub proof fn lemma_dot_at(token: Seq<char>, from: int)
    requires
        0 <= from <= token.len(),
    ensures
        from <= next_dot(token, from) <= token.len(),
        next_dot(token, from) < token.len() ==> token[next_dot(token, from)] == '.',
        forall|i: int| from <= i < next_dot(token, from) ==> token[i] != '.',
    decreases token.len() - from,
{
    if from < token.len() && token[from] != '.' {
        lemma_dot_at(token, from + 1);
    }
}

/// Splits a compact token into its segments and reads the key identifier out
/// of its header.
///
/// The token is malformed where it is not ASCII text with exactly two dots,
/// where its header does not decode, and where the header names no key.
pub fn parse(raw: &str) -> (token: Result<ParsedToken, Malformed>)
    ensures
        match token {
            Ok(t) => parsed(raw@) == Some(t@),
            Err(_) => parsed(raw@) is None,
        },
{
    if !raw.is_ascii() {
        return Err(Malformed);
    }
    let n = ascii_len(raw);
    let a = dot_position(raw, 0);
    if a >= n {
        return Err(Malformed);
    }
    let b = dot_position(raw, a + 1);
    if b >= n {
        return Err(Malformed);
    }
    let c = dot_position(raw, b + 1);
    if c != n {
        return Err(Malformed);
    }
    match header_kid(raw) {
        Ok(Some(kid)) => Ok(
            ParsedToken {
                kid,
                algorithm: read_algorithm(raw.substring_ascii(0, a)),
                header: raw.substring_ascii(0, a).to_owned(),
                claims: raw.substring_ascii(a + 1, b).to_owned(),
                signature: raw.substring_ascii(b + 1, n).to_owned(),
            },
        ),
        Ok(None) => Err(Malformed),
        Err(_) => Err(Malformed),
    }
}

} // verus!
