//! Base64 handling for output normalization: cleaning an inline payload (a
//! possible data-URL prefix and embedded whitespace are stripped) and
//! decoding it through the base64 crate.

use vstd::prelude::*;
use base64::Engine;
use crate::error::GenError;
use crate::strutil::find_char;
use crate::utils::{has_char, spec_index_of};

verus! {

/// What the base64 crate's standard-alphabet engine decodes a string to,
/// when it decodes at all: a function of the characters alone.
pub uninterp spec fn base64_decoded(s: Seq<char>) -> Option<Seq<u8>>;

/// Relies on base64's `STANDARD` engine `decode`: the outcome depends on
/// the input characters alone.
#[verifier::external_body]
fn base64_decode(s: &str) -> (r: Option<Vec<u8>>)
    ensures
        match r {
            Some(v) => base64_decoded(s@) == Some(v@),
            None => base64_decoded(s@) is None,
        },
{
    match base64::engine::general_purpose::STANDARD.decode(s) {
        Ok(v) => Some(v),
        Err(_) => None,
    }
}

/// Whether a character counts as whitespace, as `char::is_whitespace` (a
/// property of the Unicode tables) reports it.
pub uninterp spec fn spec_is_whitespace(c: char) -> bool;

/// Relies on `char::is_whitespace` of std: a pure character property.
pub assume_specification[ char::is_whitespace ](c: char) -> (r: bool)
    ensures
        r == spec_is_whitespace(c),
;

/// Relies on `String::push` of std: appends the character to the string.
pub assume_specification[ String::push ](s: &mut String, c: char)
    ensures
        final(s)@ == old(s)@.push(c),
;

/// `s` with every whitespace character removed.
pub open spec fn spec_strip_ws(s: Seq<char>) -> Seq<char>
    decreases s.len(),
{
    if s.len() == 0 {
        Seq::empty()
    } else if spec_is_whitespace(s.last()) {
        spec_strip_ws(s.drop_last())
    } else {
        spec_strip_ws(s.drop_last()).push(s.last())
    }
}

/// The payload part of an inline base64 value: everything after the first
/// comma when a data-URL prefix is there, the whole value otherwise.
pub open spec fn spec_after_prefix(s: Seq<char>) -> Seq<char> {
    if has_char(s, ',') {
        s.subrange(spec_index_of(s, ',') + 1, s.len() as int)
    } else {
        s
    }
}

/// Cleans an inline base64 payload: strips a data-URL prefix, when one is
/// there, and every embedded whitespace character.
#[verifier::loop_isolation(false)]
pub fn cleaned_base64(data: &str) -> (r: String)
    ensures
        r@ == spec_strip_ws(spec_after_prefix(data@)),
{
    let len = data.unicode_len();
    let start: usize = match find_char(data, ',') {
        Some(i) => {
            proof {
                crate::utils::lemma_index_of_found(data@, ',', i as int);
            }
            i + 1
        },
        None => {
            proof {
                crate::utils::lemma_index_of_absent(data@, ',');
            }
            0
        },
    };
    let mut out = String::new();
    let mut i: usize = start;
    proof {
        assert(data@.subrange(start as int, start as int) =~= Seq::<char>::empty());
    }
    while i < len
        invariant
            start <= i <= len,
            out@ == spec_strip_ws(data@.subrange(start as int, i as int)),
        decreases len - i,
    {
        proof {
            let pre = data@.subrange(start as int, i + 1);
            assert(pre.drop_last() =~= data@.subrange(start as int, i as int));
            assert(pre.last() == data@[i as int]);
        }
        let c = data.get_char(i);
        if !c.is_whitespace() {
            out.push(c);
        }
        i += 1;
    }
    proof {
        assert(data@.subrange(start as int, len as int) =~= spec_after_prefix(data@));
    }
    out
}

/// Cleans and decodes an inline base64 payload; a payload the engine cannot
/// decode is a decode error naming the stage.
pub fn decode_base64_payload(data: &str) -> (r: Result<Vec<u8>, GenError>)
    ensures
        match r {
            Ok(v) => base64_decoded(spec_strip_ws(spec_after_prefix(data@))) == Some(v@),
            Err(e) => base64_decoded(spec_strip_ws(spec_after_prefix(data@))) is None && (
            e matches GenError::Decode { detail } && detail@ == "invalid base64 payload"@),
        },
{
    let cleaned = cleaned_base64(data);
    match base64_decode(cleaned.as_str()) {
        Some(v) => Ok(v),
        None => Err(GenError::Decode { detail: String::from_str("invalid base64 payload") }),
    }
}

} // verus!
