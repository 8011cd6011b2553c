//! Classification of a request's declared content type into the small
//! closed set the service recognises: form, plain text, or anything else.
//!
//! The media type is the part of the header value before any `;`-separated
//! parameters, compared ASCII-case-insensitively.

use vstd::prelude::*;
use crate::bytes::{find_from, find_byte, lemma_find_from, lower, lower_byte};

verus! {

pub const SEMICOLON: u8 = 59;

#[derive(Clone, Copy, PartialEq, Eq, Structural, Debug)]
pub enum ContentTypeClass {
    Form,
    Plain,
    Other,
}

/// The bytes of `application/x-www-form-urlencoded`.
pub open spec fn form_media_type() -> Seq<u8> {
    seq![97u8, 112u8, 112u8, 108u8, 105u8, 99u8, 97u8, 116u8, 105u8, 111u8, 110u8, 47u8, 120u8, 45u8, 119u8, 119u8, 119u8, 45u8, 102u8, 111u8, 114u8, 109u8, 45u8, 117u8, 114u8, 108u8, 101u8, 110u8, 99u8, 111u8, 100u8, 101u8, 100u8]
}

/// The bytes of `text/plain`.
pub open spec fn plain_media_type() -> Seq<u8> {
    seq![116u8, 101u8, 120u8, 116u8, 47u8, 112u8, 108u8, 97u8, 105u8, 110u8]
}

/// The media type a header value declares: everything before the first
/// `;`, lower-cased.
pub open spec fn spec_media_type(s: Seq<u8>) -> Seq<u8> {
    s.subrange(0, find_from(s, 0, SEMICOLON)).map_values(|b: u8| lower(b))
}

pub open spec fn spec_classify(s: Seq<u8>) -> ContentTypeClass {
    if spec_media_type(s) == form_media_type() {
        ContentTypeClass::Form
    } else if spec_media_type(s) == plain_media_type() {
        ContentTypeClass::Plain
    } else {
        ContentTypeClass::Other
    }
}

/// Whether the first `end` bytes of `s`, lower-cased, spell `pat`.
fn eq_lowered(s: &Vec<u8>, end: usize, pat: &Vec<u8>) -> (r: bool)
    requires
        end <= s@.len(),
    ensures
        r <==> s@.subrange(0, end as int).map_values(|b: u8| lower(b)) == pat@,
{
    let ghost mapped = s@.subrange(0, end as int).map_values(|b: u8| lower(b));
    if end != pat.len() {
        proof {
            assert(mapped.len() == end);
        }
        return false;
    }
    let mut i: usize = 0;
    while i < end
        invariant
            i <= end <= s@.len(),
            end == pat@.len(),
            mapped == s@.subrange(0, end as int).map_values(|b: u8| lower(b)),
            forall|j: int| 0 <= j < i ==> mapped[j] == pat@[j],
        decreases end - i,
    {
        if lower_byte(s[i]) != pat[i] {
            proof {
                assert(mapped[i as int] == lower(s@[i as int]));
            }
            return false;
        }
        i = i + 1;
    }
    proof {
        assert(mapped =~= pat@);
    }
    true
}

/// Classifies a declared content type.
pub fn classify(s: &Vec<u8>) -> (r: ContentTypeClass)
    ensures
        r == spec_classify(s@),
{
    let end = find_byte(s, 0, SEMICOLON);
    proof {
        lemma_find_from(s@, 0, SEMICOLON);
    }
    let form: Vec<u8> = vec![97u8, 112u8, 112u8, 108u8, 105u8, 99u8, 97u8, 116u8, 105u8, 111u8, 110u8, 47u8, 120u8, 45u8, 119u8, 119u8, 119u8, 45u8, 102u8, 111u8, 114u8, 109u8, 45u8, 117u8, 114u8, 108u8, 101u8, 110u8, 99u8, 111u8, 100u8, 101u8, 100u8];
    proof {
        assert(form@ =~= form_media_type());
    }
    if eq_lowered(s, end, &form) {
        return ContentTypeClass::Form;
    }
    let plain: Vec<u8> = vec![116u8, 101u8, 120u8, 116u8, 47u8, 112u8, 108u8, 97u8, 105u8, 110u8];
    proof {
        assert(plain@ =~= plain_media_type());
    }
    if eq_lowered(s, end, &plain) {
        return ContentTypeClass::Plain;
    }
    ContentTypeClass::Other
}

} // verus!
