//! Parsing of an `application/x-www-form-urlencoded` body: the value of
//! the first field named `input`, still escaped as it stood in the body.

use vstd::prelude::*;
use crate::bytes::{find_from, find_byte, lemma_find_from, copy_range};

verus! {

pub const AMPERSAND: u8 = 38;
pub const EQUALS_SIGN: u8 = 61;

/// The bytes of the field name `input`.
pub open spec fn input_key() -> Seq<u8> {
    seq![105u8, 110u8, 112u8, 117u8, 116u8]
}

/// The raw (still escaped) value of the first `input` field at or after
/// `from`, where fields are separated by `&` and a field's name is what
/// stands before its first `=`. A field without `=` names no value.
pub open spec fn spec_form_value(s: Seq<u8>, from: int) -> Option<Seq<u8>>
    decreases s.len() + 1 - from,
    via spec_form_value_decreases
{
    if from < 0 || from > s.len() {
        None
    } else {
        let amp = find_from(s, from, AMPERSAND);
        let eq = find_from(s, from, EQUALS_SIGN);
        if eq < amp && s.subrange(from, eq) == input_key() {
            Some(s.subrange(eq + 1, amp))
        } else {
            spec_form_value(s, amp + 1)
        }
    }
}

#[via_fn]
proof fn spec_form_value_decreases(s: Seq<u8>, from: int) {
    if 0 <= from <= s.len() {
        lemma_find_from(s, from, AMPERSAND);
    }
}

/// Whether `s[from..eq]` spells `input`.
fn is_input_key(s: &Vec<u8>, from: usize, eq: usize) -> (r: bool)
    requires
        from <= eq <= s@.len(),
    ensures
        r <==> s@.subrange(from as int, eq as int) == input_key(),
{
    let ghost key = s@.subrange(from as int, eq as int);
    proof {
        assert(key.len() == eq - from);
        assert(input_key().len() == 5);
    }
    if eq - from != 5 {
        return false;
    }
    proof {
        assert(key[0] == s@[from as int]);
        assert(key[1] == s@[from as int + 1]);
        assert(key[2] == s@[from as int + 2]);
        assert(key[3] == s@[from as int + 3]);
        assert(key[4] == s@[from as int + 4]);
    }
    let r = s[from] == 105 && s[from + 1] == 110 && s[from + 2] == 112 && s[from + 3] == 117
        && s[from + 4] == 116;
    proof {
        if r {
            assert(key =~= input_key());
        }
    }
    r
}

/// Finds the raw value of the first `input` field of a form body.
pub fn form_value(s: &Vec<u8>) -> (r: Option<Vec<u8>>)
    ensures
        r is Some <==> spec_form_value(s@, 0) is Some,
        r is Some ==> r->0@ == spec_form_value(s@, 0)->0,
{
    let mut from: usize = 0;
    loop
        invariant
            from <= s@.len(),
            spec_form_value(s@, 0) == spec_form_value(s@, from as int),
        decreases s@.len() - from,
    {
        let amp = find_byte(s, from, AMPERSAND);
        let eq = find_byte(s, from, EQUALS_SIGN);
        proof {
            lemma_find_from(s@, from as int, AMPERSAND);
            lemma_find_from(s@, from as int, EQUALS_SIGN);
        }
        if eq < amp && is_input_key(s, from, eq) {
            return Some(copy_range(s, eq + 1, amp));
        }
        if amp >= s.len() {
            proof {
                assert(spec_form_value(s@, from as int) == spec_form_value(s@, amp as int + 1));
                assert(spec_form_value(s@, amp as int + 1) is None);
            }
            return None;
        }
        from = amp + 1;
    }
}

} // verus!
