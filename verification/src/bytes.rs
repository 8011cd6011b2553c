//! Byte-level helpers shared by the request parser: searching, ASCII
//! case folding, and the percent-decoding used for form field values.

use vstd::prelude::*;

verus! {

/// ASCII code points this module matches on.
pub const PERCENT: u8 = 37;
pub const PLUS: u8 = 43;
pub const SPACE: u8 = 32;
pub const DIGIT_0: u8 = 48;
pub const DIGIT_9: u8 = 57;
pub const UPPER_A: u8 = 65;
pub const UPPER_F: u8 = 70;
pub const UPPER_Z: u8 = 90;
pub const LOWER_A: u8 = 97;
pub const LOWER_F: u8 = 102;

/// Index of the first occurrence of `b` in `s` at or after `from`,
/// or `s.len()` when there is none.
pub open spec fn find_from(s: Seq<u8>, from: int, b: u8) -> int
    decreases s.len() - from,
{
    if from < 0 || from >= s.len() {
        s.len() as int
    } else if s[from] == b {
        from
    } else {
        find_from(s, from + 1, b)
    }
}

pub proof fn lemma_find_from(s: Seq<u8>, from: int, b: u8)
    requires
        0 <= from <= s.len(),
    ensures
        from <= find_from(s, from, b) <= s.len(),
        find_from(s, from, b) < s.len() ==> s[find_from(s, from, b)] == b,
        forall|j: int| from <= j < find_from(s, from, b) ==> s[j] != b,
    decreases s.len() - from,
{
    if from < s.len() && s[from] != b {
        lemma_find_from(s, from + 1, b);
    }
}

/// Executable search matching `find_from`.
pub fn find_byte(s: &Vec<u8>, from: usize, b: u8) -> (r: usize)
    requires
        from <= s@.len(),
    ensures
        r == find_from(s@, from as int, b),
{
    let mut i: usize = from;
    while i < s.len()
        invariant
            from <= i <= s@.len(),
            find_from(s@, from as int, b) == find_from(s@, i as int, b),
        decreases s@.len() - i,
    {
        if s[i] == b {
            return i;
        }
        i = i + 1;
    }
    i
}

/// ASCII lower-casing of one byte.
pub open spec fn lower(b: u8) -> u8 {
    if UPPER_A <= b && b <= UPPER_Z {
        (b + 32) as u8
    } else {
        b
    }
}

pub fn lower_byte(b: u8) -> (r: u8)
    ensures
        r == lower(b),
{
    if UPPER_A <= b && b <= UPPER_Z {
        b + 32
    } else {
        b
    }
}

pub open spec fn is_hex_digit(b: u8) -> bool {
    (DIGIT_0 <= b && b <= DIGIT_9) || (LOWER_A <= b && b <= LOWER_F) || (UPPER_A <= b && b <= UPPER_F)
}

/// Numeric value of a hexadecimal digit.
pub open spec fn hex_val(b: u8) -> u8 {
    if DIGIT_0 <= b && b <= DIGIT_9 {
        (b - DIGIT_0) as u8
    } else if LOWER_A <= b && b <= LOWER_F {
        (b - LOWER_A + 10) as u8
    } else {
        (b - UPPER_A + 10) as u8
    }
}

pub fn is_hex(b: u8) -> (r: bool)
    ensures
        r == is_hex_digit(b),
{
    (DIGIT_0 <= b && b <= DIGIT_9) || (LOWER_A <= b && b <= LOWER_F) || (UPPER_A <= b && b <= UPPER_F)
}

pub fn hex_value(b: u8) -> (r: u8)
    requires
        is_hex_digit(b),
    ensures
        r == hex_val(b),
{
    if DIGIT_0 <= b && b <= DIGIT_9 {
        b - DIGIT_0
    } else if LOWER_A <= b && b <= LOWER_F {
        b - LOWER_A + 10
    } else {
        b - UPPER_A + 10
    }
}

/// Decoding of a form field value: `+` becomes a space, `%XY` with two
/// hexadecimal digits becomes the byte it spells, and everything else
/// (including a `%` not followed by two hexadecimal digits) passes through.
pub open spec fn spec_unescape(s: Seq<u8>) -> Seq<u8>
    decreases s.len(),
{
    if s.len() == 0 {
        Seq::empty()
    } else if s[0] == PERCENT && s.len() >= 3 && is_hex_digit(s[1]) && is_hex_digit(s[2]) {
        seq![(hex_val(s[1]) * 16 + hex_val(s[2])) as u8] + spec_unescape(s.skip(3))
    } else if s[0] == PLUS {
        seq![SPACE] + spec_unescape(s.skip(1))
    } else {
        seq![s[0]] + spec_unescape(s.skip(1))
    }
}

pub fn unescape(s: &Vec<u8>) -> (r: Vec<u8>)
    ensures
        r@ == spec_unescape(s@),
{
    let mut out: Vec<u8> = Vec::new();
    let mut i: usize = 0;
    proof {
        assert(s@.skip(0) =~= s@);
        assert(out@ + spec_unescape(s@) =~= spec_unescape(s@));
    }
    while i < s.len()
        invariant
            i <= s@.len(),
            out@ + spec_unescape(s@.skip(i as int)) == spec_unescape(s@),
        decreases s@.len() - i,
    {
        let b = s[i];
        if b == PERCENT && s.len() - i >= 3 && is_hex(s[i + 1]) && is_hex(s[i + 2]) {
            let v = hex_value(s[i + 1]) * 16 + hex_value(s[i + 2]);
            proof {
                assert(s@.skip(i as int).skip(3) =~= s@.skip(i as int + 3));
                assert(out@ + seq![v] + spec_unescape(s@.skip(i as int + 3))
                    =~= out@ + spec_unescape(s@.skip(i as int)));
            }
            out.push(v);
            i = i + 3;
        } else if b == PLUS {
            proof {
                assert(s@.skip(i as int).skip(1) =~= s@.skip(i as int + 1));
                assert(out@ + seq![SPACE] + spec_unescape(s@.skip(i as int + 1))
                    =~= out@ + spec_unescape(s@.skip(i as int)));
            }
            out.push(SPACE);
            i = i + 1;
        } else {
            proof {
                assert(s@.skip(i as int).skip(1) =~= s@.skip(i as int + 1));
                assert(out@ + seq![b] + spec_unescape(s@.skip(i as int + 1))
                    =~= out@ + spec_unescape(s@.skip(i as int)));
            }
            out.push(b);
            i = i + 1;
        }
    }
    proof {
        assert(s@.skip(i as int) =~= Seq::empty());
        assert(out@ + Seq::<u8>::empty() =~= out@);
    }
    out
}


/// Copies `s[from..to]` into a fresh vector.
pub fn copy_range(s: &Vec<u8>, from: usize, to: usize) -> (r: Vec<u8>)
    requires
        from <= to <= s@.len(),
    ensures
        r@ == s@.subrange(from as int, to as int),
{
    let mut out: Vec<u8> = Vec::new();
    let mut k: usize = 0;
    while k < to - from
        invariant
            from <= to <= s@.len(),
            k <= to - from,
            out@ =~= s@.subrange(from as int, from as int + k),
        decreases to - from - k,
    {
        out.push(s[from + k]);
        k = k + 1;
    }
    proof {
        assert(out@ =~= s@.subrange(from as int, to as int));
    }
    out
}


/// Byte-wise equality of two vectors.
pub fn bytes_equal(a: &Vec<u8>, b: &Vec<u8>) -> (r: bool)
    ensures
        r <==> a@ == b@,
{
    if a.len() != b.len() {
        return false;
    }
    let mut i: usize = 0;
    while i < a.len()
        invariant
            i <= a@.len(),
            a@.len() == b@.len(),
            forall|j: int| 0 <= j < i ==> a@[j] == b@[j],
        decreases a@.len() - i,
    {
        if a[i] != b[i] {
            return false;
        }
        i = i + 1;
    }
    proof {
        assert(a@ =~= b@);
    }
    true
}

/// The characters that lossy UTF-8 decoding yields for a byte sequence.
pub uninterp spec fn lossy_utf8(bytes: Seq<u8>) -> Seq<char>;

/// Relies on `String::from_utf8_lossy`: decodes the bytes as UTF-8,
/// replacing invalid sequences with U+FFFD; the result depends on the
/// bytes alone, and no bytes decode to no characters.
#[verifier::external_body]
pub fn utf8_lossy(v: &Vec<u8>) -> (r: String)
    ensures
        r@ == lossy_utf8(v@),
        v@.len() == 0 ==> r@.len() == 0,
{
    String::from_utf8_lossy(v.as_slice()).into_owned()
}

} // verus!
