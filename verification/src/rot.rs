//! The rotation transformer: classification of ASCII letters, the per-character
//! ROT-N mapping, and the whole-document transform.

use vstd::arithmetic::div_mod::{
    lemma_add_mod_noop, lemma_add_mod_noop_right, lemma_mod_add_multiples_vanish,
    lemma_mod_sub_multiples_vanish, lemma_small_mod,
};
use vstd::prelude::*;

use crate::strings::push_char;

verus! {

/// True of the lowercase ASCII letters `'a'` through `'z'`.
pub open spec fn is_lower_letter(c: char) -> bool {
    'a' as int <= c as int <= 'z' as int
}

/// True of the uppercase ASCII letters `'A'` through `'Z'`.
pub open spec fn is_upper_letter(c: char) -> bool {
    'A' as int <= c as int <= 'Z' as int
}

/// The 1-based position of an ASCII letter in its alphabet (`a` and `A` are 1,
/// `z` and `Z` are 26); 0 for every other character.
pub open spec fn letter_pos(c: char) -> int {
    if is_lower_letter(c) {
        c as int - 'a' as int + 1
    } else if is_upper_letter(c) {
        c as int - 'A' as int + 1
    } else {
        0
    }
}

/// Converts a letter to its 1-based alphabet position together with its case:
/// `(position, true)` for an uppercase letter, `(position, false)` for a
/// lowercase one, and `(0, false)` for any character outside the ASCII
/// alphabet.
pub fn convert_to_int(c: char) -> (r: (i32, bool))
    ensures
        r.0 == letter_pos(c),
        r.1 == is_upper_letter(c),
{
    let u: u32 = c as u32;
    if 97 <= u && u <= 122 {
        ((u - 96) as i32, false)
    } else if 65 <= u && u <= 90 {
        ((u - 64) as i32, true)
    } else {
        (0, false)
    }
}

/// The letter at a 1-based alphabet position, in the requested case; the space
/// character for a position outside `[1, 26]`.
pub open spec fn letter_of_pos(p: int, upper: bool) -> char {
    if 1 <= p <= 26 {
        if upper {
            ('A' as int + p - 1) as char
        } else {
            ('a' as int + p - 1) as char
        }
    } else {
        ' '
    }
}

/// Converts a 1-based alphabet position back to a letter, uppercase when
/// `upper` is true and lowercase otherwise; a position outside `[1, 26]` gives
/// the space character.
pub fn convert_to_char(char_n: i32, upper: bool) -> (r: char)
    ensures
        r == letter_of_pos(char_n as int, upper),
{
    if char_n < 1 || char_n > 26 {
        ' '
    } else if upper {
        (64 + char_n as u8) as char
    } else {
        (96 + char_n as u8) as char
    }
}

/// The ROT-N mapping on a single character: an ASCII letter moves `n` places
/// along its alphabet, wrapping around and keeping its case; every other
/// character is a fixed point.
pub open spec fn rotate_spec(c: char, n: int) -> char {
    if is_lower_letter(c) {
        ('a' as int + (c as int - 'a' as int + n) % 26) as char
    } else if is_upper_letter(c) {
        ('A' as int + (c as int - 'A' as int + n) % 26) as char
    } else {
        c
    }
}

/// Rotates one character by `n` places: letters wrap around within their
/// case-preserving alphabet, everything else is returned unchanged. Any `n`
/// is accepted, negative or far beyond 26.
pub fn do_the_rot(c: char, n: i32) -> (r: char)
    ensures
        r == rotate_spec(c, n as int),
{
    let converted = convert_to_int(c);
    let char_n = converted.0;
    let upper = converted.1;
    if char_n == 0 {
        c
    } else {
        let k: i32 = n.checked_rem_euclid(26).unwrap();
        let p2: i32 = (char_n - 1 + k) % 26 + 1;
        proof {
            let o = char_n - 1;
            lemma_small_mod(o as nat, 26);
            lemma_add_mod_noop(o as int, n as int, 26);
        }
        convert_to_char(p2, upper)
    }
}

/// Law: round-trip invertibility. Rotating an ASCII letter by `n` and then by
/// `-n` gives the original letter back.
pub proof fn lemma_rotate_round_trip(c: char, n: int)
    requires
        is_lower_letter(c) || is_upper_letter(c),
    ensures
        rotate_spec(rotate_spec(c, n), -n) == c,
{
    let base = if is_lower_letter(c) {
        'a' as int
    } else {
        'A' as int
    };
    let o = c as int - base;
    let a = o + n;
    lemma_small_mod(o as nat, 26);
    lemma_add_mod_noop(a, -n, 26);
    lemma_add_mod_noop_right(a % 26, -n, 26);
    assert((base + a % 26) as char as int == base + a % 26);
    assert(((a % 26) + -n) % 26 == o);
}

/// Law: periodicity. A shift of `n` rotates exactly as a shift of `n + 26` and
/// as a shift of `n - 26` do.
pub proof fn lemma_rotate_periodic(c: char, n: int)
    ensures
        rotate_spec(c, n) == rotate_spec(c, n + 26),
        rotate_spec(c, n) == rotate_spec(c, n - 26),
{
    if is_lower_letter(c) || is_upper_letter(c) {
        let base = if is_lower_letter(c) {
            'a' as int
        } else {
            'A' as int
        };
        let a = c as int - base + n;
        lemma_mod_add_multiples_vanish(a, 26);
        lemma_mod_sub_multiples_vanish(a, 26);
    }
}

/// Law: fixed points. A character outside the ASCII alphabet is returned
/// unchanged by every rotation.
pub proof fn lemma_rotate_fixed_point(c: char, n: int)
    requires
        !is_lower_letter(c),
        !is_upper_letter(c),
    ensures
        rotate_spec(c, n) == c,
{
}

/// Law: case preservation. The rotation of `c` is an uppercase letter if and
/// only if `c` is one, and a lowercase letter if and only if `c` is one.
pub proof fn lemma_rotate_preserves_case(c: char, n: int)
    ensures
        is_upper_letter(rotate_spec(c, n)) <==> is_upper_letter(c),
        is_lower_letter(rotate_spec(c, n)) <==> is_lower_letter(c),
{
    if is_lower_letter(c) || is_upper_letter(c) {
        let base = if is_lower_letter(c) {
            'a' as int
        } else {
            'A' as int
        };
        let a = c as int - base + n;
        assert((base + a % 26) as char as int == base + a % 26);
    }
}

/// The ROT-N mapping applied to every character of a sequence, in order.
pub open spec fn transform_spec(s: Seq<char>, n: int) -> Seq<char> {
    s.map_values(|c: char| rotate_spec(c, n))
}

/// Applies the ROT-N mapping to every character of `text` in order, preserving
/// length and the position of every character.
pub fn transform(text: &str, n: i32) -> (out: String)
    ensures
        out@ == transform_spec(text@, n as int),
{
    let len: usize = text.unicode_len();
    let mut out = String::new();
    let mut i: usize = 0;
    while i < len
        invariant
            len == text@.len(),
            i <= len,
            out@.len() == i,
            forall|j: int| 0 <= j < i ==> out@[j] == rotate_spec(text@[j], n as int),
        decreases len - i,
    {
        let c = text.get_char(i);
        push_char(&mut out, do_the_rot(c, n));
        i = i + 1;
    }
    assert(out@ =~= transform_spec(text@, n as int));
    out
}

} // verus!
