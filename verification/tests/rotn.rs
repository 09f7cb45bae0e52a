use rotn::naming::{i32_to_string, output_filename};
use rotn::rot::{convert_to_char, convert_to_int, do_the_rot, transform};

#[test]
fn rot13_hello_world() {
    assert_eq!(transform("Hello, World!", 13), "Uryyb, Jbeyq!");
}

#[test]
fn rot1_abc() {
    assert_eq!(transform("abc", 1), "bcd");
}

#[test]
fn rot3_wraparound() {
    assert_eq!(transform("xyz", 3), "abc");
}

#[test]
fn negative_shift_wraparound() {
    assert_eq!(transform("ABC", -1), "ZAB");
}

#[test]
fn empty_input_stays_empty() {
    assert_eq!(transform("", 13), "");
    assert_eq!(transform("", 0), "");
}

#[test]
fn output_filename_convention() {
    assert_eq!(output_filename("notes.txt", 7), "notes.txt.rot7");
}

#[test]
fn output_filename_negative_shift() {
    assert_eq!(output_filename("text.txt", -5), "text.txt.rot-5");
}

#[test]
fn output_filename_rot13() {
    assert_eq!(output_filename("text.txt", 13), "text.txt.rot13");
}

#[test]
fn non_letters_are_fixed_points() {
    for c in ['0', '9', ' ', ',', '!', '\n', '\t', '@', '[', '`', '{', 'é', '日'] {
        for n in [-1000, -27, -1, 0, 1, 13, 26, 1000] {
            assert_eq!(do_the_rot(c, n), c);
        }
    }
}

#[test]
fn rotation_by_zero_is_identity() {
    for c in ['a', 'm', 'z', 'A', 'M', 'Z'] {
        assert_eq!(do_the_rot(c, 0), c);
    }
}

#[test]
fn rotation_is_periodic() {
    for c in ['a', 'q', 'z', 'A', 'Q', 'Z', '5', '-'] {
        for n in [-30, -3, 0, 4, 25, 99] {
            let r = do_the_rot(c, n);
            assert_eq!(do_the_rot(c, n + 26), r);
            assert_eq!(do_the_rot(c, n - 26), r);
            assert_eq!(do_the_rot(c, n + 52), r);
        }
    }
}

#[test]
fn rotation_round_trips() {
    for c in ['a', 'k', 'z', 'A', 'K', 'Z'] {
        for n in [-1000, -26, -1, 0, 1, 13, 27, 12345] {
            assert_eq!(do_the_rot(do_the_rot(c, n), -n), c);
        }
    }
}

#[test]
fn rotation_preserves_case() {
    for c in ['a', 'n', 'z', 'A', 'N', 'Z'] {
        for n in [-27, -1, 0, 3, 13, 26, 700] {
            let r = do_the_rot(c, n);
            assert_eq!(r.is_ascii_uppercase(), c.is_ascii_uppercase());
            assert_eq!(r.is_ascii_lowercase(), c.is_ascii_lowercase());
        }
    }
}

#[test]
fn single_letter_shifts() {
    assert_eq!(do_the_rot('a', 13), 'n');
    assert_eq!(do_the_rot('A', 13), 'N');
    assert_eq!(do_the_rot('n', 13), 'a');
    assert_eq!(do_the_rot('z', 1), 'a');
    assert_eq!(do_the_rot('A', -1), 'Z');
    assert_eq!(do_the_rot('a', 1000), 'm');
    assert_eq!(do_the_rot('m', i32::MAX), do_the_rot('m', i32::MAX % 26));
    assert_eq!(do_the_rot('m', i32::MIN), do_the_rot('m', i32::MIN % 26 + 26));
}

#[test]
fn convert_to_int_positions() {
    assert_eq!(convert_to_int('a'), (1, false));
    assert_eq!(convert_to_int('z'), (26, false));
    assert_eq!(convert_to_int('A'), (1, true));
    assert_eq!(convert_to_int('Z'), (26, true));
    assert_eq!(convert_to_int('m'), (13, false));
    assert_eq!(convert_to_int('?'), (0, false));
    assert_eq!(convert_to_int('7'), (0, false));
    assert_eq!(convert_to_int(' '), (0, false));
}

#[test]
fn convert_to_char_letters() {
    assert_eq!(convert_to_char(1, false), 'a');
    assert_eq!(convert_to_char(26, false), 'z');
    assert_eq!(convert_to_char(1, true), 'A');
    assert_eq!(convert_to_char(26, true), 'Z');
    assert_eq!(convert_to_char(14, true), 'N');
    assert_eq!(convert_to_char(0, false), ' ');
    assert_eq!(convert_to_char(27, true), ' ');
    assert_eq!(convert_to_char(-3, false), ' ');
}

#[test]
fn shift_amount_rendering() {
    assert_eq!(i32_to_string(0), "0");
    assert_eq!(i32_to_string(13), "13");
    assert_eq!(i32_to_string(-5), "-5");
    assert_eq!(i32_to_string(100), "100");
    assert_eq!(i32_to_string(i32::MAX), "2147483647");
    assert_eq!(i32_to_string(i32::MIN), "-2147483648");
}

#[test]
fn transform_whole_document() {
    let text = "The quick brown fox\njumps over the lazy dog. 42!";
    let rot13 = transform(text, 13);
    assert_eq!(rot13, "Gur dhvpx oebja sbk\nwhzcf bire gur ynml qbt. 42!");
    assert_eq!(transform(&rot13, 13), text);
}

#[test]
fn transform_keeps_non_ascii_text() {
    assert_eq!(transform("naïve café", 13), "anïir pnsé");
}
