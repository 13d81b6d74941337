use fizzbuzz_rot13::cipher::{rotate, transform, MODULUS, ROT};

#[test]
fn transform_of_empty_text_is_empty() {
    assert_eq!(transform(""), "");
}

#[test]
fn transform_hello_world() {
    assert_eq!(transform("Hello, World!"), "Urbbe, Mehbq!");
}

#[test]
fn transform_is_not_the_classical_rotation() {
    assert_ne!(transform("Hello, World!"), "Uryyb, Jbeyq!");
}

#[test]
fn constants_are_thirteen_and_twenty_three() {
    assert_eq!(ROT, 13);
    assert_eq!(MODULUS, 23);
}

#[test]
fn lower_case_alphabet() {
    assert_eq!(transform("abcdefghijklmnopqrstuvwxyz"), "nopqrstuvwabcdefghijklmnop");
}

#[test]
fn upper_case_alphabet() {
    assert_eq!(transform("ABCDEFGHIJKLMNOPQRSTUVWXYZ"), "NOPQRSTUVWABCDEFGHIJKLMNOP");
}

#[test]
fn single_letters_follow_the_formula() {
    assert_eq!(rotate('a'), 'n');
    assert_eq!(rotate('j'), 'w');
    assert_eq!(rotate('k'), 'a');
    assert_eq!(rotate('w'), 'm');
    assert_eq!(rotate('x'), 'n');
    assert_eq!(rotate('z'), 'p');
    assert_eq!(rotate('A'), 'N');
    assert_eq!(rotate('J'), 'W');
    assert_eq!(rotate('K'), 'A');
    assert_eq!(rotate('Z'), 'P');
}

#[test]
fn every_letter_follows_the_formula() {
    for offset in 0u8..26 {
        let lower = (b'a' + offset) as char;
        let upper = (b'A' + offset) as char;
        assert_eq!(rotate(lower), (b'a' + (offset + 13) % 23) as char);
        assert_eq!(rotate(upper), (b'A' + (offset + 13) % 23) as char);
    }
}

#[test]
fn letters_keep_their_case() {
    for offset in 0u8..26 {
        assert!(rotate((b'a' + offset) as char).is_ascii_lowercase());
        assert!(rotate((b'A' + offset) as char).is_ascii_uppercase());
    }
}

#[test]
fn neighbours_of_the_letter_ranges_pass_through() {
    for c in ['`', '{', '@', '[', '\0', '\u{7f}'] {
        assert_eq!(rotate(c), c);
    }
}

#[test]
fn digits_punctuation_and_whitespace_pass_through() {
    let text = "0123456789 \t\r\n.,;:!?-_()[]{}<>/\\|'\"#$%&*+=~^@`";
    assert_eq!(transform(text), text);
}

#[test]
fn non_ascii_characters_pass_through() {
    let text = "\u{e9}\u{df}\u{5b57}\u{1f600}\u{430}\u{3b1}";
    assert_eq!(transform(text), text);
    assert_eq!(rotate('\u{e9}'), '\u{e9}');
    assert_eq!(rotate('\u{10ffff}'), '\u{10ffff}');
    assert_eq!(rotate('\u{ff41}'), '\u{ff41}');
}

#[test]
fn every_non_letter_maps_to_itself() {
    for code in 0u32..0x3000 {
        if let Some(c) = char::from_u32(code) {
            if !c.is_ascii_alphabetic() {
                assert_eq!(rotate(c), c);
            }
        }
    }
}

#[test]
fn length_in_characters_is_kept() {
    let texts = [
        "",
        "a",
        "Hello, World!",
        "na\u{ef}ve caf\u{e9} \u{5b57}\u{1f600}",
        "line one\nline two\n",
        "xyzXYZ",
    ];
    for text in texts {
        let out = transform(text);
        assert_eq!(out.chars().count(), text.chars().count());
    }
}

#[test]
fn non_letters_stay_at_their_places() {
    let text = "a1b2-C3 \u{e9}z!\n";
    let out = transform(text);
    let got: Vec<char> = out.chars().collect();
    let src: Vec<char> = text.chars().collect();
    assert_eq!(got.len(), src.len());
    for i in 0..src.len() {
        if src[i].is_ascii_alphabetic() {
            assert_eq!(got[i], rotate(src[i]));
        } else {
            assert_eq!(got[i], src[i]);
        }
    }
    assert_eq!(out, "n1o2-P3 \u{e9}p!\n");
}

#[test]
fn each_character_is_transformed_on_its_own() {
    assert_eq!(transform("aaa"), "nnn");
    assert_eq!(transform("kak"), "ana");
    let whole = transform("Mixed Text 42");
    let mut parts = transform("Mixed ");
    parts.push_str(&transform("Text "));
    parts.push_str(&transform("42"));
    assert_eq!(whole, parts);
}

#[test]
fn no_newline_is_added() {
    assert_eq!(transform("abc"), "nop");
    assert_eq!(transform("abc\n"), "nop\n");
}

#[test]
fn transform_is_not_its_own_inverse() {
    assert_eq!(transform(&transform("x")), "d");
    assert_eq!(transform("a"), transform("x"));
}
