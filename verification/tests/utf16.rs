use libc_system::utf16::{
    encode_utf16, HIGH_SURROGATE_START, LOW_SURROGATE_START, SUPPLEMENTARY_START, SURROGATE_END,
    SURROGATE_SPAN,
};

fn std_units(text: &str) -> Vec<u16> {
    text.encode_utf16().collect()
}

#[test]
fn constants_have_the_unicode_values() {
    assert_eq!(SUPPLEMENTARY_START, 0x10000);
    assert_eq!(HIGH_SURROGATE_START, 0xD800);
    assert_eq!(LOW_SURROGATE_START, 0xDC00);
    assert_eq!(SURROGATE_END, 0xDFFF);
    assert_eq!(SURROGATE_SPAN, 1024);
}

#[test]
fn empty_text_has_no_units() {
    assert_eq!(encode_utf16(""), Vec::<u16>::new());
}

#[test]
fn ascii_text_is_one_unit_per_character() {
    assert_eq!(
        encode_utf16("echo test"),
        vec![0x65, 0x63, 0x68, 0x6F, 0x20, 0x74, 0x65, 0x73, 0x74]
    );
}

#[test]
fn accented_characters_are_single_units() {
    assert_eq!(encode_utf16("\u{e9}"), vec![0x00E9]);
    assert_eq!(encode_utf16("na\u{ef}ve"), vec![0x6E, 0x61, 0xEF, 0x76, 0x65]);
    assert_eq!(encode_utf16("\u{100}"), vec![0x0100]);
}

#[test]
fn nul_character_is_a_zero_unit() {
    assert_eq!(encode_utf16("a\0b"), vec![0x61, 0x00, 0x62]);
}

#[test]
fn last_characters_before_and_after_the_surrogates() {
    assert_eq!(encode_utf16("\u{d7ff}"), vec![0xD7FF]);
    assert_eq!(encode_utf16("\u{e000}"), vec![0xE000]);
    assert_eq!(encode_utf16("\u{ffff}"), vec![0xFFFF]);
}

#[test]
fn supplementary_characters_are_surrogate_pairs() {
    assert_eq!(encode_utf16("\u{10000}"), vec![0xD800, 0xDC00]);
    assert_eq!(encode_utf16("\u{103ff}"), vec![0xD800, 0xDFFF]);
    assert_eq!(encode_utf16("\u{10400}"), vec![0xD801, 0xDC00]);
    assert_eq!(encode_utf16("\u{1f600}"), vec![0xD83D, 0xDE00]);
    assert_eq!(encode_utf16("\u{10ffff}"), vec![0xDBFF, 0xDFFF]);
}

#[test]
fn mixed_text_keeps_the_order_of_its_characters() {
    assert_eq!(
        encode_utf16("a\u{e9}\u{1f600}z"),
        vec![0x61, 0xE9, 0xD83D, 0xDE00, 0x7A]
    );
}

#[test]
fn units_agree_with_the_standard_library() {
    let texts = [
        "",
        "echo test",
        "exit 7",
        "touch na\u{ef}ve_r\u{e9}sum\u{e9}.txt",
        "\u{4f60}\u{597d}",
        "\u{1f600}\u{1f680}",
        "\u{d7ff}\u{e000}\u{ffff}\u{10000}\u{10ffff}",
        "a\0b",
    ];
    for text in texts {
        assert_eq!(encode_utf16(text), std_units(text));
    }
}

#[test]
fn every_character_agrees_with_the_standard_library() {
    let mut code: u32 = 0;
    while code <= 0x10FFFF {
        if let Some(c) = char::from_u32(code) {
            let text = c.to_string();
            assert_eq!(encode_utf16(&text), std_units(&text));
        }
        code += 0x101;
    }
}

#[test]
fn decoding_the_units_gives_the_text_back() {
    let texts = [
        "",
        "echo test",
        "touch na\u{ef}ve_r\u{e9}sum\u{e9}.txt",
        "\u{4f60}\u{597d} \u{1f600}",
        "\u{10000}\u{10ffff}",
    ];
    for text in texts {
        assert_eq!(String::from_utf16(&encode_utf16(text)).ok(), Some(text.to_string()));
    }
}
