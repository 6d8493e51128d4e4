use asset_store::naming::{extension_from_lowercase, keep_ascii_alphanumeric};
use asset_store::text::{
    char_is_ascii_alphanumeric, chars_of, ends_with, join, precedes_or_equals,
};
use asset_store::{personality_image_file_name, sanitize_extension, voice_file_name};

#[test]
fn voice_file_is_the_id_and_wav() {
    assert_eq!(voice_file_name("alloy"), "alloy.wav");
    assert_eq!(voice_file_name(""), ".wav");
    assert_eq!(voice_file_name("a/b\\c"), "a/b\\c.wav");
    assert_eq!(voice_file_name("x.wav"), "x.wav.wav");
}

#[test]
fn image_file_is_named_after_the_personality() {
    assert_eq!(personality_image_file_name("42", "png"), "personality_42.png");
    assert_eq!(personality_image_file_name("", "jpg"), "personality_.jpg");
    assert_eq!(personality_image_file_name("a.b", "gif"), "personality_a.b.gif");
}

#[test]
fn extension_defaults_to_png() {
    assert_eq!(sanitize_extension(None), "png");
    assert_eq!(sanitize_extension(Some("")), "png");
    assert_eq!(sanitize_extension(Some("!!!")), "png");
    assert_eq!(sanitize_extension(Some(" . / ")), "png");
    assert_eq!(sanitize_extension(Some("é")), "png");
}

#[test]
fn extension_keeps_lowercased_letters_and_digits() {
    assert_eq!(sanitize_extension(Some("JPG!")), "jpg");
    assert_eq!(sanitize_extension(Some("jpeg")), "jpeg");
    assert_eq!(sanitize_extension(Some("Mp3")), "mp3");
    assert_eq!(sanitize_extension(Some(".tar.GZ")), "targz");
    assert_eq!(sanitize_extension(Some("p_n-g")), "png");
    assert_eq!(sanitize_extension(Some("PNG\u{0}")), "png");
}

#[test]
fn extension_is_lowercased_as_text_is() {
    // The Kelvin sign lowercases to the letter k, and the dotted capital I
    // to an i followed by a combining dot.
    assert_eq!(sanitize_extension(Some("\u{212A}")), "k");
    assert_eq!(sanitize_extension(Some("\u{130}CO")), "ico");
    assert_eq!(sanitize_extension(Some("ΣΑΣ")), "png");
}

#[test]
fn a_lowercased_extension_is_only_filtered() {
    assert_eq!(extension_from_lowercase(None), "png");
    assert_eq!(extension_from_lowercase(Some("j.p-g")), "jpg");
    assert_eq!(extension_from_lowercase(Some("JpG")), "JpG");
    assert_eq!(extension_from_lowercase(Some("--")), "png");
}

#[test]
fn keeping_letters_and_digits_drops_the_rest() {
    assert_eq!(keep_ascii_alphanumeric("a1-B2_c3!"), "a1B2c3");
    assert_eq!(keep_ascii_alphanumeric(""), "");
    assert_eq!(keep_ascii_alphanumeric("ünïcödé"), "ncd");
    assert_eq!(keep_ascii_alphanumeric("/:@[`{"), "");
    assert_eq!(keep_ascii_alphanumeric("09AZaz"), "09AZaz");
}

#[test]
fn letters_and_digits_are_told_as_the_standard_tells_them() {
    for code in 0..0x250u32 {
        let c = char::from_u32(code).unwrap();
        assert_eq!(char_is_ascii_alphanumeric(c), c.is_ascii_alphanumeric());
    }
}

#[test]
fn join_puts_one_text_after_the_other() {
    assert_eq!(join("ab", "cd"), "abcd");
    assert_eq!(join("", "cd"), "cd");
    assert_eq!(join("ab", ""), "ab");
}

#[test]
fn chars_of_gives_the_characters() {
    assert_eq!(chars_of("aé𝄞"), vec!['a', 'é', '𝄞']);
    assert_eq!(chars_of(""), Vec::<char>::new());
}

#[test]
fn ends_with_agrees_with_the_standard() {
    let texts = ["", "a", ".wav", "a.wav", "a.wavx", "wav", "a.WAV", "é.wav", "a.wav.wav"];
    let suffixes = ["", ".wav", "v", "a.wav", "x.wav", "é.wav"];
    for text in texts {
        for suffix in suffixes {
            assert_eq!(ends_with(text, suffix), text.ends_with(suffix));
        }
    }
}

#[test]
fn order_agrees_with_the_standard() {
    let texts = ["", "a", "A", "ab", "b", "aa", "a b", "é", "e", "z", "𝄞", "\u{ffff}", "10", "9"];
    for a in texts {
        for b in texts {
            assert_eq!(precedes_or_equals(a, b), a <= b);
        }
    }
}
