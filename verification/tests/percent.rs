use sonora::percent::hex_pair_value;
use sonora::percent::local_path_from_arg;
use sonora::percent::percent_decode;
use sonora::percent::percent_decode_bytes;

#[test]
fn decodes_space_escape() {
    assert_eq!(percent_decode("hello%20world"), "hello world");
}

#[test]
fn decodes_upper_and_lower_case_hex() {
    assert_eq!(percent_decode("%41%62%4a%4A"), "AbJJ");
}

#[test]
fn keeps_incomplete_escapes() {
    assert_eq!(percent_decode("%4"), "%4");
    assert_eq!(percent_decode("100%"), "100%");
    assert_eq!(percent_decode("a%2"), "a%2");
    assert_eq!(percent_decode("%zz"), "%zz");
}

#[test]
fn keeps_a_percent_that_starts_no_escape() {
    assert_eq!(percent_decode("%%41"), "%A");
}

#[test]
fn decodes_multibyte_utf8() {
    assert_eq!(percent_decode("%e2%82%ac"), "\u{20ac}");
    assert_eq!(percent_decode("/music/Bj%C3%B6rk.flac"), "/music/Bj\u{f6}rk.flac");
}

#[test]
fn replaces_invalid_utf8() {
    assert_eq!(percent_decode("%ff"), "\u{fffd}");
    assert_eq!(percent_decode("a%C3"), "a\u{fffd}");
}

#[test]
fn only_two_hex_digits_make_an_escape() {
    assert_eq!(percent_decode("%+f"), "%+f");
    assert_eq!(percent_decode("%+4"), "%+4");
    assert_eq!(percent_decode("%-4"), "%-4");
    assert_eq!(percent_decode("%+%"), "%+%");
    assert_eq!(percent_decode("% 4"), "% 4");
}

#[test]
fn leaves_plain_text_alone() {
    assert_eq!(percent_decode(""), "");
    assert_eq!(percent_decode("/home/me/song.mp3"), "/home/me/song.mp3");
    assert_eq!(percent_decode("caf\u{e9}"), "caf\u{e9}");
}

#[test]
fn decodes_bytes() {
    assert_eq!(percent_decode_bytes(b"a%2Fb"), b"a/b".to_vec());
    assert_eq!(percent_decode_bytes(b"%ff%00"), vec![0xff, 0x00]);
    assert_eq!(percent_decode_bytes(b"%g0"), b"%g0".to_vec());
    assert_eq!(percent_decode_bytes(b""), Vec::<u8>::new());
}

#[test]
fn reads_hex_pairs() {
    assert_eq!(hex_pair_value(b'4', b'1'), Some(0x41));
    assert_eq!(hex_pair_value(b'f', b'F'), Some(0xff));
    assert_eq!(hex_pair_value(b'0', b'0'), Some(0));
    assert_eq!(hex_pair_value(b'+', b'7'), None);
    assert_eq!(hex_pair_value(b'-', b'7'), None);
    assert_eq!(hex_pair_value(b'4', b'+'), None);
    assert_eq!(hex_pair_value(b'g', b'1'), None);
}

#[test]
fn decodes_file_uris_into_paths() {
    assert_eq!(local_path_from_arg("file:///tmp/a%20b.mp3"), Some("/tmp/a b.mp3".to_string()));
    assert_eq!(local_path_from_arg("file://"), Some(String::new()));
}

#[test]
fn keeps_bare_paths() {
    assert_eq!(local_path_from_arg("/home/me/a%20b.mp3"), Some("/home/me/a%20b.mp3".to_string()));
    assert_eq!(local_path_from_arg("FILE:///x"), Some("FILE:///x".to_string()));
    assert_eq!(local_path_from_arg("file:/x"), Some("file:/x".to_string()));
}

#[test]
fn a_percent_before_a_split_character_is_kept() {
    assert_eq!(percent_decode("%a\u{20ac}"), "%a\u{20ac}");
    assert_eq!(percent_decode("%1\u{20ac}"), "%1\u{20ac}");
    assert_eq!(percent_decode("%\u{e9}"), "%\u{e9}");
    assert_eq!(local_path_from_arg("file:///%a\u{e9}"), Some("/%a\u{e9}".to_string()));
}
