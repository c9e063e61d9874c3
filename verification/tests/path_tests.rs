use catcher::serve_static::{decode_url_path_safely, encode_url_path, format_url_path_safely};
use catcher::serve_fs::StaticFile;

#[test]
fn normalization_keeps_plain_paths() {
    assert_eq!(format_url_path_safely("dir1/test3.txt"), "dir1/test3.txt");
    assert_eq!(format_url_path_safely("/dir1/dir2/test3.txt"), "dir1/dir2/test3.txt");
}

#[test]
fn normalization_drops_empty_and_dot_segments() {
    assert_eq!(format_url_path_safely("a/./b//c/"), "a/b/c");
    assert_eq!(format_url_path_safely("."), "");
    assert_eq!(format_url_path_safely(""), "");
}

#[test]
fn normalization_cannot_escape_the_root() {
    assert_eq!(format_url_path_safely("../girl/love/eat.txt"), "girl/love/eat.txt");
    assert_eq!(format_url_path_safely("..\\girl\\love\\eat.txt"), "girl/love/eat.txt");
    assert_eq!(format_url_path_safely("../../.."), "");
}

#[test]
fn normalization_resolves_parent_segments() {
    assert_eq!(format_url_path_safely("dir1/../dir1/test3.txt"), "dir1/test3.txt");
    assert_eq!(format_url_path_safely("dir1\\..\\dir1\\test3.txt"), "dir1/test3.txt");
    assert_eq!(format_url_path_safely("a/b/../c"), "a/c");
}

#[test]
fn encoding_escapes_control_characters() {
    assert_eq!(encode_url_path("a\u{1}b/c"), "a%01b/c");
    assert_eq!(encode_url_path("plain/path.txt"), "plain/path.txt");
}

#[test]
fn decoding_unescapes_percent_sequences() {
    assert_eq!(decode_url_path_safely("foo%20bar"), "foo bar");
    assert_eq!(decode_url_path_safely("plain"), "plain");
}

#[test]
fn encode_then_decode_restores_ascii_path() {
    let original = "a\u{1}b/c d";
    assert_eq!(decode_url_path_safely(&encode_url_path(original)), original);
}

#[test]
fn static_file_keeps_its_path() {
    let f = StaticFile::new("assets/index.html".to_string());
    assert_eq!(f.0, "assets/index.html");
}
