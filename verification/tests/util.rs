//! Unit exercises of URL composition, packet-line encoding, the text
//! helpers and the URL data model.

use git_transport::giturl;
use git_transport::pkt::{encode_data_line, encode_flush_line};
use git_transport::text::{split_lines, split_on_char, str_eq, trim};
use git_transport::url::append_url;

#[test]
fn append_url_inserts_separator_without_trailing_slash() {
    assert_eq!(append_url("https://host/repo", "path"), "https://host/repo/path");
}

#[test]
fn append_url_keeps_single_separator_with_trailing_slash() {
    assert_eq!(append_url("https://host/repo/", "path"), "https://host/repo/path");
}

#[test]
fn append_url_on_empty_base_yields_rooted_suffix() {
    assert_eq!(append_url("", "path"), "/path");
}

#[test]
fn encode_data_line_prefixes_hex_length() {
    assert_eq!(encode_data_line(b"hi"), b"0006hi".to_vec());
    assert_eq!(
        encode_data_line(b"want abc\n"),
        b"000dwant abc\n".to_vec()
    );
    assert_eq!(encode_data_line(b""), b"0004".to_vec());
}

#[test]
fn encode_flush_line_is_four_zeroes() {
    assert_eq!(encode_flush_line(), b"0000".to_vec());
}

#[test]
fn trim_strips_both_ends_only() {
    assert_eq!(trim("  # service=git-upload-pack\n"), "# service=git-upload-pack");
    assert_eq!(trim("a b"), "a b");
    assert_eq!(trim(" \t\r\n "), "");
    assert_eq!(trim(""), "");
}

#[test]
fn str_eq_compares_exact_characters() {
    assert!(str_eq("abc", "abc"));
    assert!(!str_eq("abc", "abd"));
    assert!(!str_eq("abc", "abcd"));
}

#[test]
fn split_on_char_keeps_empty_pieces() {
    assert_eq!(split_on_char("a b", ' '), vec!["a".to_string(), "b".to_string()]);
    assert_eq!(
        split_on_char("a  b", ' '),
        vec!["a".to_string(), "".to_string(), "b".to_string()]
    );
    assert_eq!(split_on_char("", ' '), vec!["".to_string()]);
}

#[test]
fn split_lines_drops_only_a_trailing_empty_piece() {
    assert_eq!(
        split_lines("one\ntwo\n"),
        vec!["one".to_string(), "two".to_string()]
    );
    assert_eq!(
        split_lines("one\n\ntwo"),
        vec!["one".to_string(), "".to_string(), "two".to_string()]
    );
    assert_eq!(split_lines(""), Vec::<String>::new());
}

#[test]
fn giturl_parse_rejects_every_input() {
    assert!(matches!(giturl::parse(b"ssh://host/path"), Err(giturl::Error::TBD)));
    assert!(matches!(giturl::parse(b""), Err(giturl::Error::TBD)));
}

#[test]
fn giturl_model_round_trips_fields() {
    let url = giturl::Url {
        protocol: giturl::Protocol::Ssh,
        user: Some(b"git".to_vec()),
        host: Some(b"example.com".to_vec()),
        port: Some(22),
        path: b"/repo.git".to_vec(),
        expand_user: Some(giturl::UserExpansion::Name(b"alice".to_vec())),
    };
    let copy = url.clone();
    assert_eq!(url, copy);
    assert_eq!(copy.port, Some(22));
}
