use appdater::http::{header_text, is_redirection, is_success};

#[test]
fn redirection_is_the_300_class() {
    assert!(!is_redirection(299));
    assert!(is_redirection(300));
    assert!(is_redirection(302));
    assert!(is_redirection(307));
    assert!(is_redirection(399));
    assert!(!is_redirection(400));
    assert!(!is_redirection(200));
    assert!(!is_redirection(0));
    assert!(!is_redirection(u16::MAX));
}

#[test]
fn success_is_the_200_class() {
    assert!(!is_success(199));
    assert!(is_success(200));
    assert!(is_success(206));
    assert!(is_success(299));
    assert!(!is_success(300));
    assert!(!is_success(404));
    assert!(!is_success(0));
    assert!(!is_success(u16::MAX));
}

#[test]
fn header_text_reads_visible_ascii() {
    assert_eq!(
        header_text(b"https://example.com/a/b/c"),
        Some(String::from("https://example.com/a/b/c"))
    );
}

#[test]
fn header_text_reads_an_empty_value() {
    assert_eq!(header_text(b""), Some(String::new()));
}

#[test]
fn header_text_accepts_space_tab_and_tilde() {
    assert_eq!(header_text(b" \t~"), Some(String::from(" \t~")));
    assert_eq!(header_text(&[32]), Some(String::from(" ")));
    assert_eq!(header_text(&[126]), Some(String::from("~")));
}

#[test]
fn header_text_rejects_control_bytes() {
    assert_eq!(header_text(&[31]), None);
    assert_eq!(header_text(&[0]), None);
    assert_eq!(header_text(b"a\nb"), None);
    assert_eq!(header_text(&[127]), None);
}

#[test]
fn header_text_rejects_bytes_beyond_ascii() {
    assert_eq!(header_text(&[128]), None);
    assert_eq!(header_text(&[255]), None);
    assert_eq!(header_text("https://example.com/vi\u{1ec7}t".as_bytes()), None);
}

#[test]
fn header_text_rejects_a_bad_byte_anywhere() {
    assert_eq!(header_text(&[b'a', b'b', 200]), None);
    assert_eq!(header_text(&[200, b'a', b'b']), None);
    assert_eq!(header_text(&[b'a', 7, b'b']), None);
}
