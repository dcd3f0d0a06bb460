use appdater::json::{local_version, version_from_member};
use appdater::outcome::Failure;

#[test]
fn local_version_reads_the_version_member() {
    assert_eq!(local_version("{\"version\": \"1.2.3\"}"), Ok(String::from("1.2.3")));
}

#[test]
fn local_version_reads_a_build_info_document() {
    let text = "{\n  \"releaseChannel\": \"canary\",\n  \"version\": \"0.0.150\"\n}\n";
    assert_eq!(local_version(text), Ok(String::from("0.0.150")));
}

#[test]
fn local_version_decodes_escapes() {
    assert_eq!(local_version("{\"version\": \"1\\u002e2\"}"), Ok(String::from("1.2")));
}

#[test]
fn local_version_rejects_text_that_is_not_json() {
    assert_eq!(local_version("{\"version\": "), Err(Failure::MetadataMalformed));
    assert_eq!(local_version(""), Err(Failure::MetadataMalformed));
    assert_eq!(local_version("version"), Err(Failure::MetadataMalformed));
    assert_eq!(local_version("{\"version\": \"1\"} trailing"), Err(Failure::MetadataMalformed));
}

#[test]
fn local_version_needs_a_string_member() {
    assert_eq!(local_version("{\"version\": 7}"), Err(Failure::VersionMissing));
    assert_eq!(local_version("{\"version\": null}"), Err(Failure::VersionMissing));
    assert_eq!(local_version("{\"name\": \"x\"}"), Err(Failure::VersionMissing));
    assert_eq!(local_version("{\"Version\": \"1.0\"}"), Err(Failure::VersionMissing));
}

#[test]
fn local_version_finds_no_member_outside_an_object() {
    assert_eq!(local_version("[1, 2]"), Err(Failure::VersionMissing));
    assert_eq!(local_version("\"version\""), Err(Failure::VersionMissing));
    assert_eq!(local_version("null"), Err(Failure::VersionMissing));
}

#[test]
fn local_version_accepts_an_empty_version() {
    assert_eq!(local_version("{\"version\": \"\"}"), Ok(String::new()));
}

#[test]
fn version_from_member_keeps_the_text() {
    assert_eq!(version_from_member(Some("1.85.0")), Ok(String::from("1.85.0")));
    assert_eq!(version_from_member(None), Err(Failure::VersionMissing));
}
