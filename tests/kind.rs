use file_api::{detect_kind, ReaderKind};

#[test]
fn detect_file_kind() {
    let filename = "filename.txt".to_string();
    let kind = detect_kind(&filename);
    assert_eq!(kind, ReaderKind::File);
}

#[test]
fn detect_http_kind() {
    let filename = "http://source/filename.txt".to_string();
    let kind = detect_kind(&filename);
    assert_eq!(kind, ReaderKind::Http);

    let filename_https = "https://source/filename.txt".to_string();
    let kind_https = detect_kind(&filename_https);
    assert_eq!(kind_https, ReaderKind::Http);
}

#[test]
fn kind_needs_the_whole_scheme() {
    assert_eq!(detect_kind("http:/source"), ReaderKind::File);
    assert_eq!(detect_kind("ftp://source/file"), ReaderKind::File);
    assert_eq!(detect_kind("https:"), ReaderKind::File);
    assert_eq!(detect_kind(""), ReaderKind::File);
    assert_eq!(detect_kind("http://"), ReaderKind::Http);
}
