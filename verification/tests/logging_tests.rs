use shawl::logging::{log_discriminant, resolve_log_dir, strip_verbatim};

#[test]
fn verbatim_prefix_is_removed() {
    assert_eq!(strip_verbatim("\\\\?\\C:\\logs"), "C:\\logs");
}

#[test]
fn every_occurrence_is_removed() {
    assert_eq!(strip_verbatim("\\\\?\\a\\\\?\\b"), "ab");
}

#[test]
fn plain_path_is_unchanged() {
    assert_eq!(strip_verbatim("C:\\Program Files\\svc"), "C:\\Program Files\\svc");
    assert_eq!(strip_verbatim(""), "");
}

#[test]
fn near_miss_keeps_its_characters() {
    // three backslashes then a question mark: the pattern starts one later
    assert_eq!(strip_verbatim("\\\\\\?\\"), "\\");
}

#[test]
fn explicit_log_dir_wins() {
    let dir = String::from("\\\\?\\D:\\svc\\logs");
    let r = resolve_log_dir(Some(&dir), "C:\\fallback");
    assert_eq!(r, "D:\\svc\\logs");
}

#[test]
fn executable_directory_is_the_fallback() {
    let r = resolve_log_dir(None, "\\\\?\\C:\\Program Files\\svc");
    assert_eq!(r, "C:\\Program Files\\svc");
}

#[test]
fn discriminant_names_the_service() {
    assert_eq!(log_discriminant("mysvc"), "for_mysvc");
}
