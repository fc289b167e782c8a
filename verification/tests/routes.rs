use techno_sutra::routes::{mode_from_args, mode_from_location, AppMode};

fn args(list: &[&str]) -> Vec<String> {
    list.iter().map(|a| a.to_string()).collect()
}

#[test]
fn default_mode_is_the_full_experience() {
    assert_eq!(AppMode::default(), AppMode::FullExperience);
}

#[test]
fn args_without_the_flag_start_the_full_experience() {
    assert_eq!(mode_from_args(&args(&[])), AppMode::FullExperience);
    assert_eq!(mode_from_args(&args(&["museum"])), AppMode::FullExperience);
    assert_eq!(mode_from_args(&args(&["museum", "-upload", "--uploads"])), AppMode::FullExperience);
    assert_eq!(mode_from_args(&args(&["museum", "--upload=1", "upload"])), AppMode::FullExperience);
    assert_eq!(mode_from_args(&args(&["museum", "--UPLOAD", " --upload"])), AppMode::FullExperience);
}

#[test]
fn the_upload_flag_starts_the_upload_room() {
    assert_eq!(mode_from_args(&args(&["--upload"])), AppMode::UploadRoom);
    assert_eq!(mode_from_args(&args(&["museum", "--upload"])), AppMode::UploadRoom);
    assert_eq!(mode_from_args(&args(&["museum", "-v", "--upload", "x"])), AppMode::UploadRoom);
}

#[test]
fn location_without_a_hint_starts_the_full_experience() {
    assert_eq!(mode_from_location(None, None, None), AppMode::FullExperience);
    assert_eq!(mode_from_location(Some(""), Some(""), Some("")), AppMode::FullExperience);
    assert_eq!(mode_from_location(Some("?q=1"), Some("/"), Some("/")), AppMode::FullExperience);
    assert_eq!(
        mode_from_location(Some("?p=/uploa"), Some("/uploa/d"), Some("/upload/x")),
        AppMode::FullExperience
    );
    assert_eq!(mode_from_location(Some("?p=upload"), None, Some("/uploads/")), AppMode::FullExperience);
    assert_eq!(mode_from_location(None, None, Some("upload")), AppMode::FullExperience);
    assert_eq!(mode_from_location(None, None, Some("/upload?")), AppMode::FullExperience);
}

#[test]
fn query_with_the_redirected_path_starts_the_upload_room() {
    assert_eq!(mode_from_location(Some("?p=/upload"), None, None), AppMode::UploadRoom);
    assert_eq!(mode_from_location(Some("?p=%2Fupload"), None, None), AppMode::UploadRoom);
    assert_eq!(mode_from_location(Some("?a=b&p=%2Fupload&c=d"), None, Some("/")), AppMode::UploadRoom);
    assert_eq!(mode_from_location(Some("p=/upload"), Some("/"), Some("/")), AppMode::UploadRoom);
    assert_eq!(mode_from_location(Some("?p=%2fupload"), None, None), AppMode::FullExperience);
    assert_eq!(mode_from_location(Some("?q=/upload"), None, None), AppMode::FullExperience);
}

#[test]
fn stored_route_that_names_upload_starts_the_upload_room() {
    assert_eq!(mode_from_location(None, Some("/upload"), None), AppMode::UploadRoom);
    assert_eq!(mode_from_location(None, Some("/app/upload/"), None), AppMode::UploadRoom);
    assert_eq!(mode_from_location(Some("?x"), Some("x/uploads"), Some("/")), AppMode::UploadRoom);
    assert_eq!(mode_from_location(None, Some("upload"), None), AppMode::FullExperience);
}

#[test]
fn path_that_ends_in_upload_starts_the_upload_room() {
    assert_eq!(mode_from_location(None, None, Some("/upload")), AppMode::UploadRoom);
    assert_eq!(mode_from_location(None, None, Some("/upload/")), AppMode::UploadRoom);
    assert_eq!(mode_from_location(None, None, Some("/upload////")), AppMode::UploadRoom);
    assert_eq!(mode_from_location(None, None, Some("/museum/upload/")), AppMode::UploadRoom);
    assert_eq!(mode_from_location(Some(""), Some(""), Some("/a/b/upload")), AppMode::UploadRoom);
    assert_eq!(mode_from_location(None, None, Some("/upload/index.html")), AppMode::FullExperience);
    assert_eq!(mode_from_location(None, None, Some("////")), AppMode::FullExperience);
    assert_eq!(mode_from_location(None, None, Some("/uploa")), AppMode::FullExperience);
}

#[test]
fn location_matching_works_on_text_that_is_not_ascii() {
    assert_eq!(mode_from_location(Some("?né=ü&p=/upload"), None, None), AppMode::UploadRoom);
    assert_eq!(mode_from_location(None, None, Some("/sūtra/upload/")), AppMode::UploadRoom);
    assert_eq!(mode_from_location(None, Some("/sūtra"), Some("/sūtra/")), AppMode::FullExperience);
}
