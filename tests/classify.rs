use photosort::{classify, is_photo, is_video, FileType};

#[test]
fn photo_extensions_any_case() {
    for ext in ["jpg", "JPG", "jpeg", "JpEg", "png", "PNG", "heic", "HEIC"] {
        assert!(is_photo(ext), "{}", ext);
        assert!(!is_video(ext), "{}", ext);
    }
}

#[test]
fn video_extensions_any_case() {
    for ext in ["mp4", "MP4", "mov", "MoV", "avi", "AVI"] {
        assert!(is_video(ext), "{}", ext);
        assert!(!is_photo(ext), "{}", ext);
    }
}

#[test]
fn other_extensions_are_ignored() {
    for ext in ["", "gif", "txt", "jpgx", "jp", "mp3", "JPG ", "ｊｐｇ"] {
        assert!(!is_photo(ext), "{}", ext);
        assert!(!is_video(ext), "{}", ext);
        assert_eq!(classify(ext), None);
    }
}

#[test]
fn classify_picks_category() {
    assert_eq!(classify("Jpg"), Some(FileType::Photo));
    assert_eq!(classify("MOV"), Some(FileType::Video));
}
