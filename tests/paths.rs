use photosort::{get_unique_target_path, target_structure, validate_directories, DirectoryError};

fn names(v: &[&str]) -> Vec<String> {
    v.iter().map(|s| s.to_string()).collect()
}

#[test]
fn free_name_is_kept() {
    assert_eq!(get_unique_target_path("/t/Photos/2020", "/s/a.jpg", &names(&[])), "/t/Photos/2020/a.jpg");
    assert_eq!(get_unique_target_path("/t/", "/s/a.jpg", &names(&["b.jpg"])), "/t/a.jpg");
}

#[test]
fn taken_names_get_increasing_numbers() {
    let dir = "/t/Photos/2020";
    let mut existing = names(&["a.jpg"]);
    let first = get_unique_target_path(dir, "/s/a.jpg", &existing);
    assert_eq!(first, "/t/Photos/2020/a_copy_1.jpg");
    existing.push("a_copy_1.jpg".to_string());
    let second = get_unique_target_path(dir, "/s/a.jpg", &existing);
    assert_eq!(second, "/t/Photos/2020/a_copy_2.jpg");
    existing.push("a_copy_2.jpg".to_string());
    assert_eq!(get_unique_target_path(dir, "/s/a.jpg", &existing), "/t/Photos/2020/a_copy_3.jpg");
}

#[test]
fn gaps_are_filled_first() {
    let existing = names(&["a.jpg", "a_copy_2.jpg"]);
    assert_eq!(get_unique_target_path("/d", "/s/a.jpg", &existing), "/d/a_copy_1.jpg");
}

#[test]
fn stem_and_extension_rules() {
    assert_eq!(get_unique_target_path("/d", "/s/README", &names(&["README"])), "/d/README_copy_1");
    assert_eq!(get_unique_target_path("/d", "/s/.hidden", &names(&[".hidden"])), "/d/.hidden_copy_1");
    assert_eq!(get_unique_target_path("/d", "/s/a.tar.gz", &names(&["a.tar.gz"])), "/d/a.tar_copy_1.gz");
    assert_eq!(get_unique_target_path("/d", "/s/a.", &names(&["a."])), "/d/a_copy_1");
}

#[test]
fn many_collisions() {
    let mut existing = names(&["x.png"]);
    for i in 1..=11 {
        existing.push(format!("x_copy_{}.png", i));
    }
    assert_eq!(get_unique_target_path("/d", "/s/x.png", &existing), "/d/x_copy_12.png");
}

#[test]
fn layout_directories() {
    assert_eq!(target_structure("/t"), vec!["/t/Photos", "/t/Videos", "/t/Duplicates"]);
}

#[test]
fn validation_outcomes() {
    assert_eq!(validate_directories(None, "/t"), Err(DirectoryError::SourceMissing));
    assert_eq!(validate_directories(Some("/a"), "/a"), Err(DirectoryError::SameDirectory));
    assert_eq!(validate_directories(Some("/a"), "/a/b"), Err(DirectoryError::TargetInsideSource));
    assert_eq!(validate_directories(Some("/a/b"), "/a"), Err(DirectoryError::SourceInsideTarget));
    assert_eq!(validate_directories(Some("/a/b"), "/a/bc"), Ok(()));
    assert_eq!(validate_directories(Some("/a/bc"), "/a/b"), Ok(()));
    assert_eq!(validate_directories(Some("/a"), "/b/new"), Ok(()));
    assert_eq!(validate_directories(Some("/"), "/x"), Err(DirectoryError::TargetInsideSource));
}

#[test]
fn validation_messages() {
    assert_eq!(DirectoryError::SameDirectory.message(), "Source and target cannot be the same directory");
    assert_eq!(DirectoryError::TargetInsideSource.message(), "Target cannot be inside source directory");
}

#[test]
fn new_target_inside_source_is_refused() {
    assert_eq!(
        validate_directories(Some("/photos"), "/photos/archive"),
        Err(DirectoryError::TargetInsideSource)
    );
    assert_eq!(
        validate_directories(Some("/photos"), "/photos/a/b/c"),
        Err(DirectoryError::TargetInsideSource)
    );
    assert_eq!(validate_directories(Some("/photos"), "/photos-archive"), Ok(()));
    assert_eq!(validate_directories(None, "/anywhere"), Err(DirectoryError::SourceMissing));
}

#[test]
fn every_message() {
    assert_eq!(DirectoryError::SourceMissing.message(), "Source directory does not exist");
    assert_eq!(DirectoryError::SourceInsideTarget.message(), "Source cannot be inside target directory");
}
