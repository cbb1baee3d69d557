use face_trainer::entry::Entry;
use face_trainer::utils::get_directory_name;
use face_trainer::utils::is_image;

fn file_entry(path: &str) -> Result<Entry, String> {
    Ok(Entry { path: path.to_string(), is_dir: false, size: 0 })
}

fn dir_entry(path: &str) -> Result<Entry, String> {
    Ok(Entry { path: path.to_string(), is_dir: true, size: 0 })
}

#[test]
fn test_is_image_with_jpg_extension() {
    let path = "image.jpg";
    assert_eq!(is_image(&path), true);
}

#[test]
fn test_is_image_with_jpeg_extension() {
    let path = "image.jpeg";
    assert_eq!(is_image(&path), true);
}

#[test]
fn test_is_image_with_png_extension() {
    let path = "image.png";
    assert_eq!(is_image(&path), true);
}

#[test]
fn test_is_image_with_invalid_extension() {
    let path = "image.txt";
    assert_eq!(is_image(&path), false);
}

#[test]
fn test_is_image_without_extension() {
    assert_eq!(is_image("image"), false);
    assert_eq!(is_image("some/dir.jpg/image"), false);
}

#[test]
fn test_is_image_is_case_sensitive() {
    assert_eq!(is_image("image.JPG"), false);
    assert_eq!(is_image("image.Png"), false);
}

#[test]
fn test_get_directory_name_with_valid_directory() {
    let group = vec![file_entry("/path/to/directory/image.jpg")];
    assert_eq!(get_directory_name(&group).unwrap(), "directory".to_string());
}

#[test]
fn test_get_directory_name_with_many_files_and_one_directory_entries() {
    let group = vec![
        dir_entry("/home/ron/Documents/smart-home/faces-train/known/aaa"),
        file_entry(
            "/home/ron/Documents/smart-home/faces-train/known/aaa/33e778d2-3336-4566-9f52-6bc468b7eb32-1720362645708.jpg",
        ),
        file_entry(
            "/home/ron/Documents/smart-home/faces-train/known/aaa/8574cc19-dc28-4f13-aab0-161de0e4e3e7-1723111077185.jpg",
        ),
    ];
    assert_eq!(get_directory_name(&group).unwrap(), "aaa");
}

#[test]
fn test_get_directory_name_with_invalid_path() {
    let group = vec![Err("error".to_string())];
    assert!(get_directory_name(&group).is_err());
}

#[test]
fn test_get_directory_name_with_empty_group() {
    let group: Vec<Result<Entry, String>> = vec![];
    assert_eq!(
        get_directory_name(&group).unwrap_err().message(),
        "empty group"
    );
}
