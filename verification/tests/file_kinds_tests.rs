use hinjaku::file_kinds::{detect_kind, is_archive_name, is_image_name, ArchiveKind};

#[test]
fn kinds_by_extension() {
    assert_eq!(detect_kind("C:\\books\\vol1.ZIP"), ArchiveKind::Zip);
    assert_eq!(detect_kind("/books/vol1.7z"), ArchiveKind::SevenZ);
    assert_eq!(detect_kind("/books/doc.pdf"), ArchiveKind::Pdf);
    assert_eq!(detect_kind("/books/folder"), ArchiveKind::Plain);
    assert_eq!(detect_kind("/books.zip/folder"), ArchiveKind::Plain);
    assert_eq!(detect_kind("/books/.zip"), ArchiveKind::Plain);
}

#[test]
fn archives_and_images() {
    assert!(is_archive_name("a.zip"));
    assert!(is_archive_name("a.7Z"));
    assert!(!is_archive_name("a.pdf"));
    assert!(is_image_name("p01.JPG"));
    assert!(is_image_name("x.webp"));
    assert!(!is_image_name("x.txt"));
    assert!(!is_image_name("jpg"));
}
