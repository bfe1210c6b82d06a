use homer::paths::{archive_file, cache_dir, font_dir, install_dir, status_file};

#[test]
fn cache_is_the_fonts_directory() {
    assert_eq!(cache_dir(), vec!["fonts"]);
}

#[test]
fn status_file_lies_in_the_cache() {
    assert_eq!(status_file(), vec!["fonts", "font-status.json"]);
}

#[test]
fn archive_lies_in_the_cache_under_the_font_name() {
    assert_eq!(archive_file("Hack"), vec!["fonts", "Hack.zip"]);
    assert_eq!(archive_file("Font.v2"), vec!["fonts", "Font.v2.zip"]);
}

#[test]
fn install_directory_lies_below_local_share_fonts() {
    assert_eq!(install_dir("$homer"), vec![".local", "share", "fonts", "$homer"]);
}

#[test]
fn font_directory_is_named_after_the_font() {
    assert_eq!(font_dir("$homer", "Hack"), vec![".local", "share", "fonts", "$homer", "Hack"]);
}
