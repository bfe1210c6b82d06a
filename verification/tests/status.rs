use homer::status::FontDownloadStatus;

fn names(list: &[&str]) -> Vec<String> {
    list.iter().map(|s| s.to_string()).collect()
}

#[test]
fn new_record_is_empty() {
    let record = FontDownloadStatus::new();
    assert!(record.downloaded.is_empty());
    assert!(record.installed.is_empty());
}

#[test]
fn load_without_stored_record_is_empty() {
    let record = FontDownloadStatus::load(None);
    assert!(record.downloaded.is_empty());
    assert!(record.installed.is_empty());
}

#[test]
fn load_keeps_stored_record() {
    let stored = FontDownloadStatus {
        downloaded: names(&["Hack", "Iosevka"]),
        installed: names(&["Hack"]),
    };
    let record = FontDownloadStatus::load(Some(stored));
    assert_eq!(record.downloaded, names(&["Hack", "Iosevka"]));
    assert_eq!(record.installed, names(&["Hack"]));
}

#[test]
fn set_completed_adds_absent_name_at_the_end() {
    let mut record = FontDownloadStatus {
        downloaded: names(&["Hack"]),
        installed: names(&["Hack"]),
    };
    record.set_completed("Iosevka");
    assert_eq!(record.downloaded, names(&["Hack", "Iosevka"]));
    assert_eq!(record.installed, names(&["Hack"]));
}

#[test]
fn set_completed_twice_keeps_one_occurrence() {
    let mut record = FontDownloadStatus::new();
    record.set_completed("Hack");
    record.set_completed("Hack");
    assert_eq!(record.downloaded, names(&["Hack"]));
    assert_eq!(record.downloaded.iter().filter(|n| n.as_str() == "Hack").count(), 1);
    assert!(record.installed.is_empty());
}

#[test]
fn set_installed_adds_absent_name_at_the_end() {
    let mut record = FontDownloadStatus {
        downloaded: names(&["Hack", "Iosevka"]),
        installed: names(&["Iosevka"]),
    };
    record.set_installed("Hack");
    assert_eq!(record.installed, names(&["Iosevka", "Hack"]));
    assert_eq!(record.downloaded, names(&["Hack", "Iosevka"]));
}

#[test]
fn set_installed_twice_keeps_one_occurrence() {
    let mut record = FontDownloadStatus::new();
    record.set_installed("Hack");
    record.set_installed("Hack");
    assert_eq!(record.installed, names(&["Hack"]));
    assert!(record.downloaded.is_empty());
}

#[test]
fn marking_present_name_keeps_order() {
    let mut record = FontDownloadStatus {
        downloaded: names(&["A", "B", "C"]),
        installed: names(&[]),
    };
    record.set_completed("B");
    assert_eq!(record.downloaded, names(&["A", "B", "C"]));
}

#[test]
fn names_are_compared_exactly() {
    let mut record = FontDownloadStatus::new();
    record.set_completed("Hack");
    record.set_completed("hack");
    record.set_completed("Hack ");
    assert_eq!(record.downloaded, names(&["Hack", "hack", "Hack "]));
}
