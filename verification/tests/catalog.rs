use homer::catalog::{marked_indices, FontInfo, FontRepo, NerdFontsInfo, ToFontInfoVec, ToStringVec};
use homer::env::{default_fonts_dir_name, Env, EnvFont};
use homer::names::contains_name;

fn font(folder: &str) -> FontInfo {
    FontInfo {
        unpatched_name: format!("{folder} unpatched"),
        license_id: "OFL-1.1".to_string(),
        rfn: false,
        version: "1.0".to_string(),
        patched_name: format!("{folder} Nerd Font"),
        folder_name: folder.to_string(),
        image_preview_font: format!("{folder} preview"),
        image_preview_font_source: format!("{folder}.ttf"),
        cask_name: folder.to_lowercase(),
        repo_release: true,
        is_monospaced: true,
        description: format!("about {folder}"),
    }
}

fn names(list: &[&str]) -> Vec<String> {
    list.iter().map(|s| s.to_string()).collect()
}

#[test]
fn to_string_vec_lists_folder_names_in_order() {
    let fonts = vec![font("Hack"), font("Iosevka"), font("Agave")];
    assert_eq!(fonts.to_string_vec(), names(&["Hack", "Iosevka", "Agave"]));
}

#[test]
fn to_string_vec_of_empty_catalog_is_empty() {
    let fonts: Vec<FontInfo> = Vec::new();
    assert!(fonts.to_string_vec().is_empty());
}

#[test]
fn to_font_info_vec_follows_catalog_order() {
    let fonts = vec![font("Hack"), font("Iosevka"), font("Agave")];
    let picked = names(&["Agave", "Hack"]).to_font_info_vec(&fonts);
    assert_eq!(picked.to_string_vec(), names(&["Hack", "Agave"]));
    assert_eq!(picked[0].patched_name, "Hack Nerd Font");
    assert_eq!(picked[1].description, "about Agave");
}

#[test]
fn to_font_info_vec_drops_unknown_names() {
    let fonts = vec![font("Hack"), font("Iosevka")];
    let picked = names(&["Nope", "Iosevka"]).to_font_info_vec(&fonts);
    assert_eq!(picked.to_string_vec(), names(&["Iosevka"]));
}

#[test]
fn to_font_info_vec_of_empty_selection_is_empty() {
    let fonts = vec![font("Hack"), font("Iosevka")];
    let picked = names(&[]).to_font_info_vec(&fonts);
    assert!(picked.is_empty());
}

#[test]
fn font_info_clone_keeps_every_field() {
    let first = font("Hack");
    let copy = first.clone();
    assert_eq!(copy.unpatched_name, first.unpatched_name);
    assert_eq!(copy.license_id, first.license_id);
    assert_eq!(copy.rfn, first.rfn);
    assert_eq!(copy.version, first.version);
    assert_eq!(copy.patched_name, first.patched_name);
    assert_eq!(copy.folder_name, first.folder_name);
    assert_eq!(copy.image_preview_font, first.image_preview_font);
    assert_eq!(copy.image_preview_font_source, first.image_preview_font_source);
    assert_eq!(copy.cask_name, first.cask_name);
    assert_eq!(copy.repo_release, first.repo_release);
    assert_eq!(copy.is_monospaced, first.is_monospaced);
    assert_eq!(copy.description, first.description);
}

#[test]
fn marked_indices_are_the_places_of_marked_fonts() {
    let fonts = vec![font("Hack"), font("Iosevka"), font("Agave"), font("Monoid")];
    let marked = names(&["Monoid", "Iosevka", "Gone"]);
    assert_eq!(marked_indices(&fonts, &marked), vec![1, 3]);
}

#[test]
fn marked_indices_of_nothing_marked_is_empty() {
    let fonts = vec![font("Hack"), font("Iosevka")];
    assert_eq!(marked_indices(&fonts, &names(&[])), Vec::<usize>::new());
}

#[test]
fn contains_name_finds_exact_names_only() {
    let list = names(&["Hack", "Iosevka"]);
    assert!(contains_name(&list, "Iosevka"));
    assert!(!contains_name(&list, "iosevka"));
    assert!(!contains_name(&list, ""));
    assert!(!contains_name(&names(&[]), "Hack"));
}

#[test]
fn catalog_and_release_hold_what_they_are_given() {
    let repo = FontRepo { fonts: vec![font("Hack")] };
    let info = NerdFontsInfo { current_version: "3.4.0".to_string() };
    assert_eq!(repo.fonts.len(), 1);
    assert_eq!(info.current_version, "3.4.0");
}

#[test]
fn default_install_directory_name() {
    assert_eq!(default_fonts_dir_name(), "$homer");
    let env = Env {
        font: EnvFont {
            repo_url: "https://example.org/fonts.json".to_string(),
            root_url: "https://example.org/info.yaml".to_string(),
            fonts_dir_name: default_fonts_dir_name(),
        },
    };
    assert_eq!(env.font.fonts_dir_name, "$homer");
    assert_eq!(env.font.repo_url, "https://example.org/fonts.json");
    assert_eq!(env.font.root_url, "https://example.org/info.yaml");
}
