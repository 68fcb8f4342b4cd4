use calendar::style::css_import;
use calendar::style::{project, style_variables};
use calendar::{FontImportCache, SettingsStore, StyleKey};

#[test]
fn import_keeps_specific_family_and_drops_generic() {
    let directive = css_import("Arial, sans-serif").expect("one non-generic family remains");
    assert!(directive.contains("Arial"));
    assert!(!directive.contains("sans-serif"));
    assert_eq!(
        directive,
        "@import url(\"https://fonts.googleapis.com/css2?display=swap&family=Arial\");"
    );
}

#[test]
fn import_absent_for_generic_family_alone() {
    assert_eq!(css_import("sans-serif"), None);
}

#[test]
fn import_absent_for_generic_families_only() {
    assert_eq!(css_import("serif, monospace, system-ui"), None);
}

#[test]
fn import_encodes_spaces_and_strips_quotes() {
    let directive = css_import("\"Noto Sans SC\", serif").unwrap();
    assert_eq!(
        directive,
        "@import url(\"https://fonts.googleapis.com/css2?display=swap&family=Noto+Sans+SC\");"
    );
}

#[test]
fn import_joins_several_families() {
    let directive = css_import("Lato, Open Sans").unwrap();
    assert_eq!(
        directive,
        "@import url(\"https://fonts.googleapis.com/css2?display=swap&family=Lato&family=Open+Sans\");"
    );
}

#[test]
fn generic_exclusion_ignores_ascii_case() {
    assert_eq!(css_import("SERIF"), None);
    assert_eq!(css_import("Sans-Serif"), None);
    let directive = css_import("ARIAL").unwrap();
    assert!(directive.contains("ARIAL"));
}

#[test]
fn import_trims_surrounding_whitespace() {
    assert_eq!(css_import("  serif  ,\tmonospace"), None);
    let directive = css_import("  Fira Code  , serif").unwrap();
    assert!(directive.contains("&family=Fira+Code"));
}

#[test]
fn empty_family_name_is_kept_as_empty_parameter() {
    // An empty name is not a generic keyword, so it still contributes an
    // (empty) request parameter.
    let directive = css_import("").unwrap();
    assert!(directive.contains("display=swap&family=\""));
    let directive = css_import("Arial,,serif").unwrap();
    assert!(directive.contains("&family=Arial&family=\""));
}

#[test]
fn default_store_produces_no_import() {
    let settings = SettingsStore::new();
    let projection = project(&settings);
    assert_eq!(projection.import, None);
    assert_eq!(projection.font, "sans-serif");
}

#[test]
fn variable_block_lists_every_cell_in_order() {
    let settings = SettingsStore::new();
    let vars = style_variables(&settings);
    assert_eq!(vars.len(), 19);
    assert_eq!(vars[0], ("--color-text".to_owned(), "#111111".to_owned()));
    assert_eq!(vars[1], ("--color-theme".to_owned(), "#0000ff".to_owned()));
    assert_eq!(vars[4], ("--color-today-text".to_owned(), "#ffffff".to_owned()));
    assert_eq!(vars[5], ("--color-weekend".to_owned(), "#ff0000".to_owned()));
    assert_eq!(vars[9], ("--size-cell-width".to_owned(), "96px".to_owned()));
    assert_eq!(vars[12], ("--size-text".to_owned(), "24px".to_owned()));
    assert_eq!(vars[18], ("--size-year-margin".to_owned(), "64px".to_owned()));
}

#[test]
fn variable_block_reflects_an_edit() {
    let mut settings = SettingsStore::new();
    settings.set_style(StyleKey::ColorTheme, "#123456".to_owned());
    let vars = style_variables(&settings);
    assert_eq!(vars[1], ("--color-theme".to_owned(), "#123456".to_owned()));
    // The neighbouring cells keep their values.
    assert_eq!(vars[0].1, "#111111");
    assert_eq!(vars[2].1, "#808080");
}

#[test]
fn invalid_style_value_passes_through_unvalidated() {
    let mut settings = SettingsStore::new();
    settings.set_style(StyleKey::ColorText, "definitely not a color".to_owned());
    let vars = style_variables(&settings);
    assert_eq!(vars[0].1, "definitely not a color");
}

#[test]
fn projection_follows_font_edit() {
    let mut settings = SettingsStore::new();
    settings.set_style(StyleKey::Font, "Inter, sans-serif".to_owned());
    let projection = project(&settings);
    assert_eq!(projection.font, "Inter, sans-serif");
    assert!(projection.import.unwrap().contains("&family=Inter"));
}

#[test]
fn font_cache_recomputes_only_on_change() {
    let mut cache = FontImportCache::new();
    assert!(cache.refresh("Arial, sans-serif"));
    assert!(!cache.refresh("Arial, sans-serif"));
    assert!(cache.directive.as_ref().unwrap().contains("&family=Arial"));
    assert!(cache.refresh("serif"));
    assert_eq!(cache.directive, None);
    assert!(!cache.refresh("serif"));
}
