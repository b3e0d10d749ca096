use stardust::api::SparkStoreApi;
use stardust::catalog::AppInfo;
use stardust::fetch::FetchError;
use stardust::search::{app_matches, filter_apps, matches_folded};
use stardust::category::Category;

fn app(name: &str, desc: &str) -> AppInfo {
    AppInfo {
        name: name.to_string(),
        desc: desc.to_string(),
        tagname: Some("tools".to_string()),
        contributor: None,
        author: None,
        more: None,
        pkg: Some(name.to_lowercase()),
        ver: None,
    }
}

fn catalog() -> Vec<AppInfo> {
    vec![app("Blender", "3D tool"), app("GIMP", "image editor"), app("Krita", "digital painting")]
}

#[test]
fn search_scenario() {
    assert_eq!(filter_apps(catalog(), "image"), vec![app("GIMP", "image editor")]);
    assert_eq!(filter_apps(catalog(), "BLEND"), vec![app("Blender", "3D tool")]);
    assert_eq!(filter_apps(catalog(), "xyz"), Vec::<AppInfo>::new());
}

#[test]
fn search_keeps_order() {
    let found = filter_apps(catalog(), "i");
    let names: Vec<&str> = found.iter().map(|a| a.name.as_str()).collect();
    assert_eq!(names, vec!["GIMP", "Krita"]);
}

#[test]
fn empty_keyword_keeps_everything() {
    assert_eq!(filter_apps(catalog(), ""), catalog());
    assert_eq!(filter_apps(Vec::new(), "x"), Vec::<AppInfo>::new());
}

#[test]
fn search_apps_filters_or_passes_error_on() {
    let api = SparkStoreApi::new("x86_64");
    assert_eq!(api.search_apps(Ok(catalog()), "PAINT"), Ok(vec![app("Krita", "digital painting")]));
    let err = FetchError::AllMirrorsFailed { attempts: 3, last: None };
    assert_eq!(api.search_apps(Err(err.clone()), "paint"), Err(err));
}

#[test]
fn folded_matching() {
    assert!(matches_folded("gimp", "image editor", "edit"));
    assert!(matches_folded("gimp", "image editor", "gim"));
    assert!(!matches_folded("gimp", "image editor", "Edit"));
    assert!(matches_folded("gimp", "image editor", ""));
    assert!(!matches_folded("", "", "a"));
}

#[test]
fn entry_matching_ignores_case() {
    assert!(app_matches(&app("GIMP", "Image Editor"), "gimp"));
    assert!(app_matches(&app("GIMP", "Image Editor"), "image ed"));
    assert!(!app_matches(&app("GIMP", "Image Editor"), "krita"));
}

#[test]
fn category_labels_and_tokens() {
    assert_eq!(Category::All.as_str(), "All");
    assert_eq!(Category::Multimedia.as_str(), "Multimedia");
    assert_eq!(Category::All.to_api_category(), "all");
    assert_eq!(Category::Utilities.to_api_category(), "utilities");
    assert_eq!(Category::Development.to_api_category(), "development");
    assert_eq!(Category::default(), Category::All);
}
