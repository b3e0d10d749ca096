use stardust::api::SparkStoreApi;
use stardust::catalog::AppInfo;
use stardust::category::Category;
use stardust::store::{Command, Message, Stardust};

fn app(name: &str) -> AppInfo {
    AppInfo {
        name: name.to_string(),
        desc: String::new(),
        tagname: None,
        contributor: None,
        author: None,
        more: None,
        pkg: None,
        ver: None,
    }
}

#[test]
fn typing_starts_search_from_two_bytes() {
    let mut s = Stardust::new(SparkStoreApi::new("x86_64"));
    assert_eq!(s.update(Message::SearchChanged("g".to_string())), Command::Nothing);
    assert_eq!(s.update(Message::SearchChanged("gi".to_string())), Command::StartSearch);
    assert_eq!(s.search_query, "gi");
    assert_eq!(s.update(Message::SearchApps), Command::Search("gi".to_string()));
    assert!(s.loading);
}

#[test]
fn empty_query_does_not_search() {
    let mut s = Stardust::new(SparkStoreApi::new("x86_64"));
    assert_eq!(s.update(Message::SearchApps), Command::Nothing);
    assert!(!s.loading);
}

#[test]
fn selecting_category_fetches_its_token() {
    let mut s = Stardust::new(SparkStoreApi::new("x86_64"));
    s.update(Message::SearchChanged("abc".to_string()));
    let c = s.update(Message::CategorySelected(Category::Games));
    assert_eq!(c, Command::Fetch("games".to_string()));
    assert_eq!(s.selected_category, Category::Games);
    assert!(s.search_query.is_empty());
    assert!(s.loading);
    assert_eq!(s.update(Message::LoadApps), Command::Fetch("games".to_string()));
}

#[test]
fn results_replace_or_clear_the_list() {
    let mut s = Stardust::new(SparkStoreApi::new("x86_64"));
    s.update(Message::LoadApps);
    assert_eq!(s.update(Message::AppsLoaded(Ok(vec![app("GIMP")]))), Command::Nothing);
    assert!(!s.loading);
    assert_eq!(s.apps, vec![app("GIMP")]);
    s.update(Message::SearchResults(Err("offline".to_string())));
    assert!(s.apps.is_empty());
    assert_eq!(s.error_message, Some("offline".to_string()));
    s.update(Message::SearchResults(Ok(vec![app("Krita")])));
    assert_eq!(s.error_message, None);
    assert_eq!(s.update(Message::AppSelected("Krita".to_string())), Command::Announce("Krita".to_string()));
}
