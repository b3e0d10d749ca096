use stardust::api::{is_valid_category, SparkStoreApi};
use stardust::catalog::AppInfo;
use stardust::fetch::{AttemptError, AttemptOutcome, FetchError, Step};
use stardust::message::decimal_string;

fn app(name: &str, desc: &str) -> AppInfo {
    AppInfo {
        name: name.to_string(),
        desc: desc.to_string(),
        tagname: None,
        contributor: None,
        author: None,
        more: None,
        pkg: None,
        ver: None,
    }
}

fn three_mirrors() -> SparkStoreApi {
    SparkStoreApi::with_mirrors(
        vec!["https://a/".to_string(), "https://b/".to_string(), "https://c/".to_string()],
        "x86_64",
    )
}

/// Drives a fetch, answering the request to mirror `i` with `answers[i]`,
/// and returns the URLs requested and the final result.
fn drive(
    api: &SparkStoreApi,
    category: &str,
    answers: Vec<AttemptOutcome>,
) -> (Vec<String>, Result<Vec<AppInfo>, FetchError>) {
    let (mut session, mut step) = api.fetch_app_list(category);
    let mut requested = Vec::new();
    loop {
        match step {
            Step::Request(url) => {
                let outcome = answers[requested.len()].clone();
                requested.push(url);
                step = session.on_outcome(outcome);
            }
            Step::Done(result) => {
                assert!(!session.is_awaiting());
                return (requested, result);
            }
        }
    }
}

#[test]
fn failover_contacts_mirrors_in_order() {
    let api = three_mirrors();
    let answers = vec![
        AttemptOutcome::Failed(AttemptError::Connect),
        AttemptOutcome::Failed(AttemptError::Status("503 Service Unavailable".to_string())),
        AttemptOutcome::Loaded(vec![app("Blender", "3D tool")]),
    ];
    let (requested, result) = drive(&api, "graphics", answers);
    assert_eq!(
        requested,
        vec![
            "https://a/amd64-store/graphics/applist.json".to_string(),
            "https://b/amd64-store/graphics/applist.json".to_string(),
            "https://c/amd64-store/graphics/applist.json".to_string(),
        ]
    );
    assert_eq!(result, Ok(vec![app("Blender", "3D tool")]));
}

#[test]
fn first_mirror_success_stops() {
    let api = three_mirrors();
    let answers = vec![
        AttemptOutcome::Loaded(vec![app("GIMP", "image editor")]),
        AttemptOutcome::Failed(AttemptError::Timeout),
        AttemptOutcome::Failed(AttemptError::Timeout),
    ];
    let (requested, result) = drive(&api, "all", answers);
    assert_eq!(requested.len(), 1);
    assert_eq!(requested[0], "https://a/amd64-store/all/applist.json");
    assert_eq!(result, Ok(vec![app("GIMP", "image editor")]));
}

#[test]
fn invalid_categories_make_no_request() {
    let api = three_mirrors();
    for category in ["../etc", "a/b", "a\\b", ".."] {
        assert!(!is_valid_category(category));
        let (session, step) = api.fetch_app_list(category);
        assert!(!session.is_awaiting());
        assert_eq!(step, Step::Done(Err(FetchError::InvalidCategory)));
    }
    assert!(is_valid_category("office"));
    assert!(is_valid_category("a.b"));
}

#[test]
fn all_mirrors_failed_counts_every_mirror() {
    let api = three_mirrors();
    let answers = vec![
        AttemptOutcome::Failed(AttemptError::Dns),
        AttemptOutcome::Failed(AttemptError::Timeout),
        AttemptOutcome::Failed(AttemptError::Decode("expected value".to_string())),
    ];
    let (requested, result) = drive(&api, "games", answers);
    assert_eq!(requested.len(), 3);
    let err = result.unwrap_err();
    assert_eq!(
        err,
        FetchError::AllMirrorsFailed {
            attempts: 3,
            last: Some(AttemptError::Decode("expected value".to_string())),
        }
    );
    assert_eq!(
        err.message(),
        "Failed to fetch app list after trying 3 mirror(s). Last error: Failed to parse JSON: \
         expected value. Check your internet connection and firewall settings."
    );
}

#[test]
fn no_mirrors_fails_without_request() {
    let api = SparkStoreApi::with_mirrors(Vec::new(), "aarch64");
    let (session, step) = api.fetch_app_list("all");
    assert!(!session.is_awaiting());
    assert_eq!(step, Step::Done(Err(FetchError::AllMirrorsFailed { attempts: 0, last: None })));
}

#[test]
fn repeated_fetches_are_equal() {
    let api = three_mirrors();
    let answers = vec![
        AttemptOutcome::Failed(AttemptError::Timeout),
        AttemptOutcome::Loaded(vec![app("Krita", "digital painting"), app("GIMP", "image editor")]),
        AttemptOutcome::Failed(AttemptError::Timeout),
    ];
    let first = drive(&api, "graphics", answers.clone());
    let second = drive(&api, "graphics", answers);
    assert_eq!(first, second);
}

#[test]
fn default_mirrors_and_arch_dirs() {
    let api = SparkStoreApi::new("x86_64");
    assert_eq!(api.mirror_count(), 3);
    assert_eq!(
        api.mirror_url(0, "all"),
        "https://mirrors.sdu.edu.cn/spark-store-repository/amd64-store/all/applist.json"
    );
    assert_eq!(
        api.mirror_url(2, "office"),
        "https://gitee.com/spark-store-project/spark-store/raw/master/amd64-store/office/applist.json"
    );
    let arm = SparkStoreApi::new("aarch64");
    assert_eq!(arm.mirror_url(1, "games"), "https://mirrors.sdu.edu.cn/spark-store/arm64-store/games/applist.json");
    let loong = SparkStoreApi::new("loongarch64");
    assert_eq!(loong.mirror_url(1, "games"), "https://mirrors.sdu.edu.cn/spark-store/loong64-store/games/applist.json");
    let other = SparkStoreApi::new("riscv64");
    assert_eq!(other.mirror_url(1, "games"), "https://mirrors.sdu.edu.cn/spark-store/amd64-store/games/applist.json");
}

#[test]
fn attempt_error_messages() {
    assert_eq!(AttemptError::Timeout.message(), "Request timed out after 30 seconds");
    assert_eq!(AttemptError::Connect.message(), "Failed to connect to server");
    assert_eq!(AttemptError::Dns.message(), "DNS resolution failed");
    assert_eq!(AttemptError::Network("reset".to_string()).message(), "Network error: reset");
    assert_eq!(AttemptError::Client("no tls".to_string()).message(), "Failed to create HTTP client: no tls");
    assert_eq!(
        AttemptError::Status("404 Not Found".to_string()).message(),
        "Server returned error 404 Not Found"
    );
    assert_eq!(FetchError::InvalidCategory.message(), "Invalid category name");
    assert_eq!(
        FetchError::AllMirrorsFailed { attempts: 0, last: None }.message(),
        "Failed to fetch app list after trying 0 mirror(s). Last error: . Check your internet \
         connection and firewall settings."
    );
}

#[test]
fn decimal_numbers() {
    assert_eq!(decimal_string(0), "0");
    assert_eq!(decimal_string(7), "7");
    assert_eq!(decimal_string(10), "10");
    assert_eq!(decimal_string(12045), "12045");
}

#[test]
fn missing_optional_fields_stay_absent() {
    let entry = app("Blender", "3D tool");
    assert_eq!(entry.ver, None);
    assert_ne!(entry.ver, Some(String::new()));
    assert_eq!(entry.author, None);
}
