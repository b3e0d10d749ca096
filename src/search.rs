use vstd::prelude::*;
use crate::api::SparkStoreApi;
use crate::catalog::AppInfo;
use crate::fetch::FetchError;
use crate::laws::lemma_empty_keyword_keeps_all;
use crate::text::{contains_str, has_substring, lower_of, lowercase};

verus! {

/// An entry is kept when the lower-cased keyword occurs in its lower-cased
/// name or in its lower-cased description.
pub open spec fn app_selected(app: AppInfo, keyword_lower: Seq<char>) -> bool {
    has_substring(lower_of(app.name@), keyword_lower) || has_substring(
        lower_of(app.desc@),
        keyword_lower,
    )
}

/// The entries of `apps` that `app_selected` keeps, in the order given.
pub open spec fn filtered(apps: Seq<AppInfo>, keyword_lower: Seq<char>) -> Seq<AppInfo>
    decreases apps.len(),
{
    if apps.len() == 0 {
        Seq::empty()
    } else {
        let prev = filtered(apps.drop_last(), keyword_lower);
        if app_selected(apps.last(), keyword_lower) {
            prev.push(apps.last())
        } else {
            prev
        }
    }
}

/// Matching on text that is already lower-cased: the keyword occurs in the
/// name or in the description.
pub fn matches_folded(name_lower: &str, desc_lower: &str, keyword_lower: &str) -> (r: bool)
    ensures
        r == (has_substring(name_lower@, keyword_lower@) || has_substring(
            desc_lower@,
            keyword_lower@,
        )),
{
    contains_str(name_lower, keyword_lower) || contains_str(desc_lower, keyword_lower)
}

/// Whether `app` matches a keyword that is already lower-cased.
pub fn app_matches(app: &AppInfo, keyword_lower: &str) -> (r: bool)
    ensures
        r == app_selected(*app, keyword_lower@),
{
    let name = lowercase(app.name.as_str());
    let desc = lowercase(app.desc.as_str());
    matches_folded(name.as_str(), desc.as_str(), keyword_lower)
}

/// Keep the entries whose name or description contains `keyword`, ignoring
/// case, in the order given. An empty keyword keeps every entry.
pub fn filter_apps(apps: Vec<AppInfo>, keyword: &str) -> (r: Vec<AppInfo>)
    ensures
        r@ == filtered(apps@, lower_of(keyword@)),
        keyword@.len() == 0 ==> r@ == apps@,
{
    let keyword_lower = lowercase(keyword);
    proof {
        if keyword@.len() == 0 {
            lemma_empty_keyword_keeps_all(apps@, keyword_lower@);
        }
    }
    let ghost orig = apps@;
    let ghost len = apps@.len();
    let mut apps = apps;
    let mut rev: Vec<AppInfo> = Vec::new();
    while apps.len() > 0
        invariant
            len == orig.len(),
            apps@.len() + rev@.len() == len,
            apps@ == orig.take(apps@.len() as int),
            forall|j: int| 0 <= j < rev@.len() ==> #[trigger] rev@[j] == orig[len - 1 - j],
        decreases apps@.len(),
    {
        let a = apps.pop().unwrap();
        rev.push(a);
        assert(apps@ =~= orig.take(apps@.len() as int));
    }
    let mut out: Vec<AppInfo> = Vec::new();
    assert(orig.take(0) =~= Seq::<AppInfo>::empty());
    while rev.len() > 0
        invariant
            len == orig.len(),
            rev@.len() <= len,
            forall|j: int| 0 <= j < rev@.len() ==> #[trigger] rev@[j] == orig[len - 1 - j],
            out@ == filtered(orig.take(len - rev@.len()), keyword_lower@),
        decreases rev@.len(),
    {
        let ghost k = len - rev@.len();
        let a = rev.pop().unwrap();
        proof {
            let t = orig.take(k + 1);
            assert(t.drop_last() =~= orig.take(k));
            assert(t.last() == a);
        }
        if app_matches(&a, keyword_lower.as_str()) {
            out.push(a);
        }
    }
    assert(orig.take(len as int) =~= orig);
    out
}

impl SparkStoreApi {
    /// Search the catalog for `keyword`, given what fetching the `"all"`
    /// category came to: a failed fetch is passed on unchanged, and a loaded
    /// list is filtered by `filter_apps`.
    pub fn search_apps(&self, fetched: Result<Vec<AppInfo>, FetchError>, keyword: &str) -> (r:
        Result<Vec<AppInfo>, FetchError>)
        ensures
            fetched is Err ==> r == fetched,
            fetched is Ok ==> r is Ok && r->Ok_0@ == filtered(fetched->Ok_0@, lower_of(keyword@)),
    {
        match fetched {
            Ok(apps) => Ok(filter_apps(apps, keyword)),
            Err(e) => Err(e),
        }
    }
}

} // verus!
