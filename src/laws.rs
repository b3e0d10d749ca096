use vstd::prelude::*;
use crate::api::{url_of, urls_of, SparkStoreApi};
use crate::catalog::AppInfo;
use crate::fetch::{
    all_failed, contacted, fetch_result, first_loaded, lemma_first_loaded_all_failed,
    AttemptOutcome, FetchError,
};
use crate::search::{app_selected, filtered};
use crate::text::{has_substring, lower_of, occurs_at};

verus! {

/// The first loaded outcome is found where every earlier one failed.
proof fn lemma_first_loaded_at(outs: Seq<AttemptOutcome>, k: int)
    requires
        0 <= k < outs.len(),
        forall|i: int| 0 <= i < k ==> (#[trigger] outs[i]) is Failed,
        outs[k] is Loaded,
    ensures
        first_loaded(outs) == k,
    decreases k,
{
    if k > 0 {
        let rest = outs.drop_first();
        assert forall|i: int| 0 <= i < k - 1 implies (#[trigger] rest[i]) is Failed by {
            assert(rest[i] == outs[i + 1]);
        }
        assert(outs[0] is Failed);
        lemma_first_loaded_at(rest, k - 1);
    }
}

/// Mirrors are tried in list order: when mirrors `0..k` fail and mirror `k`
/// loads a list, exactly the first `k + 1` mirrors are contacted and the
/// fetch returns mirror `k`'s list.
pub proof fn lemma_mirrors_tried_in_order(outs: Seq<AttemptOutcome>, k: int)
    requires
        0 <= k < outs.len(),
        forall|i: int| 0 <= i < k ==> (#[trigger] outs[i]) is Failed,
        outs[k] is Loaded,
    ensures
        first_loaded(outs) == k,
        contacted(outs) == k + 1,
        fetch_result(outs) == Ok::<Vec<AppInfo>, FetchError>(outs[k]->Loaded_0),
{
    lemma_first_loaded_at(outs, k);
}

/// When the first mirror loads a list, no other mirror is contacted.
pub proof fn lemma_first_success_stops(outs: Seq<AttemptOutcome>)
    requires
        outs.len() > 0,
        outs[0] is Loaded,
    ensures
        contacted(outs) == 1,
        fetch_result(outs) == Ok::<Vec<AppInfo>, FetchError>(outs[0]->Loaded_0),
{
    lemma_first_loaded_at(outs, 0);
}

/// When every mirror fails, all of them are contacted and the failure counts
/// every mirror and keeps the last cause.
pub proof fn lemma_all_mirrors_failed(outs: Seq<AttemptOutcome>)
    requires
        all_failed(outs),
        outs.len() <= usize::MAX,
    ensures
        contacted(outs) == outs.len(),
        fetch_result(outs) is Err,
        fetch_result(outs)->Err_0 matches FetchError::AllMirrorsFailed { attempts, last }
            && attempts == outs.len() && (outs.len() > 0 ==> last == Some(
            outs.last()->Failed_0,
        )),
{
    lemma_first_loaded_all_failed(outs);
}

/// A fetch ends with the same result whether the mirrors' answers are known
/// in full or only up to the last mirror contacted: what a session has seen
/// when it is done decides the result for the whole mirror list.
pub proof fn lemma_contacted_prefix_decides(outs: Seq<AttemptOutcome>)
    ensures
        contacted(outs) <= outs.len(),
        fetch_result(outs.take(contacted(outs) as int)) == fetch_result(outs),
{
    lemma_first_loaded_all_failed(outs);
    let k = first_loaded(outs) as int;
    if k < outs.len() {
        let p = outs.take(k + 1);
        assert forall|i: int| 0 <= i < k implies (#[trigger] p[i]) is Failed by {
            assert(p[i] == outs[i]);
        }
        lemma_first_loaded_at(p, k);
    } else {
        assert(outs.take(outs.len() as int) =~= outs);
    }
}

/// Fetching is deterministic: two clients with the same mirrors and
/// architecture directory, asked for the same category, request the same URLs
/// and, given the same answers, return equal results.
pub proof fn lemma_fetch_deterministic(
    a: SparkStoreApi,
    b: SparkStoreApi,
    category: Seq<char>,
    outs_a: Seq<AttemptOutcome>,
    outs_b: Seq<AttemptOutcome>,
)
    requires
        a.spec_mirrors() == b.spec_mirrors(),
        a.spec_arch_dir() == b.spec_arch_dir(),
        outs_a == outs_b,
    ensures
        urls_of(a.spec_mirrors(), a.spec_arch_dir(), category) == urls_of(
            b.spec_mirrors(),
            b.spec_arch_dir(),
            category,
        ),
        fetch_result(outs_a) == fetch_result(outs_b),
{
}

/// Every request URL names its mirror's base, the architecture directory and
/// the category, in mirror order.
pub proof fn lemma_request_urls(mirrors: Seq<Seq<char>>, arch_dir: Seq<char>, category: Seq<char>)
    ensures
        urls_of(mirrors, arch_dir, category).len() == mirrors.len(),
        forall|i: int|
            0 <= i < mirrors.len() ==> #[trigger] urls_of(mirrors, arch_dir, category)[i]
                == url_of(mirrors[i], arch_dir, category),
{
}

/// Searching keeps only matching entries, never more than it was given.
pub proof fn lemma_filtered_entries_match(apps: Seq<AppInfo>, keyword_lower: Seq<char>)
    ensures
        filtered(apps, keyword_lower).len() <= apps.len(),
        forall|i: int|
            0 <= i < filtered(apps, keyword_lower).len() ==> app_selected(
                #[trigger] filtered(apps, keyword_lower)[i],
                keyword_lower,
            ),
    decreases apps.len(),
{
    if apps.len() > 0 {
        lemma_filtered_entries_match(apps.drop_last(), keyword_lower);
    }
}

/// Searching keeps every entry that matches: an entry that matches is in the result.
pub proof fn lemma_matching_entries_kept(apps: Seq<AppInfo>, keyword_lower: Seq<char>, i: int)
    requires
        0 <= i < apps.len(),
        app_selected(apps[i], keyword_lower),
    ensures
        filtered(apps, keyword_lower).contains(apps[i]),
    decreases apps.len(),
{
    let prev = apps.drop_last();
    if i < apps.len() - 1 {
        assert(prev[i] == apps[i]);
        lemma_matching_entries_kept(prev, keyword_lower, i);
        let p = filtered(prev, keyword_lower);
        let j = choose|j: int| 0 <= j < p.len() && p[j] == apps[i];
        if app_selected(apps.last(), keyword_lower) {
            assert(p.push(apps.last())[j] == apps[i]);
        }
    } else {
        let p = filtered(prev, keyword_lower);
        assert(p.push(apps.last())[p.len() as int] == apps[i]);
    }
}

/// An empty keyword matches every entry, so filtering by it keeps the whole
/// catalog.
pub proof fn lemma_empty_keyword_keeps_all(apps: Seq<AppInfo>, kw: Seq<char>)
    requires
        kw.len() == 0,
    ensures
        filtered(apps, kw) == apps,
    decreases apps.len(),
{
    if apps.len() > 0 {
        lemma_empty_keyword_keeps_all(apps.drop_last(), kw);
        let name = lower_of(apps.last().name@);
        assert(name.subrange(0, 0) =~= kw);
        assert(occurs_at(name, kw, 0));
        assert(has_substring(name, kw));
        assert(apps.drop_last().push(apps.last()) =~= apps);
    }
}

} // verus!
