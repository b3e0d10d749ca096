use vstd::prelude::*;
use crate::api::{is_valid_category, urls_of, valid_category, SparkStoreApi};
use crate::catalog::AppInfo;

verus! {

/// Why one attempt against one mirror failed.
#[derive(Clone, Debug, PartialEq, Eq)]
pub enum AttemptError {
    /// The HTTP client could not be set up.
    Client(String),
    /// No answer within the attempt timeout.
    Timeout,
    /// The connection could not be made.
    Connect,
    /// The host name could not be resolved.
    Dns,
    /// Another transport failure, with its description.
    Network(String),
    /// The server answered with a status other than success, as rendered (`404 Not Found`).
    Status(String),
    /// The body was not a list of catalog entries.
    Decode(String),
}

/// What one attempt against one mirror came to.
#[derive(Clone, Debug, PartialEq, Eq)]
pub enum AttemptOutcome {
    Failed(AttemptError),
    Loaded(Vec<AppInfo>),
}

/// Why a fetch failed as a whole.
#[derive(Clone, Debug, PartialEq, Eq)]
pub enum FetchError {
    /// The category holds `..`, `/` or `\`; no mirror was contacted.
    InvalidCategory,
    /// Every mirror was tried and failed.
    AllMirrorsFailed { attempts: usize, last: Option<AttemptError> },
}

/// What the caller of a fetch does next.
#[derive(Debug, PartialEq, Eq)]
pub enum Step {
    /// Send one GET request to this URL, bounded by the attempt timeout, and
    /// report how it went.
    Request(String),
    /// The fetch is over.
    Done(Result<Vec<AppInfo>, FetchError>),
}

/// Position of the first attempt that loaded a list, or `outs.len()` if none did.
pub open spec fn first_loaded(outs: Seq<AttemptOutcome>) -> nat
    decreases outs.len(),
{
    if outs.len() == 0 {
        0
    } else if outs[0] is Loaded {
        0
    } else {
        1 + first_loaded(outs.drop_first())
    }
}

/// Number of mirrors contacted when mirror `i` would answer with `outs[i]`.
pub open spec fn contacted(outs: Seq<AttemptOutcome>) -> nat {
    if first_loaded(outs) < outs.len() {
        first_loaded(outs) + 1
    } else {
        outs.len()
    }
}

/// Result of a fetch over mirrors that would answer with `outs`, in order:
/// the list of the first mirror that loads one, else a failure that counts
/// every mirror and keeps the last cause.
pub open spec fn fetch_result(outs: Seq<AttemptOutcome>) -> Result<Vec<AppInfo>, FetchError> {
    if first_loaded(outs) < outs.len() {
        Ok(outs[first_loaded(outs) as int]->Loaded_0)
    } else {
        Err(
            FetchError::AllMirrorsFailed {
                attempts: outs.len() as usize,
                last: if outs.len() == 0 {
                    None
                } else {
                    Some(outs.last()->Failed_0)
                },
            },
        )
    }
}

/// Every outcome in `outs` is a failure.
pub open spec fn all_failed(outs: Seq<AttemptOutcome>) -> bool {
    forall|i: int| 0 <= i < outs.len() ==> (#[trigger] outs[i]) is Failed
}

pub proof fn lemma_first_loaded_all_failed(outs: Seq<AttemptOutcome>)
    ensures
        all_failed(outs) <==> first_loaded(outs) == outs.len(),
        first_loaded(outs) <= outs.len(),
        forall|i: int| 0 <= i < first_loaded(outs) ==> (#[trigger] outs[i]) is Failed,
        first_loaded(outs) < outs.len() ==> outs[first_loaded(outs) as int] is Loaded,
    decreases outs.len(),
{
    if outs.len() > 0 && outs[0] is Failed {
        let rest = outs.drop_first();
        lemma_first_loaded_all_failed(rest);
        assert forall|i: int| 0 <= i < first_loaded(outs) implies (#[trigger] outs[i]) is Failed by {
            if i > 0 {
                assert(outs[i] == rest[i - 1]);
            }
        }
        if all_failed(outs) {
            assert forall|i: int| 0 <= i < rest.len() implies (#[trigger] rest[i]) is Failed by {
                assert(rest[i] == outs[i + 1]);
            }
        }
        if first_loaded(outs) == outs.len() {
            assert forall|i: int| 0 <= i < outs.len() implies (#[trigger] outs[i]) is Failed by {
                if i > 0 {
                    assert(outs[i] == rest[i - 1]);
                }
            }
        }
    }
}

/// One fetch of one category, run one mirror at a time.
///
/// The session holds the request URLs in mirror order and the outcomes
/// reported so far; whoever drives it performs each requested GET and hands
/// the outcome back.
pub struct FetchSession {
    urls: Vec<String>,
    tried: usize,
    finished: bool,
    history: Ghost<Seq<AttemptOutcome>>,
}

impl FetchSession {
    /// Request URLs, one per mirror, in the order they are tried.
    pub closed spec fn spec_urls(&self) -> Seq<Seq<char>> {
        self.urls@.map_values(|u: String| u@)
    }

    /// Outcomes reported so far, one per mirror contacted, in order.
    pub closed spec fn spec_history(&self) -> Seq<AttemptOutcome> {
        self.history@
    }

    /// A request is out and its outcome is awaited.
    pub closed spec fn awaiting(&self) -> bool {
        !self.finished
    }

    pub closed spec fn wf(&self) -> bool {
        &&& self.history@.len() == self.tried
        &&& self.tried <= self.urls@.len()
        &&& all_failed(self.history@) || (self.finished && first_loaded(self.history@) + 1
            == self.history@.len())
        &&& !self.finished ==> self.tried < self.urls@.len() && all_failed(self.history@)
        &&& self.finished && all_failed(self.history@) ==> self.tried == self.urls@.len()
    }

    pub fn is_awaiting(&self) -> (r: bool)
        ensures
            r == self.awaiting(),
    {
        !self.finished
    }

    /// Record the outcome of the request that is out, and say what to do next:
    /// the next mirror's request after a failure, or the end of the fetch.
    pub fn on_outcome(&mut self, outcome: AttemptOutcome) -> (r: Step)
        requires
            old(self).wf(),
            old(self).awaiting(),
        ensures
            final(self).wf(),
            final(self).spec_urls() == old(self).spec_urls(),
            final(self).spec_history() == old(self).spec_history().push(outcome),
            final(self).awaiting() == (outcome is Failed && final(self).spec_history().len()
                < final(self).spec_urls().len()),
            final(self).awaiting() ==> r is Request && r->Request_0@
                == final(self).spec_urls()[final(self).spec_history().len() as int],
            !final(self).awaiting() ==> r == Step::Done(fetch_result(final(self).spec_history())),
    {
        proof {
            lemma_first_loaded_all_failed(self.history@);
        }
        let n = self.urls.len();
        assert(self.tried < n);
        let ghost prev = self.history@;
        self.history = Ghost(self.history@.push(outcome));
        self.tried = self.tried + 1;
        proof {
            let h = self.history@;
            assert(h.drop_last() == prev);
            lemma_first_loaded_last(prev, outcome);
            lemma_first_loaded_all_failed(h);
        }
        match outcome {
            AttemptOutcome::Loaded(apps) => {
                self.finished = true;
                Step::Done(Ok(apps))
            },
            AttemptOutcome::Failed(e) => {
                if self.tried < n {
                    Step::Request(self.urls[self.tried].clone())
                } else {
                    self.finished = true;
                    Step::Done(
                        Err(FetchError::AllMirrorsFailed { attempts: self.tried, last: Some(e) }),
                    )
                }
            },
        }
    }
}

/// Appending an outcome after failures only.
proof fn lemma_first_loaded_last(prev: Seq<AttemptOutcome>, o: AttemptOutcome)
    requires
        all_failed(prev),
    ensures
        o is Loaded ==> first_loaded(prev.push(o)) == prev.len(),
        all_failed(prev.push(o)) == (o is Failed),
    decreases prev.len(),
{
    let h = prev.push(o);
    if prev.len() > 0 {
        assert(h.drop_first() == prev.drop_first().push(o));
        assert(all_failed(prev.drop_first())) by {
            assert forall|i: int| 0 <= i < prev.drop_first().len() implies (#[trigger] prev.drop_first()[i]) is Failed by {
                assert(prev.drop_first()[i] == prev[i + 1]);
            }
        }
        lemma_first_loaded_last(prev.drop_first(), o);
        assert(h[0] == prev[0]);
    } else {
        assert(h[0] == o);
    }
    if o is Failed {
        assert forall|i: int| 0 <= i < h.len() implies (#[trigger] h[i]) is Failed by {
            if i < prev.len() {
                assert(h[i] == prev[i]);
            }
        }
    } else {
        assert(h[h.len() - 1] == o);
    }
}

impl SparkStoreApi {
    /// Start fetching the application list of `category`.
    ///
    /// An invalid category ends the fetch at once with no request. Otherwise
    /// the first mirror's URL is requested; with no mirrors the fetch fails
    /// having tried none.
    pub fn fetch_app_list(&self, category: &str) -> (r: (FetchSession, Step))
        ensures
            r.0.wf(),
            r.0.spec_history() == Seq::<AttemptOutcome>::empty(),
            !valid_category(category@) ==> r.1 == Step::Done(Err(FetchError::InvalidCategory))
                && !r.0.awaiting(),
            valid_category(category@) ==> r.0.spec_urls() == urls_of(
                self.spec_mirrors(),
                self.spec_arch_dir(),
                category@,
            ),
            valid_category(category@) ==> r.0.awaiting() == (self.spec_mirrors().len() > 0),
            valid_category(category@) && r.0.awaiting() ==> r.1 is Request && r.1->Request_0@
                == r.0.spec_urls()[0],
            valid_category(category@) && !r.0.awaiting() ==> r.1 == Step::Done(
                fetch_result(Seq::<AttemptOutcome>::empty()),
            ),
    {
        let mut urls: Vec<String> = Vec::new();
        if !is_valid_category(category) {
            let s = FetchSession { urls, tried: 0, finished: true, history: Ghost(Seq::empty()) };
            return (s, Step::Done(Err(FetchError::InvalidCategory)));
        }
        let n = self.mirror_count();
        let mut i: usize = 0;
        while i < n
            invariant
                n == self.spec_mirrors().len(),
                i <= n,
                urls@.map_values(|u: String| u@) == urls_of(
                    self.spec_mirrors(),
                    self.spec_arch_dir(),
                    category@,
                ).take(i as int),
            decreases n - i,
        {
            let u = self.mirror_url(i, category);
            proof {
                let want = urls_of(self.spec_mirrors(), self.spec_arch_dir(), category@);
                assert(want.take(i + 1) =~= want.take(i as int).push(u@));
            }
            urls.push(u);
            proof {
                let want = urls_of(self.spec_mirrors(), self.spec_arch_dir(), category@);
                assert(urls@.map_values(|u: String| u@) =~= want.take(i as int).push(u@));
            }
            i = i + 1;
        }
        proof {
            let want = urls_of(self.spec_mirrors(), self.spec_arch_dir(), category@);
            assert(want.take(n as int) =~= want);
            assert(all_failed(Seq::<AttemptOutcome>::empty()));
        }
        if n == 0 {
            let s = FetchSession { urls, tried: 0, finished: true, history: Ghost(Seq::empty()) };
            proof {
                assert(first_loaded(Seq::<AttemptOutcome>::empty()) == 0);
            }
            return (
                s,
                Step::Done(Err(FetchError::AllMirrorsFailed { attempts: 0, last: None })),
            );
        }
        let first = urls[0].clone();
        let s = FetchSession { urls, tried: 0, finished: false, history: Ghost(Seq::empty()) };
        (s, Step::Request(first))
    }
}

} // verus!
