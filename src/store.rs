use vstd::prelude::*;
use vstd::string::StringExecFns;
use crate::api::SparkStoreApi;
use crate::catalog::AppInfo;
use crate::category::Category;

verus! {

/// At most this many entries are shown at once.
pub const MAX_DISPLAYED_APPS: usize = 50;

/// A search starts by itself once the query is at least this many bytes long.
pub const MIN_SEARCH_LENGTH: usize = 2;

/// Length in bytes of a query, as UTF-8.
pub open spec fn byte_len(s: Seq<char>) -> nat {
    vstd::utf8::encode_utf8(s).len()
}

/// What the user did, or what a finished fetch or search brought back.
#[derive(Debug)]
pub enum Message {
    SearchChanged(String),
    CategorySelected(Category),
    AppSelected(String),
    LoadApps,
    AppsLoaded(Result<Vec<AppInfo>, String>),
    SearchApps,
    SearchResults(Result<Vec<AppInfo>, String>),
}

/// Work that the store asks its runner to do after an update.
#[derive(Debug, PartialEq, Eq)]
pub enum Command {
    Nothing,
    /// Fetch the list of this category token and report it as `AppsLoaded`.
    Fetch(String),
    /// Search for this keyword and report it as `SearchResults`.
    Search(String),
    /// Deliver `SearchApps` next.
    StartSearch,
    /// Announce that the named application was selected.
    Announce(String),
}

/// State of the store front.
pub struct Stardust {
    pub search_query: String,
    pub selected_category: Category,
    pub apps: Vec<AppInfo>,
    pub loading: bool,
    pub error_message: Option<String>,
    pub api: SparkStoreApi,
}

impl Stardust {
    /// A store on `api`, browsing every category, with nothing loaded.
    pub fn new(api: SparkStoreApi) -> (r: Self)
        ensures
            r.search_query@.len() == 0,
            r.selected_category == Category::All,
            r.apps@.len() == 0,
            !r.loading,
            r.error_message is None,
            r.api == api,
    {
        Stardust {
            search_query: String::new(),
            selected_category: Category::All,
            apps: Vec::new(),
            loading: false,
            error_message: None,
            api,
        }
    }

    /// Take in a result of a fetch or a search: a list replaces the shown
    /// entries and clears the error; an error is shown and the entries go.
    fn take_result(&mut self, result: Result<Vec<AppInfo>, String>)
        ensures
            !final(self).loading,
            final(self).search_query == old(self).search_query,
            final(self).selected_category == old(self).selected_category,
            final(self).api == old(self).api,
            result is Ok ==> final(self).apps == result->Ok_0 && final(self).error_message is None,
            result is Err ==> final(self).apps@.len() == 0 && final(self).error_message == Some(
                result->Err_0,
            ),
    {
        self.loading = false;
        match result {
            Ok(apps) => {
                self.apps = apps;
                self.error_message = None;
            },
            Err(error) => {
                self.error_message = Some(error);
                self.apps.clear();
            },
        }
    }

    /// Apply one message and say what work follows from it.
    pub fn update(&mut self, message: Message) -> (r: Command)
        ensures
            final(self).api == old(self).api,
            match message {
                Message::SearchChanged(q) => {
                    &&& final(self).search_query == q
                    &&& final(self).selected_category == old(self).selected_category
                    &&& final(self).apps == old(self).apps
                    &&& final(self).loading == old(self).loading
                    &&& final(self).error_message == old(self).error_message
                    &&& r == if byte_len(q@) as usize >= MIN_SEARCH_LENGTH {
                        Command::StartSearch
                    } else {
                        Command::Nothing
                    }
                },
                Message::CategorySelected(c) => {
                    &&& final(self).selected_category == c
                    &&& final(self).search_query@.len() == 0
                    &&& final(self).apps == old(self).apps
                    &&& final(self).loading
                    &&& final(self).error_message is None
                    &&& r is Fetch && r->Fetch_0@ == c.token()
                },
                Message::LoadApps => {
                    &&& final(self).selected_category == old(self).selected_category
                    &&& final(self).search_query == old(self).search_query
                    &&& final(self).apps == old(self).apps
                    &&& final(self).loading
                    &&& final(self).error_message is None
                    &&& r is Fetch && r->Fetch_0@ == old(self).selected_category.token()
                },
                Message::AppsLoaded(result) | Message::SearchResults(result) => {
                    &&& final(self).selected_category == old(self).selected_category
                    &&& final(self).search_query == old(self).search_query
                    &&& !final(self).loading
                    &&& (result is Ok ==> final(self).apps == result->Ok_0
                        && final(self).error_message is None)
                    &&& (result is Err ==> final(self).apps@.len() == 0
                        && final(self).error_message == Some(result->Err_0))
                    &&& r == Command::Nothing
                },
                Message::SearchApps => {
                    &&& final(self).selected_category == old(self).selected_category
                    &&& final(self).search_query == old(self).search_query
                    &&& final(self).apps == old(self).apps
                    &&& if old(self).search_query@.len() == 0 {
                        &&& final(self).loading == old(self).loading
                        &&& final(self).error_message == old(self).error_message
                        &&& r == Command::Nothing
                    } else {
                        &&& final(self).loading
                        &&& final(self).error_message is None
                        &&& r is Search && r->Search_0@ == old(self).search_query@
                    }
                },
                Message::AppSelected(name) => {
                    &&& final(self).selected_category == old(self).selected_category
                    &&& final(self).search_query == old(self).search_query
                    &&& final(self).apps == old(self).apps
                    &&& final(self).loading == old(self).loading
                    &&& final(self).error_message == old(self).error_message
                    &&& r == Command::Announce(name)
                },
            },
    {
        match message {
            Message::SearchChanged(query) => {
                self.search_query = query;
                if self.search_query.as_str().len() >= MIN_SEARCH_LENGTH {
                    Command::StartSearch
                } else {
                    Command::Nothing
                }
            },
            Message::CategorySelected(category) => {
                self.selected_category = category;
                self.search_query = String::new();
                self.loading = true;
                self.error_message = None;
                Command::Fetch(String::from_str(category.to_api_category()))
            },
            Message::LoadApps => {
                self.loading = true;
                self.error_message = None;
                Command::Fetch(String::from_str(self.selected_category.to_api_category()))
            },
            Message::AppsLoaded(result) => {
                self.take_result(result);
                Command::Nothing
            },
            Message::SearchApps => {
                if self.search_query.as_str().is_empty() {
                    return Command::Nothing;
                }
                self.loading = true;
                self.error_message = None;
                Command::Search(self.search_query.clone())
            },
            Message::SearchResults(result) => {
                self.take_result(result);
                Command::Nothing
            },
            Message::AppSelected(app_name) => Command::Announce(app_name),
        }
    }
}

} // verus!
