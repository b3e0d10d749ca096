use vstd::prelude::*;

verus! {

/// One application listed by the catalog service.
///
/// `name` and `desc` are always present; every other field is `None` when
/// the service left it out, which is not the same as an empty string.
#[derive(Clone, Debug, PartialEq, Eq)]
pub struct AppInfo {
    pub name: String,
    pub desc: String,
    pub tagname: Option<String>,
    pub contributor: Option<String>,
    pub author: Option<String>,
    pub more: Option<String>,
    pub pkg: Option<String>,
    pub ver: Option<String>,
}

} // verus!
