use vstd::prelude::*;
use vstd::string::StringExecFns;
use crate::catalog::AppInfo;
use crate::text::{contains_char, contains_str, has_substring};

verus! {

/// Seconds that one attempt against one mirror may take.
pub const ATTEMPT_TIMEOUT_SECS: u64 = 30;

/// Architecture directory on the mirrors for a target architecture name
/// (`x86_64`, `aarch64`, `loongarch64`); other architectures use the x86-64 one.
pub open spec fn arch_dir_of(target_arch: Seq<char>) -> Seq<char> {
    if target_arch == "aarch64"@ {
        "arm64-store"@
    } else if target_arch == "loongarch64"@ {
        "loong64-store"@
    } else {
        "amd64-store"@
    }
}

/// A category may not contain `..`, `/` or `\`: it is placed in a request path.
pub open spec fn valid_category(category: Seq<char>) -> bool {
    !has_substring(category, ".."@) && !category.contains('/') && !category.contains('\\')
}

/// `base + arch_dir + "/" + category + "/applist.json"`.
pub open spec fn url_of(base: Seq<char>, arch_dir: Seq<char>, category: Seq<char>) -> Seq<char> {
    base + arch_dir + "/"@ + category + "/applist.json"@
}

/// The request URL of every mirror, in mirror order.
pub open spec fn urls_of(mirrors: Seq<Seq<char>>, arch_dir: Seq<char>, category: Seq<char>) -> Seq<
    Seq<char>,
> {
    Seq::new(mirrors.len(), |i: int| url_of(mirrors[i], arch_dir, category))
}

/// Catalog client configuration: mirrors in priority order and the
/// architecture directory, both fixed at construction.
#[derive(Clone)]
pub struct SparkStoreApi {
    mirrors: Vec<String>,
    arch_dir: String,
}

/// Whether two strings hold the same characters.
fn text_eq(a: &str, b: &str) -> (r: bool)
    ensures
        r == (a@ == b@),
{
    let x = String::from_str(a);
    let y = String::from_str(b);
    x.eq(&y)
}

impl SparkStoreApi {
    /// Mirror base URLs, in the order they are tried.
    pub closed spec fn spec_mirrors(&self) -> Seq<Seq<char>> {
        self.mirrors@.map_values(|m: String| m@)
    }

    /// The architecture directory queried on every mirror.
    pub closed spec fn spec_arch_dir(&self) -> Seq<char> {
        self.arch_dir@
    }

    /// A client over the default mirrors, for the named target architecture.
    pub fn new(target_arch: &str) -> (r: Self)
        ensures
            r.spec_mirrors() == seq![
                "https://mirrors.sdu.edu.cn/spark-store-repository/"@,
                "https://mirrors.sdu.edu.cn/spark-store/"@,
                "https://gitee.com/spark-store-project/spark-store/raw/master/"@,
            ],
            r.spec_arch_dir() == arch_dir_of(target_arch@),
    {
        let mut mirrors: Vec<String> = Vec::new();
        mirrors.push(String::from_str("https://mirrors.sdu.edu.cn/spark-store-repository/"));
        mirrors.push(String::from_str("https://mirrors.sdu.edu.cn/spark-store/"));
        mirrors.push(
            String::from_str("https://gitee.com/spark-store-project/spark-store/raw/master/"),
        );
        let r = Self::with_mirrors(mirrors, target_arch);
        assert(r.spec_mirrors() =~= seq![
            "https://mirrors.sdu.edu.cn/spark-store-repository/"@,
            "https://mirrors.sdu.edu.cn/spark-store/"@,
            "https://gitee.com/spark-store-project/spark-store/raw/master/"@,
        ]);
        r
    }

    /// A client over the given mirrors, tried in the order given.
    pub fn with_mirrors(mirrors: Vec<String>, target_arch: &str) -> (r: Self)
        ensures
            r.spec_mirrors() == mirrors@.map_values(|m: String| m@),
            r.spec_arch_dir() == arch_dir_of(target_arch@),
    {
        let arch_dir = if text_eq(target_arch, "aarch64") {
            "arm64-store"
        } else if text_eq(target_arch, "loongarch64") {
            "loong64-store"
        } else {
            "amd64-store"
        };
        SparkStoreApi { mirrors, arch_dir: String::from_str(arch_dir) }
    }

    pub fn mirror_count(&self) -> (r: usize)
        ensures
            r == self.spec_mirrors().len(),
    {
        self.mirrors.len()
    }

    /// The request URL for mirror `i` and `category`.
    pub fn mirror_url(&self, i: usize, category: &str) -> (r: String)
        requires
            i < self.spec_mirrors().len(),
        ensures
            r@ == url_of(self.spec_mirrors()[i as int], self.spec_arch_dir(), category@),
    {
        let mut url = self.mirrors[i].clone();
        url.append(self.arch_dir.as_str());
        url.append("/");
        url.append(category);
        url.append("/applist.json");
        url
    }
}

/// Whether `category` may be placed in a request path.
pub fn is_valid_category(category: &str) -> (r: bool)
    ensures
        r == valid_category(category@),
{
    !contains_str(category, "..") && !contains_char(category, '/') && !contains_char(category, '\\')
}

} // verus!
