use vstd::prelude::*;

verus! {

/// The catalog sections a user can browse.
#[derive(Clone, Copy, Debug, PartialEq, Eq, Structural)]
pub enum Category {
    All,
    Development,
    Graphics,
    Office,
    Games,
    Multimedia,
    Network,
    Utilities,
}

impl Category {
    /// The label shown to a user for this section.
    pub open spec fn label(self) -> Seq<char> {
        match self {
            Category::All => "All"@,
            Category::Development => "Development"@,
            Category::Graphics => "Graphics"@,
            Category::Office => "Office"@,
            Category::Games => "Games"@,
            Category::Multimedia => "Multimedia"@,
            Category::Network => "Network"@,
            Category::Utilities => "Utilities"@,
        }
    }

    /// The path token the catalog service uses for this section.
    pub open spec fn token(self) -> Seq<char> {
        match self {
            Category::All => "all"@,
            Category::Development => "development"@,
            Category::Graphics => "graphics"@,
            Category::Office => "office"@,
            Category::Games => "games"@,
            Category::Multimedia => "multimedia"@,
            Category::Network => "network"@,
            Category::Utilities => "utilities"@,
        }
    }

    pub fn as_str(self) -> (r: &'static str)
        ensures
            r@ == self.label(),
    {
        match self {
            Category::All => "All",
            Category::Development => "Development",
            Category::Graphics => "Graphics",
            Category::Office => "Office",
            Category::Games => "Games",
            Category::Multimedia => "Multimedia",
            Category::Network => "Network",
            Category::Utilities => "Utilities",
        }
    }

    pub fn to_api_category(self) -> (r: &'static str)
        ensures
            r@ == self.token(),
    {
        match self {
            Category::All => "all",
            Category::Development => "development",
            Category::Graphics => "graphics",
            Category::Office => "office",
            Category::Games => "games",
            Category::Multimedia => "multimedia",
            Category::Network => "network",
            Category::Utilities => "utilities",
        }
    }
}

impl Default for Category {
    fn default() -> (r: Self)
        ensures
            r == Category::All,
    {
        Category::All
    }
}

} // verus!
