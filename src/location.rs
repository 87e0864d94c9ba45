use vstd::prelude::*;

verus! {

/// The name of the application's directory under the base directory.
pub open spec fn app_dir_name() -> Seq<char> {
    "BudgetMaster"@
}

/// The name of the data file inside the application's directory.
pub open spec fn data_file_name() -> Seq<char> {
    "budget-data.json"@
}

/// The base directory used when the platform offers no local-data directory.
pub open spec fn fallback_base() -> Seq<char> {
    "."@
}

/// The view of an optional text.
pub open spec fn opt_text(o: Option<String>) -> Option<Seq<char>> {
    match o {
        Some(s) => Some(s@),
        None => None,
    }
}

/// The views of a list of texts.
pub open spec fn texts(v: Seq<String>) -> Seq<Seq<char>> {
    v.map_values(|s: String| s@)
}

/// The base directory chosen for a platform's local-data directory, if any.
pub open spec fn base_of(platform_dir: Option<Seq<char>>) -> Seq<char> {
    match platform_dir {
        Some(d) => d,
        None => fallback_base(),
    }
}

/// The segments of the application's directory under `base`.
pub open spec fn dir_of(base: Seq<char>) -> Seq<Seq<char>> {
    seq![base, app_dir_name()]
}

/// The segments of the data file under `base`.
pub open spec fn file_of(base: Seq<char>) -> Seq<Seq<char>> {
    dir_of(base).push(data_file_name())
}

/// Where the document is kept: a base directory, below which the
/// application's directory holds the data file.
pub struct DataLocation {
    pub base: String,
}

impl DataLocation {
    /// Chooses the base directory: the platform's local-data directory when
    /// there is one, else the current directory.
    pub fn resolve(platform_dir: Option<String>) -> (r: DataLocation)
        ensures
            r.base@ == base_of(opt_text(platform_dir)),
    {
        match platform_dir {
            Some(d) => DataLocation { base: d },
            None => DataLocation { base: ".".to_owned() },
        }
    }

    /// The segments of the directory that must exist before a write:
    /// the base directory, then the application's directory.
    pub fn dir_segments(&self) -> (r: Vec<String>)
        ensures
            texts(r@) == dir_of(self.base@),
    {
        let mut r: Vec<String> = Vec::new();
        r.push(self.base.clone());
        r.push("BudgetMaster".to_owned());
        assert(texts(r@) =~= dir_of(self.base@));
        r
    }

    /// The segments of the data file: the directory's segments, then the
    /// file's name.
    pub fn file_segments(&self) -> (r: Vec<String>)
        ensures
            texts(r@) == file_of(self.base@),
    {
        let mut r = self.dir_segments();
        r.push("budget-data.json".to_owned());
        assert(texts(r@) =~= file_of(self.base@));
        r
    }
}

/// The data file's location depends on the platform's local-data directory
/// alone: resolving it twice from the same answer gives the same file, and the
/// directory created before a write is the one that holds that file.
pub proof fn lemma_location_stable(first: Option<Seq<char>>, second: Option<Seq<char>>)
    requires
        first == second,
    ensures
        file_of(base_of(first)) == file_of(base_of(second)),
        file_of(base_of(first)).drop_last() == dir_of(base_of(first)),
{
    assert(file_of(base_of(first)).drop_last() =~= dir_of(base_of(first)));
}

} // verus!
