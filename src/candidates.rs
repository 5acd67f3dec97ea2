use vstd::prelude::*;

verus! {

/// The places a file may be saved to, in the order they are tried.
#[derive(PartialEq, Eq, Structural, Clone, Copy, Debug)]
pub enum Location {
    /// The process's current working directory.
    WorkingDir,
    /// The `Desktop` folder under the user's home directory.
    Desktop,
    /// The `Downloads` folder under the user's home directory.
    Downloads,
}

/// Why one candidate did not receive the file.
#[derive(PartialEq, Eq, Structural, Clone, Copy, Debug)]
pub enum Failure {
    /// The current working directory could not be determined.
    WorkingDirectoryUnresolved,
    /// Neither home-directory variable is set.
    HomeDirectoryUnresolved,
    /// The candidate's parent directory could not be created.
    DirectoryCreateFailed,
    /// Writing the file itself failed.
    WriteFailed,
}

/// The folder below the root that a location adds, if any.
pub open spec fn subdir_of(loc: Location) -> Option<Seq<char>> {
    match loc {
        Location::WorkingDir => None,
        Location::Desktop => Some("Desktop"@),
        Location::Downloads => Some("Downloads"@),
    }
}

impl Location {
    /// The folder joined onto the root directory for this location.
    pub fn subdir(&self) -> (r: Option<String>)
        ensures
            match r {
                Some(s) => subdir_of(*self) == Some(s@),
                None => subdir_of(*self) is None,
            },
    {
        match self {
            Location::WorkingDir => None,
            Location::Desktop => Some("Desktop".to_string()),
            Location::Downloads => Some("Downloads".to_string()),
        }
    }
}

/// A resolved save target: `root`, then the location's folder, then `filename`.
#[derive(Debug)]
pub struct Candidate {
    pub location: Location,
    pub root: String,
    pub filename: String,
}

/// What a candidate stands for, as plain values.
pub struct CandidateView {
    pub location: Location,
    pub root: Seq<char>,
    pub filename: Seq<char>,
}

impl View for Candidate {
    type V = CandidateView;

    open spec fn view(&self) -> CandidateView {
        CandidateView { location: self.location, root: self.root@, filename: self.filename@ }
    }
}

impl Candidate {
    /// An independent copy of this candidate.
    pub fn duplicate(&self) -> (r: Candidate)
        ensures
            r@ == self@,
    {
        Candidate {
            location: self.location,
            root: self.root.clone(),
            filename: self.filename.clone(),
        }
    }
}

/// The characters of an optional string.
pub open spec fn opt_chars(s: Option<String>) -> Option<Seq<char>> {
    match s {
        Some(t) => Some(t@),
        None => None,
    }
}

/// The home directory: `HOME` when set, else `USERPROFILE`.
pub open spec fn home_of(home: Option<Seq<char>>, user_profile: Option<Seq<char>>) -> Option<
    Seq<char>,
> {
    match home {
        Some(h) => Some(h),
        None => user_profile,
    }
}

/// Picks the home directory from the values of `HOME` and `USERPROFILE`.
pub fn resolve_home(home: Option<String>, user_profile: Option<String>) -> (r: Option<String>)
    ensures
        opt_chars(r) == home_of(opt_chars(home), opt_chars(user_profile)),
{
    match home {
        Some(h) => Some(h),
        None => user_profile,
    }
}

/// The candidate for `loc` under `root`, or the failure of resolving `root`.
pub open spec fn target_of(loc: Location, root: Option<Seq<char>>, filename: Seq<char>) -> Result<
    CandidateView,
    Failure,
> {
    match root {
        Some(r) => Ok(CandidateView { location: loc, root: r, filename }),
        None => Err(
            if loc == Location::WorkingDir {
                Failure::WorkingDirectoryUnresolved
            } else {
                Failure::HomeDirectoryUnresolved
            },
        ),
    }
}

/// The ordered targets: working directory, then Desktop, then Downloads.
pub open spec fn targets_of(
    filename: Seq<char>,
    cwd: Option<Seq<char>>,
    home: Option<Seq<char>>,
) -> Seq<Result<CandidateView, Failure>> {
    seq![
        target_of(Location::WorkingDir, cwd, filename),
        target_of(Location::Desktop, home, filename),
        target_of(Location::Downloads, home, filename),
    ]
}

/// The view of each target.
pub open spec fn target_views(t: Seq<Result<Candidate, Failure>>) -> Seq<Result<CandidateView, Failure>> {
    t.map_values(
        |x: Result<Candidate, Failure>|
            match x {
                Ok(c) => Ok(c@),
                Err(f) => Err(f),
            },
    )
}

/// Viewing the targets keeps their number, their order and their failures.
pub proof fn lemma_target_views(t: Seq<Result<Candidate, Failure>>)
    ensures
        target_views(t).len() == t.len(),
        forall|k: int|
            0 <= k < t.len() ==> #[trigger] target_views(t)[k] == match t[k] {
                Ok(c) => Ok::<CandidateView, Failure>(c@),
                Err(f) => Err::<CandidateView, Failure>(f),
            },
{
}

fn make_target(loc: Location, root: &Option<String>, filename: &String) -> (r: Result<
    Candidate,
    Failure,
>)
    ensures
        match r {
            Ok(c) => target_of(loc, opt_chars(*root), filename@) == Ok::<CandidateView, Failure>(c@),
            Err(f) => target_of(loc, opt_chars(*root), filename@) == Err::<CandidateView, Failure>(f),
        },
{
    match root {
        Some(d) => Ok(Candidate { location: loc, root: d.clone(), filename: filename.clone() }),
        None => Err(
            if loc == Location::WorkingDir {
                Failure::WorkingDirectoryUnresolved
            } else {
                Failure::HomeDirectoryUnresolved
            },
        ),
    }
}

/// Builds the ordered list of save targets for `filename`.
pub fn build_targets(filename: &String, cwd: &Option<String>, home: &Option<String>) -> (r: Vec<
    Result<Candidate, Failure>,
>)
    ensures
        target_views(r@) == targets_of(filename@, opt_chars(*cwd), opt_chars(*home)),
{
    let mut v: Vec<Result<Candidate, Failure>> = Vec::new();
    v.push(make_target(Location::WorkingDir, cwd, filename));
    v.push(make_target(Location::Desktop, home, filename));
    v.push(make_target(Location::Downloads, home, filename));
    assert(target_views(v@) =~= targets_of(filename@, opt_chars(*cwd), opt_chars(*home)));
    v
}

} // verus!
