use std::collections::hash_map::RandomState;
use vstd::prelude::*;

use crate::commands::HiveLocation;
use crate::keys::Key;
use crate::node::{Name, Target};
use crate::text::{file_name, file_name_of, opt_text, parent_of, path_join, path_joined, path_parent};

verus! {

/// A node of the hive: how it is reached and deployed.
#[derive(Debug)]
pub struct Node {
    pub target: Target,
    pub build_remotely: bool,
    pub allow_local_deployment: bool,
    pub tags: im::HashSet<String, RandomState>,
    pub keys: Vec<Key>,
    pub host_platform: String,
}

/// A hive: its nodes, each under its name, and the schema it was written in.
#[derive(Debug)]
pub struct Hive {
    pub nodes: Vec<(Name, Node)>,
    pub schema: u32,
}

impl Hive {
    /// Each node name occurs once, as in the map of nodes that the hive
    /// file declares.
    pub open spec fn wf(&self) -> bool {
        forall|i: int, j: int|
            0 <= i < j < self.nodes@.len() ==> #[trigger] node_names(self.nodes@)[i] != #[trigger] node_names(
                self.nodes@,
            )[j]
    }
}

/// The schema that this library reads.
pub const SCHEMA_VERSION: u32 = 0;

/// Why the schema of a hive was refused.
pub open spec fn schema_mismatch_message() -> Seq<char> {
    "Version mismatch for Hive. Please ensure the binary and your wire input match!"@
}

/// Accepts a hive's schema version only if it is the one this library reads.
pub fn check_schema_version(version: u32) -> (res: Result<u32, String>)
    ensures
        version == SCHEMA_VERSION ==> res == Ok::<u32, String>(version),
        version != SCHEMA_VERSION ==> (res matches Err(e) && e@ == schema_mismatch_message()),
{
    if version != SCHEMA_VERSION {
        return Err(String::from_str("Version mismatch for Hive. Please ensure the binary and your wire input match!"));
    }
    Ok(version)
}

/// The names of the nodes, in order.
pub open spec fn node_names(nodes: Seq<(Name, Node)>) -> Seq<Seq<char>> {
    nodes.map_values(|e: (Name, Node)| e.0.0@)
}

/// The build-on-target flag of each node, in order.
pub open spec fn build_flags(nodes: Seq<(Name, Node)>) -> Seq<bool> {
    nodes.map_values(|e: (Name, Node)| e.1.build_remotely)
}

/// The flags after forcing local builds for `forced`, in order, up to the
/// first name that has no node; that name is returned as the error.
pub open spec fn forced_flags(names: Seq<Seq<char>>, flags: Seq<bool>, forced: Seq<Seq<char>>) -> (Seq<bool>, Option<Seq<char>>)
    decreases forced.len(),
{
    if forced.len() == 0 {
        (flags, None)
    } else {
        let (before, err) = forced_flags(names, flags, forced.drop_last());
        match err {
            Some(e) => (before, Some(e)),
            None => {
                let name = forced.last();
                if names.contains(name) {
                    (Seq::new(before.len(), |i: int| if names[i] == name { false } else { before[i] }), None)
                } else {
                    (before, Some(name))
                }
            },
        }
    }
}

/// Once a forced name has no node, later names change nothing.
pub proof fn lemma_forced_error_sticks(names: Seq<Seq<char>>, flags: Seq<bool>, forced: Seq<Seq<char>>, m: int, n: int)
    requires
        0 <= m <= n <= forced.len(),
        forced_flags(names, flags, forced.take(m)).1 is Some,
    ensures
        forced_flags(names, flags, forced.take(n)) == forced_flags(names, flags, forced.take(m)),
    decreases n - m,
{
    if n > m {
        lemma_forced_error_sticks(names, flags, forced, m, n - 1);
        assert(forced.take(n).drop_last() =~= forced.take(n - 1));
    }
}

/// Forcing local builds, when every forced name has a node, makes exactly
/// the forced nodes build locally and leaves every other node as it was.
pub proof fn forcing_builds_locally(names: Seq<Seq<char>>, flags: Seq<bool>, forced: Seq<Seq<char>>)
    requires
        flags.len() == names.len(),
        forced_flags(names, flags, forced).1 is None,
    ensures
        forced_flags(names, flags, forced).0.len() == names.len(),
        forall|i: int| 0 <= i < names.len() ==> {
            &&& forced.contains(names[i]) ==> !(#[trigger] forced_flags(names, flags, forced).0[i])
            &&& !forced.contains(names[i]) ==> forced_flags(names, flags, forced).0[i] == flags[i]
        },
    decreases forced.len(),
{
    if forced.len() > 0 {
        let prev = forced.drop_last();
        forcing_builds_locally(names, flags, prev);
        let name = forced.last();
        let before = forced_flags(names, flags, prev).0;
        assert forall|i: int| 0 <= i < names.len() implies {
            &&& forced.contains(names[i]) ==> !(#[trigger] forced_flags(names, flags, forced).0[i])
            &&& !forced.contains(names[i]) ==> forced_flags(names, flags, forced).0[i] == flags[i]
        } by {
            if forced.contains(names[i]) && names[i] != name {
                let j = choose|j: int| 0 <= j < forced.len() && forced[j] == names[i];
                assert(prev[j] == names[i]);
            }
            if !forced.contains(names[i]) {
                if prev.contains(names[i]) {
                    let j = choose|j: int| 0 <= j < prev.len() && prev[j] == names[i];
                }
            }
        }
    }
}

/// Why forcing a local build failed: the node does not exist.
#[derive(Debug)]
pub enum ForceLocalError {
    NodeDoesNotExist(String),
}

impl Hive {
    /// Forces a local build for each of `nodes`, in order. Fails at the first
    /// name that has no node, after forcing the names before it.
    pub fn force_always_local(&mut self, nodes: Vec<String>) -> (res: Result<(), ForceLocalError>)
        ensures
            old(self).wf() ==> final(self).wf(),
            node_names(final(self).nodes@) == node_names(old(self).nodes@),
            final(self).schema == old(self).schema,
            build_flags(final(self).nodes@) == forced_flags(
                node_names(old(self).nodes@),
                build_flags(old(self).nodes@),
                nodes@.map_values(|n: String| n@),
            ).0,
            match forced_flags(node_names(old(self).nodes@), build_flags(old(self).nodes@), nodes@.map_values(|n: String| n@)).1 {
                Some(missing) => res matches Err(ForceLocalError::NodeDoesNotExist(n)) && n@ == missing,
                None => res is Ok,
            },
    {
        let ghost names = node_names(self.nodes@);
        let ghost forced = nodes@.map_values(|n: String| n@);
        let mut k: usize = 0;
        while k < nodes.len()
            invariant
                0 <= k <= nodes@.len(),
                names == node_names(old(self).nodes@),
                forced == nodes@.map_values(|n: String| n@),
                node_names(self.nodes@) == names,
                self.schema == old(self).schema,
                build_flags(self.nodes@) == forced_flags(names, build_flags(old(self).nodes@), forced.take(k as int)).0,
                forced_flags(names, build_flags(old(self).nodes@), forced.take(k as int)).1 is None,
            decreases nodes@.len() - k,
        {
            let name = &nodes[k];
            proof {
                assert(forced.take(k + 1).drop_last() =~= forced.take(k as int));
            }
            let mut found = false;
            let mut i: usize = 0;
            let ghost flags_before = build_flags(self.nodes@);
            while i < self.nodes.len()
                invariant
                    0 <= i <= self.nodes@.len(),
                    node_names(self.nodes@) == names,
                    self.schema == old(self).schema,
                    flags_before.len() == names.len(),
                    found == (exists|j: int| 0 <= j < i && names[j] == name@),
                    forall|j: int| 0 <= j < i ==> #[trigger] build_flags(self.nodes@)[j] == if names[j] == name@ {
                        false
                    } else {
                        flags_before[j]
                    },
                    forall|j: int| i <= j < names.len() ==> #[trigger] build_flags(self.nodes@)[j] == flags_before[j],
                decreases self.nodes@.len() - i,
            {
                if self.nodes[i].0.0 == *name {
                    let ghost before = self.nodes@;
                    let mut entry = self.nodes.remove(i);
                    entry.1.build_remotely = false;
                    self.nodes.insert(i, entry);
                    proof {
                        assert(build_flags(self.nodes@) =~= build_flags(before).update(i as int, false));
                    }
                    found = true;
                }
                proof {
                    assert(build_flags(self.nodes@)[i as int] == if names[i as int] == name@ { false } else { flags_before[i as int] });
                    assert(forall|j: int|
                        0 <= j < i + 1 ==> #[trigger] build_flags(self.nodes@)[j] == if names[j] == name@ {
                            false
                        } else {
                            flags_before[j]
                        });
                }
                i = i + 1;
            }
            if !found {
                proof {
                    lemma_forced_error_sticks(names, build_flags(old(self).nodes@), forced, k + 1, forced.len() as int);
                    assert(forced.take(forced.len() as int) =~= forced);
                }
                return Err(ForceLocalError::NodeDoesNotExist(name.clone()));
            }
            k = k + 1;
        }
        proof {
            assert(forced.take(nodes@.len() as int) =~= forced);
        }
        Ok(())
    }
}

/// How nix read the text given as the hive's location, as a flake
/// reference.
#[derive(Debug)]
pub enum FlakeRefParse {
    /// Not a URL: read as a path.
    UrlParseError,
    /// Refused for another reason, given.
    Malformed(String),
    /// A path reference, to the path given.
    Path(String),
    /// A reference to a git, GitHub, GitLab, tarball, Mercurial or
    /// SourceHut flake.
    Remote,
    /// A reference of a kind that a hive cannot be, displayed.
    Unsupported(String),
}

/// Why no hive location was found.
#[derive(Debug)]
pub enum HiveLocationError {
    MalformedPath(String),
    Malformed(String),
    TypeUnsupported(String),
}

/// The model of a refusal.
pub enum LocationErrorView {
    MalformedPath(Seq<char>),
    Malformed(Seq<char>),
    TypeUnsupported(Seq<char>),
}

impl HiveLocationError {
    pub open spec fn view(&self) -> LocationErrorView {
        match self {
            HiveLocationError::MalformedPath(p) => LocationErrorView::MalformedPath(p@),
            HiveLocationError::Malformed(e) => LocationErrorView::Malformed(e@),
            HiveLocationError::TypeUnsupported(r) => LocationErrorView::TypeUnsupported(r@),
        }
    }
}

/// The model of a found location.
pub open spec fn location_view(l: HiveLocation) -> (bool, Seq<char>) {
    match l {
        HiveLocation::Flake(uri) => (true, uri@),
        HiveLocation::HiveNix(path) => (false, path@),
    }
}

/// The directory whose `flake.nix` decides where the hive is, if any: the
/// path that the reference names, unless it names `hive.nix` itself.
pub open spec fn directory_to_check(path: Seq<char>, flakeref: FlakeRefParse) -> Option<Seq<char>> {
    let p = match flakeref {
        FlakeRefParse::UrlParseError => Some(path),
        FlakeRefParse::Path(p) => Some(p@),
        _ => None,
    };
    match p {
        Some(p) => match file_name_of(p) {
            Some(n) => if n == "hive.nix"@ { None } else { Some(p) },
            None => None,
        },
        None => None,
    }
}

/// The location for a path: a `hive.nix` file is used as it is; in a
/// directory, a `flake.nix` comes before `hive.nix`; a path without a file
/// name is malformed.
pub open spec fn path_location(p: Seq<char>, has_flake_nix: bool) -> Result<(bool, Seq<char>), Seq<char>> {
    match file_name_of(p) {
        Some(n) => if n == "hive.nix"@ {
            Ok((false, p))
        } else if has_flake_nix {
            Ok((true, path_joined(p, "flake.nix"@)))
        } else {
            Ok((false, path_joined(p, "hive.nix"@)))
        },
        None => Err(p),
    }
}

/// Where the hive named by `path` is: a remote flake reference is used as
/// given; a path is looked up as `path_location` says; other references are
/// refused.
pub open spec fn hive_location(path: Seq<char>, flakeref: FlakeRefParse, has_flake_nix: bool) -> Result<(bool, Seq<char>), LocationErrorView> {
    match flakeref {
        FlakeRefParse::UrlParseError => match path_location(path, has_flake_nix) {
            Ok(l) => Ok(l),
            Err(p) => Err(LocationErrorView::MalformedPath(p)),
        },
        FlakeRefParse::Path(p) => match path_location(p@, has_flake_nix) {
            Ok(l) => Ok(l),
            Err(q) => Err(LocationErrorView::MalformedPath(q)),
        },
        FlakeRefParse::Malformed(e) => Err(LocationErrorView::Malformed(e@)),
        FlakeRefParse::Remote => Ok((true, path)),
        FlakeRefParse::Unsupported(r) => Err(LocationErrorView::TypeUnsupported(r@)),
    }
}

/// A flake always comes before `hive.nix`: a directory that holds a
/// `flake.nix` is deployed from its flake, whether it also holds a
/// `hive.nix` or not.
pub proof fn flake_comes_before_hive_nix(path: Seq<char>, flakeref: FlakeRefParse)
    requires
        flakeref is UrlParseError || flakeref is Path,
        directory_to_check(path, flakeref) is Some,
    ensures
        hive_location(path, flakeref, true) == Ok::<(bool, Seq<char>), LocationErrorView>(
            (true, path_joined(directory_to_check(path, flakeref)->0, "flake.nix"@)),
        ),
{
}

/// The location model of a result.
pub open spec fn result_view(r: Result<HiveLocation, HiveLocationError>) -> Result<(bool, Seq<char>), LocationErrorView> {
    match r {
        Ok(l) => Ok(location_view(l)),
        Err(e) => Err(e.view()),
    }
}

/// The directory whose `flake.nix` the caller looks for before `find_hive`.
pub fn hive_directory_candidate(path: &String, flakeref: &FlakeRefParse) -> (res: Option<String>)
    ensures
        opt_text(res) == directory_to_check(path@, *flakeref),
{
    let p = match flakeref {
        FlakeRefParse::UrlParseError => path.clone(),
        FlakeRefParse::Path(p) => p.clone(),
        _ => return None,
    };
    match file_name(p.as_str()) {
        Some(n) => {
            if n == String::from_str("hive.nix") {
                None
            } else {
                Some(p)
            }
        },
        None => None,
    }
}

/// The location for the path `p`.
fn path_to_location(p: String, has_flake_nix: bool) -> (res: Result<HiveLocation, HiveLocationError>)
    ensures
        result_view(res) == match path_location(p@, has_flake_nix) {
            Ok(l) => Ok(l),
            Err(q) => Err(LocationErrorView::MalformedPath(q)),
        },
{
    match file_name(p.as_str()) {
        Some(n) => {
            if n == String::from_str("hive.nix") {
                Ok(HiveLocation::HiveNix(p))
            } else if has_flake_nix {
                Ok(HiveLocation::Flake(path_join(p.as_str(), "flake.nix")))
            } else {
                Ok(HiveLocation::HiveNix(path_join(p.as_str(), "hive.nix")))
            }
        },
        None => Err(HiveLocationError::MalformedPath(p)),
    }
}

/// Finds the hive named by `path`, given how nix read it as a flake
/// reference (`flakeref`) and whether the candidate directory holds a
/// `flake.nix` (`has_flake_nix`; see `hive_directory_candidate`).
pub fn find_hive(path: String, flakeref: FlakeRefParse, has_flake_nix: bool) -> (res: Result<HiveLocation, HiveLocationError>)
    ensures
        result_view(res) == hive_location(path@, flakeref, has_flake_nix),
{
    match flakeref {
        FlakeRefParse::UrlParseError => path_to_location(path, has_flake_nix),
        FlakeRefParse::Path(p) => path_to_location(p, has_flake_nix),
        FlakeRefParse::Malformed(e) => Err(HiveLocationError::Malformed(e)),
        FlakeRefParse::Remote => Ok(HiveLocation::Flake(path)),
        FlakeRefParse::Unsupported(r) => Err(HiveLocationError::TypeUnsupported(r)),
    }
}


/// What one step of the search for a hive upwards from a directory finds.
#[derive(Debug)]
pub enum HiveSearch {
    /// The hive file, at this path.
    Found(String),
    /// Nothing here: search the parent directory, at this path.
    Parent(String),
    /// Nothing here, and no parent: there is no hive.
    NotFound,
}

/// The model of a step of the search for a hive.
pub enum HiveSearchView {
    Found(Seq<char>),
    Parent(Seq<char>),
    NotFound,
}

/// The step of the search for a hive in `dir`, where `hive_nix_is_file` and
/// `flake_nix_is_file` say whether `hive.nix` and `flake.nix` there are
/// files: `hive.nix` comes first, then `flake.nix`, then the parent.
pub open spec fn search_step(dir: Seq<char>, hive_nix_is_file: bool, flake_nix_is_file: bool) -> HiveSearchView {
    if hive_nix_is_file {
        HiveSearchView::Found(path_joined(dir, "hive.nix"@))
    } else if flake_nix_is_file {
        HiveSearchView::Found(path_joined(dir, "flake.nix"@))
    } else {
        match parent_of(dir) {
            Some(parent) => HiveSearchView::Parent(parent),
            None => HiveSearchView::NotFound,
        }
    }
}

impl HiveSearch {
    pub open spec fn view(&self) -> HiveSearchView {
        match self {
            HiveSearch::Found(p) => HiveSearchView::Found(p@),
            HiveSearch::Parent(p) => HiveSearchView::Parent(p@),
            HiveSearch::NotFound => HiveSearchView::NotFound,
        }
    }
}

/// The step of the search for a hive in `dir`: `hive.nix` comes first, then
/// `flake.nix`, then the parent directory.
pub fn search_hive_in(dir: &str, hive_nix_is_file: bool, flake_nix_is_file: bool) -> (res: HiveSearch)
    ensures
        res.view() == search_step(dir@, hive_nix_is_file, flake_nix_is_file),
{
    if hive_nix_is_file {
        return HiveSearch::Found(path_join(dir, "hive.nix"));
    }
    if flake_nix_is_file {
        return HiveSearch::Found(path_join(dir, "flake.nix"));
    }
    match path_parent(dir) {
        Some(parent) => HiveSearch::Parent(parent),
        None => HiveSearch::NotFound,
    }
}

} // verus!
