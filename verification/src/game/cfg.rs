//! The configuration of a game.

use vstd::prelude::*;
use vstd::string::StringExecFns;

verus! {

/// `std::path::PathBuf`, declared so that [`Cfg`] can hold paths. Nothing is
/// claimed of it: the library carries paths and never looks into them.
#[verifier::external_type_specification]
#[verifier::external_body]
pub struct ExPathBuf(std::path::PathBuf);

/// Where the scenes of a game are and where it starts.
#[derive(Debug, PartialEq, Eq, Hash)]
pub struct Cfg {
    /// The scenes that should exist in the scenes directory.
    pub scene_list: Vec<String>,
    /// Where the scene files are, below `root`.
    pub scenes: std::path::PathBuf,
    /// Where saved games go.
    pub saves: std::path::PathBuf,
    /// The scene in which a game starts.
    pub primary_scene: String,
    /// The directory that the configuration was read from.
    pub root: std::path::PathBuf,
}

/// The name of the file that holds the scene called `name`: the name with
/// `.yaml` behind it. The file lies in the directory `scenes` below `root`.
pub open spec fn scene_file_name(name: Seq<char>) -> Seq<char> {
    name + ".yaml"@
}

impl Cfg {
    /// The name of the file that holds the scene called `name`.
    pub fn scene_file(name: &str) -> (file: String)
        ensures
            file@ == scene_file_name(name@),
    {
        let mut file = String::from_str(name);
        file.append(".yaml");
        file
    }
}

} // verus!
