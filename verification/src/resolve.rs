//! Where configuration and data live: the candidate directories in their
//! order of priority, the choice of the first one that exists, and the
//! directories derived from it.
//!
//! Nothing here touches the filesystem. Whether a candidate exists is asked
//! by the caller and handed in as one flag per candidate.

use crate::paths::{join_path, joined_bytes, path_bytes, path_from_str};
use crate::platform::{config_dir_of, data_dir_of, home_dir_of, snapshot_bytes};
use directories_next::{BaseDirs, ProjectDirs};
use std::path::PathBuf;
use vstd::prelude::*;
use vstd::utf8::encode_utf8;

verus! {

/// The configuration directory's place below the user's home directory.
pub const CONFIG_LOCATION: &'static str = ".config/zellij";

/// The system-wide configuration directory.
pub const SYSTEM_DEFAULT_CONFIG_DIR: &'static str = "/etc/zellij";

/// The prefix below which system-wide data is installed.
pub const SYSTEM_DEFAULT_DATA_DIR_PREFIX: &'static str = "/usr";

/// The data directory's place below the system-wide prefix.
pub const SYSTEM_DATA_LOCATION: &'static str = "share/zellij";

/// The name of the layout directory inside a configuration directory.
pub const LAYOUT_DIR_NAME: &'static str = "layouts";

/// The name of the theme directory inside a configuration directory.
pub const THEME_DIR_NAME: &'static str = "themes";

/// The qualifier under which the project's directories are looked up.
pub const PROJECT_QUALIFIER: &'static str = "org";

/// The organization under which the project's directories are looked up.
pub const PROJECT_ORGANIZATION: &'static str = "Zellij Contributors";

/// The application name under which the project's directories are looked up.
pub const PROJECT_APPLICATION: &'static str = "Zellij";

/// The model of a directory candidate: the bytes of its path, or nothing
/// where no location could be determined.
pub open spec fn candidate_bytes(candidate: Option<PathBuf>) -> Option<Seq<u8>> {
    match candidate {
        Some(path) => Some(path_bytes(path)),
        None => None,
    }
}

/// What deriving the subdirectory `name` of a candidate gives: nothing for
/// an absent candidate, else the candidate joined with `name`.
pub open spec fn derived(base: Option<Seq<u8>>, name: Seq<char>) -> Option<Seq<u8>> {
    match base {
        Some(bytes) => Some(joined_bytes(bytes, name)),
        None => None,
    }
}

/// The bytes of the system-wide configuration directory.
pub open spec fn system_config_bytes() -> Seq<u8> {
    encode_utf8(SYSTEM_DEFAULT_CONFIG_DIR@)
}

/// The bytes of the system-wide data directory.
pub open spec fn system_data_bytes() -> Seq<u8> {
    joined_bytes(encode_utf8(SYSTEM_DEFAULT_DATA_DIR_PREFIX@), SYSTEM_DATA_LOCATION@)
}

/// The subdirectory `name` of `base`; absent where `base` is absent.
pub fn derive_subdirectory(base: Option<PathBuf>, name: &str) -> (dir: Option<PathBuf>)
    ensures
        candidate_bytes(dir) == derived(candidate_bytes(base), name@),
{
    match base {
        Some(path) => Some(join_path(&path, name)),
        None => None,
    }
}

/// The layout directory inside the given configuration directory.
pub fn get_layout_dir(config_dir: Option<PathBuf>) -> (dir: Option<PathBuf>)
    ensures
        candidate_bytes(dir) == derived(candidate_bytes(config_dir), LAYOUT_DIR_NAME@),
{
    derive_subdirectory(config_dir, LAYOUT_DIR_NAME)
}

/// The theme directory inside the given configuration directory.
pub fn get_theme_dir(config_dir: Option<PathBuf>) -> (dir: Option<PathBuf>)
    ensures
        candidate_bytes(dir) == derived(candidate_bytes(config_dir), THEME_DIR_NAME@),
{
    derive_subdirectory(config_dir, THEME_DIR_NAME)
}

/// The directories that the platform's conventions give the project: a
/// snapshot, taken once and then only read.
pub struct ProjectPaths {
    /// Where the project's configuration lives.
    pub config_dir: PathBuf,
    /// Where the project's data lives.
    pub data_dir: PathBuf,
}

/// The project's directories as the platform's conventions give them for
/// the current user. What the platform answers is for the platform to say;
/// whatever it answers, the result is what `project_paths` makes of it.
pub fn project_dirs() -> (paths: Option<ProjectPaths>)
    ensures
        exists|found: Option<ProjectDirs>| paths_bytes(paths) == #[trigger] snapshot_bytes(found),
{
    let found = ProjectDirs::from(PROJECT_QUALIFIER, PROJECT_ORGANIZATION, PROJECT_APPLICATION);
    let ghost answer = found;
    let paths = project_paths(found);
    assert(paths_bytes(paths) == snapshot_bytes(answer));
    paths
}

/// The model of the project's directories: the bytes of the configuration
/// directory and of the data directory, in that order, or nothing where
/// there are no directories.
pub open spec fn paths_bytes(paths: Option<ProjectPaths>) -> Option<(Seq<u8>, Seq<u8>)> {
    match paths {
        Some(project) => Some((path_bytes(project.config_dir), path_bytes(project.data_dir))),
        None => None,
    }
}

/// Reads the configuration and the data directory out of the platform's
/// answer: nothing where the platform knows none, else the two directories
/// as the answer holds them.
pub fn project_paths(found: Option<ProjectDirs>) -> (paths: Option<ProjectPaths>)
    ensures
        paths_bytes(paths) == snapshot_bytes(found),
{
    match found {
        Some(dirs) => Some(
            ProjectPaths { config_dir: config_dir_of(&dirs), data_dir: data_dir_of(&dirs) },
        ),
        None => None,
    }
}

/// The platform-conventional configuration directory.
pub fn xdg_config_dir(project: &ProjectPaths) -> (dir: PathBuf)
    ensures
        path_bytes(dir) == path_bytes(project.config_dir),
{
    project.config_dir.clone()
}

/// The platform-conventional data directory.
pub fn xdg_data_dir(project: &ProjectPaths) -> (dir: PathBuf)
    ensures
        path_bytes(dir) == path_bytes(project.data_dir),
{
    project.data_dir.clone()
}

/// The configuration directory below the given home directory: absent
/// where the home directory is, else that directory joined with
/// `CONFIG_LOCATION`.
pub fn config_dir_in_home(home: Option<PathBuf>) -> (dir: Option<PathBuf>)
    ensures
        candidate_bytes(dir) == derived(candidate_bytes(home), CONFIG_LOCATION@),
{
    derive_subdirectory(home, CONFIG_LOCATION)
}

/// The configuration directory below the current user's home directory.
/// Which directory that is, and whether there is one, is for the platform
/// to say; whatever it says, the result is what `config_dir_in_home` makes
/// of it.
pub fn home_config_dir() -> (dir: Option<PathBuf>)
    ensures
        exists|home: Option<Seq<u8>>|
            candidate_bytes(dir) == #[trigger] derived(home, CONFIG_LOCATION@),
{
    let home = match BaseDirs::new() {
        Some(dirs) => Some(home_dir_of(&dirs)),
        None => None,
    };
    let ghost home_bytes = candidate_bytes(home);
    let dir = config_dir_in_home(home);
    dir
}

/// The system-wide configuration directory.
pub fn system_config_dir() -> (dir: PathBuf)
    ensures
        path_bytes(dir) == system_config_bytes(),
{
    path_from_str(SYSTEM_DEFAULT_CONFIG_DIR)
}

/// The system-wide data directory.
pub fn system_data_dir() -> (dir: PathBuf)
    ensures
        path_bytes(dir) == system_data_bytes(),
{
    let prefix = path_from_str(SYSTEM_DEFAULT_DATA_DIR_PREFIX);
    join_path(&prefix, SYSTEM_DATA_LOCATION)
}

/// The candidates for the configuration directory, in the order in which
/// they are tried: the one below the home directory, the
/// platform-conventional one, the system-wide one.
pub fn ordered_candidates(home_config: Option<PathBuf>, xdg_config: PathBuf) -> (dirs: Vec<
    Option<PathBuf>,
>)
    ensures
        dirs@.len() == 3,
        dirs@[0] == home_config,
        dirs@[1] == Some(xdg_config),
        candidate_bytes(dirs@[2]) == Some(system_config_bytes()),
{
    let mut dirs: Vec<Option<PathBuf>> = Vec::new();
    dirs.push(home_config);
    dirs.push(Some(xdg_config));
    dirs.push(Some(system_config_dir()));
    dirs
}

/// Order in which config directories are checked. The list always has the
/// same three places in the same order, whichever of them exist: what
/// `ordered_candidates` makes of the current user's home directory and the
/// project's configuration directory.
pub fn default_config_dirs(project: &ProjectPaths) -> (dirs: Vec<Option<PathBuf>>)
    ensures
        dirs@.len() == 3,
        exists|home: Option<Seq<u8>>|
            candidate_bytes(dirs@[0]) == #[trigger] derived(home, CONFIG_LOCATION@),
        candidate_bytes(dirs@[1]) == Some(path_bytes(project.config_dir)),
        candidate_bytes(dirs@[2]) == Some(system_config_bytes()),
{
    ordered_candidates(home_config_dir(), xdg_config_dir(project))
}

/// Whether the candidate at position `i` is present and was found on disk.
/// A candidate without a flag counts as not found.
pub open spec fn found_at<T>(candidates: Seq<Option<T>>, on_disk: Seq<bool>, i: int) -> bool {
    0 <= i < candidates.len() && i < on_disk.len() && candidates[i] is Some && on_disk[i]
}

/// Whether the candidate at position `i` was found and none before it was.
pub open spec fn is_first_found<T>(candidates: Seq<Option<T>>, on_disk: Seq<bool>, i: int) -> bool {
    found_at(candidates, on_disk, i) && forall|j: int|
        0 <= j < i ==> !found_at(candidates, on_disk, j)
}

/// The first candidate, in the list's order, that is present and was found
/// on disk; nothing where there is none.
pub open spec fn first_existing<T>(candidates: Seq<Option<T>>, on_disk: Seq<bool>) -> Option<T> {
    if exists|i: int| is_first_found(candidates, on_disk, i) {
        candidates[choose|i: int| is_first_found(candidates, on_disk, i)]
    } else {
        None
    }
}

/// Where some candidate is found, one is found first, at that position or
/// before it.
proof fn lemma_least_found<T>(candidates: Seq<Option<T>>, on_disk: Seq<bool>, i: int)
    requires
        found_at(candidates, on_disk, i),
    ensures
        exists|k: int| 0 <= k <= i && is_first_found(candidates, on_disk, k),
    decreases i,
{
    if exists|j: int| 0 <= j < i && found_at(candidates, on_disk, j) {
        let j = choose|j: int| 0 <= j < i && found_at(candidates, on_disk, j);
        lemma_least_found(candidates, on_disk, j);
    } else {
        assert(is_first_found(candidates, on_disk, i));
    }
}

/// The choice is never a candidate later in the order than one that
/// exists: where the candidate at position `i` is present and on disk, the
/// choice is the candidate at a position up to `i`, itself present and on
/// disk, with none such before it.
pub proof fn first_existing_is_earliest<T>(candidates: Seq<Option<T>>, on_disk: Seq<bool>, i: int)
    requires
        found_at(candidates, on_disk, i),
    ensures
        first_existing(candidates, on_disk) is Some,
        exists|k: int|
            0 <= k <= i && is_first_found(candidates, on_disk, k) && first_existing(
                candidates,
                on_disk,
            ) == candidates[k],
{
    lemma_least_found(candidates, on_disk, i);
}

/// Nothing is chosen exactly where no candidate is both present and on disk.
pub proof fn first_existing_is_none_iff<T>(candidates: Seq<Option<T>>, on_disk: Seq<bool>)
    ensures
        first_existing(candidates, on_disk) is None <==> forall|i: int|
            !found_at(candidates, on_disk, i),
{
    if exists|i: int| found_at(candidates, on_disk, i) {
        let i = choose|i: int| found_at(candidates, on_disk, i);
        first_existing_is_earliest(candidates, on_disk, i);
    }
}

/// Goes through the candidates in order and returns the first that is
/// present and exists. `on_disk` says of each candidate, by position,
/// whether it exists.
pub fn find_default_config_dir(candidates: Vec<Option<PathBuf>>, on_disk: &Vec<bool>) -> (found:
    Option<PathBuf>)
    ensures
        found == first_existing(candidates@, on_disk@),
{
    let mut rest = candidates;
    let mut i: usize = 0;
    while i < rest.len()
        invariant
            rest@ == candidates@,
            forall|j: int| 0 <= j < i ==> !found_at(candidates@, on_disk@, j),
        decreases rest@.len() - i,
    {
        if i < on_disk.len() && on_disk[i] && rest[i].is_some() {
            assert(is_first_found(candidates@, on_disk@, i as int));
            return rest.swap_remove(i);
        }
        i += 1;
    }
    None
}

/// The layout directory inside the first candidate that exists.
pub fn default_layout_dir(candidates: Vec<Option<PathBuf>>, on_disk: &Vec<bool>) -> (dir: Option<
    PathBuf,
>)
    ensures
        candidate_bytes(dir) == derived(
            candidate_bytes(first_existing(candidates@, on_disk@)),
            LAYOUT_DIR_NAME@,
        ),
{
    get_layout_dir(find_default_config_dir(candidates, on_disk))
}

/// The theme directory inside the first candidate that exists.
pub fn default_theme_dir(candidates: Vec<Option<PathBuf>>, on_disk: &Vec<bool>) -> (dir: Option<
    PathBuf,
>)
    ensures
        candidate_bytes(dir) == derived(
            candidate_bytes(first_existing(candidates@, on_disk@)),
            THEME_DIR_NAME@,
        ),
{
    get_theme_dir(find_default_config_dir(candidates, on_disk))
}

/// The data directory to use: the first of the platform-conventional and
/// the system-wide data directory that exists, and the
/// platform-conventional one where neither does.
pub open spec fn data_dir_choice(xdg_data: Seq<u8>, xdg_on_disk: bool, system_on_disk: bool) -> Seq<
    u8,
> {
    match first_existing(
        seq![Some(xdg_data), Some(system_data_bytes())],
        seq![xdg_on_disk, system_on_disk],
    ) {
        Some(bytes) => bytes,
        None => xdg_data,
    }
}

/// The choice of the data directory, case by case: the system-wide
/// directory where only that one exists, the platform-conventional one in
/// every other case.
pub proof fn data_dir_choice_by_case(xdg_data: Seq<u8>, xdg_on_disk: bool, system_on_disk: bool)
    ensures
        data_dir_choice(xdg_data, xdg_on_disk, system_on_disk) == if !xdg_on_disk
            && system_on_disk {
            system_data_bytes()
        } else {
            xdg_data
        },
{
    let candidates = seq![Some(xdg_data), Some(system_data_bytes())];
    let on_disk = seq![xdg_on_disk, system_on_disk];
    if xdg_on_disk {
        assert(is_first_found(candidates, on_disk, 0));
    } else if system_on_disk {
        assert(is_first_found(candidates, on_disk, 1));
    } else {
        first_existing_is_none_iff(candidates, on_disk);
    }
}

/// Looks for an existing data directory: the platform-conventional one
/// first, then the system-wide one. Where neither exists, the
/// platform-conventional one is returned all the same, whether or not it
/// is there. The two flags say whether `xdg_data_dir(project)` and
/// `system_data_dir()` exist.
pub fn get_default_data_dir(
    project: &ProjectPaths,
    xdg_on_disk: bool,
    system_on_disk: bool,
) -> (dir: PathBuf)
    ensures
        path_bytes(dir) == data_dir_choice(
            path_bytes(project.data_dir),
            xdg_on_disk,
            system_on_disk,
        ),
        !xdg_on_disk && !system_on_disk ==> path_bytes(dir) == path_bytes(project.data_dir),
{
    proof {
        data_dir_choice_by_case(path_bytes(project.data_dir), xdg_on_disk, system_on_disk);
    }
    if !xdg_on_disk && system_on_disk {
        system_data_dir()
    } else {
        xdg_data_dir(project)
    }
}

} // verus!
