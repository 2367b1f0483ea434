//! The directories that the platform's conventions give the current user.
//! They come from the `directories_next` crate, which reads them from the
//! environment. Nothing is proved of these calls, and nothing is claimed of
//! what the environment answers: only that a snapshot, once taken, hands
//! out the directories it holds.

use crate::paths::path_bytes;
use directories_next::{BaseDirs, ProjectDirs};
use std::path::PathBuf;
use vstd::prelude::*;

verus! {

/// `directories_next::BaseDirs`, a snapshot of the user's standard directories.
#[verifier::external_type_specification]
#[verifier::external_body]
pub struct ExBaseDirs(directories_next::BaseDirs);

/// `directories_next::ProjectDirs`, a snapshot of one project's directories.
#[verifier::external_type_specification]
#[verifier::external_body]
pub struct ExProjectDirs(directories_next::ProjectDirs);

/// `BaseDirs::new`: the result depends on the environment, so nothing is
/// claimed of it.
pub assume_specification[ directories_next::BaseDirs::new ]() -> (dirs: Option<BaseDirs>)
;

/// `ProjectDirs::from`: the result depends on the environment, so nothing is
/// claimed of it.
pub assume_specification[ directories_next::ProjectDirs::from ](
    qualifier: &str,
    organization: &str,
    application: &str,
) -> (dirs: Option<ProjectDirs>)
;

/// `BaseDirs::home_dir`, copied into an owned path. Which directory it is
/// was decided when the snapshot was taken, so nothing is claimed of it.
#[verifier::external_body]
pub(crate) fn home_dir_of(dirs: &BaseDirs) -> (home: PathBuf) {
    dirs.home_dir().to_path_buf()
}

/// The bytes of the configuration directory that a `ProjectDirs` holds, as
/// `ProjectDirs::config_dir` hands it out.
pub uninterp spec fn project_config_bytes(dirs: ProjectDirs) -> Seq<u8>;

/// The bytes of the data directory that a `ProjectDirs` holds, as
/// `ProjectDirs::data_dir` hands it out.
pub uninterp spec fn project_data_bytes(dirs: ProjectDirs) -> Seq<u8>;

/// What the platform's answer to a project lookup holds: the bytes of its
/// configuration directory and of its data directory, in that order, or
/// nothing where the platform knows no directories for the current user.
pub open spec fn snapshot_bytes(found: Option<ProjectDirs>) -> Option<(Seq<u8>, Seq<u8>)> {
    match found {
        Some(dirs) => Some((project_config_bytes(dirs), project_data_bytes(dirs))),
        None => None,
    }
}

/// `ProjectDirs::config_dir`, copied into an owned path: the copy holds the
/// bytes of the snapshot's configuration directory. Which directory that is
/// was decided when the snapshot was taken.
#[verifier::external_body]
pub(crate) fn config_dir_of(dirs: &ProjectDirs) -> (dir: PathBuf)
    ensures
        path_bytes(dir) == project_config_bytes(*dirs),
{
    dirs.config_dir().to_path_buf()
}

/// `ProjectDirs::data_dir`, copied into an owned path: the copy holds the
/// bytes of the snapshot's data directory. Which directory that is was
/// decided when the snapshot was taken.
#[verifier::external_body]
pub(crate) fn data_dir_of(dirs: &ProjectDirs) -> (dir: PathBuf)
    ensures
        path_bytes(dir) == project_data_bytes(*dirs),
{
    dirs.data_dir().to_path_buf()
}

} // verus!
