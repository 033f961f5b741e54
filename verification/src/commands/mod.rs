use vstd::prelude::*;

use crate::constants::{ARCHIVED_CACHE_DIR_NAME, BUILD_DIR_NAME};
use crate::commands::download::{starts_download_stage, DownloadAction, DownloadStage};
use crate::commands::upload::{starts_upload_stage, UploadAction, UploadStage};
use crate::utils::opt_str_view;
use crate::vercel::remote_client::RemoteClientView;
use crate::Error;

pub mod download;
pub mod upload;

verus! {

/// What the outside work of one stage of a command reported.
#[derive(Debug, Clone, PartialEq, Eq)]
pub enum StageOutcome {
    /// The work was done.
    Done,
    /// What the stage looked for is not there.
    Absent,
    /// The work failed with this error.
    Failed(Error),
}

/// A directory that a command reads or writes.
#[derive(Debug, Clone, Copy, PartialEq, Eq)]
pub enum Dir {
    /// The build directory of the project (`BUILD_DIR_NAME` in the project
    /// directory).
    ProjectBuild,
    /// The local cache directory of the project.
    Cache,
    /// The scratch directory of the command.
    Work,
    /// The build directory inside the scratch directory (`BUILD_DIR_NAME`).
    WorkBuild,
    /// The cache inside the scratch directory (`ARCHIVED_CACHE_DIR_NAME`).
    WorkCache,
}

/// Whether `dir` lies in the scratch directory of the command.
pub open spec fn is_scratch(dir: Dir) -> bool {
    dir is Work || dir is WorkBuild || dir is WorkCache
}

/// A directory whose place on disk the caller learns while a command runs.
#[derive(Debug, Clone, Copy, PartialEq, Eq)]
pub enum Base {
    /// The project directory.
    ProjectDir,
    /// The local cache directory of the project.
    CacheDir,
    /// The scratch directory of the command.
    WorkDir,
}

/// The directory that `dir` lies in.
pub open spec fn dir_base(dir: Dir) -> Base {
    match dir {
        Dir::ProjectBuild => Base::ProjectDir,
        Dir::Cache => Base::CacheDir,
        Dir::Work | Dir::WorkBuild | Dir::WorkCache => Base::WorkDir,
    }
}

/// The name of `dir` inside its base directory, if it is not the base itself.
pub open spec fn dir_child(dir: Dir) -> Option<Seq<char>> {
    match dir {
        Dir::ProjectBuild | Dir::WorkBuild => Some(BUILD_DIR_NAME@),
        Dir::WorkCache => Some(ARCHIVED_CACHE_DIR_NAME@),
        Dir::Cache | Dir::Work => None,
    }
}

/// Where `dir` lies: its base directory and, where it is not the base
/// itself, its name inside it.
pub fn dir_location(dir: Dir) -> (location: (Base, Option<&'static str>))
    ensures
        location.0 == dir_base(dir),
        opt_str_view(location.1) == dir_child(dir),
{
    match dir {
        Dir::ProjectBuild => (Base::ProjectDir, Some(BUILD_DIR_NAME)),
        Dir::Cache => (Base::CacheDir, None),
        Dir::Work => (Base::WorkDir, None),
        Dir::WorkBuild => (Base::WorkDir, Some(BUILD_DIR_NAME)),
        Dir::WorkCache => (Base::WorkDir, Some(ARCHIVED_CACHE_DIR_NAME)),
    }
}

/// What an upload stores comes back to the same places on a download: both
/// address the same artifact with the same credentials; the upload packs its
/// whole scratch directory, where it copied the project's build directory and
/// the local cache, and the download unpacks into its scratch directory and
/// copies the same two places back.
pub proof fn lemma_round_trip_layout(
    client: RemoteClientView,
    send: UploadAction,
    fetch: DownloadAction,
    pack: UploadAction,
    unpack: DownloadAction,
    save_build: UploadAction,
    restore_build: DownloadAction,
    save_cache: UploadAction,
    restore_cache: DownloadAction,
)
    requires
        starts_upload_stage(client, UploadStage::Send, send),
        starts_download_stage(client, DownloadStage::FetchArtifact, fetch),
        starts_upload_stage(client, UploadStage::Archive, pack),
        starts_download_stage(client, DownloadStage::Unpack, unpack),
        starts_upload_stage(client, UploadStage::CopyBuild, save_build),
        starts_download_stage(client, DownloadStage::CopyBuild, restore_build),
        starts_upload_stage(client, UploadStage::CopyCache, save_cache),
        starts_download_stage(client, DownloadStage::CopyCache, restore_cache),
    ensures
        send matches UploadAction::Send(put) && fetch matches DownloadAction::FetchArtifact(get)
            && put.0.url@ == get.0.url@ && put.0.token@ == get.0.token@,
        pack matches UploadAction::Archive { from: packed } && unpack matches DownloadAction::Unpack {
            into: unpacked,
        } && packed == unpacked,
        save_build matches UploadAction::CopyBuild { from: b0, to: b1 }
            && restore_build matches DownloadAction::CopyBuild { from: b2, to: b3 } && b0 == b3 && b1
            == b2 && dir_base(b1) == Base::WorkDir,
        save_cache matches UploadAction::CopyCache { from: c0, to: c1 }
            && restore_cache matches DownloadAction::CopyCache { from: c2, to: c3 } && c0 == c3 && c1
            == c2 && dir_base(c1) == Base::WorkDir,
{
}

} // verus!
