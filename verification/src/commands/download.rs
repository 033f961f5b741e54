use vstd::prelude::*;

use crate::commands::{is_scratch, Dir, StageOutcome};
use crate::vercel::artifact::{ArtifactExistsRequest, ArtifactGetRequest, ArtifactOptions};
use crate::vercel::constants::{lemma_cache_hash_has_no_slash, FASTN_VERCEL_REMOTE_CACHE_HASH};
use crate::vercel::remote_client::{request_for, RemoteClient, RemoteClientView};
use crate::Error;

verus! {

/// The stages of a download, in the order in which they run.
#[derive(Debug, Clone, Copy, PartialEq, Eq)]
pub enum DownloadStage {
    /// Settle the project directory: the one given, else the current one.
    ProjectDir,
    /// Find the local cache directory.
    CacheDir,
    /// Make a scratch directory to unpack into.
    WorkDir,
    /// Ask the remote cache whether the artifact is stored.
    CheckArtifact,
    /// Download the artifact into a scratch file.
    FetchArtifact,
    /// Unpack the downloaded archive into the scratch directory.
    Unpack,
    /// Copy the unpacked build directory into the project.
    CopyBuild,
    /// Copy the unpacked cache into the local cache directory.
    CopyCache,
}

/// Where a download goes after a stage: on to another stage, or to its end
/// with a result.
#[derive(Debug, PartialEq, Eq)]
pub enum DownloadMove {
    Go(DownloadStage),
    Stop(Result<(), Error>),
}

/// The work that the caller is to do next, with the requests and the
/// directories it needs.
#[derive(Debug, PartialEq, Eq)]
pub enum DownloadAction {
    ResolveProjectDir,
    LocateCacheDir,
    CreateWorkDir,
    CheckArtifact(ArtifactExistsRequest),
    FetchArtifact(ArtifactGetRequest),
    /// Unpack the downloaded archive into `into`.
    Unpack { into: Dir },
    /// Copy the directory `from` to `to`.
    CopyBuild { from: Dir, to: Dir },
    /// Copy the directory `from` to `to`.
    CopyCache { from: Dir, to: Dir },
    /// The download is over, with this result.
    Finish(Result<(), Error>),
}

/// The position of a stage in the run, from 0.
pub open spec fn download_rank(stage: DownloadStage) -> nat {
    match stage {
        DownloadStage::ProjectDir => 0,
        DownloadStage::CacheDir => 1,
        DownloadStage::WorkDir => 2,
        DownloadStage::CheckArtifact => 3,
        DownloadStage::FetchArtifact => 4,
        DownloadStage::Unpack => 5,
        DownloadStage::CopyBuild => 6,
        DownloadStage::CopyCache => 7,
    }
}

/// The stage that follows `stage`, if any.
pub open spec fn next_download_stage(stage: DownloadStage) -> Option<DownloadStage> {
    match stage {
        DownloadStage::ProjectDir => Some(DownloadStage::CacheDir),
        DownloadStage::CacheDir => Some(DownloadStage::WorkDir),
        DownloadStage::WorkDir => Some(DownloadStage::CheckArtifact),
        DownloadStage::CheckArtifact => Some(DownloadStage::FetchArtifact),
        DownloadStage::FetchArtifact => Some(DownloadStage::Unpack),
        DownloadStage::Unpack => Some(DownloadStage::CopyBuild),
        DownloadStage::CopyBuild => Some(DownloadStage::CopyCache),
        DownloadStage::CopyCache => None,
    }
}

/// The stages that look for something that may not be there: the local cache
/// directory and the stored artifact.
pub open spec fn download_looks_up(stage: DownloadStage) -> bool {
    stage is CacheDir || stage is CheckArtifact
}

/// Where a download goes after `stage` is done: to the next stage, or, after
/// the last one, to its end without error.
pub open spec fn download_after_done(stage: DownloadStage) -> DownloadMove {
    match next_download_stage(stage) {
        Some(s) => DownloadMove::Go(s),
        None => DownloadMove::Stop(Ok(())),
    }
}

/// The rule of a download: a failure ends it with that error; a missing cache
/// directory or artifact ends it without error; otherwise it goes on to the
/// next stage, and after the last one it ends without error. (A stage that
/// looks for nothing cannot miss anything: it counts as done.)
pub open spec fn download_move(stage: DownloadStage, outcome: StageOutcome) -> DownloadMove {
    match outcome {
        StageOutcome::Failed(e) => DownloadMove::Stop(Err(e)),
        StageOutcome::Absent => if download_looks_up(stage) {
            DownloadMove::Stop(Ok(()))
        } else {
            download_after_done(stage)
        },
        StageOutcome::Done => download_after_done(stage),
    }
}

/// `action` is the work that starts `stage` for `client`: the remote stages
/// carry the request for the project's artifact; the archive is unpacked into
/// the scratch directory, its build directory is copied to the project's and
/// its cache to the local cache directory.
pub open spec fn starts_download_stage(
    client: RemoteClientView,
    stage: DownloadStage,
    action: DownloadAction,
) -> bool {
    match stage {
        DownloadStage::ProjectDir => action is ResolveProjectDir,
        DownloadStage::CacheDir => action is LocateCacheDir,
        DownloadStage::WorkDir => action is CreateWorkDir,
        DownloadStage::CheckArtifact => match action {
            DownloadAction::CheckArtifact(req) => request_for(
                client,
                FASTN_VERCEL_REMOTE_CACHE_HASH@,
                None::<ArtifactOptions>,
                req.0,
            ),
            _ => false,
        },
        DownloadStage::FetchArtifact => match action {
            DownloadAction::FetchArtifact(req) => request_for(
                client,
                FASTN_VERCEL_REMOTE_CACHE_HASH@,
                None::<ArtifactOptions>,
                req.0,
            ),
            _ => false,
        },
        DownloadStage::Unpack => action == DownloadAction::Unpack { into: Dir::Work },
        DownloadStage::CopyBuild => action == DownloadAction::CopyBuild {
            from: Dir::WorkBuild,
            to: Dir::ProjectBuild,
        },
        DownloadStage::CopyCache => action == DownloadAction::CopyCache {
            from: Dir::WorkCache,
            to: Dir::Cache,
        },
    }
}

/// `action` carries out the move `mv` for `client`.
pub open spec fn download_action_for(
    client: RemoteClientView,
    mv: DownloadMove,
    action: DownloadAction,
) -> bool {
    match mv {
        DownloadMove::Go(s) => starts_download_stage(client, s, action),
        DownloadMove::Stop(r) => action == DownloadAction::Finish(r),
    }
}

/// The directory that `action` writes into, if any.
pub open spec fn download_destination(action: DownloadAction) -> Option<Dir> {
    match action {
        DownloadAction::Unpack { into } => Some(into),
        DownloadAction::CopyBuild { to, .. } => Some(to),
        DownloadAction::CopyCache { to, .. } => Some(to),
        _ => None,
    }
}

/// The stage that a download reaches from `stage` after `k` stages done.
pub open spec fn download_stage_after(stage: DownloadStage, k: nat) -> DownloadStage
    decreases k,
{
    if k == 0 {
        stage
    } else {
        match next_download_stage(stage) {
            Some(s) => download_stage_after(s, (k - 1) as nat),
            None => stage,
        }
    }
}

/// How a download that is at `stage` ends when its stages report `outcomes` in
/// turn: `None` while it is still running after them.
pub open spec fn download_run(stage: DownloadStage, outcomes: Seq<StageOutcome>) -> Option<Result<(), Error>>
    decreases outcomes.len(),
{
    if outcomes.len() == 0 {
        None
    } else {
        match download_move(stage, outcomes[0]) {
            DownloadMove::Stop(r) => Some(r),
            DownloadMove::Go(s) => download_run(s, outcomes.drop_first()),
        }
    }
}

/// A download goes on only to the stage right after the current one, and only
/// when that stage is done (or looks for nothing); a failure ends it with its
/// error, and a missing cache directory or artifact ends it without error.
pub proof fn lemma_download_step(stage: DownloadStage, outcome: StageOutcome)
    ensures
        download_move(stage, outcome) matches DownloadMove::Go(s) ==> {
            &&& download_rank(s) == download_rank(stage) + 1
            &&& outcome is Done || (outcome is Absent && !download_looks_up(stage))
        },
        outcome matches StageOutcome::Failed(e) ==> download_move(stage, outcome) == DownloadMove::Stop(Err(e)),
        outcome is Absent && download_looks_up(stage) ==> download_move(stage, outcome) == DownloadMove::Stop(Ok(())),
{
}

/// The artifact is fetched only once the remote cache has said that it is
/// stored.
pub proof fn lemma_download_fetches_only_found(stage: DownloadStage, outcome: StageOutcome)
    ensures
        download_move(stage, outcome) == DownloadMove::Go(DownloadStage::FetchArtifact)
            ==> stage == DownloadStage::CheckArtifact && outcome == StageOutcome::Done,
{
}

/// Outside its scratch directory a download writes only the project's build
/// directory and the local cache directory.
pub proof fn lemma_download_writes(client: RemoteClientView, stage: DownloadStage, action: DownloadAction)
    requires
        starts_download_stage(client, stage, action),
    ensures
        download_destination(action) matches Some(d) ==> is_scratch(d) || d == Dir::ProjectBuild
            || d == Dir::Cache,
{
}

/// After `k` stages that are done, the download ends as the move of the stage
/// it has reached says, when that move ends it.
pub proof fn lemma_download_run_stops_at(stage: DownloadStage, outcomes: Seq<StageOutcome>, k: nat)
    requires
        k < outcomes.len(),
        k + download_rank(stage) <= 7,
        forall|i: int| 0 <= i < k ==> #[trigger] outcomes[i] == StageOutcome::Done,
        download_move(download_stage_after(stage, k), outcomes[k as int]) is Stop,
    ensures
        download_run(stage, outcomes) == Some(
            download_move(download_stage_after(stage, k), outcomes[k as int])->Stop_0,
        ),
    decreases k,
{
    if k > 0 {
        assert(outcomes[0] == StageOutcome::Done);
        let next = next_download_stage(stage)->0;
        let rest = outcomes.drop_first();
        assert forall|i: int| 0 <= i < k - 1 implies #[trigger] rest[i] == StageOutcome::Done by {
            assert(rest[i] == outcomes[i + 1]);
        }
        assert(rest[k - 1] == outcomes[k as int]);
        lemma_download_run_stops_at(next, rest, (k - 1) as nat);
    }
}

/// A download at `stage` ends within the stages that remain.
pub proof fn lemma_download_terminates(stage: DownloadStage, outcomes: Seq<StageOutcome>)
    requires
        outcomes.len() + download_rank(stage) >= 8,
    ensures
        download_run(stage, outcomes) is Some,
    decreases outcomes.len(),
{
    match download_move(stage, outcomes[0]) {
        DownloadMove::Stop(_) => {},
        DownloadMove::Go(s) => {
            lemma_download_terminates(s, outcomes.drop_first());
        },
    }
}

/// A download from its first stage in which every stage is done runs all eight
/// stages and ends without error.
pub proof fn lemma_download_all_done(outcomes: Seq<StageOutcome>)
    requires
        outcomes.len() == 8,
        forall|i: int| 0 <= i < 8 ==> #[trigger] outcomes[i] == StageOutcome::Done,
    ensures
        download_run(DownloadStage::ProjectDir, outcomes) == Some(Ok::<(), Error>(())),
{
    reveal_with_fuel(download_stage_after, 8);
    lemma_download_run_stops_at(DownloadStage::ProjectDir, outcomes, 7);
}

/// The work that a download starts with.
pub fn first_download_action() -> (action: DownloadAction)
    ensures
        action is ResolveProjectDir,
{
    DownloadAction::ResolveProjectDir
}

/// Decides what a download does after `stage` reported `outcome`.
pub fn next_download_action(client: &RemoteClient, stage: DownloadStage, outcome: StageOutcome) -> (action: DownloadAction)
    ensures
        download_action_for(client@, download_move(stage, outcome), action),
{
    proof {
        lemma_cache_hash_has_no_slash();
    }
    let looks_up = match stage {
        DownloadStage::CacheDir | DownloadStage::CheckArtifact => true,
        _ => false,
    };
    match outcome {
        StageOutcome::Failed(e) => DownloadAction::Finish(Err(e)),
        StageOutcome::Absent if looks_up => DownloadAction::Finish(Ok(())),
        _ => match stage {
            DownloadStage::ProjectDir => DownloadAction::LocateCacheDir,
            DownloadStage::CacheDir => DownloadAction::CreateWorkDir,
            DownloadStage::WorkDir => {
                match client.exists_request(FASTN_VERCEL_REMOTE_CACHE_HASH.to_owned(), None) {
                    Ok(req) => DownloadAction::CheckArtifact(req),
                    Err(e) => DownloadAction::Finish(Err(e)),
                }
            },
            DownloadStage::CheckArtifact => {
                match client.get(FASTN_VERCEL_REMOTE_CACHE_HASH.to_owned(), None) {
                    Ok(req) => DownloadAction::FetchArtifact(req),
                    Err(e) => DownloadAction::Finish(Err(e)),
                }
            },
            DownloadStage::FetchArtifact => DownloadAction::Unpack { into: Dir::Work },
            DownloadStage::Unpack => DownloadAction::CopyBuild {
                from: Dir::WorkBuild,
                to: Dir::ProjectBuild,
            },
            DownloadStage::CopyBuild => DownloadAction::CopyCache {
                from: Dir::WorkCache,
                to: Dir::Cache,
            },
            DownloadStage::CopyCache => DownloadAction::Finish(Ok(())),
        },
    }
}

} // verus!
