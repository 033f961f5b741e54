use vstd::prelude::*;

use crate::commands::{is_scratch, Dir, StageOutcome};
use crate::vercel::artifact::{ArtifactOptions, ArtifactPutRequest};
use crate::vercel::constants::{lemma_cache_hash_has_no_slash, FASTN_VERCEL_REMOTE_CACHE_HASH};
use crate::vercel::remote_client::{request_for, RemoteClient, RemoteClientView};
use crate::Error;

verus! {

/// The stages of an upload, in the order in which they run.
#[derive(Debug, Clone, Copy, PartialEq, Eq)]
pub enum UploadStage {
    /// Find the local cache directory.
    CacheDir,
    /// Settle the project directory: the one given, else the current one.
    ProjectDir,
    /// Make a scratch directory to gather the artifacts in.
    WorkDir,
    /// Copy the project's build directory into the scratch directory.
    CopyBuild,
    /// Copy the local cache into the scratch directory.
    CopyCache,
    /// Pack the scratch directory into a compressed archive.
    Archive,
    /// Read the archive back into memory.
    ReadArchive,
    /// Send the archive to the remote cache.
    Send,
}

/// Where an upload goes after a stage: on to another stage, or to its end
/// with a result.
#[derive(Debug, PartialEq, Eq)]
pub enum UploadMove {
    Go(UploadStage),
    Stop(Result<(), Error>),
}

/// The work that the caller is to do next, with the request and the
/// directories it needs.
#[derive(Debug, PartialEq, Eq)]
pub enum UploadAction {
    LocateCacheDir,
    ResolveProjectDir,
    CreateWorkDir,
    /// Copy the directory `from` to `to`.
    CopyBuild { from: Dir, to: Dir },
    /// Copy the directory `from` to `to`.
    CopyCache { from: Dir, to: Dir },
    /// Pack the directory `from` into an archive.
    Archive { from: Dir },
    ReadArchive,
    Send(ArtifactPutRequest),
    /// The upload is over, with this result.
    Finish(Result<(), Error>),
}

/// The position of a stage in the run, from 0.
pub open spec fn upload_rank(stage: UploadStage) -> nat {
    match stage {
        UploadStage::CacheDir => 0,
        UploadStage::ProjectDir => 1,
        UploadStage::WorkDir => 2,
        UploadStage::CopyBuild => 3,
        UploadStage::CopyCache => 4,
        UploadStage::Archive => 5,
        UploadStage::ReadArchive => 6,
        UploadStage::Send => 7,
    }
}

/// The stage that follows `stage`, if any.
pub open spec fn next_upload_stage(stage: UploadStage) -> Option<UploadStage> {
    match stage {
        UploadStage::CacheDir => Some(UploadStage::ProjectDir),
        UploadStage::ProjectDir => Some(UploadStage::WorkDir),
        UploadStage::WorkDir => Some(UploadStage::CopyBuild),
        UploadStage::CopyBuild => Some(UploadStage::CopyCache),
        UploadStage::CopyCache => Some(UploadStage::Archive),
        UploadStage::Archive => Some(UploadStage::ReadArchive),
        UploadStage::ReadArchive => Some(UploadStage::Send),
        UploadStage::Send => None,
    }
}

/// The stages that may find nothing to work with: the lookup of the local
/// cache directory, and the sending, which the remote cache may turn down.
pub open spec fn upload_looks_up(stage: UploadStage) -> bool {
    stage is CacheDir || stage is Send
}

/// Where an upload goes after `stage` is done: to the next stage, or, after
/// the last one, to its end without error.
pub open spec fn upload_after_done(stage: UploadStage) -> UploadMove {
    match next_upload_stage(stage) {
        Some(s) => UploadMove::Go(s),
        None => UploadMove::Stop(Ok(())),
    }
}

/// The rule of an upload: a failure ends it with that error; a missing cache
/// directory, or an upload that the remote cache turns down, ends it without
/// error; otherwise it goes on to the next stage, and after the last one it
/// ends without error. (At any other stage `Absent` counts as done.)
pub open spec fn upload_move(stage: UploadStage, outcome: StageOutcome) -> UploadMove {
    match outcome {
        StageOutcome::Failed(e) => UploadMove::Stop(Err(e)),
        StageOutcome::Absent => if upload_looks_up(stage) {
            UploadMove::Stop(Ok(()))
        } else {
            upload_after_done(stage)
        },
        StageOutcome::Done => upload_after_done(stage),
    }
}

/// `action` is the work that starts `stage` for `client`: the project's build
/// directory and the local cache are copied into the scratch directory, which
/// is packed, and sending carries the request that stores the project's
/// artifact.
pub open spec fn starts_upload_stage(client: RemoteClientView, stage: UploadStage, action: UploadAction) -> bool {
    match stage {
        UploadStage::CacheDir => action is LocateCacheDir,
        UploadStage::ProjectDir => action is ResolveProjectDir,
        UploadStage::WorkDir => action is CreateWorkDir,
        UploadStage::CopyBuild => action == UploadAction::CopyBuild {
            from: Dir::ProjectBuild,
            to: Dir::WorkBuild,
        },
        UploadStage::CopyCache => action == UploadAction::CopyCache {
            from: Dir::Cache,
            to: Dir::WorkCache,
        },
        UploadStage::Archive => action == UploadAction::Archive { from: Dir::Work },
        UploadStage::ReadArchive => action is ReadArchive,
        UploadStage::Send => match action {
            UploadAction::Send(req) => request_for(
                client,
                FASTN_VERCEL_REMOTE_CACHE_HASH@,
                None::<ArtifactOptions>,
                req.0,
            ),
            _ => false,
        },
    }
}

/// `action` carries out the move `mv` for `client`.
pub open spec fn upload_action_for(client: RemoteClientView, mv: UploadMove, action: UploadAction) -> bool {
    match mv {
        UploadMove::Go(s) => starts_upload_stage(client, s, action),
        UploadMove::Stop(r) => action == UploadAction::Finish(r),
    }
}

/// The directory that `action` reads from, if any.
pub open spec fn upload_source(action: UploadAction) -> Option<Dir> {
    match action {
        UploadAction::CopyBuild { from, .. } => Some(from),
        UploadAction::CopyCache { from, .. } => Some(from),
        UploadAction::Archive { from } => Some(from),
        _ => None,
    }
}

/// The directory that `action` writes into, if any.
pub open spec fn upload_destination(action: UploadAction) -> Option<Dir> {
    match action {
        UploadAction::CopyBuild { to, .. } => Some(to),
        UploadAction::CopyCache { to, .. } => Some(to),
        _ => None,
    }
}

/// The stage that an upload reaches from `stage` after `k` stages done.
pub open spec fn upload_stage_after(stage: UploadStage, k: nat) -> UploadStage
    decreases k,
{
    if k == 0 {
        stage
    } else {
        match next_upload_stage(stage) {
            Some(s) => upload_stage_after(s, (k - 1) as nat),
            None => stage,
        }
    }
}

/// How an upload that is at `stage` ends when its stages report `outcomes` in
/// turn: `None` while it is still running after them.
pub open spec fn upload_run(stage: UploadStage, outcomes: Seq<StageOutcome>) -> Option<Result<(), Error>>
    decreases outcomes.len(),
{
    if outcomes.len() == 0 {
        None
    } else {
        match upload_move(stage, outcomes[0]) {
            UploadMove::Stop(r) => Some(r),
            UploadMove::Go(s) => upload_run(s, outcomes.drop_first()),
        }
    }
}

/// An upload goes on only to the stage right after the current one, and only
/// when that stage is done (or cannot find nothing); a failure ends it with
/// its error, and a missing cache directory or a turned-down upload ends it
/// without error.
pub proof fn lemma_upload_step(stage: UploadStage, outcome: StageOutcome)
    ensures
        upload_move(stage, outcome) matches UploadMove::Go(s) ==> {
            &&& upload_rank(s) == upload_rank(stage) + 1
            &&& outcome is Done || (outcome is Absent && !upload_looks_up(stage))
        },
        outcome matches StageOutcome::Failed(e) ==> upload_move(stage, outcome) == UploadMove::Stop(Err(e)),
        outcome is Absent && upload_looks_up(stage) ==> upload_move(stage, outcome) == UploadMove::Stop(Ok(())),
{
}

/// An upload reads, outside its scratch directory, only the project's build
/// directory and the local cache directory, and writes only into its scratch
/// directory.
pub proof fn lemma_upload_touches(client: RemoteClientView, stage: UploadStage, action: UploadAction)
    requires
        starts_upload_stage(client, stage, action),
    ensures
        upload_source(action) matches Some(d) ==> is_scratch(d) || d == Dir::ProjectBuild || d == Dir::Cache,
        upload_destination(action) matches Some(d) ==> is_scratch(d),
{
}

/// After `k` stages that are done, the upload ends as the move of the stage
/// it has reached says, when that move ends it.
pub proof fn lemma_upload_run_stops_at(stage: UploadStage, outcomes: Seq<StageOutcome>, k: nat)
    requires
        k < outcomes.len(),
        k + upload_rank(stage) <= 7,
        forall|i: int| 0 <= i < k ==> #[trigger] outcomes[i] == StageOutcome::Done,
        upload_move(upload_stage_after(stage, k), outcomes[k as int]) is Stop,
    ensures
        upload_run(stage, outcomes) == Some(
            upload_move(upload_stage_after(stage, k), outcomes[k as int])->Stop_0,
        ),
    decreases k,
{
    if k > 0 {
        assert(outcomes[0] == StageOutcome::Done);
        let next = next_upload_stage(stage)->0;
        let rest = outcomes.drop_first();
        assert forall|i: int| 0 <= i < k - 1 implies #[trigger] rest[i] == StageOutcome::Done by {
            assert(rest[i] == outcomes[i + 1]);
        }
        assert(rest[k - 1] == outcomes[k as int]);
        lemma_upload_run_stops_at(next, rest, (k - 1) as nat);
    }
}

/// An upload at `stage` ends within the stages that remain.
pub proof fn lemma_upload_terminates(stage: UploadStage, outcomes: Seq<StageOutcome>)
    requires
        outcomes.len() + upload_rank(stage) >= 8,
    ensures
        upload_run(stage, outcomes) is Some,
    decreases outcomes.len(),
{
    match upload_move(stage, outcomes[0]) {
        UploadMove::Stop(_) => {},
        UploadMove::Go(s) => {
            lemma_upload_terminates(s, outcomes.drop_first());
        },
    }
}

/// An upload from its first stage in which every stage is done runs all eight
/// stages and ends without error.
pub proof fn lemma_upload_all_done(outcomes: Seq<StageOutcome>)
    requires
        outcomes.len() == 8,
        forall|i: int| 0 <= i < 8 ==> #[trigger] outcomes[i] == StageOutcome::Done,
    ensures
        upload_run(UploadStage::CacheDir, outcomes) == Some(Ok::<(), Error>(())),
{
    reveal_with_fuel(upload_stage_after, 8);
    lemma_upload_run_stops_at(UploadStage::CacheDir, outcomes, 7);
}

/// The work that an upload starts with.
pub fn first_upload_action() -> (action: UploadAction)
    ensures
        action is LocateCacheDir,
{
    UploadAction::LocateCacheDir
}

/// Decides what an upload does after `stage` reported `outcome`.
pub fn next_upload_action(client: &RemoteClient, stage: UploadStage, outcome: StageOutcome) -> (action: UploadAction)
    ensures
        upload_action_for(client@, upload_move(stage, outcome), action),
{
    proof {
        lemma_cache_hash_has_no_slash();
    }
    let looks_up = match stage {
        UploadStage::CacheDir | UploadStage::Send => true,
        _ => false,
    };
    match outcome {
        StageOutcome::Failed(e) => UploadAction::Finish(Err(e)),
        StageOutcome::Absent if looks_up => UploadAction::Finish(Ok(())),
        _ => match stage {
            UploadStage::CacheDir => UploadAction::ResolveProjectDir,
            UploadStage::ProjectDir => UploadAction::CreateWorkDir,
            UploadStage::WorkDir => UploadAction::CopyBuild { from: Dir::ProjectBuild, to: Dir::WorkBuild },
            UploadStage::CopyBuild => UploadAction::CopyCache { from: Dir::Cache, to: Dir::WorkCache },
            UploadStage::CopyCache => UploadAction::Archive { from: Dir::Work },
            UploadStage::Archive => UploadAction::ReadArchive,
            UploadStage::ReadArchive => {
                match client.put(FASTN_VERCEL_REMOTE_CACHE_HASH.to_owned(), None) {
                    Ok(req) => UploadAction::Send(req),
                    Err(e) => UploadAction::Finish(Err(e)),
                }
            },
            UploadStage::Send => UploadAction::Finish(Ok(())),
        },
    }
}

} // verus!
