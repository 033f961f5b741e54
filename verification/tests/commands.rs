use vercel_cache_helper::commands::download::{
    first_download_action, next_download_action, DownloadAction, DownloadStage,
};
use vercel_cache_helper::commands::upload::{
    first_upload_action, next_upload_action, UploadAction, UploadStage,
};
use vercel_cache_helper::commands::{dir_location, Base, Dir, StageOutcome};
use vercel_cache_helper::vercel::remote_client::RemoteClient;
use vercel_cache_helper::Error;

fn client() -> RemoteClient {
    RemoteClient::new("tok".to_string(), Some("team".to_string()), "fastn".to_string())
}

const ARTIFACT_URL: &str =
    "https://api.vercel.com/v8/artifacts/fastn-vercel-remote-cache?teamId=team";

fn download_stage_of(action: &DownloadAction) -> Option<DownloadStage> {
    match action {
        DownloadAction::ResolveProjectDir => Some(DownloadStage::ProjectDir),
        DownloadAction::LocateCacheDir => Some(DownloadStage::CacheDir),
        DownloadAction::CreateWorkDir => Some(DownloadStage::WorkDir),
        DownloadAction::CheckArtifact(_) => Some(DownloadStage::CheckArtifact),
        DownloadAction::FetchArtifact(_) => Some(DownloadStage::FetchArtifact),
        DownloadAction::Unpack { .. } => Some(DownloadStage::Unpack),
        DownloadAction::CopyBuild { .. } => Some(DownloadStage::CopyBuild),
        DownloadAction::CopyCache { .. } => Some(DownloadStage::CopyCache),
        DownloadAction::Finish(_) => None,
    }
}

fn upload_stage_of(action: &UploadAction) -> Option<UploadStage> {
    match action {
        UploadAction::LocateCacheDir => Some(UploadStage::CacheDir),
        UploadAction::ResolveProjectDir => Some(UploadStage::ProjectDir),
        UploadAction::CreateWorkDir => Some(UploadStage::WorkDir),
        UploadAction::CopyBuild { .. } => Some(UploadStage::CopyBuild),
        UploadAction::CopyCache { .. } => Some(UploadStage::CopyCache),
        UploadAction::Archive { .. } => Some(UploadStage::Archive),
        UploadAction::ReadArchive => Some(UploadStage::ReadArchive),
        UploadAction::Send(_) => Some(UploadStage::Send),
        UploadAction::Finish(_) => None,
    }
}

/// Runs a download with the outcome that `report` gives for each stage,
/// returning the stages run and the result.
fn run_download(report: impl Fn(DownloadStage) -> StageOutcome) -> (Vec<DownloadStage>, Result<(), Error>) {
    let c = client();
    let mut stages = Vec::new();
    let mut action = first_download_action();
    loop {
        match download_stage_of(&action) {
            Some(stage) => {
                stages.push(stage);
                assert!(stages.len() <= 8);
                action = next_download_action(&c, stage, report(stage));
            }
            None => match action {
                DownloadAction::Finish(r) => return (stages, r),
                _ => unreachable!(),
            },
        }
    }
}

fn run_upload(report: impl Fn(UploadStage) -> StageOutcome) -> (Vec<UploadStage>, Result<(), Error>) {
    let c = client();
    let mut stages = Vec::new();
    let mut action = first_upload_action();
    loop {
        match upload_stage_of(&action) {
            Some(stage) => {
                stages.push(stage);
                assert!(stages.len() <= 8);
                action = next_upload_action(&c, stage, report(stage));
            }
            None => match action {
                UploadAction::Finish(r) => return (stages, r),
                _ => unreachable!(),
            },
        }
    }
}

#[test]
fn download_steps_in_order() {
    let c = client();
    assert_eq!(next_download_action(&c, DownloadStage::ProjectDir, StageOutcome::Done), DownloadAction::LocateCacheDir);
    assert_eq!(next_download_action(&c, DownloadStage::CacheDir, StageOutcome::Done), DownloadAction::CreateWorkDir);
    assert_eq!(next_download_action(&c, DownloadStage::FetchArtifact, StageOutcome::Done), DownloadAction::Unpack { into: Dir::Work });
    assert_eq!(next_download_action(&c, DownloadStage::Unpack, StageOutcome::Done), DownloadAction::CopyBuild { from: Dir::WorkBuild, to: Dir::ProjectBuild });
    assert_eq!(next_download_action(&c, DownloadStage::CopyBuild, StageOutcome::Done), DownloadAction::CopyCache { from: Dir::WorkCache, to: Dir::Cache });
    assert_eq!(next_download_action(&c, DownloadStage::CopyCache, StageOutcome::Done), DownloadAction::Finish(Ok(())));
}

#[test]
fn download_checks_then_fetches_the_project_artifact() {
    let c = client();
    match next_download_action(&c, DownloadStage::WorkDir, StageOutcome::Done) {
        DownloadAction::CheckArtifact(req) => {
            assert_eq!(req.0.url, ARTIFACT_URL);
            assert_eq!(req.0.token, "tok");
            assert_eq!(req.0.user_agent, "fastn");
        }
        other => panic!("unexpected {:?}", other),
    }
    match next_download_action(&c, DownloadStage::CheckArtifact, StageOutcome::Done) {
        DownloadAction::FetchArtifact(req) => assert_eq!(req.0.url, ARTIFACT_URL),
        other => panic!("unexpected {:?}", other),
    }
}

#[test]
fn download_without_cache_dir_or_artifact_ends_quietly() {
    let c = client();
    assert_eq!(next_download_action(&c, DownloadStage::CacheDir, StageOutcome::Absent), DownloadAction::Finish(Ok(())));
    assert_eq!(next_download_action(&c, DownloadStage::CheckArtifact, StageOutcome::Absent), DownloadAction::Finish(Ok(())));
    let (stages, result) = run_download(|s| if s == DownloadStage::CheckArtifact { StageOutcome::Absent } else { StageOutcome::Done });
    assert_eq!(stages, vec![DownloadStage::ProjectDir, DownloadStage::CacheDir, DownloadStage::WorkDir, DownloadStage::CheckArtifact]);
    assert_eq!(result, Ok(()));
}

#[test]
fn download_failure_ends_with_its_error() {
    let c = client();
    let e = Error::FileNotFound("no such dir".to_string());
    assert_eq!(
        next_download_action(&c, DownloadStage::Unpack, StageOutcome::Failed(e.clone())),
        DownloadAction::Finish(Err(e.clone()))
    );
    let (stages, result) = run_download(|s| if s == DownloadStage::FetchArtifact { StageOutcome::Failed(Error::ReqwestError("503".to_string())) } else { StageOutcome::Done });
    assert_eq!(stages.len(), 5);
    assert_eq!(result, Err(Error::ReqwestError("503".to_string())));
}

#[test]
fn download_all_done_runs_every_stage() {
    let (stages, result) = run_download(|_| StageOutcome::Done);
    assert_eq!(
        stages,
        vec![
            DownloadStage::ProjectDir, DownloadStage::CacheDir, DownloadStage::WorkDir,
            DownloadStage::CheckArtifact, DownloadStage::FetchArtifact, DownloadStage::Unpack,
            DownloadStage::CopyBuild, DownloadStage::CopyCache,
        ]
    );
    assert_eq!(result, Ok(()));
}

#[test]
fn upload_steps_in_order() {
    let c = client();
    assert_eq!(next_upload_action(&c, UploadStage::CacheDir, StageOutcome::Done), UploadAction::ResolveProjectDir);
    assert_eq!(next_upload_action(&c, UploadStage::ProjectDir, StageOutcome::Done), UploadAction::CreateWorkDir);
    assert_eq!(next_upload_action(&c, UploadStage::WorkDir, StageOutcome::Done), UploadAction::CopyBuild { from: Dir::ProjectBuild, to: Dir::WorkBuild });
    assert_eq!(next_upload_action(&c, UploadStage::CopyBuild, StageOutcome::Done), UploadAction::CopyCache { from: Dir::Cache, to: Dir::WorkCache });
    assert_eq!(next_upload_action(&c, UploadStage::CopyCache, StageOutcome::Done), UploadAction::Archive { from: Dir::Work });
    assert_eq!(next_upload_action(&c, UploadStage::Archive, StageOutcome::Done), UploadAction::ReadArchive);
    assert_eq!(next_upload_action(&c, UploadStage::Send, StageOutcome::Done), UploadAction::Finish(Ok(())));
}

#[test]
fn upload_sends_the_project_artifact() {
    let c = client();
    match next_upload_action(&c, UploadStage::ReadArchive, StageOutcome::Done) {
        UploadAction::Send(req) => {
            assert_eq!(req.0.url, ARTIFACT_URL);
            assert_eq!(req.0.token, "tok");
        }
        other => panic!("unexpected {:?}", other),
    }
}

#[test]
fn upload_without_cache_dir_or_accepted_upload_ends_quietly() {
    let c = client();
    assert_eq!(next_upload_action(&c, UploadStage::CacheDir, StageOutcome::Absent), UploadAction::Finish(Ok(())));
    assert_eq!(next_upload_action(&c, UploadStage::Send, StageOutcome::Absent), UploadAction::Finish(Ok(())));
}

#[test]
fn upload_failure_ends_with_its_error() {
    let (stages, result) = run_upload(|s| if s == UploadStage::Archive { StageOutcome::Failed(Error::FileNotFound("disk full".to_string())) } else { StageOutcome::Done });
    assert_eq!(stages.len(), 6);
    assert_eq!(result, Err(Error::FileNotFound("disk full".to_string())));
}

#[test]
fn upload_all_done_runs_every_stage() {
    let (stages, result) = run_upload(|_| StageOutcome::Done);
    assert_eq!(
        stages,
        vec![
            UploadStage::CacheDir, UploadStage::ProjectDir, UploadStage::WorkDir,
            UploadStage::CopyBuild, UploadStage::CopyCache, UploadStage::Archive,
            UploadStage::ReadArchive, UploadStage::Send,
        ]
    );
    assert_eq!(result, Ok(()));
}

#[test]
fn commands_start_at_their_first_stage() {
    assert_eq!(first_download_action(), DownloadAction::ResolveProjectDir);
    assert_eq!(first_upload_action(), UploadAction::LocateCacheDir);
}

#[test]
fn absence_ends_only_the_stages_that_look_something_up() {
    let c = client();
    assert_eq!(next_download_action(&c, DownloadStage::WorkDir, StageOutcome::Absent), next_download_action(&c, DownloadStage::WorkDir, StageOutcome::Done));
    assert_eq!(next_download_action(&c, DownloadStage::Unpack, StageOutcome::Absent), DownloadAction::CopyBuild { from: Dir::WorkBuild, to: Dir::ProjectBuild });
    assert_eq!(next_upload_action(&c, UploadStage::Archive, StageOutcome::Absent), UploadAction::ReadArchive);
    assert_eq!(next_upload_action(&c, UploadStage::ProjectDir, StageOutcome::Absent), UploadAction::CreateWorkDir);
    let (stages, result) = run_download(|_| StageOutcome::Absent);
    assert_eq!(stages, vec![DownloadStage::ProjectDir, DownloadStage::CacheDir]);
    assert_eq!(result, Ok(()));
}

#[test]
fn download_writes_only_the_project_build_and_the_cache() {
    let c = client();
    let mut writes = Vec::new();
    let mut action = first_download_action();
    let mut stage = DownloadStage::ProjectDir;
    loop {
        match &action {
            DownloadAction::Unpack { into } => writes.push(*into),
            DownloadAction::CopyBuild { to, .. } | DownloadAction::CopyCache { to, .. } => writes.push(*to),
            DownloadAction::Finish(_) => break,
            _ => {}
        }
        stage = download_stage_of(&action).unwrap_or(stage);
        action = next_download_action(&c, stage, StageOutcome::Done);
    }
    assert_eq!(writes, vec![Dir::Work, Dir::ProjectBuild, Dir::Cache]);
}

#[test]
fn directories_lie_in_their_bases() {
    assert_eq!(dir_location(Dir::ProjectBuild), (Base::ProjectDir, Some(".build")));
    assert_eq!(dir_location(Dir::Cache), (Base::CacheDir, None));
    assert_eq!(dir_location(Dir::Work), (Base::WorkDir, None));
    assert_eq!(dir_location(Dir::WorkBuild), (Base::WorkDir, Some(".build")));
    assert_eq!(dir_location(Dir::WorkCache), (Base::WorkDir, Some("cache")));
}

#[test]
fn upload_and_download_use_the_same_places() {
    let c = client();
    let up_build = next_upload_action(&c, UploadStage::WorkDir, StageOutcome::Done);
    let down_build = next_download_action(&c, DownloadStage::Unpack, StageOutcome::Done);
    match (up_build, down_build) {
        (UploadAction::CopyBuild { from: a, to: b }, DownloadAction::CopyBuild { from: c2, to: d }) => {
            assert_eq!((a, b), (d, c2));
        }
        other => panic!("unexpected {:?}", other),
    }
    let send = next_upload_action(&c, UploadStage::ReadArchive, StageOutcome::Done);
    let fetch = next_download_action(&c, DownloadStage::CheckArtifact, StageOutcome::Done);
    match (send, fetch) {
        (UploadAction::Send(put), DownloadAction::FetchArtifact(get)) => {
            assert_eq!(put.0.url, get.0.url);
            assert_eq!(put.0.headers(), get.0.headers());
        }
        other => panic!("unexpected {:?}", other),
    }
}
