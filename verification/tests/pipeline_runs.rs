use core_dump_composer::job::CaptureJob;
use core_dump_composer::model::{
    ArtifactId, ContainerList, ContainerRecord, ExitStatus, ImageRecord, Lookup, PodRecord,
};
use core_dump_composer::pipeline::{Action, Event, Phase, Pipeline};

fn make_job(selector: Option<&str>, ignore_crio: bool, core_events: bool) -> CaptureJob {
    CaptureJob::init(
        String::from("run1"),
        String::from("/cores/run1.tar"),
        String::from("/events"),
        String::from("node-7"),
        String::from("{\"signal\":11}"),
        selector.map(String::from),
        ignore_crio,
        core_events,
        25,
        30,
    )
}

fn make_pod(labels: Vec<(&str, &str)>, id: Option<&str>) -> PodRecord {
    PodRecord {
        id: id.map(String::from),
        namespace: Some(String::from("prod")),
        name: Some(String::from("web-0")),
        labels: labels
            .into_iter()
            .map(|(k, v)| (String::from(k), String::from(v)))
            .collect(),
        json: String::from("{\"id\":\"pod-1\"}"),
    }
}

/// Runs the standard opening: archive created, workspace created, dump
/// compressed; returns the machine waiting for the pod resolution.
fn open_pipeline(job: CaptureJob) -> Pipeline {
    let mut p = Pipeline::new(job);
    let a = p.initial_action();
    assert!(matches!(a, Action::CreateArchive(ref path) if path == "/cores/run1.tar"));
    let a = p.step(Event::ArchiveCreated(true));
    assert!(matches!(a, Action::CreateWorkspace));
    let a = p.step(Event::WorkspaceCreated(true));
    assert!(matches!(a, Action::CompressDump(ref n) if n == "run1.core.gz"));
    let a = p.step(Event::DumpCompressed(true));
    assert!(matches!(a, Action::ResolvePod(ref h) if h == "node-7"));
    p
}

#[test]
fn locked_destination_fails_fast() {
    let mut p = Pipeline::new(make_job(None, false, false));
    let _ = p.initial_action();
    let a = p.step(Event::ArchiveCreated(false));
    assert!(matches!(a, Action::Exit(ExitStatus::Failure)));
    assert_eq!(p.exit, Some(ExitStatus::Failure));
    assert!(p.staged.is_empty());
    assert!(!p.archive_created);
    assert!(!p.workspace_created);
}

#[test]
fn label_mismatch_archives_only_the_dump() {
    let mut p = open_pipeline(make_job(Some("keep"), false, true));
    let pod = make_pod(vec![("app", "web")], Some("pod-1"));
    let a = p.step(Event::PodResolved(Lookup::Present(pod)));
    assert!(matches!(a, Action::SealArchive));
    let a = p.step(Event::ArchiveSealed(true));
    assert!(matches!(a, Action::RemoveWorkspace));
    let a = p.step(Event::WorkspaceRemoved(true));
    assert!(matches!(a, Action::Exit(ExitStatus::Success)));
    assert_eq!(p.exit, Some(ExitStatus::Success));
    assert_eq!(p.staged, vec![ArtifactId::Dump]);
    assert!(p.sealed);
    assert!(p.cleanup_requested);
}

#[test]
fn label_match_continues_past_the_filter() {
    let mut p = open_pipeline(make_job(Some("app"), true, false));
    let pod = make_pod(vec![("app", "web")], Some("pod-1"));
    let a = p.step(Event::PodResolved(Lookup::Present(pod)));
    assert!(matches!(a, Action::StageFile(ref n, _) if n == "run1-dump-info.json"));
}

#[test]
fn unresolved_pod_with_selector_skips() {
    let mut p = open_pipeline(make_job(Some("keep"), false, false));
    let a = p.step(Event::PodResolved(Lookup::Unavailable));
    assert!(matches!(a, Action::SealArchive));
}

#[test]
fn skip_correlation_archives_dump_and_metadata() {
    let mut p = open_pipeline(make_job(None, true, false));
    let pod = make_pod(vec![], Some("pod-1"));
    let a = p.step(Event::PodResolved(Lookup::Present(pod)));
    assert!(
        matches!(a, Action::StageFile(ref n, ref c) if n == "run1-dump-info.json" && c == "{\"signal\":11}")
    );
    let a = p.step(Event::FileStaged(true));
    assert!(matches!(a, Action::SealArchive));
    let a = p.step(Event::ArchiveSealed(true));
    assert!(matches!(a, Action::RemoveWorkspace));
    let a = p.step(Event::WorkspaceRemoved(true));
    assert!(matches!(a, Action::Exit(ExitStatus::Success)));
    assert_eq!(p.staged, vec![ArtifactId::Dump, ArtifactId::DumpMetadata]);
    assert_eq!(p.exit, Some(ExitStatus::Success));
}

#[test]
fn skip_correlation_emits_reduced_event() {
    let mut p = open_pipeline(make_job(None, true, true));
    let a = p.step(Event::PodResolved(Lookup::Unavailable));
    assert!(matches!(a, Action::StageFile(_, _)));
    let a = p.step(Event::FileStaged(true));
    assert!(matches!(a, Action::SealArchive));
    let a = p.step(Event::ArchiveSealed(true));
    assert!(matches!(a, Action::RemoveWorkspace));
    let a = p.step(Event::WorkspaceRemoved(true));
    match a {
        Action::EmitEvent(e) => {
            assert!(!e.correlated);
            assert_eq!(e.run_name, "run1");
            assert_eq!(e.archive_name, "run1.tar");
            assert_eq!(e.namespace, "unknown");
            assert_eq!(e.podname, "unknown");
            assert_eq!(e.pod_json, "{}");
            assert!(e.image_jsons.is_empty());
        }
        other => panic!("expected the completion event, got {:?}", other),
    }
    let a = p.step(Event::EventWritten(true));
    assert!(matches!(a, Action::Exit(ExitStatus::Success)));
    assert_eq!(p.exit, Some(ExitStatus::Success));
}

#[test]
fn unresolved_pod_defaults_identity_to_unknown() {
    let mut p = open_pipeline(make_job(None, true, false));
    let _ = p.step(Event::PodResolved(Lookup::Unavailable));
    assert_eq!(p.job.namespace, "unknown");
    assert_eq!(p.job.podname, "unknown");
    let _ = p.step(Event::FileStaged(true));
    let _ = p.step(Event::ArchiveSealed(true));
    let a = p.step(Event::WorkspaceRemoved(true));
    assert!(matches!(a, Action::Exit(ExitStatus::Success)));
    assert!(p.sealed);
}

#[test]
fn resolved_pod_refines_identity() {
    let mut p = open_pipeline(make_job(None, true, false));
    let pod = make_pod(vec![], Some("pod-1"));
    let _ = p.step(Event::PodResolved(Lookup::Present(pod)));
    assert_eq!(p.job.namespace, "prod");
    assert_eq!(p.job.podname, "web-0");
}

#[test]
fn missing_pod_id_is_fatal_after_pod_info() {
    let mut p = open_pipeline(make_job(None, false, false));
    let pod = make_pod(vec![], None);
    let a = p.step(Event::PodResolved(Lookup::Present(pod)));
    assert!(matches!(a, Action::StageFile(ref n, _) if n == "run1-dump-info.json"));
    let a = p.step(Event::FileStaged(true));
    assert!(matches!(a, Action::StageFile(ref n, _) if n == "run1-pod-info.json"));
    let a = p.step(Event::FileStaged(true));
    assert!(matches!(a, Action::SealArchive));
    let _ = p.step(Event::ArchiveSealed(true));
    let a = p.step(Event::WorkspaceRemoved(true));
    assert!(matches!(a, Action::Exit(ExitStatus::Failure)));
    assert_eq!(p.exit, Some(ExitStatus::Failure));
    assert!(p.sealed);
    assert!(p.cleanup_requested);
}

#[test]
fn container_list_failure_keeps_pod_info_and_exits_one() {
    let mut p = open_pipeline(make_job(None, false, false));
    let pod = make_pod(vec![], Some("pod-1"));
    let _ = p.step(Event::PodResolved(Lookup::Present(pod)));
    let a = p.step(Event::FileStaged(true));
    assert!(
        matches!(a, Action::StageFile(ref n, ref c) if n == "run1-pod-info.json" && c == "{\"id\":\"pod-1\"}")
    );
    let a = p.step(Event::FileStaged(true));
    assert!(matches!(a, Action::ListContainers(ref id) if id == "pod-1"));
    let a = p.step(Event::ContainersListed(Lookup::Unavailable));
    assert!(matches!(a, Action::SealArchive));
    let _ = p.step(Event::ArchiveSealed(true));
    let a = p.step(Event::WorkspaceRemoved(true));
    assert!(matches!(a, Action::Exit(ExitStatus::Failure)));
    assert_eq!(
        p.staged,
        vec![ArtifactId::Dump, ArtifactId::DumpMetadata, ArtifactId::PodInfo]
    );
    assert!(p.sealed);
    assert!(p.cleanup_requested);
}

#[test]
fn missing_image_ref_stops_loop_after_two_containers() {
    let mut p = open_pipeline(make_job(None, false, false));
    let pod = make_pod(vec![], Some("pod-1"));
    let _ = p.step(Event::PodResolved(Lookup::Present(pod)));
    let _ = p.step(Event::FileStaged(true));
    let _ = p.step(Event::FileStaged(true));
    let cl = ContainerList {
        containers: vec![
            ContainerRecord {
                id: Some(String::from("c0")),
                image_ref: Some(String::from("img0")),
            },
            ContainerRecord {
                id: Some(String::from("c1")),
                image_ref: Some(String::from("img1")),
            },
            ContainerRecord {
                id: Some(String::from("c2")),
                image_ref: None,
            },
        ],
        json: String::from("{\"containers\":[]}"),
    };
    let a = p.step(Event::ContainersListed(Lookup::Present(cl)));
    assert!(matches!(a, Action::InspectPod(ref id) if id == "pod-1"));
    let a = p.step(Event::PodInspected(Lookup::Present(String::from("{\"state\":1}"))));
    assert!(
        matches!(a, Action::StageFile(ref n, ref c) if n == "run1-runtime-info.json" && c == "{\"state\":1}")
    );
    let a = p.step(Event::FileStaged(true));
    assert!(
        matches!(a, Action::StageFile(ref n, ref c) if n == "run1-ps-info.json" && c == "{\"containers\":[]}")
    );
    let a = p.step(Event::FileStaged(true));
    assert!(matches!(a, Action::FetchLog(ref id, 25) if id == "c0"));
    let a = p.step(Event::LogFetched(Lookup::Present(String::from("line1"))));
    assert!(matches!(a, Action::StageFile(ref n, ref c) if n == "run1-0.log" && c == "line1"));
    let a = p.step(Event::FileStaged(true));
    assert!(matches!(a, Action::FetchImage(ref r) if r == "img0"));
    let a = p.step(Event::ImageFetched(Lookup::Present(ImageRecord {
        json: String::from("{\"img\":0}"),
    })));
    assert!(
        matches!(a, Action::StageFile(ref n, ref c) if n == "run1-0-image-info.json" && c == "{\"img\":0}")
    );
    let a = p.step(Event::FileStaged(true));
    assert!(matches!(a, Action::FetchLog(ref id, 25) if id == "c1"));
    let a = p.step(Event::LogFetched(Lookup::Unavailable));
    assert!(matches!(a, Action::StageFile(ref n, ref c) if n == "run1-1.log" && c == ""));
    let a = p.step(Event::FileStaged(true));
    assert!(matches!(a, Action::FetchImage(ref r) if r == "img1"));
    let a = p.step(Event::ImageFetched(Lookup::Unavailable));
    assert!(
        matches!(a, Action::StageFile(ref n, ref c) if n == "run1-1-image-info.json" && c == "{}")
    );
    let a = p.step(Event::FileStaged(true));
    assert!(matches!(a, Action::SealArchive));
    let _ = p.step(Event::ArchiveSealed(true));
    let a = p.step(Event::WorkspaceRemoved(true));
    assert!(matches!(a, Action::Exit(ExitStatus::Success)));
    assert_eq!(
        p.staged,
        vec![
            ArtifactId::Dump,
            ArtifactId::DumpMetadata,
            ArtifactId::PodInfo,
            ArtifactId::InspectPod,
            ArtifactId::ProcessList,
            ArtifactId::ContainerLog(0),
            ArtifactId::ContainerImage(0),
            ArtifactId::ContainerLog(1),
            ArtifactId::ContainerImage(1),
        ]
    );
    assert_eq!(p.exit, Some(ExitStatus::Success));
    assert_eq!(p.images, vec![String::from("{\"img\":0}"), String::from("{}")]);
}

#[test]
fn full_run_emits_correlated_event() {
    let mut p = open_pipeline(make_job(None, false, true));
    let pod = make_pod(vec![], Some("pod-1"));
    let _ = p.step(Event::PodResolved(Lookup::Present(pod)));
    let _ = p.step(Event::FileStaged(true));
    let _ = p.step(Event::FileStaged(true));
    let cl = ContainerList {
        containers: vec![],
        json: String::from("{}"),
    };
    let _ = p.step(Event::ContainersListed(Lookup::Present(cl)));
    let _ = p.step(Event::PodInspected(Lookup::Unavailable));
    let _ = p.step(Event::FileStaged(true));
    let a = p.step(Event::FileStaged(true));
    assert!(matches!(a, Action::SealArchive));
    let _ = p.step(Event::ArchiveSealed(true));
    let a = p.step(Event::WorkspaceRemoved(true));
    match a {
        Action::EmitEvent(e) => {
            assert!(e.correlated);
            assert_eq!(e.namespace, "prod");
            assert_eq!(e.podname, "web-0");
            assert_eq!(e.pod_json, "{\"id\":\"pod-1\"}");
        }
        other => panic!("expected the completion event, got {:?}", other),
    }
    let a = p.step(Event::EventWritten(false));
    assert!(matches!(a, Action::Exit(ExitStatus::Failure)));
    assert_eq!(p.exit, Some(ExitStatus::Failure));
}

#[test]
fn dump_failure_seals_and_cleans_up() {
    let mut p = Pipeline::new(make_job(None, false, false));
    let _ = p.initial_action();
    let _ = p.step(Event::ArchiveCreated(true));
    let _ = p.step(Event::WorkspaceCreated(true));
    let a = p.step(Event::DumpCompressed(false));
    assert!(matches!(a, Action::SealArchive));
    let a = p.step(Event::ArchiveSealed(true));
    assert!(matches!(a, Action::RemoveWorkspace));
    let a = p.step(Event::WorkspaceRemoved(false));
    assert!(matches!(a, Action::Exit(ExitStatus::Failure)));
    assert!(p.staged.is_empty());
    assert!(p.sealed);
    assert!(p.cleanup_requested);
}

#[test]
fn seal_failure_downgrades_success_and_drops_event() {
    let mut p = open_pipeline(make_job(None, true, true));
    let _ = p.step(Event::PodResolved(Lookup::Unavailable));
    let a = p.step(Event::FileStaged(true));
    assert!(matches!(a, Action::SealArchive));
    let a = p.step(Event::ArchiveSealed(false));
    assert!(matches!(a, Action::RemoveWorkspace));
    let a = p.step(Event::WorkspaceRemoved(true));
    assert!(matches!(a, Action::Exit(ExitStatus::Failure)));
    assert_eq!(p.exit, Some(ExitStatus::Failure));
    assert!(p.sealed);
}

#[test]
fn accepts_only_the_awaited_event_kind() {
    let p = Pipeline::new(make_job(None, false, false));
    assert!(p.accepts(&Event::ArchiveCreated(true)));
    assert!(!p.accepts(&Event::FileStaged(true)));
    assert!(!p.accepts(&Event::WorkspaceRemoved(true)));
}

#[test]
fn machine_phases_progress() {
    let mut p = Pipeline::new(make_job(None, false, false));
    assert_eq!(p.phase, Phase::AwaitArchive);
    let _ = p.initial_action();
    let _ = p.step(Event::ArchiveCreated(true));
    assert_eq!(p.phase, Phase::AwaitWorkspace);
    let _ = p.step(Event::WorkspaceCreated(true));
    assert_eq!(p.phase, Phase::AwaitDump);
}
