use vstd::prelude::*;

use crate::job::CaptureJob;
use crate::model::{
    ArtifactId, CompletionEvent, ContainerList, ContainerRecord, EventV, ExitStatus, ImageRecord,
    Lookup, PodRecord, lookup_has_label,
};
use crate::names::{archive_name, artifact_name, spec_archive_name, spec_artifact_name};

verus! {

/// What the machine is waiting for: each phase names the outside outcome that
/// the driver must report next.
#[derive(Clone, Copy, PartialEq, Eq, Structural, Debug)]
pub enum Phase {
    AwaitArchive,
    AwaitWorkspace,
    AwaitDump,
    AwaitPod,
    AwaitMetaStaged,
    AwaitPodInfoStaged,
    AwaitContainers,
    AwaitInspect,
    AwaitInspectStaged,
    AwaitPsStaged,
    AwaitLog,
    AwaitLogStaged,
    AwaitImage,
    AwaitImageStaged,
    AwaitSeal,
    AwaitCleanup,
    AwaitEvent,
    Done,
}

/// The outcome of one outside step, reported by the driver. Enrichment calls
/// degrade to `Lookup::Unavailable`; local writes report plain success.
#[derive(Debug)]
pub enum Event {
    ArchiveCreated(bool),
    WorkspaceCreated(bool),
    DumpCompressed(bool),
    PodResolved(Lookup<PodRecord>),
    FileStaged(bool),
    ContainersListed(Lookup<ContainerList>),
    PodInspected(Lookup<String>),
    LogFetched(Lookup<String>),
    ImageFetched(Lookup<ImageRecord>),
    ArchiveSealed(bool),
    WorkspaceRemoved(bool),
    EventWritten(bool),
}

/// What the driver must do next. Payloads carry everything the outside step
/// needs: file names, contents, identifiers.
#[derive(Debug)]
pub enum Action {
    /// Create the destination archive at this path and take an exclusive lock.
    CreateArchive(String),
    /// Create the scratch directory, parents included.
    CreateWorkspace,
    /// Stream standard input through the compressor into this staging file.
    CompressDump(String),
    /// Ask the inspection tool for the pod owning this hostname.
    ResolvePod(String),
    /// Write this content under this name in the scratch directory.
    StageFile(String, String),
    /// Ask the inspection tool for the containers of this pod.
    ListContainers(String),
    /// Ask the inspection tool for the runtime state of this pod.
    InspectPod(String),
    /// Fetch the last lines of this container's log.
    FetchLog(String, u32),
    /// Fetch image metadata by this image reference.
    FetchImage(String),
    /// Fold the scratch directory into the archive and close its handle.
    SealArchive,
    /// Remove the scratch directory.
    RemoveWorkspace,
    /// Write this completion event record to the event directory.
    EmitEvent(CompletionEvent),
    /// Terminate the process with this status.
    Exit(ExitStatus),
}

/// Ghost form of an action.
#[verifier::ext_equal]
pub ghost enum ActionV {
    CreateArchive(Seq<char>),
    CreateWorkspace,
    CompressDump(Seq<char>),
    ResolvePod(Seq<char>),
    StageFile(Seq<char>, Seq<char>),
    ListContainers(Seq<char>),
    InspectPod(Seq<char>),
    FetchLog(Seq<char>, u32),
    FetchImage(Seq<char>),
    SealArchive,
    RemoveWorkspace,
    EmitEvent(EventV),
    Exit(ExitStatus),
}

impl View for Action {
    type V = ActionV;

    open spec fn view(&self) -> ActionV {
        match self {
            Action::CreateArchive(p) => ActionV::CreateArchive(p@),
            Action::CreateWorkspace => ActionV::CreateWorkspace,
            Action::CompressDump(n) => ActionV::CompressDump(n@),
            Action::ResolvePod(h) => ActionV::ResolvePod(h@),
            Action::StageFile(n, c) => ActionV::StageFile(n@, c@),
            Action::ListContainers(i) => ActionV::ListContainers(i@),
            Action::InspectPod(i) => ActionV::InspectPod(i@),
            Action::FetchLog(i, n) => ActionV::FetchLog(i@, *n),
            Action::FetchImage(r) => ActionV::FetchImage(r@),
            Action::SealArchive => ActionV::SealArchive,
            Action::RemoveWorkspace => ActionV::RemoveWorkspace,
            Action::EmitEvent(e) => ActionV::EmitEvent(e@),
            Action::Exit(s) => ActionV::Exit(*s),
        }
    }
}

/// Mathematical state of one capture run: the job's configuration, the
/// machine's progress, and the bookkeeping the properties speak of.
#[verifier::ext_equal]
pub ghost struct Model {
    pub base: Seq<char>,
    pub dest: Seq<char>,
    pub hostname: Seq<char>,
    pub dump_info: Seq<char>,
    pub selector: Option<Seq<char>>,
    pub ignore_crio: bool,
    pub core_events: bool,
    pub log_tail: u32,
    pub namespace: Seq<char>,
    pub podname: Seq<char>,
    pub phase: Phase,
    pub staged: Seq<ArtifactId>,
    pub archive_created: bool,
    pub sealed: bool,
    pub workspace_created: bool,
    pub cleanup_requested: bool,
    pub pod_id: Option<Seq<char>>,
    pub pod_json: Seq<char>,
    pub ps_json: Seq<char>,
    pub containers: Seq<ContainerRecord>,
    pub next: int,
    pub images: Seq<Seq<char>>,
    pub pending_exit: ExitStatus,
    pub pending_event: Option<bool>,
    pub exit: Option<ExitStatus>,
}

pub open spec fn pod_id_of(l: Lookup<PodRecord>) -> Option<Seq<char>> {
    match l {
        Lookup::Present(p) => match p.id {
            Some(s) => Some(s@),
            None => None,
        },
        Lookup::Unavailable => None,
    }
}

pub open spec fn pod_json_of(l: Lookup<PodRecord>) -> Seq<char> {
    match l {
        Lookup::Present(p) => p.json@,
        Lookup::Unavailable => "{}"@,
    }
}

pub open spec fn namespace_of(l: Lookup<PodRecord>) -> Seq<char> {
    match l {
        Lookup::Present(p) => match p.namespace {
            Some(s) => s@,
            None => "unknown"@,
        },
        Lookup::Unavailable => "unknown"@,
    }
}

pub open spec fn podname_of(l: Lookup<PodRecord>) -> Seq<char> {
    match l {
        Lookup::Present(p) => match p.name {
            Some(s) => s@,
            None => "unknown"@,
        },
        Lookup::Unavailable => "unknown"@,
    }
}

/// The configured label filter rejects the resolved pod.
pub open spec fn spec_skips(selector: Option<Seq<char>>, l: Lookup<PodRecord>) -> bool {
    match selector {
        Some(k) => !lookup_has_label(l, k),
        None => false,
    }
}

/// Text staged for an enrichment result: the record itself, or the empty
/// object when the call degraded.
pub open spec fn text_or_empty_obj(l: Lookup<String>) -> Seq<char> {
    match l {
        Lookup::Present(s) => s@,
        Lookup::Unavailable => "{}"@,
    }
}

pub open spec fn log_text_of(l: Lookup<String>) -> Seq<char> {
    match l {
        Lookup::Present(s) => s@,
        Lookup::Unavailable => Seq::empty(),
    }
}

pub open spec fn image_json_of(l: Lookup<ImageRecord>) -> Seq<char> {
    match l {
        Lookup::Present(r) => r.json@,
        Lookup::Unavailable => "{}"@,
    }
}

/// The completion event built from the machine's state: the full variant when
/// correlation happened, the reduced one otherwise.
pub open spec fn spec_event(m: Model, correlated: bool) -> EventV {
    EventV {
        run_name: m.base,
        archive_name: spec_archive_name(m.base),
        namespace: m.namespace,
        podname: m.podname,
        correlated,
        pod_json: if correlated {
            m.pod_json
        } else {
            "{}"@
        },
        image_jsons: if correlated {
            m.images
        } else {
            Seq::empty()
        },
    }
}

/// The machine's state before anything has run.
pub open spec fn spec_init(job: CaptureJob) -> Model {
    Model {
        base: job.base_name@,
        dest: job.destination_path@,
        hostname: job.hostname@,
        dump_info: job.dump_info@,
        selector: match job.pod_selector_label {
            Some(s) => Some(s@),
            None => None,
        },
        ignore_crio: job.ignore_crio,
        core_events: job.core_events,
        log_tail: job.log_tail,
        namespace: job.namespace@,
        podname: job.podname@,
        phase: Phase::AwaitArchive,
        staged: Seq::empty(),
        archive_created: false,
        sealed: false,
        workspace_created: false,
        cleanup_requested: false,
        pod_id: None,
        pod_json: "{}"@,
        ps_json: "{}"@,
        containers: Seq::empty(),
        next: 0,
        images: Seq::empty(),
        pending_exit: ExitStatus::Success,
        pending_event: None,
        exit: None,
    }
}

/// A fatal-local failure: seal whatever was archived, then clean up and exit
/// non-zero. The shared abort route of every write-failure site.
pub open spec fn spec_abort(m: Model) -> Model {
    Model {
        pending_exit: ExitStatus::Failure,
        pending_event: None,
        phase: Phase::AwaitSeal,
        ..m
    }
}

/// Whether the per-container loop continues at `m.next`: there is a container
/// left and it carries an image reference. A missing reference ends the loop
/// for the remaining containers without failing the run.
pub open spec fn loop_continues(m: Model) -> bool {
    &&& m.next < m.containers.len()
    &&& m.containers[m.next].image_ref is Some
}

pub open spec fn spec_loop_state(m: Model) -> Model {
    if loop_continues(m) {
        Model { phase: Phase::AwaitLog, ..m }
    } else {
        Model {
            pending_exit: ExitStatus::Success,
            pending_event: Some(true),
            phase: Phase::AwaitSeal,
            ..m
        }
    }
}

pub open spec fn container_log_id(m: Model) -> Seq<char> {
    match m.containers[m.next].id {
        Some(s) => s@,
        None => Seq::empty(),
    }
}

pub open spec fn spec_loop_action(m: Model) -> ActionV {
    if loop_continues(m) {
        ActionV::FetchLog(container_log_id(m), m.log_tail)
    } else {
        ActionV::SealArchive
    }
}

/// Whether a completion event is owed once the archive is sealed.
pub open spec fn emits_event(m: Model) -> bool {
    m.pending_event is Some && m.core_events
}

pub open spec fn spec_finish_state(m: Model) -> Model {
    if emits_event(m) {
        Model { phase: Phase::AwaitEvent, ..m }
    } else {
        Model { phase: Phase::Done, exit: Some(m.pending_exit), ..m }
    }
}

pub open spec fn spec_finish_action(m: Model) -> ActionV {
    if emits_event(m) {
        ActionV::EmitEvent(spec_event(m, m.pending_event->0))
    } else {
        ActionV::Exit(m.pending_exit)
    }
}

/// The event kind the machine accepts in each phase.
pub open spec fn expects(m: Model, ev: Event) -> bool {
    match m.phase {
        Phase::AwaitArchive => ev is ArchiveCreated,
        Phase::AwaitWorkspace => ev is WorkspaceCreated,
        Phase::AwaitDump => ev is DumpCompressed,
        Phase::AwaitPod => ev is PodResolved,
        Phase::AwaitMetaStaged => ev is FileStaged,
        Phase::AwaitPodInfoStaged => ev is FileStaged,
        Phase::AwaitContainers => ev is ContainersListed,
        Phase::AwaitInspect => ev is PodInspected,
        Phase::AwaitInspectStaged => ev is FileStaged,
        Phase::AwaitPsStaged => ev is FileStaged,
        Phase::AwaitLog => ev is LogFetched,
        Phase::AwaitLogStaged => ev is FileStaged,
        Phase::AwaitImage => ev is ImageFetched,
        Phase::AwaitImageStaged => ev is FileStaged,
        Phase::AwaitSeal => ev is ArchiveSealed,
        Phase::AwaitCleanup => ev is WorkspaceRemoved,
        Phase::AwaitEvent => ev is EventWritten,
        Phase::Done => false,
    }
}

/// The transition relation: the machine's state after the driver reports
/// `ev`. An event of the wrong kind for the phase changes nothing.
pub open spec fn spec_next(m: Model, ev: Event) -> Model {
    match (m.phase, ev) {
        (Phase::AwaitArchive, Event::ArchiveCreated(ok)) => {
            if ok {
                Model { archive_created: true, phase: Phase::AwaitWorkspace, ..m }
            } else {
                Model { phase: Phase::Done, exit: Some(ExitStatus::Failure), ..m }
            }
        },
        (Phase::AwaitWorkspace, Event::WorkspaceCreated(ok)) => {
            if ok {
                Model { workspace_created: true, phase: Phase::AwaitDump, ..m }
            } else {
                spec_abort(m)
            }
        },
        (Phase::AwaitDump, Event::DumpCompressed(ok)) => {
            if ok {
                Model { staged: m.staged.push(ArtifactId::Dump), phase: Phase::AwaitPod, ..m }
            } else {
                spec_abort(m)
            }
        },
        (Phase::AwaitPod, Event::PodResolved(l)) => {
            let stored = Model {
                pod_id: pod_id_of(l),
                pod_json: pod_json_of(l),
                ..m
            };
            if spec_skips(m.selector, l) {
                Model {
                    pending_exit: ExitStatus::Success,
                    pending_event: None,
                    phase: Phase::AwaitSeal,
                    ..stored
                }
            } else {
                Model {
                    namespace: namespace_of(l),
                    podname: podname_of(l),
                    phase: Phase::AwaitMetaStaged,
                    ..stored
                }
            }
        },
        (Phase::AwaitMetaStaged, Event::FileStaged(ok)) => {
            if !ok {
                spec_abort(m)
            } else {
                let staged = Model { staged: m.staged.push(ArtifactId::DumpMetadata), ..m };
                if m.ignore_crio {
                    Model {
                        pending_exit: ExitStatus::Success,
                        pending_event: Some(false),
                        phase: Phase::AwaitSeal,
                        ..staged
                    }
                } else {
                    Model { phase: Phase::AwaitPodInfoStaged, ..staged }
                }
            }
        },
        (Phase::AwaitPodInfoStaged, Event::FileStaged(ok)) => {
            if !ok {
                spec_abort(m)
            } else {
                let staged = Model { staged: m.staged.push(ArtifactId::PodInfo), ..m };
                match m.pod_id {
                    None => spec_abort(staged),
                    Some(_) => Model { phase: Phase::AwaitContainers, ..staged },
                }
            }
        },
        (Phase::AwaitContainers, Event::ContainersListed(l)) => {
            match l {
                Lookup::Unavailable => spec_abort(m),
                Lookup::Present(cl) => Model {
                    containers: cl.containers@,
                    ps_json: cl.json@,
                    next: 0,
                    phase: Phase::AwaitInspect,
                    ..m
                },
            }
        },
        (Phase::AwaitInspect, Event::PodInspected(_l)) => {
            Model { phase: Phase::AwaitInspectStaged, ..m }
        },
        (Phase::AwaitInspectStaged, Event::FileStaged(ok)) => {
            if !ok {
                spec_abort(m)
            } else {
                Model {
                    staged: m.staged.push(ArtifactId::InspectPod),
                    phase: Phase::AwaitPsStaged,
                    ..m
                }
            }
        },
        (Phase::AwaitPsStaged, Event::FileStaged(ok)) => {
            if !ok {
                spec_abort(m)
            } else {
                spec_loop_state(
                    Model { staged: m.staged.push(ArtifactId::ProcessList), next: 0, ..m },
                )
            }
        },
        (Phase::AwaitLog, Event::LogFetched(_l)) => Model { phase: Phase::AwaitLogStaged, ..m },
        (Phase::AwaitLogStaged, Event::FileStaged(ok)) => {
            if !ok {
                spec_abort(m)
            } else {
                Model {
                    staged: m.staged.push(ArtifactId::ContainerLog(m.next as usize)),
                    phase: Phase::AwaitImage,
                    ..m
                }
            }
        },
        (Phase::AwaitImage, Event::ImageFetched(l)) => {
            Model {
                images: m.images.push(image_json_of(l)),
                phase: Phase::AwaitImageStaged,
                ..m
            }
        },
        (Phase::AwaitImageStaged, Event::FileStaged(ok)) => {
            if !ok {
                spec_abort(m)
            } else {
                spec_loop_state(
                    Model {
                        staged: m.staged.push(ArtifactId::ContainerImage(m.next as usize)),
                        next: m.next + 1,
                        ..m
                    },
                )
            }
        },
        (Phase::AwaitSeal, Event::ArchiveSealed(ok)) => {
            let sealed = if ok {
                Model { sealed: true, ..m }
            } else {
                Model {
                    sealed: true,
                    pending_exit: ExitStatus::Failure,
                    pending_event: None,
                    ..m
                }
            };
            if m.workspace_created {
                Model { cleanup_requested: true, phase: Phase::AwaitCleanup, ..sealed }
            } else {
                spec_finish_state(sealed)
            }
        },
        (Phase::AwaitCleanup, Event::WorkspaceRemoved(_ok)) => spec_finish_state(m),
        (Phase::AwaitEvent, Event::EventWritten(ok)) => {
            let status = if ok {
                m.pending_exit
            } else {
                ExitStatus::Failure
            };
            Model { phase: Phase::Done, exit: Some(status), ..m }
        },
        _ => m,
    }
}

/// The action the machine hands the driver together with `spec_next`'s state.
pub open spec fn spec_action(m: Model, ev: Event) -> ActionV {
    match (m.phase, ev) {
        (Phase::AwaitArchive, Event::ArchiveCreated(ok)) => {
            if ok {
                ActionV::CreateWorkspace
            } else {
                ActionV::Exit(ExitStatus::Failure)
            }
        },
        (Phase::AwaitWorkspace, Event::WorkspaceCreated(ok)) => {
            if ok {
                ActionV::CompressDump(spec_artifact_name(m.base, ArtifactId::Dump))
            } else {
                ActionV::SealArchive
            }
        },
        (Phase::AwaitDump, Event::DumpCompressed(ok)) => {
            if ok {
                ActionV::ResolvePod(m.hostname)
            } else {
                ActionV::SealArchive
            }
        },
        (Phase::AwaitPod, Event::PodResolved(l)) => {
            if spec_skips(m.selector, l) {
                ActionV::SealArchive
            } else {
                ActionV::StageFile(
                    spec_artifact_name(m.base, ArtifactId::DumpMetadata),
                    m.dump_info,
                )
            }
        },
        (Phase::AwaitMetaStaged, Event::FileStaged(ok)) => {
            if !ok {
                ActionV::SealArchive
            } else if m.ignore_crio {
                ActionV::SealArchive
            } else {
                ActionV::StageFile(
                    spec_artifact_name(m.base, ArtifactId::PodInfo),
                    m.pod_json,
                )
            }
        },
        (Phase::AwaitPodInfoStaged, Event::FileStaged(ok)) => {
            if !ok {
                ActionV::SealArchive
            } else {
                match m.pod_id {
                    None => ActionV::SealArchive,
                    Some(id) => ActionV::ListContainers(id),
                }
            }
        },
        (Phase::AwaitContainers, Event::ContainersListed(l)) => {
            match l {
                Lookup::Unavailable => ActionV::SealArchive,
                Lookup::Present(_cl) => ActionV::InspectPod(match m.pod_id {
                    Some(id) => id,
                    None => Seq::empty(),
                }),
            }
        },
        (Phase::AwaitInspect, Event::PodInspected(l)) => ActionV::StageFile(
            spec_artifact_name(m.base, ArtifactId::InspectPod),
            text_or_empty_obj(l),
        ),
        (Phase::AwaitInspectStaged, Event::FileStaged(ok)) => {
            if !ok {
                ActionV::SealArchive
            } else {
                ActionV::StageFile(
                    spec_artifact_name(m.base, ArtifactId::ProcessList),
                    m.ps_json,
                )
            }
        },
        (Phase::AwaitPsStaged, Event::FileStaged(ok)) => {
            if !ok {
                ActionV::SealArchive
            } else {
                spec_loop_action(
                    Model { staged: m.staged.push(ArtifactId::ProcessList), next: 0, ..m },
                )
            }
        },
        (Phase::AwaitLog, Event::LogFetched(l)) => ActionV::StageFile(
            spec_artifact_name(m.base, ArtifactId::ContainerLog(m.next as usize)),
            log_text_of(l),
        ),
        (Phase::AwaitLogStaged, Event::FileStaged(ok)) => {
            if !ok {
                ActionV::SealArchive
            } else {
                ActionV::FetchImage(match m.containers[m.next].image_ref {
                    Some(s) => s@,
                    None => Seq::empty(),
                })
            }
        },
        (Phase::AwaitImage, Event::ImageFetched(l)) => ActionV::StageFile(
            spec_artifact_name(m.base, ArtifactId::ContainerImage(m.next as usize)),
            image_json_of(l),
        ),
        (Phase::AwaitImageStaged, Event::FileStaged(ok)) => {
            if !ok {
                ActionV::SealArchive
            } else {
                spec_loop_action(
                    Model {
                        staged: m.staged.push(ArtifactId::ContainerImage(m.next as usize)),
                        next: m.next + 1,
                        ..m
                    },
                )
            }
        },
        (Phase::AwaitSeal, Event::ArchiveSealed(ok)) => {
            let sealed = if ok {
                Model { sealed: true, ..m }
            } else {
                Model {
                    sealed: true,
                    pending_exit: ExitStatus::Failure,
                    pending_event: None,
                    ..m
                }
            };
            if m.workspace_created {
                ActionV::RemoveWorkspace
            } else {
                spec_finish_action(sealed)
            }
        },
        (Phase::AwaitCleanup, Event::WorkspaceRemoved(_ok)) => spec_finish_action(m),
        (Phase::AwaitEvent, Event::EventWritten(ok)) => {
            if ok {
                ActionV::Exit(m.pending_exit)
            } else {
                ActionV::Exit(ExitStatus::Failure)
            }
        },
        _ => ActionV::Exit(ExitStatus::Failure),
    }
}

pub open spec fn in_loop_phase(p: Phase) -> bool {
    p == Phase::AwaitLog || p == Phase::AwaitLogStaged || p == Phase::AwaitImage || p
        == Phase::AwaitImageStaged
}

pub open spec fn archive_open_phase(p: Phase) -> bool {
    p == Phase::AwaitWorkspace || p == Phase::AwaitDump || p == Phase::AwaitPod || p
        == Phase::AwaitMetaStaged || p == Phase::AwaitPodInfoStaged || p == Phase::AwaitContainers
        || p == Phase::AwaitInspect || p == Phase::AwaitInspectStaged || p == Phase::AwaitPsStaged
        || in_loop_phase(p) || p == Phase::AwaitSeal
}

/// The machine's invariant. At `Done` it yields the run's guarantees: a local
/// exit is 0 or 1, an archive once created was sealed, and a workspace once
/// created had its removal requested.
pub open spec fn minv(m: Model) -> bool {
    &&& 0 <= m.next <= m.containers.len()
    &&& (m.phase == Phase::Done <==> m.exit is Some)
    &&& (match m.exit {
        Some(e) => e == ExitStatus::Success || e == ExitStatus::Failure,
        None => true,
    })
    &&& (m.sealed ==> m.archive_created)
    &&& (m.phase == Phase::Done ==> (m.archive_created ==> m.sealed))
    &&& (m.phase == Phase::Done ==> (m.workspace_created ==> m.cleanup_requested))
    &&& (m.phase == Phase::AwaitArchive ==> !m.archive_created && !m.workspace_created
        && !m.sealed)
    &&& (archive_open_phase(m.phase) ==> m.archive_created && !m.sealed)
    &&& (m.phase == Phase::AwaitWorkspace ==> !m.workspace_created)
    &&& (m.phase == Phase::AwaitCleanup ==> m.sealed && m.cleanup_requested)
    &&& (m.phase == Phase::AwaitEvent ==> m.sealed && (m.workspace_created
        ==> m.cleanup_requested))
    &&& (m.pending_exit == ExitStatus::Success || m.pending_exit == ExitStatus::Failure)
    &&& (m.pending_event is Some ==> m.pending_exit == ExitStatus::Success)
    &&& (m.phase == Phase::AwaitContainers ==> m.pod_id is Some)
    &&& (m.phase == Phase::AwaitInspect ==> m.pod_id is Some)
    &&& (in_loop_phase(m.phase) ==> m.next < m.containers.len()
        && m.containers[m.next].image_ref is Some)
}

pub proof fn lemma_init_inv(job: CaptureJob)
    ensures
        minv(spec_init(job)),
{
}

/// Every transition preserves the invariant.
pub proof fn lemma_next_inv(m: Model, ev: Event)
    requires
        minv(m),
    ensures
        minv(spec_next(m, ev)),
{
    match m.phase {
        Phase::AwaitArchive => assert(minv(spec_next(m, ev))),
        Phase::AwaitWorkspace => assert(minv(spec_next(m, ev))),
        Phase::AwaitDump => assert(minv(spec_next(m, ev))),
        Phase::AwaitPod => assert(minv(spec_next(m, ev))),
        Phase::AwaitMetaStaged => assert(minv(spec_next(m, ev))),
        Phase::AwaitPodInfoStaged => assert(minv(spec_next(m, ev))),
        Phase::AwaitContainers => assert(minv(spec_next(m, ev))),
        Phase::AwaitInspect => assert(minv(spec_next(m, ev))),
        Phase::AwaitInspectStaged => assert(minv(spec_next(m, ev))),
        Phase::AwaitPsStaged => assert(minv(spec_next(m, ev))),
        Phase::AwaitLog => assert(minv(spec_next(m, ev))),
        Phase::AwaitLogStaged => assert(minv(spec_next(m, ev))),
        Phase::AwaitImage => assert(minv(spec_next(m, ev))),
        Phase::AwaitImageStaged => assert(minv(spec_next(m, ev))),
        Phase::AwaitSeal => assert(minv(spec_next(m, ev))),
        Phase::AwaitCleanup => assert(minv(spec_next(m, ev))),
        Phase::AwaitEvent => assert(minv(spec_next(m, ev))),
        Phase::Done => assert(minv(spec_next(m, ev))),
    }
}

/// The executable machine. The driver performs each returned action outside,
/// reports its outcome as the next event, and stops at `Action::Exit`.
pub struct Pipeline {
    pub job: CaptureJob,
    pub phase: Phase,
    pub staged: Vec<ArtifactId>,
    pub archive_created: bool,
    pub sealed: bool,
    pub workspace_created: bool,
    pub cleanup_requested: bool,
    pub pod_id: Option<String>,
    pub pod_json: String,
    pub ps_json: String,
    pub containers: Vec<ContainerRecord>,
    pub next: usize,
    pub images: Vec<String>,
    pub pending_exit: ExitStatus,
    pub pending_event: Option<bool>,
    pub exit: Option<ExitStatus>,
}

impl View for Pipeline {
    type V = Model;

    open spec fn view(&self) -> Model {
        Model {
            base: self.job.base_name@,
            dest: self.job.destination_path@,
            hostname: self.job.hostname@,
            dump_info: self.job.dump_info@,
            selector: match self.job.pod_selector_label {
                Some(s) => Some(s@),
                None => None,
            },
            ignore_crio: self.job.ignore_crio,
            core_events: self.job.core_events,
            log_tail: self.job.log_tail,
            namespace: self.job.namespace@,
            podname: self.job.podname@,
            phase: self.phase,
            staged: self.staged@,
            archive_created: self.archive_created,
            sealed: self.sealed,
            workspace_created: self.workspace_created,
            cleanup_requested: self.cleanup_requested,
            pod_id: match self.pod_id {
                Some(s) => Some(s@),
                None => None,
            },
            pod_json: self.pod_json@,
            ps_json: self.ps_json@,
            containers: self.containers@,
            next: self.next as int,
            images: self.images@.map_values(|s: String| s@),
            pending_exit: self.pending_exit,
            pending_event: self.pending_event,
            exit: self.exit,
        }
    }
}

impl Pipeline {
    pub open spec fn inv(&self) -> bool {
        minv(self@)
    }

    /// A fresh machine for one capture job.
    pub fn new(job: CaptureJob) -> (p: Pipeline)
        ensures
            p@ == spec_init(job),
            p.inv(),
    {
        let p = Pipeline {
            job,
            phase: Phase::AwaitArchive,
            staged: Vec::new(),
            archive_created: false,
            sealed: false,
            workspace_created: false,
            cleanup_requested: false,
            pod_id: None,
            pod_json: String::from_str("{}"),
            ps_json: String::from_str("{}"),
            containers: Vec::new(),
            next: 0,
            images: Vec::new(),
            pending_exit: ExitStatus::Success,
            pending_event: None,
            exit: None,
        };
        proof {
            assert(p@ =~~= spec_init(p.job));
        }
        p
    }

    /// The first thing the driver must do: create and lock the destination
    /// archive, so that no staging write precedes the lock.
    pub fn initial_action(&self) -> (a: Action)
        requires
            self@.phase == Phase::AwaitArchive,
        ensures
            a@ == ActionV::CreateArchive(self@.dest),
    {
        Action::CreateArchive(self.job.destination_path.clone())
    }

    /// True when `ev` is the outcome kind the machine awaits; the driver can
    /// test this before calling `step`.
    pub fn accepts(&self, ev: &Event) -> (r: bool)
        ensures
            r == expects(self@, *ev),
    {
        match (&self.phase, ev) {
            (Phase::AwaitArchive, Event::ArchiveCreated(_)) => true,
            (Phase::AwaitWorkspace, Event::WorkspaceCreated(_)) => true,
            (Phase::AwaitDump, Event::DumpCompressed(_)) => true,
            (Phase::AwaitPod, Event::PodResolved(_)) => true,
            (Phase::AwaitMetaStaged, Event::FileStaged(_)) => true,
            (Phase::AwaitPodInfoStaged, Event::FileStaged(_)) => true,
            (Phase::AwaitContainers, Event::ContainersListed(_)) => true,
            (Phase::AwaitInspect, Event::PodInspected(_)) => true,
            (Phase::AwaitInspectStaged, Event::FileStaged(_)) => true,
            (Phase::AwaitPsStaged, Event::FileStaged(_)) => true,
            (Phase::AwaitLog, Event::LogFetched(_)) => true,
            (Phase::AwaitLogStaged, Event::FileStaged(_)) => true,
            (Phase::AwaitImage, Event::ImageFetched(_)) => true,
            (Phase::AwaitImageStaged, Event::FileStaged(_)) => true,
            (Phase::AwaitSeal, Event::ArchiveSealed(_)) => true,
            (Phase::AwaitCleanup, Event::WorkspaceRemoved(_)) => true,
            (Phase::AwaitEvent, Event::EventWritten(_)) => true,
            _ => false,
        }
    }

    fn abort(&mut self) -> (a: Action)
        ensures
            final(self)@ == spec_abort(old(self)@),
            a@ == ActionV::SealArchive,
    {
        self.pending_exit = ExitStatus::Failure;
        self.pending_event = None;
        self.phase = Phase::AwaitSeal;
        proof {
            assert(self@ =~~= spec_abort(old(self)@));
        }
        Action::SealArchive
    }

    fn advance_loop(&mut self) -> (a: Action)
        requires
            0 <= old(self)@.next <= old(self)@.containers.len(),
        ensures
            final(self)@ == spec_loop_state(old(self)@),
            a@ == spec_loop_action(old(self)@),
    {
        let cont = if self.next < self.containers.len() {
            self.containers[self.next].image_ref.is_some()
        } else {
            false
        };
        if cont {
            self.phase = Phase::AwaitLog;
            let id = match &self.containers[self.next].id {
                Some(s) => s.clone(),
                None => String::new(),
            };
            proof {
                assert(self@ =~~= spec_loop_state(old(self)@));
            }
            Action::FetchLog(id, self.job.log_tail)
        } else {
            self.pending_exit = ExitStatus::Success;
            self.pending_event = Some(true);
            self.phase = Phase::AwaitSeal;
            proof {
                assert(self@ =~~= spec_loop_state(old(self)@));
            }
            Action::SealArchive
        }
    }

    /// The completion event for this run.
    fn build_event(&self, correlated: bool) -> (e: CompletionEvent)
        ensures
            e@ == spec_event(self@, correlated),
    {
        let e = CompletionEvent {
            run_name: self.job.base_name.clone(),
            archive_name: archive_name(&self.job.base_name),
            namespace: self.job.namespace.clone(),
            podname: self.job.podname.clone(),
            correlated,
            pod_json: if correlated {
                self.pod_json.clone()
            } else {
                String::from_str("{}")
            },
            image_jsons: if correlated {
                clone_strings(&self.images)
            } else {
                Vec::new()
            },
        };
        proof {
            assert(e@ =~~= spec_event(self@, correlated));
        }
        e
    }

    fn finish(&mut self) -> (a: Action)
        ensures
            final(self)@ == spec_finish_state(old(self)@),
            a@ == spec_finish_action(old(self)@),
    {
        let emit = self.pending_event.is_some() && self.job.core_events;
        if emit {
            let correlated = match self.pending_event {
                Some(c) => c,
                None => false,
            };
            let e = self.build_event(correlated);
            self.phase = Phase::AwaitEvent;
            proof {
                assert(self@ =~~= spec_finish_state(old(self)@));
                assert(Action::EmitEvent(e)@ =~~= spec_finish_action(old(self)@));
            }
            Action::EmitEvent(e)
        } else {
            self.phase = Phase::Done;
            self.exit = Some(self.pending_exit);
            proof {
                assert(self@ =~~= spec_finish_state(old(self)@));
            }
            Action::Exit(self.pending_exit)
        }
    }

    /// Feeds one outside outcome to the machine and yields the next action.
    #[verifier::rlimit(100)]
    pub fn step(&mut self, ev: Event) -> (a: Action)
        requires
            old(self).inv(),
            expects(old(self)@, ev),
        ensures
            final(self)@ == spec_next(old(self)@, ev),
            a@ == spec_action(old(self)@, ev),
            final(self).inv(),
    {
        let ghost ev0 = ev;
        proof {
            lemma_next_inv(old(self)@, ev);
        }
        match (self.phase, ev) {
            (Phase::AwaitArchive, Event::ArchiveCreated(ok)) => {
                if ok {
                    self.archive_created = true;
                    self.phase = Phase::AwaitWorkspace;
                    proof {
                        assert(self@ =~~= spec_next(old(self)@, ev0));
                    }
                    Action::CreateWorkspace
                } else {
                    self.phase = Phase::Done;
                    self.exit = Some(ExitStatus::Failure);
                    proof {
                        assert(self@ =~~= spec_next(old(self)@, ev0));
                    }
                    Action::Exit(ExitStatus::Failure)
                }
            },
            (Phase::AwaitWorkspace, Event::WorkspaceCreated(ok)) => {
                if ok {
                    self.workspace_created = true;
                    self.phase = Phase::AwaitDump;
                    proof {
                        assert(self@ =~~= spec_next(old(self)@, ev0));
                    }
                    Action::CompressDump(artifact_name(&self.job.base_name, &ArtifactId::Dump))
                } else {
                    self.abort()
                }
            },
            (Phase::AwaitDump, Event::DumpCompressed(ok)) => {
                if ok {
                    self.staged.push(ArtifactId::Dump);
                    self.phase = Phase::AwaitPod;
                    proof {
                        assert(self@ =~~= spec_next(old(self)@, ev0));
                    }
                    Action::ResolvePod(self.job.hostname.clone())
                } else {
                    self.abort()
                }
            },
            (Phase::AwaitPod, Event::PodResolved(l)) => {
                match &l {
                    Lookup::Present(p) => {
                        self.pod_id = match &p.id {
                            Some(s) => Some(s.clone()),
                            None => None,
                        };
                        self.pod_json = p.json.clone();
                    },
                    Lookup::Unavailable => {
                        self.pod_id = None;
                        self.pod_json = String::from_str("{}");
                    },
                }
                let skip = match &self.job.pod_selector_label {
                    Some(k) => match &l {
                        Lookup::Present(p) => !p.has_label(k),
                        Lookup::Unavailable => true,
                    },
                    None => false,
                };
                if skip {
                    self.pending_exit = ExitStatus::Success;
                    self.pending_event = None;
                    self.phase = Phase::AwaitSeal;
                    proof {
                        assert(self@ =~~= spec_next(old(self)@, ev0));
                    }
                    Action::SealArchive
                } else {
                    let ns = match &l {
                        Lookup::Present(p) => match &p.namespace {
                            Some(s) => s.clone(),
                            None => String::from_str("unknown"),
                        },
                        Lookup::Unavailable => String::from_str("unknown"),
                    };
                    let pn = match &l {
                        Lookup::Present(p) => match &p.name {
                            Some(s) => s.clone(),
                            None => String::from_str("unknown"),
                        },
                        Lookup::Unavailable => String::from_str("unknown"),
                    };
                    self.job.set_namespace(ns);
                    self.job.set_podname(pn);
                    self.phase = Phase::AwaitMetaStaged;
                    proof {
                        assert(self@ =~~= spec_next(old(self)@, ev0));
                    }
                    Action::StageFile(
                        artifact_name(&self.job.base_name, &ArtifactId::DumpMetadata),
                        self.job.dump_info.clone(),
                    )
                }
            },
            (Phase::AwaitMetaStaged, Event::FileStaged(ok)) => {
                if !ok {
                    self.abort()
                } else {
                    self.staged.push(ArtifactId::DumpMetadata);
                    if self.job.ignore_crio {
                        self.pending_exit = ExitStatus::Success;
                        self.pending_event = Some(false);
                        self.phase = Phase::AwaitSeal;
                        proof {
                            assert(self@ =~~= spec_next(old(self)@, ev0));
                        }
                        Action::SealArchive
                    } else {
                        self.phase = Phase::AwaitPodInfoStaged;
                        proof {
                            assert(self@ =~~= spec_next(old(self)@, ev0));
                        }
                        Action::StageFile(
                            artifact_name(&self.job.base_name, &ArtifactId::PodInfo),
                            self.pod_json.clone(),
                        )
                    }
                }
            },
            (Phase::AwaitPodInfoStaged, Event::FileStaged(ok)) => {
                if !ok {
                    self.abort()
                } else {
                    self.staged.push(ArtifactId::PodInfo);
                    let id = match &self.pod_id {
                        Some(s) => Some(s.clone()),
                        None => None,
                    };
                    match id {
                        None => self.abort(),
                        Some(id) => {
                            self.phase = Phase::AwaitContainers;
                            proof {
                                assert(self@ =~~= spec_next(old(self)@, ev0));
                            }
                            Action::ListContainers(id)
                        },
                    }
                }
            },
            (Phase::AwaitContainers, Event::ContainersListed(l)) => {
                match l {
                    Lookup::Unavailable => self.abort(),
                    Lookup::Present(cl) => {
                        self.containers = cl.containers;
                        self.ps_json = cl.json;
                        self.next = 0;
                        self.phase = Phase::AwaitInspect;
                        let id = match &self.pod_id {
                            Some(s) => s.clone(),
                            None => String::new(),
                        };
                        proof {
                            assert(self@ =~~= spec_next(old(self)@, ev0));
                        }
                        Action::InspectPod(id)
                    },
                }
            },
            (Phase::AwaitInspect, Event::PodInspected(l)) => {
                self.phase = Phase::AwaitInspectStaged;
                let text = match l {
                    Lookup::Present(s) => s,
                    Lookup::Unavailable => String::from_str("{}"),
                };
                proof {
                    assert(self@ =~~= spec_next(old(self)@, ev0));
                }
                Action::StageFile(
                    artifact_name(&self.job.base_name, &ArtifactId::InspectPod),
                    text,
                )
            },
            (Phase::AwaitInspectStaged, Event::FileStaged(ok)) => {
                if !ok {
                    self.abort()
                } else {
                    self.staged.push(ArtifactId::InspectPod);
                    self.phase = Phase::AwaitPsStaged;
                    proof {
                        assert(self@ =~~= spec_next(old(self)@, ev0));
                    }
                    Action::StageFile(
                        artifact_name(&self.job.base_name, &ArtifactId::ProcessList),
                        self.ps_json.clone(),
                    )
                }
            },
            (Phase::AwaitPsStaged, Event::FileStaged(ok)) => {
                if !ok {
                    self.abort()
                } else {
                    self.staged.push(ArtifactId::ProcessList);
                    self.next = 0;
                    self.advance_loop()
                }
            },
            (Phase::AwaitLog, Event::LogFetched(l)) => {
                self.phase = Phase::AwaitLogStaged;
                let text = match l {
                    Lookup::Present(s) => s,
                    Lookup::Unavailable => String::new(),
                };
                let name = artifact_name(
                    &self.job.base_name,
                    &ArtifactId::ContainerLog(self.next),
                );
                proof {
                    assert(self@ =~~= spec_next(old(self)@, ev0));
                }
                Action::StageFile(name, text)
            },
            (Phase::AwaitLogStaged, Event::FileStaged(ok)) => {
                if !ok {
                    self.abort()
                } else {
                    self.staged.push(ArtifactId::ContainerLog(self.next));
                    self.phase = Phase::AwaitImage;
                    let image_ref = match &self.containers[self.next].image_ref {
                        Some(s) => s.clone(),
                        None => String::new(),
                    };
                    proof {
                        assert(self@ =~~= spec_next(old(self)@, ev0));
                    }
                    Action::FetchImage(image_ref)
                }
            },
            (Phase::AwaitImage, Event::ImageFetched(l)) => {
                let text = match l {
                    Lookup::Present(r) => r.json,
                    Lookup::Unavailable => String::from_str("{}"),
                };
                self.images.push(text.clone());
                self.phase = Phase::AwaitImageStaged;
                let name = artifact_name(
                    &self.job.base_name,
                    &ArtifactId::ContainerImage(self.next),
                );
                proof {
                    assert(self@.images =~~= spec_next(old(self)@, ev0).images);
                    assert(self@ =~~= spec_next(old(self)@, ev0));
                }
                Action::StageFile(name, text)
            },
            (Phase::AwaitImageStaged, Event::FileStaged(ok)) => {
                if !ok {
                    self.abort()
                } else {
                    self.staged.push(ArtifactId::ContainerImage(self.next));
                    let total = self.containers.len();
                    proof {
                        assert(self.next < total);
                    }
                    self.next = self.next + 1;
                    self.advance_loop()
                }
            },
            (Phase::AwaitSeal, Event::ArchiveSealed(ok)) => {
                self.sealed = true;
                if !ok {
                    self.pending_exit = ExitStatus::Failure;
                    self.pending_event = None;
                }
                if self.workspace_created {
                    self.cleanup_requested = true;
                    self.phase = Phase::AwaitCleanup;
                    proof {
                        assert(self@ =~~= spec_next(old(self)@, ev0));
                    }
                    Action::RemoveWorkspace
                } else {
                    self.finish()
                }
            },
            (Phase::AwaitCleanup, Event::WorkspaceRemoved(_ok)) => self.finish(),
            (Phase::AwaitEvent, Event::EventWritten(ok)) => {
                let status = if ok {
                    self.pending_exit
                } else {
                    ExitStatus::Failure
                };
                self.phase = Phase::Done;
                self.exit = Some(status);
                proof {
                    assert(self@ =~~= spec_next(old(self)@, ev0));
                }
                Action::Exit(status)
            },
            _ => {
                proof {
                    assert(false);
                }
                Action::Exit(ExitStatus::Failure)
            },
        }
    }
}

/// Copies a list of serialized records.
fn clone_strings(v: &Vec<String>) -> (r: Vec<String>)
    ensures
        r@.map_values(|s: String| s@) == v@.map_values(|s: String| s@),
{
    let mut r: Vec<String> = Vec::new();
    let mut i: usize = 0;
    while i < v.len()
        invariant
            i <= v@.len(),
            r@.len() == i,
            forall|j: int| 0 <= j < i ==> r@[j]@ == v@[j]@,
        decreases v@.len() - i,
    {
        r.push(v[i].clone());
        i = i + 1;
    }
    proof {
        assert(r@.map_values(|s: String| s@) =~= v@.map_values(|s: String| s@));
    }
    r
}

} // verus!
