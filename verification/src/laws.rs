use vstd::prelude::*;

use crate::job::CaptureJob;
use crate::model::{ArtifactId, ContainerList, ExitStatus, ImageRecord, Lookup, PodRecord};
use crate::pipeline::{
    Event, Model, Phase, lemma_init_inv, lemma_next_inv, minv, spec_init, spec_next, spec_skips,
};

verus! {

/// The machine's state after the driver has reported the events from index
/// `i` on, in order.
pub open spec fn run_from(m: Model, evs: Seq<Event>, i: int) -> Model
    decreases evs.len() - i,
{
    if i < 0 || i >= evs.len() {
        m
    } else {
        run_from(spec_next(m, evs[i]), evs, i + 1)
    }
}

/// The machine's state after the driver has reported each event in turn.
pub open spec fn run(m: Model, evs: Seq<Event>) -> Model {
    run_from(m, evs, 0)
}

pub proof fn lemma_run_from_inv(m: Model, evs: Seq<Event>, i: int)
    requires
        minv(m),
    ensures
        minv(run_from(m, evs, i)),
    decreases evs.len() - i,
{
    if 0 <= i < evs.len() {
        lemma_next_inv(m, evs[i]);
        lemma_run_from_inv(spec_next(m, evs[i]), evs, i + 1);
    }
}

/// Law: whatever the outside outcomes, a run that reaches its terminal state
/// exits 0 or 1 — never the deadline status, which only the supervisor can
/// produce; an archive once created was sealed before the exit; and a
/// workspace once created had its removal requested. Together with the
/// deadline status this makes the three run outcomes exhaustive and mutually
/// exclusive.
pub proof fn law_terminal_guarantees(job: CaptureJob, evs: Seq<Event>)
    ensures
        ({
            let f = run(spec_init(job), evs);
            &&& (f.phase == Phase::Done <==> f.exit is Some)
            &&& (f.phase == Phase::Done ==> f.exit == Some(ExitStatus::Success) || f.exit
                == Some(ExitStatus::Failure))
            &&& (f.phase == Phase::Done ==> (f.archive_created ==> f.sealed))
            &&& (f.phase == Phase::Done ==> (f.workspace_created ==> f.cleanup_requested))
        }),
{
    lemma_init_inv(job);
    lemma_run_from_inv(spec_init(job), evs, 0);
}

/// The events of a run that is rejected by the label filter: every local step
/// succeeds, the pod resolves to `p`, and the machine seals and cleans up.
pub open spec fn label_mismatch_events(p: Lookup<PodRecord>, rm_ok: bool) -> Seq<Event> {
    seq![
        Event::ArchiveCreated(true),
        Event::WorkspaceCreated(true),
        Event::DumpCompressed(true),
        Event::PodResolved(p),
        Event::ArchiveSealed(true),
        Event::WorkspaceRemoved(rm_ok),
    ]
}

/// Law: with a label selector configured whose key the resolved pod's label
/// mapping lacks, the run seals an archive holding only the dump and exits 0,
/// whether or not the scratch removal succeeded.
pub proof fn law_label_mismatch_dump_only(
    job: CaptureJob,
    key: Seq<char>,
    p: Lookup<PodRecord>,
    rm_ok: bool,
)
    requires
        spec_init(job).selector == Some(key),
        !crate::model::lookup_has_label(p, key),
    ensures
        ({
            let f = run(spec_init(job), label_mismatch_events(p, rm_ok));
            &&& f.phase == Phase::Done
            &&& f.exit == Some(ExitStatus::Success)
            &&& f.staged =~= seq![ArtifactId::Dump]
            &&& f.sealed
            &&& f.cleanup_requested
        }),
{
    let m0 = spec_init(job);
    let evs = label_mismatch_events(p, rm_ok);
    let m1 = spec_next(m0, evs[0]);
    let m2 = spec_next(m1, evs[1]);
    let m3 = spec_next(m2, evs[2]);
    let m4 = spec_next(m3, evs[3]);
    let m5 = spec_next(m4, evs[4]);
    let m6 = spec_next(m5, evs[5]);
    assert(spec_skips(m3.selector, p));
    assert(run_from(m0, evs, 0) == run_from(m1, evs, 1));
    assert(run_from(m1, evs, 1) == run_from(m2, evs, 2));
    assert(run_from(m2, evs, 2) == run_from(m3, evs, 3));
    assert(run_from(m3, evs, 3) == run_from(m4, evs, 4));
    assert(run_from(m4, evs, 4) == run_from(m5, evs, 5));
    assert(run_from(m5, evs, 5) == run_from(m6, evs, 6));
    assert(run_from(m6, evs, 6) == m6);
    assert(m6.staged =~= seq![ArtifactId::Dump]);
}

/// The closing events shared by the early-success paths: seal, scratch
/// removal, and — when a completion event is owed — its successful write.
pub open spec fn closing_events(emits: bool, rm_ok: bool) -> Seq<Event> {
    if emits {
        seq![
            Event::ArchiveSealed(true),
            Event::WorkspaceRemoved(rm_ok),
            Event::EventWritten(true),
        ]
    } else {
        seq![Event::ArchiveSealed(true), Event::WorkspaceRemoved(rm_ok)]
    }
}

/// The events of a run with runtime correlation disabled: the dump and its
/// metadata are staged, then the machine seals without consulting the
/// container list, the per-container loop, or the inspection details.
pub open spec fn skip_correlation_events(
    job: CaptureJob,
    p: Lookup<PodRecord>,
    rm_ok: bool,
) -> Seq<Event> {
    seq![
        Event::ArchiveCreated(true),
        Event::WorkspaceCreated(true),
        Event::DumpCompressed(true),
        Event::PodResolved(p),
        Event::FileStaged(true),
    ] + closing_events(job.core_events, rm_ok)
}

/// Law: with runtime correlation disabled, the sealed archive holds exactly
/// the dump and the dump-metadata artifacts and the run exits 0, whatever the
/// pod resolution returned.
pub proof fn law_skip_correlation_dump_and_metadata(
    job: CaptureJob,
    p: Lookup<PodRecord>,
    rm_ok: bool,
)
    requires
        job.ignore_crio,
        !spec_skips(spec_init(job).selector, p),
    ensures
        ({
            let f = run(spec_init(job), skip_correlation_events(job, p, rm_ok));
            &&& f.phase == Phase::Done
            &&& f.exit == Some(ExitStatus::Success)
            &&& f.staged =~= seq![ArtifactId::Dump, ArtifactId::DumpMetadata]
            &&& f.sealed
            &&& f.cleanup_requested
        }),
{
    let m0 = spec_init(job);
    let evs = skip_correlation_events(job, p, rm_ok);
    let m1 = spec_next(m0, evs[0]);
    let m2 = spec_next(m1, evs[1]);
    let m3 = spec_next(m2, evs[2]);
    let m4 = spec_next(m3, evs[3]);
    let m5 = spec_next(m4, evs[4]);
    let m6 = spec_next(m5, evs[5]);
    let m7 = spec_next(m6, evs[6]);
    assert(run_from(m0, evs, 0) == run_from(m1, evs, 1));
    assert(run_from(m1, evs, 1) == run_from(m2, evs, 2));
    assert(run_from(m2, evs, 2) == run_from(m3, evs, 3));
    assert(run_from(m3, evs, 3) == run_from(m4, evs, 4));
    assert(run_from(m4, evs, 4) == run_from(m5, evs, 5));
    assert(run_from(m5, evs, 5) == run_from(m6, evs, 6));
    assert(run_from(m6, evs, 6) == run_from(m7, evs, 7));
    if job.core_events {
        let m8 = spec_next(m7, evs[7]);
        assert(run_from(m7, evs, 7) == run_from(m8, evs, 8));
        assert(run_from(m8, evs, 8) == m8);
        assert(m8.staged =~= seq![ArtifactId::Dump, ArtifactId::DumpMetadata]);
    } else {
        assert(run_from(m7, evs, 7) == m7);
        assert(m7.staged =~= seq![ArtifactId::Dump, ArtifactId::DumpMetadata]);
    }
}

/// Law: when pod resolution fails and correlation is skipped, the run still
/// succeeds — the archive is sealed, the exit is 0 — and the namespace and
/// pod name default to "unknown". (With correlation enabled and no selector,
/// a failed resolution leaves no pod identifier, which is fatal by design:
/// the run then exits 1, though still with a sealed archive.)
pub proof fn law_unresolved_pod_still_succeeds(job: CaptureJob, rm_ok: bool)
    requires
        job.ignore_crio,
        spec_init(job).selector is None,
    ensures
        ({
            let f = run(
                spec_init(job),
                skip_correlation_events(job, Lookup::Unavailable, rm_ok),
            );
            &&& f.phase == Phase::Done
            &&& f.exit == Some(ExitStatus::Success)
            &&& f.sealed
            &&& f.namespace == "unknown"@
            &&& f.podname == "unknown"@
        }),
{
    law_skip_correlation_dump_and_metadata(job, Lookup::Unavailable, rm_ok);
    let m0 = spec_init(job);
    let evs = skip_correlation_events(job, Lookup::Unavailable, rm_ok);
    let m1 = spec_next(m0, evs[0]);
    let m2 = spec_next(m1, evs[1]);
    let m3 = spec_next(m2, evs[2]);
    let m4 = spec_next(m3, evs[3]);
    let m5 = spec_next(m4, evs[4]);
    let m6 = spec_next(m5, evs[5]);
    let m7 = spec_next(m6, evs[6]);
    assert(run_from(m0, evs, 0) == run_from(m1, evs, 1));
    assert(run_from(m1, evs, 1) == run_from(m2, evs, 2));
    assert(run_from(m2, evs, 2) == run_from(m3, evs, 3));
    assert(run_from(m3, evs, 3) == run_from(m4, evs, 4));
    assert(m4.namespace == "unknown"@ && m4.podname == "unknown"@);
    assert(run_from(m4, evs, 4) == run_from(m5, evs, 5));
    assert(run_from(m5, evs, 5) == run_from(m6, evs, 6));
    assert(run_from(m6, evs, 6) == run_from(m7, evs, 7));
    if job.core_events {
        let m8 = spec_next(m7, evs[7]);
        assert(run_from(m7, evs, 7) == run_from(m8, evs, 8));
        assert(run_from(m8, evs, 8) == m8);
    } else {
        assert(run_from(m7, evs, 7) == m7);
    }
}

/// The events of a run whose container-list query fails after the pod
/// resolved: a fatal-local failure right after the pod-info artifact.
pub open spec fn container_list_failure_events(p: PodRecord, rm_ok: bool) -> Seq<Event> {
    seq![
        Event::ArchiveCreated(true),
        Event::WorkspaceCreated(true),
        Event::DumpCompressed(true),
        Event::PodResolved(Lookup::Present(p)),
        Event::FileStaged(true),
        Event::FileStaged(true),
        Event::ContainersListed(Lookup::Unavailable),
        Event::ArchiveSealed(true),
        Event::WorkspaceRemoved(rm_ok),
    ]
}

/// Law: when pod resolution succeeded but the container-list query fails, the
/// run exits 1 and the sealed archive holds exactly the dump, dump-metadata
/// and pod-info artifacts — no per-container artifact.
pub proof fn law_container_list_failure(job: CaptureJob, p: PodRecord, rm_ok: bool)
    requires
        !job.ignore_crio,
        !spec_skips(spec_init(job).selector, Lookup::Present(p)),
        p.id is Some,
    ensures
        ({
            let f = run(spec_init(job), container_list_failure_events(p, rm_ok));
            &&& f.phase == Phase::Done
            &&& f.exit == Some(ExitStatus::Failure)
            &&& f.staged =~= seq![
                ArtifactId::Dump,
                ArtifactId::DumpMetadata,
                ArtifactId::PodInfo,
            ]
            &&& f.sealed
            &&& f.cleanup_requested
        }),
{
    let m0 = spec_init(job);
    let evs = container_list_failure_events(p, rm_ok);
    let m1 = spec_next(m0, evs[0]);
    let m2 = spec_next(m1, evs[1]);
    let m3 = spec_next(m2, evs[2]);
    let m4 = spec_next(m3, evs[3]);
    let m5 = spec_next(m4, evs[4]);
    let m6 = spec_next(m5, evs[5]);
    let m7 = spec_next(m6, evs[6]);
    let m8 = spec_next(m7, evs[7]);
    let m9 = spec_next(m8, evs[8]);
    assert(run_from(m0, evs, 0) == run_from(m1, evs, 1));
    assert(run_from(m1, evs, 1) == run_from(m2, evs, 2));
    assert(run_from(m2, evs, 2) == run_from(m3, evs, 3));
    assert(run_from(m3, evs, 3) == run_from(m4, evs, 4));
    assert(run_from(m4, evs, 4) == run_from(m5, evs, 5));
    assert(run_from(m5, evs, 5) == run_from(m6, evs, 6));
    assert(run_from(m6, evs, 6) == run_from(m7, evs, 7));
    assert(run_from(m7, evs, 7) == run_from(m8, evs, 8));
    assert(run_from(m8, evs, 8) == run_from(m9, evs, 9));
    assert(run_from(m9, evs, 9) == m9);
    assert(m9.staged =~= seq![
        ArtifactId::Dump,
        ArtifactId::DumpMetadata,
        ArtifactId::PodInfo,
    ]);
}

/// The events of a full run over a three-container pod whose last container
/// lacks an image reference: the loop covers the first two containers and
/// then stops at the missing reference.
pub open spec fn partial_loop_events(
    job: CaptureJob,
    p: PodRecord,
    cl: ContainerList,
    insp: Lookup<String>,
    l0: Lookup<String>,
    i0: Lookup<ImageRecord>,
    l1: Lookup<String>,
    i1: Lookup<ImageRecord>,
    rm_ok: bool,
) -> Seq<Event> {
    seq![
        Event::ArchiveCreated(true),
        Event::WorkspaceCreated(true),
        Event::DumpCompressed(true),
        Event::PodResolved(Lookup::Present(p)),
        Event::FileStaged(true),
        Event::FileStaged(true),
        Event::ContainersListed(Lookup::Present(cl)),
        Event::PodInspected(insp),
        Event::FileStaged(true),
        Event::FileStaged(true),
        Event::LogFetched(l0),
        Event::FileStaged(true),
        Event::ImageFetched(i0),
        Event::FileStaged(true),
        Event::LogFetched(l1),
        Event::FileStaged(true),
        Event::ImageFetched(i1),
        Event::FileStaged(true),
    ] + closing_events(job.core_events, rm_ok)
}

/// Law: for a pod with three containers where the third carries no image
/// reference, the sealed archive holds log and image artifacts for the first
/// two containers only, and the run still exits 0: the missing reference ends
/// the loop without failing the pipeline.
#[verifier::rlimit(60)]
pub proof fn law_missing_image_ref_stops_loop(
    job: CaptureJob,
    p: PodRecord,
    cl: ContainerList,
    insp: Lookup<String>,
    l0: Lookup<String>,
    i0: Lookup<ImageRecord>,
    l1: Lookup<String>,
    i1: Lookup<ImageRecord>,
    rm_ok: bool,
)
    requires
        !job.ignore_crio,
        !spec_skips(spec_init(job).selector, Lookup::Present(p)),
        p.id is Some,
        cl.containers@.len() == 3,
        cl.containers@[0].image_ref is Some,
        cl.containers@[1].image_ref is Some,
        cl.containers@[2].image_ref is None,
    ensures
        ({
            let f = run(
                spec_init(job),
                partial_loop_events(job, p, cl, insp, l0, i0, l1, i1, rm_ok),
            );
            &&& f.phase == Phase::Done
            &&& f.exit == Some(ExitStatus::Success)
            &&& f.staged =~= seq![
                ArtifactId::Dump,
                ArtifactId::DumpMetadata,
                ArtifactId::PodInfo,
                ArtifactId::InspectPod,
                ArtifactId::ProcessList,
                ArtifactId::ContainerLog(0),
                ArtifactId::ContainerImage(0),
                ArtifactId::ContainerLog(1),
                ArtifactId::ContainerImage(1),
            ]
            &&& f.sealed
            &&& f.cleanup_requested
        }),
{
    let m0 = spec_init(job);
    let evs = partial_loop_events(job, p, cl, insp, l0, i0, l1, i1, rm_ok);
    let m1 = spec_next(m0, evs[0]);
    let m2 = spec_next(m1, evs[1]);
    let m3 = spec_next(m2, evs[2]);
    let m4 = spec_next(m3, evs[3]);
    let m5 = spec_next(m4, evs[4]);
    let m6 = spec_next(m5, evs[5]);
    let m7 = spec_next(m6, evs[6]);
    let m8 = spec_next(m7, evs[7]);
    let m9 = spec_next(m8, evs[8]);
    let m10 = spec_next(m9, evs[9]);
    let m11 = spec_next(m10, evs[10]);
    let m12 = spec_next(m11, evs[11]);
    let m13 = spec_next(m12, evs[12]);
    let m14 = spec_next(m13, evs[13]);
    let m15 = spec_next(m14, evs[14]);
    let m16 = spec_next(m15, evs[15]);
    let m17 = spec_next(m16, evs[16]);
    let m18 = spec_next(m17, evs[17]);
    assert(run_from(m0, evs, 0) == run_from(m1, evs, 1));
    assert(run_from(m1, evs, 1) == run_from(m2, evs, 2));
    assert(run_from(m2, evs, 2) == run_from(m3, evs, 3));
    assert(run_from(m3, evs, 3) == run_from(m4, evs, 4));
    assert(run_from(m4, evs, 4) == run_from(m5, evs, 5));
    assert(run_from(m5, evs, 5) == run_from(m6, evs, 6));
    assert(run_from(m6, evs, 6) == run_from(m7, evs, 7));
    assert(run_from(m7, evs, 7) == run_from(m8, evs, 8));
    assert(run_from(m8, evs, 8) == run_from(m9, evs, 9));
    assert(run_from(m9, evs, 9) == run_from(m10, evs, 10));
    assert(run_from(m10, evs, 10) == run_from(m11, evs, 11));
    assert(run_from(m11, evs, 11) == run_from(m12, evs, 12));
    assert(run_from(m12, evs, 12) == run_from(m13, evs, 13));
    assert(run_from(m13, evs, 13) == run_from(m14, evs, 14));
    assert(run_from(m14, evs, 14) == run_from(m15, evs, 15));
    assert(run_from(m15, evs, 15) == run_from(m16, evs, 16));
    assert(run_from(m16, evs, 16) == run_from(m17, evs, 17));
    assert(run_from(m17, evs, 17) == run_from(m18, evs, 18));
    if job.core_events {
        let m19 = spec_next(m18, evs[18]);
        let m20 = spec_next(m19, evs[19]);
        let m21 = spec_next(m20, evs[20]);
        assert(run_from(m18, evs, 18) == run_from(m19, evs, 19));
        assert(run_from(m19, evs, 19) == run_from(m20, evs, 20));
        assert(run_from(m20, evs, 20) == run_from(m21, evs, 21));
        assert(run_from(m21, evs, 21) == m21);
        assert(m21.staged =~= seq![
            ArtifactId::Dump,
            ArtifactId::DumpMetadata,
            ArtifactId::PodInfo,
            ArtifactId::InspectPod,
            ArtifactId::ProcessList,
            ArtifactId::ContainerLog(0),
            ArtifactId::ContainerImage(0),
            ArtifactId::ContainerLog(1),
            ArtifactId::ContainerImage(1),
        ]);
    } else {
        let m19 = spec_next(m18, evs[18]);
        let m20 = spec_next(m19, evs[19]);
        assert(run_from(m18, evs, 18) == run_from(m19, evs, 19));
        assert(run_from(m19, evs, 19) == run_from(m20, evs, 20));
        assert(run_from(m20, evs, 20) == m20);
        assert(m20.staged =~= seq![
            ArtifactId::Dump,
            ArtifactId::DumpMetadata,
            ArtifactId::PodInfo,
            ArtifactId::InspectPod,
            ArtifactId::ProcessList,
            ArtifactId::ContainerLog(0),
            ArtifactId::ContainerImage(0),
            ArtifactId::ContainerLog(1),
            ArtifactId::ContainerImage(1),
        ]);
    }
}

/// Law: when the destination archive cannot be created — a prior run still
/// holds the path's lock — the run fails fast: the very first outcome ends it
/// with exit 1, nothing staged, no workspace ever created.
pub proof fn law_locked_destination_fails_fast(job: CaptureJob)
    ensures
        ({
            let f = run(spec_init(job), seq![Event::ArchiveCreated(false)]);
            &&& f.phase == Phase::Done
            &&& f.exit == Some(ExitStatus::Failure)
            &&& f.staged =~= Seq::<ArtifactId>::empty()
            &&& !f.archive_created
            &&& !f.workspace_created
        }),
{
    let m0 = spec_init(job);
    let evs = seq![Event::ArchiveCreated(false)];
    let m1 = spec_next(m0, evs[0]);
    assert(run_from(m0, evs, 0) == run_from(m1, evs, 1));
    assert(run_from(m1, evs, 1) == m1);
    assert(m1.staged =~= Seq::<ArtifactId>::empty());
}

} // verus!
