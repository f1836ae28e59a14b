use vstd::prelude::*;

verus! {

/// Exit status of a capture run, as seen by the invoking supervisor.
#[derive(Clone, Copy, PartialEq, Eq, Structural, Debug)]
pub enum ExitStatus {
    /// The pipeline completed, possibly via a documented early-success path.
    Success,
    /// A fatal-local failure: the run exited non-zero after sealing the archive.
    Failure,
    /// The wall-clock deadline elapsed; the supervisor killed the process.
    DeadlineExceeded,
}

impl ExitStatus {
    pub open spec fn spec_code(self) -> int {
        match self {
            ExitStatus::Success => 0,
            ExitStatus::Failure => 1,
            ExitStatus::DeadlineExceeded => 32,
        }
    }

    /// The process exit code reported to the invoking supervisor.
    pub fn code(&self) -> (r: i32)
        ensures
            r == self.spec_code(),
    {
        match self {
            ExitStatus::Success => 0,
            ExitStatus::Failure => 1,
            ExitStatus::DeadlineExceeded => 32,
        }
    }
}

/// Outcome of one enrichment call: the record it produced, or a marker that
/// the call failed and the run degrades to an empty value for it.
#[derive(Clone, Debug)]
pub enum Lookup<T> {
    Present(T),
    Unavailable,
}

/// Pod identity and labels as the runtime reported them, reduced to the plain
/// values the pipeline reads. `json` is the serialized record, staged verbatim.
#[derive(Clone, Debug)]
pub struct PodRecord {
    pub id: Option<String>,
    pub namespace: Option<String>,
    pub name: Option<String>,
    pub labels: Vec<(String, String)>,
    pub json: String,
}

impl PodRecord {
    /// The pod's label mapping has an entry under `key`.
    pub open spec fn spec_has_label(self, key: Seq<char>) -> bool {
        exists|i: int| 0 <= i < self.labels@.len() && self.labels@[i].0@ == key
    }

    pub fn has_label(&self, key: &String) -> (r: bool)
        ensures
            r == self.spec_has_label(key@),
    {
        let mut i: usize = 0;
        while i < self.labels.len()
            invariant
                i <= self.labels@.len(),
                forall|j: int| 0 <= j < i ==> self.labels@[j].0@ != key@,
            decreases self.labels@.len() - i,
        {
            if self.labels[i].0.eq(key) {
                return true;
            }
            i = i + 1;
        }
        false
    }
}

/// A resolved pod carries the label, an unresolved one never does.
pub open spec fn lookup_has_label(l: Lookup<PodRecord>, key: Seq<char>) -> bool {
    match l {
        Lookup::Present(p) => p.spec_has_label(key),
        Lookup::Unavailable => false,
    }
}

/// One container of the resolved pod, in the order the runtime reported.
#[derive(Clone, Debug)]
pub struct ContainerRecord {
    pub id: Option<String>,
    pub image_ref: Option<String>,
}

/// The pod's container list together with its serialized form, which is
/// staged verbatim as the process-list artifact.
#[derive(Clone, Debug)]
pub struct ContainerList {
    pub containers: Vec<ContainerRecord>,
    pub json: String,
}

/// Image metadata for one container, kept in its serialized form.
#[derive(Clone, Debug)]
pub struct ImageRecord {
    pub json: String,
}

/// One staged artifact, identified by its place in the archive. Per-container
/// artifacts carry the container's ordinal position.
#[derive(Clone, Copy, PartialEq, Eq, Structural, Debug)]
pub enum ArtifactId {
    Dump,
    DumpMetadata,
    PodInfo,
    InspectPod,
    ProcessList,
    ContainerLog(usize),
    ContainerImage(usize),
}

/// Ghost form of a completion event record.
#[verifier::ext_equal]
pub ghost struct EventV {
    pub run_name: Seq<char>,
    pub archive_name: Seq<char>,
    pub namespace: Seq<char>,
    pub podname: Seq<char>,
    pub correlated: bool,
    pub pod_json: Seq<char>,
    pub image_jsons: Seq<Seq<char>>,
}

/// The record written to the event directory once the archive is sealed:
/// either the full variant with pod and image data, or the reduced variant
/// used when runtime correlation did not happen.
#[derive(Clone, Debug)]
pub struct CompletionEvent {
    pub run_name: String,
    pub archive_name: String,
    pub namespace: String,
    pub podname: String,
    pub correlated: bool,
    pub pod_json: String,
    pub image_jsons: Vec<String>,
}

impl View for CompletionEvent {
    type V = EventV;

    open spec fn view(&self) -> EventV {
        EventV {
            run_name: self.run_name@,
            archive_name: self.archive_name@,
            namespace: self.namespace@,
            podname: self.podname@,
            correlated: self.correlated,
            pod_json: self.pod_json@,
            image_jsons: self.image_jsons@.map_values(|s: String| s@),
        }
    }
}

} // verus!
