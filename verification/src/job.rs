use vstd::prelude::*;

verus! {

/// The unit of work for one crash event, created once at process start from
/// external configuration. Only `namespace` and `podname` are ever refined
/// afterwards, once the owning pod is known.
#[derive(Clone, Debug)]
pub struct CaptureJob {
    /// Templated run identifier; every artifact name derives from it.
    pub base_name: String,
    /// Full path of the destination archive file.
    pub destination_path: String,
    /// Directory that receives the completion event record.
    pub event_dir: String,
    /// Hostname handed to the inspection tool to resolve the owning pod.
    pub hostname: String,
    /// Serialized dump metadata, staged verbatim as an artifact.
    pub dump_info: String,
    /// Record only when the resolved pod carries this label key.
    pub pod_selector_label: Option<String>,
    /// Skip runtime correlation entirely.
    pub ignore_crio: bool,
    /// Emit a completion event record after the archive is sealed.
    pub core_events: bool,
    /// How many trailing log lines to fetch per container.
    pub log_tail: u32,
    /// Wall-clock budget, in seconds, enforced by the supervisor.
    pub timeout_secs: u64,
    /// Owning pod's namespace; "unknown" until refined.
    pub namespace: String,
    /// Owning pod's name; "unknown" until refined.
    pub podname: String,
}

impl CaptureJob {
    /// Builds the job from external configuration, with namespace and pod
    /// name initially "unknown".
    #[allow(clippy::too_many_arguments)]
    pub fn init(
        base_name: String,
        destination_path: String,
        event_dir: String,
        hostname: String,
        dump_info: String,
        pod_selector_label: Option<String>,
        ignore_crio: bool,
        core_events: bool,
        log_tail: u32,
        timeout_secs: u64,
    ) -> (r: CaptureJob)
        ensures
            r.base_name == base_name,
            r.destination_path == destination_path,
            r.event_dir == event_dir,
            r.hostname == hostname,
            r.dump_info == dump_info,
            r.pod_selector_label == pod_selector_label,
            r.ignore_crio == ignore_crio,
            r.core_events == core_events,
            r.log_tail == log_tail,
            r.timeout_secs == timeout_secs,
            r.namespace@ == "unknown"@,
            r.podname@ == "unknown"@,
    {
        CaptureJob {
            base_name,
            destination_path,
            event_dir,
            hostname,
            dump_info,
            pod_selector_label,
            ignore_crio,
            core_events,
            log_tail,
            timeout_secs,
            namespace: String::from_str("unknown"),
            podname: String::from_str("unknown"),
        }
    }

    /// Refines the owning pod's namespace; every other attribute is kept.
    pub fn set_namespace(&mut self, namespace: String)
        ensures
            *final(self) == (CaptureJob { namespace, ..*old(self) }),
    {
        self.namespace = namespace;
    }

    /// Refines the owning pod's name; every other attribute is kept.
    pub fn set_podname(&mut self, podname: String)
        ensures
            *final(self) == (CaptureJob { podname, ..*old(self) }),
    {
        self.podname = podname;
    }
}

} // verus!
