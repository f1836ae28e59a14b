use core_dump_composer::job::CaptureJob;
use core_dump_composer::model::{ArtifactId, CompletionEvent, ExitStatus, PodRecord};
use core_dump_composer::names::{archive_name, artifact_name, dec_string};

fn job() -> CaptureJob {
    CaptureJob::init(
        String::from("run1"),
        String::from("/cores/run1.tar"),
        String::from("/events"),
        String::from("node-7"),
        String::from("{\"signal\":11}"),
        None,
        false,
        false,
        25,
        30,
    )
}

#[test]
fn exit_codes_are_distinct_and_fixed() {
    assert_eq!(ExitStatus::Success.code(), 0);
    assert_eq!(ExitStatus::Failure.code(), 1);
    assert_eq!(ExitStatus::DeadlineExceeded.code(), 32);
}

#[test]
fn decimal_rendering_exact_values() {
    assert_eq!(dec_string(0), "0");
    assert_eq!(dec_string(7), "7");
    assert_eq!(dec_string(10), "10");
    assert_eq!(dec_string(12345), "12345");
    assert_eq!(dec_string(u64::MAX), "18446744073709551615");
}

#[test]
fn artifact_names_derive_from_base_and_index() {
    let base = String::from("run1");
    assert_eq!(artifact_name(&base, &ArtifactId::Dump), "run1.core.gz");
    assert_eq!(
        artifact_name(&base, &ArtifactId::DumpMetadata),
        "run1-dump-info.json"
    );
    assert_eq!(artifact_name(&base, &ArtifactId::PodInfo), "run1-pod-info.json");
    assert_eq!(
        artifact_name(&base, &ArtifactId::InspectPod),
        "run1-runtime-info.json"
    );
    assert_eq!(artifact_name(&base, &ArtifactId::ProcessList), "run1-ps-info.json");
    assert_eq!(artifact_name(&base, &ArtifactId::ContainerLog(0)), "run1-0.log");
    assert_eq!(artifact_name(&base, &ArtifactId::ContainerLog(12)), "run1-12.log");
    assert_eq!(
        artifact_name(&base, &ArtifactId::ContainerImage(3)),
        "run1-3-image-info.json"
    );
}

#[test]
fn container_artifact_names_never_collide() {
    let base = String::from("run1");
    let log1 = artifact_name(&base, &ArtifactId::ContainerLog(1));
    let log2 = artifact_name(&base, &ArtifactId::ContainerLog(2));
    let img1 = artifact_name(&base, &ArtifactId::ContainerImage(1));
    let img2 = artifact_name(&base, &ArtifactId::ContainerImage(2));
    assert_ne!(log1, log2);
    assert_ne!(img1, img2);
    assert_ne!(log1, img1);
    assert_ne!(log2, img1);
}

#[test]
fn archive_name_appends_tar() {
    assert_eq!(archive_name(&String::from("run1")), "run1.tar");
}

#[test]
fn job_starts_with_unknown_identity() {
    let j = job();
    assert_eq!(j.namespace, "unknown");
    assert_eq!(j.podname, "unknown");
    assert_eq!(j.base_name, "run1");
}

#[test]
fn job_refines_namespace_and_podname() {
    let mut j = job();
    j.set_namespace(String::from("prod"));
    j.set_podname(String::from("web-0"));
    assert_eq!(j.namespace, "prod");
    assert_eq!(j.podname, "web-0");
    assert_eq!(j.hostname, "node-7");
}

#[test]
fn pod_label_lookup() {
    let pod = PodRecord {
        id: Some(String::from("abc")),
        namespace: Some(String::from("prod")),
        name: Some(String::from("web-0")),
        labels: vec![
            (String::from("app"), String::from("web")),
            (String::from("tier"), String::from("front")),
        ],
        json: String::from("{}"),
    };
    assert!(pod.has_label(&String::from("app")));
    assert!(pod.has_label(&String::from("tier")));
    assert!(!pod.has_label(&String::from("web")));
    assert!(!pod.has_label(&String::from("")));
}

#[test]
fn completion_event_carries_plain_values() {
    let e = CompletionEvent {
        run_name: String::from("run1"),
        archive_name: String::from("run1.tar"),
        namespace: String::from("prod"),
        podname: String::from("web-0"),
        correlated: true,
        pod_json: String::from("{\"id\":\"abc\"}"),
        image_jsons: vec![String::from("{}")],
    };
    assert!(e.correlated);
    assert_eq!(e.archive_name, "run1.tar");
    assert_eq!(e.image_jsons.len(), 1);
}
