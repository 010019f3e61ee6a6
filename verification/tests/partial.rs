use pumas_core::error::PumasError;
use pumas_core::keyed::Keyed;
use pumas_core::partial::{
    finalization_outcome, finalize_download_artifact_with_files, infer_expected_sizes_with_files,
    ArtifactObservation, FinalizationPlan,
};
use pumas_core::partial_paths::{download_artifact_paths, is_size_accounted_payload, join_path_text};

fn obs(file_len: Option<u64>, part_len: Option<u64>) -> ArtifactObservation {
    ArtifactObservation { file_len: Ok(file_len), part_len: Ok(part_len) }
}

fn names(v: &[&str]) -> Vec<String> {
    v.iter().map(|s| s.to_string()).collect()
}

fn sizes(v: &[(&str, u64)]) -> Vec<Keyed<u64>> {
    v.iter().map(|(k, n)| Keyed { key: k.to_string(), value: *n }).collect()
}

#[test]
fn single_file_takes_the_whole_total() {
    let r = infer_expected_sizes_with_files(&[obs(None, Some(5))], &names(&["a.gguf"]), Some(100));
    assert_eq!(r.unwrap(), Some(("a.gguf".to_string(), 100)));
    assert_eq!(
        infer_expected_sizes_with_files(&[obs(None, Some(5))], &names(&["a.gguf"]), Some(0)).unwrap(),
        None
    );
    assert_eq!(
        infer_expected_sizes_with_files(&[obs(None, Some(5))], &names(&["a.gguf"]), None).unwrap(),
        None
    );
}

#[test]
fn one_unfinished_payload_gets_the_remainder() {
    let files = names(&["a.safetensors", "b.safetensors", "a.safetensors"]);
    let observed = [obs(Some(30), None), obs(None, Some(1)), obs(None, None)];
    assert_eq!(
        infer_expected_sizes_with_files(&observed, &files, Some(100)).unwrap(),
        Some(("b.safetensors".to_string(), 70))
    );
    let files = names(&["a.safetensors", "README.md"]);
    assert_eq!(
        infer_expected_sizes_with_files(&[obs(None, Some(1)), obs(Some(3), None)], &files, Some(100))
            .unwrap(),
        None
    );
    let files = names(&["a.gguf", "b.gguf"]);
    assert_eq!(
        infer_expected_sizes_with_files(&[obs(Some(100), None), obs(None, Some(1))], &files, Some(100))
            .unwrap(),
        None
    );
    assert_eq!(
        infer_expected_sizes_with_files(&[obs(None, None), obs(None, Some(1))], &files, Some(100)).unwrap(),
        None
    );
}

#[test]
fn observation_errors_are_reported() {
    let failing = ArtifactObservation {
        file_len: Err(PumasError::Other("stat failed".into())),
        part_len: Ok(None),
    };
    let files = names(&["a.gguf", "b.gguf"]);
    assert!(matches!(
        infer_expected_sizes_with_files(&[failing, obs(None, Some(1))], &files, Some(100)),
        Err(PumasError::Other(m)) if m == "stat failed"
    ));
}

#[test]
fn finalization_promotes_exact_parts_and_drops_stale_ones() {
    let files = names(&["a.gguf", "b.gguf", "a.gguf"]);
    let observed = [obs(Some(10), Some(3)), obs(None, Some(20)), obs(Some(10), Some(3))];
    let plan = finalize_download_artifact_with_files(&observed, &files, &sizes(&[("b.gguf", 20)])).unwrap();
    match &plan {
        FinalizationPlan::Complete { promotions, stale_parts } => {
            assert_eq!(promotions, &names(&["b.gguf"]));
            assert_eq!(stale_parts, &names(&["a.gguf"]));
        }
        FinalizationPlan::Incomplete => panic!("artifact should be complete"),
    }
    let outcome = finalization_outcome(&plan);
    assert!(outcome.complete);
    assert_eq!(outcome.promoted_files, 1);
}

#[test]
fn finalization_leaves_unknown_or_wrong_sizes_incomplete() {
    let files = names(&["a.gguf"]);
    for (observed, expected) in [
        (obs(None, Some(19)), sizes(&[("a.gguf", 20)])),
        (obs(None, Some(20)), sizes(&[])),
        (obs(None, None), sizes(&[("a.gguf", 20)])),
    ] {
        let plan = finalize_download_artifact_with_files(&[observed], &files, &expected).unwrap();
        assert!(matches!(plan, FinalizationPlan::Incomplete));
        let outcome = finalization_outcome(&plan);
        assert!(!outcome.complete);
        assert_eq!(outcome.promoted_files, 0);
    }
    assert!(matches!(
        finalize_download_artifact_with_files(&[], &[], &sizes(&[])).unwrap(),
        FinalizationPlan::Incomplete
    ));
}

#[test]
fn artifact_paths_stay_inside_the_model_directory() {
    assert_eq!(
        download_artifact_paths("/m", "sub/a.gguf"),
        Some(("/m/sub/a.gguf".to_string(), "/m/sub/a.gguf.part".to_string()))
    );
    assert_eq!(download_artifact_paths("/m", "../a.gguf"), None);
    assert_eq!(download_artifact_paths("/m", "/etc/a.gguf"), None);
    assert_eq!(join_path_text("/m/", "a"), "/m/a");
}

#[test]
fn size_accounted_payload_formats() {
    for yes in ["a.gguf", "dir/b.safetensors", "c.BIN"] {
        assert!(is_size_accounted_payload(yes), "{yes}");
    }
    for no in ["README.md", "config.json", "noext"] {
        assert!(!is_size_accounted_payload(no), "{no}");
    }
}
