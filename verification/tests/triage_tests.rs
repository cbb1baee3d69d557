use face_trainer::config::ClientMode;
use face_trainer::config::ClientType;
use face_trainer::config::Configuration;
use face_trainer::config::DoubleTakeConfig;
use face_trainer::config::ErrorBehavior;
use face_trainer::config::ErrorConfiguration;
use face_trainer::config::PostRecognizeStrategy;
use face_trainer::result::FaceProcessingResult;
use face_trainer::result::FaceWithMetadata;
use face_trainer::result::FailureFace;
use face_trainer::result::Subject;
use face_trainer::triage::failure_destinations;
use face_trainer::triage::max_similarity_subject;
use face_trainer::triage::plan_error_output;
use face_trainer::triage::plan_failure_faces;
use face_trainer::triage::plan_missed_faces;
use face_trainer::triage::subjects_above_threshold;
use face_trainer::triage::FsAction;

fn subject(name: &str, similarity: u32) -> Subject {
    Subject { name: name.to_string(), similarity }
}

#[test]
fn max_similarity_picks_first_encountered_maximum() {
    let candidates = vec![subject("A", 910), subject("B", 930), subject("C", 930)];
    let idx = max_similarity_subject(&candidates).unwrap();
    assert_eq!(candidates[idx].name, "B");
}

#[test]
fn max_similarity_of_empty_list_is_none() {
    assert!(max_similarity_subject(&Vec::new()).is_none());
}

#[test]
fn above_threshold_keeps_strict_exceeders_only() {
    let candidates = vec![subject("A", 910), subject("B", 600), subject("C", 930)];
    let picked = subjects_above_threshold(&candidates, 900);
    let names: Vec<&str> = picked.iter().map(|s| s.name.as_str()).collect();
    assert_eq!(names, vec!["A", "C"]);

    let without_c = vec![subject("A", 910), subject("B", 600)];
    let picked = subjects_above_threshold(&without_c, 950);
    assert!(picked.is_empty());
}

#[test]
fn destinations_follow_the_strategy() {
    let face = FailureFace::Recognize(FaceWithMetadata {
        path: "/data/magic/a.jpg".to_string(),
        subjects: vec![subject("jordan", 910), subject("bird", 600), subject("worthy", 930)],
    });
    let keep = failure_destinations(&face, PostRecognizeStrategy::KeepAsIs, None).unwrap();
    assert_eq!(keep, vec!["magic".to_string()]);
    let max = failure_destinations(&face, PostRecognizeStrategy::MaxSimilarity, None).unwrap();
    assert_eq!(max, vec!["worthy".to_string()]);
    let above =
        failure_destinations(&face, PostRecognizeStrategy::AboveThreshold, Some(900)).unwrap();
    assert_eq!(above, vec!["jordan".to_string(), "worthy".to_string()]);
}

#[test]
fn max_similarity_without_candidates_is_an_error() {
    let face = FailureFace::Recognize(FaceWithMetadata {
        path: "/data/magic/a.jpg".to_string(),
        subjects: Vec::new(),
    });
    let err = failure_destinations(&face, PostRecognizeStrategy::MaxSimilarity, None).unwrap_err();
    assert_eq!(
        err.message(),
        "failed to find the max similarity subject for the file: /data/magic/a.jpg"
    );
}

#[test]
fn move_with_single_best_candidate_renames_into_its_folder() {
    let faces = vec![FailureFace::Recognize(FaceWithMetadata {
        path: "/data/alice/a.jpg".to_string(),
        subjects: vec![subject("bob", 930)],
    })];
    let actions = plan_failure_faces(
        "out",
        PostRecognizeStrategy::MaxSimilarity,
        None,
        ErrorBehavior::Move,
        &faces,
    )
    .unwrap();
    assert_eq!(
        actions,
        vec![
            FsAction::CreateDirAll("out/failure_faces".to_string()),
            FsAction::CreateDirAll("out/failure_faces/bob".to_string()),
            FsAction::CreateEmptyFile("out/failure_faces/bob/a.jpg.original_name".to_string()),
            FsAction::RenameFile {
                from: "/data/alice/a.jpg".to_string(),
                to: "out/failure_faces/bob/a.jpg".to_string(),
            },
        ]
    );
}

#[test]
fn move_with_many_destinations_copies_everywhere_then_removes_source() {
    let faces = vec![FailureFace::Recognize(FaceWithMetadata {
        path: "/data/alice/a.jpg".to_string(),
        subjects: vec![subject("bob", 930), subject("carol", 920)],
    })];
    let actions = plan_failure_faces(
        "out",
        PostRecognizeStrategy::AboveThreshold,
        Some(900),
        ErrorBehavior::Move,
        &faces,
    )
    .unwrap();
    assert_eq!(
        actions,
        vec![
            FsAction::CreateDirAll("out/failure_faces".to_string()),
            FsAction::CreateDirAll("out/failure_faces/bob".to_string()),
            FsAction::CreateEmptyFile("out/failure_faces/bob/a.jpg.original_name".to_string()),
            FsAction::CreateDirAll("out/failure_faces/carol".to_string()),
            FsAction::CreateEmptyFile("out/failure_faces/carol/a.jpg.original_name".to_string()),
            FsAction::CopyFile {
                from: "/data/alice/a.jpg".to_string(),
                to: "out/failure_faces/bob/a.jpg".to_string(),
            },
            FsAction::CopyFile {
                from: "/data/alice/a.jpg".to_string(),
                to: "out/failure_faces/carol/a.jpg".to_string(),
            },
            FsAction::RemoveFile("/data/alice/a.jpg".to_string()),
        ]
    );
}

#[test]
fn zero_destinations_leave_the_file_alone() {
    let faces = vec![FailureFace::Recognize(FaceWithMetadata {
        path: "/data/alice/a.jpg".to_string(),
        subjects: vec![subject("bob", 100)],
    })];
    let actions = plan_failure_faces(
        "out",
        PostRecognizeStrategy::AboveThreshold,
        Some(900),
        ErrorBehavior::Move,
        &faces,
    )
    .unwrap();
    assert_eq!(actions, vec![FsAction::CreateDirAll("out/failure_faces".to_string())]);
}

#[test]
fn missed_files_mirror_their_subject_folders() {
    let files = vec!["/data/alice/a.jpg".to_string(), "/data/bob/b.jpg".to_string()];
    let actions = plan_missed_faces("out", ErrorBehavior::Copy, &files);
    assert_eq!(
        actions,
        vec![
            FsAction::CreateDirAll("out/missed_faces".to_string()),
            FsAction::CreateDirAll("out/missed_faces/alice".to_string()),
            FsAction::CopyFile {
                from: "/data/alice/a.jpg".to_string(),
                to: "out/missed_faces/alice/a.jpg".to_string(),
            },
            FsAction::CreateDirAll("out/missed_faces/bob".to_string()),
            FsAction::CopyFile {
                from: "/data/bob/b.jpg".to_string(),
                to: "out/missed_faces/bob/b.jpg".to_string(),
            },
        ]
    );
}

#[test]
fn ignore_behavior_plans_nothing() {
    let config = ErrorConfiguration {
        output_dir: None,
        error_behavior: ErrorBehavior::Ignore,
        post_recognize_strategy: PostRecognizeStrategy::MaxSimilarity,
        above_threshold: Some(950),
    };
    let mut result = FaceProcessingResult::with_context("run".to_string());
    result.total_count = 1;
    result.failure_count = 1;
    result.failure_faces = vec![FailureFace::Train("/data/alice/a.jpg".to_string())];
    let actions = plan_error_output(&config, &result).unwrap();
    assert!(actions.is_empty());
}

#[test]
fn error_output_places_failures_then_missed() {
    let config = ErrorConfiguration {
        output_dir: Some("out".to_string()),
        error_behavior: ErrorBehavior::Copy,
        post_recognize_strategy: PostRecognizeStrategy::KeepAsIs,
        above_threshold: None,
    };
    let mut result = FaceProcessingResult::with_context("run".to_string());
    result.total_count = 2;
    result.failure_count = 1;
    result.failure_faces = vec![FailureFace::Train("/data/alice/a.jpg".to_string())];
    result.missed_count = 1;
    result.missed_faces = vec!["/data/bob/b.jpg".to_string()];
    let actions = plan_error_output(&config, &result).unwrap();
    assert_eq!(
        actions,
        vec![
            FsAction::CreateDirAll("out/failure_faces".to_string()),
            FsAction::CreateDirAll("out/failure_faces/alice".to_string()),
            FsAction::CreateEmptyFile("out/failure_faces/alice/a.jpg.original_name".to_string()),
            FsAction::CopyFile {
                from: "/data/alice/a.jpg".to_string(),
                to: "out/failure_faces/alice/a.jpg".to_string(),
            },
            FsAction::CreateDirAll("out/missed_faces".to_string()),
            FsAction::CreateDirAll("out/missed_faces/bob".to_string()),
            FsAction::CopyFile {
                from: "/data/bob/b.jpg".to_string(),
                to: "out/missed_faces/bob/b.jpg".to_string(),
            },
        ]
    );
}

#[test]
fn validate_requires_the_selected_client_settings() {
    let config = Configuration {
        client_type: ClientType::Compreface,
        client_mode: ClientMode::Train,
        double_take: None,
        compreface: None,
        dataset_path: "/data".to_string(),
        max_request_size: 10485760,
        override_trained_name: None,
        error_configuration: ErrorConfiguration {
            output_dir: None,
            error_behavior: ErrorBehavior::Ignore,
            post_recognize_strategy: PostRecognizeStrategy::MaxSimilarity,
            above_threshold: Some(950),
        },
    };
    let err = config.validate().unwrap_err();
    assert_eq!(
        err.message(),
        "--compreface-url & compreface-api-key are required when client_mode is CompreFace"
    );

    let mut doubletake = config.clone();
    doubletake.client_type = ClientType::DoubleTake;
    let err = doubletake.validate().unwrap_err();
    assert_eq!(err.message(), "--doubletake-url is required when client_mode is DoubleTake");

    doubletake.double_take = Some(DoubleTakeConfig { doubletake_url: "http://localhost:3000".to_string() });
    assert!(doubletake.validate().is_ok());
}
