use face_trainer::client::recognize_batch_result;
use face_trainer::client::batch_context;
use face_trainer::client::RecognitionApiResponse;
use face_trainer::client::RecognizeFileOutcome;
use face_trainer::client::ResultItem;
use face_trainer::result::FaceProcessingResult;
use face_trainer::result::FailureFace;
use face_trainer::result::ProcessProgress;
use face_trainer::result::Subject;
use face_trainer::train::train_batch_result;
use face_trainer::train::ComprefaceTrainLogic;
use face_trainer::train::TrainFileOutcome;

fn sample(context: &str, total: usize, success: usize, failure: usize, missed: usize, failed_paths: &[&str], missed_paths: &[&str]) -> FaceProcessingResult {
    let mut r = FaceProcessingResult::with_context(context.to_string());
    r.total_count = total;
    r.success_count = success;
    r.failure_count = failure;
    r.missed_count = missed;
    r.failure_faces = failed_paths.iter().map(|p| FailureFace::Train(p.to_string())).collect();
    r.missed_faces = missed_paths.iter().map(|p| p.to_string()).collect();
    r
}

fn failed_paths_of(r: &FaceProcessingResult) -> Vec<String> {
    r.failure_faces
        .iter()
        .map(|f| match f {
            FailureFace::Train(p) => p.clone(),
            FailureFace::Recognize(m) => m.path.clone(),
        })
        .collect()
}

#[test]
fn with_context_starts_empty() {
    let r = FaceProcessingResult::with_context("run".to_string());
    assert_eq!(r.total_count, 0);
    assert_eq!(r.success_count, 0);
    assert_eq!(r.failure_count, 0);
    assert_eq!(r.missed_count, 0);
    assert!(r.failure_faces.is_empty());
    assert!(r.missed_faces.is_empty());
    assert_eq!(r.context, "run");
    assert_eq!(r.get_total_count(), 0);
    assert_eq!(r.get_success_count(), 0);
}

#[test]
fn add_sums_counts_and_appends_lists() {
    let mut a = sample("run", 3, 1, 1, 1, &["f1"], &["m1"]);
    let b = sample("batch", 2, 1, 1, 0, &["f2"], &[]);
    a.add(b);
    assert_eq!(a.total_count, 5);
    assert_eq!(a.success_count, 2);
    assert_eq!(a.failure_count, 2);
    assert_eq!(a.missed_count, 1);
    assert_eq!(failed_paths_of(&a), vec!["f1", "f2"]);
    assert_eq!(a.missed_faces, vec!["m1".to_string()]);
    assert_eq!(a.context, "run");
    assert_eq!(a.total_count, a.success_count + a.failure_count + a.missed_count);
}

#[test]
fn merge_grouping_order_does_not_change_totals() {
    let a = sample("a", 3, 1, 1, 1, &["fa"], &["ma"]);
    let b = sample("b", 2, 2, 0, 0, &[], &[]);
    let c = sample("c", 4, 1, 2, 1, &["fc1", "fc2"], &["mc"]);

    // (a + b) + c
    let mut left = a.clone();
    left.add(b.clone());
    left.add(c.clone());

    // a + (b + c)
    let mut bc = b.clone();
    bc.add(c.clone());
    let mut right = a.clone();
    right.add(bc);

    assert_eq!(left.total_count, right.total_count);
    assert_eq!(left.success_count, right.success_count);
    assert_eq!(left.failure_count, right.failure_count);
    assert_eq!(left.missed_count, right.missed_count);
    assert_eq!(failed_paths_of(&left), failed_paths_of(&right));
    assert_eq!(left.missed_faces, right.missed_faces);
    assert_eq!(left.total_count, left.success_count + left.failure_count + left.missed_count);
}

#[test]
fn train_outcomes_fold_into_counts_and_lists() {
    let _logic = ComprefaceTrainLogic::new();
    let paths: Vec<String> =
        vec!["/d/s/a.jpg".to_string(), "/d/s/b.jpg".to_string(), "/d/s/c.jpg".to_string()];
    let outcomes = vec![
        TrainFileOutcome::Status(200),
        TrainFileOutcome::Status(500),
        TrainFileOutcome::Transport,
    ];
    let r = train_batch_result("/d/s".to_string(), &paths, &outcomes);
    assert_eq!(r.total_count, 3);
    assert_eq!(r.success_count, 1);
    assert_eq!(r.failure_count, 1);
    assert_eq!(r.missed_count, 1);
    assert_eq!(r.failure_faces, vec![FailureFace::Train("/d/s/b.jpg".to_string())]);
    assert_eq!(r.missed_faces, vec!["/d/s/c.jpg".to_string()]);
    assert_eq!(r.context, "/d/s");
    assert_eq!(r.total_count, r.success_count + r.failure_count + r.missed_count);
}

#[test]
fn recognize_outcomes_fold_into_counts_and_lists() {
    let paths: Vec<String> =
        vec!["/d/s/a.jpg".to_string(), "/d/s/b.jpg".to_string(), "/d/s/c.jpg".to_string()];
    let matching = RecognitionApiResponse {
        result: vec![ResultItem {
            subjects: vec![Subject { name: "s".to_string(), similarity: 990 }],
        }],
    };
    let other = RecognitionApiResponse {
        result: vec![
            ResultItem { subjects: vec![Subject { name: "x".to_string(), similarity: 800 }] },
            ResultItem { subjects: vec![Subject { name: "y".to_string(), similarity: 700 }] },
        ],
    };
    let outcomes = vec![
        RecognizeFileOutcome::Response(matching),
        RecognizeFileOutcome::Response(other),
        RecognizeFileOutcome::InvalidResponse,
    ];
    let r = recognize_batch_result("/d/s".to_string(), &paths, &outcomes, "s");
    assert_eq!(r.total_count, 3);
    assert_eq!(r.success_count, 1);
    assert_eq!(r.failure_count, 1);
    assert_eq!(r.missed_count, 1);
    assert_eq!(r.missed_faces, vec!["/d/s/c.jpg".to_string()]);
    // the failed file keeps every candidate the service returned, in order
    match &r.failure_faces[0] {
        FailureFace::Recognize(m) => {
            assert_eq!(m.path, "/d/s/b.jpg");
            let names: Vec<&str> = m.subjects.iter().map(|s| s.name.as_str()).collect();
            assert_eq!(names, vec!["x", "y"]);
        },
        FailureFace::Train(_) => panic!("expected a recognition failure"),
    }
    assert_eq!(r.total_count, r.success_count + r.failure_count + r.missed_count);
}

#[test]
fn batch_context_names_the_folder_of_the_first_file() {
    let paths: Vec<String> = vec!["/data/alice/a1.jpg".to_string()];
    assert_eq!(batch_context(&paths), "/data/alice");
}
