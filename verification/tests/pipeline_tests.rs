use face_trainer::batch::plan_batches;
use face_trainer::batch::plan_group;
use face_trainer::entry::group_entries;
use face_trainer::entry::Entry;
use face_trainer::progress::start_event;
use face_trainer::progress::group_start_events;
use face_trainer::progress::ProgressReporter;

fn file_sized(path: &str, size: u64) -> Result<Entry, String> {
    Ok(Entry { path: path.to_string(), is_dir: false, size })
}

fn dir_marker(path: &str) -> Result<Entry, String> {
    Ok(Entry { path: path.to_string(), is_dir: true, size: 0 })
}

fn paths_of(batch: &[Entry]) -> Vec<String> {
    batch.iter().map(|e| e.path.clone()).collect()
}

#[test]
fn grouping_preserves_every_entry_in_order() {
    let entries = vec![
        dir_marker("/data"),
        dir_marker("/data/alice"),
        file_sized("/data/alice/a1.jpg", 10),
        Err("permission denied".to_string()),
        dir_marker("/data/bob"),
        file_sized("/data/bob/b1.jpg", 20),
    ];
    let groups = group_entries(entries.clone());
    let flattened: Vec<Result<Entry, String>> =
        groups.iter().flat_map(|g| g.iter().cloned()).collect();
    assert_eq!(flattened, entries);
    // boundaries cut exactly before each directory marker after the first entry
    assert_eq!(groups.len(), 3);
    assert_eq!(groups[0].len(), 1);
    assert_eq!(groups[1].len(), 3);
    assert_eq!(groups[2].len(), 2);
}

#[test]
fn grouping_empty_input_yields_no_groups() {
    let groups = group_entries(Vec::new());
    assert!(groups.is_empty());
}

#[test]
fn batches_concatenate_to_input_and_respect_budget() {
    let files = vec![
        Entry { path: "a".to_string(), is_dir: false, size: 3 },
        Entry { path: "b".to_string(), is_dir: false, size: 4 },
        Entry { path: "c".to_string(), is_dir: false, size: 4 },
        Entry { path: "d".to_string(), is_dir: false, size: 1 },
    ];
    let batches = plan_batches(files.clone(), 8);
    let flattened: Vec<Entry> = batches.iter().flat_map(|b| b.iter().cloned()).collect();
    assert_eq!(flattened, files);
    // 3 + 4 fits in 8; adding c (4) would reach 11, so c starts the next batch
    assert_eq!(batches.len(), 2);
    assert_eq!(paths_of(&batches[0]), vec!["a", "b"]);
    assert_eq!(paths_of(&batches[1]), vec!["c", "d"]);
}

#[test]
fn oversized_file_forms_its_own_batch() {
    let files = vec![
        Entry { path: "big".to_string(), is_dir: false, size: 100 },
        Entry { path: "small".to_string(), is_dir: false, size: 1 },
    ];
    let batches = plan_batches(files, 10);
    assert_eq!(batches.len(), 2);
    assert_eq!(paths_of(&batches[0]), vec!["big"]);
    assert_eq!(paths_of(&batches[1]), vec!["small"]);
}

#[test]
fn two_four_megabyte_files_under_a_five_megabyte_budget_make_two_batches() {
    let mb: u64 = 1024 * 1024;
    let entries = vec![
        dir_marker("/data"),
        dir_marker("/data/alice"),
        file_sized("/data/alice/a1.jpg", 4 * mb),
        file_sized("/data/alice/a2.jpg", 4 * mb),
    ];
    let groups = group_entries(entries);
    assert_eq!(groups.len(), 2);

    // the root group holds no files: nothing to send
    let root_plan = plan_group(&groups[0], &None, 5 * mb).unwrap();
    assert_eq!(root_plan.file_count, 0);
    assert!(root_plan.batches.is_empty());

    // the alice group sends two batches of one file each
    let plan = plan_group(&groups[1], &None, 5 * mb).unwrap();
    assert_eq!(plan.name, "alice");
    assert_eq!(plan.file_count, 2);
    assert_eq!(plan.batches.len(), 2);
    assert_eq!(paths_of(&plan.batches[0]), vec!["/data/alice/a1.jpg"]);
    assert_eq!(paths_of(&plan.batches[1]), vec!["/data/alice/a2.jpg"]);
}

#[test]
fn plan_group_skips_non_images_and_honors_override() {
    let group = vec![
        dir_marker("/data/carol"),
        file_sized("/data/carol/notes.txt", 5),
        file_sized("/data/carol/c1.png", 5),
    ];
    let plan = plan_group(&group, &Some("everyone".to_string()), 100).unwrap();
    assert_eq!(plan.name, "everyone");
    // only the image is processed: it alone is counted and batched
    assert_eq!(plan.file_count, 1);
    assert_eq!(plan.dir_messages, vec!["carol".to_string()]);
    assert_eq!(plan.batches.len(), 1);
    assert_eq!(paths_of(&plan.batches[0]), vec!["/data/carol/c1.png"]);
}

#[test]
fn plan_group_fails_on_unreadable_entry() {
    let group = vec![dir_marker("/data/dave"), Err("broken symlink".to_string())];
    let err = plan_group(&group, &None, 100).unwrap_err();
    assert_eq!(err.message(), "error: broken symlink");
}

#[test]
fn progress_events_announce_run_and_group() {
    let e = start_event("/data");
    match e {
        ProgressReporter::Message(m) => assert_eq!(m, "Start processing directory: /data"),
        _ => panic!("expected a message event"),
    }
    let group = vec![
        dir_marker("/data/erin"),
        file_sized("/data/erin/e1.jpg", 1),
        file_sized("/data/erin/e2.jpg", 1),
    ];
    let plan = plan_group(&group, &None, 100).unwrap();
    let evs = group_start_events(&plan);
    assert_eq!(evs.len(), 2);
    assert!(matches!(evs[0], ProgressReporter::IncreaseLength(2)));
    match &evs[1] {
        ProgressReporter::Message(m) => assert_eq!(m, "processing directory: erin"),
        _ => panic!("expected a message event"),
    }
}
