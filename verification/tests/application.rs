use tempo::application::Tracker;
use tempo::domain::data::Data;
use tempo::domain::ids::ProjectId;
use tempo::domain::range::Range;
use tempo::error::TrackerError;
use tempo::language::Language;

fn tracker() -> Tracker {
    Tracker::with_data(Data::defaults())
}

#[test]
fn application_actions_keep_range_and_project_data() {
    let mut tracker = tracker();
    tracker.choose_range(Range::Month);
    assert_eq!(tracker.range(), Range::Month);
    tracker.add_project("Review", 100).unwrap();
    assert_eq!(tracker.data().projects()[4].name(), "Review");
    tracker.save_project("project-1".into(), "Planning").unwrap();
    assert_eq!(tracker.data().projects()[0].name(), "Planning");
}

#[test]
fn new_projects_are_identified_by_their_creation_time() {
    let mut tracker = tracker();
    let id = tracker.add_project("  Focus work ", 1_700_000_000).unwrap();
    assert_eq!(id.as_str(), "project-1700000000");
    assert_eq!(tracker.data().projects()[4].name(), "Focus work");
    assert_eq!(tracker.data().projects()[4].id().as_str(), "project-1700000000");
}

#[test]
fn blank_project_names_change_nothing() {
    let mut tracker = tracker();
    assert!(matches!(
        tracker.add_project(" \t ", 5),
        Err(TrackerError::EmptyProjectName)
    ));
    assert!(matches!(
        tracker.save_project("project-1".into(), ""),
        Err(TrackerError::EmptyProjectName)
    ));
    assert_eq!(tracker.data().projects().len(), 4);
    assert_eq!(tracker.data().projects()[0].name(), "Project Atlas");
}

#[test]
fn save_decisions_follow_what_changed() {
    let mut tracker = tracker();
    assert!(!tracker.tick(5));
    assert!(!tracker.toggle_tracking_pause(5));
    assert!(!tracker.end_tracking(5));
    tracker.start_tracking("project-1".into(), 10);
    assert!(tracker.tick(20));
    assert!(tracker.toggle_tracking_pause(30));
    assert!(!tracker.tick(40));
    assert!(tracker.end_tracking(50));
    let id = tracker.data().tasks()[0].id().as_str().to_owned();
    assert!(tracker.update_task_note(id.clone(), "Done".into()));
    assert!(!tracker.update_task_note("task-0-9".into(), "Missing".into()));
    assert!(tracker.delete_task(id.clone()));
    assert!(!tracker.delete_task(id));
}

#[test]
fn a_refused_secondary_start_leaves_the_data_unchanged() {
    let mut tracker = tracker();
    tracker.start_tracking("project-1".into(), 10);
    tracker.start_tracking("project-2".into(), 20);
    tracker.start_tracking("project-3".into(), 30);
    let data = tracker.data();
    assert_eq!(data.active_task().unwrap().project_id().as_str(), "project-2");
    assert_eq!(data.interrupted_task().unwrap().project_id().as_str(), "project-1");
    assert_eq!(data.active_task().unwrap().started(), 20);
}

#[test]
fn loading_closes_restored_work_and_selection_is_kept() {
    let mut data = Data::defaults();
    data.start_tracking(ProjectId::new("project-3"), 100).unwrap();
    assert!(data.checkpoint_active(160));
    let mut tracker = Tracker::load_default(data);
    assert!(tracker.data().active_task().is_none());
    assert_eq!(tracker.data().tasks()[0].ended(), 160);
    assert_eq!(tracker.range(), Range::Day);
    assert!(tracker.evaluating_project().is_none());
    tracker.select_evaluation_project("project-3".into());
    assert_eq!(tracker.evaluating_project().unwrap().as_str(), "project-3");
}

#[test]
fn archive_restore_and_delete_through_the_tracker() {
    let mut tracker = tracker();
    tracker.start_tracking("project-2".into(), 10);
    assert!(tracker.end_tracking(70));
    tracker.archive_project("project-2".into());
    assert!(tracker.data().projects()[1].archived());
    tracker.unarchive_project("project-2".into());
    assert!(!tracker.data().projects()[1].archived());
    tracker.delete_project("project-2".into());
    assert_eq!(tracker.data().projects().len(), 3);
    assert!(tracker.data().tasks().is_empty());
}

#[test]
fn the_report_covers_the_selected_range() {
    let mut tracker = tracker();
    tracker.choose_range(Range::Year);
    tracker.start_tracking("project-1".into(), 0);
    assert!(tracker.end_tracking(2_520));
    let report = tracker.report(3_060, Language::English);
    assert!(report.starts_with("# Tempo — THIS YEAR\n\n**Total:** 42 min (2520 s)\n"));
    assert!(report.contains("- **Project Atlas** — 42 min (2520 s) ("));
}
