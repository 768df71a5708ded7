use tempo::domain::data::Data;
use tempo::domain::ids::{ProjectId, TaskId};
use tempo::domain::project::validate_project_name;
use tempo::domain::range::{in_range, Range};
use tempo::domain::task::Task;
use tempo::error::TrackerError;
use tempo::language::Language;

#[test]
fn tracking_creates_tasks_under_projects() {
    let mut data = Data::defaults();
    data.start_tracking(ProjectId::new("project-2"), 10).unwrap();
    assert!(data.checkpoint_active(40));
    data.recover_active();
    assert!(data.active_task().is_none());
    assert_eq!(data.tasks()[0].ended() - data.tasks()[0].started(), 30);
    assert_eq!(data.project_name(data.tasks()[0].project_id()), "Admin");
    data.start_tracking(ProjectId::new("project-1"), 50).unwrap();
    assert!(data.end_tracking(80));
    data.save_task_note("Brief".into());
    assert_eq!(data.tasks()[1].note(), "Brief");

    let first_id = data.tasks()[0].id().clone();
    assert!(data.update_task_note(&first_id, "Updated planning".into()));
    assert_eq!(data.tasks()[0].note(), "Updated planning");
    assert!(data.delete_task(&first_id));
    assert_eq!(data.tasks().len(), 1);
    assert!(!data.delete_task(&first_id));
}

#[test]
fn paused_tracking_excludes_the_paused_interval() {
    let mut data = Data::defaults();
    data.start_tracking(ProjectId::new("project-1"), 10).unwrap();
    assert!(data.toggle_pause(70));
    assert_eq!(data.active_task().unwrap().elapsed_until(120), 60);
    assert!(data.toggle_pause(130));
    assert_eq!(data.active_task().unwrap().elapsed_until(160), 90);
    assert!(data.toggle_pause(170));
    assert!(data.end_tracking(220));
    assert_eq!(data.tasks()[0].ended() - data.tasks()[0].started(), 100);
}

#[test]
fn secondary_task_pauses_and_then_restores_the_primary_task() {
    let mut data = Data::defaults();
    data.start_tracking(ProjectId::new("project-1"), 10).unwrap();
    assert!(data.checkpoint_active(40));

    data.start_tracking(ProjectId::new("project-2"), 50).unwrap();
    assert!(data.has_interrupted_task());
    assert_eq!(data.active_task().unwrap().project_id().as_str(), "project-2");
    assert_eq!(data.interrupted_task().unwrap().elapsed_until(80), 40);
    assert!(data.interrupted_task().unwrap().paused());
    assert!(matches!(
        data.start_tracking(ProjectId::new("project-3"), 60),
        Err(TrackerError::SecondaryTaskAlreadyActive)
    ));

    assert!(data.end_tracking(80));
    assert_eq!(data.tasks().len(), 1);
    assert_eq!(data.tasks()[0].project_id().as_str(), "project-2");
    assert_eq!(data.active_task().unwrap().project_id().as_str(), "project-1");
    assert!(data.active_task().unwrap().paused());
    assert!(!data.has_interrupted_task());
}

#[test]
fn recovery_finishes_both_tasks_without_resuming_them() {
    let mut data = Data::defaults();
    data.start_tracking(ProjectId::new("project-1"), 10).unwrap();
    assert!(data.checkpoint_active(40));
    data.start_tracking(ProjectId::new("project-2"), 50).unwrap();
    assert!(data.checkpoint_active(70));

    data.recover_active();

    assert!(data.active_task().is_none());
    assert!(!data.has_interrupted_task());
    assert_eq!(data.tasks().len(), 2);
    assert_eq!(data.tasks()[0].project_id().as_str(), "project-1");
    assert_eq!(data.tasks()[0].ended() - data.tasks()[0].started(), 40);
    assert_eq!(data.tasks()[1].project_id().as_str(), "project-2");
    assert_eq!(data.tasks()[1].ended() - data.tasks()[1].started(), 20);
}

#[test]
fn project_names_are_validated_and_projects_can_be_renamed() {
    let mut data = Data::defaults();
    assert!(matches!(
        validate_project_name("  "),
        Err(TrackerError::EmptyProjectName)
    ));
    data.rename_project(
        &ProjectId::new("project-1"),
        validate_project_name("  Planning ").unwrap(),
    );
    data.add_project(
        ProjectId::new("project-5"),
        validate_project_name("Review").unwrap(),
    );
    assert_eq!(data.projects()[4].name(), "Review");
}

#[test]
fn projects_can_be_archived_without_removing_their_history() {
    let mut data = Data::defaults();
    let project_id = ProjectId::new("project-1");
    data.start_tracking(project_id.clone(), 10).unwrap();
    assert!(data.end_tracking(70));
    data.archive_project(&project_id);
    assert!(data.projects()[0].archived());
    assert_eq!(
        data.project_name(data.tasks()[0].project_id()),
        "Project Atlas"
    );
    data.unarchive_project(&project_id);
    assert!(!data.projects()[0].archived());
}

#[test]
fn deleting_a_project_removes_its_sessions() {
    let mut data = Data::defaults();
    let project_id = ProjectId::new("project-1");
    data.start_tracking(project_id.clone(), 10).unwrap();
    assert!(data.end_tracking(70));
    data.delete_project(&project_id);
    assert!(data
        .projects()
        .iter()
        .all(|project| project.id() != &project_id));
    assert!(data.tasks().is_empty());
}

#[test]
fn range_checks_are_readable() {
    let task = Task::from_storage(
        TaskId::new("task-1"),
        ProjectId::new("project-1"),
        None,
        0,
        2_520,
        "Brief".into(),
    );

    assert!(in_range(&task, Range::Year, 2_520));
}

#[test]
fn german_locales_select_german_and_other_locales_fall_back_to_english() {
    assert_eq!(Language::from_locale(Some("de-DE")), Language::German);
    assert_eq!(Language::from_locale(Some("de_AT")), Language::German);
    assert_eq!(Language::from_locale(Some("de")), Language::German);
    assert_eq!(Language::from_locale(Some("de@euro")), Language::German);
    assert_eq!(Language::from_locale(Some("en-US")), Language::English);
    assert_eq!(Language::from_locale(None), Language::English);
}

#[test]
fn an_empty_store_starts_with_defaults_but_an_empty_backup_is_refused() {
    let data = Data::for_empty_store(false).unwrap();
    assert_eq!(data.projects().len(), 4);
    assert_eq!(data.projects()[0].name(), "Project Atlas");
    assert!(data.tasks().is_empty());
    assert!(matches!(
        Data::for_empty_store(true),
        Err(tempo::error::TrackerError::InvalidBackup)
    ));
}

#[test]
fn deleting_the_interrupting_project_leaves_the_paused_task_waiting() {
    let mut data = Data::defaults();
    data.start_tracking(ProjectId::new("project-1"), 10).unwrap();
    data.start_tracking(ProjectId::new("project-2"), 50).unwrap();
    data.delete_project(&ProjectId::new("project-2"));
    assert!(data.active_task().is_none());
    let waiting = data.interrupted_task().unwrap();
    assert_eq!(waiting.project_id().as_str(), "project-1");
    assert!(waiting.paused());
}
