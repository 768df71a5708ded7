use tempo::application::Tracker;
use tempo::controller::{
    export_file_kind, interval_duration, ordered_interval, FirstRunPhase, Page, ProjectEditorMode, Refresh, StatusKind, Step, UiCommand,
    UiController,
};
use tempo::domain::data::Data;
use tempo::domain::range::Range;
use tempo::language::Language;
use tempo::presentation::{refresh, Projections};
use tempo::report::Format;

fn controller() -> UiController {
    UiController::new(Tracker::with_data(Data::defaults()), Language::English)
}

/// Handles a command at `now`; a requested save succeeds when `saves` is set.
fn run(ui: &mut UiController, command: UiCommand, now: i64, saves: bool) -> Option<Projections> {
    let refresh_now = match ui.handle(command, now) {
        Step::Done { refresh } => refresh,
        Step::Save(pending) => {
            let saved = if saves { Ok(()) } else { Err("disk is read-only".to_owned()) };
            ui.finish(pending, saved)
        }
    };
    (refresh_now == Refresh::Everything).then(|| refresh(ui.tracker(), now, ui.language()))
}

fn view(ui: &UiController, now: i64) -> Projections {
    refresh(ui.tracker(), now, ui.language())
}

fn active_projects(ui: &UiController) -> usize {
    view(ui, 0).project_settings.iter().filter(|p| !p.archived).count()
}

fn archived_projects(ui: &UiController) -> usize {
    view(ui, 0).project_settings.iter().filter(|p| p.archived).count()
}

#[test]
fn navigation_command_changes_the_controller_owned_page() {
    let mut ui = controller();
    run(&mut ui, UiCommand::Navigate(Page::Settings), 0, true);
    assert_eq!(ui.page(), Page::Settings);
    run(&mut ui, UiCommand::Navigate(Page::Home), 0, true);
    assert_eq!(ui.page(), Page::Home);
    run(&mut ui, UiCommand::Navigate(Page::Note), 0, true);
    assert_eq!(ui.page(), Page::Note);
    assert_eq!(ui.note_focus_request(), 1);
}

#[test]
fn add_project_command_refreshes_the_settings_projection() {
    let mut ui = controller();
    run(&mut ui, UiCommand::Navigate(Page::Settings), 0, true);
    let projections = run(&mut ui, UiCommand::AddProject("Focus work".into()), 1_000, true);
    assert_eq!(ui.page(), Page::Settings);
    assert_eq!(projections.unwrap().project_settings.len(), 5);
}

#[test]
fn save_project_command_renames_the_project_and_refreshes_settings() {
    let mut ui = controller();
    let projections = run(
        &mut ui,
        UiCommand::SaveProject("project-1".into(), "Focus work".into()),
        0,
        true,
    )
    .unwrap();
    assert_eq!(projections.project_settings[0].name, "Focus work");
}

#[test]
fn tests_project_commands_archive_and_restore_the_home_projection() {
    let mut ui = controller();
    assert_eq!(view(&ui, 0).home.projects.len(), 4);
    run(&mut ui, UiCommand::ArchiveProject("project-1".into()), 0, true);
    assert_eq!(view(&ui, 0).home.projects.len(), 3);
    assert_eq!(archived_projects(&ui), 1);

    run(&mut ui, UiCommand::UnarchiveProject("project-1".into()), 0, true);
    assert_eq!(ui.page(), Page::Settings);
    assert_eq!(view(&ui, 0).home.projects.len(), 4);
}

#[test]
fn tests_evaluation_commands_change_range_update_and_delete_tasks() {
    let mut ui = controller();
    let now = 1_700_000_000;
    run(&mut ui, UiCommand::StartTracking("project-1".into()), now - 2, true);
    run(&mut ui, UiCommand::EndTracking, now - 1, true);
    let task_id = ui.tracker().data().tasks()[0].id().as_str().to_owned();

    let projections = run(&mut ui, UiCommand::ChooseRange(Range::Year), now, true).unwrap();
    assert_eq!(projections.evaluation.range, Range::Year);

    run(&mut ui, UiCommand::OpenDrilldown("project-1".into()), now, true);
    let projections = run(
        &mut ui,
        UiCommand::UpdateEvaluationTask(task_id.clone(), "Updated note".into()),
        now,
        true,
    )
    .unwrap();
    assert_eq!(projections.evaluation_tasks.unwrap().tasks[0].note, "Updated note");

    let projections = run(&mut ui, UiCommand::DeleteEvaluationTask(task_id.clone()), now, true).unwrap();
    assert_eq!(projections.evaluation_tasks.unwrap().tasks.len(), 0);

    assert!(run(&mut ui, UiCommand::DeleteEvaluationTask(task_id), now, true).is_none());
    let status = ui.status().unwrap();
    assert_eq!(status.message, "The session no longer exists");
    assert_eq!(status.kind, StatusKind::Error);
}

#[test]
fn export_commands_capture_the_evaluation_scope_and_return_page() {
    let mut ui = controller();
    let now = 1_700_000_000;
    run(&mut ui, UiCommand::StartTracking("project-1".into()), now - 2, true);
    run(&mut ui, UiCommand::EndTracking, now - 1, true);

    run(&mut ui, UiCommand::Navigate(Page::Evaluation), now, true);
    run(&mut ui, UiCommand::OpenExport, now, true);
    assert_eq!(ui.page(), Page::Exportpage);
    assert!(ui.export_state().unwrap().all_projects);
    assert_eq!(ui.export_state().unwrap().return_page, Page::Evaluation);
    let back = ui.export_state().unwrap().return_page;
    run(&mut ui, UiCommand::Navigate(back), now, true);
    assert_eq!(ui.page(), Page::Evaluation);

    run(&mut ui, UiCommand::OpenDrilldown("project-1".into()), now, true);
    run(&mut ui, UiCommand::OpenExport, now, true);
    assert_eq!(ui.page(), Page::Exportpage);
    assert!(!ui.export_state().unwrap().all_projects);
    assert_eq!(ui.export_state().unwrap().project, "Project Atlas");
    assert_eq!(ui.export_state().unwrap().return_page, Page::Drilldown);
    let back = ui.export_state().unwrap().return_page;
    run(&mut ui, UiCommand::Navigate(back), now, true);
    assert_eq!(ui.page(), Page::Drilldown);
    let scope = ui.begin_export().unwrap();
    assert_eq!(scope.unwrap().as_str(), "project-1");
}

#[test]
fn exporting_needs_an_opened_export_and_reports_its_outcome() {
    let mut ui = controller();
    assert!(ui.begin_export().is_none());
    assert_eq!(ui.status().unwrap().message, "Choose an export from Evaluation first");
    run(&mut ui, UiCommand::OpenExport, 0, true);
    assert_eq!(ui.status().unwrap().message, "Export is available from Evaluation");
    run(&mut ui, UiCommand::Navigate(Page::Drilldown), 0, true);
    run(&mut ui, UiCommand::OpenExport, 0, true);
    assert_eq!(ui.status().unwrap().message, "No project is selected for export");
    ui.export_finished(Ok(()));
    assert_eq!(ui.status().unwrap().message, "Export completed");
    assert_eq!(ui.status().unwrap().kind, StatusKind::Success);
    ui.export_finished(Err("no space left".into()));
    assert_eq!(ui.status().unwrap().message, "Export failed: no space left");
    ui.clear_status();
    assert!(ui.status().is_none());
    let (label, extension) = export_file_kind(Format::Markdown);
    assert_eq!((label, extension), ("Markdown", "md"));
}

#[test]
fn tests_tracking_commands_refresh_the_ui_through_the_single_dispatcher() {
    let mut ui = controller();

    let projections = run(&mut ui, UiCommand::StartTracking("project-1".into()), 100, true).unwrap();
    assert_eq!(ui.page(), Page::Tracking);
    assert_eq!(projections.tracking.active_task, "PROJECT ATLAS");

    let projections = run(&mut ui, UiCommand::ToggleTrackingPause, 110, true).unwrap();
    assert!(projections.tracking.paused);
    run(&mut ui, UiCommand::Tick, 120, true);

    let projections = run(&mut ui, UiCommand::EndTracking, 130, true).unwrap();
    assert_eq!(ui.page(), Page::Note);
    assert!(projections.home.has_last_task);

    let projections = run(&mut ui, UiCommand::SaveTaskNote("Finished the review".into()), 140, true).unwrap();
    assert_eq!(ui.page(), Page::Home);
    assert_eq!(projections.home.last_task.note, "Finished the review");
}

#[test]
fn active_tracking_remains_available_after_returning_home() {
    let mut ui = controller();
    run(&mut ui, UiCommand::StartTracking("project-1".into()), 1_000, true);
    run(&mut ui, UiCommand::Navigate(Page::Home), 1_000, true);
    let before = view(&ui, 1_000).tracking.elapsed;
    assert!(run(&mut ui, UiCommand::Tick, 1_002, true).is_none());
    assert_eq!(ui.page(), Page::Home);
    let after = view(&ui, 1_002).tracking;
    assert_eq!(after.active_task, "PROJECT ATLAS");
    assert_ne!(after.elapsed, before);
}

#[test]
fn secondary_tracking_locks_home_until_it_finishes_and_restores_the_primary() {
    let mut ui = controller();
    run(&mut ui, UiCommand::StartTracking("project-1".into()), 10, true);
    run(&mut ui, UiCommand::Navigate(Page::Home), 10, true);
    let projections = run(&mut ui, UiCommand::StartTracking("project-2".into()), 20, true).unwrap();
    assert_eq!(projections.tracking.active_task, "ADMIN");
    assert!(ui.tracker().data().has_interrupted_task());

    run(&mut ui, UiCommand::Navigate(Page::Home), 20, true);
    assert_eq!(ui.page(), Page::Tracking);
    assert_eq!(
        ui.status().unwrap().message,
        "Finish the interrupted task before returning home"
    );

    let projections = run(&mut ui, UiCommand::EndTracking, 30, true).unwrap();
    assert_eq!(ui.page(), Page::Note);
    assert_eq!(projections.tracking.active_task, "PROJECT ATLAS");
    assert!(projections.tracking.paused);
    assert!(!ui.tracker().data().has_interrupted_task());
}

#[test]
fn tests_persistence_errors_are_shown_and_status_expires() {
    let mut ui = controller();
    run(&mut ui, UiCommand::StartTracking("project-1".into()), 10, false);
    assert_eq!(ui.page(), Page::Home);
    assert_eq!(
        ui.status().unwrap().message,
        "Could not save data: disk is read-only"
    );
    ui.clear_status();
    assert!(ui.status().is_none());
}

#[test]
fn project_actions_create_edit_restore_and_delete_archived_project() {
    let mut ui = controller();
    run(&mut ui, UiCommand::ArchiveProject("project-1".into()), 0, true);
    assert_eq!(archived_projects(&ui), 1);
    run(&mut ui, UiCommand::OpenProjectEdit("project-1".into()), 0, true);
    assert_eq!(ui.page(), Page::ProjectEditor);
    assert_eq!(ui.project_editor().mode, ProjectEditorMode::Edit);
    assert!(ui.project_editor().project.archived);

    run(&mut ui, UiCommand::OpenProjectCreate, 0, true);
    assert_eq!(ui.project_editor().mode, ProjectEditorMode::Create);
    run(&mut ui, UiCommand::AddProject("Focus work".into()), 500, true);
    assert_eq!(active_projects(&ui), 4);

    let created = view(&ui, 0)
        .project_settings
        .into_iter()
        .find(|project| project.name == "Focus work")
        .expect("new project should appear in the settings projection");
    assert_eq!(created.id, "project-500");
    run(&mut ui, UiCommand::SaveProject(created.id.clone(), "Renamed focus work".into()), 0, true);
    assert!(view(&ui, 0)
        .project_settings
        .iter()
        .any(|project| project.name == "Renamed focus work"));

    run(&mut ui, UiCommand::ArchiveProject(created.id.clone()), 0, true);
    assert_eq!(archived_projects(&ui), 2);
    run(&mut ui, UiCommand::UnarchiveProject(created.id), 0, true);
    assert_eq!(archived_projects(&ui), 1);
    assert_eq!(active_projects(&ui), 4);

    run(&mut ui, UiCommand::DeleteProject("project-1".into()), 0, true);
    assert_eq!(ui.page(), Page::Settings);
    assert_eq!(archived_projects(&ui), 0);
    assert!(!ui.project_name_exists("Project Atlas"));
    assert!(ui.project_name_exists("Admin"));
}

#[test]
fn invalid_project_name_keeps_editor_and_navigation_returns_to_settings() {
    let mut ui = controller();
    run(&mut ui, UiCommand::OpenProjectCreate, 0, true);
    assert!(run(&mut ui, UiCommand::AddProject("   ".into()), 0, true).is_none());

    assert_eq!(ui.project_editor().mode, ProjectEditorMode::Create);
    assert_eq!(ui.project_editor().error, "Project name cannot be empty");
    assert_eq!(ui.page(), Page::ProjectEditor);
    assert_eq!(active_projects(&ui), 4);

    run(&mut ui, UiCommand::Navigate(Page::Settings), 0, true);
    assert_eq!(ui.page(), Page::Settings);
}

#[test]
fn failed_project_save_preserves_draft_and_can_be_retried() {
    let mut ui = controller();
    run(&mut ui, UiCommand::OpenProjectCreate, 0, true);
    assert!(run(&mut ui, UiCommand::AddProject("Retry me".into()), 7, false).is_none());
    assert_eq!(ui.project_editor().mode, ProjectEditorMode::Create);
    assert_eq!(ui.project_editor().error, "disk is read-only");
    assert_eq!(ui.page(), Page::ProjectEditor);
    assert_eq!(active_projects(&ui), 4);

    let projections = run(&mut ui, UiCommand::AddProject("Retry me".into()), 7, true);
    assert_eq!(ui.page(), Page::Settings);
    assert_eq!(ui.project_editor().error, "");
    assert_eq!(projections.unwrap().project_settings.len(), 5);
    assert_eq!(active_projects(&ui), 5);
}

#[test]
fn missing_projects_and_tasks_are_reported() {
    let mut ui = controller();
    run(&mut ui, UiCommand::OpenProjectEdit("project-9".into()), 0, true);
    assert_eq!(ui.status().unwrap().message, "The project no longer exists");
    assert_eq!(ui.page(), Page::Home);
    run(&mut ui, UiCommand::OpenLastTask, 0, true);
    assert_eq!(ui.page(), Page::Home);
    assert_eq!(ui.adjusted_duration("task-1-1", "09:00", "10:00"), "");
    assert!(ui.adjusted_interval("task-1-1", "09:00", "10:00").is_none());
}

#[test]
fn adjusted_times_give_a_duration_on_the_task_day() {
    let mut ui = controller();
    run(&mut ui, UiCommand::StartTracking("project-1".into()), 1_700_000_000, true);
    run(&mut ui, UiCommand::EndTracking, 1_700_000_600, true);
    let id = ui.tracker().data().tasks()[0].id().as_str().to_owned();
    let (started, finished) = ui.adjusted_interval(&id, " 09:00", "10:30 ").unwrap();
    assert_eq!(finished - started, 5_400);
    assert_eq!(ui.adjusted_duration(&id, "09:00", "10:30"), "1 h 30 min");
    assert!(ui.adjusted_interval(&id, "10:00", "09:00").is_none());
    assert!(ui.adjusted_interval(&id, "9h", "10:00").is_none());
}

#[test]
fn an_empty_tracker_opens_on_the_first_run_page() {
    let mut data = Data::defaults();
    for id in ["project-1", "project-2", "project-3", "project-4"] {
        data.delete_project(&tempo::domain::ids::ProjectId::new(id));
    }
    let ui = UiController::new(Tracker::with_data(data), Language::German);
    assert_eq!(ui.page(), Page::FirstRun);
}

fn first_run_controller() -> UiController {
    let mut data = Data::defaults();
    for id in ["project-1", "project-2", "project-3", "project-4"] {
        data.delete_project(&tempo::domain::ids::ProjectId::new(id));
    }
    UiController::new(Tracker::with_data(data), Language::English)
}

#[test]
fn first_run_projects_are_listed_once_saved() {
    let mut ui = first_run_controller();
    assert_eq!(ui.first_run().phase, FirstRunPhase::Create);
    let projections = run(&mut ui, UiCommand::AddFirstRunProject("  Writing ".into()), 500, true);
    assert_eq!(projections.unwrap().project_settings.len(), 1);
    assert_eq!(ui.page(), Page::FirstRun);
    assert_eq!(ui.first_run().phase, FirstRunPhase::ChooseNext);
    assert_eq!(ui.first_run().created_projects.len(), 1);
    assert_eq!(ui.first_run().created_projects[0].id, "project-500");
    assert_eq!(ui.first_run().created_projects[0].name, "Writing");
    run(&mut ui, UiCommand::AddFirstRunProject("Reading".into()), 600, true);
    assert_eq!(ui.first_run().created_projects.len(), 2);
    assert_eq!(ui.first_run().created_projects[1].id, "project-600");
    assert_eq!(ui.first_run().error, "");
}

#[test]
fn first_run_rejects_blank_names_and_reports_failed_saves() {
    let mut ui = first_run_controller();
    assert!(run(&mut ui, UiCommand::AddFirstRunProject("   ".into()), 500, true).is_none());
    assert_eq!(ui.first_run().error, "Project name cannot be empty");
    assert_eq!(ui.first_run().phase, FirstRunPhase::Create);
    assert!(ui.tracker().data().projects().is_empty());

    assert!(run(&mut ui, UiCommand::AddFirstRunProject("Writing".into()), 500, false).is_none());
    assert_eq!(ui.first_run().error, "disk is read-only");
    assert!(ui.first_run().created_projects.is_empty());
    assert!(ui.tracker().data().projects().is_empty());
    assert_eq!(ui.first_run().phase, FirstRunPhase::Create);
}

#[test]
fn adjusting_time_needs_a_completed_task() {
    let mut ui = controller();
    run(&mut ui, UiCommand::OpenAdjustTime, 0, true);
    assert_eq!(ui.page(), Page::Home);
    assert_eq!(ui.status().unwrap().message, "There is no completed task to adjust");
    assert_eq!(ui.adjust_time_focus_request(), 0);

    run(&mut ui, UiCommand::StartTracking("project-1".into()), 10, true);
    run(&mut ui, UiCommand::EndTracking, 40, true);
    run(&mut ui, UiCommand::OpenAdjustTime, 40, true);
    assert_eq!(ui.page(), Page::AdjustTime);
    assert_eq!(ui.adjust_time_focus_request(), 1);
}

#[test]
fn project_editor_is_an_exclusive_page_and_returns_to_settings() {
    let mut ui = controller();
    run(&mut ui, UiCommand::OpenProjectCreate, 0, true);
    assert_eq!(ui.page(), Page::ProjectEditor);
    run(&mut ui, UiCommand::Navigate(Page::Settings), 0, true);
    assert_eq!(ui.page(), Page::Settings);
}

#[test]
fn intervals_need_a_later_finish_and_give_a_duration_label() {
    assert_eq!(ordered_interval(10, 70), Some((10, 70)));
    assert_eq!(ordered_interval(70, 70), None);
    assert_eq!(interval_duration(Some((0, 5_400))), "1 h 30 min");
    assert_eq!(interval_duration(Some((0, 600))), "10 min");
    assert_eq!(interval_duration(None), "");
    assert_eq!(interval_duration(Some((i64::MIN, i64::MAX))), "");
}

#[test]
fn a_failed_archive_leaves_the_project_active() {
    let mut ui = controller();
    assert!(run(&mut ui, UiCommand::ArchiveProject("project-1".into()), 0, false).is_none());
    assert_eq!(archived_projects(&ui), 0);
    assert_eq!(ui.project_editor().error, "disk is read-only");
}

#[test]
fn every_tick_rebuilds_the_tracking_view_only() {
    let mut ui = controller();
    assert_eq!(ui.handle(UiCommand::Tick, 5), Step::Done { refresh: Refresh::Tracking });
    run(&mut ui, UiCommand::StartTracking("project-1".into()), 10, true);
    assert_eq!(ui.handle(UiCommand::Tick, 20), Step::Save(tempo::controller::Pending::Tick));
    assert_eq!(ui.finish(tempo::controller::Pending::Tick, Ok(())), Refresh::Tracking);
    assert_eq!(ui.handle(UiCommand::Tick, 30), Step::Save(tempo::controller::Pending::Tick));
    assert_eq!(
        ui.finish(tempo::controller::Pending::Tick, Err("disk is read-only".into())),
        Refresh::Tracking
    );
    assert_eq!(ui.status().unwrap().message, "Could not save data: disk is read-only");
}
