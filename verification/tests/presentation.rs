use tempo::application::Tracker;
use tempo::domain::data::Data;
use tempo::domain::ids::ProjectId;
use tempo::domain::range::{LocalDate, Range};
use tempo::language::Language;
use tempo::presentation::{
    completion_label, evaluation, evaluation_at, evaluation_tasks, evaluation_tasks_at, format_duration, format_elapsed, home,
    project_settings, refresh, short_label, slint_seconds, tracking,
};

fn tracker() -> Tracker {
    Tracker::with_data(Data::defaults())
}

#[test]
fn projections_cover_empty_active_and_populated_states() {
    let mut tracker = tracker();
    assert!(!home(&tracker).has_last_task);
    assert_eq!(tracking(&tracker, 0).elapsed, "00:00");

    tracker.start_tracking("project-1".into(), 10);
    assert_eq!(tracking(&tracker, 70).elapsed, "01:00");
    tracker.toggle_tracking_pause(70);
    assert!(tracking(&tracker, 90).paused);
    tracker.end_tracking(130);
    assert!(home(&tracker).has_last_task);
    assert_eq!(home(&tracker).last_task.duration_seconds, 60);
    let evaluation = evaluation(&tracker, 130, Language::English);
    assert_eq!(evaluation.tasks.len(), 1);
    assert_eq!(evaluation.tasks[0].duration_seconds, 60);
    assert_eq!(evaluation.total_seconds, 60);
    assert_eq!(evaluation.project_totals.len(), 1);
    let total = &evaluation.project_totals[0];
    assert_eq!(total.project, "Project Atlas");
    assert_eq!(total.duration_seconds, 60);
    assert_eq!(total.num_tasks, 1);
}

#[test]
fn project_evaluation_contains_only_that_projects_tasks() {
    let mut tracker = tracker();

    tracker.start_tracking("project-1".into(), 10);
    tracker.end_tracking(70);
    tracker.save_task_note("Planning".into());
    tracker.start_tracking("project-2".into(), 80);
    tracker.end_tracking(110);

    let project_id = ProjectId::new("project-1");
    let evaluation = evaluation_tasks(&tracker, 130, &project_id, Language::English);
    assert_eq!(evaluation.project, "Project Atlas");
    assert_eq!(evaluation.tasks.len(), 1);
    assert_eq!(evaluation.tasks[0].note, "Planning");
    assert_eq!(evaluation.tasks[0].id, "task-10-1");
    assert_eq!(evaluation.total_seconds, 60);
}

#[test]
fn completion_labels_are_localized_and_capitalised() {
    let thursday = LocalDate {
        year: 1970,
        month: 1,
        day: 1,
        iso_year: 1970,
        iso_week: 1,
        weekday: 3,
        hour: 0,
        minute: 1,
    };
    assert_eq!(completion_label(thursday, Language::English), "THU, 1 JAN");
    assert_eq!(completion_label(thursday, Language::German), "DO., 1. JAN.");
    let march = LocalDate { month: 3, day: 14, weekday: 5, ..thursday };
    assert_eq!(completion_label(march, Language::German), "SA., 14. MÄRZ");
    assert_eq!(short_label(thursday), "Jan 1, 00:01");
    assert_eq!(short_label(LocalDate { hour: 13, minute: 45, ..march }), "Mar 14, 13:45");
}

#[test]
fn archived_projects_are_hidden_only_from_home() {
    let mut tracker = tracker();

    tracker.archive_project("project-1".into());

    assert_eq!(home(&tracker).projects.len(), 3);
    let settings = project_settings(&tracker);
    assert_eq!(settings.len(), 4);
    assert!(settings[0].archived);
}

#[test]
fn the_three_newest_tasks_are_listed_newest_first() {
    let mut tracker = tracker();
    tracker.choose_range(Range::Year);
    for (index, project) in ["project-1", "project-2", "project-1", "project-3"].iter().enumerate() {
        let start = 100 * index as i64;
        tracker.start_tracking((*project).into(), start);
        tracker.end_tracking(start + 10 * (index as i64 + 1));
    }
    let evaluation = evaluation(&tracker, 400, Language::English);
    assert_eq!(evaluation.tasks.len(), 3);
    assert_eq!(evaluation.tasks[0].project, "Writing");
    assert_eq!(evaluation.tasks[1].project, "Project Atlas");
    assert_eq!(evaluation.tasks[2].project, "Admin");
    assert_eq!(evaluation.total_seconds, 100);
    assert_eq!(evaluation.project_totals.len(), 3);
    assert_eq!(evaluation.project_totals[0].id, "project-1");
    assert_eq!(evaluation.project_totals[0].duration_seconds, 40);
    assert_eq!(evaluation.project_totals[0].num_tasks, 2);
    assert_eq!(evaluation.project_totals[1].duration_seconds, 20);
    assert_eq!(evaluation.project_totals[2].num_tasks, 1);
}

#[test]
fn tracking_shows_the_project_in_capitals() {
    let mut tracker = tracker();
    tracker.start_tracking("project-1".into(), 0);
    let state = tracking(&tracker, 3_725);
    assert_eq!(state.active_task, "PROJECT ATLAS");
    assert_eq!(state.elapsed, "62:05");
    assert!(!state.paused);
}

#[test]
fn refresh_builds_every_projection() {
    let mut tracker = tracker();
    tracker.select_evaluation_project("project-2".into());
    let projections = refresh(&tracker, 0, Language::German);
    assert_eq!(projections.home.projects.len(), 4);
    assert_eq!(projections.project_settings.len(), 4);
    assert_eq!(projections.evaluation.total_seconds, 0);
    assert_eq!(projections.evaluation_tasks.unwrap().project, "Admin");
    assert_eq!(projections.tracking.elapsed, "00:00");
}

#[test]
fn numbers_are_formatted_for_display() {
    assert_eq!(format_elapsed(0), "00:00");
    assert_eq!(format_elapsed(-5), "00:00");
    assert_eq!(format_elapsed(6_000), "100:00");
    assert_eq!(format_duration(59), "0 min");
    assert_eq!(format_duration(3_599), "59 min");
    assert_eq!(format_duration(3_600), "1 h 0 min");
    assert_eq!(format_duration(7_385), "2 h 3 min");
    assert_eq!(format_duration(-120), "-2 min");
    assert_eq!(slint_seconds(-1), 0);
    assert_eq!(slint_seconds(90), 90);
    assert_eq!(slint_seconds(i64::MAX), i32::MAX);
}

#[test]
fn evaluations_take_exactly_the_tasks_ending_in_the_range() {
    let day = |d: u32| LocalDate {
        year: 2024,
        month: 3,
        day: d,
        iso_year: 2024,
        iso_week: 10,
        weekday: 0,
        hour: 9,
        minute: 0,
    };
    let mut tracker = Tracker::with_data(Data::defaults());
    tracker.start_tracking("project-1".into(), 0);
    tracker.end_tracking(600);
    tracker.start_tracking("project-2".into(), 1_000);
    tracker.end_tracking(1_060);
    let ended = vec![day(4), day(5)];
    let state = evaluation_at(&tracker, day(5), &ended, Language::English);
    assert_eq!(state.total_seconds, 60);
    assert_eq!(state.tasks.len(), 1);
    assert_eq!(state.project_totals.len(), 1);
    tracker.choose_range(Range::Week);
    let week = evaluation_at(&tracker, day(5), &ended, Language::English);
    assert_eq!(week.total_seconds, 660);
    let atlas = ProjectId::new("project-1");
    let list = evaluation_tasks_at(&tracker, &atlas, day(5), &ended, Language::English);
    assert_eq!(list.tasks.len(), 1);
    assert_eq!(list.total_seconds, 600);
}
