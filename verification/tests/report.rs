use tempo::application::Tracker;
use tempo::domain::data::Data;
use tempo::domain::ids::ProjectId;
use tempo::domain::range::Range;
use tempo::language::Language;
use tempo::report::{local_timestamp, range_key, ExportDocument, ExportScope, ReportCopy};

fn tracker_with_tasks() -> Tracker {
    let mut tracker = Tracker::with_data(Data::defaults());
    tracker.start_tracking("project-1".into(), 0);
    tracker.end_tracking(2_520);
    tracker.save_task_note("Brief, \"review\"\nnext".into());
    tracker.start_tracking("project-2".into(), 3_000);
    tracker.end_tracking(3_060);
    tracker
}

#[test]
fn exports_are_scoped_and_preserve_machine_readable_fields() {
    let tracker = tracker_with_tasks();
    let project = ProjectId::new("project-1");
    let document = ExportDocument::new(
        tracker.data(),
        Range::Year,
        Some(&project),
        3_060,
        Language::English,
    );
    assert!(matches!(document.scope, ExportScope::Project { .. }));
    assert_eq!(document.tasks.len(), 1);
    assert_eq!(document.tasks[0].duration_seconds, 2_520);
    assert!(document.tasks[0].ended_at.contains('T'));
    assert_eq!(document.tasks[0].note, "Brief, \"review\"\nnext");
    assert_eq!(document.total_seconds, 2_520);
}

#[test]
fn markdown_is_localized() {
    let tracker = tracker_with_tasks();
    let document = ExportDocument::new(tracker.data(), Range::Year, None, 3_060, Language::German);
    let markdown = document.markdown();
    assert!(markdown.contains("**Gesamt:**"));
    assert!(markdown.contains("DIESES JAHR"));
    assert!(markdown.contains(": Brief, \"review\"\nnext\n"));
    assert_eq!(document.total_seconds, 2_580);
}

#[test]
fn an_empty_report_says_so() {
    let tracker = Tracker::with_data(Data::defaults());
    let document = ExportDocument::new(tracker.data(), Range::Week, None, 0, Language::English);
    assert_eq!(
        document.markdown(),
        "# Tempo — THIS WEEK\n\n**Total:** 0 min (0 s)\n\nNo completed tasks.\n"
    );
}

#[test]
fn a_project_report_names_the_project() {
    let tracker = tracker_with_tasks();
    let project = ProjectId::new("project-2");
    let document =
        ExportDocument::new(tracker.data(), Range::Year, Some(&project), 3_060, Language::English);
    assert!(document
        .markdown()
        .starts_with("# Tempo — Admin — THIS YEAR\n\n**Total:** 1 min (60 s)\n"));
}

#[test]
fn durations_round_to_minutes() {
    let english = ReportCopy::for_language(Language::English);
    let german = ReportCopy::for_language(Language::German);
    assert_eq!(english.duration(29), "0 min");
    assert_eq!(english.duration(30), "1 min");
    assert_eq!(english.duration(-100), "0 min");
    assert_eq!(english.duration(3_570), "1 h 0 min");
    assert_eq!(german.duration(5_430), "1 Std. 31 Min.");
    assert_eq!(german.range_name(Range::Week), "DIESE WOCHE");
    assert_eq!(range_key(Range::Month), "month");
}

#[test]
fn local_timestamps_are_rfc3339() {
    let text = local_timestamp(0);
    assert!(text.contains('T'));
    assert!(text.starts_with("19"));
}

fn date(year: i32, month: u32, day: u32) -> tempo::domain::range::LocalDate {
    tempo::domain::range::LocalDate {
        year,
        month,
        day,
        iso_year: year,
        iso_week: 1,
        weekday: 0,
        hour: 12,
        minute: 0,
    }
}

#[test]
fn exports_take_exactly_the_tasks_ending_in_the_range() {
    let tracker = tracker_with_tasks();
    let current = date(2024, 3, 5);
    let ended = vec![date(2024, 3, 5), date(2024, 2, 1)];
    let month =
        ExportDocument::from_dates(tracker.data(), Range::Month, None, 0, current, &ended, Language::English);
    assert_eq!(month.tasks.len(), 1);
    assert_eq!(month.tasks[0].project_id, "project-1");
    assert_eq!(month.tasks[0].duration, "42 min");
    assert_eq!(month.total_seconds, 2_520);

    let year =
        ExportDocument::from_dates(tracker.data(), Range::Year, None, 0, current, &ended, Language::English);
    assert_eq!(year.tasks.len(), 2);
    assert_eq!(year.total_seconds, 2_580);

    let admin = ProjectId::new("project-2");
    let scoped = ExportDocument::from_dates(
        tracker.data(),
        Range::Year,
        Some(&admin),
        0,
        current,
        &ended,
        Language::English,
    );
    assert_eq!(scoped.tasks.len(), 1);
    assert_eq!(scoped.tasks[0].project, "Admin");
    assert!(matches!(scoped.scope, ExportScope::Project { ref project, .. } if project == "Admin"));

    let elsewhere = vec![date(2023, 3, 5), date(2023, 3, 5)];
    let none = ExportDocument::from_dates(
        tracker.data(),
        Range::Year,
        None,
        0,
        current,
        &elsewhere,
        Language::German,
    );
    assert!(none.tasks.is_empty());
    assert!(none.markdown().contains("Keine abgeschlossenen Aufgaben."));
}
