use tempo::domain::data::Data;
use tempo::domain::ids::ProjectId;
use tempo::domain::project::validate_project_name;
use tempo::domain::range::{in_range, in_period, local_date, Range};
use tempo::domain::task::Task;
use tempo::domain::time::now;
use tempo::error::TrackerError;
use tempo::language::Language;
use tempo::text::{decimal_text, signed_text};

#[test]
fn integers_are_written_in_decimal() {
    assert_eq!(decimal_text(0), "0");
    assert_eq!(decimal_text(1_234_567), "1234567");
    assert_eq!(decimal_text(u64::MAX), "18446744073709551615");
    assert_eq!(signed_text(-42), "-42");
    assert_eq!(signed_text(i64::MIN), "-9223372036854775808");
}

#[test]
fn task_ids_count_up_within_one_second() {
    let mut data = Data::defaults();
    data.start_tracking(ProjectId::new("project-1"), 10).unwrap();
    data.start_tracking(ProjectId::new("project-2"), 10).unwrap();
    assert_eq!(data.interrupted_task().unwrap().id().as_str(), "task-10-1");
    assert_eq!(data.active_task().unwrap().id().as_str(), "task-10-2");
    assert!(data.end_tracking(10));
    assert!(data.end_tracking(10));
    data.start_tracking(ProjectId::new("project-3"), 10).unwrap();
    assert_eq!(data.active_task().unwrap().id().as_str(), "task-10-3");
    assert_eq!(data.next_task_id(-5).as_str(), "task--5-1");
}

#[test]
fn names_are_trimmed_of_unicode_whitespace() {
    assert_eq!(validate_project_name("\u{3000}Name\t\n").unwrap(), "Name");
    assert_eq!(validate_project_name("a b").unwrap(), "a b");
    assert!(matches!(
        validate_project_name("\u{2003}\u{00a0}"),
        Err(TrackerError::EmptyProjectName)
    ));
}

#[test]
fn locale_codes_ignore_ascii_case_and_need_exactly_de() {
    assert_eq!(Language::from_locale(Some("DE-at")), Language::German);
    assert_eq!(Language::from_locale(Some("dE")), Language::German);
    assert_eq!(Language::from_locale(Some("d")), Language::English);
    assert_eq!(Language::from_locale(Some("deu")), Language::English);
    assert_eq!(Language::from_locale(Some("")), Language::English);
    assert_eq!(Language::from_locale(Some("-de")), Language::English);
    assert_eq!(Language::German.slint_locale(), "de");
    let _ = Language::system();
}

#[test]
fn a_task_lies_in_every_range_of_its_own_end() {
    let task = Task::from_storage(
        tempo::domain::ids::TaskId::new("task-1"),
        ProjectId::new("project-1"),
        None,
        0,
        86_400 * 400,
        String::new(),
    );
    for range in [Range::Day, Range::Week, Range::Month, Range::Year] {
        assert!(in_range(&task, range, 86_400 * 400));
    }
    let date = local_date(86_400 * 400);
    assert!(in_period(Range::Month, date, date));
    assert!(!in_range(&task, Range::Year, 0));
}

#[test]
fn the_clock_reads_after_the_epoch() {
    assert!(now() > 1_600_000_000);
}

#[test]
fn error_messages_name_the_problem() {
    assert_eq!(
        TrackerError::EmptyProjectName.message(),
        "Project name cannot be empty"
    );
    assert_eq!(
        TrackerError::SecondaryTaskAlreadyActive.message(),
        "Finish the interrupted task before starting another one"
    );
}

#[test]
fn local_dates_stay_within_a_day_of_the_utc_date() {
    let date = local_date(1_700_000_000);
    assert_eq!((date.year, date.month), (2023, 11));
    assert!((13..=15).contains(&date.day));
    let far = local_date(-8_000_000_000_000);
    assert!(far.year < -250_000);
}

#[test]
fn clock_readings_become_unix_seconds() {
    assert_eq!(tempo::domain::time::unix_seconds(Some(1_700_000_000)), 1_700_000_000);
    assert_eq!(tempo::domain::time::unix_seconds(None), 0);
    assert_eq!(tempo::domain::time::unix_seconds(Some(u64::MAX)), -1);
}
