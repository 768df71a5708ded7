//! Read-only export projections over completed tasks.
//!
//! This module builds the shared export dataset and its Markdown rendering.
//! It does not write files or mutate tracker state.

use crate::domain::data::{Data, DataView, project_name_of};
use crate::domain::ids::ProjectId;
use crate::domain::range::{
    LocalDate, Range, dates_near, days_from_civil, end_dates, in_period, lemma_end_dates_near, local_date, period_flags,
};
use crate::domain::task::{TaskView, duration};
use crate::domain::time::now;
use crate::language::Language;
use crate::text::{
    decimal, digit_char, push_decimal, push_signed, signed_decimal, trim_str, trimmed, two_digits,
};
use chrono::{Local, TimeZone};
use vstd::prelude::*;

verus! {

/// The finite set of file formats offered by the export workflow.
#[derive(Clone, Copy, Debug, PartialEq, Eq, Structural)]
pub enum Format {
    Csv,
    Markdown,
    Json,
}

/// The words a report is written in.
pub struct ReportCopy {
    pub total_label: &'static str,
    pub no_completed_tasks: &'static str,
    pub minute: &'static str,
    pub hour: &'static str,
    pub today: &'static str,
    pub this_week: &'static str,
    pub this_month: &'static str,
    pub this_year: &'static str,
}

pub struct ReportCopyView {
    pub total_label: Seq<char>,
    pub no_completed_tasks: Seq<char>,
    pub minute: Seq<char>,
    pub hour: Seq<char>,
    pub today: Seq<char>,
    pub this_week: Seq<char>,
    pub this_month: Seq<char>,
    pub this_year: Seq<char>,
}

impl View for ReportCopy {
    type V = ReportCopyView;

    open spec fn view(&self) -> ReportCopyView {
        ReportCopyView {
            total_label: self.total_label@,
            no_completed_tasks: self.no_completed_tasks@,
            minute: self.minute@,
            hour: self.hour@,
            today: self.today@,
            this_week: self.this_week@,
            this_month: self.this_month@,
            this_year: self.this_year@,
        }
    }
}

/// The report words in each language.
pub open spec fn copy_for(language: Language) -> ReportCopyView {
    match language {
        Language::English => ReportCopyView {
            total_label: "Total"@,
            no_completed_tasks: "No completed tasks."@,
            minute: "min"@,
            hour: "h"@,
            today: "TODAY"@,
            this_week: "THIS WEEK"@,
            this_month: "THIS MONTH"@,
            this_year: "THIS YEAR"@,
        },
        Language::German => ReportCopyView {
            total_label: "Gesamt"@,
            no_completed_tasks: "Keine abgeschlossenen Aufgaben."@,
            minute: "Min."@,
            hour: "Std."@,
            today: "HEUTE"@,
            this_week: "DIESE WOCHE"@,
            this_month: "DIESER MONAT"@,
            this_year: "DIESES JAHR"@,
        },
    }
}

/// The heading word for a range.
pub open spec fn range_title(copy: ReportCopyView, range: Range) -> Seq<char> {
    match range {
        Range::Day => copy.today,
        Range::Week => copy.this_week,
        Range::Month => copy.this_month,
        Range::Year => copy.this_year,
    }
}

/// Whole minutes of a duration, rounded to the nearest minute; negative durations count as zero.
pub open spec fn rounded_minutes(seconds: int) -> nat {
    ((if seconds < 0 { 0 } else { seconds }) + 30) as nat / 60
}

/// A duration as "`m` min", or "`h` h `m` min" from one hour on.
pub open spec fn duration_text(copy: ReportCopyView, seconds: int) -> Seq<char> {
    let minutes = rounded_minutes(seconds);
    if minutes >= 60 {
        decimal(minutes / 60) + " "@ + copy.hour + " "@ + decimal(minutes % 60) + " "@ + copy.minute
    } else {
        decimal(minutes) + " "@ + copy.minute
    }
}

impl ReportCopy {
    pub fn for_language(language: Language) -> (r: ReportCopy)
        ensures
            r@ == copy_for(language),
    {
        match language {
            Language::English => ReportCopy {
                total_label: "Total",
                no_completed_tasks: "No completed tasks.",
                minute: "min",
                hour: "h",
                today: "TODAY",
                this_week: "THIS WEEK",
                this_month: "THIS MONTH",
                this_year: "THIS YEAR",
            },
            Language::German => ReportCopy {
                total_label: "Gesamt",
                no_completed_tasks: "Keine abgeschlossenen Aufgaben.",
                minute: "Min.",
                hour: "Std.",
                today: "HEUTE",
                this_week: "DIESE WOCHE",
                this_month: "DIESER MONAT",
                this_year: "DIESES JAHR",
            },
        }
    }

    /// The heading word for `range`.
    pub fn range_name(&self, range: Range) -> (r: &'static str)
        ensures
            r@ == range_title(self@, range),
    {
        match range {
            Range::Day => self.today,
            Range::Week => self.this_week,
            Range::Month => self.this_month,
            Range::Year => self.this_year,
        }
    }

    /// A duration rounded to whole minutes, in this language's units.
    pub fn duration(&self, seconds: i64) -> (r: String)
        requires
            seconds <= i64::MAX - 30,
        ensures
            r@ == duration_text(self@, seconds as int),
    {
        let minutes = ((if seconds < 0 { 0 } else { seconds }) + 30) / 60;
        let minutes = minutes as u64;
        let mut out = String::new();
        if minutes >= 60 {
            push_decimal(&mut out, minutes / 60);
            out.append(" ");
            out.append(self.hour);
            out.append(" ");
            push_decimal(&mut out, minutes % 60);
            out.append(" ");
            out.append(self.minute);
        } else {
            push_decimal(&mut out, minutes);
            out.append(" ");
            out.append(self.minute);
        }
        assert(out@ =~= duration_text(self@, seconds as int));
        out
    }
}

/// The key under which a range is written in machine-readable exports.
pub fn range_key(range: Range) -> (r: &'static str)
    ensures
        range is Day ==> r@ == "day"@,
        range is Week ==> r@ == "week"@,
        range is Month ==> r@ == "month"@,
        range is Year ==> r@ == "year"@,
{
    match range {
        Range::Day => "day",
        Range::Week => "week",
        Range::Month => "month",
        Range::Year => "year",
    }
}


/// One exported task.
#[derive(Debug)]
pub struct ExportTask {
    pub task_id: String,
    pub project_id: String,
    pub project: String,
    pub started_at: String,
    pub ended_at: String,
    pub duration_seconds: i64,
    pub duration: String,
    pub note: String,
}

pub struct ExportTaskView {
    pub task_id: Seq<char>,
    pub project_id: Seq<char>,
    pub project: Seq<char>,
    pub started_at: Seq<char>,
    pub ended_at: Seq<char>,
    pub duration_seconds: int,
    pub duration: Seq<char>,
    pub note: Seq<char>,
}

impl View for ExportTask {
    type V = ExportTaskView;

    open spec fn view(&self) -> ExportTaskView {
        ExportTaskView {
            task_id: self.task_id@,
            project_id: self.project_id@,
            project: self.project@,
            started_at: self.started_at@,
            ended_at: self.ended_at@,
            duration_seconds: self.duration_seconds as int,
            duration: self.duration@,
            note: self.note@,
        }
    }
}

/// Which tasks an export covers.
#[derive(Debug)]
pub enum ExportScope {
    AllProjects,
    Project { project_id: String, project: String },
}

pub enum ExportScopeView {
    AllProjects,
    Project { project_id: Seq<char>, project: Seq<char> },
}

impl View for ExportScope {
    type V = ExportScopeView;

    open spec fn view(&self) -> ExportScopeView {
        match self {
            ExportScope::AllProjects => ExportScopeView::AllProjects,
            ExportScope::Project { project_id, project } => ExportScopeView::Project {
                project_id: project_id@,
                project: project@,
            },
        }
    }
}

/// The export dataset: the tasks of one range, optionally of one project.
pub struct ExportDocument {
    pub generated_at: String,
    pub range: Range,
    pub scope: ExportScope,
    pub total_seconds: i64,
    pub tasks: Vec<ExportTask>,
    pub copy: ReportCopy,
}

pub struct ExportDocumentView {
    pub generated_at: Seq<char>,
    pub range: Range,
    pub scope: ExportScopeView,
    pub total_seconds: int,
    pub tasks: Seq<ExportTaskView>,
    pub copy: ReportCopyView,
}

impl View for ExportDocument {
    type V = ExportDocumentView;

    open spec fn view(&self) -> ExportDocumentView {
        ExportDocumentView {
            generated_at: self.generated_at@,
            range: self.range,
            scope: self.scope@,
            total_seconds: self.total_seconds as int,
            tasks: self.tasks@.map_values(|t: ExportTask| t@),
            copy: self.copy@,
        }
    }
}

/// Whether a task belongs to the optional project filter.
pub open spec fn in_scope(t: TaskView, project: Option<Seq<char>>) -> bool {
    match project {
        Some(id) => t.project_id == id,
        None => true,
    }
}

/// The tasks flagged as lying in the range and belonging to the scope, in order.
pub open spec fn selected(tasks: Seq<TaskView>, in_range: Seq<bool>, project: Option<Seq<char>>) -> Seq<TaskView>
    decreases tasks.len(),
{
    if tasks.len() == 0 {
        Seq::empty()
    } else {
        let rest = selected(tasks.drop_last(), in_range.drop_last(), project);
        if in_range.last() && in_scope(tasks.last(), project) {
            rest.push(tasks.last())
        } else {
            rest
        }
    }
}

/// The summed duration of tasks.
pub open spec fn total_duration(tasks: Seq<TaskView>) -> int
    decreases tasks.len(),
{
    if tasks.len() == 0 {
        0
    } else {
        total_duration(tasks.drop_last()) + duration(tasks.last())
    }
}

/// The summed absolute duration of tasks, which bounds every partial total.
pub open spec fn magnitude(tasks: Seq<TaskView>) -> int
    decreases tasks.len(),
{
    if tasks.len() == 0 {
        0
    } else {
        magnitude(tasks.drop_last()) + if duration(tasks.last()) < 0 {
            -duration(tasks.last())
        } else {
            duration(tasks.last())
        }
    }
}

/// The fields of an RFC 3339 time stamp as chrono writes one: the local date
/// and time, and the offset from UTC rounded to whole minutes.
pub struct StampFields {
    pub year: int,
    pub month: int,
    pub day: int,
    pub hour: int,
    pub minute: int,
    pub second: int,
    /// Whether the local time is behind UTC (a `-` offset).
    pub behind_utc: bool,
    pub offset_minutes: int,
}

pub open spec fn stamp_fields_valid(f: StampFields) -> bool {
    &&& 0 <= f.year <= 9999
    &&& 1 <= f.month <= 12
    &&& 1 <= f.day <= 31
    &&& 0 <= f.hour < 24
    &&& 0 <= f.minute < 60
    &&& 0 <= f.second < 60
    &&& 0 <= f.offset_minutes <= 1440
}

/// The text `YYYY-MM-DDTHH:MM:SS±HH:MM` of a stamp.
pub open spec fn stamp_text(f: StampFields) -> Seq<char> {
    two_digits((f.year / 100) as nat) + two_digits((f.year % 100) as nat) + "-"@ + two_digits(
        f.month as nat,
    ) + "-"@ + two_digits(f.day as nat) + "T"@ + two_digits(f.hour as nat) + ":"@ + two_digits(
        f.minute as nat,
    ) + ":"@ + two_digits(f.second as nat) + (if f.behind_utc {
        "-"@
    } else {
        "+"@
    }) + two_digits((f.offset_minutes / 60) as nat) + ":"@ + two_digits((f.offset_minutes % 60) as nat)
}

/// The moment, in seconds since 1970 in UTC, that a stamp's fields name.
pub open spec fn stamp_moment(f: StampFields) -> int {
    let local = days_from_civil(f.year, f.month, f.day) * 86_400 + f.hour * 3_600 + f.minute * 60
        + f.second;
    local - if f.behind_utc {
        -60 * f.offset_minutes
    } else {
        60 * f.offset_minutes
    }
}

/// `text` is an RFC 3339 stamp naming `timestamp`, to within the half minute
/// by which the written offset is rounded.
pub open spec fn stamp_denotes(text: Seq<char>, timestamp: int) -> bool {
    exists|f: StampFields|
        stamp_fields_valid(f) && #[trigger] stamp_text(f) == text && -30 <= stamp_moment(f)
            - timestamp <= 30
}

/// Timestamps whose local time, under any offset of less than a day, falls
/// in the years 1 to 9999, which RFC 3339 writes with four digits.
pub open spec fn stampable(timestamp: int) -> bool {
    -62_135_596_800 + 86_400 <= timestamp <= 253_402_300_799 - 86_400
}

/// Two decimal digits of a number below one hundred.
proof fn lemma_two_digits(n: nat)
    requires
        n < 100,
    ensures
        two_digits(n) == seq![digit_char(n / 10), digit_char(n % 10)],
{
    if n < 10 {
        assert(digit_char(0) == '0');
        assert(two_digits(n) =~= seq![digit_char(n / 10), digit_char(n % 10)]);
    } else {
        assert(decimal(n / 10) == seq![digit_char(n / 10)]);
        assert(two_digits(n) =~= seq![digit_char(n / 10), digit_char(n % 10)]);
    }
}

/// Digits below ten are told apart by their characters.
proof fn lemma_digit_char_injective(a: nat, b: nat)
    requires
        a < 10,
        b < 10,
        digit_char(a) == digit_char(b),
    ensures
        a == b,
{
    assert(digit_char(a) as int == 48 + a);
    assert(digit_char(b) as int == 48 + b);
}

/// The characters of a stamp, one by one.
pub open spec fn stamp_chars(f: StampFields) -> Seq<char> {
    let y = (f.year / 100) as nat;
    let z = (f.year % 100) as nat;
    let oh = (f.offset_minutes / 60) as nat;
    let om = (f.offset_minutes % 60) as nat;
    seq![
        digit_char(y / 10), digit_char(y % 10), digit_char(z / 10), digit_char(z % 10), '-',
        digit_char(f.month as nat / 10), digit_char(f.month as nat % 10), '-',
        digit_char(f.day as nat / 10), digit_char(f.day as nat % 10), 'T',
        digit_char(f.hour as nat / 10), digit_char(f.hour as nat % 10), ':',
        digit_char(f.minute as nat / 10), digit_char(f.minute as nat % 10), ':',
        digit_char(f.second as nat / 10), digit_char(f.second as nat % 10),
        if f.behind_utc { '-' } else { '+' },
        digit_char(oh / 10), digit_char(oh % 10), ':', digit_char(om / 10), digit_char(om % 10),
    ]
}

#[verifier::rlimit(50)]
proof fn lemma_stamp_chars(f: StampFields)
    requires
        stamp_fields_valid(f),
    ensures
        stamp_text(f) == stamp_chars(f),
{
    reveal_strlit("-");
    reveal_strlit("+");
    reveal_strlit("T");
    reveal_strlit(":");
    lemma_two_digits((f.year / 100) as nat);
    lemma_two_digits((f.year % 100) as nat);
    lemma_two_digits(f.month as nat);
    lemma_two_digits(f.day as nat);
    lemma_two_digits(f.hour as nat);
    lemma_two_digits(f.minute as nat);
    lemma_two_digits(f.second as nat);
    lemma_two_digits((f.offset_minutes / 60) as nat);
    lemma_two_digits((f.offset_minutes % 60) as nat);
    assert(stamp_text(f) =~= stamp_chars(f));
}

/// Two numbers below one hundred whose digits agree are equal.
proof fn lemma_digits_agree(a: nat, b: nat)
    requires
        a < 100,
        b < 100,
        digit_char(a / 10) == digit_char(b / 10),
        digit_char(a % 10) == digit_char(b % 10),
    ensures
        a == b,
{
    lemma_digit_char_injective(a / 10, b / 10);
    lemma_digit_char_injective(a % 10, b % 10);
}

/// The characters of a stamp determine its fields.
#[verifier::rlimit(50)]
proof fn lemma_stamp_chars_injective(f: StampFields, g: StampFields)
    requires
        stamp_fields_valid(f),
        stamp_fields_valid(g),
        stamp_chars(f) == stamp_chars(g),
    ensures
        f == g,
{
    let a = stamp_chars(f);
    let b = stamp_chars(g);
    assert(a[0] == b[0] && a[1] == b[1] && a[2] == b[2] && a[3] == b[3]);
    lemma_digits_agree((f.year / 100) as nat, (g.year / 100) as nat);
    lemma_digits_agree((f.year % 100) as nat, (g.year % 100) as nat);
    assert(f.year == g.year);
    assert(a[5] == b[5] && a[6] == b[6]);
    lemma_digits_agree(f.month as nat, g.month as nat);
    assert(a[8] == b[8] && a[9] == b[9]);
    lemma_digits_agree(f.day as nat, g.day as nat);
    assert(a[11] == b[11] && a[12] == b[12]);
    lemma_digits_agree(f.hour as nat, g.hour as nat);
    assert(a[14] == b[14] && a[15] == b[15]);
    lemma_digits_agree(f.minute as nat, g.minute as nat);
    assert(a[17] == b[17] && a[18] == b[18]);
    lemma_digits_agree(f.second as nat, g.second as nat);
    assert(a[19] == b[19]);
    assert(a[20] == b[20] && a[21] == b[21]);
    lemma_digits_agree((f.offset_minutes / 60) as nat, (g.offset_minutes / 60) as nat);
    assert(a[23] == b[23] && a[24] == b[24]);
    lemma_digits_agree((f.offset_minutes % 60) as nat, (g.offset_minutes % 60) as nat);
    assert(f.offset_minutes == g.offset_minutes);
}

/// A stamp's text determines its fields, and so the moment it names.
pub proof fn lemma_stamp_text_injective(f: StampFields, g: StampFields)
    requires
        stamp_fields_valid(f),
        stamp_fields_valid(g),
        stamp_text(f) == stamp_text(g),
    ensures
        f == g,
{
    lemma_stamp_chars(f);
    lemma_stamp_chars(g);
    lemma_stamp_chars_injective(f, g);
}

/// What an export row says of a task: its identity, project, duration, note,
/// and stamps naming when it started and when it ended.
pub open spec fn row_matches(row: ExportTaskView, t: TaskView, d: DataView, copy: ReportCopyView) -> bool {
    &&& row.task_id == t.id
    &&& row.project_id == t.project_id
    &&& row.project == project_name_of(d, t.project_id)
    &&& row.duration_seconds == duration(t)
    &&& row.duration == duration_text(copy, duration(t))
    &&& row.note == t.note
    &&& stampable(t.started as int) ==> stamp_denotes(row.started_at, t.started as int)
    &&& stampable(t.ended as int) ==> stamp_denotes(row.ended_at, t.ended as int)
}

/// `doc` is the export of `d` for `range` and the optional project around
/// `current`, where `ended[k]` is the local date on which task `k` ended.
pub open spec fn export_on(
    doc: ExportDocumentView,
    d: DataView,
    range: Range,
    project: Option<Seq<char>>,
    language: Language,
    current: LocalDate,
    ended: Seq<LocalDate>,
) -> bool {
    let chosen = selected(d.tasks, period_flags(range, current, ended), project);
    &&& ended.len() == d.tasks.len()
    &&& doc.range == range
    &&& doc.copy == copy_for(language)
    &&& doc.scope == match project {
        Some(id) => ExportScopeView::Project { project_id: id, project: project_name_of(d, id) },
        None => ExportScopeView::AllProjects,
    }
    &&& doc.tasks.len() == chosen.len()
    &&& forall|k: int|
        0 <= k < chosen.len() ==> row_matches(
            #[trigger] doc.tasks[k],
            chosen[k],
            d,
            copy_for(language),
        )
    &&& doc.total_seconds == total_duration(chosen)
}

/// `doc` is the export of `d` for `range` around `timestamp` and the optional
/// project, for the local dates of `timestamp` and of each task's end, which
/// depend on the time zone and lie within a day of the UTC dates.
pub open spec fn export_of(
    doc: ExportDocumentView,
    d: DataView,
    range: Range,
    project: Option<Seq<char>>,
    language: Language,
    timestamp: i64,
) -> bool {
    exists|current: LocalDate, ended: Seq<LocalDate>|
        #[trigger] export_on(doc, d, range, project, language, current, ended) && dates_near(
            timestamp,
            current,
            d.tasks,
            ended,
        )
}

pub proof fn lemma_selected_bounds(tasks: Seq<TaskView>, flags: Seq<bool>, project: Option<Seq<char>>)
    requires
        flags.len() == tasks.len(),
    ensures
        -magnitude(tasks) <= total_duration(selected(tasks, flags, project)) <= magnitude(tasks),
        selected(tasks, flags, project).len() <= tasks.len(),
        forall|k: int|
            0 <= k < selected(tasks, flags, project).len() ==> {
                let t = #[trigger] selected(tasks, flags, project)[k];
                -magnitude(tasks) <= duration(t) <= magnitude(tasks)
            },
    decreases tasks.len(),
{
    if tasks.len() > 0 {
        lemma_selected_bounds(tasks.drop_last(), flags.drop_last(), project);
        let rest = selected(tasks.drop_last(), flags.drop_last(), project);
        let s = selected(tasks, flags, project);
        if s.len() > rest.len() {
            assert(s.drop_last() =~= rest);
        }
        assert forall|k: int| 0 <= k < s.len() implies {
            let t = #[trigger] s[k];
            -magnitude(tasks) <= duration(t) <= magnitude(tasks)
        } by {
            if k < rest.len() {
                assert(s[k] == rest[k]);
            }
        }
    }
}

/// The chosen tasks weigh no more than all tasks.
pub proof fn lemma_selected_magnitude(tasks: Seq<TaskView>, flags: Seq<bool>, project: Option<Seq<char>>)
    requires
        flags.len() == tasks.len(),
    ensures
        0 <= magnitude(selected(tasks, flags, project)) <= magnitude(tasks),
    decreases tasks.len(),
{
    if tasks.len() > 0 {
        lemma_selected_magnitude(tasks.drop_last(), flags.drop_last(), project);
        let rest = selected(tasks.drop_last(), flags.drop_last(), project);
        let s = selected(tasks, flags, project);
        if s.len() > rest.len() {
            assert(s.drop_last() =~= rest);
        }
    }
}

/// A total is bounded by the summed absolute durations.
pub proof fn lemma_total_bounded(tasks: Seq<TaskView>)
    ensures
        -magnitude(tasks) <= total_duration(tasks) <= magnitude(tasks),
    decreases tasks.len(),
{
    if tasks.len() > 0 {
        lemma_total_bounded(tasks.drop_last());
    }
}

/// The local time of `timestamp` in RFC 3339 form, from chrono's
/// `Local.timestamp_opt(..).single()` and `to_rfc3339`. chrono gives a single
/// local time for every timestamp that `DateTime::from_timestamp` represents,
/// and `to_rfc3339` writes it as `YYYY-MM-DDTHH:MM:SS±HH:MM` for years 0 to
/// 9999 (no fraction, the nanoseconds being zero), with the local offset,
/// which is less than a day, rounded to the nearest minute. Which offset
/// applies depends on the machine's time zone and is not stated.
#[verifier::external_body]
fn rfc3339_at(timestamp: i64) -> (r: Option<String>)
    ensures
        stampable(timestamp as int) ==> r is Some,
        r matches Some(text) ==> (stampable(timestamp as int) ==> stamp_denotes(
            text@,
            timestamp as int,
        )),
{
    match Local.timestamp_opt(timestamp, 0).single() {
        Some(time) => Some(time.to_rfc3339()),
        None => None,
    }
}

/// The local time of `timestamp` in RFC 3339 form; a timestamp that chrono
/// cannot represent falls back to the current local time, and the Unix epoch
/// in UTC stands in when even that cannot be represented.
pub fn local_timestamp(timestamp: i64) -> (r: String)
    ensures
        stampable(timestamp as int) ==> stamp_denotes(r@, timestamp as int),
{
    match rfc3339_at(timestamp) {
        Some(text) => text,
        None => match rfc3339_at(now()) {
            Some(text) => text,
            None => String::from_str("1970-01-01T00:00:00+00:00"),
        },
    }
}

impl ExportDocument {
    /// Gathers the completed tasks whose end date lies in `range` around
    /// `current`, optionally narrowed to one project, with their durations and
    /// total; `ended[k]` is the local date on which task `k` ended, and
    /// `timestamp` the reference time that the document records.
    pub fn from_dates(
        data: &Data,
        range: Range,
        project_id: Option<&ProjectId>,
        timestamp: i64,
        current: LocalDate,
        ended: &Vec<LocalDate>,
        language: Language,
    ) -> (r: ExportDocument)
        requires
            magnitude(data@.tasks) <= i64::MAX - 30,
            ended@.len() == data@.tasks.len(),
        ensures
            export_on(
                r@,
                data@,
                range,
                match project_id {
                    Some(p) => Some(p@),
                    None => None,
                },
                language,
                current,
                ended@,
            ),
    {
        let ghost all_flags = period_flags(range, current, ended@);
        let ghost project = match project_id {
            Some(p) => Some(p@),
            None => None,
        };
        let ghost d = data@;
        let copy = ReportCopy::for_language(language);
        let all = data.tasks();
        let mut tasks: Vec<ExportTask> = Vec::new();
        let mut total: i64 = 0;
        let ghost mut flags: Seq<bool> = Seq::empty();
        let mut i: usize = 0;
        while i < all.len()
            invariant
                i <= all.len(),
                d == data@,
                crate::domain::data::tasks_view(all@) == d.tasks,
                magnitude(d.tasks) <= i64::MAX - 30,
                copy@ == copy_for(language),
                project == match project_id {
                    Some(p) => Some(p@),
                    None => None,
                },
                ended@.len() == d.tasks.len(),
                all_flags == period_flags(range, current, ended@),
                flags == all_flags.take(i as int),
                tasks@.len() == selected(d.tasks.take(i as int), flags, project).len(),
                forall|k: int|
                    0 <= k < tasks@.len() ==> row_matches(
                        #[trigger] tasks@[k]@,
                        selected(d.tasks.take(i as int), flags, project)[k],
                        d,
                        copy_for(language),
                    ),
                total == total_duration(selected(d.tasks.take(i as int), flags, project)),
            decreases all.len() - i,
        {
            let task = &all[i];
            assert(task@ == d.tasks[i as int]);
            let ghost prefix = d.tasks.take(i as int);
            let ghost next = d.tasks.take(i + 1);
            assert(next.drop_last() =~= prefix);
            let within = in_period(range, current, ended[i]);
            let belongs = match project_id {
                Some(id) => task.project_id().same(id),
                None => true,
            };
            let ghost old_flags = flags;
            proof {
                flags = flags.push(within);
                assert(flags.drop_last() =~= old_flags);
                assert(flags =~= all_flags.take(i + 1));
                lemma_selected_bounds(next, flags, project);
                lemma_selected_bounds(prefix, old_flags, project);
                lemma_magnitude_prefix(d.tasks, i as int + 1);
                assert(next.last() == d.tasks[i as int]);
                assert(belongs == in_scope(next.last(), project));
            }
            let ghost chosen_before = selected(prefix, old_flags, project);
            let ghost chosen_after = selected(next, flags, project);
            if within && belongs {
                assert(chosen_after == chosen_before.push(d.tasks[i as int]));
                assert(chosen_after.drop_last() =~= chosen_before);
                assert(total_duration(chosen_after) == total + duration(d.tasks[i as int]));
                let duration_seconds = task.ended() - task.started();
                let row = ExportTask {
                    task_id: String::from_str(task.id().as_str()),
                    project_id: String::from_str(task.project_id().as_str()),
                    project: data.project_name(task.project_id()),
                    started_at: local_timestamp(task.started()),
                    ended_at: local_timestamp(task.ended()),
                    duration_seconds,
                    duration: copy.duration(duration_seconds),
                    note: String::from_str(task.note()),
                };
                tasks.push(row);
                total = total + duration_seconds;
                assert forall|k: int| 0 <= k < tasks@.len() implies row_matches(
                    #[trigger] tasks@[k]@,
                    chosen_after[k],
                    d,
                    copy_for(language),
                ) by {
                    if k < tasks@.len() - 1 {
                        assert(chosen_after[k] == chosen_before[k]);
                    }
                }
            } else {
                assert(chosen_after == chosen_before);
            }
            i = i + 1;
        }
        assert(d.tasks.take(i as int) =~= d.tasks);
        assert(all_flags.take(i as int) =~= all_flags);
        let scope = match project_id {
            Some(id) => ExportScope::Project {
                project_id: String::from_str(id.as_str()),
                project: data.project_name(id),
            },
            None => ExportScope::AllProjects,
        };
        let r = ExportDocument {
            generated_at: local_timestamp(timestamp),
            range,
            scope,
            total_seconds: total,
            tasks,
            copy,
        };
        r
    }

    /// Gathers the completed tasks in `range` around `timestamp`, optionally
    /// narrowed to one project, with their durations and total: the document
    /// that `from_dates` builds for the local dates of `timestamp` and of each
    /// task's end.
    pub fn new(
        data: &Data,
        range: Range,
        project_id: Option<&ProjectId>,
        timestamp: i64,
        language: Language,
    ) -> (r: ExportDocument)
        requires
            magnitude(data@.tasks) <= i64::MAX - 30,
        ensures
            export_of(
                r@,
                data@,
                range,
                match project_id {
                    Some(p) => Some(p@),
                    None => None,
                },
                language,
                timestamp,
            ),
    {
        let current = local_date(timestamp);
        let all = data.tasks();
        let ended = end_dates(all);
        proof {
            lemma_end_dates_near(data@.tasks, all@, ended@);
        }
        let r = ExportDocument::from_dates(data, range, project_id, timestamp, current, &ended, language);
        assert(export_on(
            r@,
            data@,
            range,
            match project_id {
                Some(p) => Some(p@),
                None => None,
            },
            language,
            current,
            ended@,
        ));
        r
    }
}

pub proof fn lemma_magnitude_prefix(tasks: Seq<TaskView>, n: int)
    requires
        0 <= n <= tasks.len(),
    ensures
        0 <= magnitude(tasks.take(n)) <= magnitude(tasks),
    decreases tasks.len() - n,
{
    lemma_magnitude_nonneg(tasks.take(n));
    if n < tasks.len() {
        lemma_magnitude_prefix(tasks, n + 1);
        assert(tasks.take(n + 1).drop_last() =~= tasks.take(n));
    } else {
        assert(tasks.take(n) =~= tasks);
        lemma_magnitude_nonneg(tasks);
    }
}

pub proof fn lemma_magnitude_nonneg(tasks: Seq<TaskView>)
    ensures
        magnitude(tasks) >= 0,
    decreases tasks.len(),
{
    if tasks.len() > 0 {
        lemma_magnitude_nonneg(tasks.drop_last());
    }
}


/// The report heading: the range, preceded by the project for a one-project export.
pub open spec fn report_title(doc: ExportDocumentView) -> Seq<char> {
    match doc.scope {
        ExportScopeView::AllProjects => range_title(doc.copy, doc.range),
        ExportScopeView::Project { project, .. } => project + " — "@ + range_title(
            doc.copy,
            doc.range,
        ),
    }
}

/// One Markdown list entry: project, duration, seconds, end time and the
/// trimmed note when it is not blank.
pub open spec fn task_line(t: ExportTaskView) -> Seq<char> {
    let head = "\n- **"@ + t.project + "** — "@ + t.duration + " ("@ + signed_decimal(
        t.duration_seconds,
    ) + " s) ("@ + t.ended_at + ")"@;
    let note = if trimmed(t.note).len() > 0 {
        ": "@ + trimmed(t.note)
    } else {
        Seq::empty()
    };
    head + note + "\n"@
}

/// The Markdown entries of the first tasks, in order.
pub open spec fn task_lines(tasks: Seq<ExportTaskView>) -> Seq<char>
    decreases tasks.len(),
{
    if tasks.len() == 0 {
        Seq::empty()
    } else {
        task_lines(tasks.drop_last()) + task_line(tasks.last())
    }
}

/// The Markdown report: heading, total, a note when nothing was completed, and
/// one entry per task.
pub open spec fn markdown_text(doc: ExportDocumentView) -> Seq<char> {
    let header = "# Tempo — "@ + report_title(doc) + "\n\n**"@ + doc.copy.total_label + ":** "@
        + duration_text(doc.copy, doc.total_seconds) + " ("@ + signed_decimal(doc.total_seconds)
        + " s)\n"@;
    let empty_note = if doc.tasks.len() == 0 {
        "\n"@ + doc.copy.no_completed_tasks + "\n"@
    } else {
        Seq::empty()
    };
    header + empty_note + task_lines(doc.tasks)
}

fn push_task_line(report: &mut String, task: &ExportTask)
    ensures
        final(report)@ == old(report)@ + task_line(task@),
{
    report.append("\n- **");
    report.append(task.project.as_str());
    report.append("** — ");
    report.append(task.duration.as_str());
    report.append(" (");
    push_signed(report, task.duration_seconds);
    report.append(" s) (");
    report.append(task.ended_at.as_str());
    report.append(")");
    let note = trim_str(task.note.as_str());
    if note.unicode_len() > 0 {
        report.append(": ");
        report.append(note);
    }
    report.append("\n");
    assert(report@ =~= old(report)@ + task_line(task@));
}

impl ExportDocument {
    /// Renders the document as a Markdown report.
    pub fn markdown(&self) -> (r: String)
        requires
            self.total_seconds <= i64::MAX - 30,
        ensures
            r@ == markdown_text(self@),
    {
        let mut report = String::from_str("# Tempo — ");
        match &self.scope {
            ExportScope::AllProjects => {
                report.append(self.copy.range_name(self.range));
            },
            ExportScope::Project { project, .. } => {
                report.append(project.as_str());
                report.append(" — ");
                report.append(self.copy.range_name(self.range));
            },
        }
        report.append("\n\n**");
        report.append(self.copy.total_label);
        report.append(":** ");
        report.append(self.copy.duration(self.total_seconds).as_str());
        report.append(" (");
        push_signed(&mut report, self.total_seconds);
        report.append(" s)\n");
        let ghost header = report@;
        if self.tasks.len() == 0 {
            report.append("\n");
            report.append(self.copy.no_completed_tasks);
            report.append("\n");
        }
        let ghost before_tasks = report@;
        let ghost rows = self@.tasks;
        let mut i: usize = 0;
        while i < self.tasks.len()
            invariant
                i <= self.tasks.len(),
                rows == self@.tasks,
                rows.len() == self.tasks.len(),
                report@ == before_tasks + task_lines(rows.take(i as int)),
            decreases self.tasks.len() - i,
        {
            let task = &self.tasks[i];
            assert(task@ == rows[i as int]);
            let ghost start = report@;
            push_task_line(&mut report, task);
            assert(report@ =~= start + task_line(rows[i as int]));
            assert(rows.take(i + 1).drop_last() =~= rows.take(i as int));
            assert(report@ =~= before_tasks + task_lines(rows.take(i + 1)));
            i = i + 1;
        }
        assert(rows.take(i as int) =~= rows);
        assert(report@ =~= markdown_text(self@));
        report
    }
}


/// The Markdown report of every completed task in `range` around `timestamp`.
pub fn markdown(data: &Data, range: Range, timestamp: i64, language: Language) -> (r: String)
    requires
        magnitude(data@.tasks) <= i64::MAX - 30,
    ensures
        exists|doc: ExportDocumentView|
            export_of(doc, data@, range, None, language, timestamp) && r@ == markdown_text(doc),
{
    let document = ExportDocument::new(data, range, None, timestamp, language);
    proof {
        let flags = choose|flags: Seq<bool>|
            #![trigger selected(data@.tasks, flags, None)]
            {
                let chosen = selected(data@.tasks, flags, None);
                &&& flags.len() == data@.tasks.len()
                &&& document@.total_seconds == total_duration(chosen)
            };
        lemma_selected_bounds(data@.tasks, flags, None);
    }
    document.markdown()
}

/// Each exported row carries stamps naming when its task started and when it
/// ended, so a task that lasted more than a minute shows two different stamps.
pub proof fn law_export_rows_stamp_start_and_end(
    doc: ExportDocumentView,
    d: DataView,
    range: Range,
    project: Option<Seq<char>>,
    language: Language,
    current: LocalDate,
    ended: Seq<LocalDate>,
    k: int,
)
    requires
        export_on(doc, d, range, project, language, current, ended),
        0 <= k < doc.tasks.len(),
    ensures
        ({
            let t = selected(d.tasks, period_flags(range, current, ended), project)[k];
            &&& stampable(t.started as int) ==> stamp_denotes(doc.tasks[k].started_at, t.started as int)
            &&& stampable(t.ended as int) ==> stamp_denotes(doc.tasks[k].ended_at, t.ended as int)
            &&& stampable(t.started as int) && stampable(t.ended as int) && duration(t) > 60
                ==> doc.tasks[k].started_at != doc.tasks[k].ended_at
        }),
{
    let t = selected(d.tasks, period_flags(range, current, ended), project)[k];
    let row = doc.tasks[k];
    assert(row_matches(row, t, d, copy_for(language)));
    if stampable(t.started as int) && stampable(t.ended as int) && duration(t) > 60
        && row.started_at == row.ended_at {
        let f = choose|f: StampFields|
            stamp_fields_valid(f) && #[trigger] stamp_text(f) == row.started_at && -30
                <= stamp_moment(f) - t.started <= 30;
        let g = choose|g: StampFields|
            stamp_fields_valid(g) && #[trigger] stamp_text(g) == row.ended_at && -30
                <= stamp_moment(g) - t.ended <= 30;
        lemma_stamp_text_injective(f, g);
        assert(false);
    }
}

/// The Markdown entries of a row list split around the entry of row `k`.
proof fn lemma_task_lines_split(rows: Seq<ExportTaskView>, k: int)
    requires
        0 <= k < rows.len(),
    ensures
        exists|rest: Seq<char>|
            task_lines(rows) == task_lines(rows.take(k)) + task_line(rows[k]) + rest,
    decreases rows.len(),
{
    let prev = rows.drop_last();
    if k == rows.len() - 1 {
        assert(prev =~= rows.take(k));
        assert(task_lines(rows) == task_lines(rows.take(k)) + task_line(rows[k]) + Seq::<char>::empty());
    } else {
        lemma_task_lines_split(prev, k);
        let rest = choose|rest: Seq<char>|
            task_lines(prev) == task_lines(prev.take(k)) + task_line(prev[k]) + rest;
        assert(prev.take(k) =~= rows.take(k));
        assert(prev[k] == rows[k]);
        assert(task_lines(rows) =~= task_lines(rows.take(k)) + task_line(rows[k]) + (rest
            + task_line(rows.last())));
    }
}

/// The Markdown report holds an entry for each exported task, and that
/// entry shows a stamp naming when the task ended.
pub proof fn law_markdown_entry_shows_task_end(
    doc: ExportDocumentView,
    d: DataView,
    range: Range,
    project: Option<Seq<char>>,
    language: Language,
    current: LocalDate,
    ended: Seq<LocalDate>,
    k: int,
)
    requires
        export_on(doc, d, range, project, language, current, ended),
        0 <= k < doc.tasks.len(),
    ensures
        exists|before: Seq<char>, after: Seq<char>|
            markdown_text(doc) == before + task_line(doc.tasks[k]) + after,
        stampable(selected(d.tasks, period_flags(range, current, ended), project)[k].ended as int)
            ==> exists|before: Seq<char>, stamp: Seq<char>, after: Seq<char>|
            stamp_denotes(
                stamp,
                selected(d.tasks, period_flags(range, current, ended), project)[k].ended as int,
            ) && task_line(doc.tasks[k]) == before + stamp + after,
{
    let t = selected(d.tasks, period_flags(range, current, ended), project)[k];
    let row = doc.tasks[k];
    assert(row_matches(row, t, d, copy_for(language)));
    lemma_task_lines_split(doc.tasks, k);
    let rest = choose|rest: Seq<char>|
        task_lines(doc.tasks) == task_lines(doc.tasks.take(k)) + task_line(doc.tasks[k]) + rest;
    let header = "# Tempo — "@ + report_title(doc) + "\n\n**"@ + doc.copy.total_label + ":** "@
        + duration_text(doc.copy, doc.total_seconds) + " ("@ + signed_decimal(doc.total_seconds)
        + " s)\n"@;
    let empty_note = if doc.tasks.len() == 0 {
        "\n"@ + doc.copy.no_completed_tasks + "\n"@
    } else {
        Seq::empty()
    };
    assert(markdown_text(doc) =~= (header + empty_note + task_lines(doc.tasks.take(k))) + task_line(
        doc.tasks[k],
    ) + rest);
    if stampable(t.ended as int) {
        let before = "\n- **"@ + row.project + "** — "@ + row.duration + " ("@ + signed_decimal(
            row.duration_seconds,
        ) + " s) ("@;
        let note = if trimmed(row.note).len() > 0 {
            ": "@ + trimmed(row.note)
        } else {
            Seq::empty()
        };
        let after = ")"@ + note + "\n"@;
        assert(task_line(row) =~= before + row.ended_at + after);
    }
}

} // verus!
