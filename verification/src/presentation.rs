//! Projections from tracker state into view models.
//!
//! This module owns display formatting, range grouping, and filtering. It
//! reads [`Tracker`] state but does not mutate domain state or persist data.

use crate::application::Tracker;
use crate::domain::data::{Data, DataView, project_name_of};
use crate::domain::project::ProjectView;
use crate::domain::range::{
    LocalDate, Range, date_fields_valid, dates_near, end_dates, in_period, lemma_end_dates_near,
    local_date, period_flags,
};
use crate::domain::task::{ActiveView, Task, TaskView, duration, elapsed, elapsed_fits};
use crate::language::Language;
use crate::report::{lemma_magnitude_prefix, magnitude, selected, total_duration};
use crate::text::{decimal, push_decimal, push_signed, push_two_digits, signed_decimal, two_digits};
use vstd::prelude::*;

verus! {

// ----- numbers and labels -----
/// A number of seconds limited to what a 32-bit view model field holds; negative values become zero.
pub open spec fn clamped_seconds(seconds: int) -> int {
    if seconds < 0 {
        0
    } else if seconds > i32::MAX {
        i32::MAX as int
    } else {
        seconds
    }
}

pub fn slint_seconds(seconds: i64) -> (r: i32)
    ensures
        r == clamped_seconds(seconds as int),
{
    if seconds < 0 {
        0
    } else if seconds > i32::MAX as i64 {
        i32::MAX
    } else {
        seconds as i32
    }
}

/// Elapsed time as `MM:SS`, each part at least two digits; negative time shows as `00:00`.
pub open spec fn elapsed_text(seconds: int) -> Seq<char> {
    let s = if seconds < 0 { 0nat } else { seconds as nat };
    two_digits(s / 60) + ":"@ + two_digits(s % 60)
}

pub fn format_elapsed(seconds: i64) -> (r: String)
    ensures
        r@ == elapsed_text(seconds as int),
{
    let s: u64 = if seconds < 0 { 0 } else { seconds as u64 };
    let mut out = String::new();
    push_two_digits(&mut out, s / 60);
    out.append(":");
    push_two_digits(&mut out, s % 60);
    assert(out@ =~= elapsed_text(seconds as int));
    out
}

/// Rust's integer division, which rounds toward zero.
pub open spec fn div_toward_zero(a: int, b: int) -> int {
    if a >= 0 {
        a / b
    } else {
        -((-a) / b)
    }
}

/// A length of time as "`m` min", or "`h` h `m` min" from one hour on.
pub open spec fn duration_label(seconds: int) -> Seq<char> {
    let minutes = div_toward_zero(seconds, 60);
    if minutes < 60 {
        signed_decimal(minutes) + " min"@
    } else {
        decimal((minutes / 60) as nat) + " h "@ + decimal((minutes % 60) as nat) + " min"@
    }
}

pub fn format_duration(seconds: i64) -> (r: String)
    ensures
        r@ == duration_label(seconds as int),
{
    let minutes: i64 = if seconds >= 0 {
        seconds / 60
    } else {
        let magnitude: i64 = if seconds == i64::MIN {
            153722867280912930i64
        } else {
            (-seconds) / 60
        };
        -magnitude
    };
    let mut out = String::new();
    if minutes < 60 {
        push_signed(&mut out, minutes);
        out.append(" min");
    } else {
        push_decimal(&mut out, (minutes / 60) as u64);
        out.append(" h ");
        push_decimal(&mut out, (minutes % 60) as u64);
        out.append(" min");
    }
    assert(out@ =~= duration_label(seconds as int));
    out
}

/// Short weekday names, Monday first.
pub open spec fn weekday_name(language: Language, weekday: u32) -> Seq<char> {
    match language {
        Language::English => if weekday == 0 {
            "Mon"@
        } else if weekday == 1 {
            "Tue"@
        } else if weekday == 2 {
            "Wed"@
        } else if weekday == 3 {
            "Thu"@
        } else if weekday == 4 {
            "Fri"@
        } else if weekday == 5 {
            "Sat"@
        } else {
            "Sun"@
        },
        Language::German => if weekday == 0 {
            "Mo."@
        } else if weekday == 1 {
            "Di."@
        } else if weekday == 2 {
            "Mi."@
        } else if weekday == 3 {
            "Do."@
        } else if weekday == 4 {
            "Fr."@
        } else if weekday == 5 {
            "Sa."@
        } else {
            "So."@
        },
    }
}

pub fn localized_weekday(weekday: u32, language: Language) -> (r: &'static str)
    requires
        weekday < 7,
    ensures
        r@ == weekday_name(language, weekday),
{
    match language {
        Language::English => match weekday {
            0 => "Mon",
            1 => "Tue",
            2 => "Wed",
            3 => "Thu",
            4 => "Fri",
            5 => "Sat",
            _ => "Sun",
        },
        Language::German => match weekday {
            0 => "Mo.",
            1 => "Di.",
            2 => "Mi.",
            3 => "Do.",
            4 => "Fr.",
            5 => "Sa.",
            _ => "So.",
        },
    }
}

/// Short month names, January first.
pub open spec fn month_name(language: Language, month: u32) -> Seq<char> {
    match language {
        Language::English => if month == 1 {
            "Jan"@
        } else if month == 2 {
            "Feb"@
        } else if month == 3 {
            "Mar"@
        } else if month == 4 {
            "Apr"@
        } else if month == 5 {
            "May"@
        } else if month == 6 {
            "Jun"@
        } else if month == 7 {
            "Jul"@
        } else if month == 8 {
            "Aug"@
        } else if month == 9 {
            "Sep"@
        } else if month == 10 {
            "Oct"@
        } else if month == 11 {
            "Nov"@
        } else {
            "Dec"@
        },
        Language::German => if month == 1 {
            "Jan."@
        } else if month == 2 {
            "Feb."@
        } else if month == 3 {
            "März"@
        } else if month == 4 {
            "Apr."@
        } else if month == 5 {
            "Mai"@
        } else if month == 6 {
            "Juni"@
        } else if month == 7 {
            "Juli"@
        } else if month == 8 {
            "Aug."@
        } else if month == 9 {
            "Sept."@
        } else if month == 10 {
            "Okt."@
        } else if month == 11 {
            "Nov."@
        } else {
            "Dez."@
        },
    }
}

pub fn localized_month(month: u32, language: Language) -> (r: &'static str)
    requires
        1 <= month <= 12,
    ensures
        r@ == month_name(language, month),
{
    match language {
        Language::English => match month {
            1 => "Jan",
            2 => "Feb",
            3 => "Mar",
            4 => "Apr",
            5 => "May",
            6 => "Jun",
            7 => "Jul",
            8 => "Aug",
            9 => "Sep",
            10 => "Oct",
            11 => "Nov",
            _ => "Dec",
        },
        Language::German => match month {
            1 => "Jan.",
            2 => "Feb.",
            3 => "März",
            4 => "Apr.",
            5 => "Mai",
            6 => "Juni",
            7 => "Juli",
            8 => "Aug.",
            9 => "Sept.",
            10 => "Okt.",
            11 => "Nov.",
            _ => "Dez.",
        },
    }
}

/// What `str::to_uppercase` returns for a text: Unicode upper-case mapping.
pub uninterp spec fn uppercase(s: Seq<char>) -> Seq<char>;

/// `str::to_uppercase`: the Unicode upper-case form of the text, named by `uppercase`.
#[verifier::external_body]
fn to_uppercase(s: &str) -> (r: String)
    ensures
        r@ == uppercase(s@),
{
    s.to_uppercase()
}

/// A completion date such as "THU, 1 JAN" or "DO., 1. JAN.", before upper-casing.
pub open spec fn completion_text(date: LocalDate, language: Language) -> Seq<char> {
    match language {
        Language::English => weekday_name(language, date.weekday) + ", "@ + decimal(
            date.day as nat,
        ) + " "@ + month_name(language, date.month),
        Language::German => weekday_name(language, date.weekday) + ", "@ + decimal(
            date.day as nat,
        ) + ". "@ + month_name(language, date.month),
    }
}

/// The upper-cased, localized completion date of a calendar date.
pub fn completion_label(date: LocalDate, language: Language) -> (r: String)
    requires
        date_fields_valid(date),
    ensures
        r@ == uppercase(completion_text(date, language)),
{
    let mut text = String::from_str(localized_weekday(date.weekday, language));
    text.append(", ");
    push_decimal(&mut text, date.day as u64);
    match language {
        Language::English => text.append(" "),
        Language::German => text.append(". "),
    }
    text.append(localized_month(date.month, language));
    assert(text@ =~= completion_text(date, language));
    to_uppercase(text.as_str())
}

/// The localized completion date of a task in the local time zone.
pub fn localized_completion_date(task: &Task, language: Language) -> (r: String)
    ensures
        exists|date: LocalDate|
            date_fields_valid(date) && r@ == uppercase(completion_text(date, language)),
{
    completion_label(local_date(task.ended()), language)
}

/// A short timestamp such as "Jan 1, 09:05": month, day and 24-hour time.
pub open spec fn short_label_text(date: LocalDate) -> Seq<char> {
    month_name(Language::English, date.month) + " "@ + decimal(date.day as nat) + ", "@
        + two_digits(date.hour as nat) + ":"@ + two_digits(date.minute as nat)
}

pub fn short_label(date: LocalDate) -> (r: String)
    requires
        date_fields_valid(date),
    ensures
        r@ == short_label_text(date),
{
    let mut text = String::from_str(localized_month(date.month, Language::English));
    text.append(" ");
    push_decimal(&mut text, date.day as u64);
    text.append(", ");
    push_two_digits(&mut text, date.hour as u64);
    text.append(":");
    push_two_digits(&mut text, date.minute as u64);
    assert(text@ =~= short_label_text(date));
    text
}


// ----- view models -----
/// A project as listed for selection or settings.
#[derive(Debug)]
pub struct ProjectItem {
    pub id: String,
    pub name: String,
    pub completed: bool,
    pub archived: bool,
}

pub struct ProjectItemView {
    pub id: Seq<char>,
    pub name: Seq<char>,
    pub completed: bool,
    pub archived: bool,
}

impl View for ProjectItem {
    type V = ProjectItemView;

    open spec fn view(&self) -> ProjectItemView {
        ProjectItemView {
            id: self.id@,
            name: self.name@,
            completed: self.completed,
            archived: self.archived,
        }
    }
}

/// The settings entry of a project: its identifier, name and archive state.
pub open spec fn settings_item(p: ProjectView) -> ProjectItemView {
    ProjectItemView { id: p.id, name: p.name, completed: false, archived: p.archived }
}

/// The projects offered for tracking: the active ones, in order.
pub open spec fn home_projects(ps: Seq<ProjectView>) -> Seq<ProjectItemView>
    decreases ps.len(),
{
    if ps.len() == 0 {
        Seq::empty()
    } else {
        let rest = home_projects(ps.drop_last());
        if ps.last().archived {
            rest
        } else {
            rest.push(settings_item(ps.last()))
        }
    }
}

/// The most recent task as shown on the home page.
#[derive(Debug)]
pub struct TaskItem {
    pub project: String,
    pub note: String,
    pub duration_seconds: i32,
    pub timestamp: String,
}

/// The home page: projects to track and the last completed task.
#[derive(Debug)]
pub struct HomeState {
    pub projects: Vec<ProjectItem>,
    pub last_task: TaskItem,
    pub has_last_task: bool,
}

/// The running task as displayed.
#[derive(Debug)]
pub struct TrackingState {
    pub active_task: String,
    pub elapsed: String,
    pub paused: bool,
}

/// What the home page says of a completed task, apart from its local-time stamp.
pub open spec fn task_item_matches(item: TaskItem, t: TaskView, d: DataView) -> bool {
    &&& item.project@ == project_name_of(d, t.project_id)
    &&& item.note@ == t.note
    &&& item.duration_seconds == clamped_seconds(duration(t))
    &&& exists|date: LocalDate| date_fields_valid(date) && item.timestamp@ == short_label_text(date)
}

pub fn task_item(data: &Data, task: &Task) -> (r: TaskItem)
    requires
        i64::MIN <= duration(task@) <= i64::MAX,
    ensures
        task_item_matches(r, task@, data@),
{
    TaskItem {
        project: data.project_name(task.project_id()),
        note: String::from_str(task.note()),
        duration_seconds: slint_seconds(task.ended() - task.started()),
        timestamp: short_label(local_date(task.ended())),
    }
}

pub(crate) fn project_item(project: &crate::domain::project::Project) -> (r: ProjectItem)
    ensures
        r@ == settings_item(project@),
{
    ProjectItem {
        id: String::from_str(project.id().as_str()),
        name: String::from_str(project.name()),
        completed: false,
        archived: project.archived(),
    }
}

/// Builds the Settings project list, including archived projects and their state.
pub fn project_settings(tracker: &Tracker) -> (r: Vec<ProjectItem>)
    ensures
        r@.map_values(|x: ProjectItem| x@) == tracker@.data.projects.map_values(
            |p: ProjectView| settings_item(p),
        ),
{
    let projects = tracker.data().projects();
    let ghost ps = tracker@.data.projects;
    let mut items: Vec<ProjectItem> = Vec::new();
    let mut i: usize = 0;
    while i < projects.len()
        invariant
            i <= projects.len(),
            crate::domain::data::projects_view(projects@) == ps,
            ps == tracker@.data.projects,
            items@.len() == i,
            items@.map_values(|x: ProjectItem| x@) == ps.take(i as int).map_values(
                |p: ProjectView| settings_item(p),
            ),
        decreases projects.len() - i,
    {
        assert(projects[i as int]@ == ps[i as int]);
        let ghost before = items@;
        items.push(project_item(&projects[i]));
        assert(items@ == before.push(items@[i as int]));
        assert(ps.take(i + 1)[i as int] == ps[i as int]);
        let ghost lhs = items@.map_values(|x: ProjectItem| x@);
        let ghost rhs = ps.take(i + 1).map_values(|p: ProjectView| settings_item(p));
        let ghost prev = before.map_values(|x: ProjectItem| x@);
        assert forall|k: int| 0 <= k < lhs.len() implies lhs[k] == rhs[k] by {
            if k < i {
                assert(lhs[k] == prev[k]);
                assert(ps.take(i + 1)[k] == ps.take(i as int)[k]);
            }
        }
        assert(lhs =~= rhs);
        i = i + 1;
    }
    assert(ps.take(i as int) =~= ps);
    items
}

/// Builds the Home-page snapshot, omitting archived projects.
/// The home page for `d`: the unarchived projects, and the latest completed
/// task, or an empty item when there is none.
pub open spec fn home_matches(r: HomeState, d: DataView) -> bool {
    &&& r.projects@.map_values(|x: ProjectItem| x@) == home_projects(d.projects)
    &&& r.has_last_task == (d.tasks.len() > 0)
    &&& d.tasks.len() > 0 ==> task_item_matches(r.last_task, d.tasks.last(), d)
    &&& d.tasks.len() == 0 ==> r.last_task.project@ == Seq::<char>::empty()
        && r.last_task.note@ == Seq::<char>::empty() && r.last_task.duration_seconds == 0
        && r.last_task.timestamp@ == Seq::<char>::empty()
}

pub fn home(tracker: &Tracker) -> (r: HomeState)
    requires
        tracker@.data.tasks.len() > 0 ==> i64::MIN <= duration(tracker@.data.tasks.last())
            <= i64::MAX,
    ensures
        home_matches(r, tracker@.data),
{
    let data = tracker.data();
    let projects = data.projects();
    let ghost ps = data@.projects;
    let mut items: Vec<ProjectItem> = Vec::new();
    let mut i: usize = 0;
    while i < projects.len()
        invariant
            i <= projects.len(),
            crate::domain::data::projects_view(projects@) == ps,
            items@.map_values(|x: ProjectItem| x@) == home_projects(ps.take(i as int)),
        decreases projects.len() - i,
    {
        assert(projects[i as int]@ == ps[i as int]);
        assert(ps.take(i + 1).drop_last() =~= ps.take(i as int));
        if !projects[i].archived() {
            items.push(project_item(&projects[i]));
        }
        assert(items@.map_values(|x: ProjectItem| x@) =~= home_projects(ps.take(i + 1)));
        i = i + 1;
    }
    assert(ps.take(i as int) =~= ps);
    let tasks = data.tasks();
    let last_task = if tasks.len() > 0 {
        assert(tasks[tasks.len() - 1]@ == data@.tasks.last());
        task_item(data, &tasks[tasks.len() - 1])
    } else {
        TaskItem {
            project: String::new(),
            note: String::new(),
            duration_seconds: 0,
            timestamp: String::new(),
        }
    };
    HomeState { projects: items, last_task, has_last_task: data.has_tasks() }
}

/// The running task's project name in capitals, its elapsed time and whether
/// it is paused; "00:00" and nothing else when no task runs.
/// The running task's view at `timestamp`: its project's name in capitals,
/// its elapsed time and whether it is paused; blank when nothing runs.
pub open spec fn tracking_matches(r: TrackingState, d: DataView, timestamp: i64) -> bool {
    match d.active {
        Some(a) => {
            &&& r.active_task@ == uppercase(project_name_of(d, a.project_id))
            &&& r.elapsed@ == elapsed_text(elapsed(a, timestamp as int))
            &&& r.paused == a.paused
        },
        None => {
            &&& r.active_task@ == Seq::<char>::empty()
            &&& r.elapsed@ == "00:00"@
            &&& !r.paused
        },
    }
}

pub fn tracking(tracker: &Tracker, timestamp: i64) -> (r: TrackingState)
    requires
        tracker@.data.active matches Some(a) ==> elapsed_fits(a, timestamp),
    ensures
        tracking_matches(r, tracker@.data, timestamp),
{
    match tracker.data().active_task() {
        Some(active) => {
            let name = tracker.data().project_name(active.project_id());
            TrackingState {
                active_task: to_uppercase(name.as_str()),
                elapsed: format_elapsed(active.elapsed_until(timestamp)),
                paused: active.paused(),
            }
        },
        None => TrackingState {
            active_task: String::new(),
            elapsed: String::from_str("00:00"),
            paused: false,
        },
    }
}


// ----- per-project totals -----
/// A project's share of some tasks: its identifier, summed duration and number of tasks.
pub struct TotalView {
    pub id: Seq<char>,
    pub total: int,
    pub count: int,
}

pub open spec fn is_first_group(g: Seq<TotalView>, id: Seq<char>, k: int) -> bool {
    &&& 0 <= k < g.len()
    &&& g[k].id == id
    &&& forall|j: int| 0 <= j < k ==> g[j].id != id
}

/// The position of the group for `id`, if there is one.
pub open spec fn group_index(g: Seq<TotalView>, id: Seq<char>) -> Option<int> {
    if exists|k: int| is_first_group(g, id, k) {
        Some(choose|k: int| is_first_group(g, id, k))
    } else {
        None
    }
}

/// Tasks grouped by project in order of each project's first task, with the
/// summed duration and the number of tasks of each project.
pub open spec fn group_totals(ts: Seq<TaskView>) -> Seq<TotalView>
    decreases ts.len(),
{
    if ts.len() == 0 {
        Seq::empty()
    } else {
        let g = group_totals(ts.drop_last());
        let t = ts.last();
        match group_index(g, t.project_id) {
            Some(k) => g.update(
                k,
                TotalView { id: g[k].id, total: g[k].total + duration(t), count: g[k].count + 1 },
            ),
            None => g.push(TotalView { id: t.project_id, total: duration(t), count: 1 }),
        }
    }
}

proof fn lemma_group_index(g: Seq<TotalView>, id: Seq<char>)
    ensures
        group_index(g, id) matches Some(k) ==> is_first_group(g, id, k),
        group_index(g, id) is None ==> forall|j: int| 0 <= j < g.len() ==> g[j].id != id,
        forall|k: int| is_first_group(g, id, k) ==> group_index(g, id) == Some(k),
{
    if exists|k: int| is_first_group(g, id, k) {
        let m = choose|k: int| is_first_group(g, id, k);
        assert forall|k: int| is_first_group(g, id, k) implies k == m by {
            if k < m {
                assert(g[k].id != id);
            } else if m < k {
                assert(g[m].id != id);
            }
        }
    } else {
        assert forall|j: int| 0 <= j < g.len() implies g[j].id != id by {
            if g[j].id == id {
                lemma_first_group_exists(g, id, j);
            }
        }
    }
}

proof fn lemma_first_group_exists(g: Seq<TotalView>, id: Seq<char>, j: int)
    requires
        0 <= j < g.len(),
        g[j].id == id,
    ensures
        exists|k: int| is_first_group(g, id, k),
    decreases j,
{
    if exists|k: int| 0 <= k < j && g[k].id == id {
        let k = choose|k: int| 0 <= k < j && g[k].id == id;
        lemma_first_group_exists(g, id, k);
    } else {
        assert(is_first_group(g, id, j));
    }
}

/// The summed totals of groups.
pub open spec fn sum_totals(g: Seq<TotalView>) -> int
    decreases g.len(),
{
    if g.len() == 0 {
        0
    } else {
        sum_totals(g.drop_last()) + g.last().total
    }
}

/// The summed task counts of groups.
pub open spec fn sum_counts(g: Seq<TotalView>) -> int
    decreases g.len(),
{
    if g.len() == 0 {
        0
    } else {
        sum_counts(g.drop_last()) + g.last().count
    }
}

proof fn lemma_sums_update(g: Seq<TotalView>, k: int, v: TotalView)
    requires
        0 <= k < g.len(),
    ensures
        sum_totals(g.update(k, v)) == sum_totals(g) - g[k].total + v.total,
        sum_counts(g.update(k, v)) == sum_counts(g) - g[k].count + v.count,
    decreases g.len(),
{
    let u = g.update(k, v);
    if k < g.len() - 1 {
        assert(u.drop_last() =~= g.drop_last().update(k, v));
        lemma_sums_update(g.drop_last(), k, v);
    } else {
        assert(u.drop_last() =~= g.drop_last());
    }
}

/// Grouping by project loses and invents nothing: the project totals add up
/// to the overall total, the task counts add up to the number of tasks, and
/// each project appears once.
pub proof fn law_project_totals_add_up(ts: Seq<TaskView>)
    ensures
        sum_totals(group_totals(ts)) == total_duration(ts),
        sum_counts(group_totals(ts)) == ts.len(),
        forall|i: int, j: int|
            0 <= i < j < group_totals(ts).len() ==> #[trigger] group_totals(ts)[i].id
                != #[trigger] group_totals(ts)[j].id,
    decreases ts.len(),
{
    if ts.len() > 0 {
        let g = group_totals(ts.drop_last());
        let t = ts.last();
        law_project_totals_add_up(ts.drop_last());
        lemma_group_index(g, t.project_id);
        let out = group_totals(ts);
        match group_index(g, t.project_id) {
            Some(k) => {
                lemma_sums_update(
                    g,
                    k,
                    TotalView { id: g[k].id, total: g[k].total + duration(t), count: g[k].count + 1 },
                );
                assert forall|i: int, j: int| 0 <= i < j < out.len() implies #[trigger] out[i].id
                    != #[trigger] out[j].id by {
                    assert(out[i].id == g[i].id && out[j].id == g[j].id);
                }
            },
            None => {
                assert(out.drop_last() =~= g);
                assert forall|i: int, j: int| 0 <= i < j < out.len() implies #[trigger] out[i].id
                    != #[trigger] out[j].id by {
                    if j == out.len() - 1 {
                        assert(out[i] == g[i]);
                    } else {
                        assert(out[i] == g[i] && out[j] == g[j]);
                    }
                }
            },
        }
    }
}

/// The tasks of one project, in order.
pub open spec fn project_tasks(ts: Seq<TaskView>, id: Seq<char>) -> Seq<TaskView> {
    ts.filter(of_project(id))
}

/// Whether a task belongs to project `id`.
pub open spec fn of_project(id: Seq<char>) -> spec_fn(TaskView) -> bool {
    |t: TaskView| t.project_id == id
}

/// Each project's group holds exactly that project's tasks: its total is
/// their summed duration and its count their number, and every task's
/// project has a group.
pub proof fn law_project_totals_by_project(ts: Seq<TaskView>)
    ensures
        forall|k: int|
            0 <= k < group_totals(ts).len() ==> #[trigger] group_totals(ts)[k].total
                == total_duration(project_tasks(ts, group_totals(ts)[k].id)) && group_totals(
                ts,
            )[k].count == project_tasks(ts, group_totals(ts)[k].id).len(),
        forall|i: int|
            0 <= i < ts.len() ==> exists|k: int|
                0 <= k < group_totals(ts).len() && #[trigger] group_totals(ts)[k].id
                    == #[trigger] ts[i].project_id,
    decreases ts.len(),
{
    if ts.len() > 0 {
        let prev = ts.drop_last();
        let g = group_totals(prev);
        let t = ts.last();
        law_project_totals_by_project(prev);
        law_project_totals_add_up(prev);
        lemma_group_index(g, t.project_id);
        let out = group_totals(ts);
        assert(ts.drop_last() == prev);
        assert forall|id: Seq<char>| #[trigger] project_tasks(ts, id) == if t.project_id == id {
            project_tasks(prev, id).push(t)
        } else {
            project_tasks(prev, id)
        } by {
            reveal_with_fuel(Seq::filter, 1);
        }
        match group_index(g, t.project_id) {
            Some(kk) => {
                assert forall|k: int| 0 <= k < out.len() implies #[trigger] out[k].total
                    == total_duration(project_tasks(ts, out[k].id)) && out[k].count
                    == project_tasks(ts, out[k].id).len() by {
                    assert(out[k].id == g[k].id);
                    let pts = project_tasks(ts, out[k].id);
                    if k == kk {
                        assert(pts == project_tasks(prev, g[k].id).push(t));
                        assert(pts.drop_last() =~= project_tasks(prev, g[k].id));
                        assert(g[k].total == total_duration(project_tasks(prev, g[k].id)));
                    } else {
                        assert(g[k].id != g[kk].id);
                        assert(pts == project_tasks(prev, g[k].id));
                        assert(g[k].total == total_duration(project_tasks(prev, g[k].id)));
                    }
                }
                assert forall|i: int| 0 <= i < ts.len() implies exists|k: int|
                    0 <= k < out.len() && #[trigger] out[k].id == #[trigger] ts[i].project_id by {
                    if i < prev.len() {
                        assert(ts[i] == prev[i]);
                        let k = choose|k: int| 0 <= k < g.len() && #[trigger] g[k].id == prev[i].project_id;
                        assert(out[k].id == g[k].id);
                    } else {
                        assert(out[kk].id == g[kk].id);
                    }
                }
            },
            None => {
                let id = t.project_id;
                assert(project_tasks(prev, id).len() == 0) by {
                    broadcast use vstd::seq_lib::group_filter_ensures;

                    if project_tasks(prev, id).len() > 0 {
                        let x = project_tasks(prev, id)[0];
                        assert(prev.filter(of_project(id)).contains(x));
                        prev.lemma_filter_contains_rev(of_project(id), x);
                        assert(of_project(id)(x));
                        let i = choose|i: int| 0 <= i < prev.len() && prev[i] == x;
                        let k = choose|k: int| 0 <= k < g.len() && #[trigger] g[k].id == prev[i].project_id;
                        assert(g[k].id != id);
                    }
                }
                assert forall|k: int| 0 <= k < out.len() implies #[trigger] out[k].total
                    == total_duration(project_tasks(ts, out[k].id)) && out[k].count
                    == project_tasks(ts, out[k].id).len() by {
                    if k < g.len() {
                        assert(out[k] == g[k]);
                        assert(g[k].id != id);
                        assert(project_tasks(ts, g[k].id) == project_tasks(prev, g[k].id));
                        assert(g[k].total == total_duration(project_tasks(prev, g[k].id)));
                    } else {
                        let pts = project_tasks(ts, id);
                        assert(out[k] == TotalView { id, total: duration(t), count: 1 });
                        assert(project_tasks(prev, id) =~= Seq::<TaskView>::empty());
                        assert(pts == project_tasks(prev, id).push(t));
                        assert(pts.drop_last() =~= project_tasks(prev, id));
                        assert(pts.last() == t);
                        assert(total_duration(pts.drop_last()) == 0);
                        assert(pts.len() == 1);
                    }
                }
                assert forall|i: int| 0 <= i < ts.len() implies exists|k: int|
                    0 <= k < out.len() && #[trigger] out[k].id == #[trigger] ts[i].project_id by {
                    if i < prev.len() {
                        assert(ts[i] == prev[i]);
                        let k = choose|k: int| 0 <= k < g.len() && #[trigger] g[k].id == prev[i].project_id;
                        assert(out[k] == g[k]);
                    } else {
                        assert(out[g.len() as int].id == t.project_id);
                    }
                }
            },
        }
    }
}

/// The displayed total of one project.
#[derive(Debug)]
pub struct ProjectTotalItem {
    pub id: String,
    pub project: String,
    pub duration_seconds: i32,
    pub num_tasks: i32,
}

pub open spec fn total_item_matches(item: ProjectTotalItem, g: TotalView, d: DataView) -> bool {
    &&& item.id@ == g.id
    &&& item.project@ == project_name_of(d, g.id)
    &&& item.duration_seconds == clamped_seconds(g.total)
    &&& item.num_tasks == g.count
}

struct Group {
    project_id: crate::domain::ids::ProjectId,
    total: i64,
    count: i32,
}

spec fn groups_view(g: Seq<Group>) -> Seq<TotalView> {
    g.map_values(|x: Group| TotalView { id: x.project_id@, total: x.total as int, count: x.count as int })
}

/// Sums the tasks' durations and counts per project, in order of each
/// project's first task.
pub fn project_totals(data: &Data, tasks: &[Task]) -> (r: Vec<ProjectTotalItem>)
    requires
        magnitude(crate::domain::data::tasks_view(tasks@)) <= i64::MAX,
        tasks@.len() < i32::MAX,
    ensures
        r@.len() == group_totals(crate::domain::data::tasks_view(tasks@)).len(),
        forall|k: int|
            0 <= k < r@.len() ==> total_item_matches(
                #[trigger] r@[k],
                group_totals(crate::domain::data::tasks_view(tasks@))[k],
                data@,
            ),
{
    let ghost ts = crate::domain::data::tasks_view(tasks@);
    let mut totals: Vec<Group> = Vec::new();
    let mut i: usize = 0;
    while i < tasks.len()
        invariant
            i <= tasks.len(),
            ts == crate::domain::data::tasks_view(tasks@),
            magnitude(ts) <= i64::MAX,
            tasks@.len() < i32::MAX,
            groups_view(totals@) == group_totals(ts.take(i as int)),
            forall|k: int|
                0 <= k < totals@.len() ==> -magnitude(ts.take(i as int)) <= #[trigger] totals@[k].total
                    <= magnitude(ts.take(i as int)) && 1 <= totals@[k].count <= i,
        decreases tasks.len() - i,
    {
        let task = &tasks[i];
        assert(task@ == ts[i as int]);
        let ghost prefix = ts.take(i as int);
        let ghost next = ts.take(i + 1);
        assert(next.drop_last() =~= prefix);
        proof {
            lemma_magnitude_prefix(ts, i + 1);
            lemma_magnitude_prefix(ts, i as int);
            assert(next.last() == ts[i as int]);
            lemma_group_index(groups_view(totals@), task@.project_id);
        }
        let duration_seconds = task.ended() - task.started();
        let mut k: usize = 0;
        while k < totals.len() && !totals[k].project_id.same(task.project_id())
            invariant
                k <= totals.len(),
                forall|j: int| 0 <= j < k ==> groups_view(totals@)[j].id != task@.project_id,
            decreases totals.len() - k,
        {
            k = k + 1;
        }
        let ghost before = totals@;
        if k < totals.len() {
            assert(is_first_group(groups_view(totals@), task@.project_id, k as int));
            let group = Group {
                project_id: totals[k].project_id.clone(),
                total: totals[k].total + duration_seconds,
                count: totals[k].count + 1,
            };
            totals.set(k, group);
            assert(groups_view(totals@) =~= group_totals(next));
        } else {
            totals.push(Group { project_id: task.project_id().clone(), total: duration_seconds, count: 1 });
            assert(groups_view(totals@) =~= group_totals(next));
        }
        assert forall|j: int| 0 <= j < totals@.len() implies -magnitude(next) <= #[trigger] totals@[j].total
            <= magnitude(next) && 1 <= totals@[j].count <= i + 1 by {
            if j < before.len() && j != k {
                assert(totals@[j] == before[j]);
            }
        }
        i = i + 1;
    }
    assert(ts.take(i as int) =~= ts);
    let mut items: Vec<ProjectTotalItem> = Vec::new();
    let mut j: usize = 0;
    while j < totals.len()
        invariant
            j <= totals.len(),
            groups_view(totals@) == group_totals(ts),
            items@.len() == j,
            forall|k: int|
                0 <= k < j ==> total_item_matches(#[trigger] items@[k], group_totals(ts)[k], data@),
        decreases totals.len() - j,
    {
        let group = &totals[j];
        assert(groups_view(totals@)[j as int].id == group.project_id@);
        items.push(
            ProjectTotalItem {
                id: String::from_str(group.project_id.as_str()),
                project: data.project_name(&group.project_id),
                duration_seconds: slint_seconds(group.total),
                num_tasks: group.count,
            },
        );
        j = j + 1;
    }
    items
}


// ----- evaluation -----
/// One task in an evaluation list.
#[derive(Debug)]
pub struct EvaluationTaskItem {
    pub id: String,
    pub project: String,
    pub note: String,
    pub duration_seconds: i32,
    pub completed_label: String,
}

/// The selected range's totals and up to three newest tasks.
#[derive(Debug)]
pub struct EvaluationState {
    pub tasks: Vec<EvaluationTaskItem>,
    pub total_seconds: i32,
    pub range: Range,
    pub project_totals: Vec<ProjectTotalItem>,
}

/// One project's tasks in the selected range, newest first.
#[derive(Debug)]
pub struct EvaluationTasksState {
    pub project: String,
    pub tasks: Vec<EvaluationTaskItem>,
    pub total_seconds: i32,
    pub range: Range,
}

/// What an evaluation list says of a task; the completion date depends on the time zone.
pub open spec fn evaluation_item_matches(
    item: EvaluationTaskItem,
    t: TaskView,
    d: DataView,
    language: Language,
) -> bool {
    &&& item.id@ == t.id
    &&& item.project@ == project_name_of(d, t.project_id)
    &&& item.note@ == t.note
    &&& item.duration_seconds == clamped_seconds(duration(t))
    &&& exists|date: LocalDate|
        date_fields_valid(date) && item.completed_label@ == uppercase(completion_text(date, language))
}

fn evaluation_item(data: &Data, task: &Task, language: Language) -> (r: EvaluationTaskItem)
    requires
        i64::MIN <= duration(task@) <= i64::MAX,
    ensures
        evaluation_item_matches(r, task@, data@, language),
{
    EvaluationTaskItem {
        id: String::from_str(task.id().as_str()),
        project: data.project_name(task.project_id()),
        note: String::from_str(task.note()),
        duration_seconds: slint_seconds(task.ended() - task.started()),
        completed_label: localized_completion_date(task, language),
    }
}

/// The completed tasks whose end date lies in `range` around `current`,
/// optionally of one project, in recording order, with their summed duration;
/// `ended[k]` is the local date on which task `k` ended.
pub fn matching_tasks_on(
    data: &Data,
    range: Range,
    project_id: Option<&crate::domain::ids::ProjectId>,
    current: LocalDate,
    ended: &Vec<LocalDate>,
) -> (r: (Vec<Task>, i64))
    requires
        magnitude(data@.tasks) <= i64::MAX,
        ended@.len() == data@.tasks.len(),
    ensures
        crate::domain::data::tasks_view(r.0@) == selected(
            data@.tasks,
            period_flags(range, current, ended@),
            project_option(project_id),
        ),
        r.1 == total_duration(
            selected(data@.tasks, period_flags(range, current, ended@), project_option(project_id)),
        ),
{
    let ghost project = project_option(project_id);
    let ghost d = data@;
    let ghost all_flags = period_flags(range, current, ended@);
    let all = data.tasks();
    let mut matching: Vec<Task> = Vec::new();
    let mut total: i64 = 0;
    let ghost mut flags: Seq<bool> = Seq::empty();
    let mut i: usize = 0;
    while i < all.len()
        invariant
            i <= all.len(),
            d == data@,
            crate::domain::data::tasks_view(all@) == d.tasks,
            ended@.len() == d.tasks.len(),
            all_flags == period_flags(range, current, ended@),
            magnitude(d.tasks) <= i64::MAX,
            project == project_option(project_id),
            flags == all_flags.take(i as int),
            crate::domain::data::tasks_view(matching@) == selected(d.tasks.take(i as int), flags, project),
            total == total_duration(selected(d.tasks.take(i as int), flags, project)),
        decreases all.len() - i,
    {
        let task = &all[i];
        assert(task@ == d.tasks[i as int]);
        let ghost prefix = d.tasks.take(i as int);
        let ghost next = d.tasks.take(i + 1);
        assert(next.drop_last() =~= prefix);
        let within = in_period(range, current, ended[i]);
        let belongs = match project_id {
            Some(id) => task.project_id().same(id),
            None => true,
        };
        let ghost old_flags = flags;
        proof {
            flags = flags.push(within);
            assert(flags.drop_last() =~= old_flags);
            assert(flags =~= all_flags.take(i + 1));
            crate::report::lemma_selected_bounds(next, flags, project);
            lemma_magnitude_prefix(d.tasks, i as int + 1);
            assert(next.last() == d.tasks[i as int]);
        }
        let ghost chosen_before = selected(prefix, old_flags, project);
        let ghost chosen_after = selected(next, flags, project);
        if within && belongs {
            assert(chosen_after == chosen_before.push(d.tasks[i as int]));
            assert(chosen_after.drop_last() =~= chosen_before);
            let duration_seconds = task.ended() - task.started();
            matching.push(task.clone());
            total = total + duration_seconds;
            assert(crate::domain::data::tasks_view(matching@) =~= chosen_after);
        } else {
            assert(chosen_after == chosen_before);
        }
        i = i + 1;
    }
    assert(d.tasks.take(i as int) =~= d.tasks);
    assert(all_flags.take(i as int) =~= all_flags);
    (matching, total)
}

pub open spec fn project_option(p: Option<&crate::domain::ids::ProjectId>) -> Option<Seq<char>> {
    match p {
        Some(id) => Some(id@),
        None => None,
    }
}

/// `r` shows the tasks whose end date lies in the tracker's range around
/// `current` (`ended[k]` being the date on which task `k` ended): their
/// clamped total, their per-project totals, and the newest three of them.
pub open spec fn evaluation_on(
    r: EvaluationState,
    t: crate::application::TrackerView,
    current: LocalDate,
    ended: Seq<LocalDate>,
    language: Language,
) -> bool {
    let chosen = selected(t.data.tasks, period_flags(t.range, current, ended), None);
    let groups = group_totals(chosen);
    &&& ended.len() == t.data.tasks.len()
    &&& r.total_seconds == clamped_seconds(total_duration(chosen))
    &&& r.range == t.range
    &&& r.project_totals@.len() == groups.len()
    &&& forall|k: int|
        0 <= k < groups.len() ==> total_item_matches(
            #[trigger] r.project_totals@[k],
            groups[k],
            t.data,
        )
    &&& r.tasks@.len() == if chosen.len() < 3 {
        chosen.len() as int
    } else {
        3
    }
    &&& forall|k: int|
        0 <= k < r.tasks@.len() ==> evaluation_item_matches(
            #[trigger] r.tasks@[k],
            chosen[chosen.len() - 1 - k],
            t.data,
            language,
        )
}

/// `r` is the evaluation of the tracker's range around `timestamp`, for the
/// local dates of `timestamp` and of each task's end, which depend on the time
/// zone and lie within a day of the UTC dates.
pub open spec fn evaluation_of(
    r: EvaluationState,
    t: crate::application::TrackerView,
    language: Language,
    timestamp: i64,
) -> bool {
    exists|current: LocalDate, ended: Seq<LocalDate>|
        #[trigger] evaluation_on(r, t, current, ended, language) && dates_near(
            timestamp,
            current,
            t.data.tasks,
            ended,
        )
}

/// Builds the totals and up to three newest tasks of the tracker's range
/// around `current`, where `ended[k]` is the local date on which task `k` ended.
pub fn evaluation_at(
    tracker: &Tracker,
    current: LocalDate,
    ended: &Vec<LocalDate>,
    language: Language,
) -> (r: EvaluationState)
    requires
        magnitude(tracker@.data.tasks) <= i64::MAX,
        tracker@.data.tasks.len() < i32::MAX,
        ended@.len() == tracker@.data.tasks.len(),
    ensures
        evaluation_on(r, tracker@, current, ended@, language),
{
    let data = tracker.data();
    let (matching, total) = matching_tasks_on(data, tracker.range(), None, current, ended);
    let ghost flags = period_flags(tracker@.range, current, ended@);
    let ghost chosen = selected(data@.tasks, flags, None);
    proof {
        crate::report::lemma_selected_magnitude(data@.tasks, flags, None);
        crate::report::lemma_selected_bounds(data@.tasks, flags, None);
        crate::report::lemma_total_bounded(chosen);
    }
    let project_totals = project_totals(data, matching.as_slice());
    let mut tasks: Vec<EvaluationTaskItem> = Vec::new();
    let mut k: usize = matching.len();
    while k > 0 && tasks.len() < 3
        invariant
            k <= matching.len(),
            crate::domain::data::tasks_view(matching@) == chosen,
            magnitude(chosen) <= i64::MAX,
            tasks@.len() == matching.len() - k,
            tasks@.len() <= 3,
            forall|j: int|
                0 <= j < tasks@.len() ==> evaluation_item_matches(
                    #[trigger] tasks@[j],
                    chosen[chosen.len() - 1 - j],
                    data@,
                    language,
                ),
        decreases k,
    {
        k = k - 1;
        assert(matching[k as int]@ == chosen[k as int]);
        proof {
            lemma_task_magnitude(chosen, k as int);
        }
        tasks.push(evaluation_item(data, &matching[k], language));
    }
    EvaluationState {
        tasks,
        total_seconds: slint_seconds(total),
        range: tracker.range(),
        project_totals,
    }
}

/// Builds the selected calendar range's totals and up to three newest tasks,
/// from the local dates of `timestamp` and of each task's end.
pub fn evaluation(tracker: &Tracker, timestamp: i64, language: Language) -> (r: EvaluationState)
    requires
        magnitude(tracker@.data.tasks) <= i64::MAX,
        tracker@.data.tasks.len() < i32::MAX,
    ensures
        evaluation_of(r, tracker@, language, timestamp),
{
    let current = local_date(timestamp);
    let all = tracker.data().tasks();
    let ended = end_dates(all);
    proof {
        lemma_end_dates_near(tracker@.data.tasks, all@, ended@);
    }
    let r = evaluation_at(tracker, current, &ended, language);
    assert(evaluation_on(r, tracker@, current, ended@, language));
    r
}

/// Each task's duration is bounded by the summed absolute durations.
pub proof fn lemma_task_magnitude(ts: Seq<TaskView>, k: int)
    requires
        0 <= k < ts.len(),
    ensures
        -magnitude(ts) <= duration(ts[k]) <= magnitude(ts),
    decreases ts.len(),
{
    crate::report::lemma_magnitude_nonneg(ts.drop_last());
    if k < ts.len() - 1 {
        lemma_task_magnitude(ts.drop_last(), k);
    }
}

/// `r` shows the project's tasks whose end date lies in the tracker's range
/// around `current` (`ended[k]` being the date on which task `k` ended), all
/// of them newest first, and their clamped total.
pub open spec fn evaluation_tasks_on(
    r: EvaluationTasksState,
    t: crate::application::TrackerView,
    project_id: Seq<char>,
    current: LocalDate,
    ended: Seq<LocalDate>,
    language: Language,
) -> bool {
    let chosen = selected(t.data.tasks, period_flags(t.range, current, ended), Some(project_id));
    &&& ended.len() == t.data.tasks.len()
    &&& r.project@ == project_name_of(t.data, project_id)
    &&& r.total_seconds == clamped_seconds(total_duration(chosen))
    &&& r.range == t.range
    &&& r.tasks@.len() == chosen.len()
    &&& forall|k: int|
        0 <= k < r.tasks@.len() ==> evaluation_item_matches(
            #[trigger] r.tasks@[k],
            chosen[chosen.len() - 1 - k],
            t.data,
            language,
        )
}

/// `r` is the project's task list for the tracker's range around
/// `timestamp`, for the local dates of `timestamp` and of each task's end,
/// which depend on the time zone and lie within a day of the UTC dates.
pub open spec fn evaluation_tasks_of(
    r: EvaluationTasksState,
    t: crate::application::TrackerView,
    project_id: Seq<char>,
    language: Language,
    timestamp: i64,
) -> bool {
    exists|current: LocalDate, ended: Seq<LocalDate>|
        #[trigger] evaluation_tasks_on(r, t, project_id, current, ended, language) && dates_near(
            timestamp,
            current,
            t.data.tasks,
            ended,
        )
}

/// Builds the project's complete task list for the tracker's range around
/// `current`, where `ended[k]` is the local date on which task `k` ended.
pub fn evaluation_tasks_at(
    tracker: &Tracker,
    project_id: &crate::domain::ids::ProjectId,
    current: LocalDate,
    ended: &Vec<LocalDate>,
    language: Language,
) -> (r: EvaluationTasksState)
    requires
        magnitude(tracker@.data.tasks) <= i64::MAX,
        ended@.len() == tracker@.data.tasks.len(),
    ensures
        evaluation_tasks_on(r, tracker@, project_id@, current, ended@, language),
{
    let data = tracker.data();
    let (matching, total) = matching_tasks_on(data, tracker.range(), Some(project_id), current, ended);
    let ghost flags = period_flags(tracker@.range, current, ended@);
    let ghost chosen = selected(data@.tasks, flags, Some(project_id@));
    proof {
        crate::report::lemma_selected_magnitude(data@.tasks, flags, Some(project_id@));
    }
    let mut tasks: Vec<EvaluationTaskItem> = Vec::new();
    let mut k: usize = matching.len();
    while k > 0
        invariant
            k <= matching.len(),
            crate::domain::data::tasks_view(matching@) == chosen,
            magnitude(chosen) <= i64::MAX,
            tasks@.len() == matching.len() - k,
            forall|j: int|
                0 <= j < tasks@.len() ==> evaluation_item_matches(
                    #[trigger] tasks@[j],
                    chosen[chosen.len() - 1 - j],
                    data@,
                    language,
                ),
        decreases k,
    {
        k = k - 1;
        assert(matching[k as int]@ == chosen[k as int]);
        proof {
            lemma_task_magnitude(chosen, k as int);
        }
        tasks.push(evaluation_item(data, &matching[k], language));
    }
    EvaluationTasksState {
        project: data.project_name(project_id),
        tasks,
        total_seconds: slint_seconds(total),
        range: tracker.range(),
    }
}

/// Builds the selected project's complete task list for the current
/// evaluation range, from the local dates of `timestamp` and of each task's end.
pub fn evaluation_tasks(
    tracker: &Tracker,
    timestamp: i64,
    project_id: &crate::domain::ids::ProjectId,
    language: Language,
) -> (r: EvaluationTasksState)
    requires
        magnitude(tracker@.data.tasks) <= i64::MAX,
    ensures
        evaluation_tasks_of(r, tracker@, project_id@, language, timestamp),
{
    let current = local_date(timestamp);
    let all = tracker.data().tasks();
    let ended = end_dates(all);
    proof {
        lemma_end_dates_near(tracker@.data.tasks, all@, ended@);
    }
    let r = evaluation_tasks_at(tracker, project_id, current, &ended, language);
    assert(evaluation_tasks_on(r, tracker@, project_id@, current, ended@, language));
    r
}


/// Every view model, built from one consistent tracker snapshot.
#[derive(Debug)]
pub struct Projections {
    pub home: HomeState,
    pub project_settings: Vec<ProjectItem>,
    pub evaluation: EvaluationState,
    /// Present when a project is selected for evaluation detail.
    pub evaluation_tasks: Option<EvaluationTasksState>,
    pub tracking: TrackingState,
}

/// Builds every projection from the tracker at `timestamp`.
pub fn refresh(tracker: &Tracker, timestamp: i64, language: Language) -> (r: Projections)
    requires
        magnitude(tracker@.data.tasks) <= i64::MAX,
        tracker@.data.tasks.len() < i32::MAX,
        tracker@.data.active matches Some(a) ==> elapsed_fits(a, timestamp),
    ensures
        home_matches(r.home, tracker@.data),
        r.project_settings@.map_values(|x: ProjectItem| x@) == tracker@.data.projects.map_values(
            |p: ProjectView| settings_item(p),
        ),
        evaluation_of(r.evaluation, tracker@, language, timestamp),
        tracker@.evaluating is None ==> r.evaluation_tasks is None,
        tracker@.evaluating matches Some(p) ==> (r.evaluation_tasks matches Some(e)
            && evaluation_tasks_of(e, tracker@, p, language, timestamp)),
        tracking_matches(r.tracking, tracker@.data, timestamp),
{
    proof {
        if tracker@.data.tasks.len() > 0 {
            lemma_task_magnitude(tracker@.data.tasks, tracker@.data.tasks.len() - 1);
        }
    }
    let evaluation_tasks = match tracker.evaluating_project() {
        Some(project) => Some(evaluation_tasks(tracker, timestamp, project, language)),
        None => None,
    };
    Projections {
        home: home(tracker),
        project_settings: project_settings(tracker),
        evaluation: evaluation(tracker, timestamp, language),
        evaluation_tasks,
        tracking: tracking(tracker, timestamp),
    }
}

} // verus!
