//! The native application menu: its submenus and entries with their
//! shortcuts, and the command that each entry stands for.
//!
//! The platform draws the menu; this module decides what it holds from the
//! localized labels and the projects shown on the home page, and reads the
//! identifier that a chosen entry reports.

use crate::controller::Page;
use crate::presentation::{ProjectItem, ProjectItemView};
use crate::text::{same_text, starts_with};
use vstd::prelude::*;

verus! {

/// The entries with a fixed meaning.
#[derive(Clone, Copy, Debug, PartialEq, Eq, Structural)]
pub enum MenuAction {
    Settings,
    About,
    Backup,
    Restore,
    Home,
    Evaluation,
    KeyboardShortcuts,
}

/// The identifier that a fixed entry reports when it is chosen.
pub open spec fn action_id(a: MenuAction) -> Seq<char> {
    match a {
        MenuAction::Settings => "tempo.settings"@,
        MenuAction::About => "tempo.about"@,
        MenuAction::Backup => "tempo.backup"@,
        MenuAction::Restore => "tempo.restore"@,
        MenuAction::Home => "tempo.home"@,
        MenuAction::Evaluation => "tempo.evaluation"@,
        MenuAction::KeyboardShortcuts => "tempo.keyboard-shortcuts"@,
    }
}

/// How the identifier of a project's entry begins; the project's own
/// identifier follows.
pub open spec fn project_prefix() -> Seq<char> {
    "tempo.project:"@
}

pub fn action_id_text(a: MenuAction) -> (r: &'static str)
    ensures
        r@ == action_id(a),
{
    match a {
        MenuAction::Settings => "tempo.settings",
        MenuAction::About => "tempo.about",
        MenuAction::Backup => "tempo.backup",
        MenuAction::Restore => "tempo.restore",
        MenuAction::Home => "tempo.home",
        MenuAction::Evaluation => "tempo.evaluation",
        MenuAction::KeyboardShortcuts => "tempo.keyboard-shortcuts",
    }
}

fn project_prefix_text() -> (r: &'static str)
    ensures
        r@ == project_prefix(),
{
    "tempo.project:"
}

/// A key that, held with Command (Control on other platforms), chooses an entry.
#[derive(Clone, Copy, Debug, PartialEq, Eq, Structural)]
pub enum MenuKey {
    Comma,
    B,
    E,
    R,
    /// A digit key from 1 to 9.
    Digit(u8),
}

/// A keyboard shortcut: Command (or Control), Shift when `shift` is set, and a key.
#[derive(Clone, Copy, Debug, PartialEq, Eq, Structural)]
pub struct Accelerator {
    pub shift: bool,
    pub key: MenuKey,
}

/// An entry that the platform provides.
#[derive(Clone, Copy, Debug, PartialEq, Eq, Structural)]
pub enum StandardItem {
    Separator,
    Services,
    Hide,
    HideOthers,
    ShowAll,
    Quit,
}

/// One entry of a submenu.
#[derive(Debug)]
pub enum MenuEntry {
    Standard(StandardItem),
    /// A disabled caption.
    Heading(String),
    /// An enabled entry that reports `id` when chosen.
    Item { id: String, label: String, accelerator: Option<Accelerator> },
}

pub enum EntryView {
    Standard(StandardItem),
    Heading(Seq<char>),
    Item { id: Seq<char>, label: Seq<char>, accelerator: Option<Accelerator> },
}

impl View for MenuEntry {
    type V = EntryView;

    open spec fn view(&self) -> EntryView {
        match self {
            MenuEntry::Standard(item) => EntryView::Standard(*item),
            MenuEntry::Heading(label) => EntryView::Heading(label@),
            MenuEntry::Item { id, label, accelerator } => EntryView::Item {
                id: id@,
                label: label@,
                accelerator: *accelerator,
            },
        }
    }
}

/// A titled submenu of the menu bar.
#[derive(Debug)]
pub struct Submenu {
    pub title: String,
    pub entries: Vec<MenuEntry>,
}

pub struct SubmenuView {
    pub title: Seq<char>,
    pub entries: Seq<EntryView>,
}

impl View for Submenu {
    type V = SubmenuView;

    open spec fn view(&self) -> SubmenuView {
        SubmenuView { title: self.title@, entries: self.entries@.map_values(|e: MenuEntry| e@) }
    }
}

/// The localized labels of the menu.
#[derive(Debug)]
pub struct MenuStrings {
    pub application: String,
    pub settings: String,
    pub about: String,
    pub file: String,
    pub backup: String,
    pub restore: String,
    pub view: String,
    pub home: String,
    pub evaluation: String,
    pub projects: String,
    pub help: String,
    pub keyboard_shortcuts: String,
}

pub struct MenuStringsView {
    pub application: Seq<char>,
    pub settings: Seq<char>,
    pub about: Seq<char>,
    pub file: Seq<char>,
    pub backup: Seq<char>,
    pub restore: Seq<char>,
    pub view: Seq<char>,
    pub home: Seq<char>,
    pub evaluation: Seq<char>,
    pub projects: Seq<char>,
    pub help: Seq<char>,
    pub keyboard_shortcuts: Seq<char>,
}

impl View for MenuStrings {
    type V = MenuStringsView;

    open spec fn view(&self) -> MenuStringsView {
        MenuStringsView {
            application: self.application@,
            settings: self.settings@,
            about: self.about@,
            file: self.file@,
            backup: self.backup@,
            restore: self.restore@,
            view: self.view@,
            home: self.home@,
            evaluation: self.evaluation@,
            projects: self.projects@,
            help: self.help@,
            keyboard_shortcuts: self.keyboard_shortcuts@,
        }
    }
}

/// A fixed entry with its label and shortcut.
pub open spec fn action_entry(a: MenuAction, label: Seq<char>, accelerator: Option<Accelerator>) -> EntryView {
    EntryView::Item { id: action_id(a), label, accelerator }
}

/// Command (or Control) with `key`.
pub open spec fn command_key(key: MenuKey) -> Option<Accelerator> {
    Some(Accelerator { shift: false, key })
}

/// The shortcut of the project at `index` on the home page: Command with
/// digits 1 to 9 for the first nine, none for the rest.
pub open spec fn project_shortcut(index: int) -> Option<Accelerator> {
    if 0 <= index < 9 {
        command_key(MenuKey::Digit((index + 1) as u8))
    } else {
        None
    }
}

/// One entry per project, in order, reporting the project's identifier.
pub open spec fn project_entries(ps: Seq<ProjectItemView>) -> Seq<EntryView> {
    Seq::new(
        ps.len(),
        |i: int|
            EntryView::Item {
                id: project_prefix() + ps[i].id,
                label: ps[i].name,
                accelerator: project_shortcut(i),
            },
    )
}

pub open spec fn application_entries(s: MenuStringsView) -> Seq<EntryView> {
    seq![
        action_entry(MenuAction::Settings, s.settings, command_key(MenuKey::Comma)),
        EntryView::Standard(StandardItem::Separator),
        action_entry(MenuAction::About, s.about, None),
        EntryView::Standard(StandardItem::Separator),
        EntryView::Standard(StandardItem::Services),
        EntryView::Standard(StandardItem::Separator),
        EntryView::Standard(StandardItem::Hide),
        EntryView::Standard(StandardItem::HideOthers),
        EntryView::Standard(StandardItem::ShowAll),
        EntryView::Standard(StandardItem::Separator),
        EntryView::Standard(StandardItem::Quit),
    ]
}

pub open spec fn file_entries(s: MenuStringsView) -> Seq<EntryView> {
    seq![
        action_entry(MenuAction::Backup, s.backup, command_key(MenuKey::B)),
        action_entry(
            MenuAction::Restore,
            s.restore,
            Some(Accelerator { shift: true, key: MenuKey::R }),
        ),
    ]
}

/// Home and Evaluation, then, when there are projects, a caption and one
/// entry per project.
pub open spec fn view_entries(s: MenuStringsView, ps: Seq<ProjectItemView>) -> Seq<EntryView> {
    seq![
        action_entry(MenuAction::Home, s.home, None),
        action_entry(MenuAction::Evaluation, s.evaluation, command_key(MenuKey::E)),
    ] + if ps.len() == 0 {
        Seq::empty()
    } else {
        seq![EntryView::Standard(StandardItem::Separator), EntryView::Heading(s.projects)]
            + project_entries(ps)
    }
}

pub open spec fn help_entries(s: MenuStringsView) -> Seq<EntryView> {
    seq![action_entry(MenuAction::KeyboardShortcuts, s.keyboard_shortcuts, None)]
}

/// The application, File, View and Help submenus.
pub open spec fn menu_layout(s: MenuStringsView, ps: Seq<ProjectItemView>) -> Seq<SubmenuView> {
    seq![
        SubmenuView { title: s.application, entries: application_entries(s) },
        SubmenuView { title: s.file, entries: file_entries(s) },
        SubmenuView { title: s.view, entries: view_entries(s, ps) },
        SubmenuView { title: s.help, entries: help_entries(s) },
    ]
}

/// The shortcut of the project shown at `index` on the home page.
pub fn project_accelerator(index: usize) -> (r: Option<Accelerator>)
    ensures
        r == project_shortcut(index as int),
{
    if index < 9 {
        let digit: u8 = index as u8 + 1;
        Some(Accelerator { shift: false, key: MenuKey::Digit(digit) })
    } else {
        None
    }
}

fn action_item(a: MenuAction, label: &String, accelerator: Option<Accelerator>) -> (r: MenuEntry)
    ensures
        r@ == action_entry(a, label@, accelerator),
{
    MenuEntry::Item { id: String::from_str(action_id_text(a)), label: label.clone(), accelerator }
}

fn standard(item: StandardItem) -> (r: MenuEntry)
    ensures
        r@ == EntryView::Standard(item),
{
    MenuEntry::Standard(item)
}

fn application_submenu(strings: &MenuStrings) -> (r: Submenu)
    ensures
        r@ == (SubmenuView { title: strings@.application, entries: application_entries(strings@) }),
{
    let mut entries: Vec<MenuEntry> = Vec::new();
    entries.push(
        action_item(
            MenuAction::Settings,
            &strings.settings,
            Some(Accelerator { shift: false, key: MenuKey::Comma }),
        ),
    );
    entries.push(standard(StandardItem::Separator));
    entries.push(action_item(MenuAction::About, &strings.about, None));
    entries.push(standard(StandardItem::Separator));
    entries.push(standard(StandardItem::Services));
    entries.push(standard(StandardItem::Separator));
    entries.push(standard(StandardItem::Hide));
    entries.push(standard(StandardItem::HideOthers));
    entries.push(standard(StandardItem::ShowAll));
    entries.push(standard(StandardItem::Separator));
    entries.push(standard(StandardItem::Quit));
    assert(entries@.map_values(|e: MenuEntry| e@) =~= application_entries(strings@));
    Submenu { title: strings.application.clone(), entries }
}

fn file_submenu(strings: &MenuStrings) -> (r: Submenu)
    ensures
        r@ == (SubmenuView { title: strings@.file, entries: file_entries(strings@) }),
{
    let mut entries: Vec<MenuEntry> = Vec::new();
    entries.push(
        action_item(
            MenuAction::Backup,
            &strings.backup,
            Some(Accelerator { shift: false, key: MenuKey::B }),
        ),
    );
    entries.push(
        action_item(
            MenuAction::Restore,
            &strings.restore,
            Some(Accelerator { shift: true, key: MenuKey::R }),
        ),
    );
    assert(entries@.map_values(|e: MenuEntry| e@) =~= file_entries(strings@));
    Submenu { title: strings.file.clone(), entries }
}

fn view_submenu(strings: &MenuStrings, projects: &Vec<ProjectItem>) -> (r: Submenu)
    ensures
        r@ == (SubmenuView {
            title: strings@.view,
            entries: view_entries(strings@, projects@.map_values(|p: ProjectItem| p@)),
        }),
{
    let ghost ps = projects@.map_values(|p: ProjectItem| p@);
    let mut entries: Vec<MenuEntry> = Vec::new();
    entries.push(action_item(MenuAction::Home, &strings.home, None));
    entries.push(
        action_item(
            MenuAction::Evaluation,
            &strings.evaluation,
            Some(Accelerator { shift: false, key: MenuKey::E }),
        ),
    );
    let ghost fixed = entries@.map_values(|e: MenuEntry| e@);
    assert(fixed =~= seq![
        action_entry(MenuAction::Home, strings@.home, None),
        action_entry(MenuAction::Evaluation, strings@.evaluation, command_key(MenuKey::E)),
    ]);
    if projects.len() > 0 {
        entries.push(standard(StandardItem::Separator));
        entries.push(MenuEntry::Heading(strings.projects.clone()));
        let ghost head = entries@.map_values(|e: MenuEntry| e@);
        assert(head =~= fixed + seq![
            EntryView::Standard(StandardItem::Separator),
            EntryView::Heading(strings@.projects),
        ]);
        let mut i: usize = 0;
        while i < projects.len()
            invariant
                i <= projects.len(),
                ps == projects@.map_values(|p: ProjectItem| p@),
                entries@.map_values(|e: MenuEntry| e@) == head + project_entries(ps).take(i as int),
            decreases projects.len() - i,
        {
            let project = &projects[i];
            let mut id = String::from_str(project_prefix_text());
            id.append(project.id.as_str());
            let entry = MenuEntry::Item {
                id,
                label: project.name.clone(),
                accelerator: project_accelerator(i),
            };
            let ghost before = entries@;
            entries.push(entry);
            proof {
                assert(project_entries(ps)[i as int] == entry@);
                assert(entries@.map_values(|e: MenuEntry| e@) =~= before.map_values(
                    |e: MenuEntry| e@,
                ).push(entry@));
                assert(project_entries(ps).take(i + 1) =~= project_entries(ps).take(i as int).push(
                    entry@,
                ));
            }
            i = i + 1;
        }
        assert(project_entries(ps).take(projects.len() as int) =~= project_entries(ps));
        assert(entries@.map_values(|e: MenuEntry| e@) =~= view_entries(strings@, ps));
    } else {
        assert(entries@.map_values(|e: MenuEntry| e@) =~= view_entries(strings@, ps));
    }
    Submenu { title: strings.view.clone(), entries }
}

fn help_submenu(strings: &MenuStrings) -> (r: Submenu)
    ensures
        r@ == (SubmenuView { title: strings@.help, entries: help_entries(strings@) }),
{
    let mut entries: Vec<MenuEntry> = Vec::new();
    entries.push(action_item(MenuAction::KeyboardShortcuts, &strings.keyboard_shortcuts, None));
    assert(entries@.map_values(|e: MenuEntry| e@) =~= help_entries(strings@));
    Submenu { title: strings.help.clone(), entries }
}

/// The menu bar for the localized `strings` and the projects shown on the
/// home page.
pub fn build_menu(strings: &MenuStrings, projects: &Vec<ProjectItem>) -> (r: Vec<Submenu>)
    ensures
        r@.map_values(|m: Submenu| m@) == menu_layout(
            strings@,
            projects@.map_values(|p: ProjectItem| p@),
        ),
{
    let mut menu: Vec<Submenu> = Vec::new();
    menu.push(application_submenu(strings));
    menu.push(file_submenu(strings));
    menu.push(view_submenu(strings, projects));
    menu.push(help_submenu(strings));
    assert(menu@.map_values(|m: Submenu| m@) =~= menu_layout(
        strings@,
        projects@.map_values(|p: ProjectItem| p@),
    ));
    menu
}

/// What choosing a menu entry asks for.
#[derive(Debug)]
pub enum MenuCommand {
    ShowAbout,
    Navigate(Page),
    BackupData,
    RestoreData,
    ShowKeyboardShortcuts,
    /// Start tracking the project with this identifier.
    StartTracking(String),
}

pub enum CommandView {
    ShowAbout,
    Navigate(Page),
    BackupData,
    RestoreData,
    ShowKeyboardShortcuts,
    StartTracking(Seq<char>),
}

impl View for MenuCommand {
    type V = CommandView;

    open spec fn view(&self) -> CommandView {
        match self {
            MenuCommand::ShowAbout => CommandView::ShowAbout,
            MenuCommand::Navigate(page) => CommandView::Navigate(*page),
            MenuCommand::BackupData => CommandView::BackupData,
            MenuCommand::RestoreData => CommandView::RestoreData,
            MenuCommand::ShowKeyboardShortcuts => CommandView::ShowKeyboardShortcuts,
            MenuCommand::StartTracking(id) => CommandView::StartTracking(id@),
        }
    }
}

pub open spec fn command_view(c: Option<MenuCommand>) -> Option<CommandView> {
    match c {
        Some(command) => Some(command@),
        None => None,
    }
}

/// What a fixed entry asks for.
pub open spec fn action_command(a: MenuAction) -> CommandView {
    match a {
        MenuAction::Settings => CommandView::Navigate(Page::Settings),
        MenuAction::About => CommandView::ShowAbout,
        MenuAction::Backup => CommandView::BackupData,
        MenuAction::Restore => CommandView::RestoreData,
        MenuAction::Home => CommandView::Navigate(Page::Home),
        MenuAction::Evaluation => CommandView::Navigate(Page::Evaluation),
        MenuAction::KeyboardShortcuts => CommandView::ShowKeyboardShortcuts,
    }
}

/// Whether `id` begins with the project prefix.
pub open spec fn names_project(id: Seq<char>) -> bool {
    project_prefix().len() <= id.len() && id.take(project_prefix().len() as int) == project_prefix()
}

/// The command behind the entry that reported `id`: a fixed entry's own,
/// tracking for a project's entry, and nothing for an unknown identifier.
pub open spec fn command_for(id: Seq<char>) -> Option<CommandView> {
    if id == action_id(MenuAction::About) {
        Some(action_command(MenuAction::About))
    } else if id == action_id(MenuAction::Settings) {
        Some(action_command(MenuAction::Settings))
    } else if id == action_id(MenuAction::Backup) {
        Some(action_command(MenuAction::Backup))
    } else if id == action_id(MenuAction::Restore) {
        Some(action_command(MenuAction::Restore))
    } else if id == action_id(MenuAction::Home) {
        Some(action_command(MenuAction::Home))
    } else if id == action_id(MenuAction::Evaluation) {
        Some(action_command(MenuAction::Evaluation))
    } else if id == action_id(MenuAction::KeyboardShortcuts) {
        Some(action_command(MenuAction::KeyboardShortcuts))
    } else if names_project(id) {
        Some(CommandView::StartTracking(id.skip(project_prefix().len() as int)))
    } else {
        None
    }
}

/// Reads the identifier that the native menu reported for a chosen entry.
pub fn dispatch(id: &str) -> (r: Option<MenuCommand>)
    ensures
        command_view(r) == command_for(id@),
{
    if same_text(id, action_id_text(MenuAction::About)) {
        return Some(MenuCommand::ShowAbout);
    }
    if same_text(id, action_id_text(MenuAction::Settings)) {
        return Some(MenuCommand::Navigate(Page::Settings));
    }
    if same_text(id, action_id_text(MenuAction::Backup)) {
        return Some(MenuCommand::BackupData);
    }
    if same_text(id, action_id_text(MenuAction::Restore)) {
        return Some(MenuCommand::RestoreData);
    }
    if same_text(id, action_id_text(MenuAction::Home)) {
        return Some(MenuCommand::Navigate(Page::Home));
    }
    if same_text(id, action_id_text(MenuAction::Evaluation)) {
        return Some(MenuCommand::Navigate(Page::Evaluation));
    }
    if same_text(id, action_id_text(MenuAction::KeyboardShortcuts)) {
        return Some(MenuCommand::ShowKeyboardShortcuts);
    }
    let prefix = project_prefix_text();
    if starts_with(id, prefix) {
        let len = id.unicode_len();
        let project = id.substring_char(prefix.unicode_len(), len);
        assert(project@ =~= id@.skip(project_prefix().len() as int));
        return Some(MenuCommand::StartTracking(String::from_str(project)));
    }
    None
}

/// Every entry of the menu asks, when chosen, for what it stands for: a
/// fixed entry for its own action, and a project's entry for tracking that
/// project.
pub proof fn law_menu_entries_dispatch(s: MenuStringsView, ps: Seq<ProjectItemView>)
    ensures
        forall|a: MenuAction| #[trigger] command_for(action_id(a)) == Some(action_command(a)),
        forall|i: int|
            0 <= i < ps.len() ==> command_for(#[trigger] (project_prefix() + ps[i].id)) == Some(
                CommandView::StartTracking(ps[i].id),
            ),
        forall|k: int, j: int|
            0 <= k < menu_layout(s, ps).len() && 0 <= j < menu_layout(s, ps)[k].entries.len()
                && #[trigger] menu_layout(s, ps)[k].entries[j] is Item ==> command_for(
                menu_layout(s, ps)[k].entries[j]->id,
            ) is Some,
{
    reveal_strlit("tempo.settings");
    reveal_strlit("tempo.about");
    reveal_strlit("tempo.backup");
    reveal_strlit("tempo.restore");
    reveal_strlit("tempo.home");
    reveal_strlit("tempo.evaluation");
    reveal_strlit("tempo.keyboard-shortcuts");
    reveal_strlit("tempo.project:");
    assert(action_id(MenuAction::About).len() == 11);
    assert(action_id(MenuAction::Settings).len() == 14);
    assert(action_id(MenuAction::Backup).len() == 12);
    assert(action_id(MenuAction::Restore).len() == 13);
    assert(action_id(MenuAction::Home).len() == 10);
    assert(action_id(MenuAction::Evaluation).len() == 16);
    assert(action_id(MenuAction::KeyboardShortcuts).len() == 24);
    assert forall|a: MenuAction| #[trigger] command_for(action_id(a)) == Some(action_command(a)) by {
        match a {
            MenuAction::Settings => {},
            MenuAction::About => {},
            MenuAction::Backup => {},
            MenuAction::Restore => {},
            MenuAction::Home => {},
            MenuAction::Evaluation => {},
            MenuAction::KeyboardShortcuts => {},
        }
    }
    assert forall|i: int| 0 <= i < ps.len() implies command_for(
        #[trigger] (project_prefix() + ps[i].id),
    ) == Some(CommandView::StartTracking(ps[i].id)) by {
        let id = project_prefix() + ps[i].id;
        assert(id[6] == 'p');
        assert(action_id(MenuAction::About)[6] == 'a');
        assert(action_id(MenuAction::Settings)[6] == 's');
        assert(action_id(MenuAction::Backup)[6] == 'b');
        assert(action_id(MenuAction::Restore)[6] == 'r');
        assert(action_id(MenuAction::Home)[6] == 'h');
        assert(action_id(MenuAction::Evaluation)[6] == 'e');
        assert(action_id(MenuAction::KeyboardShortcuts)[6] == 'k');
        assert(id.take(project_prefix().len() as int) =~= project_prefix());
        assert(id.skip(project_prefix().len() as int) =~= ps[i].id);
    }
    let layout = menu_layout(s, ps);
    assert forall|k: int, j: int|
        0 <= k < layout.len() && 0 <= j < layout[k].entries.len()
            && #[trigger] layout[k].entries[j] is Item implies command_for(
        layout[k].entries[j]->id,
    ) is Some by {
        if k == 2 && j >= 4 {
            let i = j - 4;
            assert(layout[k].entries[j] == project_entries(ps)[i]);
            assert(command_for(project_prefix() + ps[i].id) is Some);
        } else {
            assert(command_for(action_id(MenuAction::About)) is Some);
            assert(command_for(action_id(MenuAction::Settings)) is Some);
            assert(command_for(action_id(MenuAction::Backup)) is Some);
            assert(command_for(action_id(MenuAction::Restore)) is Some);
            assert(command_for(action_id(MenuAction::Home)) is Some);
            assert(command_for(action_id(MenuAction::Evaluation)) is Some);
            assert(command_for(action_id(MenuAction::KeyboardShortcuts)) is Some);
        }
    }
}

} // verus!
