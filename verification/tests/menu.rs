use tempo::controller::Page;
use tempo::menu::{
    build_menu, dispatch, project_accelerator, Accelerator, MenuCommand, MenuEntry, MenuKey,
    MenuStrings, StandardItem,
};
use tempo::presentation::ProjectItem;

fn strings() -> MenuStrings {
    MenuStrings {
        application: "Tempo".into(),
        settings: "Settings…".into(),
        about: "About Tempo".into(),
        file: "File".into(),
        backup: "Back Up Data…".into(),
        restore: "Restore Data…".into(),
        view: "View".into(),
        home: "Home".into(),
        evaluation: "Evaluation".into(),
        projects: "Projects".into(),
        help: "Help".into(),
        keyboard_shortcuts: "Keyboard Shortcuts".into(),
    }
}

fn project(n: usize) -> ProjectItem {
    ProjectItem {
        id: format!("project-{n}"),
        name: format!("Project {n}"),
        completed: false,
        archived: false,
    }
}

fn item(entry: &MenuEntry) -> (&str, &str, Option<Accelerator>) {
    match entry {
        MenuEntry::Item { id, label, accelerator } => (id, label, *accelerator),
        other => panic!("not an item: {other:?}"),
    }
}

#[test]
fn the_menu_has_application_file_view_and_help() {
    let menu = build_menu(&strings(), &Vec::new());
    let titles: Vec<&str> = menu.iter().map(|m| m.title.as_str()).collect();
    assert_eq!(titles, ["Tempo", "File", "View", "Help"]);
    assert_eq!(menu[0].entries.len(), 11);
    assert_eq!(
        item(&menu[0].entries[0]),
        (
            "tempo.settings",
            "Settings…",
            Some(Accelerator { shift: false, key: MenuKey::Comma })
        )
    );
    assert!(matches!(menu[0].entries[10], MenuEntry::Standard(StandardItem::Quit)));
    assert_eq!(
        item(&menu[1].entries[1]),
        (
            "tempo.restore",
            "Restore Data…",
            Some(Accelerator { shift: true, key: MenuKey::R })
        )
    );
    assert_eq!(menu[2].entries.len(), 2);
    assert_eq!(item(&menu[3].entries[0]).0, "tempo.keyboard-shortcuts");
}

#[test]
fn projects_are_listed_with_the_first_nine_numbered() {
    let projects: Vec<ProjectItem> = (1..=10).map(project).collect();
    let menu = build_menu(&strings(), &projects);
    let view = &menu[2].entries;
    assert_eq!(view.len(), 14);
    assert!(matches!(view[2], MenuEntry::Standard(StandardItem::Separator)));
    assert!(matches!(&view[3], MenuEntry::Heading(label) if label == "Projects"));
    assert_eq!(
        item(&view[4]),
        (
            "tempo.project:project-1",
            "Project 1",
            Some(Accelerator { shift: false, key: MenuKey::Digit(1) })
        )
    );
    assert_eq!(item(&view[12]).2, Some(Accelerator { shift: false, key: MenuKey::Digit(9) }));
    assert_eq!(item(&view[13]), ("tempo.project:project-10", "Project 10", None));
}

#[test]
fn project_shortcuts_stop_after_nine() {
    assert_eq!(project_accelerator(0), Some(Accelerator { shift: false, key: MenuKey::Digit(1) }));
    assert_eq!(project_accelerator(8), Some(Accelerator { shift: false, key: MenuKey::Digit(9) }));
    assert_eq!(project_accelerator(9), None);
}

#[test]
fn chosen_entries_become_commands() {
    assert!(matches!(dispatch("tempo.about"), Some(MenuCommand::ShowAbout)));
    assert!(matches!(dispatch("tempo.settings"), Some(MenuCommand::Navigate(Page::Settings))));
    assert!(matches!(dispatch("tempo.backup"), Some(MenuCommand::BackupData)));
    assert!(matches!(dispatch("tempo.restore"), Some(MenuCommand::RestoreData)));
    assert!(matches!(dispatch("tempo.home"), Some(MenuCommand::Navigate(Page::Home))));
    assert!(matches!(
        dispatch("tempo.evaluation"),
        Some(MenuCommand::Navigate(Page::Evaluation))
    ));
    assert!(matches!(
        dispatch("tempo.keyboard-shortcuts"),
        Some(MenuCommand::ShowKeyboardShortcuts)
    ));
    assert!(matches!(
        dispatch("tempo.project:project-7"),
        Some(MenuCommand::StartTracking(id)) if id == "project-7"
    ));
    assert!(dispatch("tempo.unknown").is_none());
    assert!(dispatch("tempo.projec").is_none());
}

#[test]
fn every_listed_entry_dispatches() {
    let projects: Vec<ProjectItem> = (1..=3).map(project).collect();
    for submenu in build_menu(&strings(), &projects) {
        for entry in &submenu.entries {
            if let MenuEntry::Item { id, .. } = entry {
                assert!(dispatch(id).is_some(), "{id}");
            }
        }
    }
}
