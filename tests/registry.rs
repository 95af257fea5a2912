use task_manager::registry::TasksManager;
use task_manager::storage::{save_report, save_target, storage_path, LoadOutcome, SaveOutcome};
use task_manager::task::{Priority, Task};
use task_manager::timestamp::Timestamp;

fn at(year: i32, month: u32, day: u32, hour: u32, minute: u32, second: u32) -> Timestamp {
    Timestamp { year, month, day, hour, minute, second, nanosecond: 0, offset_seconds: 3600 }
}

fn task(name: &str, description: &str, priority: Priority) -> Task {
    Task::with_created_at(
        name.to_string(),
        description.to_string(),
        priority,
        at(2024, 3, 5, 9, 7, 3),
    )
}

fn names(m: &TasksManager) -> Vec<String> {
    m.tasks().iter().map(|t| t.name().clone()).collect()
}

#[test]
fn buy_milk_scenario() {
    let mut m = TasksManager::new();
    m.add_task(task("Buy milk", "2%", Priority::Low));
    let listed = m.list();
    assert_eq!(listed.len(), 1);
    assert_eq!(
        listed[0],
        "Name: Buy milk | Priority: Low | Added: 05.03.2024 at 09:07:03\nDescription: 2%\n"
    );
    assert_eq!(m.remove_task("Buy milk"), Ok("Task \"Buy milk\" removed successfully".to_string()));
    assert!(m.list().is_empty());
}

#[test]
fn find_on_empty_registry_is_not_found() {
    let m = TasksManager::new();
    assert_eq!(m.find_task("Ghost"), None);
    assert_eq!(m.find_report("Ghost"), Err("Task \"Ghost\" does not exist".to_string()));
}

#[test]
fn add_then_find_gives_last_position() {
    let mut m = TasksManager::new();
    m.add_task(task("a", "", Priority::Low));
    m.add_task(task("b", "", Priority::Medium));
    m.add_task(task("c", "d", Priority::High));
    assert_eq!(m.find_task("c"), Some(2));
    let t = m.get(2).unwrap();
    assert_eq!(t.name(), "c");
    assert_eq!(t.description(), "d");
    assert_eq!(t.priority(), Priority::High);
    assert_eq!(m.len(), 3);
    assert!(m.get(3).is_none());
}

#[test]
fn find_is_case_sensitive_and_exact() {
    let mut m = TasksManager::new();
    m.add_task(task("Write", "", Priority::Low));
    assert_eq!(m.find_task("write"), None);
    assert_eq!(m.find_task("Writ"), None);
    assert_eq!(m.find_task("Write"), Some(0));
}

#[test]
fn remove_then_find_reaches_later_duplicate() {
    let mut m = TasksManager::new();
    m.add_task(task("x", "first", Priority::Low));
    m.add_task(task("y", "", Priority::Low));
    m.add_task(task("x", "second", Priority::High));
    assert!(m.remove_task("x").is_ok());
    assert_eq!(m.find_task("x"), Some(1));
    assert_eq!(m.get(1).unwrap().description(), "second");
    assert!(m.remove_task("x").is_ok());
    assert_eq!(m.find_task("x"), None);
    assert_eq!(names(&m), vec!["y".to_string()]);
}

#[test]
fn remove_shifts_later_tasks() {
    let mut m = TasksManager::new();
    for n in ["a", "b", "c", "d"] {
        m.add_task(task(n, "", Priority::Low));
    }
    assert!(m.remove_task("b").is_ok());
    assert_eq!(names(&m), vec!["a", "c", "d"]);
}

#[test]
fn remove_missing_is_error_and_changes_nothing() {
    let mut m = TasksManager::new();
    m.add_task(task("a", "", Priority::Low));
    assert_eq!(m.remove_task("z"), Err("Task \"z\" does not exist".to_string()));
    assert_eq!(names(&m), vec!["a"]);
}

#[test]
fn edit_replaces_only_its_position() {
    let mut m = TasksManager::new();
    for n in ["a", "b", "c"] {
        m.add_task(task(n, "old", Priority::Low));
    }
    let replacement = Task::with_created_at(
        "B".to_string(),
        "new".to_string(),
        Priority::High,
        at(2025, 12, 31, 23, 59, 58),
    );
    assert_eq!(m.edit_task("b", replacement), Ok("Task \"b\" updated successfully".to_string()));
    assert_eq!(names(&m), vec!["a", "B", "c"]);
    let edited = m.get(1).unwrap();
    assert_eq!(edited.description(), "new");
    assert_eq!(edited.created_at(), at(2025, 12, 31, 23, 59, 58));
    assert_eq!(m.get(0).unwrap().description(), "old");
    assert_eq!(m.get(2).unwrap().description(), "old");
}

#[test]
fn edit_missing_is_error() {
    let mut m = TasksManager::new();
    m.add_task(task("a", "", Priority::Low));
    let r = m.edit_task("q", task("q", "", Priority::Low));
    assert_eq!(r, Err("Task \"q\" does not exist".to_string()));
    assert_eq!(names(&m), vec!["a"]);
}

#[test]
fn find_report_renders_first_match() {
    let mut m = TasksManager::new();
    m.add_task(task("t", "one", Priority::Medium));
    m.add_task(task("t", "two", Priority::High));
    assert_eq!(
        m.find_report("t"),
        Ok("Task \"t\" found\nName: t | Priority: Medium | Added: 05.03.2024 at 09:07:03\nDescription: one\n"
            .to_string())
    );
}

#[test]
fn load_replaces_with_saved_tasks() {
    let mut saved = TasksManager::new();
    saved.add_task(task("a", "1", Priority::High));
    saved.add_task(task("b", "2", Priority::Medium));
    let snapshot: Vec<Task> = saved.tasks().clone();
    let mut m = TasksManager::new();
    m.add_task(task("old", "", Priority::Low));
    assert_eq!(m.apply_load("x", LoadOutcome::Parsed(snapshot)), Ok("Data loaded".to_string()));
    assert_eq!(m.list(), saved.list());
    assert_eq!(names(&m), vec!["a", "b"]);
}

#[test]
fn load_of_missing_file_keeps_tasks() {
    let mut m = TasksManager::new();
    m.add_task(task("keep", "me", Priority::High));
    let before = m.list();
    assert_eq!(
        m.apply_load("nothing", LoadOutcome::Missing),
        Err("File \"nothing\" does not exist".to_string())
    );
    assert_eq!(m.list(), before);
}

#[test]
fn load_failures_keep_tasks() {
    let mut m = TasksManager::new();
    m.add_task(task("keep", "", Priority::Low));
    assert_eq!(
        m.apply_load("f", LoadOutcome::OpenFailed("denied".to_string())),
        Err("Error opening file: denied".to_string())
    );
    assert_eq!(
        m.apply_load("f", LoadOutcome::ParseFailed("bad json".to_string())),
        Err("Error loading data: bad json".to_string())
    );
    assert_eq!(names(&m), vec!["keep"]);
}

#[test]
fn save_reports() {
    assert_eq!(save_report(SaveOutcome::AlreadyExists), Err("File already exists".to_string()));
    assert_eq!(
        save_report(SaveOutcome::CreateFailed("no space".to_string())),
        Err("Error creating file: no space".to_string())
    );
    assert_eq!(
        save_report(SaveOutcome::WriteFailed("broken".to_string())),
        Err("Error saving data: broken".to_string())
    );
    assert_eq!(save_report(SaveOutcome::Written), Ok("Data saved".to_string()));
}

#[test]
fn storage_path_appends_json() {
    assert_eq!(storage_path("x"), "x.json");
    assert_eq!(storage_path("a.json"), "a.json.json");
    assert_eq!(storage_path(""), ".json");
}

#[test]
fn save_never_targets_an_existing_file() {
    assert_eq!(save_target("x", false), Ok("x.json".to_string()));
    assert_eq!(save_target("x", true), Err("File already exists".to_string()));
}
