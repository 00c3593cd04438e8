use tools_shell::config::WindowConfig;
use tools_shell::path::{cache_directory, DirPath};
use tools_shell::startup::plan_startup;

fn segments(parts: &[&str]) -> Vec<String> {
    parts.iter().map(|p| p.to_string()).collect()
}

#[test]
fn cache_directory_appends_cache_segment() {
    let base = DirPath::from_segments(segments(&["home", "user", "tools"]));
    let derived = cache_directory(base);
    assert_eq!(derived.segments, segments(&["home", "user", "tools", "cache"]));
}

#[test]
fn cache_directory_of_empty_base() {
    let base = DirPath::empty();
    let derived = cache_directory(base);
    assert_eq!(derived.segments, segments(&["cache"]));
}

#[test]
fn push_appends_one_segment() {
    let mut path = DirPath::from_segments(segments(&["a"]));
    path.push("b".to_string());
    assert_eq!(path.segments, segments(&["a", "b"]));
    assert_eq!(path.len(), 2);
}

#[test]
fn empty_path_has_no_segments() {
    let path = DirPath::empty();
    assert_eq!(path.len(), 0);
    assert!(path.segments.is_empty());
}

#[test]
fn fixed_config_holds_the_literals() {
    let c = WindowConfig::fixed();
    assert_eq!(c.label, "main");
    assert_eq!(c.url, "index.html");
    assert_eq!(c.title, "Tools");
    assert_eq!(c.width, 850);
    assert_eq!(c.height, 525);
    assert_eq!(c.width as f64, 850.0);
    assert_eq!(c.height as f64, 525.0);
    assert!(c.visible);
    assert!(c.drag_drop_disabled);
    assert!(c.centered);
    assert!(c.closable);
    assert!(c.resizable);
    assert!(c.decorations);
    assert!(c.focused);
}

#[test]
fn no_plan_without_working_directory() {
    let plan = plan_startup(None);
    assert!(plan.is_none());
}

#[test]
fn plan_points_cache_under_working_directory() {
    let cwd = DirPath::from_segments(segments(&["opt", "tools"]));
    let plan = plan_startup(Some(cwd)).expect("a resolved directory yields a plan");
    assert_eq!(plan.data_directory.segments, segments(&["opt", "tools", "cache"]));
    assert_eq!(plan.window.title, "Tools");
    assert_eq!(plan.window.width, 850);
    assert_eq!(plan.window.height, 525);
}
