use docnav::direct::config_paths::{
    resolve_config_paths, resolve_config_paths_from_root, ConfigPathOrigin, ConfigPathOverrides, ConfigSourceLevel,
};
use docnav::direct::config_paths::{project_root_step, root_marker_path, RootStep};
use std::path::Path;

fn joined(base: &str, parts: &[&str]) -> String {
    let mut path = Path::new(base).to_path_buf();
    for part in parts {
        path = path.join(part);
    }
    path.to_string_lossy().into_owned()
}

#[test]
fn falls_back_to_startup_cwd_for_project_root_and_user_config_dir() {
    let cwd = "/docnav-verification-missing/cwd-fallback";

    let (project, user) = resolve_config_paths("adapter", None, cwd, ConfigPathOverrides::default());

    assert_eq!(project.path, joined(cwd, &[".docnav", "adapter.json"]));
    assert_eq!(user.path, joined(cwd, &["adapter.json"]));
}

#[test]
fn resolves_relative_overrides_against_startup_cwd() {
    let cwd = "/docnav-verification-missing/relative-overrides";

    let (project, user) = resolve_config_paths(
        "adapter",
        None,
        cwd,
        ConfigPathOverrides {
            project: Some("fixtures/project.json".to_string()),
            user: Some("fixtures/user.json".to_string()),
        },
    );

    assert_eq!(project.path, joined(cwd, &["fixtures/project.json"]));
    assert_eq!(project.origin, ConfigPathOrigin::Override);
    assert_eq!(user.path, joined(cwd, &["fixtures/user.json"]));
    assert_eq!(user.origin, ConfigPathOrigin::Override);
}

#[test]
fn default_paths_use_project_root_and_user_config_dir() {
    let (project, user) = resolve_config_paths_from_root(
        "docnav-markdown",
        Some("/home/me/.user-config"),
        "/work/root/docs/guide",
        "/work/root",
        ConfigPathOverrides::default(),
    );
    assert_eq!(project.level, ConfigSourceLevel::Project);
    assert_eq!(project.path, "/work/root/.docnav/docnav-markdown.json");
    assert_eq!(project.origin, ConfigPathOrigin::Default);
    assert_eq!(user.level, ConfigSourceLevel::User);
    assert_eq!(user.path, "/home/me/.user-config/docnav-markdown.json");
    assert_eq!(user.origin, ConfigPathOrigin::Default);
}

#[test]
fn absolute_overrides_are_kept() {
    let (project, user) = resolve_config_paths_from_root(
        "adapter",
        None,
        "/work",
        "/work",
        ConfigPathOverrides { project: Some("/etc/project.json".to_string()), user: None },
    );
    assert_eq!(project.path, "/etc/project.json");
    assert_eq!(project.origin, ConfigPathOrigin::Override);
    assert_eq!(user.path, "/work/adapter.json");
    assert_eq!(user.origin, ConfigPathOrigin::Default);
}

#[test]
fn root_step_stops_at_a_marked_candidate_else_goes_up_or_falls_back() {
    assert_eq!(
        project_root_step("/w/p".to_string(), true, Some("/w".to_string())),
        RootStep::Found("/w/p".to_string())
    );
    assert_eq!(
        project_root_step("/w/p".to_string(), false, Some("/w".to_string())),
        RootStep::Up("/w".to_string())
    );
    assert_eq!(project_root_step("/".to_string(), false, None), RootStep::Fallback);
    assert_eq!(root_marker_path("/w/p"), joined("/w/p", &[".docnav"]));
}
