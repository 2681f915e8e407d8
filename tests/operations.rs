use rocketbay::config::ConfigManager;
use rocketbay::groups::{create_group, delete_group, insert_group, update_group};
use rocketbay::items::{
    apply_launch_item_update, create_launch_item, delete_launch_item, find_launch_item,
    insert_launch_item, update_launch_item,
};
use rocketbay::models::{
    AppConfig, AppSettings, CreateGroupRequest, CreateLaunchItemRequest, Group, LaunchItem, OpError,
    UpdateGroupRequest, UpdateLaunchItemRequest,
};
use rocketbay::sync::{plan_archive_load, seed_config, snapshot_at, ArchiveRead, LoadPlan};

fn request(name: &str, group: Option<&str>) -> CreateLaunchItemRequest {
    CreateLaunchItemRequest {
        name: name.to_string(),
        path: format!("/usr/bin/{}", name),
        args: vec!["--flag".to_string(), "x".to_string()],
        working_dir: None,
        icon: None,
        shortcut: None,
        group_id: group.map(|g| g.to_string()),
    }
}

fn empty_update(id: &str) -> UpdateLaunchItemRequest {
    UpdateLaunchItemRequest {
        id: id.to_string(),
        name: None,
        path: None,
        args: None,
        working_dir: None,
        icon: None,
        shortcut: None,
        group_id: None,
        order: None,
    }
}

fn group_request(name: &str) -> CreateGroupRequest {
    CreateGroupRequest { name: name.to_string(), color: None, icon: None, expanded: true }
}

#[test]
fn created_ids_are_distinct_and_fresh() {
    let mut items: Vec<LaunchItem> = Vec::new();
    for k in 0..5 {
        let it = create_launch_item(&mut items, request(&format!("tool{}", k), None)).ok().unwrap();
        assert_eq!(it.id.len(), 36);
    }
    for a in 0..items.len() {
        for b in 0..items.len() {
            if a != b {
                assert_ne!(items[a].id, items[b].id);
            }
        }
    }
}

#[test]
fn created_items_are_numbered_in_order() {
    let mut items: Vec<LaunchItem> = Vec::new();
    for k in 0..4 {
        let it = create_launch_item(&mut items, request("tool", None)).ok().unwrap();
        assert_eq!(it.order, k);
        assert_eq!(it.created_at, it.updated_at);
        assert!(!it.created_at.is_empty());
    }
    let orders: Vec<i32> = items.iter().map(|i| i.order).collect();
    assert_eq!(orders, vec![0, 1, 2, 3]);
}

#[test]
fn insert_refuses_an_id_in_use() {
    let mut items: Vec<LaunchItem> = Vec::new();
    let first = insert_launch_item(&mut items, request("a", None), "id-1".to_string(), "t0".to_string());
    assert!(first.is_ok());
    let second = insert_launch_item(&mut items, request("b", None), "id-1".to_string(), "t1".to_string());
    assert!(matches!(second, Err(OpError::DuplicateId(ref id)) if id == "id-1"));
    assert_eq!(items.len(), 1);
    assert_eq!(items[0].name, "a");
}

#[test]
fn update_supplying_only_shortcut_keeps_the_rest() {
    let mut items: Vec<LaunchItem> = Vec::new();
    let created = insert_launch_item(&mut items, request("editor", None), "e1".to_string(), "t0".to_string())
        .ok()
        .unwrap();
    let mut upd = empty_update("e1");
    upd.shortcut = Some("Ctrl+E".to_string());
    let updated = apply_launch_item_update(&mut items, upd, "t1".to_string()).ok().unwrap();
    assert_eq!(updated.name, created.name);
    assert_eq!(updated.path, created.path);
    assert_eq!(updated.args, created.args);
    assert_eq!(updated.shortcut, Some("Ctrl+E".to_string()));
    assert_eq!(updated.created_at, "t0");
    assert_eq!(updated.updated_at, "t1");
    assert_eq!(items[0].shortcut, Some("Ctrl+E".to_string()));
}

#[test]
fn create_then_set_only_shortcut() {
    let mut items: Vec<LaunchItem> = Vec::new();
    let it = create_launch_item(
        &mut items,
        CreateLaunchItemRequest {
            name: "App".to_string(),
            path: "/usr/bin/app".to_string(),
            args: vec!["-v".to_string()],
            working_dir: None,
            icon: None,
            shortcut: None,
            group_id: None,
        },
    )
    .ok()
    .unwrap();
    let mut upd = empty_update(&it.id);
    upd.shortcut = Some("Ctrl+1".to_string());
    let u = update_launch_item(&mut items, upd).ok().unwrap();
    assert_eq!(u.id, it.id);
    assert_eq!(u.name, "App");
    assert_eq!(u.path, "/usr/bin/app");
    assert_eq!(u.args, vec!["-v".to_string()]);
    assert_eq!(u.shortcut, Some("Ctrl+1".to_string()));
}

#[test]
fn empty_update_only_refreshes_time() {
    let mut items: Vec<LaunchItem> = Vec::new();
    insert_launch_item(&mut items, request("editor", Some("g")), "e1".to_string(), "t0".to_string())
        .ok()
        .unwrap();
    let updated = apply_launch_item_update(&mut items, empty_update("e1"), "t9".to_string()).ok().unwrap();
    assert_eq!(updated.name, "editor");
    assert_eq!(updated.path, "/usr/bin/editor");
    assert_eq!(updated.group_id, Some("g".to_string()));
    assert_eq!(updated.order, 0);
    assert_eq!(updated.updated_at, "t9");
}

#[test]
fn update_replaces_supplied_fields() {
    let mut items: Vec<LaunchItem> = Vec::new();
    insert_launch_item(&mut items, request("a", None), "x".to_string(), "t0".to_string()).ok().unwrap();
    let mut upd = empty_update("x");
    upd.name = Some("renamed".to_string());
    upd.args = Some(vec![]);
    upd.order = Some(7);
    upd.working_dir = Some("/tmp".to_string());
    let it = update_launch_item(&mut items, upd).ok().unwrap();
    assert_eq!(it.name, "renamed");
    assert!(it.args.is_empty());
    assert_eq!(it.order, 7);
    assert_eq!(it.working_dir, Some("/tmp".to_string()));
    assert_eq!(it.path, "/usr/bin/a");
    assert_ne!(it.updated_at, "t0");
}

#[test]
fn update_of_unknown_id_is_not_found() {
    let mut items: Vec<LaunchItem> = Vec::new();
    insert_launch_item(&mut items, request("a", None), "x".to_string(), "t0".to_string()).ok().unwrap();
    let r = update_launch_item(&mut items, empty_update("nope"));
    assert!(matches!(r, Err(OpError::NotFound(ref id)) if id == "nope"));
    assert_eq!(items[0].updated_at, "t0");
    assert_eq!(OpError::NotFound("nope".to_string()).message(), "Not found: nope");
    assert_eq!(OpError::DuplicateId("x".to_string()).message(), "Id already in use: x");
}

#[test]
fn delete_is_idempotent() {
    let mut items: Vec<LaunchItem> = Vec::new();
    insert_launch_item(&mut items, request("a", None), "a".to_string(), "t".to_string()).ok().unwrap();
    insert_launch_item(&mut items, request("b", None), "b".to_string(), "t".to_string()).ok().unwrap();
    delete_launch_item(&mut items, &"missing".to_string());
    assert_eq!(items.len(), 2);
    delete_launch_item(&mut items, &"a".to_string());
    assert_eq!(items.len(), 1);
    assert_eq!(items[0].id, "b");
    delete_launch_item(&mut items, &"a".to_string());
    assert_eq!(items.len(), 1);
    assert_eq!(find_launch_item(&items, &"a".to_string()), None);
    assert_eq!(find_launch_item(&items, &"b".to_string()), Some(0));
}

#[test]
fn deleting_a_group_removes_its_items() {
    let mut groups: Vec<Group> = Vec::new();
    let mut items: Vec<LaunchItem> = Vec::new();
    let g = create_group(&mut groups, group_request("Dev Tools")).ok().unwrap();
    let other = create_group(&mut groups, group_request("Games")).ok().unwrap();
    assert_eq!(g.order, 0);
    assert_eq!(other.order, 1);
    create_launch_item(&mut items, request("code", Some(&g.id))).ok().unwrap();
    create_launch_item(&mut items, request("git", Some(&g.id))).ok().unwrap();
    create_launch_item(&mut items, request("chess", Some(&other.id))).ok().unwrap();
    create_launch_item(&mut items, request("shell", None)).ok().unwrap();
    delete_group(&mut groups, &mut items, &g.id);
    assert_eq!(groups.len(), 1);
    assert_eq!(groups[0].name, "Games");
    let names: Vec<&str> = items.iter().map(|i| i.name.as_str()).collect();
    assert_eq!(names, vec!["chess", "shell"]);
    assert!(items.iter().all(|i| i.group_id.as_deref() != Some(g.id.as_str())));
}

#[test]
fn deleting_an_unknown_group_changes_nothing() {
    let mut groups: Vec<Group> = Vec::new();
    let mut items: Vec<LaunchItem> = Vec::new();
    insert_group(&mut groups, group_request("A"), "ga".to_string(), "t".to_string()).ok().unwrap();
    insert_launch_item(&mut items, request("a", Some("ga")), "a".to_string(), "t".to_string()).ok().unwrap();
    delete_group(&mut groups, &mut items, &"gz".to_string());
    assert_eq!(groups.len(), 1);
    assert_eq!(items.len(), 1);
}

#[test]
fn group_update_merges_and_reports_missing() {
    let mut groups: Vec<Group> = Vec::new();
    insert_group(&mut groups, group_request("A"), "ga".to_string(), "t0".to_string()).ok().unwrap();
    let upd = UpdateGroupRequest {
        id: "ga".to_string(),
        name: None,
        color: Some("#ff0000".to_string()),
        icon: None,
        expanded: Some(false),
        order: None,
    };
    let g = update_group(&mut groups, upd).ok().unwrap();
    assert_eq!(g.name, "A");
    assert_eq!(g.color, Some("#ff0000".to_string()));
    assert!(!g.expanded);
    assert_eq!(g.created_at, "t0");
    let missing = UpdateGroupRequest {
        id: "zz".to_string(),
        name: None,
        color: None,
        icon: None,
        expanded: None,
        order: None,
    };
    assert!(matches!(update_group(&mut groups, missing), Err(OpError::NotFound(_))));
}

#[test]
fn absent_archive_loads_defaults() {
    match plan_archive_load(ArchiveRead::Absent) {
        LoadPlan::WriteDefault(c) => {
            assert!(c.groups.is_empty());
            assert!(c.launch_items.is_empty());
            assert_eq!(c.settings.theme, "light");
            assert!(c.settings.auto_save);
            assert!(c.settings.show_notifications);
            assert_eq!(c.settings.window_width, 1200);
            assert_eq!(c.settings.window_height, 800);
            assert_eq!(c.version, "0.1.0");
            match plan_archive_load(ArchiveRead::Parsed(c)) {
                LoadPlan::Use(again) => assert_eq!(again.settings.theme, "light"),
                _ => panic!("a written default must load as it is"),
            }
        }
        _ => panic!("an absent archive must give the defaults"),
    }
}

#[test]
fn malformed_archive_fails() {
    match plan_archive_load(ArchiveRead::Malformed("expected value at line 1".to_string())) {
        LoadPlan::Fail(msg) => {
            assert_eq!(msg, "Failed to parse config file: expected value at line 1")
        }
        _ => panic!("a malformed archive must not load"),
    }
}

#[test]
fn snapshot_holds_the_collections() {
    let mut items: Vec<LaunchItem> = Vec::new();
    insert_launch_item(&mut items, request("a", None), "a".to_string(), "t".to_string()).ok().unwrap();
    let c = snapshot_at(Vec::new(), items, AppSettings::default(), "2024-01-01T00:00:00+00:00".to_string());
    assert_eq!(c.version, "0.1.0");
    assert_eq!(c.last_saved, "2024-01-01T00:00:00+00:00");
    assert_eq!(c.launch_items.len(), 1);
    match plan_archive_load(ArchiveRead::Parsed(c)) {
        LoadPlan::Use(back) => {
            assert_eq!(back.launch_items[0].id, "a");
            assert_eq!(back.last_saved, "2024-01-01T00:00:00+00:00");
        }
        _ => panic!("a parsed archive must load as it is"),
    }
}

#[test]
fn startup_seed_falls_back_to_defaults() {
    let c = seed_config(Err("broken".to_string()));
    assert!(c.launch_items.is_empty());
    assert_eq!(c.settings.theme, "light");
    let mut given = AppConfig::default();
    given.settings.theme = "dark".to_string();
    let kept = seed_config(Ok(given));
    assert_eq!(kept.settings.theme, "dark");
}

#[test]
fn config_paths_under_a_home() {
    assert_eq!(ConfigManager::config_dir_in("/home/u"), "/home/u/.rocketbay");
    assert_eq!(ConfigManager::config_file_in("/home/u"), "/home/u/.rocketbay/config.json");
    assert_eq!(ConfigManager::config_file_in("/home/u/"), "/home/u/.rocketbay/config.json");
    assert_eq!(ConfigManager::backup_file_in("/home/u"), "/home/u/.rocketbay/config.json.backup");
}

#[test]
fn config_path_of_current_user() {
    if let Ok(p) = ConfigManager::get_config_path_string() {
        assert!(p.ends_with(".rocketbay/config.json"));
        assert!(p.len() > ".rocketbay/config.json".len());
        assert_eq!(ConfigManager::get_config_file_path(), Ok(p.clone()));
        assert_eq!(ConfigManager::get_backup_file_path(), Ok(format!("{}.backup", p)));
        assert!(p.starts_with(&ConfigManager::get_config_dir().unwrap()));
    }
}
