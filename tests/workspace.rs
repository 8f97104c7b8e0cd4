use hyprrdrop::{
    clients_with_class, find_workspace, is_special_workspace, prefix_workspace_name,
    prepend_workspace_prefix, windows_on, WorkspaceRef,
};

fn ws(id: i32, name: &str) -> WorkspaceRef {
    WorkspaceRef {
        id,
        name: name.to_string(),
    }
}

#[test]
fn workspace_name_has_prefix() {
    assert_eq!(prepend_workspace_prefix("term"), "hyprrdrop-term");
    assert_eq!(prepend_workspace_prefix(""), "hyprrdrop-");
    assert_eq!(prepend_workspace_prefix(" Term "), "hyprrdrop- Term ");
}

#[test]
fn distinct_names_stay_distinct() {
    assert_ne!(prepend_workspace_prefix("a"), prepend_workspace_prefix("b"));
    assert_ne!(prepend_workspace_prefix("a"), prepend_workspace_prefix("ab"));
}

#[test]
fn other_prefix() {
    assert_eq!(prefix_workspace_name("drop", "music"), "drop-music");
}

#[test]
fn finds_first_workspace_holding_name() {
    let workspaces = vec![
        ws(1, "1"),
        ws(-98, "special:hyprrdrop-term"),
        ws(-97, "special:hyprrdrop-terminal"),
    ];
    assert_eq!(find_workspace(&workspaces, "hyprrdrop-term"), Some(1));
    assert_eq!(find_workspace(&workspaces, "hyprrdrop-terminal"), Some(2));
    assert_eq!(find_workspace(&workspaces, "hyprrdrop-music"), None);
    assert_eq!(find_workspace(&vec![], "x"), None);
}

#[test]
fn special_workspaces_are_recognised() {
    assert!(is_special_workspace("special:hyprrdrop-term"));
    assert!(!is_special_workspace("3"));
}

#[test]
fn selects_clients_by_class() {
    let classes = vec![
        "kitty".to_string(),
        "firefox".to_string(),
        "kitty".to_string(),
        "Kitty".to_string(),
    ];
    assert_eq!(clients_with_class(&classes, "kitty"), vec![0, 2]);
    assert_eq!(clients_with_class(&classes, "mpv"), Vec::<usize>::new());
}

#[test]
fn selects_windows_by_workspace_name_or_id() {
    let windows = vec![
        ws(1, "1"),
        ws(-98, "special:hyprrdrop-term"),
        ws(-98, "renamed"),
        ws(5, "special:hyprrdrop-term"),
    ];
    let target = ws(-98, "special:hyprrdrop-term");
    assert_eq!(windows_on(&windows, &target), vec![1, 2, 3]);
    assert_eq!(windows_on(&windows, &ws(7, "none")), Vec::<usize>::new());
}
