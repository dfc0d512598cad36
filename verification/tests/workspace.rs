use exec_session::workspace::plan_workspace;

#[test]
fn workspace_paths_are_laid_out_under_the_root() {
    let plan = plan_workspace();
    assert_eq!(plan.session_id.len(), 36);
    let root = b"/work/executions/";
    assert_eq!(&plan.work_dir[..root.len()], root);
    assert_eq!(&plan.work_dir[root.len()..], &plan.session_id[..]);

    let mut source = plan.work_dir.clone();
    source.extend_from_slice(b"/main.rs");
    assert_eq!(plan.source_path, source);

    let mut binary = plan.work_dir.clone();
    binary.extend_from_slice(b"/main");
    assert_eq!(plan.binary_path, binary);
}

#[test]
fn session_id_uses_hyphenated_lowercase_hex() {
    let plan = plan_workspace();
    for (i, b) in plan.session_id.iter().enumerate() {
        if i == 8 || i == 13 || i == 18 || i == 23 {
            assert_eq!(*b, b'-');
        } else {
            assert!(b.is_ascii_hexdigit() && !b.is_ascii_uppercase());
        }
    }
}

#[test]
fn distinct_sessions_get_distinct_workspaces() {
    let a = plan_workspace();
    let b = plan_workspace();
    assert_ne!(a.session_id, b.session_id);
    assert_ne!(a.work_dir, b.work_dir);
}
