use aionui_ai_agent::project_tree::{describe_project, render_project_tree, render_project_tree_default};

fn rels(names: &[&str]) -> Vec<String> {
    names.iter().map(|s| s.to_string()).collect()
}

#[test]
fn empty_project_renders_placeholder() {
    assert_eq!(render_project_tree(&rels(&[]), 100), "(project is empty)");
    assert_eq!(render_project_tree(&rels(&[""]), 100), "(project is empty)");
}

#[test]
fn lists_files_sorted_and_prefixed() {
    let out = render_project_tree(&rels(&["src/main.rs", "Cargo.toml", "src/lib.rs"]), 100);
    let lines: Vec<&str> = out.lines().collect();
    assert_eq!(lines, vec!["./Cargo.toml", "./src/lib.rs", "./src/main.rs"]);
}

#[test]
fn truncates_with_marker() {
    let names: Vec<String> = (0..20).map(|i| format!("f{i:02}.txt")).collect();
    let out = render_project_tree(&names, 5);
    let lines: Vec<&str> = out.lines().collect();
    assert_eq!(lines.len(), 6);
    assert!(lines[5].contains("truncated"));
    assert_eq!(lines[5], "… (listing truncated at 5 entries; use list_dir for deeper subtrees)");
    assert_eq!(lines[0], "./f00.txt");
}

#[test]
fn the_walk_does_not_show() {
    let forward = rels(&["a", "b", "c"]);
    let backward = rels(&["c", "b", "a"]);
    assert_eq!(render_project_tree(&forward, 3), render_project_tree(&backward, 3));
    assert_eq!(render_project_tree(&forward, 2), render_project_tree(&backward, 2));
}

#[test]
fn a_walk_ends_when_it_has_seen_enough() {
    let mut names: Vec<String> = (0..5).map(|i| format!("z{i}")).collect();
    names.push("a".to_string());
    let out = render_project_tree(&names, 0);
    assert!(out.starts_with("./z0\n"), "{out}");
}

#[test]
fn the_usual_number_of_files_is_listed() {
    let names: Vec<String> = (0..401).map(|i| format!("f{i:03}")).collect();
    let out = render_project_tree_default(&names);
    assert!(out.ends_with("… (listing truncated at 400 entries; use list_dir for deeper subtrees)"));
    assert_eq!(out.lines().count(), 401);
}

#[test]
fn projects_that_cannot_be_listed_are_told() {
    assert_eq!(describe_project(None), "(failed to enumerate project)");
    let files = vec!["a.rs".to_string()];
    assert_eq!(describe_project(Some(&files)), render_project_tree_default(&files));
}
