use workspaces::workspace::{Dir, Workspace};

fn create_sample_workspace() -> Workspace {
    let mut w = Workspace::new(String::from("Sample"));
    w.add_dir(Dir::new("Marcus".to_string()));
    w.add_dir(Dir::new("Temple".to_string()));

    w
}

#[test]
fn add_directory() {
    let w = create_sample_workspace();

    assert_eq!(w.dirs.len(), 2);
}

#[test]
fn remove_dir() {
    let mut w = create_sample_workspace();

    w.remove_dir("Temple");

    assert_eq!(w.dirs.len(), 1);
}

#[test]
fn remove_non_existant_dir() {
    let mut w = create_sample_workspace();

    w.remove_dir("Workspace");

    assert_eq!(w.dirs.len(), 2);
}

#[test]
fn remove_by_path_removes_exactly_the_match() {
    let mut w = Workspace::new(String::from("w"));
    w.add_dir(Dir::new(String::from("a")));
    w.add_dir(Dir::new(String::from("b")));

    let found = w.remove_dir("b");

    assert!(found);
    assert_eq!(w.dirs.len(), 1);
    assert_eq!(w.dirs[0].path, "a");
}

#[test]
fn remove_by_absent_path_reports_not_found_and_changes_nothing() {
    let mut w = Workspace::new(String::from("w"));
    w.add_dir(Dir::new(String::from("a")));
    w.add_dir(Dir::new(String::from("b")));

    let found = w.remove_dir("c");

    assert!(!found);
    assert_eq!(w.dirs.len(), 2);
    assert_eq!(w.dirs[0].path, "a");
    assert_eq!(w.dirs[1].path, "b");
}

#[test]
fn remove_by_path_takes_the_first_of_two_equal_paths() {
    let mut w = Workspace::new(String::from("w"));
    w.add_dir(Dir::new(String::from("a")).id(1));
    w.add_dir(Dir::new(String::from("a")).id(2));

    let found = w.remove_dir("a");

    assert!(found);
    assert_eq!(w.dirs.len(), 1);
    assert_eq!(w.dirs[0].id, 2);
}

#[test]
fn builders_assign_sentinel_then_confirmed_ids() {
    let d = Dir::new(String::from("/opt"));
    assert_eq!(d.id, 0);
    let d = d.id(7);
    assert_eq!(d.id, 7);
    assert_eq!(d.path, "/opt");

    let mut w = Workspace::new(String::from("home"));
    assert_eq!(w.id, 0);
    w.id(3);
    assert_eq!(w.id, 3);
    assert_eq!(w.name, "home");
}

#[test]
fn dir_iter_walks_the_entries_in_order() {
    let w = create_sample_workspace();
    let paths: Vec<&str> = w.dir_iter().iter().map(|d| d.path.as_str()).collect();
    assert_eq!(paths, vec!["Marcus", "Temple"]);
}
