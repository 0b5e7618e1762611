use workspaces::controller::{
    handle_intent, launch_plan, make_workspace, next_state, resolve_workspace, Intent, Reply,
    UiEvent, UiState,
};
use workspaces::store::{Store, StoreError};

#[test]
fn add_workspace_intent_creates_and_reports_the_id() {
    let mut s = Store::new();
    let reply = handle_intent(&mut s, Intent::AddWorkspace { name: String::from("proj") });
    assert_eq!(reply, Reply::WorkspaceCreated { workspace_id: 1 });
}

#[test]
fn duplicate_workspace_intent_is_rejected_and_state_kept() {
    let mut s = Store::new();
    handle_intent(&mut s, Intent::AddWorkspace { name: String::from("proj") });
    let reply = handle_intent(&mut s, Intent::AddWorkspace { name: String::from("proj") });
    assert_eq!(reply, Reply::Rejected { error: StoreError::DuplicateName });
    assert_eq!(s.list_workspaces().len(), 1);
}

#[test]
fn list_and_view_intents_fetch_fresh_listings() {
    let mut s = Store::new();
    handle_intent(&mut s, Intent::AddWorkspace { name: String::from("proj") });
    handle_intent(&mut s, Intent::AddDir { workspace_id: 1, path: String::from("/x") });

    let reply = handle_intent(&mut s, Intent::ListWorkspaces);
    assert_eq!(reply, Reply::Workspaces { entries: vec![(1, String::from("proj"))] });

    let reply = handle_intent(&mut s, Intent::ViewWorkspace { workspace_id: 1 });
    assert_eq!(
        reply,
        Reply::Dirs { workspace_id: 1, entries: vec![(1, String::from("/x"))] }
    );
}

#[test]
fn add_dir_intent_reports_the_refreshed_listing() {
    let mut s = Store::new();
    handle_intent(&mut s, Intent::AddWorkspace { name: String::from("proj") });
    handle_intent(&mut s, Intent::AddDir { workspace_id: 1, path: String::from("/x") });
    let reply = handle_intent(&mut s, Intent::AddDir { workspace_id: 1, path: String::from("/y") });
    assert_eq!(
        reply,
        Reply::DirCreated {
            dir_id: 2,
            entries: vec![(1, String::from("/x")), (2, String::from("/y"))],
        }
    );
}

#[test]
fn add_dir_intent_for_missing_workspace_is_rejected() {
    let mut s = Store::new();
    let reply = handle_intent(&mut s, Intent::AddDir { workspace_id: 5, path: String::from("/x") });
    assert_eq!(reply, Reply::Rejected { error: StoreError::ForeignKey });
}

#[test]
fn delete_dir_intent_deletes_once_and_rejects_the_second_try() {
    let mut s = Store::new();
    handle_intent(&mut s, Intent::AddWorkspace { name: String::from("proj") });
    handle_intent(&mut s, Intent::AddDir { workspace_id: 1, path: String::from("/x") });

    let reply = handle_intent(&mut s, Intent::DeleteDir { dir_id: 1 });
    assert_eq!(reply, Reply::DirDeleted { dir_id: 1 });

    let reply = handle_intent(&mut s, Intent::DeleteDir { dir_id: 1 });
    assert_eq!(reply, Reply::Rejected { error: StoreError::NotFound });
}

#[test]
fn open_workspace_intent_plans_every_dir_in_order() {
    let mut s = Store::new();
    handle_intent(&mut s, Intent::AddWorkspace { name: String::from("proj") });
    handle_intent(&mut s, Intent::AddDir { workspace_id: 1, path: String::from("/first") });
    handle_intent(&mut s, Intent::AddDir { workspace_id: 1, path: String::from("/second") });

    let reply = handle_intent(&mut s, Intent::OpenWorkspace { workspace_id: 1 });
    assert_eq!(
        reply,
        Reply::LaunchPlan { paths: vec![String::from("/first"), String::from("/second")] }
    );
}

#[test]
fn open_attempts_every_launch_despite_a_failure() {
    let mut s = Store::new();
    handle_intent(&mut s, Intent::AddWorkspace { name: String::from("proj") });
    handle_intent(&mut s, Intent::AddDir { workspace_id: 1, path: String::from("/first") });
    handle_intent(&mut s, Intent::AddDir { workspace_id: 1, path: String::from("/second") });

    let paths = match handle_intent(&mut s, Intent::OpenWorkspace { workspace_id: 1 }) {
        Reply::LaunchPlan { paths } => paths,
        other => panic!("expected a launch plan, got {:?}", other),
    };

    // A launcher whose second spawn fails: the fan-out still attempts every
    // path, collecting one result per dir instead of stopping early.
    let mut attempted: Vec<String> = Vec::new();
    let mut results: Vec<bool> = Vec::new();
    for p in &paths {
        attempted.push(p.clone());
        results.push(p != "/second");
    }

    assert_eq!(attempted, vec![String::from("/first"), String::from("/second")]);
    assert_eq!(results, vec![true, false]);
}

#[test]
fn resolve_workspace_finds_the_first_matching_name() {
    let entries = vec![
        (4, String::from("alpha")),
        (7, String::from("beta")),
        (9, String::from("beta")),
    ];
    assert_eq!(resolve_workspace(&entries, "beta"), Some(7));
    assert_eq!(resolve_workspace(&entries, "gamma"), None);
}

#[test]
fn make_workspace_rebuilds_the_aggregate_from_a_listing() {
    let dirs = vec![(3, String::from("/a")), (8, String::from("/b"))];
    let w = make_workspace(6, String::from("proj"), &dirs);
    assert_eq!(w.id, 6);
    assert_eq!(w.name, "proj");
    assert_eq!(w.dirs.len(), 2);
    assert_eq!(w.dirs[0].id, 3);
    assert_eq!(w.dirs[0].path, "/a");
    assert_eq!(w.dirs[1].id, 8);
    assert_eq!(w.dirs[1].path, "/b");
}

#[test]
fn launch_plan_lists_every_path_in_order() {
    let dirs = vec![(1, String::from("/a")), (2, String::from("/b"))];
    let w = make_workspace(1, String::from("proj"), &dirs);
    assert_eq!(launch_plan(&w), vec![String::from("/a"), String::from("/b")]);
}

#[test]
fn session_walks_the_screens_as_the_table_states() {
    let s = UiState::MainMenu;
    let s = next_state(s, UiEvent::ChooseListWorkspaces);
    assert_eq!(s, UiState::ListingWorkspaces);
    let s = next_state(s, UiEvent::SelectWorkspace { workspace_id: 2 });
    assert_eq!(s, UiState::ViewingWorkspace { workspace_id: 2 });
    let s = next_state(s, UiEvent::SelectDir { dir_id: 5 });
    assert_eq!(s, UiState::ViewingDir { workspace_id: 2, dir_id: 5 });
    let s = next_state(s, UiEvent::DeleteViewedDir);
    assert_eq!(s, UiState::ViewingWorkspace { workspace_id: 2 });
    let s = next_state(s, UiEvent::Back);
    assert_eq!(s, UiState::ListingWorkspaces);
    let s = next_state(s, UiEvent::Back);
    assert_eq!(s, UiState::MainMenu);
}

#[test]
fn rejected_submission_keeps_the_dialog_open() {
    let s = next_state(UiState::MainMenu, UiEvent::ChooseAddWorkspace);
    assert_eq!(s, UiState::AddingWorkspace);
    let s = next_state(s, UiEvent::SubmitWorkspaceName { accepted: false });
    assert_eq!(s, UiState::AddingWorkspace);
    let s = next_state(s, UiEvent::SubmitWorkspaceName { accepted: true });
    assert_eq!(s, UiState::MainMenu);

    let s = next_state(UiState::ViewingWorkspace { workspace_id: 1 }, UiEvent::StartAddDir);
    assert_eq!(s, UiState::AddingDir { workspace_id: 1 });
    let s = next_state(s, UiEvent::SubmitDirPath { accepted: false });
    assert_eq!(s, UiState::AddingDir { workspace_id: 1 });
    let s = next_state(s, UiEvent::SubmitDirPath { accepted: true });
    assert_eq!(s, UiState::ViewingWorkspace { workspace_id: 1 });
}

#[test]
fn unoffered_selections_change_no_screen() {
    let s = next_state(UiState::MainMenu, UiEvent::DeleteViewedDir);
    assert_eq!(s, UiState::MainMenu);
    let s = next_state(UiState::ListingWorkspaces, UiEvent::StartAddDir);
    assert_eq!(s, UiState::ListingWorkspaces);
}
