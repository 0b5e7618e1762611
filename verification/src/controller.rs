//! The workflow controller: the one component that sequences multi-step
//! operations. The presentation layer hands it typed intents and renders the
//! replies; the controller decides what is persisted and what stays
//! transient, and surfaces every storage error instead of swallowing it.

use crate::store::{
    create_dir_ok, create_workspace_ok, delete_dir_ok, entries_match_dirs,
    entries_match_workspaces, Store, StoreError,
};
use crate::workspace::{Dir, Workspace};
use vstd::prelude::*;

verus! {

/// A typed user intent, as the presentation layer issues it.
pub enum Intent {
    /// Create a workspace under this name.
    AddWorkspace { name: String },
    /// Fetch all workspaces, as `(id, name)` pairs.
    ListWorkspaces,
    /// Fetch the dir listing of one workspace.
    ViewWorkspace { workspace_id: i32 },
    /// Store one more dir under a workspace.
    AddDir { workspace_id: i32, path: String },
    /// Delete one stored dir by its id.
    DeleteDir { dir_id: i32 },
    /// Plan the fan-out launch of every dir of a workspace.
    OpenWorkspace { workspace_id: i32 },
}

/// The controller's answer to one intent: a result payload, or the error to
/// report.
#[derive(Debug, PartialEq)]
pub enum Reply {
    /// The workspace was created under this newly assigned id.
    WorkspaceCreated { workspace_id: i32 },
    /// All workspaces, freshly fetched.
    Workspaces { entries: Vec<(i32, String)> },
    /// The dir listing of one workspace, freshly fetched.
    Dirs { workspace_id: i32, entries: Vec<(i32, String)> },
    /// The dir was stored under this newly assigned id; `entries` is the
    /// freshly re-fetched listing, never a cached one patched in place.
    DirCreated { dir_id: i32, entries: Vec<(i32, String)> },
    /// The dir row with this id was deleted.
    DirDeleted { dir_id: i32 },
    /// One path per dir of the workspace, in order: every dir is attempted,
    /// whatever becomes of the other launches.
    LaunchPlan { paths: Vec<String> },
    /// The operation failed; prior state is untouched.
    Rejected { error: StoreError },
}

/// Handles one intent against the store and answers with the payload or the
/// error. Failed operations leave the store exactly as it was.
pub fn handle_intent(store: &mut Store, intent: Intent) -> (r: Reply)
    requires
        old(store).wf(),
        old(store).next_workspace_id < i32::MAX,
        old(store).next_dir_id < i32::MAX,
    ensures
        final(store).wf(),
        match intent {
            Intent::AddWorkspace { name } => {
                &&& (r matches Reply::WorkspaceCreated { workspace_id } ==> create_workspace_ok(
                    *old(store),
                    name@,
                    *final(store),
                    workspace_id,
                ))
                &&& (r is WorkspaceCreated <==> !old(store).has_workspace_name(name@))
                &&& (!(r is WorkspaceCreated) ==> r == (Reply::Rejected {
                    error: StoreError::DuplicateName,
                }) && *final(store) == *old(store))
            },
            Intent::ListWorkspaces => {
                &&& *final(store) == *old(store)
                &&& r matches Reply::Workspaces { entries } && entries_match_workspaces(
                    entries@,
                    old(store).workspaces@,
                )
            },
            Intent::ViewWorkspace { workspace_id } => {
                &&& *final(store) == *old(store)
                &&& r matches Reply::Dirs { workspace_id: w, entries } && w == workspace_id
                    && entries_match_dirs(entries@, old(store).dirs_of(workspace_id))
            },
            Intent::AddDir { workspace_id, path } => {
                &&& (r matches Reply::DirCreated { dir_id, entries } ==> create_dir_ok(
                    *old(store),
                    workspace_id,
                    path@,
                    *final(store),
                    dir_id,
                ) && entries_match_dirs(entries@, final(store).dirs_of(workspace_id)))
                &&& (r is DirCreated <==> old(store).has_workspace_id(workspace_id))
                &&& (!(r is DirCreated) ==> r == (Reply::Rejected {
                    error: StoreError::ForeignKey,
                }) && *final(store) == *old(store))
            },
            Intent::DeleteDir { dir_id } => {
                &&& (r matches Reply::DirDeleted { dir_id: d } ==> d == dir_id && delete_dir_ok(
                    *old(store),
                    dir_id,
                    *final(store),
                ))
                &&& (r is DirDeleted <==> old(store).has_dir_id(dir_id))
                &&& (!(r is DirDeleted) ==> r == (Reply::Rejected { error: StoreError::NotFound })
                    && *final(store) == *old(store))
            },
            Intent::OpenWorkspace { workspace_id } => {
                &&& *final(store) == *old(store)
                &&& r matches Reply::LaunchPlan { paths } && paths@.len() == old(store).dirs_of(
                    workspace_id,
                ).len() && (forall|i: int|
                    0 <= i < paths@.len() ==> (#[trigger] paths@[i])@ == old(store).dirs_of(
                        workspace_id,
                    )[i].path@)
            },
        },
{
    match intent {
        Intent::AddWorkspace { name } => match store.create_workspace(name) {
            Ok(id) => Reply::WorkspaceCreated { workspace_id: id },
            Err(e) => Reply::Rejected { error: e },
        },
        Intent::ListWorkspaces => Reply::Workspaces { entries: store.list_workspaces() },
        Intent::ViewWorkspace { workspace_id } => Reply::Dirs {
            workspace_id,
            entries: store.list_dirs(workspace_id),
        },
        Intent::AddDir { workspace_id, path } => match store.create_dir(workspace_id, path) {
            Ok(id) => Reply::DirCreated { dir_id: id, entries: store.list_dirs(workspace_id) },
            Err(e) => Reply::Rejected { error: e },
        },
        Intent::DeleteDir { dir_id } => match store.delete_dir(dir_id) {
            Ok(_) => Reply::DirDeleted { dir_id },
            Err(e) => Reply::Rejected { error: e },
        },
        Intent::OpenWorkspace { workspace_id } => {
            let entries = store.list_dirs(workspace_id);
            let mut paths: Vec<String> = Vec::new();
            let mut i: usize = 0;
            while i < entries.len()
                invariant
                    paths@.len() == i,
                    i <= entries@.len(),
                    entries_match_dirs(entries@, old(store).dirs_of(workspace_id)),
                    *store == *old(store),
                    forall|k: int|
                        0 <= k < i ==> (#[trigger] paths@[k])@ == old(store).dirs_of(
                            workspace_id,
                        )[k].path@,
                decreases entries@.len() - i,
            {
                paths.push(entries[i].1.clone());
                i = i + 1;
            }
            Reply::LaunchPlan { paths }
        },
    }
}

/// The id under `name` in a freshly fetched `(id, name)` listing, if the
/// name occurs; the first occurrence wins. The name-to-id view is rebuilt
/// from a fresh listing on every display, never incrementally maintained.
pub fn resolve_workspace(entries: &Vec<(i32, String)>, name: &str) -> (r: Option<i32>)
    ensures
        match r {
            Some(id) => exists|i: int|
                {
                    &&& 0 <= i < entries@.len()
                    &&& (#[trigger] entries@[i]).0 == id
                    &&& entries@[i].1@ == name@
                    &&& forall|k: int| 0 <= k < i ==> entries@[k].1@ != name@
                },
            None => forall|i: int| 0 <= i < entries@.len() ==> (#[trigger] entries@[i]).1@ != name@,
        },
{
    let key: String = name.to_owned();
    let mut i: usize = 0;
    while i < entries.len()
        invariant
            key@ == name@,
            i <= entries@.len(),
            forall|k: int| 0 <= k < i ==> (#[trigger] entries@[k]).1@ != name@,
        decreases entries@.len() - i,
    {
        if entries[i].1 == key {
            return Some(entries[i].0);
        }
        i = i + 1;
    }
    None
}

/// Reconstructs a workspace aggregate from a previously fetched `(id, path)`
/// listing, without a fresh storage read.
pub fn make_workspace(workspace_id: i32, name: String, dirs: &Vec<(i32, String)>) -> (w: Workspace)
    ensures
        w.id == workspace_id,
        w.name == name,
        w.dirs@.len() == dirs@.len(),
        forall|i: int|
            0 <= i < dirs@.len() ==> (#[trigger] w.dirs@[i]).id == dirs@[i].0 && w.dirs@[i].path@
                == dirs@[i].1@,
{
    let mut w = Workspace::new(name);
    w.id(workspace_id);
    let mut i: usize = 0;
    while i < dirs.len()
        invariant
            w.id == workspace_id,
            w.name == name,
            w.dirs@.len() == i,
            i <= dirs@.len(),
            forall|k: int|
                0 <= k < i ==> (#[trigger] w.dirs@[k]).id == dirs@[k].0 && w.dirs@[k].path@
                    == dirs@[k].1@,
        decreases dirs@.len() - i,
    {
        w.add_dir(Dir::new(dirs[i].1.clone()).id(dirs[i].0));
        i = i + 1;
    }
    w
}

/// One screen of the interactive session.
#[derive(Clone, Copy, PartialEq, Eq, Structural, Debug)]
pub enum UiState {
    /// The opening menu.
    MainMenu,
    /// The listing of all workspaces.
    ListingWorkspaces,
    /// The name dialog of a new workspace.
    AddingWorkspace,
    /// The dir listing of one workspace.
    ViewingWorkspace { workspace_id: i32 },
    /// The new-path input under one workspace.
    AddingDir { workspace_id: i32 },
    /// The dialog of one dir of one workspace.
    ViewingDir { workspace_id: i32, dir_id: i32 },
}

/// One discrete user selection driving the session; no transition is
/// timer-based or background.
#[derive(Clone, Copy, PartialEq, Eq, Structural, Debug)]
pub enum UiEvent {
    /// The main-menu choice that lists all workspaces.
    ChooseListWorkspaces,
    /// The main-menu choice that opens the name dialog.
    ChooseAddWorkspace,
    /// Submitting the name dialog; `accepted` reports whether the create
    /// succeeded, and a failure keeps the dialog open.
    SubmitWorkspaceName { accepted: bool },
    /// Picking one workspace from the listing.
    SelectWorkspace { workspace_id: i32 },
    /// Opening the new-path input of the viewed workspace.
    StartAddDir,
    /// Submitting the new-path input; `accepted` reports whether the insert
    /// succeeded, and a failure keeps the input open.
    SubmitDirPath { accepted: bool },
    /// Picking one dir of the viewed workspace.
    SelectDir { dir_id: i32 },
    /// The delete button of the viewed dir.
    DeleteViewedDir,
    /// The open button of the viewed dir.
    OpenViewedDir,
    /// Leaving the current screen.
    Back,
}

/// The session's transition table: which screen each user selection leads
/// to. A selection that the current screen does not offer changes nothing.
pub open spec fn spec_next_state(state: UiState, event: UiEvent) -> UiState {
    match (state, event) {
        (UiState::MainMenu, UiEvent::ChooseListWorkspaces) => UiState::ListingWorkspaces,
        (UiState::MainMenu, UiEvent::ChooseAddWorkspace) => UiState::AddingWorkspace,
        (UiState::AddingWorkspace, UiEvent::SubmitWorkspaceName { accepted }) => if accepted {
            UiState::MainMenu
        } else {
            UiState::AddingWorkspace
        },
        (UiState::AddingWorkspace, UiEvent::Back) => UiState::MainMenu,
        (UiState::ListingWorkspaces, UiEvent::SelectWorkspace { workspace_id }) => UiState::ViewingWorkspace { workspace_id },
        (UiState::ListingWorkspaces, UiEvent::Back) => UiState::MainMenu,
        (UiState::ViewingWorkspace { workspace_id }, UiEvent::StartAddDir) => UiState::AddingDir { workspace_id },
        (UiState::ViewingWorkspace { workspace_id }, UiEvent::SelectDir { dir_id }) => UiState::ViewingDir { workspace_id, dir_id },
        (UiState::ViewingWorkspace { .. }, UiEvent::Back) => UiState::ListingWorkspaces,
        (UiState::AddingDir { workspace_id }, UiEvent::SubmitDirPath { accepted }) => if accepted {
            UiState::ViewingWorkspace { workspace_id }
        } else {
            UiState::AddingDir { workspace_id }
        },
        (UiState::AddingDir { workspace_id }, UiEvent::Back) => UiState::ViewingWorkspace { workspace_id },
        (UiState::ViewingDir { workspace_id, .. }, UiEvent::DeleteViewedDir) => UiState::ViewingWorkspace { workspace_id },
        (UiState::ViewingDir { workspace_id, .. }, UiEvent::OpenViewedDir) => UiState::ViewingWorkspace { workspace_id },
        (UiState::ViewingDir { workspace_id, .. }, UiEvent::Back) => UiState::ViewingWorkspace { workspace_id },
        _ => state,
    }
}

/// Applies one user selection to the session screen, exactly as the
/// transition table states.
pub fn next_state(state: UiState, event: UiEvent) -> (s: UiState)
    ensures
        s == spec_next_state(state, event),
{
    match (state, event) {
        (UiState::MainMenu, UiEvent::ChooseListWorkspaces) => UiState::ListingWorkspaces,
        (UiState::MainMenu, UiEvent::ChooseAddWorkspace) => UiState::AddingWorkspace,
        (UiState::AddingWorkspace, UiEvent::SubmitWorkspaceName { accepted }) => if accepted {
            UiState::MainMenu
        } else {
            UiState::AddingWorkspace
        },
        (UiState::AddingWorkspace, UiEvent::Back) => UiState::MainMenu,
        (UiState::ListingWorkspaces, UiEvent::SelectWorkspace { workspace_id }) => UiState::ViewingWorkspace { workspace_id },
        (UiState::ListingWorkspaces, UiEvent::Back) => UiState::MainMenu,
        (UiState::ViewingWorkspace { workspace_id }, UiEvent::StartAddDir) => UiState::AddingDir { workspace_id },
        (UiState::ViewingWorkspace { workspace_id }, UiEvent::SelectDir { dir_id }) => UiState::ViewingDir { workspace_id, dir_id },
        (UiState::ViewingWorkspace { .. }, UiEvent::Back) => UiState::ListingWorkspaces,
        (UiState::AddingDir { workspace_id }, UiEvent::SubmitDirPath { accepted }) => if accepted {
            UiState::ViewingWorkspace { workspace_id }
        } else {
            UiState::AddingDir { workspace_id }
        },
        (UiState::AddingDir { workspace_id }, UiEvent::Back) => UiState::ViewingWorkspace { workspace_id },
        (UiState::ViewingDir { workspace_id, .. }, UiEvent::DeleteViewedDir) => UiState::ViewingWorkspace { workspace_id },
        (UiState::ViewingDir { workspace_id, .. }, UiEvent::OpenViewedDir) => UiState::ViewingWorkspace { workspace_id },
        (UiState::ViewingDir { workspace_id, .. }, UiEvent::Back) => UiState::ViewingWorkspace { workspace_id },
        (s, _) => s,
    }
}

/// The fan-out launch plan of a workspace: one path per dir, in order. Every
/// dir is in the plan, so attempting one launch never depends on another's
/// outcome.
pub fn launch_plan(w: &Workspace) -> (paths: Vec<String>)
    ensures
        paths@.len() == w.dirs@.len(),
        forall|i: int| 0 <= i < paths@.len() ==> (#[trigger] paths@[i])@ == w.dirs@[i].path@,
{
    let mut paths: Vec<String> = Vec::new();
    let mut i: usize = 0;
    while i < w.dirs.len()
        invariant
            paths@.len() == i,
            i <= w.dirs@.len(),
            forall|k: int| 0 <= k < i ==> (#[trigger] paths@[k])@ == w.dirs@[k].path@,
        decreases w.dirs@.len() - i,
    {
        paths.push(w.dirs[i].path.clone());
        i = i + 1;
    }
    paths
}

} // verus!
