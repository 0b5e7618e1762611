//! The storage engine model: two tables, `workspaces(id, name)` and
//! `dirs(id, workspace_id, path)`, with surrogate keys assigned on insertion,
//! a uniqueness constraint on workspace names, and a foreign key from dirs to
//! workspaces. `Store` is the in-memory source of truth for these semantics;
//! a disk-backed engine must behave exactly as its contracts state.

use vstd::prelude::*;

verus! {

/// One row of the `workspaces` table.
pub struct WorkspaceRow {
    /// Surrogate key, assigned on insertion; at least 1.
    pub id: i32,
    /// The workspace name, unique across all rows.
    pub name: String,
}

/// One row of the `dirs` table.
pub struct DirRow {
    /// Surrogate key, assigned on insertion; at least 1.
    pub id: i32,
    /// Foreign key to the owning workspace.
    pub workspace_id: i32,
    /// The stored filesystem path; duplicates within a workspace are allowed
    /// at this layer.
    pub path: String,
}

/// The typed errors a storage operation can report.
#[derive(Clone, Copy, PartialEq, Eq, Structural, Debug)]
pub enum StoreError {
    /// An insert would violate the uniqueness of workspace names.
    DuplicateName,
    /// The target row of a delete or lookup is absent.
    NotFound,
    /// A dir insert references a workspace id with no row.
    ForeignKey,
    /// Unrecoverable connection or I/O failure of a disk-backed engine;
    /// the in-memory engine never reports it.
    Storage,
}

impl StoreError {
    /// A user-visible message for the error, for the presentation layer.
    pub fn message(&self) -> (r: &'static str)
        ensures
            r@ == self.spec_message(),
    {
        match self {
            StoreError::DuplicateName => "a workspace with this name already exists",
            StoreError::NotFound => "no such row exists",
            StoreError::ForeignKey => "no such workspace exists",
            StoreError::Storage => "the storage engine failed",
        }
    }

    /// The message `message` returns, for contracts.
    pub open spec fn spec_message(self) -> Seq<char> {
        match self {
            StoreError::DuplicateName => "a workspace with this name already exists"@,
            StoreError::NotFound => "no such row exists"@,
            StoreError::ForeignKey => "no such workspace exists"@,
            StoreError::Storage => "the storage engine failed"@,
        }
    }
}

/// What an initialization run does to the schema.
#[derive(Clone, Copy, PartialEq, Eq, Structural, Debug)]
pub enum SchemaAction {
    /// Both tables already exist: leave them untouched.
    KeepTables,
    /// The schema has not been applied yet: create both tables.
    CreateTables,
}

/// The idempotent initialization decision: the schema is applied exactly
/// once, so a store whose tables exist is kept as it is, and only a fresh
/// store gets the tables created.
pub fn plan_initialization(tables_exist: bool) -> (a: SchemaAction)
    ensures
        a == SchemaAction::KeepTables <==> tables_exist,
        a == SchemaAction::CreateTables <==> !tables_exist,
{
    if tables_exist {
        SchemaAction::KeepTables
    } else {
        SchemaAction::CreateTables
    }
}

/// Whether a dir row belongs to the workspace with id `workspace_id`.
pub open spec fn dir_matches(d: DirRow, workspace_id: i32) -> bool {
    d.workspace_id == workspace_id
}

/// The subsequence of `s` owned by the workspace with id `workspace_id`,
/// in insertion order.
pub open spec fn dirs_matching(s: Seq<DirRow>, workspace_id: i32) -> Seq<DirRow> {
    s.filter(|d: DirRow| dir_matches(d, workspace_id))
}

/// Whether `entries` renders exactly the workspace rows `rows`, as
/// `(id, name)` pairs in the same order.
pub open spec fn entries_match_workspaces(
    entries: Seq<(i32, String)>,
    rows: Seq<WorkspaceRow>,
) -> bool {
    &&& entries.len() == rows.len()
    &&& forall|i: int|
        0 <= i < entries.len() ==> (#[trigger] entries[i]).0 == rows[i].id && entries[i].1@
            == rows[i].name@
}

/// Whether `entries` renders exactly the dir rows `rows`, as `(id, path)`
/// pairs in the same order.
pub open spec fn entries_match_dirs(entries: Seq<(i32, String)>, rows: Seq<DirRow>) -> bool {
    &&& entries.len() == rows.len()
    &&& forall|i: int|
        0 <= i < entries.len() ==> (#[trigger] entries[i]).0 == rows[i].id && entries[i].1@
            == rows[i].path@
}

/// The in-memory storage engine: the authoritative model of the two tables.
pub struct Store {
    /// The `workspaces` table, in insertion order.
    pub workspaces: Vec<WorkspaceRow>,
    /// The `dirs` table, in insertion order.
    pub dirs: Vec<DirRow>,
    /// The id the next workspace insert will assign.
    pub next_workspace_id: i32,
    /// The id the next dir insert will assign.
    pub next_dir_id: i32,
}

impl Store {
    /// Whether some workspace row carries the name `name`.
    pub open spec fn has_workspace_name(self, name: Seq<char>) -> bool {
        exists|i: int| 0 <= i < self.workspaces@.len() && self.workspaces@[i].name@ == name
    }

    /// Whether some workspace row has the id `id`.
    pub open spec fn has_workspace_id(self, id: i32) -> bool {
        exists|i: int| 0 <= i < self.workspaces@.len() && self.workspaces@[i].id == id
    }

    /// Whether some dir row has the id `id`.
    pub open spec fn has_dir_id(self, id: i32) -> bool {
        exists|i: int| 0 <= i < self.dirs@.len() && self.dirs@[i].id == id
    }

    /// The dir rows of the workspace with id `workspace_id`, in insertion
    /// order; empty if the id has no row.
    pub open spec fn dirs_of(self, workspace_id: i32) -> Seq<DirRow> {
        dirs_matching(self.dirs@, workspace_id)
    }

    /// Well-formedness: ids are positive, below the next free id and unique,
    /// workspace names are unique, and every dir references an existing
    /// workspace.
    pub open spec fn wf(self) -> bool {
        &&& 1 <= self.next_workspace_id
        &&& 1 <= self.next_dir_id
        &&& forall|i: int|
            0 <= i < self.workspaces@.len() ==> 1 <= (#[trigger] self.workspaces@[i]).id
                < self.next_workspace_id
        &&& forall|i: int, j: int|
            0 <= i < j < self.workspaces@.len() ==> (#[trigger] self.workspaces@[i]).id != (
            #[trigger] self.workspaces@[j]).id
        &&& forall|i: int, j: int|
            0 <= i < j < self.workspaces@.len() ==> (#[trigger] self.workspaces@[i]).name@ != (
            #[trigger] self.workspaces@[j]).name@
        &&& forall|i: int|
            0 <= i < self.dirs@.len() ==> 1 <= (#[trigger] self.dirs@[i]).id < self.next_dir_id
        &&& forall|i: int, j: int|
            0 <= i < j < self.dirs@.len() ==> (#[trigger] self.dirs@[i]).id != (
            #[trigger] self.dirs@[j]).id
        &&& forall|i: int|
            0 <= i < self.dirs@.len() ==> self.has_workspace_id(
                (#[trigger] self.dirs@[i]).workspace_id,
            )
    }

    /// An empty, well-formed store: the state right after the schema has been
    /// applied to a fresh database.
    pub fn new() -> (s: Store)
        ensures
            s.wf(),
            s.workspaces@ =~= Seq::<WorkspaceRow>::empty(),
            s.dirs@ =~= Seq::<DirRow>::empty(),
            s.next_workspace_id == 1,
            s.next_dir_id == 1,
    {
        Store { workspaces: Vec::new(), dirs: Vec::new(), next_workspace_id: 1, next_dir_id: 1 }
    }

    /// Inserts a workspace named `name`, unless the name is taken; returns
    /// the newly assigned id. Fails, leaving the store unchanged, if and only
    /// if the name is already present.
    pub fn create_workspace(&mut self, name: String) -> (r: Result<i32, StoreError>)
        requires
            old(self).wf(),
            old(self).next_workspace_id < i32::MAX,
        ensures
            final(self).wf(),
            r is Ok <==> !old(self).has_workspace_name(name@),
            r matches Ok(id) ==> create_workspace_ok(*old(self), name@, *final(self), id),
            r is Err ==> r == Result::<i32, StoreError>::Err(StoreError::DuplicateName)
                && *final(self) == *old(self),
    {
        let mut i: usize = 0;
        while i < self.workspaces.len()
            invariant
                self == old(self),
                old(self).wf(),
                old(self).next_workspace_id < i32::MAX,
                forall|k: int| 0 <= k < i ==> (#[trigger] self.workspaces@[k]).name@ != name@,
            decreases self.workspaces@.len() - i,
        {
            if self.workspaces[i].name == name {
                return Err(StoreError::DuplicateName);
            }
            i = i + 1;
        }
        let id = self.next_workspace_id;
        self.workspaces.push(WorkspaceRow { id, name });
        self.next_workspace_id = id + 1;
        proof {
            assert(self.workspaces@.drop_last() =~= old(self).workspaces@);
            assert forall|k: int|
                0 <= k < self.dirs@.len() implies self.has_workspace_id(
                (#[trigger] self.dirs@[k]).workspace_id,
            ) by {
                assert(old(self).dirs@[k] == self.dirs@[k]);
                assert(old(self).has_workspace_id(old(self).dirs@[k].workspace_id));
                lemma_has_workspace_id_grows(*old(self), *self, self.dirs@[k].workspace_id);
            }
        }
        Ok(id)
    }

    /// All workspaces as `(id, name)` pairs, in insertion order; the
    /// re-fetch that rebuilds any name-to-id view of the table.
    pub fn list_workspaces(&self) -> (r: Vec<(i32, String)>)
        ensures
            entries_match_workspaces(r@, self.workspaces@),
    {
        let mut r: Vec<(i32, String)> = Vec::new();
        let mut i: usize = 0;
        while i < self.workspaces.len()
            invariant
                r@.len() == i,
                i <= self.workspaces@.len(),
                forall|k: int|
                    0 <= k < i ==> (#[trigger] r@[k]).0 == self.workspaces@[k].id && r@[k].1@
                        == self.workspaces@[k].name@,
            decreases self.workspaces@.len() - i,
        {
            let row = &self.workspaces[i];
            r.push((row.id, row.name.clone()));
            i = i + 1;
        }
        r
    }

    /// The dirs of the workspace with id `workspace_id`, as `(id, path)`
    /// pairs in insertion order. An id with no workspace row yields the
    /// empty list, not an error.
    pub fn list_dirs(&self, workspace_id: i32) -> (r: Vec<(i32, String)>)
        ensures
            entries_match_dirs(r@, self.dirs_of(workspace_id)),
    {
        let mut r: Vec<(i32, String)> = Vec::new();
        let mut i: usize = 0;
        proof {
            assert(self.dirs@.take(0int) =~= Seq::<DirRow>::empty());
            reveal(Seq::filter);
        }
        while i < self.dirs.len()
            invariant
                i <= self.dirs@.len(),
                r@.len() == dirs_matching(self.dirs@.take(i as int), workspace_id).len(),
                forall|k: int|
                    0 <= k < r@.len() ==> (#[trigger] r@[k]).0 == dirs_matching(
                        self.dirs@.take(i as int),
                        workspace_id,
                    )[k].id && r@[k].1@ == dirs_matching(
                        self.dirs@.take(i as int),
                        workspace_id,
                    )[k].path@,
            decreases self.dirs@.len() - i,
        {
            proof {
                lemma_dirs_matching_take_step(self.dirs@, workspace_id, i as int);
            }
            let row = &self.dirs[i];
            if row.workspace_id == workspace_id {
                r.push((row.id, row.path.clone()));
            }
            i = i + 1;
        }
        proof {
            assert(self.dirs@.take(self.dirs@.len() as int) =~= self.dirs@);
        }
        r
    }

    /// All workspaces with their dir listings, grouped per workspace in
    /// insertion order: the join that a list-everything view renders.
    pub fn list_workspaces_with_dirs(&self) -> (r: Vec<(i32, String, Vec<(i32, String)>)>)
        ensures
            r@.len() == self.workspaces@.len(),
            forall|i: int|
                0 <= i < r@.len() ==> {
                    &&& (#[trigger] r@[i]).0 == self.workspaces@[i].id
                    &&& r@[i].1@ == self.workspaces@[i].name@
                    &&& entries_match_dirs(r@[i].2@, self.dirs_of(self.workspaces@[i].id))
                },
    {
        let mut r: Vec<(i32, String, Vec<(i32, String)>)> = Vec::new();
        let mut i: usize = 0;
        while i < self.workspaces.len()
            invariant
                r@.len() == i,
                i <= self.workspaces@.len(),
                forall|k: int|
                    0 <= k < i ==> {
                        &&& (#[trigger] r@[k]).0 == self.workspaces@[k].id
                        &&& r@[k].1@ == self.workspaces@[k].name@
                        &&& entries_match_dirs(r@[k].2@, self.dirs_of(self.workspaces@[k].id))
                    },
            decreases self.workspaces@.len() - i,
        {
            let row = &self.workspaces[i];
            r.push((row.id, row.name.clone(), self.list_dirs(row.id)));
            i = i + 1;
        }
        r
    }

    /// Inserts a dir row for the workspace with id `workspace_id`,
    /// unconditionally as to the path (no duplicate-path check at this
    /// layer), and returns the newly assigned id. Fails, leaving the store
    /// unchanged, if and only if no workspace row has that id.
    pub fn create_dir(&mut self, workspace_id: i32, path: String) -> (r: Result<i32, StoreError>)
        requires
            old(self).wf(),
            old(self).next_dir_id < i32::MAX,
        ensures
            final(self).wf(),
            r is Ok <==> old(self).has_workspace_id(workspace_id),
            r matches Ok(id) ==> create_dir_ok(*old(self), workspace_id, path@, *final(self), id),
            r is Err ==> r == Result::<i32, StoreError>::Err(StoreError::ForeignKey)
                && *final(self) == *old(self),
    {
        let mut found = false;
        let mut i: usize = 0;
        while i < self.workspaces.len()
            invariant
                self == old(self),
                old(self).wf(),
                old(self).next_dir_id < i32::MAX,
                found ==> old(self).has_workspace_id(workspace_id),
                !found ==> forall|k: int|
                    0 <= k < i ==> (#[trigger] self.workspaces@[k]).id != workspace_id,
            decreases self.workspaces@.len() - i,
        {
            if self.workspaces[i].id == workspace_id {
                found = true;
            }
            i = i + 1;
        }
        if !found {
            return Err(StoreError::ForeignKey);
        }
        let id = self.next_dir_id;
        self.dirs.push(DirRow { id, workspace_id, path });
        self.next_dir_id = id + 1;
        proof {
            assert(self.dirs@.drop_last() =~= old(self).dirs@);
            assert forall|k: int|
                0 <= k < self.dirs@.len() implies self.has_workspace_id(
                (#[trigger] self.dirs@[k]).workspace_id,
            ) by {
                if k < self.dirs@.len() - 1 {
                    assert(self.dirs@.drop_last()[k] == old(self).dirs@[k]);
                    assert(self.dirs@[k] == old(self).dirs@[k]);
                    assert(old(self).has_workspace_id(old(self).dirs@[k].workspace_id));
                } else {
                    assert(self.dirs@[k].workspace_id == workspace_id);
                }
                lemma_has_workspace_id_same(*old(self), *self, self.dirs@[k].workspace_id);
            }
        }
        Ok(id)
    }

    /// Deletes the dir row with id `dir_id`. Fails with `NotFound`, leaving
    /// the store unchanged, if and only if no row has that id: a delete is
    /// not idempotent, and a second call on the same id must fail.
    pub fn delete_dir(&mut self, dir_id: i32) -> (r: Result<(), StoreError>)
        requires
            old(self).wf(),
        ensures
            final(self).wf(),
            r is Ok <==> old(self).has_dir_id(dir_id),
            r is Ok ==> delete_dir_ok(*old(self), dir_id, *final(self)),
            r is Err ==> r == Result::<(), StoreError>::Err(StoreError::NotFound)
                && *final(self) == *old(self),
    {
        let mut i: usize = 0;
        while i < self.dirs.len()
            invariant
                self == old(self),
                old(self).wf(),
                forall|k: int| 0 <= k < i ==> (#[trigger] self.dirs@[k]).id != dir_id,
            decreases self.dirs@.len() - i,
        {
            if self.dirs[i].id == dir_id {
                self.dirs.remove(i);
                proof {
                    let pre = *old(self);
                    let ii = i as int;
                    pre.dirs@.remove_ensures(ii);
                    assert(pre.dirs@[ii].id == dir_id);
                    assert(pre.has_dir_id(dir_id));
                    assert forall|k: int|
                        0 <= k < self.dirs@.len() implies 1 <= (#[trigger] self.dirs@[k]).id
                        < self.next_dir_id && self.has_workspace_id(self.dirs@[k].workspace_id) by {
                        let k0: int = if k < ii {
                            k
                        } else {
                            k + 1
                        };
                        assert(self.dirs@[k] == pre.dirs@.remove(ii)[k]);
                        assert(self.dirs@[k] == pre.dirs@[k0]);
                        assert(pre.has_workspace_id(pre.dirs@[k0].workspace_id));
                        lemma_has_workspace_id_same(pre, *self, self.dirs@[k].workspace_id);
                    }
                    assert forall|k: int, m: int|
                        0 <= k < m < self.dirs@.len() implies (#[trigger] self.dirs@[k]).id != (
                        #[trigger] self.dirs@[m]).id by {
                        let k0: int = if k < ii {
                            k
                        } else {
                            k + 1
                        };
                        let m0: int = if m < ii {
                            m
                        } else {
                            m + 1
                        };
                        assert(self.dirs@[k] == pre.dirs@.remove(ii)[k]);
                        assert(self.dirs@[m] == pre.dirs@.remove(ii)[m]);
                        assert(self.dirs@[k] == pre.dirs@[k0]);
                        assert(self.dirs@[m] == pre.dirs@[m0]);
                    }
                }
                return Ok(());
            }
            i = i + 1;
        }
        Err(StoreError::NotFound)
    }
}

/// What a successful workspace insert does: the new row is appended with the
/// next free id and the given name, the next free id advances, and the dirs
/// table is untouched.
pub open spec fn create_workspace_ok(pre: Store, name: Seq<char>, post: Store, id: i32) -> bool {
    &&& !pre.has_workspace_name(name)
    &&& id == pre.next_workspace_id
    &&& post.next_workspace_id == id + 1
    &&& post.next_dir_id == pre.next_dir_id
    &&& post.workspaces@.len() == pre.workspaces@.len() + 1
    &&& post.workspaces@.drop_last() == pre.workspaces@
    &&& post.workspaces@.last().id == id
    &&& post.workspaces@.last().name@ == name
    &&& post.dirs@ == pre.dirs@
}

/// What a successful dir insert does: the new row is appended with the next
/// free id, the given owner and path, the next free id advances, and the
/// workspaces table is untouched.
pub open spec fn create_dir_ok(
    pre: Store,
    workspace_id: i32,
    path: Seq<char>,
    post: Store,
    id: i32,
) -> bool {
    &&& pre.has_workspace_id(workspace_id)
    &&& id == pre.next_dir_id
    &&& post.next_dir_id == id + 1
    &&& post.next_workspace_id == pre.next_workspace_id
    &&& post.workspaces@ == pre.workspaces@
    &&& post.dirs@.len() == pre.dirs@.len() + 1
    &&& post.dirs@.drop_last() == pre.dirs@
    &&& post.dirs@.last().id == id
    &&& post.dirs@.last().workspace_id == workspace_id
    &&& post.dirs@.last().path@ == path
}

/// What a successful dir delete does: exactly the row with the given id is
/// removed, order of the rest is kept, and everything else is untouched.
pub open spec fn delete_dir_ok(pre: Store, dir_id: i32, post: Store) -> bool {
    &&& pre.has_dir_id(dir_id)
    &&& exists|i: int|
        {
            &&& 0 <= i < pre.dirs@.len()
            &&& (#[trigger] pre.dirs@[i]).id == dir_id
            &&& post.dirs@ == pre.dirs@.remove(i)
        }
    &&& post.workspaces@ == pre.workspaces@
    &&& post.next_workspace_id == pre.next_workspace_id
    &&& post.next_dir_id == pre.next_dir_id
}

/// A workspace id present in a store is present in any store with the same
/// workspaces table.
proof fn lemma_has_workspace_id_same(a: Store, b: Store, id: i32)
    requires
        a.workspaces@ == b.workspaces@,
        a.has_workspace_id(id),
    ensures
        b.has_workspace_id(id),
{
    let m = choose|m: int| 0 <= m < a.workspaces@.len() && a.workspaces@[m].id == id;
    assert(b.workspaces@[m].id == id);
}

/// A workspace id present in a store is still present after one row has been
/// appended to the workspaces table.
proof fn lemma_has_workspace_id_grows(a: Store, b: Store, id: i32)
    requires
        b.workspaces@.len() == a.workspaces@.len() + 1,
        b.workspaces@.drop_last() == a.workspaces@,
        a.has_workspace_id(id),
    ensures
        b.has_workspace_id(id),
{
    let m = choose|m: int| 0 <= m < a.workspaces@.len() && a.workspaces@[m].id == id;
    assert(b.workspaces@.drop_last()[m] == a.workspaces@[m]);
    assert(b.workspaces@[m].id == id);
}

/// Creating a workspace under one name and then under a different, also
/// free, name succeeds both times and assigns two distinct ids.
pub proof fn lemma_create_two_workspaces(
    pre: Store,
    mid: Store,
    n1: Seq<char>,
    n2: Seq<char>,
    id1: i32,
)
    requires
        n1 != n2,
        !pre.has_workspace_name(n2),
        create_workspace_ok(pre, n1, mid, id1),
    ensures
        mid.has_workspace_name(n1),
        !mid.has_workspace_name(n2),
        forall|post: Store, id2: i32| create_workspace_ok(mid, n2, post, id2) ==> id2 != id1,
{
    let last = mid.workspaces@.len() - 1;
    assert(mid.workspaces@[last].name@ == n1);
    assert forall|i: int| 0 <= i < mid.workspaces@.len() implies (#[trigger] mid.workspaces@[i]).name@
        != n2 by {
        if i < last {
            assert(mid.workspaces@.drop_last()[i] == pre.workspaces@[i]);
            assert(mid.workspaces@[i] == pre.workspaces@[i]);
        }
    }
}

/// A dir listing taken right after a successful dir insert includes the new
/// entry, as its last element, and is otherwise the listing taken before.
pub proof fn lemma_create_dir_listed(
    pre: Store,
    post: Store,
    workspace_id: i32,
    path: Seq<char>,
    id: i32,
)
    requires
        create_dir_ok(pre, workspace_id, path, post, id),
    ensures
        post.dirs_of(workspace_id).len() == pre.dirs_of(workspace_id).len() + 1,
        post.dirs_of(workspace_id).last().id == id,
        post.dirs_of(workspace_id).last().path@ == path,
        post.dirs_of(workspace_id).drop_last() == pre.dirs_of(workspace_id),
{
    reveal(Seq::filter);
    assert(post.dirs@.drop_last() == pre.dirs@);
    assert(dir_matches(post.dirs@.last(), workspace_id));
    assert(post.dirs_of(workspace_id) == pre.dirs_of(workspace_id).push(post.dirs@.last()));
    assert(pre.dirs_of(workspace_id).push(post.dirs@.last()).drop_last() =~= pre.dirs_of(
        workspace_id,
    ));
}

/// Elements of a workspace's dir listing are rows of the dirs table.
proof fn lemma_dirs_matching_subset(s: Seq<DirRow>, workspace_id: i32)
    ensures
        forall|j: int|
            0 <= j < dirs_matching(s, workspace_id).len() ==> s.contains(
                #[trigger] dirs_matching(s, workspace_id)[j],
            ),
    decreases s.len(),
{
    reveal(Seq::filter);
    if s.len() > 0 {
        lemma_dirs_matching_subset(s.drop_last(), workspace_id);
        let sub = dirs_matching(s.drop_last(), workspace_id);
        assert forall|j: int|
            0 <= j < dirs_matching(s, workspace_id).len() implies s.contains(
            #[trigger] dirs_matching(s, workspace_id)[j],
        ) by {
            if j < sub.len() {
                assert(dirs_matching(s, workspace_id)[j] == sub[j]);
                assert(s.drop_last().contains(sub[j]));
                let m = choose|m: int| 0 <= m < s.drop_last().len() && s.drop_last()[m] == sub[j];
                assert(s[m] == sub[j]);
            } else {
                assert(dirs_matching(s, workspace_id)[j] == s.last());
                assert(s[s.len() - 1] == s.last());
            }
        }
    }
}

/// After a successful dir delete, no listing of any workspace includes the
/// deleted id any more, and no row carries it: a second delete of the same
/// id cannot succeed.
pub proof fn lemma_delete_dir_unlisted(pre: Store, post: Store, dir_id: i32)
    requires
        pre.wf(),
        delete_dir_ok(pre, dir_id, post),
    ensures
        !post.has_dir_id(dir_id),
        forall|w: i32, j: int|
            0 <= j < post.dirs_of(w).len() ==> (#[trigger] post.dirs_of(w)[j]).id != dir_id,
        forall|post2: Store| !delete_dir_ok(post, dir_id, post2),
{
    let i = choose|i: int|
        {
            &&& 0 <= i < pre.dirs@.len()
            &&& (#[trigger] pre.dirs@[i]).id == dir_id
            &&& post.dirs@ == pre.dirs@.remove(i)
        };
    pre.dirs@.remove_ensures(i);
    assert forall|k: int| 0 <= k < post.dirs@.len() implies (#[trigger] post.dirs@[k]).id
        != dir_id by {
        let k0: int = if k < i {
            k
        } else {
            k + 1
        };
        assert(post.dirs@[k] == pre.dirs@.remove(i)[k]);
        assert(post.dirs@[k] == pre.dirs@[k0]);
    }
    assert forall|w: i32, j: int|
        0 <= j < post.dirs_of(w).len() implies (#[trigger] post.dirs_of(w)[j]).id != dir_id by {
        lemma_dirs_matching_subset(post.dirs@, w);
        assert(post.dirs@.contains(post.dirs_of(w)[j]));
        let m = choose|m: int| 0 <= m < post.dirs@.len() && post.dirs@[m] == post.dirs_of(w)[j];
        assert(post.dirs@[m].id != dir_id);
    }
}

/// Filtering one more row either appends that row, when it belongs to the
/// workspace, or changes nothing.
proof fn lemma_dirs_matching_take_step(s: Seq<DirRow>, workspace_id: i32, i: int)
    requires
        0 <= i < s.len(),
    ensures
        dirs_matching(s.take(i + 1), workspace_id) == if dir_matches(s[i], workspace_id) {
            dirs_matching(s.take(i), workspace_id).push(s[i])
        } else {
            dirs_matching(s.take(i), workspace_id)
        },
{
    reveal(Seq::filter);
    assert(s.take(i + 1).drop_last() =~= s.take(i));
    assert(s.take(i + 1).last() == s[i]);
}

} // verus!
