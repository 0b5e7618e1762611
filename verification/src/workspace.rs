//! The domain model: a `Workspace` is a named, identified aggregate over an
//! ordered collection of `Dir` entries. The model is storage-agnostic: its
//! operations never touch the store, and an id of `0` is the sentinel of a
//! value not yet persisted.

use vstd::prelude::*;

verus! {

/// A single directory entry, owned by a workspace.
pub struct Dir {
    /// Storage-assigned surrogate key; `0` before persistence.
    pub id: i32,
    /// The filesystem path of the directory.
    pub path: String,
}

/// A named collection of directory entries.
pub struct Workspace {
    /// Storage-assigned surrogate key; `0` before persistence.
    pub id: i32,
    /// The ordered directory entries of the workspace.
    pub dirs: Vec<Dir>,
    /// Name of the workspace, unique across all persisted workspaces.
    pub name: String,
}

impl Dir {
    /// Constructs an entry that is not yet persisted.
    pub fn new(path: String) -> (d: Dir)
        ensures
            d.path == path,
            d.id == 0,
    {
        Dir { path, id: 0 }
    }

    /// Assigns a storage-confirmed id, builder style.
    pub fn id(self, id: i32) -> (d: Dir)
        ensures
            d.path == self.path,
            d.id == id,
    {
        Dir { id, path: self.path }
    }
}

/// Whether some entry of `dirs` has the path `path`.
pub open spec fn has_dir_path(dirs: Seq<Dir>, path: Seq<char>) -> bool {
    exists|i: int| 0 <= i < dirs.len() && dirs[i].path@ == path
}

impl Workspace {
    /// Constructs a workspace with no entries and the sentinel id.
    pub fn new(name: String) -> (w: Workspace)
        ensures
            w.id == 0,
            w.dirs@ =~= Seq::<Dir>::empty(),
            w.name == name,
    {
        Workspace { dirs: Vec::new(), name, id: 0 }
    }

    /// Assigns a storage-confirmed id, builder style.
    pub fn id(&mut self, id: i32) -> (r: &mut Self)
        ensures
            *final(self) == *final(r),
            r.id == id,
            r.dirs == old(self).dirs,
            r.name == old(self).name,
    {
        self.id = id;
        self
    }

    /// Appends a new entry; never communicates with storage.
    pub fn add_dir(&mut self, dir: Dir)
        ensures
            final(self).dirs@ == old(self).dirs@.push(dir),
            final(self).id == old(self).id,
            final(self).name == old(self).name,
    {
        self.dirs.push(dir)
    }

    /// Position of the first entry whose path equals `dir`, if any.
    fn check_dir_already_exists(&self, dir: &str) -> (r: Option<usize>)
        ensures
            match r {
                Some(i) => {
                    &&& 0 <= i < self.dirs@.len()
                    &&& self.dirs@[i as int].path@ == dir@
                    &&& forall|k: int| 0 <= k < i ==> self.dirs@[k].path@ != dir@
                },
                None => !has_dir_path(self.dirs@, dir@),
            },
    {
        let key: String = dir.to_owned();
        let mut i: usize = 0;
        while i < self.dirs.len()
            invariant
                key@ == dir@,
                0 <= i <= self.dirs@.len(),
                forall|k: int| 0 <= k < i ==> self.dirs@[k].path@ != dir@,
            decreases self.dirs@.len() - i,
        {
            if self.dirs[i].path == key {
                return Some(i);
            }
            i = i + 1;
        }
        None
    }

    /// A view of the ordered entries, for iteration by the caller.
    pub fn dir_iter(&self) -> (r: &Vec<Dir>)
        ensures
            r == &self.dirs,
    {
        &self.dirs
    }

    /// Removes the first entry whose path equals `dir`, if one exists.
    /// Purely an in-memory mutation: storage is never touched. Returns
    /// whether an entry was found and removed; "not found" is advisory,
    /// and the caller decides whether to surface a message.
    pub fn remove_dir(&mut self, dir: &str) -> (found: bool)
        ensures
            found <==> has_dir_path(old(self).dirs@, dir@),
            found ==> exists|i: int|
                {
                    &&& 0 <= i < old(self).dirs@.len()
                    &&& old(self).dirs@[i].path@ == dir@
                    &&& (forall|k: int| 0 <= k < i ==> old(self).dirs@[k].path@ != dir@)
                    &&& final(self).dirs@ == old(self).dirs@.remove(i)
                },
            !found ==> *final(self) == *old(self),
            final(self).id == old(self).id,
            final(self).name == old(self).name,
    {
        let value = self.check_dir_already_exists(dir);

        match value {
            Some(index) => {
                self.dirs.remove(index);
                true
            }
            None => false,
        }
    }
}

} // verus!
