//! Workspaces: the list of them and which one is current.

use crate::text::str_eq;
use vstd::prelude::*;

verus! {

/// One workspace: a directory of recordings and uploads.
#[derive(Debug, Clone)]
pub struct Workspace {
    pub id: String,
    pub name: String,
    /// When the workspace was made, in milliseconds since the epoch.
    pub created_at: i64,
    pub path: String,
}

/// A workspace as plain values.
pub struct WorkspaceModel {
    pub id: Seq<char>,
    pub name: Seq<char>,
    pub created_at: i64,
    pub path: Seq<char>,
}

impl View for Workspace {
    type V = WorkspaceModel;

    open spec fn view(&self) -> WorkspaceModel {
        WorkspaceModel {
            id: self.id@,
            name: self.name@,
            created_at: self.created_at,
            path: self.path@,
        }
    }
}

/// The workspaces that there are, and the id of the current one.
#[derive(Debug, Clone)]
pub struct WorkspaceConfig {
    pub workspaces: Vec<Workspace>,
    pub current_workspace_id: Option<String>,
}

pub struct WorkspaceConfigModel {
    pub workspaces: Seq<WorkspaceModel>,
    pub current: Option<Seq<char>>,
}

pub open spec fn workspace_views(ws: Seq<Workspace>) -> Seq<WorkspaceModel> {
    Seq::new(ws.len(), |i: int| ws[i]@)
}

impl View for WorkspaceConfig {
    type V = WorkspaceConfigModel;

    open spec fn view(&self) -> WorkspaceConfigModel {
        WorkspaceConfigModel {
            workspaces: workspace_views(self.workspaces@),
            current: match self.current_workspace_id {
                Some(id) => Some(id@),
                None => None,
            },
        }
    }
}

/// The index of the first workspace with this id.
pub open spec fn workspace_index(ws: Seq<WorkspaceModel>, id: Seq<char>) -> Option<int>
    decreases ws.len(),
{
    if ws.len() == 0 {
        None
    } else if ws[0].id == id {
        Some(0)
    } else {
        match workspace_index(ws.drop_first(), id) {
            Some(i) => Some(i + 1),
            None => None,
        }
    }
}

/// The workspaces whose id is not `id`, in order.
pub open spec fn without_id(ws: Seq<WorkspaceModel>, id: Seq<char>) -> Seq<WorkspaceModel> {
    ws.filter(|w: WorkspaceModel| w.id != id)
}

/// The name that a workspace gets: the one asked for, or the default where
/// none is given.
pub open spec fn workspace_name(requested: Seq<char>) -> Seq<char> {
    if requested.len() == 0 {
        "New Workspace"@
    } else {
        requested
    }
}

pub open spec fn not_found() -> Seq<char> {
    "Workspace not found"@
}

/// Where the uploads of a workspace are kept, below the data directory of
/// the application.
pub open spec fn uploads_path_of(id: Seq<char>) -> Seq<char> {
    "creek/workspaces/"@ + id + "/uploads"@
}

fn copy_workspace(w: &Workspace) -> (c: Workspace)
    ensures
        c@ == w@,
{
    Workspace {
        id: w.id.clone(),
        name: w.name.clone(),
        created_at: w.created_at,
        path: w.path.clone(),
    }
}

impl WorkspaceConfig {
    /// The configuration without any workspace.
    pub fn new() -> (c: Self)
        ensures
            c@.workspaces.len() == 0,
            c@.current is None,
    {
        WorkspaceConfig { workspaces: Vec::new(), current_workspace_id: None }
    }

    fn find(&self, id: &str) -> (r: Option<usize>)
        ensures
            match r {
                Some(k) => workspace_index(self@.workspaces, id@) == Some(k as int) && k
                    < self.workspaces@.len(),
                None => workspace_index(self@.workspaces, id@) is None,
            },
    {
        let mut i: usize = 0;
        let ghost all = workspace_views(self.workspaces@);
        assert(all.skip(0) == all);
        while i < self.workspaces.len()
            invariant
                i <= self.workspaces.len(),
                all == workspace_views(self.workspaces@),
                workspace_index(all, id@) == match workspace_index(all.skip(i as int), id@) {
                    Some(k) => Some(k + i),
                    None => None,
                },
            decreases self.workspaces.len() - i,
        {
            proof {
                let rest = all.skip(i as int);
                assert(rest[0] == self.workspaces@[i as int]@);
                assert(rest.drop_first() == all.skip(i + 1));
            }
            if str_eq(self.workspaces[i].id.as_str(), id) {
                return Some(i);
            }
            i += 1;
        }
        None
    }

    /// Adds a workspace at the end of the list. The first workspace that is
    /// added becomes the current one.
    pub fn add_workspace(&mut self, id: String, name: String, created_at: i64, path: String) -> (w:
        Workspace)
        ensures
            w@ == (WorkspaceModel {
                id: id@,
                name: workspace_name(name@),
                created_at,
                path: path@,
            }),
            final(self)@.workspaces == old(self)@.workspaces.push(w@),
            final(self)@.current == match old(self)@.current {
                Some(c) => Some(c),
                None => Some(id@),
            },
    {
        let shown = if name.as_str().is_empty() {
            "New Workspace".to_string()
        } else {
            name
        };
        let w = Workspace { id: id.clone(), name: shown, created_at, path };
        let ghost before = workspace_views(self.workspaces@);
        self.workspaces.push(copy_workspace(&w));
        assert(workspace_views(self.workspaces@) =~= before.push(w@));
        if self.current_workspace_id.is_none() {
            self.current_workspace_id = Some(id);
        }
        w
    }

    /// A copy of the list of workspaces.
    pub fn list_workspaces(&self) -> (r: Vec<Workspace>)
        ensures
            workspace_views(r@) == self@.workspaces,
    {
        let mut out: Vec<Workspace> = Vec::new();
        let mut i: usize = 0;
        while i < self.workspaces.len()
            invariant
                i <= self.workspaces.len(),
                out@.len() == i,
                forall|j: int| 0 <= j < i ==> (#[trigger] out@[j])@ == self.workspaces@[j]@,
            decreases self.workspaces.len() - i,
        {
            out.push(copy_workspace(&self.workspaces[i]));
            i += 1;
        }
        assert(workspace_views(out@) =~= workspace_views(self.workspaces@));
        out
    }

    /// Gives the first workspace with this id a new name.
    pub fn rename_workspace(&mut self, id: &str, new_name: String) -> (r: Result<(), String>)
        ensures
            final(self)@.current == old(self)@.current,
            match workspace_index(old(self)@.workspaces, id@) {
                Some(i) => r is Ok && final(self)@.workspaces == old(self)@.workspaces.update(
                    i,
                    WorkspaceModel { name: new_name@, ..old(self)@.workspaces[i] },
                ),
                None => r is Err && r->Err_0@ == not_found() && final(self)@ == old(self)@,
            },
    {
        match self.find(id) {
            Some(i) => {
                let ghost before = workspace_views(self.workspaces@);
                assert(before[i as int] == self.workspaces@[i as int]@);
                let old_w = &self.workspaces[i];
                let w = Workspace {
                    id: old_w.id.clone(),
                    name: new_name,
                    created_at: old_w.created_at,
                    path: old_w.path.clone(),
                };
                self.workspaces.set(i, w);
                assert(workspace_views(self.workspaces@) =~= before.update(
                    i as int,
                    WorkspaceModel { name: new_name@, ..before[i as int] },
                ));
                Ok(())
            },
            None => Err("Workspace not found".to_string()),
        }
    }

    /// Takes every workspace with this id off the list and returns the first
    /// of them, whose directory is then to be removed. Where it was the
    /// current workspace, none is current any more.
    pub fn delete_workspace(&mut self, id: &str) -> (r: Result<Workspace, String>)
        ensures
            match workspace_index(old(self)@.workspaces, id@) {
                Some(i) => {
                    &&& r is Ok
                    &&& r->Ok_0@ == old(self)@.workspaces[i]
                    &&& final(self)@.workspaces == without_id(old(self)@.workspaces, id@)
                    &&& final(self)@.current == if old(self)@.current == Some(id@) {
                        None
                    } else {
                        old(self)@.current
                    }
                },
                None => r is Err && r->Err_0@ == not_found() && final(self)@ == old(self)@,
            },
    {
        match self.find(id) {
            Some(i) => {
                let ghost all = workspace_views(self.workspaces@);
                assert(all[i as int] == self.workspaces@[i as int]@);
                let removed = copy_workspace(&self.workspaces[i]);
                let is_current = match &self.current_workspace_id {
                    Some(c) => str_eq(c.as_str(), id),
                    None => false,
                };
                if is_current {
                    self.current_workspace_id = None;
                }
                let mut kept: Vec<Workspace> = Vec::new();
                let mut k: usize = 0;
                assert(all.take(0) == Seq::<WorkspaceModel>::empty());
                assert(workspace_views(kept@) =~= without_id(all.take(0), id@)) by {
                    reveal(Seq::filter);
                }
                while k < self.workspaces.len()
                    invariant
                        k <= self.workspaces.len(),
                        all == workspace_views(self.workspaces@),
                        workspace_views(kept@) == without_id(all.take(k as int), id@),
                    decreases self.workspaces.len() - k,
                {
                    let w = &self.workspaces[k];
                    let ghost before = workspace_views(kept@);
                    proof {
                        let next = all.take(k + 1);
                        assert(next.drop_last() == all.take(k as int));
                        assert(next.last() == w@);
                        reveal(Seq::filter);
                    }
                    if !str_eq(w.id.as_str(), id) {
                        kept.push(copy_workspace(w));
                        assert(workspace_views(kept@) =~= before.push(w@));
                    }
                    k += 1;
                }
                assert(all.take(self.workspaces.len() as int) == all);
                self.workspaces = kept;
                Ok(removed)
            },
            None => Err("Workspace not found".to_string()),
        }
    }

    /// The current workspace: the first with the current id, if there is
    /// one.
    pub fn get_current_workspace(&self) -> (r: Option<Workspace>)
        ensures
            match self@.current {
                Some(id) => match workspace_index(self@.workspaces, id) {
                    Some(i) => r is Some && r->0@ == self@.workspaces[i],
                    None => r is None,
                },
                None => r is None,
            },
    {
        match &self.current_workspace_id {
            Some(id) => match self.find(id.as_str()) {
                Some(i) => {
                    assert(workspace_views(self.workspaces@)[i as int] == self.workspaces@[i as int]@);
                    Some(copy_workspace(&self.workspaces[i]))
                },
                None => None,
            },
            None => None,
        }
    }

    /// Makes the workspace with this id the current one, if there is one.
    pub fn set_current_workspace(&mut self, id: String) -> (r: Result<(), String>)
        ensures
            final(self)@.workspaces == old(self)@.workspaces,
            match workspace_index(old(self)@.workspaces, id@) {
                Some(_) => r is Ok && final(self)@.current == Some(id@),
                None => r is Err && r->Err_0@ == not_found() && final(self)@ == old(self)@,
            },
    {
        match self.find(id.as_str()) {
            Some(_) => {
                self.current_workspace_id = Some(id);
                Ok(())
            },
            None => Err("Workspace not found".to_string()),
        }
    }

    /// Where the uploads of the workspace with this id are kept.
    pub fn get_workspace_uploads_path(&self, workspace_id: &str) -> (r: Result<String, String>)
        ensures
            match workspace_index(self@.workspaces, workspace_id@) {
                Some(_) => r is Ok && r->Ok_0@ == uploads_path_of(workspace_id@),
                None => r is Err && r->Err_0@ == not_found(),
            },
    {
        match self.find(workspace_id) {
            Some(_) => {
                let mut p = "creek/workspaces/".to_string();
                p.append(workspace_id);
                p.append("/uploads");
                Ok(p)
            },
            None => Err("Workspace not found".to_string()),
        }
    }
}

} // verus!
