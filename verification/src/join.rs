//! The composite "get full project" operation.
//!
//! Fetching a full project takes one project read followed by one list read
//! per id named in the project's `lists` field, issued strictly in that
//! order. The HTTP transfers happen outside the library; this module holds
//! the state between them and decides, from plain values alone, which list
//! to request next and when the join is complete. If the project names no
//! `lists` field, or any single fetch fails, the whole composite fails and
//! no partial result is produced.

use vstd::prelude::*;

use crate::model::{FullProject, FullProjectView, List, ListView, Project, ProjectView, lists_view};

verus! {

/// The mathematical join: the project's scalar fields verbatim, with the
/// fetched lists in place of the id references.
pub open spec fn full_project_of(p: ProjectView, ls: Seq<ListView>) -> FullProjectView {
    FullProjectView {
        id: p.id,
        name: p.name,
        color: p.color,
        created_at: p.created_at,
        updated_at: p.updated_at,
        lists: ls,
    }
}

/// Order preservation: the joined project carries exactly the fetched lists,
/// unchanged and in the order they were fetched, and every scalar field of
/// the project verbatim.
pub proof fn lemma_join_preserves_order(p: ProjectView, ls: Seq<ListView>)
    ensures
        full_project_of(p, ls).lists == ls,
        full_project_of(p, ls).id == p.id,
        full_project_of(p, ls).name == p.name,
        full_project_of(p, ls).color == p.color,
        full_project_of(p, ls).created_at == p.created_at,
        full_project_of(p, ls).updated_at == p.updated_at,
{
}

/// The client-side state of the composite fetch: the project already
/// retrieved, and the lists fetched so far in request order.
pub struct ProjectJoin {
    pub base: Project,
    pub fetched: Vec<List>,
}

impl ProjectJoin {
    /// The id sequence the base project names, in input order.
    pub open spec fn ids(self) -> Seq<Seq<char>> {
        self.base@.lists.unwrap()
    }

    /// The join is well formed: the base project carries a `lists` field and
    /// no more lists have been accepted than it names.
    pub open spec fn wf(self) -> bool {
        &&& self.base@.lists is Some
        &&& self.fetched@.len() <= self.ids().len()
    }

    /// The view of the project the join started from.
    pub open spec fn base_view(self) -> ProjectView {
        self.base@
    }

    /// The lists accepted so far, in the order they were handed in.
    pub open spec fn fetched_lists(self) -> Seq<ListView> {
        lists_view(self.fetched@)
    }

    /// How many lists have been accepted.
    pub open spec fn fetched_count(self) -> nat {
        self.fetched@.len()
    }

    /// Whether every list the project names has been accepted.
    pub open spec fn complete(self) -> bool {
        self.fetched@.len() == self.ids().len()
    }

    /// Starts the composite from a fetched project. A project without a
    /// `lists` field cannot be joined: the composite fails at once, and the
    /// project comes back unchanged.
    pub fn new(project: Project) -> (r: Result<ProjectJoin, Project>)
        ensures
            match r {
                Result::Ok(j) => {
                    &&& project@.lists is Some
                    &&& j.wf()
                    &&& j.base_view() == project@
                    &&& j.fetched_count() == 0
                },
                Result::Err(p) => {
                    &&& p == project
                    &&& project@.lists is None
                },
            },
    {
        if project.lists.is_some() {
            Result::Ok(ProjectJoin { base: project, fetched: Vec::new() })
        } else {
            Result::Err(project)
        }
    }

    /// The id of the next list to request: always the first id the project
    /// names that has no accepted list yet, so the requests follow the
    /// project's input order. Nothing is left to request exactly when the
    /// join is complete.
    pub fn next_list_id(&self) -> (r: Option<&String>)
        requires
            self.wf(),
        ensures
            match r {
                Option::Some(id) => {
                    &&& !self.complete()
                    &&& id@ == self.ids()[self.fetched_count() as int]
                },
                Option::None => self.complete(),
            },
    {
        match &self.base.lists {
            Option::Some(ids) => {
                if self.fetched.len() < ids.len() {
                    let k: usize = self.fetched.len();
                    proof {
                        assert(self.ids()[k as int] == ids@[k as int]@);
                    }
                    Option::Some(&ids[k].id)
                } else {
                    Option::None
                }
            },
            Option::None => unreached(),
        }
    }

    /// Accepts the list fetched for the current id. The list goes to the end
    /// of the accepted sequence; nothing else changes.
    pub fn add_list(&mut self, list: List)
        requires
            old(self).wf(),
            !old(self).complete(),
        ensures
            final(self).wf(),
            final(self).base_view() == old(self).base_view(),
            final(self).ids() == old(self).ids(),
            final(self).fetched_lists() =~= old(self).fetched_lists().push(list@),
            final(self).fetched_count() == old(self).fetched_count() + 1,
    {
        self.fetched.push(list);
        proof {
            assert(lists_view(self.fetched@) =~= lists_view(old(self).fetched@).push(list@));
        }
    }

    /// Completes the join once every named list has been accepted: the
    /// scalar fields pass through verbatim and the lists stand exactly in
    /// the order they were accepted.
    pub fn finish(self) -> (fp: FullProject)
        requires
            self.wf(),
            self.complete(),
        ensures
            fp@ == full_project_of(self.base_view(), self.fetched_lists()),
    {
        FullProject {
            id: self.base.id,
            name: self.base.name,
            color: self.base.color,
            created_at: self.base.created_at,
            updated_at: self.base.updated_at,
            lists: self.fetched,
        }
    }
}

} // verus!
