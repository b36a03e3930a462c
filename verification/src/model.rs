//! Data shapes exchanged with the project/todo-list service.
//!
//! Each executable type has a deep view whose `String` fields become
//! `Seq<char>`, so that contracts can speak of the values mathematically.

use vstd::prelude::*;

verus! {

/// A bare id reference, as it appears in a project's `lists` array.
#[derive(Debug, Clone, PartialEq)]
pub struct Id {
    pub id: String,
}

impl View for Id {
    type V = Seq<char>;

    open spec fn view(&self) -> Seq<char> {
        self.id@
    }
}

/// The views of a sequence of id references.
pub open spec fn ids_view(ids: Seq<Id>) -> Seq<Seq<char>> {
    ids.map_values(|i: Id| i@)
}

/// A project as the service returns it: scalar fields plus an optional
/// ordered sequence of list ids.
#[derive(Debug, Clone, PartialEq)]
pub struct Project {
    pub id: String,
    pub name: String,
    pub color: String,
    pub created_at: String,
    pub updated_at: String,
    pub lists: Option<Vec<Id>>,
}

pub struct ProjectView {
    pub id: Seq<char>,
    pub name: Seq<char>,
    pub color: Seq<char>,
    pub created_at: Seq<char>,
    pub updated_at: Seq<char>,
    pub lists: Option<Seq<Seq<char>>>,
}

impl View for Project {
    type V = ProjectView;

    open spec fn view(&self) -> ProjectView {
        ProjectView {
            id: self.id@,
            name: self.name@,
            color: self.color@,
            created_at: self.created_at@,
            updated_at: self.updated_at@,
            lists: match self.lists {
                Option::Some(ids) => Option::Some(ids_view(ids@)),
                Option::None => Option::None,
            },
        }
    }
}

/// A single named task with a done flag, owned by one list.
#[derive(Debug, Clone, PartialEq)]
pub struct ListItem {
    pub id: String,
    pub name: String,
    pub done: bool,
    pub list_id: String,
}

pub struct ListItemView {
    pub id: Seq<char>,
    pub name: Seq<char>,
    pub done: bool,
    pub list_id: Seq<char>,
}

impl View for ListItem {
    type V = ListItemView;

    open spec fn view(&self) -> ListItemView {
        ListItemView {
            id: self.id@,
            name: self.name@,
            done: self.done,
            list_id: self.list_id@,
        }
    }
}

/// The views of a sequence of list items.
pub open spec fn items_view(items: Seq<ListItem>) -> Seq<ListItemView> {
    items.map_values(|it: ListItem| it@)
}

/// A named collection of items belonging to one project.
#[derive(Debug, Clone, PartialEq)]
pub struct List {
    pub id: String,
    pub name: String,
    pub project_id: String,
    pub items: Vec<ListItem>,
}

pub struct ListView {
    pub id: Seq<char>,
    pub name: Seq<char>,
    pub project_id: Seq<char>,
    pub items: Seq<ListItemView>,
}

impl View for List {
    type V = ListView;

    open spec fn view(&self) -> ListView {
        ListView {
            id: self.id@,
            name: self.name@,
            project_id: self.project_id@,
            items: items_view(self.items@),
        }
    }
}

/// The views of a sequence of lists.
pub open spec fn lists_view(ls: Seq<List>) -> Seq<ListView> {
    ls.map_values(|l: List| l@)
}

/// A project joined with the full contents of its lists; the client-side
/// output shape of the composite fetch. `lists` is required here.
#[derive(Debug, Clone, PartialEq)]
pub struct FullProject {
    pub id: String,
    pub name: String,
    pub color: String,
    pub created_at: String,
    pub updated_at: String,
    pub lists: Vec<List>,
}

pub struct FullProjectView {
    pub id: Seq<char>,
    pub name: Seq<char>,
    pub color: Seq<char>,
    pub created_at: Seq<char>,
    pub updated_at: Seq<char>,
    pub lists: Seq<ListView>,
}

/// The views of a sequence of projects.
pub open spec fn projects_view(ps: Seq<Project>) -> Seq<ProjectView> {
    ps.map_values(|p: Project| p@)
}

impl View for FullProject {
    type V = FullProjectView;

    open spec fn view(&self) -> FullProjectView {
        FullProjectView {
            id: self.id@,
            name: self.name@,
            color: self.color@,
            created_at: self.created_at@,
            updated_at: self.updated_at@,
            lists: lists_view(self.lists@),
        }
    }
}

} // verus!
