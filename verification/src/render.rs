//! Pretty-printed JSON output of the model, as the read commands print it.
//!
//! The format is the usual human-readable one: two-space indentation, `": "`
//! between a key and its value, one array element or object member per line,
//! `[]` and `{}` for empty collections, and no trailing newline. Struct
//! fields appear in their wire order, with `createdAt`, `updatedAt`,
//! `projectId` and `listId` in camelCase.

use vstd::prelude::*;

use crate::json::{bool_json, quoted, write_bool, write_quoted};
use crate::model::{
    FullProject, FullProjectView, Id, List, ListItem, ListItemView, ListView, Project, ProjectView,
    ids_view, items_view, lists_view, projects_view,
};

verus! {

/// One level of indentation.
pub open spec fn two() -> Seq<char> {
    "  "@
}

/// One string-valued member line of an object whose closing brace sits at
/// `ind`: the key, `": "`, the quoted value, and a comma unless the member
/// is the object's last.
pub open spec fn str_member_json(
    key: Seq<char>,
    value: Seq<char>,
    ind: Seq<char>,
    comma: bool,
) -> Seq<char> {
    ind + two() + "\""@ + key + "\": "@ + quoted(value) + (if comma {
        ",\n"@
    } else {
        "\n"@
    })
}

/// The `done` member line of an item object; never the last member.
pub open spec fn done_member_json(done: bool, ind: Seq<char>) -> Seq<char> {
    ind + two() + "\"done\": "@ + bool_json(done) + ",\n"@
}

/// An id-reference object: `{"id": <id>}`, closing brace at `ind`.
pub open spec fn id_json(id: Seq<char>, ind: Seq<char>) -> Seq<char> {
    "{\n"@ + str_member_json("id"@, id, ind, false) + ind + "}"@
}

/// The elements of a non-empty id array, each at `ind`, separated by `,\n`.
pub open spec fn ids_body(ids: Seq<Seq<char>>, ind: Seq<char>) -> Seq<char>
    decreases ids.len(),
{
    if ids.len() == 0 {
        Seq::<char>::empty()
    } else if ids.len() == 1 {
        ind + id_json(ids[0], ind)
    } else {
        ids_body(ids.drop_last(), ind) + ",\n"@ + ind + id_json(ids.last(), ind)
    }
}

/// An array of id-reference objects, closing bracket at `ind`.
pub open spec fn ids_array_json(ids: Seq<Seq<char>>, ind: Seq<char>) -> Seq<char> {
    if ids.len() == 0 {
        "[]"@
    } else {
        "[\n"@ + ids_body(ids, ind + two()) + "\n"@ + ind + "]"@
    }
}

/// A project's `lists` field: `null` when absent, else the id array.
pub open spec fn opt_ids_json(lists: Option<Seq<Seq<char>>>, ind: Seq<char>) -> Seq<char> {
    match lists {
        Option::Some(ids) => ids_array_json(ids, ind),
        Option::None => "null"@,
    }
}

/// A list item object, closing brace at `ind`.
pub open spec fn item_json(it: ListItemView, ind: Seq<char>) -> Seq<char> {
    "{\n"@ + str_member_json("id"@, it.id, ind, true) + str_member_json("name"@, it.name, ind, true)
        + done_member_json(it.done, ind) + str_member_json("listId"@, it.list_id, ind, false) + ind
        + "}"@
}

/// The elements of a non-empty item array.
pub open spec fn items_body(items: Seq<ListItemView>, ind: Seq<char>) -> Seq<char>
    decreases items.len(),
{
    if items.len() == 0 {
        Seq::<char>::empty()
    } else if items.len() == 1 {
        ind + item_json(items[0], ind)
    } else {
        items_body(items.drop_last(), ind) + ",\n"@ + ind + item_json(items.last(), ind)
    }
}

/// An array of list items, closing bracket at `ind`.
pub open spec fn items_array_json(items: Seq<ListItemView>, ind: Seq<char>) -> Seq<char> {
    if items.len() == 0 {
        "[]"@
    } else {
        "[\n"@ + items_body(items, ind + two()) + "\n"@ + ind + "]"@
    }
}

/// A list object with its embedded items, closing brace at `ind`.
pub open spec fn list_json(l: ListView, ind: Seq<char>) -> Seq<char> {
    "{\n"@ + str_member_json("id"@, l.id, ind, true) + str_member_json("name"@, l.name, ind, true)
        + str_member_json("projectId"@, l.project_id, ind, true) + ind + two() + "\"items\": "@
        + items_array_json(l.items, ind + two()) + "\n"@ + ind + "}"@
}

/// The elements of a non-empty list array.
pub open spec fn lists_body(ls: Seq<ListView>, ind: Seq<char>) -> Seq<char>
    decreases ls.len(),
{
    if ls.len() == 0 {
        Seq::<char>::empty()
    } else if ls.len() == 1 {
        ind + list_json(ls[0], ind)
    } else {
        lists_body(ls.drop_last(), ind) + ",\n"@ + ind + list_json(ls.last(), ind)
    }
}

/// An array of lists, closing bracket at `ind`.
pub open spec fn lists_array_json(ls: Seq<ListView>, ind: Seq<char>) -> Seq<char> {
    if ls.len() == 0 {
        "[]"@
    } else {
        "[\n"@ + lists_body(ls, ind + two()) + "\n"@ + ind + "]"@
    }
}

/// The five scalar members shared by projects and full projects, every one
/// followed by a comma since `lists` always follows them.
pub open spec fn scalars_json(
    id: Seq<char>,
    name: Seq<char>,
    color: Seq<char>,
    created_at: Seq<char>,
    updated_at: Seq<char>,
    ind: Seq<char>,
) -> Seq<char> {
    str_member_json("id"@, id, ind, true) + str_member_json("name"@, name, ind, true)
        + str_member_json("color"@, color, ind, true) + str_member_json(
        "createdAt"@,
        created_at,
        ind,
        true,
    ) + str_member_json("updatedAt"@, updated_at, ind, true)
}

/// A project object, closing brace at `ind`.
pub open spec fn project_json(p: ProjectView, ind: Seq<char>) -> Seq<char> {
    "{\n"@ + scalars_json(p.id, p.name, p.color, p.created_at, p.updated_at, ind) + ind + two()
        + "\"lists\": "@ + opt_ids_json(p.lists, ind + two()) + "\n"@ + ind + "}"@
}

/// The elements of a non-empty project array.
pub open spec fn projects_body(ps: Seq<ProjectView>, ind: Seq<char>) -> Seq<char>
    decreases ps.len(),
{
    if ps.len() == 0 {
        Seq::<char>::empty()
    } else if ps.len() == 1 {
        ind + project_json(ps[0], ind)
    } else {
        projects_body(ps.drop_last(), ind) + ",\n"@ + ind + project_json(ps.last(), ind)
    }
}

/// An array of projects, closing bracket at `ind`.
pub open spec fn projects_array_json(ps: Seq<ProjectView>, ind: Seq<char>) -> Seq<char> {
    if ps.len() == 0 {
        "[]"@
    } else {
        "[\n"@ + projects_body(ps, ind + two()) + "\n"@ + ind + "]"@
    }
}

/// What `get-all-projects` prints: the project array at top level.
pub open spec fn projects_json(ps: Seq<ProjectView>) -> Seq<char> {
    projects_array_json(ps, ""@)
}

/// A full project object, closing brace at `ind`.
pub open spec fn full_project_obj_json(fp: FullProjectView, ind: Seq<char>) -> Seq<char> {
    "{\n"@ + scalars_json(fp.id, fp.name, fp.color, fp.created_at, fp.updated_at, ind) + ind
        + two() + "\"lists\": "@ + lists_array_json(fp.lists, ind + two()) + "\n"@ + ind + "}"@
}

/// What `get-project` prints: the full project at top level.
pub open spec fn full_project_json(fp: FullProjectView) -> Seq<char> {
    full_project_obj_json(fp, ""@)
}

/// Appends one string-valued member line.
fn write_str_member(out: &mut String, key: &str, value: &str, ind: &str, comma: bool)
    ensures
        final(out)@ == old(out)@ + str_member_json(key@, value@, ind@, comma),
{
    out.append(ind);
    out.append("  ");
    out.append("\"");
    out.append(key);
    out.append("\": ");
    write_quoted(out, value);
    if comma {
        out.append(",\n");
    } else {
        out.append("\n");
    }
    proof {
        assert(out@ =~= old(out)@ + str_member_json(key@, value@, ind@, comma));
    }
}

/// Appends the `done` member line.
fn write_done_member(out: &mut String, done: bool, ind: &str)
    ensures
        final(out)@ == old(out)@ + done_member_json(done, ind@),
{
    out.append(ind);
    out.append("  ");
    out.append("\"done\": ");
    write_bool(out, done);
    out.append(",\n");
    proof {
        assert(out@ =~= old(out)@ + done_member_json(done, ind@));
    }
}

/// Appends an id-reference object.
fn write_id_obj(out: &mut String, id: &Id, ind: &str)
    ensures
        final(out)@ == old(out)@ + id_json(id@, ind@),
{
    out.append("{\n");
    write_str_member(out, "id", id.id.as_str(), ind, false);
    out.append(ind);
    out.append("}");
    proof {
        assert(out@ =~= old(out)@ + id_json(id@, ind@));
    }
}

/// Appends an array of id-reference objects.
fn write_ids_array(out: &mut String, ids: &Vec<Id>, ind: &str)
    ensures
        final(out)@ == old(out)@ + ids_array_json(ids_view(ids@), ind@),
{
    let ghost vs = ids_view(ids@);
    if ids.len() == 0 {
        out.append("[]");
        return ;
    }
    out.append("[\n");
    let inner = ind.to_owned().concat("  ");
    let mut k: usize = 0;
    while k < ids.len()
        invariant
            0 < ids@.len() == vs.len(),
            k <= ids@.len(),
            vs == ids_view(ids@),
            inner@ == ind@ + two(),
            k == 0 ==> out@ == old(out)@ + "[\n"@,
            0 < k ==> out@ == old(out)@ + "[\n"@ + ids_body(vs.take(k as int), inner@),
        decreases ids@.len() - k,
    {
        if k > 0 {
            out.append(",\n");
        }
        out.append(inner.as_str());
        write_id_obj(out, &ids[k], inner.as_str());
        proof {
            assert(vs[k as int] == ids@[k as int]@);
            if k == 0 {
                assert(out@ =~= old(out)@ + "[\n"@ + ids_body(vs.take(1), inner@));
            } else {
                assert(vs.take(k as int + 1).drop_last() =~= vs.take(k as int));
                assert(vs.take(k as int + 1).last() == vs[k as int]);
                assert(out@ =~= old(out)@ + "[\n"@ + ids_body(vs.take(k as int + 1), inner@));
            }
        }
        k = k + 1;
    }
    out.append("\n");
    out.append(ind);
    out.append("]");
    proof {
        assert(vs.take(vs.len() as int) =~= vs);
        assert(out@ =~= old(out)@ + ids_array_json(vs, ind@));
    }
}

/// Appends a list item object.
fn write_item(out: &mut String, it: &ListItem, ind: &str)
    ensures
        final(out)@ == old(out)@ + item_json(it@, ind@),
{
    out.append("{\n");
    write_str_member(out, "id", it.id.as_str(), ind, true);
    write_str_member(out, "name", it.name.as_str(), ind, true);
    write_done_member(out, it.done, ind);
    write_str_member(out, "listId", it.list_id.as_str(), ind, false);
    out.append(ind);
    out.append("}");
    proof {
        assert(out@ =~= old(out)@ + item_json(it@, ind@));
    }
}

/// Appends an array of list items.
fn write_items_array(out: &mut String, items: &Vec<ListItem>, ind: &str)
    ensures
        final(out)@ == old(out)@ + items_array_json(items_view(items@), ind@),
{
    let ghost vs = items_view(items@);
    if items.len() == 0 {
        out.append("[]");
        return ;
    }
    out.append("[\n");
    let inner = ind.to_owned().concat("  ");
    let mut k: usize = 0;
    while k < items.len()
        invariant
            0 < items@.len() == vs.len(),
            k <= items@.len(),
            vs == items_view(items@),
            inner@ == ind@ + two(),
            k == 0 ==> out@ == old(out)@ + "[\n"@,
            0 < k ==> out@ == old(out)@ + "[\n"@ + items_body(vs.take(k as int), inner@),
        decreases items@.len() - k,
    {
        if k > 0 {
            out.append(",\n");
        }
        out.append(inner.as_str());
        write_item(out, &items[k], inner.as_str());
        proof {
            assert(vs[k as int] == items@[k as int]@);
            if k == 0 {
                assert(out@ =~= old(out)@ + "[\n"@ + items_body(vs.take(1), inner@));
            } else {
                assert(vs.take(k as int + 1).drop_last() =~= vs.take(k as int));
                assert(vs.take(k as int + 1).last() == vs[k as int]);
                assert(out@ =~= old(out)@ + "[\n"@ + items_body(vs.take(k as int + 1), inner@));
            }
        }
        k = k + 1;
    }
    out.append("\n");
    out.append(ind);
    out.append("]");
    proof {
        assert(vs.take(vs.len() as int) =~= vs);
        assert(out@ =~= old(out)@ + items_array_json(vs, ind@));
    }
}

/// Appends a list object.
#[verifier::rlimit(100)]
fn write_list(out: &mut String, l: &List, ind: &str)
    ensures
        final(out)@ == old(out)@ + list_json(l@, ind@),
{
    out.append("{\n");
    write_str_member(out, "id", l.id.as_str(), ind, true);
    write_str_member(out, "name", l.name.as_str(), ind, true);
    write_str_member(out, "projectId", l.project_id.as_str(), ind, true);
    out.append(ind);
    out.append("  ");
    out.append("\"items\": ");
    let inner = ind.to_owned().concat("  ");
    write_items_array(out, &l.items, inner.as_str());
    out.append("\n");
    out.append(ind);
    out.append("}");
    proof {
        assert(out@ =~= old(out)@ + list_json(l@, ind@));
    }
}

/// Appends an array of lists.
#[verifier::rlimit(100)]
fn write_lists_array(out: &mut String, ls: &Vec<List>, ind: &str)
    ensures
        final(out)@ == old(out)@ + lists_array_json(lists_view(ls@), ind@),
{
    let ghost vs = lists_view(ls@);
    if ls.len() == 0 {
        out.append("[]");
        return ;
    }
    out.append("[\n");
    let inner = ind.to_owned().concat("  ");
    let mut k: usize = 0;
    while k < ls.len()
        invariant
            0 < ls@.len() == vs.len(),
            k <= ls@.len(),
            vs == lists_view(ls@),
            inner@ == ind@ + two(),
            k == 0 ==> out@ == old(out)@ + "[\n"@,
            0 < k ==> out@ == old(out)@ + "[\n"@ + lists_body(vs.take(k as int), inner@),
        decreases ls@.len() - k,
    {
        if k > 0 {
            out.append(",\n");
        }
        out.append(inner.as_str());
        write_list(out, &ls[k], inner.as_str());
        proof {
            assert(vs[k as int] == ls@[k as int]@);
            if k == 0 {
                assert(out@ =~= old(out)@ + "[\n"@ + lists_body(vs.take(1), inner@));
            } else {
                assert(vs.take(k as int + 1).drop_last() =~= vs.take(k as int));
                assert(vs.take(k as int + 1).last() == vs[k as int]);
                assert(out@ =~= old(out)@ + "[\n"@ + lists_body(vs.take(k as int + 1), inner@));
            }
        }
        k = k + 1;
    }
    out.append("\n");
    out.append(ind);
    out.append("]");
    proof {
        assert(vs.take(vs.len() as int) =~= vs);
        assert(out@ =~= old(out)@ + lists_array_json(vs, ind@));
    }
}

/// Appends the five scalar members.
#[verifier::rlimit(100)]
fn write_scalars(
    out: &mut String,
    id: &str,
    name: &str,
    color: &str,
    created_at: &str,
    updated_at: &str,
    ind: &str,
)
    ensures
        final(out)@ == old(out)@ + scalars_json(id@, name@, color@, created_at@, updated_at@, ind@),
{
    write_str_member(out, "id", id, ind, true);
    write_str_member(out, "name", name, ind, true);
    write_str_member(out, "color", color, ind, true);
    write_str_member(out, "createdAt", created_at, ind, true);
    write_str_member(out, "updatedAt", updated_at, ind, true);
    proof {
        assert(out@ =~= old(out)@ + scalars_json(
            id@,
            name@,
            color@,
            created_at@,
            updated_at@,
            ind@,
        ));
    }
}

/// Appends a project object.
#[verifier::rlimit(100)]
fn write_project(out: &mut String, p: &Project, ind: &str)
    ensures
        final(out)@ == old(out)@ + project_json(p@, ind@),
{
    out.append("{\n");
    write_scalars(
        out,
        p.id.as_str(),
        p.name.as_str(),
        p.color.as_str(),
        p.created_at.as_str(),
        p.updated_at.as_str(),
        ind,
    );
    out.append(ind);
    out.append("  ");
    out.append("\"lists\": ");
    let inner = ind.to_owned().concat("  ");
    match &p.lists {
        Option::Some(ids) => {
            write_ids_array(out, ids, inner.as_str());
        },
        Option::None => {
            out.append("null");
        },
    }
    out.append("\n");
    out.append(ind);
    out.append("}");
    proof {
        assert(out@ =~= old(out)@ + project_json(p@, ind@));
    }
}

/// Appends an array of projects.
#[verifier::rlimit(100)]
fn write_projects_array(out: &mut String, ps: &Vec<Project>, ind: &str)
    ensures
        final(out)@ == old(out)@ + projects_array_json(projects_view(ps@), ind@),
{
    let ghost vs = projects_view(ps@);
    if ps.len() == 0 {
        out.append("[]");
        return ;
    }
    out.append("[\n");
    let inner = ind.to_owned().concat("  ");
    let mut k: usize = 0;
    while k < ps.len()
        invariant
            0 < ps@.len() == vs.len(),
            k <= ps@.len(),
            vs == projects_view(ps@),
            inner@ == ind@ + two(),
            k == 0 ==> out@ == old(out)@ + "[\n"@,
            0 < k ==> out@ == old(out)@ + "[\n"@ + projects_body(vs.take(k as int), inner@),
        decreases ps@.len() - k,
    {
        if k > 0 {
            out.append(",\n");
        }
        out.append(inner.as_str());
        write_project(out, &ps[k], inner.as_str());
        proof {
            assert(vs[k as int] == ps@[k as int]@);
            if k == 0 {
                assert(out@ =~= old(out)@ + "[\n"@ + projects_body(vs.take(1), inner@));
            } else {
                assert(vs.take(k as int + 1).drop_last() =~= vs.take(k as int));
                assert(vs.take(k as int + 1).last() == vs[k as int]);
                assert(out@ =~= old(out)@ + "[\n"@ + projects_body(vs.take(k as int + 1), inner@));
            }
        }
        k = k + 1;
    }
    out.append("\n");
    out.append(ind);
    out.append("]");
    proof {
        assert(vs.take(vs.len() as int) =~= vs);
        assert(out@ =~= old(out)@ + projects_array_json(vs, ind@));
    }
}

/// The bytes that `get-all-projects` prints on success, as a function of the
/// decoded projects alone. Two runs that decode equal values print
/// byte-identical output.
pub fn render_all_projects(ps: &Vec<Project>) -> (r: String)
    ensures
        r@ == projects_json(projects_view(ps@)),
{
    let mut out = String::new();
    write_projects_array(&mut out, ps, "");
    proof {
        assert(out@ =~= projects_json(projects_view(ps@)));
    }
    out
}

/// The bytes that `get-project` prints on success, as a function of the
/// joined full project alone.
pub fn render_full_project(fp: &FullProject) -> (r: String)
    ensures
        r@ == full_project_json(fp@),
{
    let mut out = String::new();
    out.append("{\n");
    write_scalars(
        &mut out,
        fp.id.as_str(),
        fp.name.as_str(),
        fp.color.as_str(),
        fp.created_at.as_str(),
        fp.updated_at.as_str(),
        "",
    );
    out.append("  ");
    out.append("\"lists\": ");
    write_lists_array(&mut out, &fp.lists, "  ");
    out.append("\n");
    out.append("}");
    proof {
        reveal_strlit("");
        assert(out@ =~= full_project_json(fp@));
    }
    out
}

} // verus!
