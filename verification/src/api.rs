//! Typed descriptions of the service's REST calls.
//!
//! Every operation of the client is described here as a plain value: an HTTP
//! method, a URL, and an optional JSON body. The surrounding binary performs
//! the transfer; the contracts pin down exactly which bytes each operation
//! sends. Identifiers are appended to query strings without URL-encoding,
//! a known limitation kept for wire compatibility.

use vstd::prelude::*;

use crate::json::{bool_json, quoted, write_bool, write_quoted};

verus! {

/// The HTTP methods the client uses.
#[derive(Debug, Clone, Copy, PartialEq, Eq, Structural)]
pub enum Method {
    Get,
    Post,
    Patch,
    Delete,
}

/// One HTTP request, fully determined: method, URL, and optional body.
/// A request with a body is sent with a JSON content type.
#[derive(Debug, Clone, PartialEq)]
pub struct ApiRequest {
    pub method: Method,
    pub url: String,
    pub body: Option<String>,
}

/// The view of an optional request body.
pub open spec fn body_view(b: Option<String>) -> Option<Seq<char>> {
    match b {
        Option::Some(s) => Option::Some(s@),
        Option::None => Option::None,
    }
}

/// The fixed URL of the "all projects" read.
pub open spec fn all_projects_url() -> Seq<char> {
    "http://localhost:3000/api/project/all"@
}

/// The URL of the single-project read, id appended unencoded.
pub open spec fn project_url(id: Seq<char>) -> Seq<char> {
    "http://localhost:3000/api/project?id="@ + id
}

/// The URL of the single-list read or delete, id appended unencoded.
pub open spec fn list_query_url(list_id: Seq<char>) -> Seq<char> {
    "http://localhost:3000/api/project/list?id="@ + list_id
}

/// The URL of the item delete, id appended unencoded.
pub open spec fn item_query_url(item_id: Seq<char>) -> Seq<char> {
    "http://localhost:3000/api/project/list/item?id="@ + item_id
}

/// The fixed URL that list creation posts to.
pub open spec fn list_collection_url() -> Seq<char> {
    "http://localhost:3000/api/project/list"@
}

/// The fixed URL that item creation posts to and item update patches.
pub open spec fn item_collection_url() -> Seq<char> {
    "http://localhost:3000/api/project/list/item"@
}

/// The body of the item update: `{"id": <itemId>, "data": {"done": <bool>}}`.
pub open spec fn update_item_body(item_id: Seq<char>, done: bool) -> Seq<char> {
    "{\"id\":"@ + quoted(item_id) + ",\"data\":{\"done\":"@ + bool_json(done) + "}}"@
}

/// The body of list creation: `{"name": <name>, "projectId": <projectId>}`.
pub open spec fn new_list_body(project_id: Seq<char>, name: Seq<char>) -> Seq<char> {
    "{\"name\":"@ + quoted(name) + ",\"projectId\":"@ + quoted(project_id) + "}"@
}

/// The body of item creation: `{"name": <name>, "listId": <listId>}`.
pub open spec fn new_list_item_body(list_id: Seq<char>, name: Seq<char>) -> Seq<char> {
    "{\"name\":"@ + quoted(name) + ",\"listId\":"@ + quoted(list_id) + "}"@
}

/// GET of every project.
pub fn list_all_projects_request() -> (r: ApiRequest)
    ensures
        r.method == Method::Get,
        r.url@ == all_projects_url(),
        r.body is None,
{
    ApiRequest {
        method: Method::Get,
        url: String::from_str("http://localhost:3000/api/project/all"),
        body: Option::None,
    }
}

/// GET of one project by id.
pub fn get_project_request(project_id: &str) -> (r: ApiRequest)
    ensures
        r.method == Method::Get,
        r.url@ == project_url(project_id@),
        r.body is None,
{
    ApiRequest {
        method: Method::Get,
        url: String::from_str("http://localhost:3000/api/project?id=").concat(project_id),
        body: Option::None,
    }
}

/// GET of one list by id.
pub fn get_list_request(list_id: &str) -> (r: ApiRequest)
    ensures
        r.method == Method::Get,
        r.url@ == list_query_url(list_id@),
        r.body is None,
{
    ApiRequest {
        method: Method::Get,
        url: String::from_str("http://localhost:3000/api/project/list?id=").concat(list_id),
        body: Option::None,
    }
}

/// PATCH that sets an item's done flag.
pub fn update_item_request(item_id: &str, done: bool) -> (r: ApiRequest)
    ensures
        r.method == Method::Patch,
        r.url@ == item_collection_url(),
        body_view(r.body) == Option::Some(update_item_body(item_id@, done)),
{
    let mut body = String::from_str("{\"id\":");
    write_quoted(&mut body, item_id);
    body.append(",\"data\":{\"done\":");
    write_bool(&mut body, done);
    body.append("}}");
    proof {
        assert(body@ =~= update_item_body(item_id@, done));
    }
    ApiRequest {
        method: Method::Patch,
        url: String::from_str("http://localhost:3000/api/project/list/item"),
        body: Option::Some(body),
    }
}

/// POST that creates a list in a project.
pub fn new_list_request(project_id: &str, name: &str) -> (r: ApiRequest)
    ensures
        r.method == Method::Post,
        r.url@ == list_collection_url(),
        body_view(r.body) == Option::Some(new_list_body(project_id@, name@)),
{
    let mut body = String::from_str("{\"name\":");
    write_quoted(&mut body, name);
    body.append(",\"projectId\":");
    write_quoted(&mut body, project_id);
    body.append("}");
    proof {
        assert(body@ =~= new_list_body(project_id@, name@));
    }
    ApiRequest {
        method: Method::Post,
        url: String::from_str("http://localhost:3000/api/project/list"),
        body: Option::Some(body),
    }
}

/// POST that creates an item in a list.
pub fn new_list_item_request(list_id: &str, name: &str) -> (r: ApiRequest)
    ensures
        r.method == Method::Post,
        r.url@ == item_collection_url(),
        body_view(r.body) == Option::Some(new_list_item_body(list_id@, name@)),
{
    let mut body = String::from_str("{\"name\":");
    write_quoted(&mut body, name);
    body.append(",\"listId\":");
    write_quoted(&mut body, list_id);
    body.append("}");
    proof {
        assert(body@ =~= new_list_item_body(list_id@, name@));
    }
    ApiRequest {
        method: Method::Post,
        url: String::from_str("http://localhost:3000/api/project/list/item"),
        body: Option::Some(body),
    }
}

/// DELETE of one list by id.
pub fn delete_list_request(list_id: &str) -> (r: ApiRequest)
    ensures
        r.method == Method::Delete,
        r.url@ == list_query_url(list_id@),
        r.body is None,
{
    ApiRequest {
        method: Method::Delete,
        url: String::from_str("http://localhost:3000/api/project/list?id=").concat(list_id),
        body: Option::None,
    }
}

/// DELETE of one item by id.
pub fn delete_list_item_request(item_id: &str) -> (r: ApiRequest)
    ensures
        r.method == Method::Delete,
        r.url@ == item_query_url(item_id@),
        r.body is None,
{
    ApiRequest {
        method: Method::Delete,
        url: String::from_str("http://localhost:3000/api/project/list/item?id=").concat(item_id),
        body: Option::None,
    }
}

/// Whether an HTTP status code counts as success: any 2xx status.
pub open spec fn is_success_status(status: u16) -> bool {
    200 <= status < 300
}

/// The single negative outcome of the flat error model: a transport failure
/// (no status at all) and a non-2xx status collapse into failure.
pub fn call_succeeded(status: Option<u16>) -> (r: bool)
    ensures
        r == match status {
            Option::Some(s) => is_success_status(s),
            Option::None => false,
        },
{
    match status {
        Option::Some(s) => 200 <= s && s < 300,
        Option::None => false,
    }
}

} // verus!
