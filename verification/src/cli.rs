//! The command dispatcher's decisions.
//!
//! Seven subcommands map one-to-one onto the client's operations. Everything
//! the dispatcher decides from plain values is here: which request each
//! subcommand issues first, how the `done` argument is read, what each
//! mutating subcommand reports when its call fails, and how a creation
//! response is printed. Parsing the command line itself, and the process
//! exit, stay with the surrounding binary.

use vstd::prelude::*;

use crate::api::{
    ApiRequest, Method, all_projects_url, body_view, delete_list_item_request, delete_list_request,
    get_project_request, item_collection_url, item_query_url, list_all_projects_request,
    list_collection_url, list_query_url, new_list_body, new_list_item_body, new_list_item_request,
    new_list_request, project_url, update_item_body, update_item_request,
};

verus! {

/// The seven subcommand shapes, exactly as parsed from the command line.
/// The `done` argument stays a raw string here; `parse_done` reads it.
#[derive(Debug, Clone, PartialEq)]
pub enum CliCommand {
    GetAllProjects,
    GetProject { project_id: String },
    UpdateItem { item_id: String, done: String },
    NewList { project_id: String, name: String },
    NewListItem { list_id: String, name: String },
    DeleteList { list_id: String },
    DeleteListItem { item_id: String },
}

/// Reads the `done` argument: true exactly when it is the lowercase literal
/// `true`; anything else, including `TRUE` and `1`, is false. The strict
/// equality is kept deliberately for compatibility.
pub fn parse_done(done: &String) -> (r: bool)
    ensures
        r == (done@ == "true"@),
{
    let t = String::from_str("true");
    done.eq(&t)
}

/// The one request each subcommand issues, or the first of the composite's
/// requests for `get-project`: the documented method, path and body of the
/// operation the subcommand maps onto.
pub fn first_request(cmd: &CliCommand) -> (r: ApiRequest)
    ensures
        match *cmd {
            CliCommand::GetAllProjects => {
                &&& r.method == Method::Get
                &&& r.url@ == all_projects_url()
                &&& r.body is None
            },
            CliCommand::GetProject { project_id: ref id } => {
                &&& r.method == Method::Get
                &&& r.url@ == project_url(id@)
                &&& r.body is None
            },
            CliCommand::UpdateItem { item_id: ref id, done: ref d } => {
                &&& r.method == Method::Patch
                &&& r.url@ == item_collection_url()
                &&& body_view(r.body) == Option::Some(update_item_body(id@, d@ == "true"@))
            },
            CliCommand::NewList { project_id: ref id, name: ref n } => {
                &&& r.method == Method::Post
                &&& r.url@ == list_collection_url()
                &&& body_view(r.body) == Option::Some(new_list_body(id@, n@))
            },
            CliCommand::NewListItem { list_id: ref id, name: ref n } => {
                &&& r.method == Method::Post
                &&& r.url@ == item_collection_url()
                &&& body_view(r.body) == Option::Some(new_list_item_body(id@, n@))
            },
            CliCommand::DeleteList { list_id: ref id } => {
                &&& r.method == Method::Delete
                &&& r.url@ == list_query_url(id@)
                &&& r.body is None
            },
            CliCommand::DeleteListItem { item_id: ref id } => {
                &&& r.method == Method::Delete
                &&& r.url@ == item_query_url(id@)
                &&& r.body is None
            },
        },
{
    match cmd {
        CliCommand::GetAllProjects => list_all_projects_request(),
        CliCommand::GetProject { project_id } => get_project_request(project_id.as_str()),
        CliCommand::UpdateItem { item_id, done } => {
            let done_flag = parse_done(done);
            update_item_request(item_id.as_str(), done_flag)
        },
        CliCommand::NewList { project_id, name } => {
            new_list_request(project_id.as_str(), name.as_str())
        },
        CliCommand::NewListItem { list_id, name } => {
            new_list_item_request(list_id.as_str(), name.as_str())
        },
        CliCommand::DeleteList { list_id } => delete_list_request(list_id.as_str()),
        CliCommand::DeleteListItem { item_id } => delete_list_item_request(item_id.as_str()),
    }
}

/// The fixed message a mutating subcommand reports when its call fails. The
/// two read subcommands abort without a message of their own.
pub fn failure_message(cmd: &CliCommand) -> (r: Option<&'static str>)
    ensures
        match *cmd {
            CliCommand::GetAllProjects => r is None,
            CliCommand::GetProject { .. } => r is None,
            CliCommand::UpdateItem { .. } => {
                r matches Option::Some(m) && m@ == "Failed to update item"@
            },
            CliCommand::NewList { .. } => {
                r matches Option::Some(m) && m@ == "Failed to create list"@
            },
            CliCommand::NewListItem { .. } => {
                r matches Option::Some(m) && m@ == "Failed to create list item"@
            },
            CliCommand::DeleteList { .. } => {
                r matches Option::Some(m) && m@ == "Failed to delete list"@
            },
            CliCommand::DeleteListItem { .. } => {
                r matches Option::Some(m) && m@ == "Failed to delete item"@
            },
        },
{
    match cmd {
        CliCommand::GetAllProjects => Option::None,
        CliCommand::GetProject { .. } => Option::None,
        CliCommand::UpdateItem { .. } => Option::Some("Failed to update item"),
        CliCommand::NewList { .. } => Option::Some("Failed to create list"),
        CliCommand::NewListItem { .. } => Option::Some("Failed to create list item"),
        CliCommand::DeleteList { .. } => Option::Some("Failed to delete list"),
        CliCommand::DeleteListItem { .. } => Option::Some("Failed to delete item"),
    }
}

/// What a creation subcommand prints on success: the raw response body,
/// passed through verbatim and followed by one newline.
pub fn creation_output(body: String) -> (r: String)
    ensures
        r@ == body@ + "\n"@,
{
    body.concat("\n")
}

} // verus!
