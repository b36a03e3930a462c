use todo_client::api::{
    call_succeeded, delete_list_item_request, delete_list_request, get_list_request,
    get_project_request, list_all_projects_request, new_list_item_request, new_list_request,
    update_item_request, ApiRequest, Method,
};
use todo_client::cli::{creation_output, failure_message, first_request, parse_done, CliCommand};

#[test]
fn all_projects_request_is_get_on_documented_path() {
    let r = list_all_projects_request();
    assert_eq!(r.method, Method::Get);
    assert_eq!(r.url, "http://localhost:3000/api/project/all");
    assert!(r.body.is_none());
}

#[test]
fn get_project_request_appends_raw_id() {
    let r = get_project_request("p1");
    assert_eq!(r.method, Method::Get);
    assert_eq!(r.url, "http://localhost:3000/api/project?id=p1");
    assert!(r.body.is_none());
    // The id is deliberately not URL-encoded.
    let odd = get_project_request("a b&c");
    assert_eq!(odd.url, "http://localhost:3000/api/project?id=a b&c");
}

#[test]
fn get_list_request_appends_raw_id() {
    let r = get_list_request("l1");
    assert_eq!(r.method, Method::Get);
    assert_eq!(r.url, "http://localhost:3000/api/project/list?id=l1");
    assert!(r.body.is_none());
}

#[test]
fn update_item_request_patches_documented_body() {
    let r = update_item_request("i1", true);
    assert_eq!(r.method, Method::Patch);
    assert_eq!(r.url, "http://localhost:3000/api/project/list/item");
    let body = r.body.expect("update carries a body");
    assert_eq!(body, "{\"id\":\"i1\",\"data\":{\"done\":true}}");
    let v: serde_json::Value = serde_json::from_str(&body).unwrap();
    let obj = v.as_object().unwrap();
    assert_eq!(obj.len(), 2);
    assert_eq!(v["id"], serde_json::Value::String("i1".to_string()));
    let data = v["data"].as_object().unwrap();
    assert_eq!(data.len(), 1);
    assert!(v["data"]["done"].is_boolean());
    assert_eq!(v["data"]["done"], serde_json::Value::Bool(true));
}

#[test]
fn new_list_request_posts_documented_body() {
    let r = new_list_request("p1", "Groceries");
    assert_eq!(r.method, Method::Post);
    assert_eq!(r.url, "http://localhost:3000/api/project/list");
    let body = r.body.expect("creation carries a body");
    assert_eq!(body, "{\"name\":\"Groceries\",\"projectId\":\"p1\"}");
    let v: serde_json::Value = serde_json::from_str(&body).unwrap();
    let obj = v.as_object().unwrap();
    assert_eq!(obj.len(), 2);
    assert_eq!(v["name"], serde_json::Value::String("Groceries".to_string()));
    assert_eq!(v["projectId"], serde_json::Value::String("p1".to_string()));
}

#[test]
fn new_list_item_request_posts_documented_body() {
    let r = new_list_item_request("l2", "milk");
    assert_eq!(r.method, Method::Post);
    assert_eq!(r.url, "http://localhost:3000/api/project/list/item");
    let body = r.body.expect("creation carries a body");
    assert_eq!(body, "{\"name\":\"milk\",\"listId\":\"l2\"}");
    let v: serde_json::Value = serde_json::from_str(&body).unwrap();
    let obj = v.as_object().unwrap();
    assert_eq!(obj.len(), 2);
    assert_eq!(v["name"], serde_json::Value::String("milk".to_string()));
    assert_eq!(v["listId"], serde_json::Value::String("l2".to_string()));
}

#[test]
fn delete_requests_use_documented_paths() {
    let r = delete_list_request("l9");
    assert_eq!(r.method, Method::Delete);
    assert_eq!(r.url, "http://localhost:3000/api/project/list?id=l9");
    assert!(r.body.is_none());
    let r = delete_list_item_request("i9");
    assert_eq!(r.method, Method::Delete);
    assert_eq!(r.url, "http://localhost:3000/api/project/list/item?id=i9");
    assert!(r.body.is_none());
}

#[test]
fn request_bodies_escape_special_characters() {
    let r = new_list_request("p\"1", "a\\b\nc");
    let body = r.body.unwrap();
    let v: serde_json::Value = serde_json::from_str(&body).unwrap();
    assert_eq!(v["name"], serde_json::Value::String("a\\b\nc".to_string()));
    assert_eq!(v["projectId"], serde_json::Value::String("p\"1".to_string()));
}

#[test]
fn parse_done_is_strict_lowercase_equality() {
    assert!(parse_done(&"true".to_string()));
    assert!(!parse_done(&"maybe".to_string()));
    assert!(!parse_done(&"TRUE".to_string()));
    assert!(!parse_done(&"1".to_string()));
    assert!(!parse_done(&"false".to_string()));
    assert!(!parse_done(&"".to_string()));
}

#[test]
fn update_item_with_unrecognized_done_sends_false() {
    let cmd = CliCommand::UpdateItem { item_id: "i1".to_string(), done: "maybe".to_string() };
    let r = first_request(&cmd);
    assert_eq!(r.body.as_deref(), Some("{\"id\":\"i1\",\"data\":{\"done\":false}}"));
}

#[test]
fn each_subcommand_maps_to_documented_method_and_path() {
    let cases: Vec<(CliCommand, Method, &str)> = vec![
        (CliCommand::GetAllProjects, Method::Get, "http://localhost:3000/api/project/all"),
        (
            CliCommand::GetProject { project_id: "p1".to_string() },
            Method::Get,
            "http://localhost:3000/api/project?id=p1",
        ),
        (
            CliCommand::UpdateItem { item_id: "i1".to_string(), done: "true".to_string() },
            Method::Patch,
            "http://localhost:3000/api/project/list/item",
        ),
        (
            CliCommand::NewList { project_id: "p1".to_string(), name: "Groceries".to_string() },
            Method::Post,
            "http://localhost:3000/api/project/list",
        ),
        (
            CliCommand::NewListItem { list_id: "l1".to_string(), name: "milk".to_string() },
            Method::Post,
            "http://localhost:3000/api/project/list/item",
        ),
        (
            CliCommand::DeleteList { list_id: "l9".to_string() },
            Method::Delete,
            "http://localhost:3000/api/project/list?id=l9",
        ),
        (
            CliCommand::DeleteListItem { item_id: "i9".to_string() },
            Method::Delete,
            "http://localhost:3000/api/project/list/item?id=i9",
        ),
    ];
    for (cmd, method, url) in cases {
        let r: ApiRequest = first_request(&cmd);
        assert_eq!(r.method, method);
        assert_eq!(r.url, url);
    }
}

#[test]
fn failure_messages_match_original_wording() {
    assert_eq!(
        failure_message(&CliCommand::UpdateItem {
            item_id: "i1".to_string(),
            done: "true".to_string(),
        }),
        Some("Failed to update item"),
    );
    assert_eq!(
        failure_message(&CliCommand::NewList {
            project_id: "p1".to_string(),
            name: "n".to_string(),
        }),
        Some("Failed to create list"),
    );
    assert_eq!(
        failure_message(&CliCommand::NewListItem {
            list_id: "l1".to_string(),
            name: "n".to_string(),
        }),
        Some("Failed to create list item"),
    );
    assert_eq!(
        failure_message(&CliCommand::DeleteList { list_id: "l9".to_string() }),
        Some("Failed to delete list"),
    );
    assert_eq!(
        failure_message(&CliCommand::DeleteListItem { item_id: "i9".to_string() }),
        Some("Failed to delete item"),
    );
    assert_eq!(failure_message(&CliCommand::GetAllProjects), None);
    assert_eq!(
        failure_message(&CliCommand::GetProject { project_id: "p1".to_string() }),
        None,
    );
}

#[test]
fn creation_output_appends_one_newline() {
    assert_eq!(creation_output("l7".to_string()), "l7\n");
    assert_eq!(creation_output("".to_string()), "\n");
}

#[test]
fn only_2xx_statuses_count_as_success() {
    assert!(call_succeeded(Some(200)));
    assert!(call_succeeded(Some(204)));
    assert!(call_succeeded(Some(299)));
    assert!(!call_succeeded(Some(199)));
    assert!(!call_succeeded(Some(300)));
    assert!(!call_succeeded(Some(404)));
    assert!(!call_succeeded(Some(500)));
    assert!(!call_succeeded(None));
}
