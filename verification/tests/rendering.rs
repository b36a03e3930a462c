use todo_client::join::ProjectJoin;
use todo_client::json::write_quoted;
use todo_client::model::{FullProject, Id, List, ListItem, Project};
use todo_client::render::{render_all_projects, render_full_project};

fn quoted(s: &str) -> String {
    let mut out = String::new();
    write_quoted(&mut out, s);
    out
}

#[test]
fn quoting_matches_the_reference_encoder() {
    let samples: Vec<&str> = vec![
        "",
        "plain",
        "a\"b",
        "back\\slash",
        "line\nbreak\ttab\rret",
        "control\u{1}and\u{1f}chars\u{8}\u{c}",
        "h\u{e9}llo \u{fc}n\u{ef}code \u{2603}",
        "slash/and space",
    ];
    for s in samples {
        assert_eq!(quoted(s), serde_json::to_string(s).unwrap(), "mismatch for {:?}", s);
    }
}

#[test]
fn control_characters_use_lowercase_hex_escapes() {
    assert_eq!(quoted("\u{1}"), "\"\\u0001\"");
    assert_eq!(quoted("\u{1f}"), "\"\\u001f\"");
    assert_eq!(quoted("\u{b}"), "\"\\u000b\"");
}

#[test]
fn empty_project_array_prints_two_brackets() {
    let out = render_all_projects(&vec![]);
    assert_eq!(out, "[]");
}

fn sample_project() -> Project {
    Project {
        id: "p1".to_string(),
        name: "N".to_string(),
        color: "#fff".to_string(),
        created_at: "t1".to_string(),
        updated_at: "t2".to_string(),
        lists: Some(vec![Id { id: "l1".to_string() }, Id { id: "l2".to_string() }]),
    }
}

fn sample_lists() -> Vec<List> {
    vec![
        List {
            id: "l1".to_string(),
            name: "A".to_string(),
            project_id: "p1".to_string(),
            items: vec![],
        },
        List {
            id: "l2".to_string(),
            name: "B".to_string(),
            project_id: "p1".to_string(),
            items: vec![ListItem {
                id: "i1".to_string(),
                name: "x".to_string(),
                done: false,
                list_id: "l2".to_string(),
            }],
        },
    ]
}

#[test]
fn project_array_pretty_prints_with_two_space_indent() {
    let out = render_all_projects(&vec![sample_project()]);
    let expected = "[\n  {\n    \"id\": \"p1\",\n    \"name\": \"N\",\n    \"color\": \"#fff\",\n    \"createdAt\": \"t1\",\n    \"updatedAt\": \"t2\",\n    \"lists\": [\n      {\n        \"id\": \"l1\"\n      },\n      {\n        \"id\": \"l2\"\n      }\n    ]\n  }\n]";
    assert_eq!(out, expected);
}

#[test]
fn project_without_lists_prints_null() {
    let mut p = sample_project();
    p.lists = None;
    let out = render_all_projects(&vec![p]);
    assert!(out.contains("\"lists\": null"));
    let v: serde_json::Value = serde_json::from_str(&out).unwrap();
    assert!(v[0]["lists"].is_null());
}

fn joined_sample() -> FullProject {
    let mut join = ProjectJoin::new(sample_project()).expect("project names its lists");
    for l in sample_lists() {
        let next = join.next_list_id().expect("a list is still owed").clone();
        assert_eq!(next, l.id);
        join.add_list(l);
    }
    assert!(join.next_list_id().is_none());
    join.finish()
}

#[test]
fn full_project_pretty_prints_lists_in_input_order() {
    let fp = joined_sample();
    let out = render_full_project(&fp);
    let expected = "{\n  \"id\": \"p1\",\n  \"name\": \"N\",\n  \"color\": \"#fff\",\n  \"createdAt\": \"t1\",\n  \"updatedAt\": \"t2\",\n  \"lists\": [\n    {\n      \"id\": \"l1\",\n      \"name\": \"A\",\n      \"projectId\": \"p1\",\n      \"items\": []\n    },\n    {\n      \"id\": \"l2\",\n      \"name\": \"B\",\n      \"projectId\": \"p1\",\n      \"items\": [\n        {\n          \"id\": \"i1\",\n          \"name\": \"x\",\n          \"done\": false,\n          \"listId\": \"l2\"\n        }\n      ]\n    }\n  ]\n}";
    assert_eq!(out, expected);
}

#[test]
fn full_project_output_round_trips_as_json() {
    let fp = joined_sample();
    let out = render_full_project(&fp);
    let parsed: serde_json::Value = serde_json::from_str(&out).unwrap();
    let expected: serde_json::Value = serde_json::from_str(
        "{\"id\":\"p1\",\"name\":\"N\",\"color\":\"#fff\",\"createdAt\":\"t1\",\"updatedAt\":\"t2\",\
         \"lists\":[{\"id\":\"l1\",\"name\":\"A\",\"projectId\":\"p1\",\"items\":[]},\
         {\"id\":\"l2\",\"name\":\"B\",\"projectId\":\"p1\",\"items\":\
         [{\"id\":\"i1\",\"name\":\"x\",\"done\":false,\"listId\":\"l2\"}]}]}",
    )
    .unwrap();
    assert_eq!(parsed, expected);
}

#[test]
fn join_requests_follow_project_order_for_many_lists() {
    let k: usize = 5;
    let ids: Vec<Id> = (0..k).map(|n| Id { id: format!("l{}", n) }).collect();
    let project = Project {
        id: "p".to_string(),
        name: "n".to_string(),
        color: "c".to_string(),
        created_at: "t1".to_string(),
        updated_at: "t2".to_string(),
        lists: Some(ids),
    };
    let mut join = ProjectJoin::new(project).unwrap();
    let mut requested: Vec<String> = vec![];
    while let Some(id) = join.next_list_id() {
        let id = id.clone();
        requested.push(id.clone());
        join.add_list(List {
            id: id.clone(),
            name: format!("name of {}", id),
            project_id: "p".to_string(),
            items: vec![],
        });
    }
    let expected: Vec<String> = (0..k).map(|n| format!("l{}", n)).collect();
    assert_eq!(requested, expected);
    let fp = join.finish();
    let emitted: Vec<String> = fp.lists.iter().map(|l| l.id.clone()).collect();
    assert_eq!(emitted, expected);
    assert_eq!(fp.id, "p");
    assert_eq!(fp.name, "n");
    assert_eq!(fp.color, "c");
    assert_eq!(fp.created_at, "t1");
    assert_eq!(fp.updated_at, "t2");
}

#[test]
fn join_fails_when_project_names_no_lists() {
    let mut p = sample_project();
    p.lists = None;
    match ProjectJoin::new(p.clone()) {
        Ok(_) => panic!("a project without lists must not join"),
        Err(back) => assert_eq!(back, p),
    }
}

#[test]
fn repeated_reads_print_identical_bytes() {
    let ps = vec![sample_project()];
    let first = render_all_projects(&ps);
    let second = render_all_projects(&ps);
    assert_eq!(first, second);
    let fp = joined_sample();
    assert_eq!(render_full_project(&fp), render_full_project(&fp));
}
