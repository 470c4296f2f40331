//! Send-if-set body construction: a body holds exactly the fields that are
//! set, and encoding a fully populated create body to JSON and reading it
//! back preserves every value.

use todoist_client::bodies::create_comment_body;
use todoist_client::bodies::create_project_body;
use todoist_client::bodies::create_section_body;
use todoist_client::bodies::create_task_body;
use todoist_client::bodies::update_label_body;
use todoist_client::bodies::update_project_body;
use todoist_client::bodies::update_task_body;
use todoist_client::json::body_to_json;
use todoist_client::json::FieldValue;
use todoist_client::models::Attachment;
use todoist_client::models::CreateCommentArgs;
use todoist_client::models::CreateProjectArgs;
use todoist_client::models::CreateSectionArgs;
use todoist_client::models::CreateTaskArgs;
use todoist_client::models::UpdateLabelArgs;
use todoist_client::models::UpdateProjectArgs;
use todoist_client::models::UpdateTaskArgs;

fn keys(fields: &[(String, FieldValue)]) -> Vec<&str> {
    fields.iter().map(|p| p.0.as_str()).collect()
}

#[test]
fn update_task_body_holds_exactly_the_set_fields() {
    let args = UpdateTaskArgs {
        content: Some("Buy milk".to_string()),
        priority: Some(3),
        labels: Some(vec!["errand".to_string(), "home".to_string()]),
        ..UpdateTaskArgs::default()
    };
    let fields = update_task_body(&args);
    assert_eq!(keys(&fields), vec!["content", "priority", "labels"]);
    assert_eq!(
        fields[0].1,
        FieldValue::Text("Buy milk".to_string())
    );
    assert_eq!(fields[1].1, FieldValue::Number(3));
    assert_eq!(
        fields[2].1,
        FieldValue::TextList(vec!["errand".to_string(), "home".to_string()])
    );
}

#[test]
fn update_project_body_omits_absent_fields_entirely() {
    let args = UpdateProjectArgs {
        is_favorite: Some(false),
        ..UpdateProjectArgs::default()
    };
    let fields = update_project_body(&args);
    assert_eq!(keys(&fields), vec!["is_favorite"]);
    assert_eq!(fields[0].1, FieldValue::Flag(false));
}

#[test]
fn update_label_body_with_every_field_set() {
    let args = UpdateLabelArgs {
        name: Some("Food".to_string()),
        color: Some("lime_green".to_string()),
        order: Some(-2),
        is_favorite: Some(true),
    };
    let fields = update_label_body(&args);
    assert_eq!(keys(&fields), vec!["name", "color", "order", "is_favorite"]);
    assert_eq!(fields[2].1, FieldValue::Number(-2));
}

#[test]
fn create_section_body_keeps_mandatory_fields_first() {
    let args = CreateSectionArgs {
        name: "Groceries".to_string(),
        project_id: "2203306141".to_string(),
        order: None,
    };
    let fields = create_section_body(&args);
    assert_eq!(keys(&fields), vec!["name", "project_id"]);
}

#[test]
fn create_task_body_with_every_field_set_round_trips_through_json() {
    let args = CreateTaskArgs {
        content: "Buy milk".to_string(),
        description: Some("Two bottles".to_string()),
        project_id: Some("2203306141".to_string()),
        section_id: Some("7025".to_string()),
        parent_id: Some("6X7rM8997g3RQmvh".to_string()),
        order: Some(1),
        priority: Some(4),
        labels: Some(vec!["errand".to_string(), "home".to_string()]),
        due_string: Some("tomorrow at noon".to_string()),
        due_date: Some("2024-06-01".to_string()),
        due_datetime: Some("2024-06-01T12:00:00Z".to_string()),
        due_lang: Some("en".to_string()),
        deadline_date: Some("2024-06-30".to_string()),
        deadline_lang: Some("en".to_string()),
        assignee_id: Some("2671355".to_string()),
        duration: Some(45),
        duration_unit: Some("minute".to_string()),
    };
    let fields = create_task_body(&args);
    assert_eq!(fields.len(), 17);

    let value = body_to_json(&fields);
    let text = serde_json::to_string(&value).unwrap();
    let back: serde_json::Value = serde_json::from_str(&text).unwrap();

    assert_eq!(back["content"], serde_json::Value::String("Buy milk".to_string()));
    assert_eq!(back["description"], serde_json::Value::String("Two bottles".to_string()));
    assert_eq!(back["project_id"], serde_json::Value::String("2203306141".to_string()));
    assert_eq!(back["section_id"], serde_json::Value::String("7025".to_string()));
    assert_eq!(back["parent_id"], serde_json::Value::String("6X7rM8997g3RQmvh".to_string()));
    assert_eq!(back["order"], serde_json::Value::from(1));
    assert_eq!(back["priority"], serde_json::Value::from(4));
    let labels: Vec<String> = back["labels"]
        .as_array()
        .unwrap()
        .iter()
        .map(|v| v.as_str().unwrap().to_string())
        .collect();
    assert_eq!(labels, vec!["errand".to_string(), "home".to_string()]);
    assert_eq!(back["due_string"], serde_json::Value::String("tomorrow at noon".to_string()));
    assert_eq!(back["due_date"], serde_json::Value::String("2024-06-01".to_string()));
    assert_eq!(
        back["due_datetime"],
        serde_json::Value::String("2024-06-01T12:00:00Z".to_string())
    );
    assert_eq!(back["due_lang"], serde_json::Value::String("en".to_string()));
    assert_eq!(back["deadline_date"], serde_json::Value::String("2024-06-30".to_string()));
    assert_eq!(back["deadline_lang"], serde_json::Value::String("en".to_string()));
    assert_eq!(back["assignee_id"], serde_json::Value::String("2671355".to_string()));
    assert_eq!(back["duration"], serde_json::Value::from(45));
    assert_eq!(back["duration_unit"], serde_json::Value::String("minute".to_string()));
}

#[test]
fn encoded_body_has_no_key_for_absent_fields() {
    let args = CreateProjectArgs {
        name: "Shopping List".to_string(),
        color: None,
        parent_id: None,
        is_favorite: Some(true),
        view_style: None,
    };
    let value = body_to_json(&create_project_body(&args));
    let object = value.as_object().unwrap();
    assert_eq!(object.len(), 2);
    assert!(object.contains_key("name"));
    assert!(object.contains_key("is_favorite"));
    assert!(!object.contains_key("color"));
    assert!(!object.contains_key("parent_id"));
    assert!(!object.contains_key("view_style"));
    assert_eq!(object["is_favorite"], serde_json::Value::Bool(true));
}

#[test]
fn comment_attachment_encodes_as_a_nested_object() {
    let args = CreateCommentArgs {
        content: "Attaching the receipt".to_string(),
        task_id: Some("6X7rM8997g3RQmvh".to_string()),
        project_id: None,
        attachment: Some(Attachment {
            file_name: "receipt.pdf".to_string(),
            file_type: "application/pdf".to_string(),
            file_url: "https://cdn.example.com/receipt.pdf".to_string(),
            resource_type: "file".to_string(),
        }),
    };
    let value = body_to_json(&create_comment_body(&args));
    let object = value.as_object().unwrap();
    assert_eq!(object.len(), 3);
    let attachment = object["attachment"].as_object().unwrap();
    assert_eq!(attachment["file_name"], serde_json::Value::String("receipt.pdf".to_string()));
    assert_eq!(
        attachment["file_type"],
        serde_json::Value::String("application/pdf".to_string())
    );
    assert_eq!(
        attachment["file_url"],
        serde_json::Value::String("https://cdn.example.com/receipt.pdf".to_string())
    );
    assert_eq!(attachment["resource_type"], serde_json::Value::String("file".to_string()));
}
