//! Client-side validation of update calls: an update with no fields set fails
//! with a validation error before any request exists, and an update with at
//! least one field set produces the POST request.

use todoist_client::models::UpdateCommentArgs;
use todoist_client::models::UpdateLabelArgs;
use todoist_client::models::UpdateProjectArgs;
use todoist_client::models::UpdateSectionArgs;
use todoist_client::models::UpdateTaskArgs;
use todoist_client::requests::update_comment_request;
use todoist_client::requests::update_label_request;
use todoist_client::requests::update_project_request;
use todoist_client::requests::update_section_request;
use todoist_client::requests::update_task_request;
use todoist_client::response::HttpMethod;

#[test]
fn empty_task_update_is_rejected_without_a_request() {
    let args = UpdateTaskArgs::default();
    assert!(!args.has_updates());
    let r = update_task_request("6X7rM8997g3RQmvh", &args);
    match r {
        Err(e) => {
            assert!(e.is_validation_error());
            assert_eq!(e.describe(), "Validation error: No fields set for update");
        }
        Ok(_) => panic!("an empty update must not produce a request"),
    }
}

#[test]
fn empty_project_update_is_rejected_without_a_request() {
    let args = UpdateProjectArgs::default();
    assert!(!args.has_updates());
    let r = update_project_request("2203306141", &args);
    assert!(r.is_err());
    assert!(r.err().unwrap().is_validation_error());
}

#[test]
fn empty_label_update_is_rejected_without_a_request() {
    let args = UpdateLabelArgs::default();
    assert!(!args.has_updates());
    let r = update_label_request("2156154810", &args);
    assert!(r.is_err());
    assert!(r.err().unwrap().is_validation_error());
}

#[test]
fn empty_comment_update_is_rejected_without_a_request() {
    let args = UpdateCommentArgs::default();
    assert!(!args.has_updates());
    let r = update_comment_request("2992679862", &args);
    assert!(r.is_err());
    assert!(r.err().unwrap().is_validation_error());
}

#[test]
fn task_update_with_one_field_produces_a_post() {
    let args = UpdateTaskArgs {
        priority: Some(4),
        ..UpdateTaskArgs::default()
    };
    assert!(args.has_updates());
    let req = update_task_request("6X7rM8997g3RQmvh", &args).unwrap();
    assert_eq!(req.method, HttpMethod::Post);
    assert_eq!(req.path, "/tasks/6X7rM8997g3RQmvh");
    assert!(req.query.is_empty());
    assert!(req.body.is_some());
}

#[test]
fn project_update_with_one_field_produces_a_post() {
    let args = UpdateProjectArgs {
        name: Some("Shopping List".to_string()),
        ..UpdateProjectArgs::default()
    };
    let req = update_project_request("2203306141", &args).unwrap();
    assert_eq!(req.method, HttpMethod::Post);
    assert_eq!(req.path, "/projects/2203306141");
}

#[test]
fn label_update_with_one_field_produces_a_post() {
    let args = UpdateLabelArgs {
        color: Some("berry_red".to_string()),
        ..UpdateLabelArgs::default()
    };
    let req = update_label_request("2156154810", &args).unwrap();
    assert_eq!(req.method, HttpMethod::Post);
    assert_eq!(req.path, "/labels/2156154810");
}

#[test]
fn comment_update_with_content_produces_a_post() {
    let args = UpdateCommentArgs {
        content: "Need one bottle of milk".to_string(),
    };
    let req = update_comment_request("2992679862", &args).unwrap();
    assert_eq!(req.method, HttpMethod::Post);
    assert_eq!(req.path, "/comments/2992679862");
}

#[test]
fn section_update_always_produces_a_post() {
    let args = UpdateSectionArgs {
        name: "Groceries".to_string(),
    };
    let req = update_section_request("7025", &args);
    assert_eq!(req.method, HttpMethod::Post);
    assert_eq!(req.path, "/sections/7025");
    assert!(req.body.is_some());
}
