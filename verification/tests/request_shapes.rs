//! The shape of every resource request: method, interpolated path, and
//! whether a body travels with it.

use todoist_client::models::CreateCommentArgs;
use todoist_client::models::CreateLabelArgs;
use todoist_client::models::CreateProjectArgs;
use todoist_client::models::CreateSectionArgs;
use todoist_client::models::CreateTaskArgs;
use todoist_client::requests::bearer_token_value;
use todoist_client::requests::complete_task_request;
use todoist_client::requests::create_comment_request;
use todoist_client::requests::create_label_request;
use todoist_client::requests::create_project_request;
use todoist_client::requests::create_section_request;
use todoist_client::requests::create_task_request;
use todoist_client::requests::delete_comment_request;
use todoist_client::requests::delete_label_request;
use todoist_client::requests::delete_project_request;
use todoist_client::requests::delete_section_request;
use todoist_client::requests::delete_task_request;
use todoist_client::requests::get_comment_request;
use todoist_client::requests::get_comments_request;
use todoist_client::requests::get_label_request;
use todoist_client::requests::get_labels_request;
use todoist_client::requests::get_project_request;
use todoist_client::requests::get_projects_request;
use todoist_client::requests::get_section_request;
use todoist_client::requests::get_sections_request;
use todoist_client::requests::get_task_request;
use todoist_client::requests::get_tasks_for_project_request;
use todoist_client::requests::get_tasks_request;
use todoist_client::requests::reopen_task_request;
use todoist_client::response::HttpMethod;

#[test]
fn list_requests_are_bare_gets() {
    for (req, path) in [
        (get_projects_request(), "/projects"),
        (get_tasks_request(), "/tasks"),
        (get_labels_request(), "/labels"),
        (get_sections_request(), "/sections"),
        (get_comments_request(), "/comments"),
    ] {
        assert_eq!(req.method, HttpMethod::Get);
        assert_eq!(req.path, path);
        assert!(req.query.is_empty());
        assert!(req.body.is_none());
    }
}

#[test]
fn single_item_gets_interpolate_the_id() {
    assert_eq!(get_project_request("2203306141").path, "/projects/2203306141");
    assert_eq!(get_task_request("6X7rM8997g3RQmvh").path, "/tasks/6X7rM8997g3RQmvh");
    assert_eq!(get_label_request("2156154810").path, "/labels/2156154810");
    assert_eq!(get_section_request("7025").path, "/sections/7025");
    assert_eq!(get_comment_request("2992679862").path, "/comments/2992679862");
}

#[test]
fn project_scoped_task_list_uses_an_inline_parameter() {
    let req = get_tasks_for_project_request("2203306141");
    assert_eq!(req.method, HttpMethod::Get);
    assert_eq!(req.path, "/tasks?project_id=2203306141");
    assert!(req.query.is_empty());
}

#[test]
fn task_state_transitions_post_to_close_and_reopen() {
    let close = complete_task_request("6X7rM8997g3RQmvh");
    assert_eq!(close.method, HttpMethod::Post);
    assert_eq!(close.path, "/tasks/6X7rM8997g3RQmvh/close");
    assert!(close.body.is_none());

    let reopen = reopen_task_request("6X7rM8997g3RQmvh");
    assert_eq!(reopen.method, HttpMethod::Post);
    assert_eq!(reopen.path, "/tasks/6X7rM8997g3RQmvh/reopen");
    assert!(reopen.body.is_none());
}

#[test]
fn deletes_are_bodyless() {
    for (req, path) in [
        (delete_project_request("1"), "/projects/1"),
        (delete_task_request("2"), "/tasks/2"),
        (delete_label_request("3"), "/labels/3"),
        (delete_section_request("4"), "/sections/4"),
        (delete_comment_request("5"), "/comments/5"),
    ] {
        assert_eq!(req.method, HttpMethod::Delete);
        assert_eq!(req.path, path);
        assert!(req.body.is_none());
    }
}

#[test]
fn creates_post_to_the_collection_with_a_body() {
    let task = create_task_request(&CreateTaskArgs {
        content: "Buy milk".to_string(),
        ..CreateTaskArgs::default()
    });
    assert_eq!(task.method, HttpMethod::Post);
    assert_eq!(task.path, "/tasks");
    assert_eq!(task.body.as_ref().unwrap().len(), 1);

    let project = create_project_request(&CreateProjectArgs {
        name: "Shopping List".to_string(),
        ..CreateProjectArgs::default()
    });
    assert_eq!(project.path, "/projects");
    assert!(project.body.is_some());

    let label = create_label_request(&CreateLabelArgs {
        name: "Food".to_string(),
        ..CreateLabelArgs::default()
    });
    assert_eq!(label.path, "/labels");

    let section = create_section_request(&CreateSectionArgs {
        name: "Groceries".to_string(),
        project_id: "2203306141".to_string(),
        order: None,
    });
    assert_eq!(section.path, "/sections");
    assert_eq!(section.body.as_ref().unwrap().len(), 2);

    let comment = create_comment_request(&CreateCommentArgs {
        content: "Looks good".to_string(),
        ..CreateCommentArgs::default()
    });
    assert_eq!(comment.path, "/comments");
}

#[test]
fn bearer_header_prefixes_the_token() {
    assert_eq!(bearer_token_value("SECRET-REDACTED"), "Bearer SECRET-REDACTED");
}
