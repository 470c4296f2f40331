//! Query-parameter construction for the list calls: only set filter fields
//! appear, in a fixed order, and the query string joins them after a `?`.

use todoist_client::models::CommentFilterArgs;
use todoist_client::models::LabelFilterArgs;
use todoist_client::models::ProjectFilterArgs;
use todoist_client::models::SectionFilterArgs;
use todoist_client::models::TaskFilterArgs;
use todoist_client::query::comment_filter_params;
use todoist_client::query::label_filter_params;
use todoist_client::query::project_filter_params;
use todoist_client::query::query_string;
use todoist_client::query::section_filter_params;
use todoist_client::query::task_filter_params;
use todoist_client::requests::request_url;

fn pairs(params: &[(String, String)]) -> Vec<(&str, &str)> {
    params.iter().map(|p| (p.0.as_str(), p.1.as_str())).collect()
}

#[test]
fn task_filter_includes_only_set_fields() {
    let args = TaskFilterArgs {
        query: "today".to_string(),
        lang: None,
        limit: Some(10),
        cursor: None,
    };
    let params = task_filter_params(&args);
    assert_eq!(pairs(&params), vec![("query", "today"), ("limit", "10")]);
    let qs = query_string(&params);
    assert_eq!(qs, "?query=today&limit=10");
    assert!(!qs.contains("lang"));
    assert!(!qs.contains("cursor"));
}

#[test]
fn task_filter_with_every_field_set_keeps_the_order() {
    let args = TaskFilterArgs {
        query: "overdue".to_string(),
        lang: Some("en".to_string()),
        limit: Some(50),
        cursor: Some("opaque-cursor".to_string()),
    };
    let params = task_filter_params(&args);
    assert_eq!(
        pairs(&params),
        vec![
            ("query", "overdue"),
            ("lang", "en"),
            ("limit", "50"),
            ("cursor", "opaque-cursor"),
        ]
    );
}

#[test]
fn project_filter_without_fields_yields_no_query_string() {
    let args = ProjectFilterArgs { limit: None, cursor: None };
    let params = project_filter_params(&args);
    assert!(params.is_empty());
    assert_eq!(query_string(&params), "");
}

#[test]
fn label_filter_orders_limit_before_cursor() {
    let args = LabelFilterArgs {
        limit: Some(5),
        cursor: Some("abc".to_string()),
    };
    assert_eq!(pairs(&label_filter_params(&args)), vec![("limit", "5"), ("cursor", "abc")]);
}

#[test]
fn section_filter_scopes_by_project() {
    let args = SectionFilterArgs {
        project_id: Some("2203306141".to_string()),
        limit: None,
        cursor: None,
    };
    assert_eq!(pairs(&section_filter_params(&args)), vec![("project_id", "2203306141")]);
}

#[test]
fn comment_filter_orders_task_before_project() {
    let args = CommentFilterArgs {
        task_id: Some("6X7rM8997g3RQmvh".to_string()),
        project_id: Some("2203306141".to_string()),
        limit: Some(30),
        cursor: None,
    };
    assert_eq!(
        pairs(&comment_filter_params(&args)),
        vec![
            ("task_id", "6X7rM8997g3RQmvh"),
            ("project_id", "2203306141"),
            ("limit", "30"),
        ]
    );
}

#[test]
fn request_url_appends_path_and_query_to_the_base() {
    let args = TaskFilterArgs {
        query: "today".to_string(),
        lang: None,
        limit: Some(10),
        cursor: None,
    };
    let params = task_filter_params(&args);
    let url = request_url("/tasks", &params);
    assert_eq!(url, "https://api.todoist.com/rest/v2/tasks?query=today&limit=10");
}

#[test]
fn request_url_without_params_is_base_and_path() {
    let url = request_url("/projects/2203306141", &Vec::new());
    assert_eq!(url, "https://api.todoist.com/rest/v2/projects/2203306141");
}

#[test]
fn negative_limit_is_written_with_a_minus_sign() {
    let args = ProjectFilterArgs { limit: Some(-3), cursor: None };
    assert_eq!(pairs(&project_filter_params(&args)), vec![("limit", "-3")]);
}
