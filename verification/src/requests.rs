//! One request description per resource method: the HTTP method, the
//! interpolated path, the query parameters and the body that the call sends.
//! The transport shell executes an [`ApiRequest`] verbatim; everything about
//! its content is decided and verified here.

use vstd::prelude::*;

use crate::bodies::create_comment_body;
use crate::bodies::create_label_body;
use crate::bodies::create_project_body;
use crate::bodies::create_section_body;
use crate::bodies::create_task_body;
use crate::bodies::spec_create_comment_body;
use crate::bodies::spec_create_label_body;
use crate::bodies::spec_create_project_body;
use crate::bodies::spec_create_section_body;
use crate::bodies::spec_create_task_body;
use crate::bodies::spec_update_comment_body;
use crate::bodies::spec_update_label_body;
use crate::bodies::spec_update_project_body;
use crate::bodies::spec_update_section_body;
use crate::bodies::spec_update_task_body;
use crate::bodies::update_comment_body;
use crate::bodies::update_label_body;
use crate::bodies::update_project_body;
use crate::bodies::update_section_body;
use crate::bodies::update_task_body;
use crate::error::ErrorSpec;
use crate::error::TodoistError;
use crate::json::BodyFields;
use crate::json::BodyFieldsSpec;
use crate::models::CommentFilterArgs;
use crate::models::CreateCommentArgs;
use crate::models::CreateLabelArgs;
use crate::models::CreateProjectArgs;
use crate::models::CreateSectionArgs;
use crate::models::CreateTaskArgs;
use crate::models::LabelFilterArgs;
use crate::models::ProjectFilterArgs;
use crate::models::SectionFilterArgs;
use crate::models::TaskFilterArgs;
use crate::models::UpdateCommentArgs;
use crate::models::UpdateLabelArgs;
use crate::models::UpdateProjectArgs;
use crate::models::UpdateSectionArgs;
use crate::models::UpdateTaskArgs;
use crate::query::comment_filter_params;
use crate::query::label_filter_params;
use crate::query::project_filter_params;
use crate::query::query_string;
use crate::query::section_filter_params;
use crate::query::spec_comment_filter_params;
use crate::query::spec_label_filter_params;
use crate::query::spec_project_filter_params;
use crate::query::spec_query_string;
use crate::query::spec_section_filter_params;
use crate::query::spec_task_filter_params;
use crate::query::task_filter_params;
use crate::response::HttpMethod;
use crate::TODOIST_API_BASE;

verus! {

/// One outbound request, ready for the transport: method, path (with ids
/// already interpolated), ordered query parameters, and the body fields, if
/// any.
#[derive(Debug)]
pub struct ApiRequest {
    pub method: HttpMethod,
    pub path: String,
    pub query: Vec<(String, String)>,
    pub body: Option<BodyFields>,
}

/// Mathematical mirror of an [`ApiRequest`].
pub ghost struct RequestSpec {
    pub method: HttpMethod,
    pub path: Seq<char>,
    pub query: Seq<(Seq<char>, Seq<char>)>,
    pub body: Option<BodyFieldsSpec>,
}

impl View for ApiRequest {
    type V = RequestSpec;

    open spec fn view(&self) -> RequestSpec {
        RequestSpec {
            method: self.method,
            path: self.path@,
            query: self.query.deep_view(),
            body: self.body.deep_view(),
        }
    }
}

/// The message of the validation error raised client-side when an update
/// carries no fields.
pub open spec fn no_update_fields_message() -> Seq<char> {
    "No fields set for update"@
}

/// The error an update call fails with, before any network activity, when its
/// arguments have no fields set.
pub open spec fn no_update_fields_error() -> ErrorSpec {
    ErrorSpec::ValidationError { field: None, message: no_update_fields_message() }
}

fn empty_update_error() -> (r: TodoistError)
    ensures
        r@ == no_update_fields_error(),
{
    TodoistError::ValidationError { field: None, message: "No fields set for update".to_owned() }
}

fn join_path(prefix: &str, id: &str) -> (r: String)
    ensures
        r@ == prefix@ + id@,
{
    let mut path = prefix.to_owned();
    path.append(id);
    path
}

fn join_path_with_suffix(prefix: &str, id: &str, suffix: &str) -> (r: String)
    ensures
        r@ == prefix@ + id@ + suffix@,
{
    let mut path = prefix.to_owned();
    path.append(id);
    path.append(suffix);
    path
}

fn bare_request(method: HttpMethod, path: String) -> (r: ApiRequest)
    ensures
        r@ == (RequestSpec {
            method,
            path: path@,
            query: Seq::<(Seq<char>, Seq<char>)>::empty(),
            body: None,
        }),
{
    let r = ApiRequest { method, path, query: Vec::new(), body: None };
    proof {
        assert(r.query.deep_view() =~= Seq::<(Seq<char>, Seq<char>)>::empty());
    }
    r
}

fn body_request(method: HttpMethod, path: String, body: BodyFields) -> (r: ApiRequest)
    ensures
        r@ == (RequestSpec {
            method,
            path: path@,
            query: Seq::<(Seq<char>, Seq<char>)>::empty(),
            body: Some(body.deep_view()),
        }),
{
    let r = ApiRequest { method, path, query: Vec::new(), body: Some(body) };
    proof {
        assert(r.query.deep_view() =~= Seq::<(Seq<char>, Seq<char>)>::empty());
    }
    r
}

/// The full URL of a request: the API base, the path, and the query-string
/// suffix.
pub fn request_url(path: &str, params: &Vec<(String, String)>) -> (r: String)
    ensures
        r@ == TODOIST_API_BASE@ + path@ + spec_query_string(params.deep_view()),
{
    let mut url = TODOIST_API_BASE.to_owned();
    url.append(path);
    let suffix = query_string(params);
    url.append(suffix.as_str());
    url
}

/// The value of the `Authorization` header: the bearer scheme with the
/// caller's token.
pub fn bearer_token_value(token: &str) -> (r: String)
    ensures
        r@ == "Bearer "@ + token@,
{
    let mut value = "Bearer ".to_owned();
    value.append(token);
    value
}

/// The request listing all projects.
pub fn get_projects_request() -> (r: ApiRequest)
    ensures
        r@ == (RequestSpec {
            method: HttpMethod::Get,
            path: "/projects"@,
            query: Seq::<(Seq<char>, Seq<char>)>::empty(),
            body: None,
        }),
{
    bare_request(HttpMethod::Get, "/projects".to_owned())
}

/// The request listing projects with pagination.
pub fn get_projects_filtered_request(args: &ProjectFilterArgs) -> (r: ApiRequest)
    ensures
        r@ == (RequestSpec {
            method: HttpMethod::Get,
            path: "/projects"@,
            query: spec_project_filter_params(*args),
            body: None,
        }),
{
    ApiRequest {
        method: HttpMethod::Get,
        path: "/projects".to_owned(),
        query: project_filter_params(args),
        body: None,
    }
}

/// The request fetching one project by id.
pub fn get_project_request(project_id: &str) -> (r: ApiRequest)
    ensures
        r@ == (RequestSpec {
            method: HttpMethod::Get,
            path: "/projects/"@ + project_id@,
            query: Seq::<(Seq<char>, Seq<char>)>::empty(),
            body: None,
        }),
{
    bare_request(HttpMethod::Get, join_path("/projects/", project_id))
}

/// The request creating a project.
pub fn create_project_request(args: &CreateProjectArgs) -> (r: ApiRequest)
    ensures
        r@ == (RequestSpec {
            method: HttpMethod::Post,
            path: "/projects"@,
            query: Seq::<(Seq<char>, Seq<char>)>::empty(),
            body: Some(spec_create_project_body(*args)),
        }),
{
    body_request(HttpMethod::Post, "/projects".to_owned(), create_project_body(args))
}

/// The request updating a project, or the client-side validation error when
/// no fields are set: no request is produced, so no call is made.
pub fn update_project_request(project_id: &str, args: &UpdateProjectArgs) -> (r: Result<
    ApiRequest,
    TodoistError,
>)
    ensures
        args.spec_has_updates() ==> (r matches Ok(req) && req@ == (RequestSpec {
            method: HttpMethod::Post,
            path: "/projects/"@ + project_id@,
            query: Seq::<(Seq<char>, Seq<char>)>::empty(),
            body: Some(spec_update_project_body(*args)),
        })),
        !args.spec_has_updates() ==> (r matches Err(e) && e@ == no_update_fields_error()),
{
    if !args.has_updates() {
        return Err(empty_update_error());
    }
    Ok(
        body_request(
            HttpMethod::Post,
            join_path("/projects/", project_id),
            update_project_body(args),
        ),
    )
}

/// The request deleting a project.
pub fn delete_project_request(project_id: &str) -> (r: ApiRequest)
    ensures
        r@ == (RequestSpec {
            method: HttpMethod::Delete,
            path: "/projects/"@ + project_id@,
            query: Seq::<(Seq<char>, Seq<char>)>::empty(),
            body: None,
        }),
{
    bare_request(HttpMethod::Delete, join_path("/projects/", project_id))
}

/// The request listing all tasks.
pub fn get_tasks_request() -> (r: ApiRequest)
    ensures
        r@ == (RequestSpec {
            method: HttpMethod::Get,
            path: "/tasks"@,
            query: Seq::<(Seq<char>, Seq<char>)>::empty(),
            body: None,
        }),
{
    bare_request(HttpMethod::Get, "/tasks".to_owned())
}

/// The request listing the tasks of one project.
pub fn get_tasks_for_project_request(project_id: &str) -> (r: ApiRequest)
    ensures
        r@ == (RequestSpec {
            method: HttpMethod::Get,
            path: "/tasks?project_id="@ + project_id@,
            query: Seq::<(Seq<char>, Seq<char>)>::empty(),
            body: None,
        }),
{
    bare_request(HttpMethod::Get, join_path("/tasks?project_id=", project_id))
}

/// The request fetching one task by id.
pub fn get_task_request(task_id: &str) -> (r: ApiRequest)
    ensures
        r@ == (RequestSpec {
            method: HttpMethod::Get,
            path: "/tasks/"@ + task_id@,
            query: Seq::<(Seq<char>, Seq<char>)>::empty(),
            body: None,
        }),
{
    bare_request(HttpMethod::Get, join_path("/tasks/", task_id))
}

/// The request listing tasks by filter query.
pub fn get_tasks_by_filter_request(args: &TaskFilterArgs) -> (r: ApiRequest)
    ensures
        r@ == (RequestSpec {
            method: HttpMethod::Get,
            path: "/tasks"@,
            query: spec_task_filter_params(*args),
            body: None,
        }),
{
    ApiRequest {
        method: HttpMethod::Get,
        path: "/tasks".to_owned(),
        query: task_filter_params(args),
        body: None,
    }
}

/// The request creating a task.
pub fn create_task_request(args: &CreateTaskArgs) -> (r: ApiRequest)
    ensures
        r@ == (RequestSpec {
            method: HttpMethod::Post,
            path: "/tasks"@,
            query: Seq::<(Seq<char>, Seq<char>)>::empty(),
            body: Some(spec_create_task_body(*args)),
        }),
{
    body_request(HttpMethod::Post, "/tasks".to_owned(), create_task_body(args))
}

/// The request updating a task, or the client-side validation error when no
/// fields are set: no request is produced, so no call is made.
pub fn update_task_request(task_id: &str, args: &UpdateTaskArgs) -> (r: Result<
    ApiRequest,
    TodoistError,
>)
    ensures
        args.spec_has_updates() ==> (r matches Ok(req) && req@ == (RequestSpec {
            method: HttpMethod::Post,
            path: "/tasks/"@ + task_id@,
            query: Seq::<(Seq<char>, Seq<char>)>::empty(),
            body: Some(spec_update_task_body(*args)),
        })),
        !args.spec_has_updates() ==> (r matches Err(e) && e@ == no_update_fields_error()),
{
    if !args.has_updates() {
        return Err(empty_update_error());
    }
    Ok(body_request(HttpMethod::Post, join_path("/tasks/", task_id), update_task_body(args)))
}

/// The request completing a task: a POST to the task's `close` endpoint with
/// no body.
pub fn complete_task_request(task_id: &str) -> (r: ApiRequest)
    ensures
        r@ == (RequestSpec {
            method: HttpMethod::Post,
            path: "/tasks/"@ + task_id@ + "/close"@,
            query: Seq::<(Seq<char>, Seq<char>)>::empty(),
            body: None,
        }),
{
    bare_request(HttpMethod::Post, join_path_with_suffix("/tasks/", task_id, "/close"))
}

/// The request reopening a task: a POST to the task's `reopen` endpoint with
/// no body.
pub fn reopen_task_request(task_id: &str) -> (r: ApiRequest)
    ensures
        r@ == (RequestSpec {
            method: HttpMethod::Post,
            path: "/tasks/"@ + task_id@ + "/reopen"@,
            query: Seq::<(Seq<char>, Seq<char>)>::empty(),
            body: None,
        }),
{
    bare_request(HttpMethod::Post, join_path_with_suffix("/tasks/", task_id, "/reopen"))
}

/// The request deleting a task.
pub fn delete_task_request(task_id: &str) -> (r: ApiRequest)
    ensures
        r@ == (RequestSpec {
            method: HttpMethod::Delete,
            path: "/tasks/"@ + task_id@,
            query: Seq::<(Seq<char>, Seq<char>)>::empty(),
            body: None,
        }),
{
    bare_request(HttpMethod::Delete, join_path("/tasks/", task_id))
}

/// The request listing all labels.
pub fn get_labels_request() -> (r: ApiRequest)
    ensures
        r@ == (RequestSpec {
            method: HttpMethod::Get,
            path: "/labels"@,
            query: Seq::<(Seq<char>, Seq<char>)>::empty(),
            body: None,
        }),
{
    bare_request(HttpMethod::Get, "/labels".to_owned())
}

/// The request listing labels with pagination.
pub fn get_labels_filtered_request(args: &LabelFilterArgs) -> (r: ApiRequest)
    ensures
        r@ == (RequestSpec {
            method: HttpMethod::Get,
            path: "/labels"@,
            query: spec_label_filter_params(*args),
            body: None,
        }),
{
    ApiRequest {
        method: HttpMethod::Get,
        path: "/labels".to_owned(),
        query: label_filter_params(args),
        body: None,
    }
}

/// The request fetching one label by id.
pub fn get_label_request(label_id: &str) -> (r: ApiRequest)
    ensures
        r@ == (RequestSpec {
            method: HttpMethod::Get,
            path: "/labels/"@ + label_id@,
            query: Seq::<(Seq<char>, Seq<char>)>::empty(),
            body: None,
        }),
{
    bare_request(HttpMethod::Get, join_path("/labels/", label_id))
}

/// The request creating a label.
pub fn create_label_request(args: &CreateLabelArgs) -> (r: ApiRequest)
    ensures
        r@ == (RequestSpec {
            method: HttpMethod::Post,
            path: "/labels"@,
            query: Seq::<(Seq<char>, Seq<char>)>::empty(),
            body: Some(spec_create_label_body(*args)),
        }),
{
    body_request(HttpMethod::Post, "/labels".to_owned(), create_label_body(args))
}

/// The request updating a label, or the client-side validation error when no
/// fields are set: no request is produced, so no call is made.
pub fn update_label_request(label_id: &str, args: &UpdateLabelArgs) -> (r: Result<
    ApiRequest,
    TodoistError,
>)
    ensures
        args.spec_has_updates() ==> (r matches Ok(req) && req@ == (RequestSpec {
            method: HttpMethod::Post,
            path: "/labels/"@ + label_id@,
            query: Seq::<(Seq<char>, Seq<char>)>::empty(),
            body: Some(spec_update_label_body(*args)),
        })),
        !args.spec_has_updates() ==> (r matches Err(e) && e@ == no_update_fields_error()),
{
    if !args.has_updates() {
        return Err(empty_update_error());
    }
    Ok(body_request(HttpMethod::Post, join_path("/labels/", label_id), update_label_body(args)))
}

/// The request deleting a label.
pub fn delete_label_request(label_id: &str) -> (r: ApiRequest)
    ensures
        r@ == (RequestSpec {
            method: HttpMethod::Delete,
            path: "/labels/"@ + label_id@,
            query: Seq::<(Seq<char>, Seq<char>)>::empty(),
            body: None,
        }),
{
    bare_request(HttpMethod::Delete, join_path("/labels/", label_id))
}

/// The request listing all sections.
pub fn get_sections_request() -> (r: ApiRequest)
    ensures
        r@ == (RequestSpec {
            method: HttpMethod::Get,
            path: "/sections"@,
            query: Seq::<(Seq<char>, Seq<char>)>::empty(),
            body: None,
        }),
{
    bare_request(HttpMethod::Get, "/sections".to_owned())
}

/// The request listing sections with scoping and pagination.
pub fn get_sections_filtered_request(args: &SectionFilterArgs) -> (r: ApiRequest)
    ensures
        r@ == (RequestSpec {
            method: HttpMethod::Get,
            path: "/sections"@,
            query: spec_section_filter_params(*args),
            body: None,
        }),
{
    ApiRequest {
        method: HttpMethod::Get,
        path: "/sections".to_owned(),
        query: section_filter_params(args),
        body: None,
    }
}

/// The request fetching one section by id.
pub fn get_section_request(section_id: &str) -> (r: ApiRequest)
    ensures
        r@ == (RequestSpec {
            method: HttpMethod::Get,
            path: "/sections/"@ + section_id@,
            query: Seq::<(Seq<char>, Seq<char>)>::empty(),
            body: None,
        }),
{
    bare_request(HttpMethod::Get, join_path("/sections/", section_id))
}

/// The request creating a section.
pub fn create_section_request(args: &CreateSectionArgs) -> (r: ApiRequest)
    ensures
        r@ == (RequestSpec {
            method: HttpMethod::Post,
            path: "/sections"@,
            query: Seq::<(Seq<char>, Seq<char>)>::empty(),
            body: Some(spec_create_section_body(*args)),
        }),
{
    body_request(HttpMethod::Post, "/sections".to_owned(), create_section_body(args))
}

/// The request updating a section. A section update always carries the
/// mandatory name, so there is no empty-update case to validate.
pub fn update_section_request(section_id: &str, args: &UpdateSectionArgs) -> (r: ApiRequest)
    ensures
        r@ == (RequestSpec {
            method: HttpMethod::Post,
            path: "/sections/"@ + section_id@,
            query: Seq::<(Seq<char>, Seq<char>)>::empty(),
            body: Some(spec_update_section_body(*args)),
        }),
{
    body_request(HttpMethod::Post, join_path("/sections/", section_id), update_section_body(args))
}

/// The request deleting a section.
pub fn delete_section_request(section_id: &str) -> (r: ApiRequest)
    ensures
        r@ == (RequestSpec {
            method: HttpMethod::Delete,
            path: "/sections/"@ + section_id@,
            query: Seq::<(Seq<char>, Seq<char>)>::empty(),
            body: None,
        }),
{
    bare_request(HttpMethod::Delete, join_path("/sections/", section_id))
}

/// The request listing all comments.
pub fn get_comments_request() -> (r: ApiRequest)
    ensures
        r@ == (RequestSpec {
            method: HttpMethod::Get,
            path: "/comments"@,
            query: Seq::<(Seq<char>, Seq<char>)>::empty(),
            body: None,
        }),
{
    bare_request(HttpMethod::Get, "/comments".to_owned())
}

/// The request listing comments with scoping and pagination.
pub fn get_comments_filtered_request(args: &CommentFilterArgs) -> (r: ApiRequest)
    ensures
        r@ == (RequestSpec {
            method: HttpMethod::Get,
            path: "/comments"@,
            query: spec_comment_filter_params(*args),
            body: None,
        }),
{
    ApiRequest {
        method: HttpMethod::Get,
        path: "/comments".to_owned(),
        query: comment_filter_params(args),
        body: None,
    }
}

/// The request fetching one comment by id.
pub fn get_comment_request(comment_id: &str) -> (r: ApiRequest)
    ensures
        r@ == (RequestSpec {
            method: HttpMethod::Get,
            path: "/comments/"@ + comment_id@,
            query: Seq::<(Seq<char>, Seq<char>)>::empty(),
            body: None,
        }),
{
    bare_request(HttpMethod::Get, join_path("/comments/", comment_id))
}

/// The request creating a comment.
pub fn create_comment_request(args: &CreateCommentArgs) -> (r: ApiRequest)
    ensures
        r@ == (RequestSpec {
            method: HttpMethod::Post,
            path: "/comments"@,
            query: Seq::<(Seq<char>, Seq<char>)>::empty(),
            body: Some(spec_create_comment_body(*args)),
        }),
{
    body_request(HttpMethod::Post, "/comments".to_owned(), create_comment_body(args))
}

/// The request updating a comment, or the client-side validation error when
/// its content — the only field it carries — is empty: no request is
/// produced, so no call is made.
pub fn update_comment_request(comment_id: &str, args: &UpdateCommentArgs) -> (r: Result<
    ApiRequest,
    TodoistError,
>)
    ensures
        args.spec_has_updates() ==> (r matches Ok(req) && req@ == (RequestSpec {
            method: HttpMethod::Post,
            path: "/comments/"@ + comment_id@,
            query: Seq::<(Seq<char>, Seq<char>)>::empty(),
            body: Some(spec_update_comment_body(*args)),
        })),
        !args.spec_has_updates() ==> (r matches Err(e) && e@ == no_update_fields_error()),
{
    if !args.has_updates() {
        return Err(empty_update_error());
    }
    Ok(
        body_request(
            HttpMethod::Post,
            join_path("/comments/", comment_id),
            update_comment_body(args),
        ),
    )
}

/// The request deleting a comment.
pub fn delete_comment_request(comment_id: &str) -> (r: ApiRequest)
    ensures
        r@ == (RequestSpec {
            method: HttpMethod::Delete,
            path: "/comments/"@ + comment_id@,
            query: Seq::<(Seq<char>, Seq<char>)>::empty(),
            body: None,
        }),
{
    bare_request(HttpMethod::Delete, join_path("/comments/", comment_id))
}

} // verus!
