//! Data model of the Todoist REST API: resource records as the server returns
//! them, argument structures for create/update calls, and filter structures
//! for list calls.
//!
//! Every optional argument field follows "send-if-set" semantics: it is put
//! into the outgoing JSON body only when it is `Some`, and an absent field
//! produces no JSON key at all (see `bodies`). An `Update*Args` value reports
//! through [`UpdateTaskArgs::has_updates`] (and its siblings) whether at least
//! one field is set; an update with none set is rejected client-side.

use vstd::prelude::*;

verus! {

/// A task.
#[derive(Debug, Clone)]
pub struct Task {
    pub id: String,
    pub content: String,
    pub description: String,
    pub project_id: String,
    pub section_id: Option<String>,
    pub parent_id: Option<String>,
    pub order: i32,
    pub priority: i32,
    pub is_completed: bool,
    pub labels: Vec<String>,
    pub created_at: String,
    pub due: Option<Due>,
    pub deadline: Option<Deadline>,
    pub duration: Option<Duration>,
    pub assignee_id: Option<String>,
    pub url: String,
    pub comment_count: i32,
}

/// A project.
#[derive(Debug, Clone)]
pub struct Project {
    pub id: String,
    pub name: String,
    pub comment_count: i32,
    pub order: i32,
    pub color: String,
    pub is_shared: bool,
    pub is_favorite: bool,
    pub is_inbox_project: bool,
    pub is_team_inbox: bool,
    pub view_style: String,
    pub url: String,
    pub parent_id: Option<String>,
}

/// A label.
#[derive(Debug, Clone)]
pub struct Label {
    pub id: String,
    pub name: String,
    pub color: String,
    pub order: i32,
    pub is_favorite: bool,
}

/// A section within a project.
#[derive(Debug, Clone)]
pub struct Section {
    pub id: String,
    pub name: String,
    pub project_id: String,
    pub order: i32,
}

/// A comment on a task or a project.
#[derive(Debug, Clone)]
pub struct Comment {
    pub id: String,
    pub content: String,
    pub posted_at: String,
    pub attachment: Option<Attachment>,
    pub project_id: Option<String>,
    pub task_id: Option<String>,
}

/// A file attachment embedded in a comment.
#[derive(Debug, Clone, PartialEq)]
pub struct Attachment {
    pub file_name: String,
    pub file_type: String,
    pub file_url: String,
    pub resource_type: String,
}

/// A user account.
#[derive(Debug, Clone)]
pub struct User {
    pub id: String,
    pub name: String,
    pub email: String,
    pub avatar_url: Option<String>,
    pub is_premium: bool,
    pub is_business_account: bool,
}

/// A task's due date.
#[derive(Debug, Clone)]
pub struct Due {
    pub string: String,
    pub date: String,
    pub is_recurring: bool,
    pub datetime: Option<String>,
    pub timezone: Option<String>,
}

/// A task's deadline.
#[derive(Debug, Clone)]
pub struct Deadline {
    pub date: String,
}

/// A task's duration: an amount of "minute", "hour" or "day" units.
#[derive(Debug, Clone)]
pub struct Duration {
    pub amount: i32,
    pub unit: String,
}

/// Arguments for creating a task. Only `content` is mandatory.
#[derive(Debug, Clone)]
pub struct CreateTaskArgs {
    pub content: String,
    pub description: Option<String>,
    pub project_id: Option<String>,
    pub section_id: Option<String>,
    pub parent_id: Option<String>,
    pub order: Option<i32>,
    pub priority: Option<i32>,
    pub labels: Option<Vec<String>>,
    pub due_string: Option<String>,
    pub due_date: Option<String>,
    pub due_datetime: Option<String>,
    pub due_lang: Option<String>,
    pub deadline_date: Option<String>,
    pub deadline_lang: Option<String>,
    pub assignee_id: Option<String>,
    pub duration: Option<i32>,
    pub duration_unit: Option<String>,
}

impl Default for CreateTaskArgs {
    /// All fields absent, `content` empty.
    fn default() -> (r: Self)
        ensures
            r.content@ == Seq::<char>::empty(),
            r.description is None,
            r.project_id is None,
            r.section_id is None,
            r.parent_id is None,
            r.order is None,
            r.priority is None,
            r.labels is None,
            r.due_string is None,
            r.due_date is None,
            r.due_datetime is None,
            r.due_lang is None,
            r.deadline_date is None,
            r.deadline_lang is None,
            r.assignee_id is None,
            r.duration is None,
            r.duration_unit is None,
    {
        CreateTaskArgs {
            content: String::new(),
            description: None,
            project_id: None,
            section_id: None,
            parent_id: None,
            order: None,
            priority: None,
            labels: None,
            due_string: None,
            due_date: None,
            due_datetime: None,
            due_lang: None,
            deadline_date: None,
            deadline_lang: None,
            assignee_id: None,
            duration: None,
            duration_unit: None,
        }
    }
}

/// Arguments for updating a task. Every field is optional.
#[derive(Debug, Clone)]
pub struct UpdateTaskArgs {
    pub content: Option<String>,
    pub description: Option<String>,
    pub priority: Option<i32>,
    pub labels: Option<Vec<String>>,
    pub due_string: Option<String>,
    pub due_date: Option<String>,
    pub due_datetime: Option<String>,
    pub due_lang: Option<String>,
    pub deadline_date: Option<String>,
    pub deadline_lang: Option<String>,
    pub assignee_id: Option<String>,
    pub duration: Option<i32>,
    pub duration_unit: Option<String>,
}

impl UpdateTaskArgs {
    /// True when at least one field is set for updating.
    pub open spec fn spec_has_updates(&self) -> bool {
        ||| self.content is Some
        ||| self.description is Some
        ||| self.priority is Some
        ||| self.labels is Some
        ||| self.due_string is Some
        ||| self.due_date is Some
        ||| self.due_datetime is Some
        ||| self.due_lang is Some
        ||| self.deadline_date is Some
        ||| self.deadline_lang is Some
        ||| self.assignee_id is Some
        ||| self.duration is Some
        ||| self.duration_unit is Some
    }

    /// Check if any fields are set for updating.
    pub fn has_updates(&self) -> (r: bool)
        ensures
            r == self.spec_has_updates(),
    {
        self.content.is_some() || self.description.is_some() || self.priority.is_some()
            || self.labels.is_some() || self.due_string.is_some() || self.due_date.is_some()
            || self.due_datetime.is_some() || self.due_lang.is_some()
            || self.deadline_date.is_some() || self.deadline_lang.is_some()
            || self.assignee_id.is_some() || self.duration.is_some()
            || self.duration_unit.is_some()
    }
}

impl Default for UpdateTaskArgs {
    /// All fields absent.
    fn default() -> (r: Self)
        ensures
            !r.spec_has_updates(),
    {
        UpdateTaskArgs {
            content: None,
            description: None,
            priority: None,
            labels: None,
            due_string: None,
            due_date: None,
            due_datetime: None,
            due_lang: None,
            deadline_date: None,
            deadline_lang: None,
            assignee_id: None,
            duration: None,
            duration_unit: None,
        }
    }
}

/// Arguments for creating a project. Only `name` is mandatory.
#[derive(Debug, Clone)]
pub struct CreateProjectArgs {
    pub name: String,
    pub color: Option<String>,
    pub parent_id: Option<String>,
    pub is_favorite: Option<bool>,
    pub view_style: Option<String>,
}

impl Default for CreateProjectArgs {
    /// All fields absent, `name` empty.
    fn default() -> (r: Self)
        ensures
            r.name@ == Seq::<char>::empty(),
            r.color is None,
            r.parent_id is None,
            r.is_favorite is None,
            r.view_style is None,
    {
        CreateProjectArgs {
            name: String::new(),
            color: None,
            parent_id: None,
            is_favorite: None,
            view_style: None,
        }
    }
}

/// Arguments for updating a project. Every field is optional.
#[derive(Debug, Clone)]
pub struct UpdateProjectArgs {
    pub name: Option<String>,
    pub color: Option<String>,
    pub is_favorite: Option<bool>,
    pub view_style: Option<String>,
}

impl UpdateProjectArgs {
    /// True when at least one field is set for updating.
    pub open spec fn spec_has_updates(&self) -> bool {
        ||| self.name is Some
        ||| self.color is Some
        ||| self.is_favorite is Some
        ||| self.view_style is Some
    }

    /// Check if any fields are set for updating.
    pub fn has_updates(&self) -> (r: bool)
        ensures
            r == self.spec_has_updates(),
    {
        self.name.is_some() || self.color.is_some() || self.is_favorite.is_some()
            || self.view_style.is_some()
    }
}

impl Default for UpdateProjectArgs {
    /// All fields absent.
    fn default() -> (r: Self)
        ensures
            !r.spec_has_updates(),
    {
        UpdateProjectArgs { name: None, color: None, is_favorite: None, view_style: None }
    }
}

/// Arguments for creating a label. Only `name` is mandatory.
#[derive(Debug, Clone)]
pub struct CreateLabelArgs {
    pub name: String,
    pub color: Option<String>,
    pub order: Option<i32>,
    pub is_favorite: Option<bool>,
}

impl Default for CreateLabelArgs {
    /// All fields absent, `name` empty.
    fn default() -> (r: Self)
        ensures
            r.name@ == Seq::<char>::empty(),
            r.color is None,
            r.order is None,
            r.is_favorite is None,
    {
        CreateLabelArgs { name: String::new(), color: None, order: None, is_favorite: None }
    }
}

/// Arguments for updating a label. Every field is optional.
#[derive(Debug, Clone)]
pub struct UpdateLabelArgs {
    pub name: Option<String>,
    pub color: Option<String>,
    pub order: Option<i32>,
    pub is_favorite: Option<bool>,
}

impl UpdateLabelArgs {
    /// True when at least one field is set for updating.
    pub open spec fn spec_has_updates(&self) -> bool {
        ||| self.name is Some
        ||| self.color is Some
        ||| self.order is Some
        ||| self.is_favorite is Some
    }

    /// Check if any fields are set for updating.
    pub fn has_updates(&self) -> (r: bool)
        ensures
            r == self.spec_has_updates(),
    {
        self.name.is_some() || self.color.is_some() || self.order.is_some()
            || self.is_favorite.is_some()
    }
}

impl Default for UpdateLabelArgs {
    /// All fields absent.
    fn default() -> (r: Self)
        ensures
            !r.spec_has_updates(),
    {
        UpdateLabelArgs { name: None, color: None, order: None, is_favorite: None }
    }
}

/// Arguments for creating a section: a mandatory name and project.
#[derive(Debug, Clone)]
pub struct CreateSectionArgs {
    pub name: String,
    pub project_id: String,
    pub order: Option<i32>,
}

impl Default for CreateSectionArgs {
    /// `order` absent, names empty.
    fn default() -> (r: Self)
        ensures
            r.name@ == Seq::<char>::empty(),
            r.project_id@ == Seq::<char>::empty(),
            r.order is None,
    {
        CreateSectionArgs { name: String::new(), project_id: String::new(), order: None }
    }
}

/// Arguments for updating a section: the new name, which is mandatory.
#[derive(Debug, Clone)]
pub struct UpdateSectionArgs {
    pub name: String,
}

impl Default for UpdateSectionArgs {
    /// Empty name.
    fn default() -> (r: Self)
        ensures
            r.name@ == Seq::<char>::empty(),
    {
        UpdateSectionArgs { name: String::new() }
    }
}

/// Arguments for creating a comment. Only `content` is mandatory.
#[derive(Debug, Clone)]
pub struct CreateCommentArgs {
    pub content: String,
    pub task_id: Option<String>,
    pub project_id: Option<String>,
    pub attachment: Option<Attachment>,
}

impl Default for CreateCommentArgs {
    /// All fields absent, `content` empty.
    fn default() -> (r: Self)
        ensures
            r.content@ == Seq::<char>::empty(),
            r.task_id is None,
            r.project_id is None,
            r.attachment is None,
    {
        CreateCommentArgs { content: String::new(), task_id: None, project_id: None, attachment: None }
    }
}

/// Arguments for updating a comment: the new content, which is mandatory.
#[derive(Debug, Clone)]
pub struct UpdateCommentArgs {
    pub content: String,
}

impl UpdateCommentArgs {
    /// True when the mandatory content is non-empty; the structure has no
    /// optional fields, so a non-empty content is the only update it carries.
    pub open spec fn spec_has_updates(&self) -> bool {
        self.content@.len() > 0
    }

    /// Check if any fields are set for updating.
    pub fn has_updates(&self) -> (r: bool)
        ensures
            r == self.spec_has_updates(),
    {
        !self.content.as_str().is_empty()
    }
}

impl Default for UpdateCommentArgs {
    /// Empty content.
    fn default() -> (r: Self)
        ensures
            !r.spec_has_updates(),
    {
        UpdateCommentArgs { content: String::new() }
    }
}

/// Pagination and query inputs for listing tasks.
#[derive(Debug, Clone)]
pub struct TaskFilterArgs {
    pub query: String,
    pub lang: Option<String>,
    pub limit: Option<i32>,
    pub cursor: Option<String>,
}

/// Pagination inputs for listing projects.
#[derive(Debug, Clone)]
pub struct ProjectFilterArgs {
    pub limit: Option<i32>,
    pub cursor: Option<String>,
}

/// Pagination inputs for listing labels.
#[derive(Debug, Clone)]
pub struct LabelFilterArgs {
    pub limit: Option<i32>,
    pub cursor: Option<String>,
}

/// Pagination inputs for listing sections, optionally scoped to a project.
#[derive(Debug, Clone)]
pub struct SectionFilterArgs {
    pub project_id: Option<String>,
    pub limit: Option<i32>,
    pub cursor: Option<String>,
}

/// Pagination inputs for listing comments, optionally scoped to a task or a
/// project.
#[derive(Debug, Clone)]
pub struct CommentFilterArgs {
    pub task_id: Option<String>,
    pub project_id: Option<String>,
    pub limit: Option<i32>,
    pub cursor: Option<String>,
}

} // verus!
