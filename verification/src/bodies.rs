//! Construction of request bodies from the typed argument structures, with
//! "send-if-set" semantics: a body is an ordered list of key/value fields, a
//! mandatory argument always contributes its field, and an optional argument
//! contributes its field exactly when it is set — an absent argument produces
//! no key at all.

use vstd::prelude::*;

use crate::json::BodyFields;
use crate::json::BodyFieldsSpec;
use crate::json::FieldValue;
use crate::json::JsonVal;
use crate::models::Attachment;
use crate::models::CreateCommentArgs;
use crate::models::CreateLabelArgs;
use crate::models::CreateProjectArgs;
use crate::models::CreateSectionArgs;
use crate::models::CreateTaskArgs;
use crate::models::UpdateCommentArgs;
use crate::models::UpdateLabelArgs;
use crate::models::UpdateProjectArgs;
use crate::models::UpdateSectionArgs;
use crate::models::UpdateTaskArgs;

verus! {

/// The field a mandatory string argument always contributes.
pub open spec fn req_text(key: Seq<char>, text: Seq<char>) -> BodyFieldsSpec {
    seq![(key, JsonVal::Text(text))]
}

/// The field an optional string argument contributes: its key and text when
/// set, nothing when absent.
pub open spec fn text_entry(key: Seq<char>, v: Option<String>) -> BodyFieldsSpec {
    match v {
        Some(s) => seq![(key, JsonVal::Text(s@))],
        None => seq![],
    }
}

/// The field an optional integer argument contributes.
pub open spec fn number_entry(key: Seq<char>, v: Option<i32>) -> BodyFieldsSpec {
    match v {
        Some(n) => seq![(key, JsonVal::Number(n as int))],
        None => seq![],
    }
}

/// The field an optional boolean argument contributes.
pub open spec fn flag_entry(key: Seq<char>, v: Option<bool>) -> BodyFieldsSpec {
    match v {
        Some(b) => seq![(key, JsonVal::Flag(b))],
        None => seq![],
    }
}

/// The field an optional string-list argument contributes.
pub open spec fn text_list_entry(key: Seq<char>, v: Option<Vec<String>>) -> BodyFieldsSpec {
    match v {
        Some(items) => seq![(key, JsonVal::TextList(items.deep_view()))],
        None => seq![],
    }
}

/// The field an optional attachment argument contributes.
pub open spec fn file_entry(key: Seq<char>, v: Option<Attachment>) -> BodyFieldsSpec {
    match v {
        Some(a) => seq![
            (
                key,
                JsonVal::File {
                    file_name: a.file_name@,
                    file_type: a.file_type@,
                    file_url: a.file_url@,
                    resource_type: a.resource_type@,
                },
            ),
        ],
        None => seq![],
    }
}

fn push_req_text(fields: &mut BodyFields, key: &str, v: &String)
    ensures
        final(fields).deep_view() == old(fields).deep_view() + seq![
            (key@, JsonVal::Text(v@)),
        ],
{
    fields.push((key.to_owned(), FieldValue::Text(v.clone())));
    assert(fields.deep_view() =~= old(fields).deep_view() + seq![(key@, JsonVal::Text(v@))]);
}

fn push_text(fields: &mut BodyFields, key: &str, v: &Option<String>)
    ensures
        final(fields).deep_view() == old(fields).deep_view() + text_entry(key@, *v),
{
    if let Some(s) = v {
        fields.push((key.to_owned(), FieldValue::Text(s.clone())));
    }
    assert(fields.deep_view() =~= old(fields).deep_view() + text_entry(key@, *v));
}

fn push_number(fields: &mut BodyFields, key: &str, v: &Option<i32>)
    ensures
        final(fields).deep_view() == old(fields).deep_view() + number_entry(key@, *v),
{
    if let Some(n) = v {
        fields.push((key.to_owned(), FieldValue::Number(*n)));
    }
    assert(fields.deep_view() =~= old(fields).deep_view() + number_entry(key@, *v));
}

fn push_flag(fields: &mut BodyFields, key: &str, v: &Option<bool>)
    ensures
        final(fields).deep_view() == old(fields).deep_view() + flag_entry(key@, *v),
{
    if let Some(b) = v {
        fields.push((key.to_owned(), FieldValue::Flag(*b)));
    }
    assert(fields.deep_view() =~= old(fields).deep_view() + flag_entry(key@, *v));
}

fn push_text_list(fields: &mut BodyFields, key: &str, v: &Option<Vec<String>>)
    ensures
        final(fields).deep_view() == old(fields).deep_view() + text_list_entry(key@, *v),
{
    if let Some(items) = v {
        fields.push((key.to_owned(), FieldValue::TextList(items.clone())));
    }
    assert(fields.deep_view() =~= old(fields).deep_view() + text_list_entry(key@, *v));
}

fn push_file(fields: &mut BodyFields, key: &str, v: &Option<Attachment>)
    ensures
        final(fields).deep_view() == old(fields).deep_view() + file_entry(key@, *v),
{
    if let Some(a) = v {
        let copy = Attachment {
            file_name: a.file_name.clone(),
            file_type: a.file_type.clone(),
            file_url: a.file_url.clone(),
            resource_type: a.resource_type.clone(),
        };
        fields.push((key.to_owned(), FieldValue::File(copy)));
    }
    assert(fields.deep_view() =~= old(fields).deep_view() + file_entry(key@, *v));
}

/// The body of a create-task call: the mandatory content, then every optional
/// field that is set, in a fixed order.
pub open spec fn spec_create_task_body(args: CreateTaskArgs) -> BodyFieldsSpec {
    req_text("content"@, args.content@) + text_entry("description"@, args.description)
        + text_entry("project_id"@, args.project_id) + text_entry("section_id"@, args.section_id)
        + text_entry("parent_id"@, args.parent_id) + number_entry("order"@, args.order)
        + number_entry("priority"@, args.priority) + text_list_entry("labels"@, args.labels)
        + text_entry("due_string"@, args.due_string) + text_entry("due_date"@, args.due_date)
        + text_entry("due_datetime"@, args.due_datetime) + text_entry("due_lang"@, args.due_lang)
        + text_entry("deadline_date"@, args.deadline_date) + text_entry(
        "deadline_lang"@,
        args.deadline_lang,
    ) + text_entry("assignee_id"@, args.assignee_id) + number_entry("duration"@, args.duration)
        + text_entry("duration_unit"@, args.duration_unit)
}

/// Build the body of a create-task call.
pub fn create_task_body(args: &CreateTaskArgs) -> (r: BodyFields)
    ensures
        r.deep_view() == spec_create_task_body(*args),
{
    let mut fields: BodyFields = Vec::new();
    push_req_text(&mut fields, "content", &args.content);
    assert(fields.deep_view() =~= req_text("content"@, args.content@));
    push_text(&mut fields, "description", &args.description);
    push_text(&mut fields, "project_id", &args.project_id);
    push_text(&mut fields, "section_id", &args.section_id);
    push_text(&mut fields, "parent_id", &args.parent_id);
    push_number(&mut fields, "order", &args.order);
    push_number(&mut fields, "priority", &args.priority);
    push_text_list(&mut fields, "labels", &args.labels);
    push_text(&mut fields, "due_string", &args.due_string);
    push_text(&mut fields, "due_date", &args.due_date);
    push_text(&mut fields, "due_datetime", &args.due_datetime);
    push_text(&mut fields, "due_lang", &args.due_lang);
    push_text(&mut fields, "deadline_date", &args.deadline_date);
    push_text(&mut fields, "deadline_lang", &args.deadline_lang);
    push_text(&mut fields, "assignee_id", &args.assignee_id);
    push_number(&mut fields, "duration", &args.duration);
    push_text(&mut fields, "duration_unit", &args.duration_unit);
    fields
}

/// The body of an update-task call: exactly the set fields, in a fixed order.
pub open spec fn spec_update_task_body(args: UpdateTaskArgs) -> BodyFieldsSpec {
    text_entry("content"@, args.content) + text_entry("description"@, args.description)
        + number_entry("priority"@, args.priority) + text_list_entry("labels"@, args.labels)
        + text_entry("due_string"@, args.due_string) + text_entry("due_date"@, args.due_date)
        + text_entry("due_datetime"@, args.due_datetime) + text_entry("due_lang"@, args.due_lang)
        + text_entry("deadline_date"@, args.deadline_date) + text_entry(
        "deadline_lang"@,
        args.deadline_lang,
    ) + text_entry("assignee_id"@, args.assignee_id) + number_entry("duration"@, args.duration)
        + text_entry("duration_unit"@, args.duration_unit)
}

/// Build the body of an update-task call.
pub fn update_task_body(args: &UpdateTaskArgs) -> (r: BodyFields)
    ensures
        r.deep_view() == spec_update_task_body(*args),
{
    let mut fields: BodyFields = Vec::new();
    push_text(&mut fields, "content", &args.content);
    assert(fields.deep_view() =~= text_entry("content"@, args.content));
    push_text(&mut fields, "description", &args.description);
    push_number(&mut fields, "priority", &args.priority);
    push_text_list(&mut fields, "labels", &args.labels);
    push_text(&mut fields, "due_string", &args.due_string);
    push_text(&mut fields, "due_date", &args.due_date);
    push_text(&mut fields, "due_datetime", &args.due_datetime);
    push_text(&mut fields, "due_lang", &args.due_lang);
    push_text(&mut fields, "deadline_date", &args.deadline_date);
    push_text(&mut fields, "deadline_lang", &args.deadline_lang);
    push_text(&mut fields, "assignee_id", &args.assignee_id);
    push_number(&mut fields, "duration", &args.duration);
    push_text(&mut fields, "duration_unit", &args.duration_unit);
    fields
}

/// The body of a create-project call.
pub open spec fn spec_create_project_body(args: CreateProjectArgs) -> BodyFieldsSpec {
    req_text("name"@, args.name@) + text_entry("color"@, args.color) + text_entry(
        "parent_id"@,
        args.parent_id,
    ) + flag_entry("is_favorite"@, args.is_favorite) + text_entry("view_style"@, args.view_style)
}

/// Build the body of a create-project call.
pub fn create_project_body(args: &CreateProjectArgs) -> (r: BodyFields)
    ensures
        r.deep_view() == spec_create_project_body(*args),
{
    let mut fields: BodyFields = Vec::new();
    push_req_text(&mut fields, "name", &args.name);
    assert(fields.deep_view() =~= req_text("name"@, args.name@));
    push_text(&mut fields, "color", &args.color);
    push_text(&mut fields, "parent_id", &args.parent_id);
    push_flag(&mut fields, "is_favorite", &args.is_favorite);
    push_text(&mut fields, "view_style", &args.view_style);
    fields
}

/// The body of an update-project call: exactly the set fields.
pub open spec fn spec_update_project_body(args: UpdateProjectArgs) -> BodyFieldsSpec {
    text_entry("name"@, args.name) + text_entry("color"@, args.color) + flag_entry(
        "is_favorite"@,
        args.is_favorite,
    ) + text_entry("view_style"@, args.view_style)
}

/// Build the body of an update-project call.
pub fn update_project_body(args: &UpdateProjectArgs) -> (r: BodyFields)
    ensures
        r.deep_view() == spec_update_project_body(*args),
{
    let mut fields: BodyFields = Vec::new();
    push_text(&mut fields, "name", &args.name);
    assert(fields.deep_view() =~= text_entry("name"@, args.name));
    push_text(&mut fields, "color", &args.color);
    push_flag(&mut fields, "is_favorite", &args.is_favorite);
    push_text(&mut fields, "view_style", &args.view_style);
    fields
}

/// The body of a create-label call.
pub open spec fn spec_create_label_body(args: CreateLabelArgs) -> BodyFieldsSpec {
    req_text("name"@, args.name@) + text_entry("color"@, args.color) + number_entry(
        "order"@,
        args.order,
    ) + flag_entry("is_favorite"@, args.is_favorite)
}

/// Build the body of a create-label call.
pub fn create_label_body(args: &CreateLabelArgs) -> (r: BodyFields)
    ensures
        r.deep_view() == spec_create_label_body(*args),
{
    let mut fields: BodyFields = Vec::new();
    push_req_text(&mut fields, "name", &args.name);
    assert(fields.deep_view() =~= req_text("name"@, args.name@));
    push_text(&mut fields, "color", &args.color);
    push_number(&mut fields, "order", &args.order);
    push_flag(&mut fields, "is_favorite", &args.is_favorite);
    fields
}

/// The body of an update-label call: exactly the set fields.
pub open spec fn spec_update_label_body(args: UpdateLabelArgs) -> BodyFieldsSpec {
    text_entry("name"@, args.name) + text_entry("color"@, args.color) + number_entry(
        "order"@,
        args.order,
    ) + flag_entry("is_favorite"@, args.is_favorite)
}

/// Build the body of an update-label call.
pub fn update_label_body(args: &UpdateLabelArgs) -> (r: BodyFields)
    ensures
        r.deep_view() == spec_update_label_body(*args),
{
    let mut fields: BodyFields = Vec::new();
    push_text(&mut fields, "name", &args.name);
    assert(fields.deep_view() =~= text_entry("name"@, args.name));
    push_text(&mut fields, "color", &args.color);
    push_number(&mut fields, "order", &args.order);
    push_flag(&mut fields, "is_favorite", &args.is_favorite);
    fields
}

/// The body of a create-section call: the mandatory name and project, then the
/// order when set.
pub open spec fn spec_create_section_body(args: CreateSectionArgs) -> BodyFieldsSpec {
    req_text("name"@, args.name@) + req_text("project_id"@, args.project_id@) + number_entry(
        "order"@,
        args.order,
    )
}

/// Build the body of a create-section call.
pub fn create_section_body(args: &CreateSectionArgs) -> (r: BodyFields)
    ensures
        r.deep_view() == spec_create_section_body(*args),
{
    let mut fields: BodyFields = Vec::new();
    push_req_text(&mut fields, "name", &args.name);
    push_req_text(&mut fields, "project_id", &args.project_id);
    assert(fields.deep_view() =~= req_text("name"@, args.name@) + req_text(
        "project_id"@,
        args.project_id@,
    ));
    push_number(&mut fields, "order", &args.order);
    fields
}

/// The body of an update-section call: the new name.
pub open spec fn spec_update_section_body(args: UpdateSectionArgs) -> BodyFieldsSpec {
    req_text("name"@, args.name@)
}

/// Build the body of an update-section call.
pub fn update_section_body(args: &UpdateSectionArgs) -> (r: BodyFields)
    ensures
        r.deep_view() == spec_update_section_body(*args),
{
    let mut fields: BodyFields = Vec::new();
    push_req_text(&mut fields, "name", &args.name);
    assert(fields.deep_view() =~= req_text("name"@, args.name@));
    fields
}

/// The body of a create-comment call.
pub open spec fn spec_create_comment_body(args: CreateCommentArgs) -> BodyFieldsSpec {
    req_text("content"@, args.content@) + text_entry("task_id"@, args.task_id)
        + text_entry("project_id"@, args.project_id) + file_entry("attachment"@, args.attachment)
}

/// Build the body of a create-comment call.
pub fn create_comment_body(args: &CreateCommentArgs) -> (r: BodyFields)
    ensures
        r.deep_view() == spec_create_comment_body(*args),
{
    let mut fields: BodyFields = Vec::new();
    push_req_text(&mut fields, "content", &args.content);
    assert(fields.deep_view() =~= req_text("content"@, args.content@));
    push_text(&mut fields, "task_id", &args.task_id);
    push_text(&mut fields, "project_id", &args.project_id);
    push_file(&mut fields, "attachment", &args.attachment);
    fields
}

/// The body of an update-comment call: the new content.
pub open spec fn spec_update_comment_body(args: UpdateCommentArgs) -> BodyFieldsSpec {
    req_text("content"@, args.content@)
}

/// Build the body of an update-comment call.
pub fn update_comment_body(args: &UpdateCommentArgs) -> (r: BodyFields)
    ensures
        r.deep_view() == spec_update_comment_body(*args),
{
    let mut fields: BodyFields = Vec::new();
    push_req_text(&mut fields, "content", &args.content);
    assert(fields.deep_view() =~= req_text("content"@, args.content@));
    fields
}

/// True when a body contains a field with this key.
pub open spec fn body_has_key(fields: BodyFieldsSpec, key: Seq<char>) -> bool {
    exists|i: int| 0 <= i < fields.len() && fields[i].0 == key
}

/// The value of the first field with this key, if any.
pub open spec fn body_lookup(fields: BodyFieldsSpec, key: Seq<char>) -> Option<JsonVal>
    decreases fields.len(),
{
    if fields.len() == 0 {
        None
    } else if fields[0].0 == key {
        Some(fields[0].1)
    } else {
        body_lookup(fields.subrange(1, fields.len() as int), key)
    }
}

/// A key is present in a body exactly when looking it up finds a value.
pub broadcast proof fn lemma_body_has_key_is_lookup(fields: BodyFieldsSpec, key: Seq<char>)
    ensures
        #[trigger] body_has_key(fields, key) <==> body_lookup(fields, key) is Some,
    decreases fields.len(),
{
    if fields.len() == 0 {
    } else if fields[0].0 == key {
        assert(body_has_key(fields, key));
    } else {
        let rest = fields.subrange(1, fields.len() as int);
        lemma_body_has_key_is_lookup(rest, key);
        if body_has_key(fields, key) {
            let i = choose|i: int| 0 <= i < fields.len() && fields[i].0 == key;
            assert(rest[i - 1].0 == key);
            assert(body_has_key(rest, key));
        }
        if body_has_key(rest, key) {
            let i = choose|i: int| 0 <= i < rest.len() && rest[i].0 == key;
            assert(fields[i + 1].0 == key);
            assert(body_has_key(fields, key));
        }
    }
}

/// Looking a key up in a concatenation searches the left part first.
pub broadcast proof fn lemma_body_lookup_concat(
    a: BodyFieldsSpec,
    b: BodyFieldsSpec,
    key: Seq<char>,
)
    ensures
        #[trigger] body_lookup(a + b, key) == (if body_lookup(a, key) is Some {
            body_lookup(a, key)
        } else {
            body_lookup(b, key)
        }),
    decreases a.len(),
{
    if a.len() == 0 {
        assert(a + b =~= b);
    } else {
        let rest = a.subrange(1, a.len() as int);
        assert((a + b).subrange(1, (a + b).len() as int) =~= rest + b);
        lemma_body_lookup_concat(rest, b, key);
        assert((a + b)[0] == a[0]);
    }
}

/// Looking up a mandatory text field finds it under its own key and nothing
/// under any other.
pub broadcast proof fn lemma_body_lookup_req_text(k: Seq<char>, text: Seq<char>, key: Seq<char>)
    ensures
        #[trigger] body_lookup(req_text(k, text), key) == (if k == key {
            Some(JsonVal::Text(text))
        } else {
            None::<JsonVal>
        }),
{
    reveal_with_fuel(body_lookup, 2);
    assert(req_text(k, text).subrange(1, 1) =~= Seq::<(Seq<char>, JsonVal)>::empty());
}

/// The value an optional string argument can be looked up as.
pub open spec fn text_value_of(v: Option<String>) -> Option<JsonVal> {
    match v {
        Some(s) => Some(JsonVal::Text(s@)),
        None => None,
    }
}

/// The value an optional integer argument can be looked up as.
pub open spec fn number_value_of(v: Option<i32>) -> Option<JsonVal> {
    match v {
        Some(n) => Some(JsonVal::Number(n as int)),
        None => None,
    }
}

/// The value an optional boolean argument can be looked up as.
pub open spec fn flag_value_of(v: Option<bool>) -> Option<JsonVal> {
    match v {
        Some(b) => Some(JsonVal::Flag(b)),
        None => None,
    }
}

/// The value an optional string-list argument can be looked up as.
pub open spec fn text_list_value_of(v: Option<Vec<String>>) -> Option<JsonVal> {
    match v {
        Some(items) => Some(JsonVal::TextList(items.deep_view())),
        None => None,
    }
}

/// The value an optional attachment argument can be looked up as.
pub open spec fn file_value_of(v: Option<Attachment>) -> Option<JsonVal> {
    match v {
        Some(a) => Some(
            JsonVal::File {
                file_name: a.file_name@,
                file_type: a.file_type@,
                file_url: a.file_url@,
                resource_type: a.resource_type@,
            },
        ),
        None => None,
    }
}

/// An optional string field contributes its value under its own key when set,
/// and nothing otherwise.
pub broadcast proof fn lemma_body_lookup_text_entry(
    k: Seq<char>,
    v: Option<String>,
    key: Seq<char>,
)
    ensures
        #[trigger] body_lookup(text_entry(k, v), key) == (if k == key {
            text_value_of(v)
        } else {
            None::<JsonVal>
        }),
{
    reveal_with_fuel(body_lookup, 2);
    if let Some(s) = v {
        assert(text_entry(k, v).subrange(1, 1) =~= Seq::<(Seq<char>, JsonVal)>::empty());
    }
}

/// An optional integer field contributes its value under its own key when
/// set, and nothing otherwise.
pub broadcast proof fn lemma_body_lookup_number_entry(
    k: Seq<char>,
    v: Option<i32>,
    key: Seq<char>,
)
    ensures
        #[trigger] body_lookup(number_entry(k, v), key) == (if k == key {
            number_value_of(v)
        } else {
            None::<JsonVal>
        }),
{
    reveal_with_fuel(body_lookup, 2);
    if let Some(n) = v {
        assert(number_entry(k, v).subrange(1, 1) =~= Seq::<(Seq<char>, JsonVal)>::empty());
    }
}

/// An optional boolean field contributes its value under its own key when
/// set, and nothing otherwise.
pub broadcast proof fn lemma_body_lookup_flag_entry(k: Seq<char>, v: Option<bool>, key: Seq<char>)
    ensures
        #[trigger] body_lookup(flag_entry(k, v), key) == (if k == key {
            flag_value_of(v)
        } else {
            None::<JsonVal>
        }),
{
    reveal_with_fuel(body_lookup, 2);
    if let Some(b) = v {
        assert(flag_entry(k, v).subrange(1, 1) =~= Seq::<(Seq<char>, JsonVal)>::empty());
    }
}

/// An optional string-list field contributes its value under its own key when
/// set, and nothing otherwise.
pub broadcast proof fn lemma_body_lookup_text_list_entry(
    k: Seq<char>,
    v: Option<Vec<String>>,
    key: Seq<char>,
)
    ensures
        #[trigger] body_lookup(text_list_entry(k, v), key) == (if k == key {
            text_list_value_of(v)
        } else {
            None::<JsonVal>
        }),
{
    reveal_with_fuel(body_lookup, 2);
    if let Some(items) = v {
        assert(text_list_entry(k, v).subrange(1, 1) =~= Seq::<(Seq<char>, JsonVal)>::empty());
    }
}

/// An optional attachment field contributes its value under its own key when
/// set, and nothing otherwise.
pub broadcast proof fn lemma_body_lookup_file_entry(
    k: Seq<char>,
    v: Option<Attachment>,
    key: Seq<char>,
)
    ensures
        #[trigger] body_lookup(file_entry(k, v), key) == (if k == key {
            file_value_of(v)
        } else {
            None::<JsonVal>
        }),
{
    reveal_with_fuel(body_lookup, 2);
    if let Some(a) = v {
        assert(file_entry(k, v).subrange(1, 1) =~= Seq::<(Seq<char>, JsonVal)>::empty());
    }
}

pub broadcast group group_body_lookup {
    lemma_body_has_key_is_lookup,
    lemma_body_lookup_concat,
    lemma_body_lookup_req_text,
    lemma_body_lookup_text_entry,
    lemma_body_lookup_number_entry,
    lemma_body_lookup_flag_entry,
    lemma_body_lookup_text_list_entry,
    lemma_body_lookup_file_entry,
}

/// Law: an update-task body contains exactly the set fields — each key is
/// present precisely when its argument is set, and then carries the
/// argument's value; an absent argument produces no key.
#[verifier::rlimit(80)]
pub proof fn lemma_update_task_body_exact(args: UpdateTaskArgs)
    ensures
        body_has_key(spec_update_task_body(args), "content"@) <==> args.content is Some,
        body_has_key(spec_update_task_body(args), "description"@) <==> args.description is Some,
        body_has_key(spec_update_task_body(args), "priority"@) <==> args.priority is Some,
        body_has_key(spec_update_task_body(args), "labels"@) <==> args.labels is Some,
        body_has_key(spec_update_task_body(args), "due_string"@) <==> args.due_string is Some,
        body_has_key(spec_update_task_body(args), "due_date"@) <==> args.due_date is Some,
        body_has_key(spec_update_task_body(args), "due_datetime"@) <==> args.due_datetime is Some,
        body_has_key(spec_update_task_body(args), "due_lang"@) <==> args.due_lang is Some,
        body_has_key(spec_update_task_body(args), "deadline_date"@) <==> args.deadline_date is Some,
        body_has_key(spec_update_task_body(args), "deadline_lang"@) <==> args.deadline_lang is Some,
        body_has_key(spec_update_task_body(args), "assignee_id"@) <==> args.assignee_id is Some,
        body_has_key(spec_update_task_body(args), "duration"@) <==> args.duration is Some,
        body_has_key(spec_update_task_body(args), "duration_unit"@) <==> args.duration_unit is Some,
        body_lookup(spec_update_task_body(args), "content"@) == text_value_of(args.content),
        body_lookup(spec_update_task_body(args), "description"@) == text_value_of(args.description),
        body_lookup(spec_update_task_body(args), "priority"@) == number_value_of(args.priority),
        body_lookup(spec_update_task_body(args), "labels"@) == text_list_value_of(args.labels),
        body_lookup(spec_update_task_body(args), "due_string"@) == text_value_of(args.due_string),
        body_lookup(spec_update_task_body(args), "due_date"@) == text_value_of(args.due_date),
        body_lookup(spec_update_task_body(args), "due_datetime"@) == text_value_of(args.due_datetime),
        body_lookup(spec_update_task_body(args), "due_lang"@) == text_value_of(args.due_lang),
        body_lookup(spec_update_task_body(args), "deadline_date"@) == text_value_of(args.deadline_date),
        body_lookup(spec_update_task_body(args), "deadline_lang"@) == text_value_of(args.deadline_lang),
        body_lookup(spec_update_task_body(args), "assignee_id"@) == text_value_of(args.assignee_id),
        body_lookup(spec_update_task_body(args), "duration"@) == number_value_of(args.duration),
        body_lookup(spec_update_task_body(args), "duration_unit"@) == text_value_of(args.duration_unit),
{
    broadcast use group_body_lookup;

    reveal_strlit("content");
    reveal_strlit("description");
    reveal_strlit("priority");
    reveal_strlit("labels");
    reveal_strlit("due_string");
    reveal_strlit("due_date");
    reveal_strlit("due_datetime");
    reveal_strlit("due_lang");
    reveal_strlit("deadline_date");
    reveal_strlit("deadline_lang");
    reveal_strlit("assignee_id");
    reveal_strlit("duration");
    reveal_strlit("duration_unit");
    assert("content"@.len() == 7);
    assert("description"@.len() == 11);
    assert("priority"@.len() == 8);
    assert("labels"@.len() == 6);
    assert("due_string"@.len() == 10);
    assert("due_date"@.len() == 8);
    assert("due_datetime"@.len() == 12);
    assert("due_lang"@.len() == 8);
    assert("deadline_date"@.len() == 13);
    assert("deadline_lang"@.len() == 13);
    assert("assignee_id"@.len() == 11);
    assert("duration"@.len() == 8);
    assert("duration_unit"@.len() == 13);
    assert("description"@[0] != "assignee_id"@[0]);
    assert("priority"@[0] != "due_date"@[0]);
    assert("priority"@[0] != "due_lang"@[0]);
    assert("priority"@[0] != "duration"@[0]);
    assert("due_date"@[4] != "due_lang"@[4]);
    assert("due_date"@[2] != "duration"@[2]);
    assert("due_lang"@[2] != "duration"@[2]);
    assert("deadline_date"@[9] != "deadline_lang"@[9]);
    assert("deadline_date"@[1] != "duration_unit"@[1]);
    assert("deadline_lang"@[1] != "duration_unit"@[1]);
}

/// Law: an update-project body contains exactly the set fields — each key is
/// present precisely when its argument is set, and then carries the
/// argument's value; an absent argument produces no key.
pub proof fn lemma_update_project_body_exact(args: UpdateProjectArgs)
    ensures
        body_has_key(spec_update_project_body(args), "name"@) <==> args.name is Some,
        body_has_key(spec_update_project_body(args), "color"@) <==> args.color is Some,
        body_has_key(spec_update_project_body(args), "is_favorite"@) <==> args.is_favorite is Some,
        body_has_key(spec_update_project_body(args), "view_style"@) <==> args.view_style is Some,
        body_lookup(spec_update_project_body(args), "name"@) == text_value_of(args.name),
        body_lookup(spec_update_project_body(args), "color"@) == text_value_of(args.color),
        body_lookup(spec_update_project_body(args), "is_favorite"@) == flag_value_of(args.is_favorite),
        body_lookup(spec_update_project_body(args), "view_style"@) == text_value_of(args.view_style),
{
    broadcast use group_body_lookup;

    reveal_strlit("name");
    reveal_strlit("color");
    reveal_strlit("is_favorite");
    reveal_strlit("view_style");
    assert("name"@.len() == 4);
    assert("color"@.len() == 5);
    assert("is_favorite"@.len() == 11);
    assert("view_style"@.len() == 10);
}

/// Law: an update-label body contains exactly the set fields — each key is
/// present precisely when its argument is set, and then carries the
/// argument's value; an absent argument produces no key.
pub proof fn lemma_update_label_body_exact(args: UpdateLabelArgs)
    ensures
        body_has_key(spec_update_label_body(args), "name"@) <==> args.name is Some,
        body_has_key(spec_update_label_body(args), "color"@) <==> args.color is Some,
        body_has_key(spec_update_label_body(args), "order"@) <==> args.order is Some,
        body_has_key(spec_update_label_body(args), "is_favorite"@) <==> args.is_favorite is Some,
        body_lookup(spec_update_label_body(args), "name"@) == text_value_of(args.name),
        body_lookup(spec_update_label_body(args), "color"@) == text_value_of(args.color),
        body_lookup(spec_update_label_body(args), "order"@) == number_value_of(args.order),
        body_lookup(spec_update_label_body(args), "is_favorite"@) == flag_value_of(args.is_favorite),
{
    broadcast use group_body_lookup;

    reveal_strlit("name");
    reveal_strlit("color");
    reveal_strlit("order");
    reveal_strlit("is_favorite");
    assert("name"@.len() == 4);
    assert("color"@.len() == 5);
    assert("order"@.len() == 5);
    assert("is_favorite"@.len() == 11);
    assert("color"@[0] != "order"@[0]);
}

/// Law: an update-comment body always carries exactly the mandatory content.
pub proof fn lemma_update_comment_body_exact(args: UpdateCommentArgs)
    ensures
        body_has_key(spec_update_comment_body(args), "content"@),
        body_lookup(spec_update_comment_body(args), "content"@) == Some(JsonVal::Text(args.content@)),
{
    broadcast use group_body_lookup;

    reveal_strlit("content");
    assert("content"@.len() == 7);
}

/// Law: every value encoded into a create-task body can be read back from it:
/// looking each key up recovers the argument it came from, so the encoding
/// loses nothing.
#[verifier::rlimit(80)]
pub proof fn lemma_create_task_body_exact(args: CreateTaskArgs)
    ensures
        body_lookup(spec_create_task_body(args), "content"@) == Some(JsonVal::Text(args.content@)),
        body_lookup(spec_create_task_body(args), "description"@) == text_value_of(args.description),
        body_lookup(spec_create_task_body(args), "project_id"@) == text_value_of(args.project_id),
        body_lookup(spec_create_task_body(args), "section_id"@) == text_value_of(args.section_id),
        body_lookup(spec_create_task_body(args), "parent_id"@) == text_value_of(args.parent_id),
        body_lookup(spec_create_task_body(args), "order"@) == number_value_of(args.order),
        body_lookup(spec_create_task_body(args), "priority"@) == number_value_of(args.priority),
        body_lookup(spec_create_task_body(args), "labels"@) == text_list_value_of(args.labels),
        body_lookup(spec_create_task_body(args), "due_string"@) == text_value_of(args.due_string),
        body_lookup(spec_create_task_body(args), "due_date"@) == text_value_of(args.due_date),
        body_lookup(spec_create_task_body(args), "due_datetime"@) == text_value_of(args.due_datetime),
        body_lookup(spec_create_task_body(args), "due_lang"@) == text_value_of(args.due_lang),
        body_lookup(spec_create_task_body(args), "deadline_date"@) == text_value_of(args.deadline_date),
        body_lookup(spec_create_task_body(args), "deadline_lang"@) == text_value_of(args.deadline_lang),
        body_lookup(spec_create_task_body(args), "assignee_id"@) == text_value_of(args.assignee_id),
        body_lookup(spec_create_task_body(args), "duration"@) == number_value_of(args.duration),
        body_lookup(spec_create_task_body(args), "duration_unit"@) == text_value_of(args.duration_unit),
{
    broadcast use group_body_lookup;

    reveal_strlit("content");
    reveal_strlit("description");
    reveal_strlit("project_id");
    reveal_strlit("section_id");
    reveal_strlit("parent_id");
    reveal_strlit("order");
    reveal_strlit("priority");
    reveal_strlit("labels");
    reveal_strlit("due_string");
    reveal_strlit("due_date");
    reveal_strlit("due_datetime");
    reveal_strlit("due_lang");
    reveal_strlit("deadline_date");
    reveal_strlit("deadline_lang");
    reveal_strlit("assignee_id");
    reveal_strlit("duration");
    reveal_strlit("duration_unit");
    assert("content"@.len() == 7);
    assert("description"@.len() == 11);
    assert("project_id"@.len() == 10);
    assert("section_id"@.len() == 10);
    assert("parent_id"@.len() == 9);
    assert("order"@.len() == 5);
    assert("priority"@.len() == 8);
    assert("labels"@.len() == 6);
    assert("due_string"@.len() == 10);
    assert("due_date"@.len() == 8);
    assert("due_datetime"@.len() == 12);
    assert("due_lang"@.len() == 8);
    assert("deadline_date"@.len() == 13);
    assert("deadline_lang"@.len() == 13);
    assert("assignee_id"@.len() == 11);
    assert("duration"@.len() == 8);
    assert("duration_unit"@.len() == 13);
    assert("description"@[0] != "assignee_id"@[0]);
    assert("project_id"@[0] != "section_id"@[0]);
    assert("project_id"@[0] != "due_string"@[0]);
    assert("section_id"@[0] != "due_string"@[0]);
    assert("priority"@[0] != "due_date"@[0]);
    assert("priority"@[0] != "due_lang"@[0]);
    assert("priority"@[0] != "duration"@[0]);
    assert("due_date"@[4] != "due_lang"@[4]);
    assert("due_date"@[2] != "duration"@[2]);
    assert("due_lang"@[2] != "duration"@[2]);
    assert("deadline_date"@[9] != "deadline_lang"@[9]);
    assert("deadline_date"@[1] != "duration_unit"@[1]);
    assert("deadline_lang"@[1] != "duration_unit"@[1]);
}

/// Law: every value encoded into a create-project body can be read back from
/// it.
pub proof fn lemma_create_project_body_exact(args: CreateProjectArgs)
    ensures
        body_lookup(spec_create_project_body(args), "name"@) == Some(JsonVal::Text(args.name@)),
        body_lookup(spec_create_project_body(args), "color"@) == text_value_of(args.color),
        body_lookup(spec_create_project_body(args), "parent_id"@) == text_value_of(args.parent_id),
        body_lookup(spec_create_project_body(args), "is_favorite"@) == flag_value_of(args.is_favorite),
        body_lookup(spec_create_project_body(args), "view_style"@) == text_value_of(args.view_style),
{
    broadcast use group_body_lookup;

    reveal_strlit("name");
    reveal_strlit("color");
    reveal_strlit("parent_id");
    reveal_strlit("is_favorite");
    reveal_strlit("view_style");
    assert("name"@.len() == 4);
    assert("color"@.len() == 5);
    assert("parent_id"@.len() == 9);
    assert("is_favorite"@.len() == 11);
    assert("view_style"@.len() == 10);
}

/// Law: every value encoded into a create-label body can be read back from it.
pub proof fn lemma_create_label_body_exact(args: CreateLabelArgs)
    ensures
        body_lookup(spec_create_label_body(args), "name"@) == Some(JsonVal::Text(args.name@)),
        body_lookup(spec_create_label_body(args), "color"@) == text_value_of(args.color),
        body_lookup(spec_create_label_body(args), "order"@) == number_value_of(args.order),
        body_lookup(spec_create_label_body(args), "is_favorite"@) == flag_value_of(args.is_favorite),
{
    broadcast use group_body_lookup;

    reveal_strlit("name");
    reveal_strlit("color");
    reveal_strlit("order");
    reveal_strlit("is_favorite");
    assert("name"@.len() == 4);
    assert("color"@.len() == 5);
    assert("order"@.len() == 5);
    assert("is_favorite"@.len() == 11);
    assert("color"@[0] != "order"@[0]);
}

/// Law: every value encoded into a create-section body can be read back from
/// it.
pub proof fn lemma_create_section_body_exact(args: CreateSectionArgs)
    ensures
        body_lookup(spec_create_section_body(args), "name"@) == Some(JsonVal::Text(args.name@)),
        body_lookup(spec_create_section_body(args), "project_id"@) == Some(JsonVal::Text(args.project_id@)),
        body_lookup(spec_create_section_body(args), "order"@) == number_value_of(args.order),
{
    broadcast use group_body_lookup;

    reveal_strlit("name");
    reveal_strlit("project_id");
    reveal_strlit("order");
    assert("name"@.len() == 4);
    assert("project_id"@.len() == 10);
    assert("order"@.len() == 5);
}

/// Law: every value encoded into a create-comment body can be read back from
/// it.
pub proof fn lemma_create_comment_body_exact(args: CreateCommentArgs)
    ensures
        body_lookup(spec_create_comment_body(args), "content"@) == Some(JsonVal::Text(args.content@)),
        body_lookup(spec_create_comment_body(args), "task_id"@) == text_value_of(args.task_id),
        body_lookup(spec_create_comment_body(args), "project_id"@) == text_value_of(args.project_id),
        body_lookup(spec_create_comment_body(args), "attachment"@) == file_value_of(args.attachment),
{
    broadcast use group_body_lookup;

    reveal_strlit("content");
    reveal_strlit("task_id");
    reveal_strlit("project_id");
    reveal_strlit("attachment");
    assert("content"@.len() == 7);
    assert("task_id"@.len() == 7);
    assert("project_id"@.len() == 10);
    assert("attachment"@.len() == 10);
    assert("content"@[0] != "task_id"@[0]);
    assert("project_id"@[0] != "attachment"@[0]);
}

} // verus!
