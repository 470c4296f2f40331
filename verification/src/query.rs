//! Query-parameter construction for the list calls, and the URL assembly the
//! transport uses: parameters are an ordered list of key/value pairs holding
//! only the filter fields that are set, joined as `?k=v&k=v` after the path.

use vstd::prelude::*;

use crate::models::CommentFilterArgs;
use crate::models::LabelFilterArgs;
use crate::models::ProjectFilterArgs;
use crate::models::SectionFilterArgs;
use crate::models::TaskFilterArgs;
use crate::text::i32_to_dec;
use crate::text::spec_i32_dec;

verus! {

/// The parameter an optional string filter field contributes: its key and
/// text when set, nothing when absent.
pub open spec fn text_param(key: Seq<char>, v: Option<String>) -> Seq<(Seq<char>, Seq<char>)> {
    match v {
        Some(s) => seq![(key, s@)],
        None => seq![],
    }
}

/// The parameter an optional integer filter field contributes, written in
/// decimal.
pub open spec fn number_param(key: Seq<char>, v: Option<i32>) -> Seq<(Seq<char>, Seq<char>)> {
    match v {
        Some(n) => seq![(key, spec_i32_dec(n as int))],
        None => seq![],
    }
}

fn push_text_param(params: &mut Vec<(String, String)>, key: &str, v: &Option<String>)
    ensures
        final(params).deep_view() == old(params).deep_view() + text_param(key@, *v),
{
    if let Some(s) = v {
        params.push((key.to_owned(), s.clone()));
    }
    assert(params.deep_view() =~= old(params).deep_view() + text_param(key@, *v));
}

fn push_number_param(params: &mut Vec<(String, String)>, key: &str, v: &Option<i32>)
    ensures
        final(params).deep_view() == old(params).deep_view() + number_param(key@, *v),
{
    if let Some(n) = v {
        let text = i32_to_dec(*n);
        params.push((key.to_owned(), text));
    }
    assert(params.deep_view() =~= old(params).deep_view() + number_param(key@, *v));
}

/// The query parameters of a filtered task list: the mandatory free-text
/// query, then `lang`, `limit` and `cursor` when set, in that order.
pub open spec fn spec_task_filter_params(args: TaskFilterArgs) -> Seq<(Seq<char>, Seq<char>)> {
    seq![("query"@, args.query@)] + text_param("lang"@, args.lang) + number_param(
        "limit"@,
        args.limit,
    ) + text_param("cursor"@, args.cursor)
}

/// Build the query parameters of a filtered task list.
pub fn task_filter_params(args: &TaskFilterArgs) -> (r: Vec<(String, String)>)
    ensures
        r.deep_view() == spec_task_filter_params(*args),
{
    let mut params: Vec<(String, String)> = Vec::new();
    params.push(("query".to_owned(), args.query.clone()));
    assert(params.deep_view() =~= seq![("query"@, args.query@)]);
    push_text_param(&mut params, "lang", &args.lang);
    push_number_param(&mut params, "limit", &args.limit);
    push_text_param(&mut params, "cursor", &args.cursor);
    params
}

/// The query parameters of a filtered project list: `limit` and `cursor` when
/// set.
pub open spec fn spec_project_filter_params(args: ProjectFilterArgs) -> Seq<
    (Seq<char>, Seq<char>),
> {
    number_param("limit"@, args.limit) + text_param("cursor"@, args.cursor)
}

/// Build the query parameters of a filtered project list.
pub fn project_filter_params(args: &ProjectFilterArgs) -> (r: Vec<(String, String)>)
    ensures
        r.deep_view() == spec_project_filter_params(*args),
{
    let mut params: Vec<(String, String)> = Vec::new();
    push_number_param(&mut params, "limit", &args.limit);
    assert(params.deep_view() =~= number_param("limit"@, args.limit));
    push_text_param(&mut params, "cursor", &args.cursor);
    params
}

/// The query parameters of a filtered label list: `limit` and `cursor` when
/// set.
pub open spec fn spec_label_filter_params(args: LabelFilterArgs) -> Seq<(Seq<char>, Seq<char>)> {
    number_param("limit"@, args.limit) + text_param("cursor"@, args.cursor)
}

/// Build the query parameters of a filtered label list.
pub fn label_filter_params(args: &LabelFilterArgs) -> (r: Vec<(String, String)>)
    ensures
        r.deep_view() == spec_label_filter_params(*args),
{
    let mut params: Vec<(String, String)> = Vec::new();
    push_number_param(&mut params, "limit", &args.limit);
    assert(params.deep_view() =~= number_param("limit"@, args.limit));
    push_text_param(&mut params, "cursor", &args.cursor);
    params
}

/// The query parameters of a filtered section list: `project_id`, `limit` and
/// `cursor` when set.
pub open spec fn spec_section_filter_params(args: SectionFilterArgs) -> Seq<
    (Seq<char>, Seq<char>),
> {
    text_param("project_id"@, args.project_id) + number_param("limit"@, args.limit) + text_param(
        "cursor"@,
        args.cursor,
    )
}

/// Build the query parameters of a filtered section list.
pub fn section_filter_params(args: &SectionFilterArgs) -> (r: Vec<(String, String)>)
    ensures
        r.deep_view() == spec_section_filter_params(*args),
{
    let mut params: Vec<(String, String)> = Vec::new();
    push_text_param(&mut params, "project_id", &args.project_id);
    assert(params.deep_view() =~= text_param("project_id"@, args.project_id));
    push_number_param(&mut params, "limit", &args.limit);
    push_text_param(&mut params, "cursor", &args.cursor);
    params
}

/// The query parameters of a filtered comment list: `task_id`, `project_id`,
/// `limit` and `cursor` when set.
pub open spec fn spec_comment_filter_params(args: CommentFilterArgs) -> Seq<
    (Seq<char>, Seq<char>),
> {
    text_param("task_id"@, args.task_id) + text_param("project_id"@, args.project_id)
        + number_param("limit"@, args.limit) + text_param("cursor"@, args.cursor)
}

/// Build the query parameters of a filtered comment list.
pub fn comment_filter_params(args: &CommentFilterArgs) -> (r: Vec<(String, String)>)
    ensures
        r.deep_view() == spec_comment_filter_params(*args),
{
    let mut params: Vec<(String, String)> = Vec::new();
    push_text_param(&mut params, "task_id", &args.task_id);
    assert(params.deep_view() =~= text_param("task_id"@, args.task_id));
    push_text_param(&mut params, "project_id", &args.project_id);
    push_number_param(&mut params, "limit", &args.limit);
    push_text_param(&mut params, "cursor", &args.cursor);
    params
}

/// The parameters joined as `k=v` pairs separated by `&`, in order.
pub open spec fn spec_params_joined(params: Seq<(Seq<char>, Seq<char>)>) -> Seq<char>
    decreases params.len(),
{
    if params.len() == 0 {
        Seq::empty()
    } else if params.len() == 1 {
        params[0].0 + "="@ + params[0].1
    } else {
        spec_params_joined(params.drop_last()) + "&"@ + params.last().0 + "="@ + params.last().1
    }
}

/// The query-string suffix of a URL: empty without parameters, otherwise `?`
/// followed by the joined parameters.
pub open spec fn spec_query_string(params: Seq<(Seq<char>, Seq<char>)>) -> Seq<char> {
    if params.len() == 0 {
        Seq::empty()
    } else {
        "?"@ + spec_params_joined(params)
    }
}

/// Join the parameters into the query-string suffix of a URL.
pub fn query_string(params: &Vec<(String, String)>) -> (r: String)
    ensures
        r@ == spec_query_string(params.deep_view()),
{
    let mut out = String::new();
    if params.len() == 0 {
        assert(out@ =~= spec_query_string(params.deep_view()));
        return out;
    }
    out.append("?");
    proof {
        reveal_strlit("?");
        assert(out@ =~= "?"@);
    }
    let n = params.len();
    let mut joined = String::new();
    let mut i: usize = 0;
    while i < n
        invariant
            n == params@.len(),
            0 <= i <= n,
            joined@ == spec_params_joined(params.deep_view().subrange(0, i as int)),
        decreases n - i,
    {
        let ghost prefix = params.deep_view().subrange(0, i as int);
        let ghost extended = params.deep_view().subrange(0, i as int + 1);
        if i > 0 {
            joined.append("&");
        }
        let pair = &params[i];
        joined.append(pair.0.as_str());
        joined.append("=");
        joined.append(pair.1.as_str());
        proof {
            assert(extended.drop_last() =~= prefix);
            assert(extended.last() == (params@[i as int].0@, params@[i as int].1@));
            if i == 0 {
                assert(joined@ =~= extended[0].0 + "="@ + extended[0].1);
            }
        }
        i = i + 1;
    }
    assert(params.deep_view().subrange(0, n as int) =~= params.deep_view());
    out.append(joined.as_str());
    out
}

} // verus!
