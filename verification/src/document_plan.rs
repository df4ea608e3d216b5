//! The keyset page plan for the document store.
//!
//! The document backend paginates with an aggregation pipeline instead of
//! SQL text.  The decisions are the same as the relational planner's — sort
//! order, comparison operator, boundary, limit, final re-sort — and the
//! pipelines are planned here as plain stage data: scope to the parent
//! document, flatten the embedded relation, apply the pagination window,
//! and join the page back to full documents.  The caller turns each stage
//! into the store's document form.

use crate::cursor_connection::Direction;
use vstd::prelude::*;

verus! {

/// The sort order a direction paginates in: ascending forward, descending
/// backward (the plan re-sorts ascending at the end either way).
pub open spec fn spec_order(direction: Direction) -> i32 {
    match direction {
        Direction::Forward => 1i32,
        Direction::Backward => -1i32,
    }
}

/// The sort order of a direction, `1` ascending or `-1` descending.
pub fn to_order(direction: &Direction) -> (order: i32)
    ensures
        order == spec_order(*direction),
{
    match direction {
        Direction::Forward => 1,
        _ => -1,
    }
}

/// The comparison operator of a direction: strictly beyond the boundary
/// forward, strictly before it backward.
pub fn to_operator(direction: &Direction) -> (operator: &'static str)
    ensures
        *direction == Direction::Forward ==> operator@ == "$gt"@,
        *direction == Direction::Backward ==> operator@ == "$lt"@,
{
    match direction {
        Direction::Forward => "$gt",
        _ => "$lt",
    }
}

/// One stage of an aggregation pipeline, as plain data; document paths are
/// stored without the store's `$` prefix.
#[derive(Debug, PartialEq)]
pub enum PipelineStage {
    /// Sort by the sort key, `1` ascending or `-1` descending.
    SortById { order: i32 },
    /// Keep the documents whose key at `field` is beyond (`Forward`) or
    /// before (`Backward`) the boundary key.
    MatchBoundary { field: String, direction: Direction, id: String },
    /// Keep at most `count` documents.
    Limit { count: u32 },
    /// Keep the documents whose `login` equals the given parent login.
    MatchLogin { login: String },
    /// Flatten the embedded array at `field` to one document per element.
    Unwind { field: String },
    /// Keep only the element's id: `_id` becomes `field._id`.
    ProjectIdFrom { field: String },
    /// Join the documents of `from` whose `foreign_field` equals this
    /// document's `local_field`, as an array named `alias`.
    Lookup { from: String, local_field: String, foreign_field: String, alias: String },
    /// Replace each document by the first element of the array `alias`.
    ReplaceRootFirstOf { alias: String },
    /// Replace each document by its embedded document at `field`.
    ReplaceRootField { field: String },
    /// Keep only the named fields.
    ProjectFields { fields: Vec<String> },
    /// Replace the documents by their count, named `alias`.
    CountTo { alias: String },
}

/// How many stages the pagination window takes: the boundary match stands
/// only when there is a boundary.
pub open spec fn window_len(boundary: Option<String>) -> int {
    match boundary {
        Some(_) => 4,
        None => 3,
    }
}

/// Holds of the pagination window starting at `start`: sort in the
/// direction's order, match the documents beyond the boundary when one is
/// given, apply the limit, and re-sort ascending.
pub open spec fn window_ok(
    stages: Seq<PipelineStage>,
    start: int,
    field: Seq<char>,
    direction: Direction,
    limit: u32,
    boundary: Option<String>,
) -> bool {
    match boundary {
        Some(id) => {
            &&& stages.len() >= start + 4
            &&& stages[start] == (PipelineStage::SortById { order: spec_order(direction) })
            &&& (stages[start + 1] matches PipelineStage::MatchBoundary {
                field: f,
                direction: d,
                id: i,
            } && f@ == field && d == direction && i == id)
            &&& stages[start + 2] == (PipelineStage::Limit { count: limit })
            &&& stages[start + 3] == (PipelineStage::SortById { order: 1 })
        },
        None => {
            &&& stages.len() >= start + 3
            &&& stages[start] == (PipelineStage::SortById { order: spec_order(direction) })
            &&& stages[start + 1] == (PipelineStage::Limit { count: limit })
            &&& stages[start + 2] == (PipelineStage::SortById { order: 1 })
        },
    }
}

/// Holds of a finished window plan standing alone.
pub open spec fn stage_plan_ok(
    stages: Seq<PipelineStage>,
    field: Seq<char>,
    direction: Direction,
    limit: u32,
    boundary: Option<String>,
) -> bool {
    stages.len() == window_len(boundary) && window_ok(stages, 0, field, direction, limit, boundary)
}

/// Plans the pagination window over the key at `boundary_field`: sort in
/// the direction's order, keep the documents beyond the boundary when one
/// is given, apply the limit, and re-sort ascending.
pub fn paginate_stages(
    direction: &Direction,
    limit: u32,
    boundary: Option<String>,
    boundary_field: &str,
) -> (stages: Vec<PipelineStage>)
    ensures
        stage_plan_ok(stages@, boundary_field@, *direction, limit, boundary),
{
    let ghost boundary_snapshot = boundary;
    let order = to_order(direction);
    let mut stages: Vec<PipelineStage> = Vec::new();
    stages.push(PipelineStage::SortById { order });
    match boundary {
        Some(id) => {
            stages.push(
                PipelineStage::MatchBoundary {
                    field: boundary_field.to_owned(),
                    direction: *direction,
                    id,
                },
            );
            stages.push(PipelineStage::Limit { count: limit });
            stages.push(PipelineStage::SortById { order: 1 });
        },
        None => {
            stages.push(PipelineStage::Limit { count: limit });
            stages.push(PipelineStage::SortById { order: 1 });
        },
    }
    stages
}

/// Holds of a pipeline that pages an embedded relation of the parent
/// document: scope to the parent by login, flatten the array at
/// `member_field` to one id per element, apply the window over `_id`, then
/// join the page back to the full documents of `lookup_from`.
pub open spec fn unwound_pipeline_ok(
    stages: Seq<PipelineStage>,
    login: String,
    member_field: Seq<char>,
    lookup_from: Seq<char>,
    direction: Direction,
    limit: u32,
    boundary: Option<String>,
) -> bool {
    let n = window_len(boundary);
    &&& stages.len() == 5 + n
    &&& (stages[0] matches PipelineStage::MatchLogin { login: l } && l == login)
    &&& (stages[1] matches PipelineStage::Unwind { field } && field@ == member_field)
    &&& (stages[2] matches PipelineStage::ProjectIdFrom { field } && field@ == member_field)
    &&& window_ok(stages, 3, "_id"@, direction, limit, boundary)
    &&& (stages[3 + n] matches PipelineStage::Lookup { from, local_field, foreign_field, alias }
        && from@ == lookup_from && local_field@ == "_id"@ && foreign_field@ == "_id"@ && alias@
        == "item"@)
    &&& (stages[4 + n] matches PipelineStage::ReplaceRootFirstOf { alias } && alias@ == "item"@)
}

fn paginate_unwound_relation(
    login: String,
    member_field: &str,
    lookup_from: &str,
    direction: &Direction,
    limit: u32,
    boundary: Option<String>,
) -> (stages: Vec<PipelineStage>)
    ensures
        unwound_pipeline_ok(
            stages@,
            login,
            member_field@,
            lookup_from@,
            *direction,
            limit,
            boundary,
        ),
{
    let ghost boundary_snapshot = boundary;
    let mut stages: Vec<PipelineStage> = Vec::new();
    stages.push(PipelineStage::MatchLogin { login });
    stages.push(PipelineStage::Unwind { field: member_field.to_owned() });
    stages.push(PipelineStage::ProjectIdFrom { field: member_field.to_owned() });
    let mut window = paginate_stages(direction, limit, boundary, "_id");
    stages.append(&mut window);
    stages.push(
        PipelineStage::Lookup {
            from: lookup_from.to_owned(),
            local_field: "_id".to_owned(),
            foreign_field: "_id".to_owned(),
            alias: "item".to_owned(),
        },
    );
    stages.push(PipelineStage::ReplaceRootFirstOf { alias: "item".to_owned() });
    stages
}

/// Plans the page of a user's followers over the embedded `followers` ids.
pub fn pipeline_paginated_followers(
    login: String,
    direction: &Direction,
    limit: u32,
    boundary: Option<String>,
) -> (stages: Vec<PipelineStage>)
    ensures
        unwound_pipeline_ok(
            stages@,
            login,
            "followers"@,
            "users"@,
            *direction,
            limit,
            boundary,
        ),
{
    paginate_unwound_relation(login, "followers", "users", direction, limit, boundary)
}

/// Plans the page of the users a user follows over the embedded
/// `following` ids.
pub fn pipeline_paginated_following(
    login: String,
    direction: &Direction,
    limit: u32,
    boundary: Option<String>,
) -> (stages: Vec<PipelineStage>)
    ensures
        unwound_pipeline_ok(
            stages@,
            login,
            "following"@,
            "users"@,
            *direction,
            limit,
            boundary,
        ),
{
    paginate_unwound_relation(login, "following", "users", direction, limit, boundary)
}

/// Plans the page of an organization's members over the embedded `people`
/// ids.
pub fn pipeline_paginated_people(
    login: String,
    direction: &Direction,
    limit: u32,
    boundary: Option<String>,
) -> (stages: Vec<PipelineStage>)
    ensures
        unwound_pipeline_ok(stages@, login, "people"@, "users"@, *direction, limit, boundary),
{
    paginate_unwound_relation(login, "people", "users", direction, limit, boundary)
}

/// Plans the page of a user's starred repositories over the embedded
/// `starredRepositories` ids.
pub fn pipeline_paginated_starred_repositories(
    login: String,
    direction: &Direction,
    limit: u32,
    boundary: Option<String>,
) -> (stages: Vec<PipelineStage>)
    ensures
        unwound_pipeline_ok(
            stages@,
            login,
            "starredRepositories"@,
            "repositories"@,
            *direction,
            limit,
            boundary,
        ),
{
    paginate_unwound_relation(
        login,
        "starredRepositories",
        "repositories",
        direction,
        limit,
        boundary,
    )
}

/// Holds of the organizations pipeline: scope to the user by login, join
/// the organization documents over the embedded membership ids, flatten
/// them, apply the window over the joined `organizations._id`, then keep
/// each organization document with its summary fields.
pub open spec fn organizations_pipeline_ok(
    stages: Seq<PipelineStage>,
    login: String,
    direction: Direction,
    limit: u32,
    boundary: Option<String>,
) -> bool {
    let n = window_len(boundary);
    &&& stages.len() == 5 + n
    &&& (stages[0] matches PipelineStage::MatchLogin { login: l } && l == login)
    &&& (stages[1] matches PipelineStage::Lookup { from, local_field, foreign_field, alias }
        && from@ == "organizations"@ && local_field@ == "organizations._id"@ && foreign_field@
        == "_id"@ && alias@ == "organizations"@)
    &&& (stages[2] matches PipelineStage::Unwind { field } && field@ == "organizations"@)
    &&& window_ok(stages, 3, "organizations._id"@, direction, limit, boundary)
    &&& (stages[3 + n] matches PipelineStage::ReplaceRootField { field } && field@
        == "organizations"@)
    &&& (stages[4 + n] matches PipelineStage::ProjectFields { fields } && fields@.len() == 4
        && fields@[0]@ == "login"@ && fields@[1]@ == "name"@ && fields@[2]@ == "avatarUrl"@
        && fields@[3]@ == "url"@)
}

/// Plans the page of a user's organizations over the joined organization
/// documents.
pub fn pipeline_paginated_organization(
    login: String,
    direction: &Direction,
    limit: u32,
    boundary: Option<String>,
) -> (stages: Vec<PipelineStage>)
    ensures
        organizations_pipeline_ok(stages@, login, *direction, limit, boundary),
{
    let ghost boundary_snapshot = boundary;
    let mut stages: Vec<PipelineStage> = Vec::new();
    stages.push(PipelineStage::MatchLogin { login });
    stages.push(
        PipelineStage::Lookup {
            from: "organizations".to_owned(),
            local_field: "organizations._id".to_owned(),
            foreign_field: "_id".to_owned(),
            alias: "organizations".to_owned(),
        },
    );
    stages.push(PipelineStage::Unwind { field: "organizations".to_owned() });
    let mut window = paginate_stages(direction, limit, boundary, "organizations._id");
    stages.append(&mut window);
    stages.push(PipelineStage::ReplaceRootField { field: "organizations".to_owned() });
    let mut fields: Vec<String> = Vec::new();
    fields.push("login".to_owned());
    fields.push("name".to_owned());
    fields.push("avatarUrl".to_owned());
    fields.push("url".to_owned());
    stages.push(PipelineStage::ProjectFields { fields });
    stages
}

/// Holds of one branch of the facet-style boundary probe: scope to the
/// parent by login, flatten the embedded relation, keep the documents
/// strictly on the given side of the fetched key, and count at most one of
/// them.  The `Backward` comparison means before the key, `Forward` beyond
/// it.
pub open spec fn probe_branch_ok(
    stages: Seq<PipelineStage>,
    login: String,
    member_field: Seq<char>,
    direction: Direction,
    key: String,
) -> bool {
    &&& stages.len() == 6
    &&& (stages[0] matches PipelineStage::MatchLogin { login: l } && l == login)
    &&& (stages[1] matches PipelineStage::Unwind { field } && field@ == member_field)
    &&& (stages[2] matches PipelineStage::ReplaceRootField { field } && field@ == member_field)
    &&& (stages[3] matches PipelineStage::MatchBoundary { field, direction: d, id } && field@
        == "_id"@ && d == direction && id == key)
    &&& stages[4] == (PipelineStage::Limit { count: 1 })
    &&& (stages[5] matches PipelineStage::CountTo { alias } && alias@ == "count"@)
}

fn probe_branch(
    login: String,
    member_field: &str,
    direction: &Direction,
    key: String,
) -> (stages: Vec<PipelineStage>)
    ensures
        probe_branch_ok(stages@, login, member_field@, *direction, key),
{
    let ghost key_snapshot = key;
    let mut stages: Vec<PipelineStage> = Vec::new();
    stages.push(PipelineStage::MatchLogin { login });
    stages.push(PipelineStage::Unwind { field: member_field.to_owned() });
    stages.push(PipelineStage::ReplaceRootField { field: member_field.to_owned() });
    stages.push(
        PipelineStage::MatchBoundary {
            field: "_id".to_owned(),
            direction: *direction,
            id: key,
        },
    );
    stages.push(PipelineStage::Limit { count: 1 });
    stages.push(PipelineStage::CountTo { alias: "count".to_owned() });
    stages
}

/// Plans the two branches of the facet-style boundary probe around a
/// fetched page of the embedded relation at `field_name`: one branch counts
/// a document before the first fetched key, the other one beyond the last.
/// The caller runs both under one facet and folds the counts with
/// `facet_counts_to_flags`.
pub fn pipeline_pages_previous_and_next(
    owner_login: String,
    first_item_id: String,
    last_item_id: String,
    field_name: &str,
) -> (branches: (Vec<PipelineStage>, Vec<PipelineStage>))
    ensures
        probe_branch_ok(
            branches.0@,
            owner_login,
            field_name@,
            Direction::Backward,
            first_item_id,
        ),
        probe_branch_ok(branches.1@, owner_login, field_name@, Direction::Forward, last_item_id),
{
    let previous = probe_branch(
        owner_login.clone(),
        field_name,
        &Direction::Backward,
        first_item_id,
    );
    let next = probe_branch(owner_login, field_name, &Direction::Forward, last_item_id);
    (previous, next)
}

/// Folds the two counts of a facet-style boundary probe into the two
/// existence flags, as the document pipeline's boolean conversion does.
pub fn facet_counts_to_flags(previous_count: usize, next_count: usize) -> (flags: (bool, bool))
    ensures
        flags.0 == (previous_count > 0),
        flags.1 == (next_count > 0),
{
    (previous_count > 0, next_count > 0)
}

} // verus!
