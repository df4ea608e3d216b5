//! The keyset query planner for the relational store.
//!
//! Each planner turns a resolved pagination request — direction, limit and
//! optional boundary key — into one statement and its positional parameters:
//! forward pages read ascending from just after the boundary with the limit
//! applied; backward pages fetch the tail of the range descending through a
//! pair of common-table expressions and re-order it ascending.  The boundary
//! probes build two `LIMIT 1` statements from one shared base, tag them
//! `'previous'` and `'next'`, and union them.

use crate::cursor_connection::{cursor_to_reference, spec_cursor, Direction};
use crate::decimal::{parse_i32, parsed_i32};
use crate::sql_query_builder::{
    empty_stmt, spec_formatters, spec_render, with_cte, with_from, with_join, with_limit,
    with_order_by, with_select, with_union, with_where, SelectBuilder, StmtView,
};
use vstd::prelude::*;

verus! {

/// One positional query parameter, by value; the caller binds it to the
/// store client's parameter slot of the same position.
#[derive(Debug, PartialEq)]
pub enum QueryParam {
    Text(String),
    Int(i32),
    BigInt(i64),
}

/// What a boundary cursor resolves to for a planner keyed by `i32`: the id
/// parsed from the decoded reference, where the reference is decimal text in
/// range — and no boundary at all on any malformed or stale cursor, which
/// degrades to an unbounded first page rather than an error.
pub open spec fn spec_parsed_boundary(reference: Seq<char>) -> Option<i32> {
    match parsed_i32(reference) {
        Some(v) => Some(v as i32),
        None => None,
    }
}

/// Decodes an optional boundary cursor to an optional `i32` sort key,
/// leniently: a missing cursor, a malformed cursor, or a reference that is
/// not an in-range decimal number all yield no boundary.
pub fn parse_cursor(cursor: Option<String>) -> (id: Option<i32>)
    ensures
        cursor is None ==> id is None,
        cursor matches Some(c) ==> forall|r: Seq<char>|
            c@ == spec_cursor(r) ==> id == spec_parsed_boundary(r),
{
    if cursor.is_none() {
        return None;
    }

    let reference = cursor_to_reference(cursor.unwrap());
    if reference.is_err() {
        return None;
    }

    let reference = reference.unwrap();
    let id = parse_i32(reference.as_str());
    if id.is_none() {
        return None;
    }

    id
}

/// The parameters of a keyset page query: the parent login, the page limit,
/// and the boundary key when there is one.
pub open spec fn keyset_params(login: String, limit: i64, boundary: Option<i32>) -> Seq<
    QueryParam,
> {
    let base = Seq::empty().push(QueryParam::Text(login)).push(QueryParam::BigInt(limit));
    match boundary {
        Some(id) => base.push(QueryParam::Int(id)),
        None => base,
    }
}

/// The parameters of a boundary probe: the parent login, then the first and
/// last fetched keys.
pub open spec fn probe_params(login: String, first_id: i32, last_id: i32) -> Seq<QueryParam> {
    Seq::empty().push(QueryParam::Text(login)).push(QueryParam::Int(first_id)).push(
        QueryParam::Int(last_id),
    )
}

/// The boundary probe built from a shared base: the base specialized to a
/// `'previous'` row bounded above by the first fetched key, unioned with the
/// base specialized to a `'next'` row bounded below by the last fetched key.
pub open spec fn probe_pair(
    base: StmtView,
    previous_bound: Seq<char>,
    next_bound: Seq<char>,
) -> StmtView {
    with_union(
        with_where(with_select(base, "'previous' as page"@), previous_bound),
        with_where(with_select(base, "'next' as page"@), next_bound),
    )
}

/// The shared base of the follower queries: the users that follow `$1`,
/// ascending by id.
pub open spec fn followers_base() -> StmtView {
    with_order_by(
        with_where(
            with_join(
                with_from(with_select(empty_stmt(), "u.*"@), "users u"@),
                "users_following uf"@,
                "uf.user_login = u.login"@,
            ),
            "uf.following_login = $1"@,
        ),
        "u.id asc"@,
    )
}

/// The page statement over a base whose rows already carry the parent
/// predicate and ascending order: forward limits the base itself, bounded
/// below by `$3` when a boundary is given; backward wraps the base as a
/// common-table expression, fetches the tail of the range descending
/// through a second, reversed expression, and re-orders it ascending.
pub open spec fn keyset_page(
    base: StmtView,
    cte_name: Seq<char>,
    reverse_name: Seq<char>,
    forward_bound: Seq<char>,
    direction: Direction,
    has_boundary: bool,
) -> StmtView {
    match direction {
        Direction::Forward => {
            let limited = with_limit(base, "$2"@);
            if has_boundary {
                with_where(limited, forward_bound)
            } else {
                limited
            }
        },
        Direction::Backward => {
            let reversed = with_limit(
                with_order_by(with_from(with_select(empty_stmt(), "*"@), cte_name), "id desc"@),
                "$2"@,
            );
            let reversed = if has_boundary {
                with_where(reversed, "id < $3::int"@)
            } else {
                reversed
            };
            with_order_by(
                with_from(
                    with_select(
                        with_cte(with_cte(empty_stmt(), cte_name, base), reverse_name, reversed),
                        "*"@,
                    ),
                    reverse_name,
                ),
                "id asc"@,
            )
        },
    }
}

/// Plans the page of users that follow `user_login`.
pub fn query_find_followers_by_login(
    user_login: &String,
    follower_id: &Option<i32>,
    direction: &Direction,
    limit: &i64,
) -> (plan: (String, Vec<QueryParam>))
    ensures
        plan.0@ == spec_render(
            keyset_page(
                followers_base(),
                "followers"@,
                "followers_reverse"@,
                "u.id > $3"@,
                *direction,
                follower_id is Some,
            ),
            spec_formatters(false),
        ),
        plan.1@ == keyset_params(*user_login, *limit, *follower_id),
{
    let mut select_followers = SelectBuilder::new()
        .select("u.*")
        .from("users u")
        .inner_join("users_following uf", "uf.user_login = u.login")
        .where_clause("uf.following_login = $1")
        .order_by("u.id asc");

    let mut params: Vec<QueryParam> = Vec::new();
    params.push(QueryParam::Text(user_login.clone()));

    let query = match direction {
        Direction::Backward => {
            let mut select_followers_reverse = SelectBuilder::new()
                .select("*")
                .from("followers")
                .order_by("id desc")
                .limit("$2");

            params.push(QueryParam::BigInt(*limit));

            if let Some(follower_id) = follower_id {
                select_followers_reverse = select_followers_reverse.and("id < $3::int");
                params.push(QueryParam::Int(*follower_id));
            }

            SelectBuilder::new()
                .with("followers", select_followers)
                .with("followers_reverse", select_followers_reverse)
                .select("*")
                .from("followers_reverse")
                .order_by("id asc")
                .as_string()
        },
        Direction::Forward => {
            select_followers = select_followers.limit("$2");
            params.push(QueryParam::BigInt(*limit));

            if let Some(follower_id) = follower_id {
                select_followers = select_followers.and("u.id > $3");
                params.push(QueryParam::Int(*follower_id));
            }

            select_followers.as_string()
        },
    };

    (query, params)
}

/// The shared base of the followed queries: the users that `$1` follows,
/// ascending by id.
pub open spec fn followed_base() -> StmtView {
    with_order_by(
        with_where(
            with_join(
                with_from(with_select(empty_stmt(), "u.*"@), "users u"@),
                "users_following uf"@,
                "uf.following_login = u.login"@,
            ),
            "uf.user_login = $1"@,
        ),
        "u.id asc"@,
    )
}

/// Plans the page of users that `user_login` follows.
pub fn query_find_followed_by_login(
    user_login: &String,
    followed_id: &Option<i32>,
    direction: &Direction,
    limit: &i64,
) -> (plan: (String, Vec<QueryParam>))
    ensures
        plan.0@ == spec_render(
            keyset_page(
                followed_base(),
                "following"@,
                "following_reverse"@,
                "u.id > $3"@,
                *direction,
                followed_id is Some,
            ),
            spec_formatters(false),
        ),
        plan.1@ == keyset_params(*user_login, *limit, *followed_id),
{
    let mut select_following = SelectBuilder::new()
        .select("u.*")
        .from("users u")
        .inner_join("users_following uf", "uf.following_login = u.login")
        .where_clause("uf.user_login = $1")
        .order_by("u.id asc");

    let mut params: Vec<QueryParam> = Vec::new();
    params.push(QueryParam::Text(user_login.clone()));

    let query = match direction {
        Direction::Backward => {
            let mut select_following_reverse = SelectBuilder::new()
                .select("*")
                .from("following")
                .order_by("id desc")
                .limit("$2");

            params.push(QueryParam::BigInt(*limit));

            if let Some(followed_id) = followed_id {
                select_following_reverse = select_following_reverse.and("id < $3::int");
                params.push(QueryParam::Int(*followed_id));
            }

            SelectBuilder::new()
                .with("following", select_following)
                .with("following_reverse", select_following_reverse)
                .select("*")
                .from("following_reverse")
                .order_by("id asc")
                .as_string()
        },
        Direction::Forward => {
            select_following = select_following.limit("$2");
            params.push(QueryParam::BigInt(*limit));

            if let Some(followed_id) = followed_id {
                select_following = select_following.and("u.id > $3");
                params.push(QueryParam::Int(*followed_id));
            }

            select_following.as_string()
        },
    };

    (query, params)
}

/// The shared base of the organization-membership queries: the
/// organizations that user `$1` belongs to, with the join date, ascending by
/// organization id.
pub open spec fn user_organizations_base() -> StmtView {
    with_order_by(
        with_where(
            with_join(
                with_join(
                    with_from(
                        with_select(empty_stmt(), "o.*, uo.created_at as joined_at"@),
                        "users u"@,
                    ),
                    "users_organizations uo"@,
                    "uo.user_login = u.login"@,
                ),
                "organizations o"@,
                "o.login = uo.organization_login"@,
            ),
            "u.login = $1"@,
        ),
        "o.id asc"@,
    )
}

/// Plans the page of organizations that `user_login` belongs to.
pub fn query_find_organizations_by_user_login(
    user_login: &String,
    org_id: &Option<i32>,
    direction: &Direction,
    limit: &i64,
) -> (plan: (String, Vec<QueryParam>))
    ensures
        plan.0@ == spec_render(
            keyset_page(
                user_organizations_base(),
                "orgs"@,
                "orgs_reverse"@,
                "o.id > $3"@,
                *direction,
                org_id is Some,
            ),
            spec_formatters(false),
        ),
        plan.1@ == keyset_params(*user_login, *limit, *org_id),
{
    let mut select_org = SelectBuilder::new()
        .select("o.*, uo.created_at as joined_at")
        .from("users u")
        .inner_join("users_organizations uo", "uo.user_login = u.login")
        .inner_join("organizations o", "o.login = uo.organization_login")
        .where_clause("u.login = $1")
        .order_by("o.id asc");

    let mut params: Vec<QueryParam> = Vec::new();
    params.push(QueryParam::Text(user_login.clone()));

    let query = match direction {
        Direction::Backward => {
            let mut select_org_reverse = SelectBuilder::new()
                .select("*")
                .from("orgs")
                .order_by("id desc")
                .limit("$2");

            params.push(QueryParam::BigInt(*limit));

            if let Some(org_id) = org_id {
                select_org_reverse = select_org_reverse.and("id < $3::int");
                params.push(QueryParam::Int(*org_id));
            }

            SelectBuilder::new()
                .with("orgs", select_org)
                .with("orgs_reverse", select_org_reverse)
                .select("*")
                .from("orgs_reverse")
                .order_by("id asc")
                .as_string()
        },
        Direction::Forward => {
            select_org = select_org.limit("$2");
            params.push(QueryParam::BigInt(*limit));

            if let Some(org_id) = org_id {
                select_org = select_org.and("o.id > $3");
                params.push(QueryParam::Int(*org_id));
            }

            select_org.as_string()
        },
    };

    (query, params)
}

/// The shared base of the starred-repository queries: the repositories that
/// user `$1` has starred, ascending by repository id.
pub open spec fn starred_repositories_base() -> StmtView {
    with_order_by(
        with_where(
            with_join(
                with_join(
                    with_from(with_select(empty_stmt(), "r.*"@), "users u"@),
                    "users_starred_repositories usr"@,
                    "usr.user_login = u.login"@,
                ),
                "repositories r"@,
                "r.name = usr.repository_name"@,
            ),
            "u.login = $1"@,
        ),
        "r.id asc"@,
    )
}

/// Plans the page of repositories that `user_login` has starred.
pub fn query_find_starred_repositories_by_user_login(
    user_login: &String,
    repo_id: &Option<i32>,
    direction: &Direction,
    limit: &i64,
) -> (plan: (String, Vec<QueryParam>))
    ensures
        plan.0@ == spec_render(
            keyset_page(
                starred_repositories_base(),
                "repos"@,
                "repos_reverse"@,
                "r.id > $3"@,
                *direction,
                repo_id is Some,
            ),
            spec_formatters(false),
        ),
        plan.1@ == keyset_params(*user_login, *limit, *repo_id),
{
    let mut select_repo = SelectBuilder::new()
        .select("r.*")
        .from("users u")
        .inner_join("users_starred_repositories usr", "usr.user_login = u.login")
        .inner_join("repositories r", "r.name = usr.repository_name")
        .where_clause("u.login = $1")
        .order_by("r.id asc");

    let mut params: Vec<QueryParam> = Vec::new();
    params.push(QueryParam::Text(user_login.clone()));

    let query = match direction {
        Direction::Backward => {
            let mut select_repo_reverse = SelectBuilder::new()
                .select("*")
                .from("repos")
                .order_by("id desc")
                .limit("$2");

            params.push(QueryParam::BigInt(*limit));

            if let Some(repo_id) = repo_id {
                select_repo_reverse = select_repo_reverse.and("id < $3::int");
                params.push(QueryParam::Int(*repo_id));
            }

            SelectBuilder::new()
                .with("repos", select_repo)
                .with("repos_reverse", select_repo_reverse)
                .select("*")
                .from("repos_reverse")
                .order_by("id asc")
                .as_string()
        },
        Direction::Forward => {
            select_repo = select_repo.limit("$2");
            params.push(QueryParam::BigInt(*limit));

            if let Some(repo_id) = repo_id {
                select_repo = select_repo.and("r.id > $3");
                params.push(QueryParam::Int(*repo_id));
            }

            select_repo.as_string()
        },
    };

    (query, params)
}

/// The shared base of the membership queries seen from the organization:
/// the users that belong to organization `$1`, with the join date,
/// ascending by user id.
pub open spec fn people_base() -> StmtView {
    with_order_by(
        with_where(
            with_join(
                with_join(
                    with_from(
                        with_select(empty_stmt(), "u.*, uo.created_at as joined_at"@),
                        "organizations org"@,
                    ),
                    "users_organizations uo"@,
                    "uo.organization_login = org.login"@,
                ),
                "users u"@,
                "u.login = uo.user_login"@,
            ),
            "org.login = $1"@,
        ),
        "u.id asc"@,
    )
}

/// Plans the page of users that belong to `organization_login`.
pub fn query_find_people_by_login(
    organization_login: &String,
    user_id: &Option<i32>,
    direction: &Direction,
    limit: &i64,
) -> (plan: (String, Vec<QueryParam>))
    ensures
        plan.0@ == spec_render(
            keyset_page(
                people_base(),
                "people"@,
                "people_reverse"@,
                "u.id > $3"@,
                *direction,
                user_id is Some,
            ),
            spec_formatters(false),
        ),
        plan.1@ == keyset_params(*organization_login, *limit, *user_id),
{
    let mut select_people = SelectBuilder::new()
        .select("u.*, uo.created_at as joined_at")
        .from("organizations org")
        .inner_join("users_organizations uo", "uo.organization_login = org.login")
        .inner_join("users u", "u.login = uo.user_login")
        .where_clause("org.login = $1")
        .order_by("u.id asc");

    let mut params: Vec<QueryParam> = Vec::new();
    params.push(QueryParam::Text(organization_login.clone()));

    let query = match direction {
        Direction::Backward => {
            let mut select_people_reverse = SelectBuilder::new()
                .select("*")
                .from("people")
                .order_by("id desc")
                .limit("$2");

            params.push(QueryParam::BigInt(*limit));

            if let Some(user_id) = user_id {
                select_people_reverse = select_people_reverse.and("id < $3::int");
                params.push(QueryParam::Int(*user_id));
            }

            SelectBuilder::new()
                .with("people", select_people)
                .with("people_reverse", select_people_reverse)
                .select("*")
                .from("people_reverse")
                .order_by("id asc")
                .as_string()
        },
        Direction::Forward => {
            select_people = select_people.limit("$2");
            params.push(QueryParam::BigInt(*limit));

            if let Some(user_id) = user_id {
                select_people = select_people.and("u.id > $3");
                params.push(QueryParam::Int(*user_id));
            }

            select_people.as_string()
        },
    };

    (query, params)
}

/// Plans the single-row lookup of a user by login.
pub fn query_find_user_by_login(login: &String) -> (plan: (String, Vec<QueryParam>))
    ensures
        plan.0@ == spec_render(
            with_where(with_from(with_select(empty_stmt(), "*"@), "users"@), "login = $1"@),
            spec_formatters(false),
        ),
        plan.1@ == Seq::empty().push(QueryParam::Text(*login)),
{
    let query = SelectBuilder::new().select("*").from("users").where_clause(
        "login = $1",
    ).as_string();
    let mut params: Vec<QueryParam> = Vec::new();
    params.push(QueryParam::Text(login.clone()));
    (query, params)
}

/// Plans the single-row lookup of an organization by login.
pub fn query_find_organization_by_login(login: &String) -> (plan: (String, Vec<QueryParam>))
    ensures
        plan.0@ == spec_render(
            with_where(
                with_from(with_select(empty_stmt(), "*"@), "organizations"@),
                "login = $1"@,
            ),
            spec_formatters(false),
        ),
        plan.1@ == Seq::empty().push(QueryParam::Text(*login)),
{
    let query = SelectBuilder::new().select("*").from("organizations").where_clause(
        "login = $1",
    ).as_string();
    let mut params: Vec<QueryParam> = Vec::new();
    params.push(QueryParam::Text(login.clone()));
    (query, params)
}

/// The probe base for followers: one row of the users that follow `$1`.
pub open spec fn followers_probe_base() -> StmtView {
    with_limit(
        with_order_by(
            with_where(
                with_join(
                    with_from(empty_stmt(), "users u"@),
                    "users_following uf"@,
                    "uf.user_login = u.login"@,
                ),
                "uf.following_login = $1"@,
            ),
            "u.id asc"@,
        ),
        "1"@,
    )
}

/// Plans the boundary probe around a fetched page of followers.
pub fn query_followers_pages_previous_and_next(
    user_login: &String,
    first_item_id: &i32,
    last_item_id: &i32,
) -> (plan: (String, Vec<QueryParam>))
    ensures
        plan.0@ == spec_render(
            probe_pair(followers_probe_base(), "u.id < $2 /* first_id */"@, "u.id > $3 /* last_id */"@),
            spec_formatters(false),
        ),
        plan.1@ == probe_params(*user_login, *first_item_id, *last_item_id),
{
    let select_base = SelectBuilder::new()
        .from("users u")
        .inner_join("users_following uf", "uf.user_login = u.login")
        .where_clause("uf.following_login = $1")
        .order_by("u.id asc")
        .limit("1");

    let select_previous = select_base.clone().select("'previous' as page").and(
        "u.id < $2 /* first_id */",
    );
    let select_next = select_base.clone().select("'next' as page").and(
        "u.id > $3 /* last_id */",
    );
    let query = select_previous.union(select_next).as_string();
    let mut params: Vec<QueryParam> = Vec::new();
    params.push(QueryParam::Text(user_login.clone()));
    params.push(QueryParam::Int(*first_item_id));
    params.push(QueryParam::Int(*last_item_id));

    (query, params)
}

/// The probe base for followed users: one row of the users that `$1`
/// follows.
pub open spec fn followed_probe_base() -> StmtView {
    with_limit(
        with_order_by(
            with_where(
                with_join(
                    with_from(empty_stmt(), "users u"@),
                    "users_following uf"@,
                    "uf.following_login = u.login"@,
                ),
                "uf.user_login = $1"@,
            ),
            "u.id asc"@,
        ),
        "1"@,
    )
}

/// Plans the boundary probe around a fetched page of followed users.
pub fn query_followed_pages_previous_and_next(
    user_login: &String,
    first_item_id: &i32,
    last_item_id: &i32,
) -> (plan: (String, Vec<QueryParam>))
    ensures
        plan.0@ == spec_render(
            probe_pair(followed_probe_base(), "u.id < $2 /* first_id */"@, "u.id > $3 /* last_id */"@),
            spec_formatters(false),
        ),
        plan.1@ == probe_params(*user_login, *first_item_id, *last_item_id),
{
    let select_base = SelectBuilder::new()
        .from("users u")
        .inner_join("users_following uf", "uf.following_login = u.login")
        .where_clause("uf.user_login = $1")
        .order_by("u.id asc")
        .limit("1");

    let select_previous = select_base.clone().select("'previous' as page").and(
        "u.id < $2 /* first_id */",
    );
    let select_next = select_base.clone().select("'next' as page").and(
        "u.id > $3 /* last_id */",
    );
    let query = select_previous.union(select_next).as_string();
    let mut params: Vec<QueryParam> = Vec::new();
    params.push(QueryParam::Text(user_login.clone()));
    params.push(QueryParam::Int(*first_item_id));
    params.push(QueryParam::Int(*last_item_id));

    (query, params)
}

/// The probe base for a user's organizations: one row of the organizations
/// that user `$1` belongs to — the same membership join and parent scope as
/// the page itself.
pub open spec fn user_organizations_probe_base() -> StmtView {
    with_limit(
        with_order_by(
            with_where(
                with_join(
                    with_join(
                        with_from(empty_stmt(), "users u"@),
                        "users_organizations uo"@,
                        "uo.user_login = u.login"@,
                    ),
                    "organizations o"@,
                    "o.login = uo.organization_login"@,
                ),
                "u.login = $1"@,
            ),
            "o.id asc"@,
        ),
        "1"@,
    )
}

/// Plans the boundary probe around a fetched page of a user's
/// organizations.
pub fn query_organizations_pages_previous_and_next(
    owner_login: &String,
    first_item_id: &i32,
    last_item_id: &i32,
) -> (plan: (String, Vec<QueryParam>))
    ensures
        plan.0@ == spec_render(
            probe_pair(
                user_organizations_probe_base(),
                "o.id < $2 /* first_id */"@,
                "o.id > $3 /* last_id */"@,
            ),
            spec_formatters(false),
        ),
        plan.1@ == probe_params(*owner_login, *first_item_id, *last_item_id),
{
    let select_base = SelectBuilder::new()
        .from("users u")
        .inner_join("users_organizations uo", "uo.user_login = u.login")
        .inner_join("organizations o", "o.login = uo.organization_login")
        .where_clause("u.login = $1")
        .order_by("o.id asc")
        .limit("1");

    let select_previous = select_base.clone().select("'previous' as page").and(
        "o.id < $2 /* first_id */",
    );
    let select_next = select_base.clone().select("'next' as page").and(
        "o.id > $3 /* last_id */",
    );
    let query = select_previous.union(select_next).as_string();
    let mut params: Vec<QueryParam> = Vec::new();
    params.push(QueryParam::Text(owner_login.clone()));
    params.push(QueryParam::Int(*first_item_id));
    params.push(QueryParam::Int(*last_item_id));

    (query, params)
}

/// The probe base for an organization's members: one row of the users
/// joined through the membership table of organization `$1`.
pub open spec fn people_probe_base() -> StmtView {
    with_limit(
        with_order_by(
            with_where(
                with_join(
                    with_join(
                        with_from(empty_stmt(), "organizations o"@),
                        "users_organizations uo"@,
                        "uo.organization_login = o.login"@,
                    ),
                    "users u"@,
                    "u.login = uo.user_login"@,
                ),
                "o.login = $1"@,
            ),
            "u.id ASC"@,
        ),
        "1"@,
    )
}

/// Plans the boundary probe around a fetched page of an organization's
/// members.
pub fn query_pages_previous_and_next(
    owner_login: &String,
    first_item_id: &i32,
    last_item_id: &i32,
) -> (plan: (String, Vec<QueryParam>))
    ensures
        plan.0@ == spec_render(
            probe_pair(people_probe_base(), "u.id < $2 /* first_id */"@, "u.id > $3 /* last_id */"@),
            spec_formatters(false),
        ),
        plan.1@ == probe_params(*owner_login, *first_item_id, *last_item_id),
{
    let select_base = SelectBuilder::new()
        .from("organizations o")
        .inner_join("users_organizations uo", "uo.organization_login = o.login")
        .inner_join("users u", "u.login = uo.user_login")
        .where_clause("o.login = $1")
        .order_by("u.id ASC")
        .limit("1");

    let select_previous = select_base.clone().select("'previous' as page").and(
        "u.id < $2 /* first_id */",
    );
    let select_next = select_base.clone().select("'next' as page").and(
        "u.id > $3 /* last_id */",
    );
    let query = select_previous.union(select_next).as_string();
    let mut params: Vec<QueryParam> = Vec::new();
    params.push(QueryParam::Text(owner_login.clone()));
    params.push(QueryParam::Int(*first_item_id));
    params.push(QueryParam::Int(*last_item_id));

    (query, params)
}

/// The probe base for starred repositories: one row of the repositories
/// that user `$1` has starred.
pub open spec fn starred_repositories_probe_base() -> StmtView {
    with_limit(
        with_order_by(
            with_where(
                with_join(
                    with_join(
                        with_from(empty_stmt(), "users u"@),
                        "users_starred_repositories usr"@,
                        "usr.user_login = u.login"@,
                    ),
                    "repositories r"@,
                    "r.name = usr.repository_name"@,
                ),
                "u.login = $1"@,
            ),
            "r.id asc"@,
        ),
        "1"@,
    )
}

/// Plans the boundary probe around a fetched page of starred repositories;
/// the bounds compare on the repository id, the sort key of that page.
pub fn query_starred_repositories_pages_previous_and_next(
    user_login: &String,
    first_item_id: &i32,
    last_item_id: &i32,
) -> (plan: (String, Vec<QueryParam>))
    ensures
        plan.0@ == spec_render(
            probe_pair(
                starred_repositories_probe_base(),
                "r.id < $2 /* first_id */"@,
                "r.id > $3 /* last_id */"@,
            ),
            spec_formatters(false),
        ),
        plan.1@ == probe_params(*user_login, *first_item_id, *last_item_id),
{
    let select_base = SelectBuilder::new()
        .from("users u")
        .inner_join("users_starred_repositories usr", "usr.user_login = u.login")
        .inner_join("repositories r", "r.name = usr.repository_name")
        .where_clause("u.login = $1")
        .order_by("r.id asc")
        .limit("1");

    let select_previous = select_base.clone().select("'previous' as page").and(
        "r.id < $2 /* first_id */",
    );
    let select_next = select_base.clone().select("'next' as page").and(
        "r.id > $3 /* last_id */",
    );
    let query = select_previous.union(select_next).as_string();
    let mut params: Vec<QueryParam> = Vec::new();
    params.push(QueryParam::Text(user_login.clone()));
    params.push(QueryParam::Int(*first_item_id));
    params.push(QueryParam::Int(*last_item_id));

    (query, params)
}

/// Folds the rows of a boundary probe into the two existence flags: a row
/// tagged `previous` means a row exists before the page, one tagged `next`
/// means a row exists after it.
pub fn page_flags_from_tags(pages: &Vec<String>) -> (flags: (bool, bool))
    ensures
        flags.0 == exists|i: int|
            0 <= i < pages@.len() && (#[trigger] pages@[i])@ == "previous"@,
        flags.1 == exists|i: int| 0 <= i < pages@.len() && (#[trigger] pages@[i])@ == "next"@,
{
    let previous_tag = "previous".to_owned();
    let next_tag = "next".to_owned();
    let mut has_previous_page = false;
    let mut has_next_page = false;
    let mut i: usize = 0;
    while i < pages.len()
        invariant
            0 <= i <= pages@.len(),
            has_previous_page == exists|j: int|
                0 <= j < i && (#[trigger] pages@[j])@ == "previous"@,
            has_next_page == exists|j: int| 0 <= j < i && (#[trigger] pages@[j])@ == "next"@,
            previous_tag@ == "previous"@,
            next_tag@ == "next"@,
        decreases pages@.len() - i,
    {
        let page = &pages[i];
        if page.eq(&previous_tag) {
            has_previous_page = true;
        }
        if page.eq(&next_tag) {
            has_next_page = true;
        }
        i = i + 1;
    }
    (has_previous_page, has_next_page)
}

} // verus!
