use cursor_pagination::document_plan::{
    facet_counts_to_flags, paginate_stages, pipeline_pages_previous_and_next,
    pipeline_paginated_followers, pipeline_paginated_organization, to_operator, to_order,
    PipelineStage,
};
use cursor_pagination::cursor_connection::Direction;
use cursor_pagination::http_handler::HttpError;
use cursor_pagination::model::{
    organizations_to_cursor_connection, users_to_cursor_connection, Organization, ProfileType,
    User,
};

fn user(id: i32, login: &str) -> User {
    User {
        avatar_url: format!("https://example.org/{login}.jpg"),
        bio: None,
        email: format!("{login}@example.org"),
        id,
        login: login.to_string(),
        name: None,
        url: format!("https://example.org/{login}"),
        website_url: None,
        profile_type: ProfileType::User,
    }
}

fn organization(id: i32, login: &str) -> Organization {
    Organization {
        avatar_url: format!("https://example.org/{login}.jpg"),
        description: None,
        id,
        location: None,
        login: login.to_string(),
        name: None,
        url: format!("https://example.org/{login}"),
        website_url: None,
        profile_type: ProfileType::Organization,
    }
}

#[test]
fn users_connection_encodes_each_id_as_a_cursor() {
    let users = vec![user(1, "foo"), user(2, "bar")];
    let connection = users_to_cursor_connection(users, false, true);

    assert_eq!(connection.edges.len(), 2);
    // base64 of "1" and "2".
    assert_eq!(connection.edges[0].cursor, "MQ==");
    assert_eq!(connection.edges[1].cursor, "Mg==");
    assert_eq!(connection.edges[0].node.login, "foo");
    assert_eq!(connection.edges[1].node.login, "bar");
    assert_eq!(connection.page_info.has_previous_page, false);
    assert_eq!(connection.page_info.has_next_page, true);
    assert_eq!(connection.page_info.start_cursor, Some("MQ==".to_string()));
    assert_eq!(connection.page_info.end_cursor, Some("Mg==".to_string()));
}

#[test]
fn empty_connection_has_no_cursors_and_no_edges() {
    let connection = organizations_to_cursor_connection(vec![], false, false);
    assert_eq!(connection.page_info.start_cursor, None);
    assert_eq!(connection.page_info.end_cursor, None);
    assert_eq!(connection.edges.len(), 0);
}

#[test]
fn organizations_connection_passes_the_flags_through() {
    let organizations = vec![organization(7, "acme")];
    let connection = organizations_to_cursor_connection(organizations, true, false);
    assert_eq!(connection.page_info.has_previous_page, true);
    assert_eq!(connection.page_info.has_next_page, false);
    // base64 of "7".
    assert_eq!(connection.page_info.start_cursor, Some("Nw==".to_string()));
    assert_eq!(connection.page_info.end_cursor, Some("Nw==".to_string()));
}

#[test]
fn order_and_operator_follow_the_direction() {
    assert_eq!(to_order(&Direction::Forward), 1);
    assert_eq!(to_order(&Direction::Backward), -1);
    assert_eq!(to_operator(&Direction::Forward), "$gt");
    assert_eq!(to_operator(&Direction::Backward), "$lt");
}

#[test]
fn stage_plan_with_a_boundary_matches_then_limits_then_re_sorts() {
    let stages = paginate_stages(&Direction::Backward, 3, Some("1af0".to_string()), "_id");
    assert_eq!(
        stages,
        vec![
            PipelineStage::SortById { order: -1 },
            PipelineStage::MatchBoundary {
                field: "_id".to_string(),
                direction: Direction::Backward,
                id: "1af0".to_string(),
            },
            PipelineStage::Limit { count: 3 },
            PipelineStage::SortById { order: 1 },
        ]
    );
}

#[test]
fn stage_plan_without_a_boundary_has_no_match_stage() {
    let stages = paginate_stages(&Direction::Forward, 15, None, "_id");
    assert_eq!(
        stages,
        vec![
            PipelineStage::SortById { order: 1 },
            PipelineStage::Limit { count: 15 },
            PipelineStage::SortById { order: 1 },
        ]
    );
}

#[test]
fn followers_pipeline_scopes_flattens_windows_and_joins_back() {
    let stages = pipeline_paginated_followers(
        "foo".to_string(),
        &Direction::Forward,
        2,
        Some("1af0".to_string()),
    );
    assert_eq!(
        stages,
        vec![
            PipelineStage::MatchLogin { login: "foo".to_string() },
            PipelineStage::Unwind { field: "followers".to_string() },
            PipelineStage::ProjectIdFrom { field: "followers".to_string() },
            PipelineStage::SortById { order: 1 },
            PipelineStage::MatchBoundary {
                field: "_id".to_string(),
                direction: Direction::Forward,
                id: "1af0".to_string(),
            },
            PipelineStage::Limit { count: 2 },
            PipelineStage::SortById { order: 1 },
            PipelineStage::Lookup {
                from: "users".to_string(),
                local_field: "_id".to_string(),
                foreign_field: "_id".to_string(),
                alias: "item".to_string(),
            },
            PipelineStage::ReplaceRootFirstOf { alias: "item".to_string() },
        ]
    );
}

#[test]
fn organizations_pipeline_joins_before_the_window_and_projects_after() {
    let stages = pipeline_paginated_organization(
        "foo".to_string(),
        &Direction::Backward,
        15,
        None,
    );
    assert_eq!(
        stages,
        vec![
            PipelineStage::MatchLogin { login: "foo".to_string() },
            PipelineStage::Lookup {
                from: "organizations".to_string(),
                local_field: "organizations._id".to_string(),
                foreign_field: "_id".to_string(),
                alias: "organizations".to_string(),
            },
            PipelineStage::Unwind { field: "organizations".to_string() },
            PipelineStage::SortById { order: -1 },
            PipelineStage::Limit { count: 15 },
            PipelineStage::SortById { order: 1 },
            PipelineStage::ReplaceRootField { field: "organizations".to_string() },
            PipelineStage::ProjectFields {
                fields: vec![
                    "login".to_string(),
                    "name".to_string(),
                    "avatarUrl".to_string(),
                    "url".to_string(),
                ],
            },
        ]
    );
}

#[test]
fn facet_probe_branches_count_one_row_on_each_side() {
    let (previous, next) = pipeline_pages_previous_and_next(
        "foo".to_string(),
        "0a1b".to_string(),
        "0c2d".to_string(),
        "followers",
    );
    assert_eq!(
        previous,
        vec![
            PipelineStage::MatchLogin { login: "foo".to_string() },
            PipelineStage::Unwind { field: "followers".to_string() },
            PipelineStage::ReplaceRootField { field: "followers".to_string() },
            PipelineStage::MatchBoundary {
                field: "_id".to_string(),
                direction: Direction::Backward,
                id: "0a1b".to_string(),
            },
            PipelineStage::Limit { count: 1 },
            PipelineStage::CountTo { alias: "count".to_string() },
        ]
    );
    assert_eq!(
        next,
        vec![
            PipelineStage::MatchLogin { login: "foo".to_string() },
            PipelineStage::Unwind { field: "followers".to_string() },
            PipelineStage::ReplaceRootField { field: "followers".to_string() },
            PipelineStage::MatchBoundary {
                field: "_id".to_string(),
                direction: Direction::Forward,
                id: "0c2d".to_string(),
            },
            PipelineStage::Limit { count: 1 },
            PipelineStage::CountTo { alias: "count".to_string() },
        ]
    );
}

#[test]
fn facet_counts_become_existence_flags() {
    assert_eq!(facet_counts_to_flags(0, 0), (false, false));
    assert_eq!(facet_counts_to_flags(1, 0), (true, false));
    assert_eq!(facet_counts_to_flags(0, 5), (false, true));
    assert_eq!(facet_counts_to_flags(2, 3), (true, true));
}

#[test]
fn http_error_keeps_its_message() {
    let error = HttpError::new("Internal Server Error".to_string());
    assert_eq!(error.message, "Internal Server Error");
}
