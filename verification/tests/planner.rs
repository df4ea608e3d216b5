use cursor_pagination::cursor_connection::{reference_to_cursor, Direction};
use cursor_pagination::planner::{
    page_flags_from_tags, parse_cursor, query_find_followed_by_login,
    query_find_followers_by_login, query_find_organization_by_login,
    query_find_organizations_by_user_login, query_find_people_by_login,
    query_find_starred_repositories_by_user_login, query_find_user_by_login,
    query_followed_pages_previous_and_next, query_followers_pages_previous_and_next,
    query_organizations_pages_previous_and_next, query_pages_previous_and_next,
    query_starred_repositories_pages_previous_and_next, QueryParam,
};

#[test]
fn should_parse_cursor_to_id() {
    let cursor = Some("MTIzNDU=".to_string());
    let id = parse_cursor(cursor);
    let expected_id = 12345;

    assert_eq!(id, Some(expected_id));
}

#[test]
fn should_return_none_when_cursor_is_none() {
    let cursor = None;
    let id = parse_cursor(cursor);

    assert_eq!(id, None);
}

#[test]
fn should_return_none_when_cursor_is_not_a_valid_cursor() {
    let cursor = Some("invalid_cursor".to_string());
    let id = parse_cursor(cursor);

    assert_eq!(id, None);
}

#[test]
fn should_return_none_when_cursor_is_not_a_valid_id() {
    let cursor = Some(base64::encode("invalid_id"));
    let id = parse_cursor(cursor);

    assert_eq!(id, None);
}

#[test]
fn parse_cursor_decodes_an_encoded_key() {
    let cursor = reference_to_cursor("5".to_string());
    assert_eq!(cursor, "NQ==");
    assert_eq!(parse_cursor(Some(cursor)), Some(5));
    assert_eq!(parse_cursor(Some("MTIzNA==".to_string())), Some(1234));
}

#[test]
fn parse_cursor_is_lenient() {
    assert_eq!(parse_cursor(None), None);
    assert_eq!(parse_cursor(Some("not base64 !!!".to_string())), None);
    // "YWJj" decodes to "abc", which is not a key.
    assert_eq!(parse_cursor(Some("YWJj".to_string())), None);
    // "OTk5OTk5OTk5OTk5" decodes to "999999999999", which does not fit.
    assert_eq!(parse_cursor(Some("OTk5OTk5OTk5OTk5".to_string())), None);
}

#[test]
fn followers_query_forward_without_boundary() {
    let login = "foo".to_string();
    let (query, params) =
        query_find_followers_by_login(&login, &None, &Direction::Forward, &15);
    assert_eq!(
        query,
        "SELECT u.* FROM users u \
         INNER JOIN users_following uf ON (uf.user_login = u.login) \
         WHERE uf.following_login = $1 ORDER BY u.id asc LIMIT $2"
    );
    assert_eq!(
        params,
        vec![QueryParam::Text("foo".to_string()), QueryParam::BigInt(15)]
    );
}

#[test]
fn followers_query_forward_with_boundary() {
    let login = "foo".to_string();
    let (query, params) =
        query_find_followers_by_login(&login, &Some(7), &Direction::Forward, &2);
    assert_eq!(
        query,
        "SELECT u.* FROM users u \
         INNER JOIN users_following uf ON (uf.user_login = u.login) \
         WHERE uf.following_login = $1 AND u.id > $3 ORDER BY u.id asc LIMIT $2"
    );
    assert_eq!(
        params,
        vec![
            QueryParam::Text("foo".to_string()),
            QueryParam::BigInt(2),
            QueryParam::Int(7)
        ]
    );
}

#[test]
fn followers_query_backward_re_reverses_through_ctes() {
    let login = "foo".to_string();
    let (query, params) =
        query_find_followers_by_login(&login, &None, &Direction::Backward, &2);
    assert_eq!(
        query,
        "WITH followers AS ( \
         SELECT u.* FROM users u \
         INNER JOIN users_following uf ON (uf.user_login = u.login) \
         WHERE uf.following_login = $1 ORDER BY u.id asc ),\
         followers_reverse AS ( \
         SELECT * FROM followers ORDER BY id desc LIMIT $2 ) \
         SELECT * FROM followers_reverse ORDER BY id asc"
    );
    assert_eq!(
        params,
        vec![QueryParam::Text("foo".to_string()), QueryParam::BigInt(2)]
    );
}

#[test]
fn followers_query_backward_with_boundary() {
    let login = "foo".to_string();
    let (query, params) =
        query_find_followers_by_login(&login, &Some(9), &Direction::Backward, &3);
    assert_eq!(
        query,
        "WITH followers AS ( \
         SELECT u.* FROM users u \
         INNER JOIN users_following uf ON (uf.user_login = u.login) \
         WHERE uf.following_login = $1 ORDER BY u.id asc ),\
         followers_reverse AS ( \
         SELECT * FROM followers WHERE id < $3::int ORDER BY id desc LIMIT $2 ) \
         SELECT * FROM followers_reverse ORDER BY id asc"
    );
    assert_eq!(
        params,
        vec![
            QueryParam::Text("foo".to_string()),
            QueryParam::BigInt(3),
            QueryParam::Int(9)
        ]
    );
}

#[test]
fn followed_query_forward_with_boundary() {
    let login = "foo".to_string();
    let (query, params) =
        query_find_followed_by_login(&login, &Some(4), &Direction::Forward, &10);
    assert_eq!(
        query,
        "SELECT u.* FROM users u \
         INNER JOIN users_following uf ON (uf.following_login = u.login) \
         WHERE uf.user_login = $1 AND u.id > $3 ORDER BY u.id asc LIMIT $2"
    );
    assert_eq!(
        params,
        vec![
            QueryParam::Text("foo".to_string()),
            QueryParam::BigInt(10),
            QueryParam::Int(4)
        ]
    );
}

#[test]
fn organizations_query_backward_without_boundary() {
    let login = "foo".to_string();
    let (query, params) =
        query_find_organizations_by_user_login(&login, &None, &Direction::Backward, &6);
    assert_eq!(
        query,
        "WITH orgs AS ( \
         SELECT o.*, uo.created_at as joined_at FROM users u \
         INNER JOIN users_organizations uo ON (uo.user_login = u.login) \
         INNER JOIN organizations o ON (o.login = uo.organization_login) \
         WHERE u.login = $1 ORDER BY o.id asc ),\
         orgs_reverse AS ( \
         SELECT * FROM orgs ORDER BY id desc LIMIT $2 ) \
         SELECT * FROM orgs_reverse ORDER BY id asc"
    );
    assert_eq!(
        params,
        vec![QueryParam::Text("foo".to_string()), QueryParam::BigInt(6)]
    );
}

#[test]
fn starred_repositories_query_forward_without_boundary() {
    let login = "foo".to_string();
    let (query, params) =
        query_find_starred_repositories_by_user_login(&login, &None, &Direction::Forward, &15);
    assert_eq!(
        query,
        "SELECT r.* FROM users u \
         INNER JOIN users_starred_repositories usr ON (usr.user_login = u.login) \
         INNER JOIN repositories r ON (r.name = usr.repository_name) \
         WHERE u.login = $1 ORDER BY r.id asc LIMIT $2"
    );
    assert_eq!(
        params,
        vec![QueryParam::Text("foo".to_string()), QueryParam::BigInt(15)]
    );
}

#[test]
fn people_query_forward_with_boundary() {
    let login = "acme".to_string();
    let (query, params) = query_find_people_by_login(&login, &Some(3), &Direction::Forward, &5);
    assert_eq!(
        query,
        "SELECT u.*, uo.created_at as joined_at FROM organizations org \
         INNER JOIN users_organizations uo ON (uo.organization_login = org.login) \
         INNER JOIN users u ON (u.login = uo.user_login) \
         WHERE org.login = $1 AND u.id > $3 ORDER BY u.id asc LIMIT $2"
    );
    assert_eq!(
        params,
        vec![
            QueryParam::Text("acme".to_string()),
            QueryParam::BigInt(5),
            QueryParam::Int(3)
        ]
    );
}

#[test]
fn single_row_lookups() {
    let login = "foo".to_string();
    let (user_query, user_params) = query_find_user_by_login(&login);
    assert_eq!(user_query, "SELECT * FROM users WHERE login = $1");
    assert_eq!(user_params, vec![QueryParam::Text("foo".to_string())]);

    let (org_query, org_params) = query_find_organization_by_login(&login);
    assert_eq!(org_query, "SELECT * FROM organizations WHERE login = $1");
    assert_eq!(org_params, vec![QueryParam::Text("foo".to_string())]);
}

#[test]
fn followers_probe_unions_a_previous_and_a_next_branch() {
    let login = "foo".to_string();
    let (query, params) = query_followers_pages_previous_and_next(&login, &3, &4);
    assert_eq!(
        query,
        "( SELECT 'previous' as page FROM users u \
         INNER JOIN users_following uf ON (uf.user_login = u.login) \
         WHERE uf.following_login = $1 AND u.id < $2 /* first_id */ \
         ORDER BY u.id asc LIMIT 1 ) \
         UNION \
         ( SELECT 'next' as page FROM users u \
         INNER JOIN users_following uf ON (uf.user_login = u.login) \
         WHERE uf.following_login = $1 AND u.id > $3 /* last_id */ \
         ORDER BY u.id asc LIMIT 1 )"
    );
    assert_eq!(
        params,
        vec![
            QueryParam::Text("foo".to_string()),
            QueryParam::Int(3),
            QueryParam::Int(4)
        ]
    );
}

#[test]
fn followed_probe_swaps_the_join_sides() {
    let login = "foo".to_string();
    let (query, _params) = query_followed_pages_previous_and_next(&login, &1, &9);
    assert_eq!(
        query,
        "( SELECT 'previous' as page FROM users u \
         INNER JOIN users_following uf ON (uf.following_login = u.login) \
         WHERE uf.user_login = $1 AND u.id < $2 /* first_id */ \
         ORDER BY u.id asc LIMIT 1 ) \
         UNION \
         ( SELECT 'next' as page FROM users u \
         INNER JOIN users_following uf ON (uf.following_login = u.login) \
         WHERE uf.user_login = $1 AND u.id > $3 /* last_id */ \
         ORDER BY u.id asc LIMIT 1 )"
    );
}

#[test]
fn organizations_probe_bounds_on_the_organization_id() {
    // The organizations page is keyed by the organization id, so its probe
    // scopes by the same membership join and bounds on that same key.
    let login = "foo".to_string();
    let (query, _params) = query_organizations_pages_previous_and_next(&login, &2, &8);
    assert_eq!(
        query,
        "( SELECT 'previous' as page FROM users u \
         INNER JOIN users_organizations uo ON (uo.user_login = u.login) \
         INNER JOIN organizations o ON (o.login = uo.organization_login) \
         WHERE u.login = $1 AND o.id < $2 /* first_id */ \
         ORDER BY o.id asc LIMIT 1 ) \
         UNION \
         ( SELECT 'next' as page FROM users u \
         INNER JOIN users_organizations uo ON (uo.user_login = u.login) \
         INNER JOIN organizations o ON (o.login = uo.organization_login) \
         WHERE u.login = $1 AND o.id > $3 /* last_id */ \
         ORDER BY o.id asc LIMIT 1 )"
    );
}

#[test]
fn people_probe_scopes_by_the_organization() {
    let login = "acme".to_string();
    let (query, params) = query_pages_previous_and_next(&login, &5, &6);
    assert_eq!(
        query,
        "( SELECT 'previous' as page FROM organizations o \
         INNER JOIN users_organizations uo ON (uo.organization_login = o.login) \
         INNER JOIN users u ON (u.login = uo.user_login) \
         WHERE o.login = $1 AND u.id < $2 /* first_id */ \
         ORDER BY u.id ASC LIMIT 1 ) \
         UNION \
         ( SELECT 'next' as page FROM organizations o \
         INNER JOIN users_organizations uo ON (uo.organization_login = o.login) \
         INNER JOIN users u ON (u.login = uo.user_login) \
         WHERE o.login = $1 AND u.id > $3 /* last_id */ \
         ORDER BY u.id ASC LIMIT 1 )"
    );
    assert_eq!(
        params,
        vec![
            QueryParam::Text("acme".to_string()),
            QueryParam::Int(5),
            QueryParam::Int(6)
        ]
    );
}

#[test]
fn starred_repositories_probe_bounds_on_the_repository_id() {
    let login = "foo".to_string();
    let (query, params) = query_starred_repositories_pages_previous_and_next(&login, &3, &9);
    assert_eq!(
        query,
        "( SELECT 'previous' as page FROM users u \
         INNER JOIN users_starred_repositories usr ON (usr.user_login = u.login) \
         INNER JOIN repositories r ON (r.name = usr.repository_name) \
         WHERE u.login = $1 AND r.id < $2 /* first_id */ \
         ORDER BY r.id asc LIMIT 1 ) \
         UNION \
         ( SELECT 'next' as page FROM users u \
         INNER JOIN users_starred_repositories usr ON (usr.user_login = u.login) \
         INNER JOIN repositories r ON (r.name = usr.repository_name) \
         WHERE u.login = $1 AND r.id > $3 /* last_id */ \
         ORDER BY r.id asc LIMIT 1 )"
    );
    assert_eq!(
        params,
        vec![
            QueryParam::Text("foo".to_string()),
            QueryParam::Int(3),
            QueryParam::Int(9)
        ]
    );
}

#[test]
fn page_flags_fold_the_probe_rows() {
    assert_eq!(page_flags_from_tags(&vec![]), (false, false));
    assert_eq!(page_flags_from_tags(&vec!["previous".to_string()]), (true, false));
    assert_eq!(page_flags_from_tags(&vec!["next".to_string()]), (false, true));
    assert_eq!(
        page_flags_from_tags(&vec!["previous".to_string(), "next".to_string()]),
        (true, true)
    );
    assert_eq!(page_flags_from_tags(&vec!["other".to_string()]), (false, false));
}
