use cursor_pagination::sql_query_builder::SelectBuilder;

#[test]
fn testing_select_from_people() {
    let query = SelectBuilder::new()
        .select("*")
        .from("people")
        .inner_join("users_organizations uo", "uo.organization_login = o.login")
        .inner_join("users u", "u.login = uo.user_login")
        .where_clause("login < $2")
        .and("id > $id")
        .order_by("joined_at asc")
        .limit("3")
        .as_string();

    let expected_query = "\
    SELECT * \
    FROM people \
    INNER JOIN users_organizations uo ON (uo.organization_login = o.login) \
    INNER JOIN users u ON (u.login = uo.user_login) \
    WHERE login < $2 AND id > $id \
    ORDER BY joined_at asc \
    LIMIT 3";

    assert_eq!(query, expected_query);
}

#[test]
fn testing_statement_with() {
    let query = SelectBuilder::new()
        .with(
            "people",
            SelectBuilder::new().select("*").from("users").where_clause("id = $1"),
        )
        .select("*")
        .from("people")
        .order_by("id DESC")
        .as_string();

    let expected_query = "\
    WITH people AS ( SELECT * FROM users WHERE id = $1 ) \
    SELECT * FROM people ORDER BY id DESC\
  ";

    assert_eq!(query, expected_query);
}

#[test]
fn where_predicates_accumulate_in_order_regardless_of_other_clauses() {
    let first = SelectBuilder::new()
        .select("*")
        .from("t")
        .where_clause("a=1")
        .and("b=2")
        .as_string();
    let second = SelectBuilder::new()
        .where_clause("a=1")
        .and("b=2")
        .select("*")
        .from("t")
        .as_string();
    let third = SelectBuilder::new()
        .where_clause("a=1")
        .select("*")
        .and("b=2")
        .from("t")
        .as_string();

    assert_eq!(first, "SELECT * FROM t WHERE a=1 AND b=2");
    assert_eq!(second, first);
    assert_eq!(third, first);
}

#[test]
fn rendering_the_same_statement_twice_is_byte_identical() {
    let statement = SelectBuilder::new()
        .with(
            "base",
            SelectBuilder::new().select("*").from("users").where_clause("id > $1"),
        )
        .select("*")
        .from("base")
        .order_by("id asc")
        .limit("7");

    let once = statement.as_string();
    let again = statement.as_string();
    assert_eq!(once, again);
    assert_eq!(once.as_bytes(), again.as_bytes());
}

#[test]
fn cloned_builder_renders_the_same_text_and_branches_independently() {
    let base = SelectBuilder::new()
        .from("users u")
        .where_clause("u.login = $1")
        .order_by("u.id asc")
        .limit("1");

    let copy = base.clone();
    assert_eq!(base.as_string(), copy.as_string());

    let previous = base.clone().select("'previous' as page").and("u.id < $2");
    let next = base.clone().select("'next' as page").and("u.id > $3");
    let probe = previous.union(next).as_string();

    assert_eq!(
        probe,
        "( SELECT 'previous' as page FROM users u WHERE u.login = $1 AND u.id < $2 ORDER BY u.id asc LIMIT 1 ) \
         UNION \
         ( SELECT 'next' as page FROM users u WHERE u.login = $1 AND u.id > $3 ORDER BY u.id asc LIMIT 1 )"
    );
}

#[test]
fn empty_builder_renders_to_an_empty_string() {
    assert_eq!(SelectBuilder::new().as_string(), "");
}

#[test]
fn multiple_order_by_columns_join_with_a_literal_and() {
    let query = SelectBuilder::new()
        .select("*")
        .from("t")
        .order_by("a asc")
        .order_by("b desc")
        .as_string();
    assert_eq!(query, "SELECT * FROM t ORDER BY a asc and b desc");
}

#[test]
fn pretty_rendering_only_changes_whitespace() {
    let statement = SelectBuilder::new().select("*").from("t").where_clause("a=1");
    let compact = statement.render(false);
    let pretty = statement.render(true);
    assert_eq!(compact, statement.as_string());
    assert_eq!(pretty, "SELECT *\nFROM t\nWHERE a=1");
    assert_eq!(pretty.replace('\n', " "), compact);
}
