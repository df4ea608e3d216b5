//! The entity models that pagination pages are made of, and the helpers
//! that wrap a fetched page of them into a cursor connection.

use crate::cursor_connection::{edge_cursor_ok, edges_of, spec_cursor, CursorConnection};
use crate::decimal::{dec_i32, i32_to_decimal};
use vstd::prelude::*;

verus! {

/// Whether a profile row is a user or an organization.
#[derive(Debug, PartialEq, Eq, Structural, Clone, Copy)]
pub enum ProfileType {
    User,
    Organization,
}

/// A user profile row; `id` is the unique sort key pagination runs on.
#[derive(Debug, PartialEq)]
pub struct User {
    pub avatar_url: String,
    pub bio: Option<String>,
    pub email: String,
    pub id: i32,
    pub login: String,
    pub name: Option<String>,
    pub url: String,
    pub website_url: Option<String>,
    pub profile_type: ProfileType,
}

/// An organization profile row; `id` is the unique sort key pagination runs
/// on.
#[derive(Debug, PartialEq)]
pub struct Organization {
    pub avatar_url: String,
    pub description: Option<String>,
    pub id: i32,
    pub location: Option<String>,
    pub login: String,
    pub name: Option<String>,
    pub url: String,
    pub website_url: Option<String>,
    pub profile_type: ProfileType,
}

/// A repository's primary language, as stored with the repository.
#[derive(Debug, PartialEq)]
pub struct Language {
    pub color: String,
    pub name: String,
}

/// A repository's license, as stored with the repository.
#[derive(Debug, PartialEq)]
pub struct License {
    pub name: String,
}

/// Holds of a connection built over items with an `i32` sort key `id`: edge
/// `i` carries item `i` with the cursor that encodes its key's decimal
/// text, the flags pass through, and the start and end cursors are those of
/// the first and last edge, absent on an empty page.
pub open spec fn id_keyed_connection_ok<T>(
    connection: CursorConnection<T>,
    items: Seq<T>,
    ids: Seq<int>,
    has_previous_page: bool,
    has_next_page: bool,
) -> bool {
    &&& connection.edges.len() == items.len()
    &&& forall|i: int| 0 <= i < items.len() ==> (#[trigger] connection.edges[i]).node == items[i]
    &&& forall|i: int|
        0 <= i < items.len() ==> (#[trigger] connection.edges[i]).cursor@ == spec_cursor(
            dec_i32(ids[i]),
        )
    &&& connection.page_info.has_previous_page == has_previous_page
    &&& connection.page_info.has_next_page == has_next_page
    &&& items.len() == 0 ==> connection.page_info.start_cursor is None
        && connection.page_info.end_cursor is None
    &&& items.len() > 0 ==> (connection.page_info.start_cursor matches Some(c) && c
        == connection.edges[0].cursor)
    &&& items.len() > 0 ==> (connection.page_info.end_cursor matches Some(c) && c
        == connection.edges[items.len() - 1].cursor)
}

/// Wraps a fetched, ascending page of users into a cursor connection; each
/// cursor encodes the user's id as decimal text.
pub fn users_to_cursor_connection(
    models_list: Vec<User>,
    has_previous_page: bool,
    has_next_page: bool,
) -> (connection: CursorConnection<User>)
    ensures
        id_keyed_connection_ok(
            connection,
            models_list@,
            models_list@.map_values(|item: User| item.id as int),
            has_previous_page,
            has_next_page,
        ),
{
    let ghost items = models_list@;
    let reference_from = |item: &User| -> (reference: String)
        ensures
            reference@ == dec_i32(item.id as int),
        { i32_to_decimal(item.id) };
    let connection = CursorConnection::new(
        models_list,
        has_previous_page,
        has_next_page,
        reference_from,
    );
    proof {
        assert forall|i: int| 0 <= i < items.len() implies (
        #[trigger] connection.edges@[i]).cursor@ == spec_cursor(dec_i32(items[i].id as int)) by {
            assert(edge_cursor_ok(reference_from, items[i], connection.edges@[i]));
        }
    }
    connection
}

/// Wraps a fetched, ascending page of organizations into a cursor
/// connection; each cursor encodes the organization's id as decimal text.
pub fn organizations_to_cursor_connection(
    models_list: Vec<Organization>,
    has_previous_page: bool,
    has_next_page: bool,
) -> (connection: CursorConnection<Organization>)
    ensures
        id_keyed_connection_ok(
            connection,
            models_list@,
            models_list@.map_values(|item: Organization| item.id as int),
            has_previous_page,
            has_next_page,
        ),
{
    let ghost items = models_list@;
    let reference_from = |item: &Organization| -> (reference: String)
        ensures
            reference@ == dec_i32(item.id as int),
        { i32_to_decimal(item.id) };
    let connection = CursorConnection::new(
        models_list,
        has_previous_page,
        has_next_page,
        reference_from,
    );
    proof {
        assert forall|i: int| 0 <= i < items.len() implies (
        #[trigger] connection.edges@[i]).cursor@ == spec_cursor(dec_i32(items[i].id as int)) by {
            assert(edge_cursor_ok(reference_from, items[i], connection.edges@[i]));
        }
    }
    connection
}

} // verus!
