//! The cursor codec and the pagination argument resolver.

use crate::codec::{b64_decode_str, b64_encode_bytes, b64_of, utf8_decode};
use vstd::prelude::*;
use vstd::utf8::{encode_utf8, encode_utf8_decode_utf8, encode_utf8_valid_utf8};

verus! {

/// Direction in which a page of results is read from the ordered data set.
///
/// `Forward` reads ascending from just after a boundary; `Backward` reads
/// descending from just before a boundary and is re-ordered ascending before
/// being returned to the caller.
#[derive(Debug, PartialEq, Eq, Structural, Clone, Copy)]
pub enum Direction {
    Forward,
    Backward,
}

/// How a failed request is classified: a cursor whose base64 text is
/// malformed, a cursor whose decoded bytes are not UTF-8, or a contradictory
/// combination of pagination arguments.
#[derive(Debug, PartialEq, Eq, Structural, Clone, Copy)]
pub enum Error {
    DecodeError,
    Utf8Error,
    InvalidPaginationArguments,
}

/// The opaque cursor text that stands for a given item reference: the base64
/// encoding of the reference's UTF-8 bytes.
pub open spec fn spec_cursor(reference: Seq<char>) -> Seq<char> {
    b64_of(encode_utf8(reference))
}

/// Encodes an item reference as an opaque cursor; total, never fails.
pub fn reference_to_cursor(reference: String) -> (cursor: String)
    ensures
        cursor@ == spec_cursor(reference@),
{
    b64_encode_bytes(reference.as_str().as_bytes())
}

/// Decodes an opaque cursor back to the item reference it encodes.
///
/// Every string produced by `reference_to_cursor` decodes successfully, and
/// decoding is the inverse of encoding: `cursor_to_reference` of
/// `spec_cursor(r)` yields `r`.  A failure is always recoverable and is one
/// of the two decode conditions — malformed base64 or bytes that are not
/// UTF-8 — never anything else.
pub fn cursor_to_reference(cursor: String) -> (result: Result<String, Error>)
    ensures
        result matches Ok(reference) ==> forall|r: Seq<char>|
            cursor@ == spec_cursor(r) ==> reference@ == r,
        (exists|r: Seq<char>| cursor@ == spec_cursor(r)) ==> result is Ok,
        result is Err ==> forall|r: Seq<char>| cursor@ != spec_cursor(r),
        result matches Err(e) ==> e == Error::DecodeError || e == Error::Utf8Error,
{
    broadcast use encode_utf8_valid_utf8, encode_utf8_decode_utf8;

    match b64_decode_str(cursor.as_str()) {
        None => Err(Error::DecodeError),
        Some(bytes) => match utf8_decode(bytes.as_slice()) {
            None => Err(Error::Utf8Error),
            Some(reference) => Ok(reference),
        },
    }
}

/// The page size used when the client asks for neither `first` nor `last`.
pub const DEFAULT_LIMIT: u32 = 15;

/// Raw client pagination arguments, before validation.
///
/// `first`/`after` drive forward pagination, `last`/`before` backward
/// pagination; `first` together with `last`, or `after` together with
/// `before`, is contradictory and rejected.
#[derive(Debug)]
pub struct PaginationArguments {
    pub first: Option<u32>,
    pub after: Option<String>,
    pub last: Option<u32>,
    pub before: Option<String>,
}

/// The canonical form of a set of pagination arguments: a direction, a page
/// limit, and an optional (still encoded) boundary cursor — or the rejection
/// of a contradictory combination.  The rules, in priority order: no
/// arguments at all keep the defaults; `first`+`last` and `after`+`before`
/// are invalid; a present `first` decides forward with `after` as the
/// boundary; otherwise a present `last` decides backward with `before` as
/// the boundary; a lone `after` or `before` decides the direction with the
/// default limit.
pub open spec fn spec_resolved(args: PaginationArguments) -> Result<
    (Direction, u32, Option<String>),
    Error,
> {
    if args.first is None && args.after is None && args.last is None && args.before is None {
        Ok((Direction::Forward, DEFAULT_LIMIT, None))
    } else if args.first is Some && args.last is Some {
        Err(Error::InvalidPaginationArguments)
    } else if args.after is Some && args.before is Some {
        Err(Error::InvalidPaginationArguments)
    } else if args.first is Some {
        Ok((Direction::Forward, args.first->0, args.after))
    } else if args.last is Some {
        Ok((Direction::Backward, args.last->0, args.before))
    } else if args.after is Some {
        Ok((Direction::Forward, DEFAULT_LIMIT, args.after))
    } else {
        Ok((Direction::Backward, DEFAULT_LIMIT, args.before))
    }
}

/// Resolution fails exactly on the two contradictory combinations — `first`
/// with `last`, or `after` with `before` — and the failure is always
/// `InvalidPaginationArguments`; every other combination of arguments
/// resolves.  These are the same combinations `is_valid` rejects.
pub proof fn lemma_resolution_fails_exactly_on_invalid_arguments(args: PaginationArguments)
    ensures
        spec_resolved(args) is Err <==> ((args.first is Some && args.last is Some) || (
        args.after is Some && args.before is Some)),
        spec_resolved(args) is Err ==> spec_resolved(args) == Err::<
            (Direction, u32, Option<String>),
            Error,
        >(Error::InvalidPaginationArguments),
{
}

impl PaginationArguments {
    /// A set of arguments is valid exactly when it does not combine
    /// `first` with `last`, nor `after` with `before`.
    pub fn is_valid(arg: &Self) -> (valid: bool)
        ensures
            valid == !((arg.first is Some && arg.last is Some) || (arg.after is Some
                && arg.before is Some)),
    {
        match &arg {
            Self { first: Some(_), last: Some(_), .. } => false,
            Self { after: Some(_), before: Some(_), .. } => false,
            _ => true,
        }
    }

    /// Resolves the raw arguments to `(direction, limit, boundary cursor)`,
    /// or fails on a contradictory combination; see `spec_resolved`.
    pub fn parse_args(self) -> (resolved: Result<(Direction, u32, Option<String>), Error>)
        ensures
            resolved == spec_resolved(self),
    {
        let default_limit = DEFAULT_LIMIT;

        match &self {
            Self { first: None, after: None, last: None, before: None } => Ok(
                (Direction::Forward, default_limit, None),
            ),
            Self { first: Some(_), last: Some(_), .. } => Err(Error::InvalidPaginationArguments),
            Self { after: Some(_), before: Some(_), .. } => Err(Error::InvalidPaginationArguments),
            Self { first: Some(limit), after: Some(cursor), .. } => Ok(
                (Direction::Forward, *limit, Some(cursor.clone())),
            ),
            Self { first: Some(limit), .. } => Ok((Direction::Forward, *limit, None)),
            Self { last: Some(limit), before: Some(cursor), .. } => Ok(
                (Direction::Backward, *limit, Some(cursor.clone())),
            ),
            Self { last: Some(limit), .. } => Ok((Direction::Backward, *limit, None)),
            Self { after: Some(cursor), .. } => Ok(
                (Direction::Forward, default_limit, Some(cursor.clone())),
            ),
            Self { before: Some(cursor), .. } => Ok(
                (Direction::Backward, default_limit, Some(cursor.clone())),
            ),
        }
    }
}

/// Normalizes a raw cursor argument as the query-string layer hands it
/// over: an empty or literal `null` value stands for an absent cursor.
pub fn normalize_optional_string(value: Option<String>) -> (normalized: Option<String>)
    ensures
        value is None ==> normalized is None,
        value matches Some(s) ==> normalized == (if s@ == Seq::<char>::empty() || s@ == "null"@ {
            None
        } else {
            Some(s)
        }),
{
    match value {
        None => None,
        Some(s) => {
            if s.as_str().is_empty() {
                proof {
                    assert(s@ =~= Seq::<char>::empty());
                }
                None
            } else {
                let null_text = "null".to_owned();
                if s.eq(&null_text) {
                    None
                } else {
                    proof {
                        assert(s@ != Seq::<char>::empty());
                    }
                    Some(s)
                }
            }
        },
    }
}

/// One item of a page together with the cursor that addresses it.
#[derive(Debug, PartialEq)]
pub struct Edges<T> {
    pub cursor: String,
    pub node: T,
}

/// Holds of one finished edge: its cursor encodes some reference that the
/// extractor can produce for the given item.
pub open spec fn edge_cursor_ok<T, F: Fn(&T) -> String>(
    reference_from: F,
    item: T,
    edge: Edges<T>,
) -> bool {
    exists|s: String|
        call_ensures(reference_from, (&item,), s) && edge.cursor@ == spec_cursor(s@)
}

/// Holds of a finished edge list: edge `i` carries item `i` of the original
/// list unchanged, and its cursor encodes some reference that the extractor
/// can produce for that item.
pub open spec fn edges_of<T, F: Fn(&T) -> String>(
    edges: Seq<Edges<T>>,
    items: Seq<T>,
    reference_from: F,
) -> bool {
    &&& edges.len() == items.len()
    &&& forall|i: int| 0 <= i < edges.len() ==> #[trigger] edges[i].node == items[i]
    &&& forall|i: int|
        0 <= i < edges.len() ==> #[trigger] edge_cursor_ok(reference_from, items[i], edges[i])
}

impl<T> Edges<T> {
    /// Pairs every item with its own cursor, in order.
    pub fn into_edges<F: Fn(&T) -> String>(items: Vec<T>, reference_from: &F) -> (edges: Vec<
        Edges<T>,
    >)
        requires
            forall|i: int| 0 <= i < items@.len() ==> call_requires(*reference_from, (&items@[i],)),
        ensures
            edges_of(edges@, items@, *reference_from),
    {
        let ghost orig = items@;
        let mut rest = items;
        let mut edges: Vec<Edges<T>> = Vec::new();

        while rest.len() > 0
            invariant
                forall|i: int| 0 <= i < orig.len() ==> call_requires(*reference_from, (&orig[i],)),
                edges@.len() + rest@.len() == orig.len(),
                rest@ == orig.subrange(edges@.len() as int, orig.len() as int),
                forall|i: int| 0 <= i < edges@.len() ==> #[trigger] edges@[i].node == orig[i],
                forall|i: int|
                    0 <= i < edges@.len() ==> #[trigger] edge_cursor_ok(
                        *reference_from,
                        orig[i],
                        edges@[i],
                    ),
            decreases rest@.len(),
        {
            let item = rest.remove(0);
            assert(item == orig[edges@.len() as int]);
            let reference = reference_from(&item);
            let ghost witness = reference;
            let cursor = reference_to_cursor(reference);
            edges.push(Edges { cursor, node: item });
            proof {
                let k = edges@.len() - 1;
                assert(call_ensures(*reference_from, (&orig[k],), witness) && edges@[k].cursor@
                    == spec_cursor(witness@));
                assert(edge_cursor_ok(*reference_from, orig[k], edges@[k]));
            }
        }
        edges
    }
}

/// Metadata about a page's position in the whole ordered result set.
#[derive(Debug, PartialEq)]
pub struct PageInfo {
    pub has_previous_page: bool,
    pub has_next_page: bool,
    pub start_cursor: Option<String>,
    pub end_cursor: Option<String>,
}

impl PageInfo {
    /// Builds the page metadata: the boundary-existence flags pass through
    /// unchanged, and the start and end cursors are the cursors of the first
    /// and last edge, absent when the page is empty.
    pub fn new<T>(edges: &Vec<Edges<T>>, has_previous_page: bool, has_next_page: bool) -> (info:
        PageInfo)
        ensures
            info.has_previous_page == has_previous_page,
            info.has_next_page == has_next_page,
            edges@.len() == 0 ==> info.start_cursor is None && info.end_cursor is None,
            edges@.len() > 0 ==> (info.start_cursor matches Some(c) && c == edges@[0].cursor),
            edges@.len() > 0 ==> (info.end_cursor matches Some(c) && c == edges@[edges@.len()
                - 1].cursor),
    {
        if edges.len() == 0 {
            return PageInfo {
                has_previous_page,
                has_next_page,
                start_cursor: None,
                end_cursor: None,
            };
        }

        let first = &edges[0];
        let last = &edges[edges.len() - 1];

        PageInfo {
            has_previous_page,
            has_next_page,
            start_cursor: Some(first.cursor.clone()),
            end_cursor: Some(last.cursor.clone()),
        }
    }
}

/// The pagination envelope handed back to the caller: the page metadata and
/// the ordered edge list.
#[derive(Debug, PartialEq)]
pub struct CursorConnection<T> {
    pub page_info: PageInfo,
    pub edges: Vec<Edges<T>>,
}

impl<T> CursorConnection<T> {
    /// Assembles the final envelope from the fetched, ascending-ordered item
    /// list, the two boundary-existence flags, and the per-entity reference
    /// extractor.  Pure: edge `i` is item `i` with its cursor, the flags pass
    /// through unchanged, and the start/end cursors are those of the first
    /// and last edge — both absent when the list is empty.
    pub fn new<F: Fn(&T) -> String>(
        items: Vec<T>,
        has_previous_page: bool,
        has_next_page: bool,
        reference_from: F,
    ) -> (connection: CursorConnection<T>)
        requires
            forall|i: int| 0 <= i < items@.len() ==> call_requires(reference_from, (&items@[i],)),
        ensures
            edges_of(connection.edges@, items@, reference_from),
            connection.page_info.has_previous_page == has_previous_page,
            connection.page_info.has_next_page == has_next_page,
            items@.len() == 0 ==> connection.page_info.start_cursor is None
                && connection.page_info.end_cursor is None,
            items@.len() > 0 ==> (connection.page_info.start_cursor matches Some(c) && c
                == connection.edges@[0].cursor),
            items@.len() > 0 ==> (connection.page_info.end_cursor matches Some(c) && c
                == connection.edges@[items@.len() - 1].cursor),
    {
        let edges = Edges::into_edges(items, &reference_from);
        let page_info = PageInfo::new(&edges, has_previous_page, has_next_page);
        CursorConnection { page_info, edges }
    }
}

} // verus!
