//! The semantics of a keyset page over an ordered data set.
//!
//! The planner builds query text; this module states what such a query
//! returns when the store runs it over a parent-scoped, ascending list of
//! sort keys: the window of at most `limit` keys beyond the boundary, and
//! the two boundary-existence flags around a fetched page.  It is both the
//! reference model of the planned queries and a pure executable form of the
//! boundary prober's contract.

use crate::cursor_connection::Direction;
use vstd::prelude::*;

verus! {

/// The keys are strictly ascending, as a unique sort key over the
/// parent-scoped set is.
pub open spec fn sorted_strict(keys: Seq<i64>) -> bool {
    forall|i: int, j: int| 0 <= i < j < keys.len() ==> keys[i] < keys[j]
}

/// A key lies on the requested side of the boundary: beyond it going
/// forward, before it going backward, anywhere when there is no boundary.
pub open spec fn admits(key: i64, direction: Direction, boundary: Option<i64>) -> bool {
    match boundary {
        None => true,
        Some(bound) => match direction {
            Direction::Forward => key > bound,
            Direction::Backward => key < bound,
        },
    }
}

/// The keys on the requested side of the boundary, in their original order.
pub open spec fn admitted_keys(keys: Seq<i64>, direction: Direction, boundary: Option<i64>) -> Seq<
    i64,
>
    decreases keys.len(),
{
    if keys.len() == 0 {
        Seq::empty()
    } else {
        let rest = admitted_keys(keys.drop_last(), direction, boundary);
        if admits(keys.last(), direction, boundary) {
            rest.push(keys.last())
        } else {
            rest
        }
    }
}

/// The page a keyset query returns over ascending keys: going forward, the
/// first `limit` keys beyond the boundary; going backward, the last `limit`
/// keys before it — still in ascending order, thanks to the re-reverse step
/// of the backward plan.
pub open spec fn spec_page(
    keys: Seq<i64>,
    direction: Direction,
    limit: int,
    boundary: Option<i64>,
) -> Seq<i64> {
    let admitted = admitted_keys(keys, direction, boundary);
    match direction {
        Direction::Forward => {
            if admitted.len() <= limit {
                admitted
            } else {
                admitted.subrange(0, limit)
            }
        },
        Direction::Backward => {
            if admitted.len() <= limit {
                admitted
            } else {
                admitted.subrange(admitted.len() - limit, admitted.len() as int)
            }
        },
    }
}

proof fn lemma_admitted_keys_properties(keys: Seq<i64>, direction: Direction, boundary: Option<
    i64,
>)
    requires
        sorted_strict(keys),
    ensures
        sorted_strict(admitted_keys(keys, direction, boundary)),
        forall|i: int|
            0 <= i < admitted_keys(keys, direction, boundary).len() ==> admits(
                #[trigger] admitted_keys(keys, direction, boundary)[i],
                direction,
                boundary,
            ),
        forall|i: int|
            0 <= i < admitted_keys(keys, direction, boundary).len() ==> keys.contains(
                #[trigger] admitted_keys(keys, direction, boundary)[i],
            ),
        keys.len() > 0 ==> forall|i: int|
            0 <= i < admitted_keys(keys, direction, boundary).len()
                ==> #[trigger] admitted_keys(keys, direction, boundary)[i] <= keys.last(),
    decreases keys.len(),
{
    if keys.len() > 0 {
        let shorter = keys.drop_last();
        assert(sorted_strict(shorter));
        lemma_admitted_keys_properties(shorter, direction, boundary);
        let rest = admitted_keys(shorter, direction, boundary);
        assert(shorter.len() > 0 ==> shorter.last() < keys.last());
        assert(forall|i: int|
            0 <= i < rest.len() ==> #[trigger] rest[i] < keys.last()) by {
            if shorter.len() > 0 {
                assert(forall|i: int| 0 <= i < rest.len() ==> #[trigger] rest[i] <= shorter.last());
            }
        }
        assert(forall|i: int|
            0 <= i < shorter.len() ==> keys.contains(#[trigger] shorter[i])) by {
            assert(forall|i: int| 0 <= i < shorter.len() ==> shorter[i] == keys[i]);
        }
        assert(keys.contains(keys.last())) by {
            assert(keys[keys.len() - 1] == keys.last());
        }
    }
}

/// The page a keyset query returns is well formed: never longer than the
/// limit, every key taken from the data set and on the requested side of the
/// boundary, and — the point of the backward plan's re-reverse step — always
/// in ascending order, whichever direction it was read in.
pub proof fn lemma_page_well_formed(
    keys: Seq<i64>,
    direction: Direction,
    limit: int,
    boundary: Option<i64>,
)
    requires
        sorted_strict(keys),
        limit >= 0,
    ensures
        spec_page(keys, direction, limit, boundary).len() <= limit,
        sorted_strict(spec_page(keys, direction, limit, boundary)),
        forall|i: int|
            0 <= i < spec_page(keys, direction, limit, boundary).len() ==> admits(
                #[trigger] spec_page(keys, direction, limit, boundary)[i],
                direction,
                boundary,
            ),
        forall|i: int|
            0 <= i < spec_page(keys, direction, limit, boundary).len() ==> keys.contains(
                #[trigger] spec_page(keys, direction, limit, boundary)[i],
            ),
{
    lemma_admitted_keys_properties(keys, direction, boundary);
    let admitted = admitted_keys(keys, direction, boundary);
    let page = spec_page(keys, direction, limit, boundary);
    assert forall|i: int| 0 <= i < page.len() implies admits(
        #[trigger] page[i],
        direction,
        boundary,
    ) && keys.contains(page[i]) by {
        if admitted.len() <= limit {
            assert(page[i] == admitted[i]);
        } else {
            match direction {
                Direction::Forward => {
                    assert(page[i] == admitted[i]);
                },
                Direction::Backward => {
                    assert(page[i] == admitted[i + admitted.len() - limit]);
                },
            }
        }
    }
    assert forall|i: int, j: int| 0 <= i < j < page.len() implies #[trigger] page[i]
        < #[trigger] page[j] by {
        if admitted.len() <= limit {
            assert(page[i] == admitted[i] && page[j] == admitted[j]);
        } else {
            match direction {
                Direction::Forward => {
                    assert(page[i] == admitted[i] && page[j] == admitted[j]);
                },
                Direction::Backward => {
                    let off = admitted.len() - limit;
                    assert(page[i] == admitted[i + off] && page[j] == admitted[j + off]);
                },
            }
        }
    }
}

/// Selects the page of at most `limit` keys beyond `boundary` from the
/// ascending key list, returned in ascending order; the executable form of
/// the query the planner builds.
pub fn select_page(
    keys: &Vec<i64>,
    direction: &Direction,
    limit: usize,
    boundary: Option<i64>,
) -> (page: Vec<i64>)
    ensures
        page@ == spec_page(keys@, *direction, limit as int, boundary),
{
    let mut admitted: Vec<i64> = Vec::new();
    let mut i: usize = 0;
    while i < keys.len()
        invariant
            0 <= i <= keys@.len(),
            admitted@ == admitted_keys(keys@.subrange(0, i as int), *direction, boundary),
        decreases keys@.len() - i,
    {
        let key = keys[i];
        let keep = match boundary {
            None => true,
            Some(bound) => match direction {
                Direction::Forward => key > bound,
                Direction::Backward => key < bound,
            },
        };
        proof {
            assert(keys@.subrange(0, i + 1).drop_last() =~= keys@.subrange(0, i as int));
            assert(keys@.subrange(0, i + 1).last() == keys@[i as int]);
        }
        if keep {
            admitted.push(key);
        }
        i = i + 1;
    }
    proof {
        assert(keys@.subrange(0, keys@.len() as int) =~= keys@);
    }

    match direction {
        Direction::Forward => {
            if admitted.len() > limit {
                admitted.truncate(limit);
                proof {
                    assert(admitted@ =~= admitted_keys(keys@, *direction, boundary).subrange(
                        0,
                        limit as int,
                    ));
                }
            }
            admitted
        },
        Direction::Backward => {
            if admitted.len() > limit {
                let n = admitted.len();
                let start = n - limit;
                let mut page: Vec<i64> = Vec::new();
                let mut j: usize = 0;
                while j < limit
                    invariant
                        0 <= j <= limit,
                        n == admitted@.len(),
                        start == n - limit,
                        limit < n,
                        page@ =~= admitted@.subrange(start as int, start + j),
                    decreases limit - j,
                {
                    page.push(admitted[start + j]);
                    proof {
                        assert(page@ =~= admitted@.subrange(start as int, start + j + 1));
                    }
                    j = j + 1;
                }
                page
            } else {
                admitted
            }
        },
    }
}

/// Determines, independently of the page's own limit, whether a row exists
/// before the first fetched key and whether one exists after the last
/// fetched key, under the same parent scope the key list was taken from.
pub fn probe_boundaries(keys: &Vec<i64>, first_key: i64, last_key: i64) -> (flags: (bool, bool))
    ensures
        flags.0 == exists|i: int| 0 <= i < keys@.len() && #[trigger] keys@[i] < first_key,
        flags.1 == exists|i: int| 0 <= i < keys@.len() && #[trigger] keys@[i] > last_key,
{
    let mut has_previous_page = false;
    let mut has_next_page = false;
    let mut i: usize = 0;
    while i < keys.len()
        invariant
            0 <= i <= keys@.len(),
            has_previous_page == exists|j: int| 0 <= j < i && #[trigger] keys@[j] < first_key,
            has_next_page == exists|j: int| 0 <= j < i && #[trigger] keys@[j] > last_key,
        decreases keys@.len() - i,
    {
        if keys[i] < first_key {
            has_previous_page = true;
        }
        if keys[i] > last_key {
            has_next_page = true;
        }
        i = i + 1;
    }
    (has_previous_page, has_next_page)
}

} // verus!
