//! Properties of shortening and lookup taken together.
use vstd::prelude::*;

use crate::canonical::parsed_url;
use crate::command::stored_after_create;
use crate::error::AppError;
use crate::store::lookup_outcome;

verus! {

/// The mappings held after each `raws[i]` in turn is shortened to `ids[i]`,
/// starting from `store`.
pub open spec fn stored_after_creates(
    store: Map<Seq<char>, Seq<char>>,
    raws: Seq<Seq<char>>,
    ids: Seq<Seq<char>>,
) -> Map<Seq<char>, Seq<char>>
    decreases raws.len(),
{
    if raws.len() == 0 {
        store
    } else {
        stored_after_create(
            stored_after_creates(store, raws.drop_last(), ids.drop_last()),
            raws.last(),
            ids.last(),
        )
    }
}

/// How many of `raws` are valid absolute URLs, that is, how many shortenings
/// of them succeed on a store that does not fail.
pub open spec fn valid_count(raws: Seq<Seq<char>>) -> nat
    decreases raws.len(),
{
    if raws.len() == 0 {
        0
    } else {
        valid_count(raws.drop_last()) + if parsed_url(raws.last()) is Some {
            1nat
        } else {
            0nat
        }
    }
}

/// Round trip: after a valid URL is shortened to `id`, looking up `id` gives
/// the URL's canonical form.
pub proof fn lemma_round_trip(store: Map<Seq<char>, Seq<char>>, raw: Seq<char>, id: Seq<char>)
    requires
        parsed_url(raw) is Some,
    ensures
        lookup_outcome(stored_after_create(store, raw, id), id) == Ok::<Seq<char>, AppError>(
            parsed_url(raw)->0,
        ),
{
}

/// Two shortenings of one valid URL under distinct identifiers leave two
/// distinct identifiers, each mapped to the URL's canonical form.
pub proof fn lemma_distinct_ids(
    store: Map<Seq<char>, Seq<char>>,
    raw: Seq<char>,
    first: Seq<char>,
    second: Seq<char>,
)
    requires
        parsed_url(raw) is Some,
        first != second,
    ensures
        ({
            let m = stored_after_create(stored_after_create(store, raw, first), raw, second);
            &&& lookup_outcome(m, first) == Ok::<Seq<char>, AppError>(parsed_url(raw)->0)
            &&& lookup_outcome(m, second) == Ok::<Seq<char>, AppError>(parsed_url(raw)->0)
        }),
{
}

/// Starting from an empty store, an identifier that no shortening produced is
/// not found.
pub proof fn lemma_unknown_id_not_found(
    raws: Seq<Seq<char>>,
    ids: Seq<Seq<char>>,
    id: Seq<char>,
)
    requires
        raws.len() == ids.len(),
        !ids.contains(id),
    ensures
        lookup_outcome(stored_after_creates(Map::empty(), raws, ids), id) == Err::<
            Seq<char>,
            AppError,
        >(AppError::NotFoundError),
    decreases raws.len(),
{
    if raws.len() > 0 {
        assert(!ids.drop_last().contains(id)) by {
            if ids.drop_last().contains(id) {
                let k = choose|k: int| 0 <= k < ids.drop_last().len() && ids.drop_last()[k] == id;
                assert(ids[k] == id);
            }
        }
        assert(ids.last() != id) by {
            assert(ids[ids.len() - 1] == ids.last());
        }
        lemma_unknown_id_not_found(raws.drop_last(), ids.drop_last(), id);
    }
}

/// Starting from an empty store, shortenings under pairwise distinct
/// identifiers leave as many mappings as shortenings that succeeded.
pub proof fn lemma_store_size(raws: Seq<Seq<char>>, ids: Seq<Seq<char>>)
    requires
        raws.len() == ids.len(),
        forall|i: int, j: int| 0 <= i < ids.len() && 0 <= j < ids.len() && i != j ==> ids[i] != ids[j],
    ensures
        stored_after_creates(Map::empty(), raws, ids).dom().finite(),
        stored_after_creates(Map::empty(), raws, ids).len() == valid_count(raws),
    decreases raws.len(),
{
    if raws.len() > 0 {
        let prev_ids = ids.drop_last();
        assert forall|i: int, j: int|
            0 <= i < prev_ids.len() && 0 <= j < prev_ids.len() && i != j implies prev_ids[i]
            != prev_ids[j] by {
            assert(prev_ids[i] == ids[i] && prev_ids[j] == ids[j]);
        }
        lemma_store_size(raws.drop_last(), prev_ids);
        assert(!prev_ids.contains(ids.last())) by {
            if prev_ids.contains(ids.last()) {
                let k = choose|k: int| 0 <= k < prev_ids.len() && prev_ids[k] == ids.last();
                assert(ids[k] == ids[ids.len() - 1]);
            }
        }
        lemma_unknown_id_not_found(raws.drop_last(), prev_ids, ids.last());
    }
}

} // verus!
