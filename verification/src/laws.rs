//! The cache's consistency laws, stated over the materialization transition
//! that `WGPUAttributes::update_f32` is specified by.

use vstd::prelude::*;
use crate::attribute::packed_bytes;
use crate::wgpu_attributes::materialize_step;

verus! {

/// Law: materialization is idempotent. With the same pool contents, two
/// requests in succession for the same identifier end in the state the first
/// one reached; the second request allocates nothing.
pub proof fn lemma_materialize_idempotent(cache: Map<u64, Seq<u8>>, pool: Map<u64, Seq<u32>>, id: u64)
    ensures
        materialize_step(materialize_step(cache, pool, id), pool, id) == materialize_step(
            cache,
            pool,
            id,
        ),
{
}

/// Law: a materialized entry is stable. Once the cache holds an entry for an
/// identifier, a request for it changes nothing, whatever the pool holds by
/// then — in particular, later mutation of the CPU-side data is not picked
/// up, and the original handle and bytes stay.
pub proof fn lemma_materialized_is_stable(cache: Map<u64, Seq<u8>>, pool: Map<u64, Seq<u32>>, id: u64)
    requires
        cache.contains_key(id),
    ensures
        materialize_step(cache, pool, id) == cache,
{
}

/// Law: misses are tolerated. A request for an identifier that neither the
/// cache nor the CPU-side pool knows is a no-op: no entry appears and no
/// error is raised.
pub proof fn lemma_materialize_miss(cache: Map<u64, Seq<u8>>, pool: Map<u64, Seq<u32>>, id: u64)
    requires
        !cache.contains_key(id),
        !pool.contains_key(id),
    ensures
        materialize_step(cache, pool, id) == cache,
{
}

/// The cache state after a whole sequence of materialization requests
/// against one pool, first request first.
pub open spec fn materialize_all(
    cache: Map<u64, Seq<u8>>,
    pool: Map<u64, Seq<u32>>,
    requests: Seq<u64>,
) -> Map<u64, Seq<u8>>
    decreases requests.len(),
{
    if requests.len() == 0 {
        cache
    } else {
        materialize_all(materialize_step(cache, pool, requests[0]), pool, requests.drop_first())
    }
}

/// Law: at most one entry per identifier. After any sequence of requests an
/// identifier has an entry exactly when it started with one or was both
/// requested and present in the pool, and that entry's bytes are the one
/// value fixed at its first materialization — never a second, competing one.
pub proof fn lemma_at_most_one(
    cache: Map<u64, Seq<u8>>,
    pool: Map<u64, Seq<u32>>,
    requests: Seq<u64>,
    id: u64,
)
    ensures
        materialize_all(cache, pool, requests).contains_key(id) <==> (cache.contains_key(id) || (
        requests.contains(id) && pool.contains_key(id))),
        materialize_all(cache, pool, requests).contains_key(id) ==> materialize_all(
            cache,
            pool,
            requests,
        )[id] == (if cache.contains_key(id) {
            cache[id]
        } else {
            packed_bytes(pool[id])
        }),
    decreases requests.len(),
{
    if requests.len() > 0 {
        lemma_at_most_one(materialize_step(cache, pool, requests[0]), pool, requests.drop_first(), id);
        assert(requests.contains(id) <==> (requests[0] == id || requests.drop_first().contains(id)))
            by {
            if requests.contains(id) {
                let j = choose|j: int| 0 <= j < requests.len() && requests[j] == id;
                if j > 0 {
                    assert(requests.drop_first()[j - 1] == id);
                }
            }
            if requests.drop_first().contains(id) {
                let j = choose|j: int|
                    0 <= j < requests.drop_first().len() && requests.drop_first()[j] == id;
                assert(requests[j + 1] == id);
            }
        }
    }
}

} // verus!
