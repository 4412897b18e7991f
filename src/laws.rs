//! How the paths compose over a store: the store as a map from key to stored
//! bytes, one request applied to it at a time.
use vstd::prelude::*;
use crate::envelope::{decode_spec, lemma_decode_encode};
use crate::error::{AppError, ConflictReason};
use crate::get::read_outcome;
use crate::post::write_outcome;
use crate::range::{admits, key_lt, KeySelector};

verus! {

/// The contents of the key space.
pub type Store = Map<Seq<u8>, Seq<u8>>;

/// What the store holds under `k`.
pub open spec fn stored_at(store: Store, k: Seq<u8>) -> Option<Seq<u8>> {
    if store.contains_key(k) {
        Some(store[k])
    } else {
        None
    }
}

/// Every stored value is an envelope.
pub open spec fn store_valid(store: Store) -> bool {
    forall|k: Seq<u8>| store.contains_key(k) ==> (#[trigger] decode_spec(store[k])) is Some
}

/// The version of the envelope stored under `k`.
pub open spec fn stored_version(store: Store, k: Seq<u8>) -> i64 {
    let (v, _) = decode_spec(store[k])->0;
    v
}

/// A `POST` of `body` under `k`: its result and the store afterwards. The
/// read, the checks and the write run in one transaction.
pub open spec fn post_effect(
    store: Store,
    k: Seq<u8>,
    if_exists: bool,
    not_exists: bool,
    version: Option<i64>,
    now: i64,
    body: Seq<u8>,
) -> (Result<(), AppError>, Store) {
    match write_outcome(stored_at(store, k), if_exists, not_exists, version, now, body) {
        Ok(bytes) => (Ok(()), store.insert(k, bytes)),
        Err(e) => (Err(e), store),
    }
}

/// A `GET` of `k`: the version and the (sliced) payload, or the failure.
pub open spec fn get_effect(store: Store, k: Seq<u8>, start: Option<usize>, end: Option<usize>) -> Result<
    (i64, Seq<u8>),
    AppError,
> {
    read_outcome(stored_at(store, k), start, end)
}

/// A key that was never written is not found.
pub proof fn lemma_unwritten_key_not_found(
    store: Store,
    k: Seq<u8>,
    start: Option<usize>,
    end: Option<usize>,
)
    requires
        !store.contains_key(k),
    ensures
        get_effect(store, k, start, end) == Err::<(i64, Seq<u8>), AppError>(AppError::NotFound),
{
}

/// An unconditional write succeeds, and reading the key back gives the
/// written payload under the version assigned at write time.
pub proof fn lemma_write_then_read(store: Store, k: Seq<u8>, body: Seq<u8>, now: i64)
    requires
        store_valid(store),
    ensures
        ({
            let (res, after) = post_effect(store, k, false, false, None, now, body);
            &&& res is Ok
            &&& get_effect(after, k, None, None) == Ok::<(i64, Seq<u8>), AppError>((now, body))
        }),
{
    lemma_decode_encode(now, body);
    assert(body.subrange(0, body.len() as int) =~= body);
}

/// A create-only write on a key that exists is a conflict and leaves the
/// store unchanged.
pub proof fn lemma_create_only_on_existing(
    store: Store,
    k: Seq<u8>,
    if_exists: bool,
    version: Option<i64>,
    now: i64,
    body: Seq<u8>,
)
    requires
        store_valid(store),
        store.contains_key(k),
    ensures
        post_effect(store, k, if_exists, true, version, now, body) == (
        Err::<(), AppError>(AppError::Conflict(ConflictReason::KeyExists)),
        store,
        ),
{
    assert(decode_spec(store[k]) is Some);
}

/// An update-only write on a missing key is a conflict and does not create it.
pub proof fn lemma_update_only_on_missing(
    store: Store,
    k: Seq<u8>,
    not_exists: bool,
    version: Option<i64>,
    now: i64,
    body: Seq<u8>,
)
    requires
        !store.contains_key(k),
    ensures
        post_effect(store, k, true, not_exists, version, now, body) == (
        Err::<(), AppError>(AppError::Conflict(ConflictReason::KeyMissing)),
        store,
        ),
        !post_effect(store, k, true, not_exists, version, now, body).1.contains_key(k),
{
}

/// A version-checked write against a different stored version is a conflict
/// and leaves the store unchanged.
pub proof fn lemma_version_mismatch(
    store: Store,
    k: Seq<u8>,
    if_exists: bool,
    v: i64,
    now: i64,
    body: Seq<u8>,
)
    requires
        store_valid(store),
        store.contains_key(k),
        stored_version(store, k) != v,
    ensures
        post_effect(store, k, if_exists, false, Some(v), now, body) == (
        Err::<(), AppError>(AppError::Conflict(ConflictReason::VersionMismatch)),
        store,
        ),
{
    assert(decode_spec(store[k]) is Some);
}

/// A version-checked write against the stored version succeeds, and the key
/// then carries the new version, which differs from the one checked whenever
/// the clock has moved since.
pub proof fn lemma_version_match(
    store: Store,
    k: Seq<u8>,
    if_exists: bool,
    v: i64,
    now: i64,
    body: Seq<u8>,
)
    requires
        store_valid(store),
        store.contains_key(k),
        stored_version(store, k) == v,
        now != v,
    ensures
        ({
            let (res, after) = post_effect(store, k, if_exists, false, Some(v), now, body);
            &&& res is Ok
            &&& get_effect(after, k, None, None) == Ok::<(i64, Seq<u8>), AppError>((now, body))
            &&& now != v
        }),
{
    assert(decode_spec(store[k]) is Some);
    lemma_decode_encode(now, body);
    assert(body.subrange(0, body.len() as int) =~= body);
}

proof fn lemma_key_lt_extension(p: Seq<u8>, s: Seq<u8>)
    requires
        s.len() > 0,
    ensures
        key_lt(p, p + s),
    decreases p.len(),
{
    if p.len() > 0 {
        assert((p + s).skip(1) =~= p.skip(1) + s);
        lemma_key_lt_extension(p.skip(1), s);
    }
}

proof fn lemma_key_lt_irreflexive(p: Seq<u8>)
    ensures
        !key_lt(p, p),
    decreases p.len(),
{
    if p.len() > 0 {
        lemma_key_lt_irreflexive(p.skip(1));
    }
}

/// A forward listing under prefix `p` starts past `p` itself but admits every
/// key that extends `p`.
pub proof fn lemma_forward_lower_bound(p: Vec<u8>, s: Seq<u8>)
    requires
        s.len() > 0,
    ensures
        admits(KeySelector::GreaterThan(p), p@ + s),
        !admits(KeySelector::GreaterThan(p), p@),
{
    lemma_key_lt_extension(p@, s);
    lemma_key_lt_irreflexive(p@);
}

} // verus!
