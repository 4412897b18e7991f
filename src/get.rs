//! The read path (single-key fetch with optional slicing) and the list path
//! (prefix scans rendered as a line-oriented listing).
use vstd::prelude::*;
use crate::envelope::{decode, decode_spec, Item};
use crate::error::AppError;
use crate::params::{lookup, opt_view, param_value, usize_arg, usize_param, Param, QueryPair};
use crate::range::{is_list_range, list_range, KeySelector};

verus! {

/// Query parameters of a `GET`. Flags hold the raw value; only whether it is
/// present matters, except for `list`, which must be present and empty.
#[derive(Debug)]
pub struct GetOrListParams {
    pub list: Option<Vec<u8>>,
    pub limit: Option<usize>,
    pub with_vals: Option<Vec<u8>>,
    pub reverse: Option<Vec<u8>>,
    pub start: Option<usize>,
    pub end: Option<usize>,
}

/// The parameters that `pairs` spell, or the validation failure.
pub open spec fn get_params_spec(pairs: Seq<QueryPair>, r: Result<GetOrListParams, AppError>) -> bool {
    let limit = usize_param(param_value(pairs, Param::Limit));
    let start = usize_param(param_value(pairs, Param::Start));
    let end = usize_param(param_value(pairs, Param::End));
    match r {
        Ok(p) => {
            &&& limit == Ok::<Option<usize>, AppError>(p.limit)
            &&& start == Ok::<Option<usize>, AppError>(p.start)
            &&& end == Ok::<Option<usize>, AppError>(p.end)
            &&& opt_view(p.list) == param_value(pairs, Param::List)
            &&& opt_view(p.with_vals) == param_value(pairs, Param::WithVals)
            &&& opt_view(p.reverse) == param_value(pairs, Param::Reverse)
        },
        Err(e) => {
            &&& e == AppError::ValidationError
            &&& (limit is Err || start is Err || end is Err)
        },
    }
}

impl GetOrListParams {
    /// Reads the parameters from decoded query pairs; a present `limit`,
    /// `start` or `end` that is not a decimal `usize` is a validation error.
    pub fn from_query(pairs: &Vec<QueryPair>) -> (r: Result<GetOrListParams, AppError>)
        ensures
            get_params_spec(pairs@, r),
    {
        let limit = usize_arg(pairs, Param::Limit);
        let start = usize_arg(pairs, Param::Start);
        let end = usize_arg(pairs, Param::End);
        match (limit, start, end) {
            (Ok(limit), Ok(start), Ok(end)) => Ok(
                GetOrListParams {
                    list: lookup(pairs, Param::List),
                    limit,
                    with_vals: lookup(pairs, Param::WithVals),
                    reverse: lookup(pairs, Param::Reverse),
                    start,
                    end,
                },
            ),
            _ => Err(AppError::ValidationError),
        }
    }
}

/// How a listing scan is to be run against the store.
#[derive(Debug)]
pub struct ListPlan {
    pub lower: KeySelector,
    pub upper: KeySelector,
    pub reverse: bool,
    pub limit: usize,
    pub with_vals: bool,
}

/// What a `GET` asks of the store.
#[derive(Debug)]
pub enum GetPlan {
    /// No key and no listing: answer the health check.
    Health,
    /// Fetch one key, then slice its payload.
    Fetch { key: Vec<u8>, start: Option<usize>, end: Option<usize> },
    /// Scan a range and render it as a listing.
    List(ListPlan),
}

/// The number of entries a listing returns when no `limit` is given.
pub const DEFAULT_LIMIT: usize = 100;

/// Whether the parameters switch the request to a prefix listing.
pub open spec fn is_listing(params: GetOrListParams) -> bool {
    params.list matches Some(l) && l@.len() == 0
}

/// Decides what a `GET` on `key_prefix` (absent for the root) does.
pub fn get_or_list_prefix(key_prefix: Option<Vec<u8>>, params: &GetOrListParams) -> (r: GetPlan)
    ensures
        is_listing(*params) ==> (r matches GetPlan::List(plan) && {
            &&& is_list_range(plan.lower, plan.upper, opt_view(key_prefix), params.reverse is Some)
            &&& plan.reverse == params.reverse is Some
            &&& plan.with_vals == params.with_vals is Some
            &&& plan.limit == match params.limit {
                Some(l) => l,
                None => DEFAULT_LIMIT,
            }
        }),
        !is_listing(*params) && key_prefix is Some ==> (r matches GetPlan::Fetch { key, start, end }
            && key@ == key_prefix->0@ && start == params.start && end == params.end),
        !is_listing(*params) && key_prefix is None ==> r is Health,
{
    let listing = match &params.list {
        Some(l) => l.len() == 0,
        None => false,
    };
    if listing {
        let reverse = params.reverse.is_some();
        let (lower, upper) = match &key_prefix {
            Some(p) => list_range(Some(p), reverse),
            None => list_range(None, reverse),
        };
        let limit = match params.limit {
            Some(l) => l,
            None => DEFAULT_LIMIT,
        };
        GetPlan::List(
            ListPlan { lower, upper, reverse, limit, with_vals: params.with_vals.is_some() },
        )
    } else {
        match key_prefix {
            Some(key) => GetPlan::Fetch { key, start: params.start, end: params.end },
            None => GetPlan::Health,
        }
    }
}

/// The `[start, end)` window of a payload of `len` bytes: bounds default to
/// `0` and `len`; an inverted or overlong window has none.
pub open spec fn slice_bounds(len: nat, start: Option<usize>, end: Option<usize>) -> Option<(int, int)> {
    let s = match start {
        Some(s) => s as int,
        None => 0,
    };
    let e = match end {
        Some(e) => e as int,
        None => len as int,
    };
    if s <= e && e <= len {
        Some((s, e))
    } else {
        None
    }
}

/// What a fetch answers, given what the store holds under the key.
pub open spec fn read_outcome(stored: Option<Seq<u8>>, start: Option<usize>, end: Option<usize>) -> Result<
    (i64, Seq<u8>),
    AppError,
> {
    match stored {
        None => Err(AppError::NotFound),
        Some(b) => match decode_spec(b) {
            None => Err(AppError::InternalError),
            Some((v, d)) => match slice_bounds(d.len(), start, end) {
                None => Err(AppError::ValidationError),
                Some((s, e)) => Ok((v, d.subrange(s, e))),
            },
        },
    }
}

/// Cuts `data[start..end]` out of a payload; an inverted window or one past
/// the end is a validation error rather than a crash.
pub fn slice_payload(data: &Vec<u8>, start: Option<usize>, end: Option<usize>) -> (r: Result<
    Vec<u8>,
    AppError,
>)
    ensures
        match slice_bounds(data@.len(), start, end) {
            Some((s, e)) => r matches Ok(v) && v@ == data@.subrange(s, e),
            None => r == Err::<Vec<u8>, AppError>(AppError::ValidationError),
        },
{
    let s = match start {
        Some(s) => s,
        None => 0,
    };
    let e = match end {
        Some(e) => e,
        None => data.len(),
    };
    if s > e || e > data.len() {
        return Err(AppError::ValidationError);
    }
    let mut out: Vec<u8> = Vec::new();
    let mut i: usize = s;
    while i < e
        invariant
            s <= i <= e <= data@.len(),
            out@ == data@.subrange(s as int, i as int),
        decreases e - i,
    {
        out.push(data[i]);
        i = i + 1;
        assert(out@ =~= data@.subrange(s as int, i as int));
    }
    Ok(out)
}

/// Answers a fetch from the bytes the store holds under the key (`None` when
/// it holds nothing): the stored version and the requested part of the payload.
pub fn get_item(stored: Option<&Vec<u8>>, start: Option<usize>, end: Option<usize>) -> (r: Result<
    Item,
    AppError,
>)
    ensures
        match r {
            Ok(item) => read_outcome(opt_ref_view(stored), start, end) == Ok::<
                (i64, Seq<u8>),
                AppError,
            >((item.version, item.data@)),
            Err(e) => read_outcome(opt_ref_view(stored), start, end) == Err::<
                (i64, Seq<u8>),
                AppError,
            >(e),
        },
{
    match stored {
        None => Err(AppError::NotFound),
        Some(b) => match decode(b.as_slice()) {
            None => Err(AppError::InternalError),
            Some(item) => {
                if start.is_none() && end.is_none() {
                    assert(item.data@.subrange(0, item.data@.len() as int) =~= item.data@);
                    return Ok(item);
                }
                match slice_payload(&item.data, start, end) {
                    Ok(body) => Ok(Item { version: item.version, data: body }),
                    Err(e) => Err(e),
                }
            },
        },
    }
}

/// The view of an optional borrowed byte string.
pub open spec fn opt_ref_view(o: Option<&Vec<u8>>) -> Option<Seq<u8>> {
    match o {
        Some(v) => Some(v@),
        None => None,
    }
}

} // verus!
