//! The write path: optimistic-concurrency checks against the value read in
//! the same transaction, and the new envelope to store.
use vstd::prelude::*;
use crate::envelope::{decode, decode_spec, encode, envelope_bytes, Item};
use crate::error::{AppError, ConflictReason};
use crate::params::{i64_arg, i64_param, lookup, opt_view, param_value, Param, QueryPair};

verus! {

/// Query parameters of a `POST`. `if_exists` and `not_exists` count by
/// presence alone.
#[derive(Debug)]
pub struct WriteParams {
    pub if_exists: Option<Vec<u8>>,
    pub not_exists: Option<Vec<u8>>,
    pub version: Option<i64>,
}

impl WriteParams {
    /// Reads the parameters from decoded query pairs; a present `version`
    /// that is not a decimal `i64` is a validation error.
    pub fn from_query(pairs: &Vec<QueryPair>) -> (r: Result<WriteParams, AppError>)
        ensures
            match i64_param(param_value(pairs@, Param::Version)) {
                Ok(v) => r matches Ok(p) && p.version == v && opt_view(p.if_exists) == param_value(
                    pairs@,
                    Param::IfExists,
                ) && opt_view(p.not_exists) == param_value(pairs@, Param::NotExists),
                Err(e) => r == Err::<WriteParams, AppError>(e),
            },
    {
        match i64_arg(pairs, Param::Version) {
            Ok(version) => Ok(
                WriteParams {
                    if_exists: lookup(pairs, Param::IfExists),
                    not_exists: lookup(pairs, Param::NotExists),
                    version,
                },
            ),
            Err(e) => Err(e),
        }
    }
}

/// The outcome of a write, given what the store holds under the key: the
/// bytes to store, or why nothing is stored.
pub open spec fn write_outcome(
    stored: Option<Seq<u8>>,
    if_exists: bool,
    not_exists: bool,
    version: Option<i64>,
    now: i64,
    body: Seq<u8>,
) -> Result<Seq<u8>, AppError> {
    match stored {
        Some(b) => match decode_spec(b) {
            None => Err(AppError::InternalError),
            Some((current, _)) => if not_exists {
                Err(AppError::Conflict(ConflictReason::KeyExists))
            } else if version is Some && version->0 != current {
                Err(AppError::Conflict(ConflictReason::VersionMismatch))
            } else {
                Ok(envelope_bytes(now, body))
            },
        },
        None => if version is Some || if_exists {
            Err(AppError::Conflict(ConflictReason::KeyMissing))
        } else {
            Ok(envelope_bytes(now, body))
        },
    }
}

/// Decides a write of `body` under a key that holds `stored` (`None` when it
/// holds nothing), at wall-clock time `now` in nanoseconds. On success returns
/// the bytes to store: a fresh envelope whose version is `now`.
pub fn write_key(stored: Option<&Vec<u8>>, params: &WriteParams, now: i64, body: Vec<u8>) -> (r:
    Result<Vec<u8>, AppError>)
    ensures
        match r {
            Ok(b) => write_outcome(
                match stored {
                    Some(s) => Some(s@),
                    None => None,
                },
                params.if_exists is Some,
                params.not_exists is Some,
                params.version,
                now,
                body@,
            ) == Ok::<Seq<u8>, AppError>(b@),
            Err(e) => write_outcome(
                match stored {
                    Some(s) => Some(s@),
                    None => None,
                },
                params.if_exists is Some,
                params.not_exists is Some,
                params.version,
                now,
                body@,
            ) == Err::<Seq<u8>, AppError>(e),
        },
{
    match stored {
        Some(b) => match decode(b.as_slice()) {
            None => {
                return Err(AppError::InternalError);
            },
            Some(current) => {
                if params.not_exists.is_some() {
                    return Err(AppError::Conflict(ConflictReason::KeyExists));
                }
                match params.version {
                    Some(v) => if v != current.version {
                        return Err(AppError::Conflict(ConflictReason::VersionMismatch));
                    },
                    None => {},
                }
            },
        },
        None => {
            if params.version.is_some() || params.if_exists.is_some() {
                return Err(AppError::Conflict(ConflictReason::KeyMissing));
            }
        },
    }
    let item = Item { version: now, data: body };
    Ok(encode(&item))
}

} // verus!
