//! Range boundaries of a scan, and how a listing prefix turns into them.
use vstd::prelude::*;

verus! {

/// A scan endpoint given relative to a key rather than as a literal key.
#[derive(Debug)]
pub enum KeySelector {
    /// The first key at or after the given one.
    GreaterOrEqual(Vec<u8>),
    /// The first key strictly after the given one.
    GreaterThan(Vec<u8>),
    /// The last key at or before the given one.
    LessOrEqual(Vec<u8>),
    /// The last key strictly before the given one.
    LessThan(Vec<u8>),
}

/// Strict lexicographic order on byte strings: the store's key order.
pub open spec fn key_lt(a: Seq<u8>, b: Seq<u8>) -> bool
    decreases a.len(),
{
    if b.len() == 0 {
        false
    } else if a.len() == 0 {
        true
    } else if a[0] != b[0] {
        a[0] < b[0]
    } else {
        key_lt(a.skip(1), b.skip(1))
    }
}

pub open spec fn key_le(a: Seq<u8>, b: Seq<u8>) -> bool {
    a == b || key_lt(a, b)
}

/// The smallest possible key: the empty one.
pub open spec fn space_min() -> Seq<u8> {
    Seq::empty()
}

/// A key beyond every stored key: the single byte 0xFF.
pub open spec fn space_max() -> Seq<u8> {
    seq![0xFFu8]
}

/// Whether key `k` lies on the admitted side of boundary `sel`.
pub open spec fn admits(sel: KeySelector, k: Seq<u8>) -> bool {
    match sel {
        KeySelector::GreaterOrEqual(x) => key_le(x@, k),
        KeySelector::GreaterThan(x) => key_lt(x@, k),
        KeySelector::LessOrEqual(x) => key_le(k, x@),
        KeySelector::LessThan(x) => key_lt(k, x@),
    }
}

/// The (lower, upper) boundaries of a listing, as key order and direction
/// decide them: the whole key space, narrowed on the scan's near side to the
/// keys past the prefix (after it going forward, before it in reverse).
pub open spec fn list_bounds(prefix: Option<Seq<u8>>, reverse: bool) -> (Seq<u8>, bool, Seq<u8>, bool) {
    match prefix {
        Some(p) => if reverse {
            (space_min(), true, p, false)
        } else {
            (p, false, space_max(), true)
        },
        None => (space_min(), true, space_max(), true),
    }
}

/// Whether `(lower, upper)` is the boundary pair described by `list_bounds`.
pub open spec fn is_list_range(
    lower: KeySelector,
    upper: KeySelector,
    prefix: Option<Seq<u8>>,
    reverse: bool,
) -> bool {
    let (lo, lo_incl, hi, hi_incl) = list_bounds(prefix, reverse);
    &&& (lower is GreaterOrEqual || lower is GreaterThan)
    &&& (lower is GreaterOrEqual) == lo_incl
    &&& (upper is LessOrEqual || upper is LessThan)
    &&& (upper is LessOrEqual) == hi_incl
    &&& selector_key(lower) == lo
    &&& selector_key(upper) == hi
}

/// The key that a boundary is given relative to.
pub open spec fn selector_key(sel: KeySelector) -> Seq<u8> {
    match sel {
        KeySelector::GreaterOrEqual(x) => x@,
        KeySelector::GreaterThan(x) => x@,
        KeySelector::LessOrEqual(x) => x@,
        KeySelector::LessThan(x) => x@,
    }
}

/// Builds the scan boundaries for a listing under `prefix`.
pub fn list_range(prefix: Option<&Vec<u8>>, reverse: bool) -> (r: (KeySelector, KeySelector))
    ensures
        is_list_range(r.0, r.1, match prefix {
            Some(p) => Some(p@),
            None => None,
        }, reverse),
{
    let min: Vec<u8> = Vec::new();
    let max: Vec<u8> = vec![0xFFu8];
    assert(max@ =~= space_max());
    assert(min@ =~= space_min());
    match prefix {
        Some(p) => if reverse {
            (KeySelector::GreaterOrEqual(min), KeySelector::LessThan(p.clone()))
        } else {
            (KeySelector::GreaterThan(p.clone()), KeySelector::LessOrEqual(max))
        },
        None => (KeySelector::GreaterOrEqual(min), KeySelector::LessOrEqual(max)),
    }
}

} // verus!
