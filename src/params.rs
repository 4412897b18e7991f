//! Query parameters: lookup by name, integer parsing, and presence flags.
//!
//! A flag counts as set when its parameter is present, whatever its value:
//! `reverse=false` still reverses.
use vstd::prelude::*;
use vstd::slice::slice_subrange;
use crate::error::AppError;

verus! {

/// One `name=value` pair of a query string, already percent-decoded.
pub type QueryPair = (Vec<u8>, Vec<u8>);

/// The value of the last pair named `name` or `alias` among `pairs`.
pub open spec fn query_value(pairs: Seq<QueryPair>, name: Seq<u8>, alias: Seq<u8>) -> Option<
    Seq<u8>,
>
    decreases pairs.len(),
{
    if pairs.len() == 0 {
        None
    } else {
        let last = pairs.last();
        if last.0@ == name || last.0@ == alias {
            Some(last.1@)
        } else {
            query_value(pairs.drop_last(), name, alias)
        }
    }
}

/// The query parameters that the gateway reads.
#[derive(Clone, Copy, Debug, PartialEq, Eq, Structural)]
pub enum Param {
    /// `list`
    List,
    /// `limit`
    Limit,
    /// `with_vals`, also accepted as `vals`
    WithVals,
    /// `reverse`
    Reverse,
    /// `start`
    Start,
    /// `end`
    End,
    /// `if_exists`, also accepted as `ix`
    IfExists,
    /// `not_exists`, also accepted as `nx`
    NotExists,
    /// `version`, also accepted as `v`
    Version,
}

/// The name of a parameter.
pub open spec fn param_name(p: Param) -> Seq<u8> {
    match p {
        Param::List => seq![108u8, 105u8, 115u8, 116u8],
        Param::Limit => seq![108u8, 105u8, 109u8, 105u8, 116u8],
        Param::WithVals => seq![119u8, 105u8, 116u8, 104u8, 95u8, 118u8, 97u8, 108u8, 115u8],
        Param::Reverse => seq![114u8, 101u8, 118u8, 101u8, 114u8, 115u8, 101u8],
        Param::Start => seq![115u8, 116u8, 97u8, 114u8, 116u8],
        Param::End => seq![101u8, 110u8, 100u8],
        Param::IfExists => seq![105u8, 102u8, 95u8, 101u8, 120u8, 105u8, 115u8, 116u8, 115u8],
        Param::NotExists => seq![110u8, 111u8, 116u8, 95u8, 101u8, 120u8, 105u8, 115u8, 116u8, 115u8],
        Param::Version => seq![118u8, 101u8, 114u8, 115u8, 105u8, 111u8, 110u8],
    }
}

/// The alternative name of a parameter (its own name where it has none).
pub open spec fn param_alias(p: Param) -> Seq<u8> {
    match p {
        Param::List => seq![108u8, 105u8, 115u8, 116u8],
        Param::Limit => seq![108u8, 105u8, 109u8, 105u8, 116u8],
        Param::WithVals => seq![118u8, 97u8, 108u8, 115u8],
        Param::Reverse => seq![114u8, 101u8, 118u8, 101u8, 114u8, 115u8, 101u8],
        Param::Start => seq![115u8, 116u8, 97u8, 114u8, 116u8],
        Param::End => seq![101u8, 110u8, 100u8],
        Param::IfExists => seq![105u8, 120u8],
        Param::NotExists => seq![110u8, 120u8],
        Param::Version => seq![118u8],
    }
}

/// The name and the alternative name of a parameter, as bytes.
pub fn param_names(p: Param) -> (r: (Vec<u8>, Vec<u8>))
    ensures
        r.0@ == param_name(p),
        r.1@ == param_alias(p),
{
    let r = match p {
        Param::List => (vec![108u8, 105u8, 115u8, 116u8], vec![108u8, 105u8, 115u8, 116u8]),
        Param::Limit => (vec![108u8, 105u8, 109u8, 105u8, 116u8], vec![108u8, 105u8, 109u8, 105u8, 116u8]),
        Param::WithVals => (vec![119u8, 105u8, 116u8, 104u8, 95u8, 118u8, 97u8, 108u8, 115u8], vec![118u8, 97u8, 108u8, 115u8]),
        Param::Reverse => (vec![114u8, 101u8, 118u8, 101u8, 114u8, 115u8, 101u8], vec![114u8, 101u8, 118u8, 101u8, 114u8, 115u8, 101u8]),
        Param::Start => (vec![115u8, 116u8, 97u8, 114u8, 116u8], vec![115u8, 116u8, 97u8, 114u8, 116u8]),
        Param::End => (vec![101u8, 110u8, 100u8], vec![101u8, 110u8, 100u8]),
        Param::IfExists => (vec![105u8, 102u8, 95u8, 101u8, 120u8, 105u8, 115u8, 116u8, 115u8], vec![105u8, 120u8]),
        Param::NotExists => (vec![110u8, 111u8, 116u8, 95u8, 101u8, 120u8, 105u8, 115u8, 116u8, 115u8], vec![110u8, 120u8]),
        Param::Version => (vec![118u8, 101u8, 114u8, 115u8, 105u8, 111u8, 110u8], vec![118u8]),
    };
    assert(r.0@ =~= param_name(p));
    assert(r.1@ =~= param_alias(p));
    r
}

/// The raw value of parameter `p`: that of the last pair carrying its name
/// or its alternative name.
pub fn lookup(pairs: &Vec<QueryPair>, p: Param) -> (r: Option<Vec<u8>>)
    ensures
        opt_view(r) == param_value(pairs@, p),
{
    let (n, a) = param_names(p);
    find_param(pairs, n.as_slice(), a.as_slice())
}

/// The raw value of parameter `p` among `pairs`.
pub open spec fn param_value(pairs: Seq<QueryPair>, p: Param) -> Option<Seq<u8>> {
    query_value(pairs, param_name(p), param_alias(p))
}

/// The view of an optional byte string.
pub open spec fn opt_view(o: Option<Vec<u8>>) -> Option<Seq<u8>> {
    match o {
        Some(v) => Some(v@),
        None => None,
    }
}

/// An optional unsigned parameter: `Err` when present but not a decimal
/// number that fits in `usize`.
pub open spec fn usize_param(v: Option<Seq<u8>>) -> Result<Option<usize>, AppError> {
    match v {
        None => Ok(None),
        Some(s) => if is_decimal(s) && decimal_value(s) <= usize::MAX {
            Ok(Some(decimal_value(s) as usize))
        } else {
            Err(AppError::ValidationError)
        },
    }
}

/// An optional signed parameter: `Err` when present but not a signed decimal
/// number that fits in `i64`.
pub open spec fn i64_param(v: Option<Seq<u8>>) -> Result<Option<i64>, AppError> {
    match v {
        None => Ok(None),
        Some(s) => match signed_value(s) {
            Some(n) => if i64::MIN <= n <= i64::MAX {
                Ok(Some(n as i64))
            } else {
                Err(AppError::ValidationError)
            },
            None => Err(AppError::ValidationError),
        },
    }
}

/// Reads parameter `p` as an optional `usize`.
pub fn usize_arg(pairs: &Vec<QueryPair>, p: Param) -> (r: Result<Option<usize>, AppError>)
    ensures
        r == usize_param(param_value(pairs@, p)),
{
    match lookup(pairs, p) {
        None => Ok(None),
        Some(v) => match parse_usize(v.as_slice()) {
            Some(n) => Ok(Some(n)),
            None => Err(AppError::ValidationError),
        },
    }
}

/// Reads parameter `p` as an optional `i64`.
pub fn i64_arg(pairs: &Vec<QueryPair>, p: Param) -> (r: Result<Option<i64>, AppError>)
    ensures
        r == i64_param(param_value(pairs@, p)),
{
    match lookup(pairs, p) {
        None => Ok(None),
        Some(v) => match parse_i64(v.as_slice()) {
            Some(n) => Ok(Some(n)),
            None => Err(AppError::ValidationError),
        },
    }
}

pub open spec fn is_digit(b: u8) -> bool {
    48 <= b <= 57
}

/// A non-empty run of ASCII decimal digits.
pub open spec fn is_decimal(s: Seq<u8>) -> bool {
    s.len() > 0 && forall|i: int| 0 <= i < s.len() ==> is_digit(#[trigger] s[i])
}

/// The number that a run of decimal digits spells.
pub open spec fn decimal_value(s: Seq<u8>) -> nat
    decreases s.len(),
{
    if s.len() == 0 {
        0
    } else {
        decimal_value(s.drop_last()) * 10 + (s.last() - 48) as nat
    }
}

/// The integer that `s` spells: decimal digits after an optional sign.
pub open spec fn signed_value(s: Seq<u8>) -> Option<int> {
    if s.len() > 0 && s[0] == 45 && is_decimal(s.skip(1)) {
        Some(-decimal_value(s.skip(1)))
    } else if s.len() > 0 && s[0] == 43 && is_decimal(s.skip(1)) {
        Some(decimal_value(s.skip(1)) as int)
    } else if is_decimal(s) {
        Some(decimal_value(s) as int)
    } else {
        None
    }
}

/// Whether two byte strings are equal.
pub fn bytes_eq(a: &[u8], b: &[u8]) -> (r: bool)
    ensures
        r == (a@ == b@),
{
    if a.len() != b.len() {
        return false;
    }
    let mut i: usize = 0;
    while i < a.len()
        invariant
            a@.len() == b@.len(),
            i <= a@.len(),
            a@.subrange(0, i as int) == b@.subrange(0, i as int),
        decreases a@.len() - i,
    {
        if a[i] != b[i] {
            assert(a@[i as int] != b@[i as int]);
            return false;
        }
        assert(a@.subrange(0, i + 1) =~= a@.subrange(0, i as int).push(a@[i as int]));
        assert(b@.subrange(0, i + 1) =~= b@.subrange(0, i as int).push(b@[i as int]));
        i = i + 1;
    }
    assert(a@ =~= a@.subrange(0, i as int));
    assert(b@ =~= b@.subrange(0, i as int));
    true
}

/// The value of the last pair named `name` or `alias`, if any.
pub fn find_param(pairs: &Vec<QueryPair>, name: &[u8], alias: &[u8]) -> (r: Option<Vec<u8>>)
    ensures
        r matches Some(v) ==> query_value(pairs@, name@, alias@) == Some(v@),
        r is None ==> query_value(pairs@, name@, alias@) is None,
{
    let mut i: usize = pairs.len();
    assert(pairs@.subrange(0, i as int) =~= pairs@);
    while i > 0
        invariant
            i <= pairs@.len(),
            query_value(pairs@, name@, alias@) == query_value(
                pairs@.subrange(0, i as int),
                name@,
                alias@,
            ),
        decreases i,
    {
        let p = &pairs[i - 1];
        let ghost sub = pairs@.subrange(0, i as int);
        assert(sub.drop_last() =~= pairs@.subrange(0, i - 1));
        if bytes_eq(p.0.as_slice(), name) || bytes_eq(p.0.as_slice(), alias) {
            return Some(p.1.clone());
        }
        i = i - 1;
    }
    assert(pairs@.subrange(0, 0) =~= Seq::<QueryPair>::empty());
    None
}

/// Parses a run of decimal digits into a `u64`; `None` when `s` is not such
/// a run or its value does not fit.
pub fn parse_u64(s: &[u8]) -> (r: Option<u64>)
    ensures
        r matches Some(n) ==> is_decimal(s@) && n as nat == decimal_value(s@),
        r is None ==> !is_decimal(s@) || decimal_value(s@) > u64::MAX,
{
    if s.len() == 0 {
        return None;
    }
    let mut acc: u64 = 0;
    let mut i: usize = 0;
    while i < s.len()
        invariant
            i <= s@.len(),
            s@.len() > 0,
            is_decimal(s@.subrange(0, i as int)) || i == 0,
            acc as nat == decimal_value(s@.subrange(0, i as int)),
        decreases s@.len() - i,
    {
        let b = s[i];
        let ghost pre = s@.subrange(0, i as int);
        let ghost next = s@.subrange(0, i + 1);
        assert(next.drop_last() =~= pre);
        if b < 48 || b > 57 {
            assert(!is_digit(s@[i as int]));
            return None;
        }
        assert(is_decimal(next));
        if acc > 1844674407370955161u64 || (acc == 1844674407370955161u64 && b > 53) {
            proof {
                assert(next.last() == b);
                assert(decimal_value(next) == acc * 10 + (b - 48) as nat);
                assert(decimal_value(next) > u64::MAX) by (nonlinear_arith)
                    requires
                        decimal_value(next) == acc * 10 + (b - 48) as nat,
                        acc > 1844674407370955161u64 || (acc == 1844674407370955161u64 && b
                            > 53),
                        b >= 48,
                ;
                if is_decimal(s@) {
                    lemma_decimal_prefix_grows(s@, i as int + 1);
                }
            }
            return None;
        }
        acc = acc * 10 + (b - 48) as u64;
        i = i + 1;
    }
    assert(s@.subrange(0, i as int) =~= s@);
    Some(acc)
}

proof fn lemma_decimal_prefix_grows(s: Seq<u8>, n: int)
    requires
        0 <= n <= s.len(),
        is_decimal(s),
    ensures
        decimal_value(s) >= decimal_value(s.subrange(0, n)),
    decreases s.len() - n,
{
    if n < s.len() {
        lemma_decimal_prefix_grows(s, n + 1);
        assert(s.subrange(0, n + 1).drop_last() =~= s.subrange(0, n));
    } else {
        assert(s.subrange(0, n) =~= s);
    }
}

/// Parses an unsigned decimal parameter into a `usize`.
pub fn parse_usize(s: &[u8]) -> (r: Option<usize>)
    ensures
        r matches Some(n) ==> is_decimal(s@) && n as nat == decimal_value(s@),
        r is None ==> !is_decimal(s@) || decimal_value(s@) > usize::MAX,
{
    match parse_u64(s) {
        Some(n) => {
            if n > usize::MAX as u64 {
                None
            } else {
                Some(n as usize)
            }
        },
        None => None,
    }
}

/// Parses a decimal parameter with an optional `-` or `+` sign into an `i64`.
pub fn parse_i64(s: &[u8]) -> (r: Option<i64>)
    ensures
        r matches Some(n) ==> signed_value(s@) == Some(n as int),
        r is None ==> signed_value(s@) is None || !(i64::MIN <= signed_value(s@)->0 <= i64::MAX),
{
    if s.len() > 0 && (s[0] == 45 || s[0] == 43) {
        let neg = s[0] == 45;
        let rest = slice_from(s, 1);
        match parse_u64(rest) {
            Some(m) => {
                if neg {
                    if m <= 0x7fff_ffff_ffff_ffffu64 {
                        Some(-(m as i64))
                    } else if m == 0x8000_0000_0000_0000u64 {
                        Some(i64::MIN)
                    } else {
                        None
                    }
                } else if m <= 0x7fff_ffff_ffff_ffffu64 {
                    Some(m as i64)
                } else {
                    None
                }
            },
            None => None,
        }
    } else {
        match parse_u64(s) {
            Some(m) => {
                if m <= 0x7fff_ffff_ffff_ffffu64 {
                    Some(m as i64)
                } else {
                    None
                }
            },
            None => {
                assert(s@.len() > 0 ==> s@[0] != 45 && s@[0] != 43);
                None
            },
        }
    }
}

fn slice_from(s: &[u8], start: usize) -> (r: &[u8])
    requires
        start <= s@.len(),
    ensures
        r@ == s@.skip(start as int),
{
    let r = slice_subrange(s, start, s.len());
    assert(r@ =~= s@.skip(start as int));
    r
}

} // verus!
