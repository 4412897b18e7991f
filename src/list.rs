//! Rendering a scan's entries as a listing: one line per key, optionally
//! followed by `:` and the payload in base64; lines joined by `\n` with no
//! trailing newline.
use vstd::prelude::*;
use crate::envelope::{decode, decode_spec};
use crate::error::AppError;

verus! {

/// What base64's standard (padded) engine makes of `b`.
pub uninterp spec fn base64_of(b: Seq<u8>) -> Seq<u8>;

/// Relies on `base64::Engine::encode` of `general_purpose::STANDARD`: the
/// padded standard encoding, four output bytes for each started group of
/// three. Its size computation panics only past half the address space.
#[verifier::external_body]
fn base64_encode(b: &[u8]) -> (r: Vec<u8>)
    requires
        b@.len() <= usize::MAX / 2,
    ensures
        r@ == base64_of(b@),
        r@.len() == 4 * ((b@.len() + 2) / 3),
{
    base64::Engine::encode(&base64::engine::general_purpose::STANDARD, b).into_bytes()
}

/// The separator between a key and its value on a line.
pub open spec fn sep() -> u8 {
    58
}

/// The line separator.
pub open spec fn newline() -> u8 {
    10
}

/// One line of a listing: the key, then `:` and the encoded value if any.
pub open spec fn line_spec(key: Seq<u8>, encoded: Option<Seq<u8>>) -> Seq<u8> {
    match encoded {
        Some(v) => key + seq![sep()] + v,
        None => key,
    }
}

/// Lines joined by newlines, without one after the last.
pub open spec fn join_spec(lines: Seq<Seq<u8>>) -> Seq<u8>
    decreases lines.len(),
{
    if lines.len() == 0 {
        Seq::empty()
    } else if lines.len() == 1 {
        lines[0]
    } else {
        join_spec(lines.drop_last()) + seq![newline()] + lines.last()
    }
}

/// A scan entry: the key and the raw stored bytes under it.
pub type Entry = (Vec<u8>, Vec<u8>);

/// Whether an entry's stored bytes decode.
pub open spec fn entry_decodes(e: Entry) -> bool {
    decode_spec(e.1@) is Some
}

/// The line that an entry contributes.
pub open spec fn entry_line(e: Entry, with_vals: bool) -> Seq<u8> {
    if with_vals {
        let (_, data) = decode_spec(e.1@)->0;
        line_spec(e.0@, Some(base64_of(data)))
    } else {
        line_spec(e.0@, None)
    }
}

/// The listing body for `entries`.
pub open spec fn listing_spec(entries: Seq<Entry>, with_vals: bool) -> Seq<u8> {
    join_spec(Seq::new(entries.len(), |i: int| entry_line(entries[i], with_vals)))
}

fn append(dst: &mut Vec<u8>, src: &[u8])
    ensures
        final(dst)@ == old(dst)@ + src@,
{
    let mut i: usize = 0;
    while i < src.len()
        invariant
            i <= src@.len(),
            dst@ == old(dst)@ + src@.subrange(0, i as int),
        decreases src@.len() - i,
    {
        dst.push(src[i]);
        i = i + 1;
        assert(dst@ =~= old(dst)@ + src@.subrange(0, i as int));
    }
    assert(src@.subrange(0, i as int) =~= src@);
}

/// Builds one listing line from a key and, if given, its already encoded value.
pub fn listing_line(key: &Vec<u8>, encoded: Option<&Vec<u8>>) -> (r: Vec<u8>)
    ensures
        r@ == line_spec(key@, match encoded {
            Some(v) => Some(v@),
            None => None,
        }),
{
    let mut r: Vec<u8> = Vec::new();
    append(&mut r, key.as_slice());
    assert(r@ =~= key@);
    match encoded {
        Some(v) => {
            r.push(58u8);
            append(&mut r, v.as_slice());
        },
        None => {},
    }
    r
}

/// Joins lines with `\n`, with no newline after the last one.
pub fn join_listing(lines: &Vec<Vec<u8>>) -> (r: Vec<u8>)
    ensures
        r@ == join_spec(lines@.map_values(|l: Vec<u8>| l@)),
{
    let ghost views = lines@.map_values(|l: Vec<u8>| l@);
    let mut r: Vec<u8> = Vec::new();
    let mut i: usize = 0;
    while i < lines.len()
        invariant
            i <= lines@.len(),
            views == lines@.map_values(|l: Vec<u8>| l@),
            r@ == join_spec(views.subrange(0, i as int)),
        decreases lines@.len() - i,
    {
        let ghost before = r@;
        if i > 0 {
            r.push(10u8);
        }
        append(&mut r, lines[i].as_slice());
        proof {
            let sub = views.subrange(0, i + 1);
            assert(sub.drop_last() =~= views.subrange(0, i as int));
            assert(sub.last() == lines@[i as int]@);
            if i == 0 {
                assert(r@ =~= sub[0]);
            }
        }
        i = i + 1;
    }
    assert(views.subrange(0, i as int) =~= views);
    r
}

/// Renders the entries of a scan; with values, each stored envelope is
/// decoded and its payload base64-encoded, and one that does not decode makes
/// the whole listing an internal error.
pub fn list_items(entries: &Vec<Entry>, with_vals: bool) -> (r: Result<Vec<u8>, AppError>)
    requires
        forall|i: int| 0 <= i < entries@.len() ==> #[trigger] entries@[i].1@.len() <= usize::MAX / 2,
    ensures
        r is Err <==> with_vals && exists|i: int|
            0 <= i < entries@.len() && !entry_decodes(#[trigger] entries@[i]),
        r is Err ==> r == Err::<Vec<u8>, AppError>(AppError::InternalError),
        r matches Ok(b) ==> b@ == listing_spec(entries@, with_vals),
{
    let mut lines: Vec<Vec<u8>> = Vec::new();
    let mut i: usize = 0;
    while i < entries.len()
        invariant
            i <= entries@.len(),
            lines@.len() == i,
            forall|j: int| 0 <= j < entries@.len() ==> #[trigger] entries@[j].1@.len() <= usize::MAX
                / 2,
            forall|j: int| 0 <= j < i ==> #[trigger] lines@[j]@ == entry_line(entries@[j], with_vals),
            with_vals ==> forall|j: int| 0 <= j < i ==> entry_decodes(#[trigger] entries@[j]),
        decreases entries@.len() - i,
    {
        let e = &entries[i];
        if with_vals {
            match decode(e.1.as_slice()) {
                None => {
                    assert(!entry_decodes(entries@[i as int]));
                    return Err(AppError::InternalError);
                },
                Some(item) => {
                    let enc = base64_encode(item.data.as_slice());
                    lines.push(listing_line(&e.0, Some(&enc)));
                },
            }
        } else {
            lines.push(listing_line(&e.0, None));
        }
        i = i + 1;
    }
    let r = join_listing(&lines);
    assert(lines@.map_values(|l: Vec<u8>| l@) =~= Seq::new(
        entries@.len(),
        |j: int| entry_line(entries@[j], with_vals),
    ));
    Ok(r)
}

} // verus!
