use vstd::prelude::*;
use vstd::slice::slice_to_vec;
use vstd::utf8::{decode_utf8_encode_utf8, valid_utf8};

use crate::text::decode_text;

verus! {

/// The byte that separates the components of a path.
pub const SEPARATOR: u8 = 0x2f;

/// The byte that ends each name in a NUL-separated listing.
pub const NUL: u8 = 0;

/// The line feed that `git` puts after a path it prints.
pub const NEWLINE: u8 = 0x0a;

/// `b` without the one line feed that may end it.
pub open spec fn without_newline(b: Seq<u8>) -> Seq<u8> {
    if b.len() > 0 && b.last() == NEWLINE {
        b.drop_last()
    } else {
        b
    }
}

/// `path` appended to `base` as `Path::join` does it where paths are bytes:
/// an absolute `path` replaces `base`, and a separator is put between the
/// two unless `base` is empty or already ends in one.
pub open spec fn joined(base: Seq<u8>, path: Seq<u8>) -> Seq<u8> {
    if path.len() > 0 && path[0] == SEPARATOR {
        path
    } else if base.len() == 0 || base.last() == SEPARATOR {
        base + path
    } else {
        base.push(SEPARATOR) + path
    }
}

/// The index of the last separator in `p`, or -1 where it has none.
pub open spec fn last_separator(p: Seq<u8>) -> int
    decreases p.len(),
{
    if p.len() == 0 {
        -1
    } else if p.last() == SEPARATOR {
        p.len() - 1
    } else {
        last_separator(p.drop_last())
    }
}

/// The directory that holds `p`: what comes before its last separator, the
/// root where that is the first byte, and nothing where `p` has no separator.
/// `p` is taken to end in no separator, as the paths that `git` prints do; of
/// a path that ends in one, this is that path without its last separator.
pub open spec fn parent_of(p: Seq<u8>) -> Seq<u8> {
    let k = last_separator(p);
    if k < 0 {
        Seq::empty()
    } else if k == 0 {
        seq![SEPARATOR]
    } else {
        p.subrange(0, k)
    }
}

/// The names of a NUL-separated listing, read from `rest` after `current`
/// has been gathered; empty names are left out.
pub open spec fn names_from(rest: Seq<u8>, current: Seq<u8>) -> Seq<Seq<u8>>
    decreases rest.len(),
{
    if rest.len() == 0 {
        if current.len() > 0 {
            seq![current]
        } else {
            Seq::empty()
        }
    } else if rest[0] == NUL {
        let done: Seq<Seq<u8>> = if current.len() > 0 {
            seq![current]
        } else {
            Seq::empty()
        };
        done + names_from(rest.drop_first(), Seq::empty())
    } else {
        names_from(rest.drop_first(), current.push(rest[0]))
    }
}

/// The non-empty names of a NUL-separated listing, in order.
pub open spec fn listed_names(listing: Seq<u8>) -> Seq<Seq<u8>> {
    names_from(listing, Seq::empty())
}

/// The paths of a listing of names relative to `top`, in order.
pub open spec fn tracked_paths(top: Seq<u8>, listing: Seq<u8>) -> Seq<Seq<u8>> {
    listed_names(listing).map_values(|name: Seq<u8>| joined(top, name))
}

/// The byte strings held by `v`, in order.
pub open spec fn byte_strings(v: Seq<Vec<u8>>) -> Seq<Seq<u8>> {
    v.map_values(|x: Vec<u8>| x@)
}

/// Reads raw bytes as a path. Paths are byte strings, so every byte
/// sequence is one, and the bytes are kept as they are.
pub fn bytes_to_path(bytes: &[u8]) -> (r: Vec<u8>)
    ensures
        r@ == bytes@,
{
    slice_to_vec(bytes)
}

/// Whether `bytes` form a path: any bytes where paths are bytes, only valid
/// UTF-8 where paths are text (`text_paths`).
pub open spec fn is_path(bytes: Seq<u8>, text_paths: bool) -> bool {
    !text_paths || valid_utf8(bytes)
}

/// Reads raw bytes as a path where paths are text: only valid UTF-8 is one,
/// and its bytes are kept as they are.
pub fn text_path(bytes: &[u8]) -> (r: Option<Vec<u8>>)
    ensures
        r.is_some() == valid_utf8(bytes@),
        r matches Some(p) ==> p@ == bytes@,
{
    match decode_text(slice_to_vec(bytes)) {
        None => None,
        Some(s) => {
            proof {
                decode_utf8_encode_utf8(bytes@);
            }
            Some(slice_to_vec(s.as_str().as_bytes()))
        },
    }
}

/// Reads raw bytes as a path, by the rule of the platform: every byte
/// sequence where paths are bytes, only text where they are text.
pub fn checked_path(bytes: &[u8], text_paths: bool) -> (r: Option<Vec<u8>>)
    ensures
        r.is_some() == is_path(bytes@, text_paths),
        r matches Some(p) ==> p@ == bytes@,
{
    if text_paths {
        text_path(bytes)
    } else {
        Some(bytes_to_path(bytes))
    }
}

/// Drops the line feed that ends a path printed by `git`, if there is one.
pub fn strip_newline(bytes: &[u8]) -> (r: Vec<u8>)
    ensures
        r@ == without_newline(bytes@),
{
    let mut r = bytes_to_path(bytes);
    if r.len() > 0 && r[r.len() - 1] == NEWLINE {
        r.pop();
    }
    r
}

/// Appends `path` to `base`.
pub fn join_path(base: &[u8], path: &[u8]) -> (r: Vec<u8>)
    ensures
        r@ == joined(base@, path@),
{
    if path.len() > 0 && path[0] == SEPARATOR {
        return bytes_to_path(path);
    }
    let mut r = bytes_to_path(base);
    if base.len() > 0 && base[base.len() - 1] != SEPARATOR {
        r.push(SEPARATOR);
    }
    let mut tail = bytes_to_path(path);
    r.append(&mut tail);
    r
}

/// The directory that holds `path`.
pub fn parent_dir(path: &[u8]) -> (r: Vec<u8>)
    ensures
        r@ == parent_of(path@),
{
    let mut k: usize = path.len();
    assert(path@.subrange(0, k as int) =~= path@);
    while k > 0 && path[k - 1] != SEPARATOR
        invariant
            k <= path@.len(),
            last_separator(path@) == last_separator(path@.subrange(0, k as int)),
        decreases k,
    {
        assert(path@.subrange(0, k - 1) =~= path@.subrange(0, k as int).drop_last());
        k = k - 1;
    }
    if k == 0 {
        Vec::new()
    } else if k == 1 {
        let mut r = Vec::new();
        r.push(SEPARATOR);
        r
    } else {
        slice_to_vec(vstd::slice::slice_subrange(path, 0, k - 1))
    }
}

/// The non-empty names of a NUL-separated listing, in order.
pub fn split_listing(listing: &[u8]) -> (r: Vec<Vec<u8>>)
    ensures
        byte_strings(r@) == listed_names(listing@),
{
    let n = listing.len();
    let mut names: Vec<Vec<u8>> = Vec::new();
    let mut current: Vec<u8> = Vec::new();
    let mut i: usize = 0;
    assert(listing@.subrange(0, n as int) =~= listing@);
    while i < n
        invariant
            n == listing@.len(),
            i <= n,
            byte_strings(names@) + names_from(listing@.subrange(i as int, n as int), current@)
                == listed_names(listing@),
        decreases n - i,
    {
        let ghost rest = listing@.subrange(i as int, n as int);
        assert(listing@.subrange(i + 1, n as int) =~= rest.drop_first());
        let b = listing[i];
        if b == NUL {
            if current.len() > 0 {
                let ghost before = byte_strings(names@);
                names.push(current);
                assert(byte_strings(names@) =~= before.push(current@));
                assert(before + (seq![current@] + names_from(rest.drop_first(), Seq::empty()))
                    =~= before.push(current@) + names_from(rest.drop_first(), Seq::empty()));
            } else {
                assert(Seq::<Seq<u8>>::empty() + names_from(rest.drop_first(), Seq::empty())
                    =~= names_from(rest.drop_first(), Seq::empty()));
            }
            current = Vec::new();
        } else {
            current.push(b);
        }
        i = i + 1;
    }
    if current.len() > 0 {
        let ghost before = byte_strings(names@);
        names.push(current);
        assert(byte_strings(names@) =~= before.push(current@));
    } else {
        assert(byte_strings(names@) + Seq::<Seq<u8>>::empty() =~= byte_strings(names@));
    }
    names
}

/// Relative paths of a listing, each joined to `top`.
pub fn list_tracked_objects(top: &[u8], listing: &[u8]) -> (r: Vec<Vec<u8>>)
    ensures
        byte_strings(r@) == tracked_paths(top@, listing@),
{
    let names = split_listing(listing);
    let mut paths: Vec<Vec<u8>> = Vec::new();
    let mut i: usize = 0;
    while i < names.len()
        invariant
            i <= names@.len(),
            byte_strings(names@) == listed_names(listing@),
            byte_strings(paths@) =~= byte_strings(names@).subrange(0, i as int).map_values(
                |name: Seq<u8>| joined(top@, name),
            ),
        decreases names@.len() - i,
    {
        let p = join_path(top, names[i].as_slice());
        let ghost before = byte_strings(paths@);
        paths.push(p);
        assert(byte_strings(paths@) =~= before.push(p@));
        i = i + 1;
    }
    assert(byte_strings(names@).subrange(0, i as int) =~= byte_strings(names@));
    paths
}

} // verus!
