use vstd::prelude::*;

use crate::errors::ArchiveError;
use crate::strmap::StringMap;
use crate::text::bytes_to_string;

verus! {

// The manifest file: UTF-8 text, one key/value pair per line, the first
// `:` separating key from value, both trimmed of surrounding whitespace.
// A later line with the same key overrides an earlier one.

/// The first position at or after `from` holding byte `c`, or the length.
pub open spec fn spec_find_byte(b: Seq<u8>, from: int, c: u8) -> int
    decreases b.len() - from,
{
    if from < 0 || from >= b.len() {
        b.len() as int
    } else if b[from] == c {
        from
    } else {
        spec_find_byte(b, from + 1, c)
    }
}

/// ASCII whitespace as the manifest parser strips it.
pub open spec fn spec_is_ws(c: u8) -> bool {
    c == 32 || c == 9 || c == 13 || c == 10 || c == 12
}

/// The first position at or after `from` holding a non-whitespace byte.
pub open spec fn spec_skip_ws(b: Seq<u8>, from: int) -> int
    decreases b.len() - from,
{
    if from < 0 || from >= b.len() {
        b.len() as int
    } else if spec_is_ws(b[from]) {
        spec_skip_ws(b, from + 1)
    } else {
        from
    }
}

/// The position after the last non-whitespace byte below `upto`.
pub open spec fn spec_trim_end(b: Seq<u8>, upto: int) -> int
    decreases upto,
{
    if upto <= 0 {
        0
    } else if upto > b.len() {
        b.len() as int
    } else if spec_is_ws(b[upto - 1]) {
        spec_trim_end(b, upto - 1)
    } else {
        upto
    }
}

/// `b` without leading and trailing whitespace.
pub open spec fn spec_trim(b: Seq<u8>) -> Seq<u8> {
    let s = spec_skip_ws(b, 0);
    if s == b.len() {
        Seq::empty()
    } else {
        b.subrange(s, spec_trim_end(b, b.len() as int))
    }
}

/// The key/value pair of one manifest line, if the line yields one: the
/// line loses a trailing carriage return, an empty line yields nothing, and
/// otherwise the first `:` splits it. Both halves are trimmed and must be
/// valid UTF-8.
pub open spec fn spec_line_pair(line: Seq<u8>) -> Option<(Seq<char>, Seq<char>)> {
    let l = if line.len() > 0 && line.last() == 13 {
        line.drop_last()
    } else {
        line
    };
    if l.len() == 0 {
        None
    } else {
        let i = spec_find_byte(l, 0, 58);
        if i >= l.len() {
            None
        } else {
            let kb = spec_trim(l.take(i));
            let vb = spec_trim(l.skip(i + 1));
            if vstd::utf8::valid_utf8(kb) && vstd::utf8::valid_utf8(vb) {
                Some((vstd::utf8::decode_utf8(kb), vstd::utf8::decode_utf8(vb)))
            } else {
                None
            }
        }
    }
}

/// All key/value pairs of the manifest text from position `pos` on, in line
/// order; lines are separated by newline bytes.
pub open spec fn spec_manifest_pairs_from(b: Seq<u8>, pos: int) -> Seq<(Seq<char>, Seq<char>)>
    decreases b.len() - pos,
{
    if pos < 0 || pos >= b.len() {
        Seq::empty()
    } else {
        let i = spec_find_byte(b, pos, 10);
        let line = b.subrange(pos, if i <= b.len() { i } else { b.len() as int });
        let head = match spec_line_pair(line) {
            Some(p) => seq![p],
            None => Seq::empty(),
        };
        if pos <= i && i < b.len() {
            head + spec_manifest_pairs_from(b, i + 1)
        } else {
            head
        }
    }
}

pub open spec fn spec_manifest_pairs(b: Seq<u8>) -> Seq<(Seq<char>, Seq<char>)> {
    spec_manifest_pairs_from(b, 0)
}

/// The value bound to `key` by a pair sequence, the last pair winning.
pub open spec fn spec_pairs_lookup(ps: Seq<(Seq<char>, Seq<char>)>, key: Seq<char>) -> Option<
    Seq<char>,
>
    decreases ps.len(),
{
    if ps.len() == 0 {
        None
    } else if ps.last().0 == key {
        Some(ps.last().1)
    } else {
        spec_pairs_lookup(ps.drop_last(), key)
    }
}

pub proof fn lemma_pairs_lookup_concat(
    a: Seq<(Seq<char>, Seq<char>)>,
    b: Seq<(Seq<char>, Seq<char>)>,
    key: Seq<char>,
)
    ensures
        spec_pairs_lookup(a + b, key) == match spec_pairs_lookup(b, key) {
            Some(v) => Some(v),
            None => spec_pairs_lookup(a, key),
        },
    decreases b.len(),
{
    if b.len() == 0 {
        assert(a + b =~= a);
    } else {
        assert((a + b).last() == b.last());
        assert((a + b).drop_last() =~= a + b.drop_last());
        lemma_pairs_lookup_concat(a, b.drop_last(), key);
    }
}

/// The full manifest lookup: the value of the last line that binds `key`.
pub open spec fn spec_manifest_lookup(b: Seq<u8>, key: Seq<char>) -> Option<Seq<char>> {
    spec_pairs_lookup(spec_manifest_pairs(b), key)
}

fn find_byte(data: &Vec<u8>, from: usize, c: u8) -> (r: usize)
    requires
        from <= data@.len(),
    ensures
        r == spec_find_byte(data@, from as int, c),
        from <= r <= data@.len(),
        r < data@.len() ==> data@[r as int] == c,
{
    let n = data.len();
    let mut k: usize = from;
    while k < n
        invariant
            from <= k <= n,
            n == data@.len(),
            spec_find_byte(data@, from as int, c) == spec_find_byte(data@, k as int, c),
        decreases n - k,
    {
        if data[k] == c {
            return k;
        }
        k = k + 1;
    }
    k
}

/// Copy `data[a..b]` into an owned vector.
fn copy_range(data: &Vec<u8>, a: usize, b: usize) -> (r: Vec<u8>)
    requires
        a <= b <= data@.len(),
    ensures
        r@ == data@.subrange(a as int, b as int),
{
    let s = vstd::slice::slice_subrange(data.as_slice(), a, b);
    vstd::slice::slice_to_vec(s)
}

/// The trimmed span of `line`: start and end such that the trimmed bytes
/// are `line[start..end]`, or an empty span at the length when the line is
/// all whitespace.
fn trim_bounds(line: &Vec<u8>) -> (r: (usize, usize))
    ensures
        spec_trim(line@) == if r.0 == line@.len() {
            Seq::<u8>::empty()
        } else {
            line@.subrange(r.0 as int, r.1 as int)
        },
        r.0 <= r.1 <= line@.len(),
{
    let n = line.len();
    let mut s: usize = 0;
    while s < n && is_ws(line[s])
        invariant
            s <= n,
            n == line@.len(),
            spec_skip_ws(line@, 0) == spec_skip_ws(line@, s as int),
        decreases n - s,
    {
        s = s + 1;
    }
    if s == n {
        return (n, n);
    }
    let mut e: usize = n;
    while e > s && is_ws(line[e - 1])
        invariant
            s < e <= n,
            n == line@.len(),
            !spec_is_ws(line@[s as int]),
            spec_trim_end(line@, n as int) == spec_trim_end(line@, e as int),
        decreases e,
    {
        e = e - 1;
    }
    proof {
        assert(spec_trim_end(line@, e as int) == e);
    }
    (s, e)
}

fn is_ws(c: u8) -> (r: bool)
    ensures
        r == spec_is_ws(c),
{
    c == 32 || c == 9 || c == 13 || c == 10 || c == 12
}

/// Parse the manifest text into its key/value map. Fails exactly when the
/// bytes are not valid UTF-8; a line without a `:` contributes nothing.
pub fn parse_manifest(data: &Vec<u8>) -> (r: Result<StringMap<String>, ArchiveError>)
    ensures
        r is Ok <==> vstd::utf8::valid_utf8(data@),
        r is Err ==> r == Err::<StringMap<String>, _>(ArchiveError::ManifestMissing),
        r is Ok ==> {
            let m = r.unwrap();
            &&& m.wf()
            &&& forall|key: Seq<char>|
                crate::reader::opt_view(#[trigger] m.spec_get(key)) == spec_manifest_lookup(
                    data@,
                    key,
                )
        },
{
    match bytes_to_string(data) {
        Some(_) => {},
        None => {
            return Err(ArchiveError::ManifestMissing);
        },
    }
    let mut map: StringMap<String> = StringMap::new();
    let n = data.len();
    let mut pos: usize = 0;
    while pos < n
        invariant
            pos <= n,
            n == data@.len(),
            map.wf(),
            forall|key: Seq<char>|
                spec_manifest_lookup(data@, key) == match spec_pairs_lookup(
                    spec_manifest_pairs_from(data@, pos as int),
                    key,
                ) {
                    Some(v) => Some(v),
                    None => crate::reader::opt_view(#[trigger] map.spec_get(key)),
                },
        decreases n - pos,
    {
        let i = find_byte(data, pos, 10);
        let line = copy_range(data, pos, i);
        let ghost old_map = map;
        process_line(&line, &mut map);
        let new_pos: usize = if i < n {
            i + 1
        } else {
            n
        };
        proof {
            let head = match spec_line_pair(line@) {
                Some(p) => seq![p],
                None => Seq::<(Seq<char>, Seq<char>)>::empty(),
            };
            let rest = spec_manifest_pairs_from(data@, new_pos as int);
            if i < n {
                assert(spec_manifest_pairs_from(data@, pos as int) == head + rest);
            } else {
                assert(spec_manifest_pairs_from(data@, pos as int) == head);
                assert(rest =~= Seq::<(Seq<char>, Seq<char>)>::empty());
                assert(head + rest =~= head);
            }
            assert forall|key: Seq<char>|
                spec_manifest_lookup(data@, key) == match spec_pairs_lookup(rest, key) {
                    Some(v) => Some(v),
                    None => crate::reader::opt_view(#[trigger] map.spec_get(key)),
                } by {
                lemma_pairs_lookup_concat(head, rest, key);
                assert(crate::reader::opt_view(map.spec_get(key)) == (match spec_line_pair(
                    line@,
                ) {
                    Some(p) => if p.0 == key {
                        Some(p.1)
                    } else {
                        crate::reader::opt_view(old_map.spec_get(key))
                    },
                    None => crate::reader::opt_view(old_map.spec_get(key)),
                }));
                assert(spec_manifest_lookup(data@, key) == (match spec_pairs_lookup(
                    spec_manifest_pairs_from(data@, pos as int),
                    key,
                ) {
                    Some(v) => Some(v),
                    None => crate::reader::opt_view(old_map.spec_get(key)),
                }));
                match spec_pairs_lookup(rest, key) {
                    Some(v) => {
                        assert(spec_pairs_lookup(head + rest, key) == Some(v));
                        assert(spec_manifest_lookup(data@, key) == Some(v));
                    },
                    None => {
                        assert(spec_pairs_lookup(head + rest, key) == spec_pairs_lookup(
                            head,
                            key,
                        ));
                        match spec_line_pair(line@) {
                            Some(p) => {
                                assert(head.last() == p);
                                assert(head.drop_last() =~= Seq::<
                                    (Seq<char>, Seq<char>),
                                >::empty());
                                if p.0 == key {
                                    assert(spec_pairs_lookup(head, key) == Some(p.1));
                                } else {
                                    assert(spec_pairs_lookup(head.drop_last(), key) is None);
                                    assert(spec_pairs_lookup(head, key) is None);
                                }
                            },
                            None => {
                                assert(head.len() == 0);
                                assert(spec_pairs_lookup(head, key) is None);
                            },
                        }
                        assert(spec_manifest_lookup(data@, key) == crate::reader::opt_view(
                            map.spec_get(key),
                        ));
                    },
                }
            }
        }
        pos = new_pos;
    }
    proof {
        assert(spec_manifest_pairs_from(data@, pos as int) =~= Seq::<
            (Seq<char>, Seq<char>),
        >::empty());
    }
    Ok(map)
}

/// Process one manifest line into the map: insert its pair if it has one.
fn process_line(line: &Vec<u8>, map: &mut StringMap<String>)
    requires
        old(map).wf(),
    ensures
        final(map).wf(),
        forall|key: Seq<char>|
            crate::reader::opt_view(#[trigger] final(map).spec_get(key)) == match spec_line_pair(
                line@,
            ) {
                Some(p) => if p.0 == key {
                    Some(p.1)
                } else {
                    crate::reader::opt_view(old(map).spec_get(key))
                },
                None => crate::reader::opt_view(old(map).spec_get(key)),
            },
{
    let mut end = line.len();
    if end > 0 && line[end - 1] == 13 {
        end = end - 1;
    }
    let l = copy_range(line, 0, end);
    proof {
        if line@.len() > 0 && line@.last() == 13 {
            assert(l@ =~= line@.drop_last());
        } else {
            assert(l@ =~= line@);
        }
    }
    if l.len() == 0 {
        return;
    }
    let i = find_byte(&l, 0, 58);
    if i >= l.len() {
        return;
    }
    let kpart = copy_range(&l, 0, i);
    let vpart = copy_range(&l, i + 1, l.len());
    proof {
        assert(kpart@ =~= l@.take(i as int));
        assert(vpart@ =~= l@.skip(i as int + 1));
    }
    let (ks, ke) = trim_bounds(&kpart);
    let kb = if ks == kpart.len() {
        Vec::new()
    } else {
        copy_range(&kpart, ks, ke)
    };
    let (vs, ve) = trim_bounds(&vpart);
    let vb = if vs == vpart.len() {
        Vec::new()
    } else {
        copy_range(&vpart, vs, ve)
    };
    proof {
        assert(kb@ =~= spec_trim(kpart@));
        assert(vb@ =~= spec_trim(vpart@));
    }
    let k = match bytes_to_string(&kb) {
        Some(s) => s,
        None => {
            return;
        },
    };
    let v = match bytes_to_string(&vb) {
        Some(s) => s,
        None => {
            return;
        },
    };
    map.insert(k, v);
}

} // verus!
