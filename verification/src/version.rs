//! Version comparison and GitHub release parsing.
//!
//! The HTTP fetch itself lives with the platform code; this module only
//! reads the response body and compares version strings.

use vstd::prelude::*;
use crate::text::{occurs_at, chars_find_from, find_from, is_digit, parse_unsigned, parse_unsigned_chars, str_chars};

verus! {

broadcast use vstd::string::group_string_axioms;

/// The fields of `s` separated by `sep` (what `str::split` yields): there
/// is always at least one field, and fields may be empty.
pub open spec fn split_fields(s: Seq<char>, sep: char) -> Seq<Seq<char>>
    decreases s.len(),
{
    if s.len() == 0 {
        seq![Seq::<char>::empty()]
    } else {
        let f = split_fields(s.drop_last(), sep);
        if s.last() == sep {
            f.push(Seq::<char>::empty())
        } else {
            f.update(f.len() - 1, f.last().push(s.last()))
        }
    }
}

/// The values of the fields, when every field parses as a `u32`;
/// `None` as soon as one does not.
pub open spec fn parsed_fields(fields: Seq<Seq<char>>) -> Option<Seq<nat>>
    decreases fields.len(),
{
    if fields.len() == 0 {
        Some(Seq::<nat>::empty())
    } else {
        match parsed_fields(fields.drop_last()) {
            Some(rest) => match parse_unsigned(fields.last(), u32::MAX as nat) {
                Some(v) => Some(rest.push(v)),
                None => None,
            },
            None => None,
        }
    }
}

/// The numeric parts of a dotted version string; `None` when some part
/// is not a number (a malformed version).
pub open spec fn version_parts(s: Seq<char>) -> Option<Seq<nat>> {
    parsed_fields(split_fields(s, '.'))
}

/// `remote` and `local` each have exactly three parts, all numbers, and
/// `remote`'s parts are greater in lexicographic order. A malformed
/// version is never newer, and nothing is newer than one.
pub open spec fn spec_is_newer(remote: Seq<char>, local: Seq<char>) -> bool {
    match (version_parts(remote), version_parts(local)) {
        (Some(r), Some(l)) => {
            &&& r.len() == 3
            &&& l.len() == 3
            &&& (r[0] > l[0] || (r[0] == l[0] && (r[1] > l[1] || (r[1] == l[1] && r[2] > l[2]))))
        },
        _ => false,
    }
}

proof fn lemma_split_fields_nonempty(s: Seq<char>, sep: char)
    ensures
        split_fields(s, sep).len() >= 1,
    decreases s.len(),
{
    if s.len() > 0 {
        lemma_split_fields_nonempty(s.drop_last(), sep);
    }
}

/// The numeric parts of a dotted version string, or `None` when a part
/// is not a number.
fn version_numbers(s: &str) -> (r: Option<Vec<u32>>)
    ensures
        match r {
            Some(v) => version_parts(s@) == Some(v@.map_values(|x: u32| x as nat)),
            None => version_parts(s@) is None,
        },
{
    let v = str_chars(s);
    let mut out: Vec<u32> = Vec::new();
    let mut ok = true;
    let mut cur: Vec<char> = Vec::new();
    let ghost mut done: Seq<Seq<char>> = Seq::empty();
    let mut i: usize = 0;
    while i < v.len()
        invariant
            0 <= i <= v.len(),
            split_fields(v@.take(i as int), '.') == done.push(cur@),
            ok ==> parsed_fields(done) == Some(out@.map_values(|x: u32| x as nat)),
            !ok ==> parsed_fields(done) is None,
        decreases v.len() - i,
    {
        let c = v[i];
        assert(v@.take(i + 1).drop_last() =~= v@.take(i as int));
        assert(v@.take(i + 1).last() == c);
        if c == '.' {
            let p = parse_unsigned_chars(&cur, 0xffff_ffff);
            let ghost old_out = out@;
            proof {
                assert(done.push(cur@).drop_last() =~= done);
            }
            match p {
                Some(n) => {
                    if ok {
                        out.push(n as u32);
                        assert(out@.map_values(|x: u32| x as nat) =~= old_out.map_values(|x: u32| x as nat).push(
                            n as nat,
                        ));
                    }
                },
                None => {
                    ok = false;
                },
            }
            proof {
                done = done.push(cur@);
            }
            cur = Vec::new();
            assert(split_fields(v@.take(i + 1), '.') =~= done.push(cur@));
        } else {
            let ghost old_cur = cur@;
            cur.push(c);
            assert(split_fields(v@.take(i + 1), '.') =~= done.push(cur@)) by {
                assert(done.push(old_cur).update(done.len() as int, old_cur.push(c)) =~= done.push(cur@));
            }
        }
        i = i + 1;
    }
    proof {
        assert(v@.take(i as int) =~= v@);
        assert(done.push(cur@).drop_last() =~= done);
    }
    let p = parse_unsigned_chars(&cur, 0xffff_ffff);
    let ghost old_out = out@;
    match p {
        Some(n) => {
            if ok {
                out.push(n as u32);
                assert(out@.map_values(|x: u32| x as nat) =~= old_out.map_values(|x: u32| x as nat).push(n as nat));
                Some(out)
            } else {
                None
            }
        },
        None => None,
    }
}

/// Returns `true` when `remote` is a higher version than `local`.
///
/// Both are split on `.` and every part is read as a `u32`; they are
/// compared part by part. A version that is malformed (a part that is
/// not a number, or not exactly three parts) is never newer, and nothing
/// is newer than it.
pub fn is_newer(remote: &str, local: &str) -> (b: bool)
    ensures
        b == spec_is_newer(remote@, local@),
{
    let r = match version_numbers(remote) {
        Some(r) => r,
        None => return false,
    };
    let l = match version_numbers(local) {
        Some(l) => l,
        None => return false,
    };
    if r.len() != 3 || l.len() != 3 {
        return false;
    }
    r[0] > l[0] || (r[0] == l[0] && (r[1] > l[1] || (r[1] == l[1] && r[2] > l[2])))
}

/// JSON whitespace: space, tab, line feed, carriage return.
pub open spec fn is_json_space(c: char) -> bool {
    c == ' ' || c == '\t' || c == '\n' || c == '\r'
}

/// The first position at or after `i` that does not hold JSON whitespace
/// (the length of `s` if there is none).
pub open spec fn skip_space(s: Seq<char>, i: int) -> int
    decreases s.len() - i,
{
    if 0 <= i < s.len() && is_json_space(s[i]) {
        skip_space(s, i + 1)
    } else {
        i
    }
}

/// The `tag_name` string of a GitHub release body: after the first
/// occurrence of `"tag_name"`, optional whitespace, a `:`, optional
/// whitespace, then a string in quotes, whose text (up to the next `"`)
/// is the tag. `None` when the key is missing or its value is not a
/// string (such as `null`).
pub open spec fn spec_extract_tag_name(json: Seq<char>) -> Option<Seq<char>> {
    match find_from(json, "\"tag_name\""@, 0) {
        Some(k) => {
            let c = skip_space(json, k + 10);
            if c < json.len() && json[c] == ':' {
                let q = skip_space(json, c + 1);
                if q < json.len() && json[q] == '"' {
                    match find_from(json, "\""@, q + 1) {
                        Some(e) => Some(json.subrange(q + 1, e)),
                        None => None,
                    }
                } else {
                    None
                }
            } else {
                None
            }
        },
        None => None,
    }
}

/// The first position at or after `i` that does not hold JSON whitespace.
fn skip_spaces(v: &Vec<char>, i: usize) -> (r: usize)
    requires
        i <= v@.len(),
    ensures
        r == skip_space(v@, i as int),
        i <= r <= v@.len(),
    decreases v@.len() - i,
{
    if i < v.len() && (v[i] == ' ' || v[i] == '\t' || v[i] == '\n' || v[i] == '\r') {
        skip_spaces(v, i + 1)
    } else {
        i
    }
}

/// Extracts the `tag_name` value from a GitHub releases JSON response.
///
/// Looks for `"tag_name":"..."` or `"tag_name" : "..."` and returns
/// the inner string value, without a JSON parser; `None` when the key is
/// missing or its value is not a string.
pub fn extract_tag_name(json: &str) -> (r: Option<String>)
    ensures
        match r {
            Some(t) => spec_extract_tag_name(json@) == Some(t@),
            None => spec_extract_tag_name(json@) is None,
        },
{
    proof {
        reveal_strlit("\"tag_name\"");
        reveal_strlit("\"");
    }
    let v = str_chars(json);
    let key = str_chars("\"tag_name\"");
    let quote = str_chars("\"");
    assert(key@.len() == 10);
    assert(quote@.len() == 1);
    let fk = chars_find_from(&v, &key, 0);
    if fk.is_none() {
        return None;
    }
    let k = fk.unwrap();
    assert(occurs_at(v@, key@, k as int));
    let vlen = v.len();
    assert(k + 10 <= vlen);
    let c = skip_spaces(&v, k + 10);
    if !(c < vlen && v[c] == ':') {
        return None;
    }
    let q = skip_spaces(&v, c + 1);
    if !(q < vlen && v[q] == '"') {
        return None;
    }
    let e = match chars_find_from(&v, &quote, q + 1) {
        Some(e) => e,
        None => return None,
    };
    assert(occurs_at(v@, quote@, e as int));
    let n = json.unicode_len();
    assert(e + 1 <= n);
    let inner = json.substring_char(q + 1, e);
    Some(inner.to_string())
}

/// The tag, when its version (without a leading `v`) is newer than the
/// local version.
pub open spec fn spec_check_for_update(json: Seq<char>, local: Seq<char>) -> Option<Seq<char>> {
    match spec_extract_tag_name(json) {
        Some(tag) => {
            let remote = if tag.len() > 0 && tag[0] == 'v' {
                tag.drop_first()
            } else {
                tag
            };
            if spec_is_newer(remote, local) {
                Some(tag)
            } else {
                None
            }
        },
        None => None,
    }
}

/// Returns the remote tag if it is newer than `local_version`.
///
/// Parses a GitHub releases JSON body, extracts the tag, and compares
/// it (without a leading `v`) against the given local version string.
pub fn check_for_update(json: &str, local_version: &str) -> (r: Option<String>)
    ensures
        match r {
            Some(t) => spec_check_for_update(json@, local_version@) == Some(t@),
            None => spec_check_for_update(json@, local_version@) is None,
        },
{
    let tag = match extract_tag_name(json) {
        Some(t) => t,
        None => return None,
    };
    let t = tag.as_str();
    let tv = str_chars(t);
    let newer = if tv.len() > 0 && tv[0] == 'v' {
        let n = t.unicode_len();
        let remote = t.substring_char(1, n);
        assert(remote@ =~= tag@.drop_first());
        is_newer(remote, local_version)
    } else {
        is_newer(t, local_version)
    };
    if newer {
        Some(tag)
    } else {
        None
    }
}

/// "Newer" is a strict order: no version is newer than itself, two
/// versions are never each newer than the other, and a version newer
/// than one that is newer than a third is newer than that third.
pub proof fn lemma_newer_is_strict_order(a: Seq<char>, b: Seq<char>, c: Seq<char>)
    ensures
        !spec_is_newer(a, a),
        spec_is_newer(a, b) ==> !spec_is_newer(b, a),
        spec_is_newer(a, b) && spec_is_newer(b, c) ==> spec_is_newer(a, c),
{
}

/// Splitting `c` followed by `r`, where `c` is not the separator, gives
/// the fields of `r` with `c` put in front of the first one.
proof fn lemma_split_prefix(c: char, r: Seq<char>, sep: char)
    requires
        c != sep,
    ensures
        split_fields(seq![c] + r, sep) == split_fields(r, sep).update(
            0,
            seq![c] + split_fields(r, sep)[0],
        ),
    decreases r.len(),
{
    let s = seq![c] + r;
    if r.len() == 0 {
        assert(s.drop_last() =~= Seq::<char>::empty());
        assert(r =~= Seq::<char>::empty());
        assert(s.last() == c);
        assert(split_fields(s.drop_last(), sep) == seq![Seq::<char>::empty()]);
        assert(Seq::<char>::empty().push(c) =~= seq![c] + Seq::<char>::empty());
        assert(split_fields(s, sep) =~= split_fields(r, sep).update(0, seq![c] + split_fields(r, sep)[0]));
    } else {
        lemma_split_prefix(c, r.drop_last(), sep);
        lemma_split_fields_nonempty(r.drop_last(), sep);
        assert(s.drop_last() =~= seq![c] + r.drop_last());
        assert(s.last() == r.last());
        let f = split_fields(r.drop_last(), sep);
        let g = f.update(0, seq![c] + f[0]);
        if r.last() == sep {
            assert(split_fields(s, sep) =~= split_fields(r, sep).update(0, seq![c] + split_fields(r, sep)[0]));
        } else if f.len() == 1 {
            assert(g.last() == seq![c] + f[0]);
            assert((seq![c] + f[0]).push(r.last()) =~= seq![c] + f[0].push(r.last()));
            assert(split_fields(s, sep) =~= split_fields(r, sep).update(0, seq![c] + split_fields(r, sep)[0]));
        } else {
            assert(split_fields(s, sep) =~= split_fields(r, sep).update(0, seq![c] + split_fields(r, sep)[0]));
        }
    }
}

/// A list of fields whose first field is not a number has no numeric
/// parts.
proof fn lemma_first_field_fails(fields: Seq<Seq<char>>)
    requires
        fields.len() >= 1,
        parse_unsigned(fields[0], u32::MAX as nat) is None,
    ensures
        parsed_fields(fields) is None,
    decreases fields.len(),
{
    if fields.len() > 1 {
        lemma_first_field_fails(fields.drop_last());
    }
}

/// A version string that starts with `v` is malformed: the field that
/// holds the `v` is not a number.
proof fn lemma_v_prefix_malformed(r: Seq<char>)
    ensures
        version_parts(seq!['v'] + r) is None,
{
    lemma_split_prefix('v', r, '.');
    lemma_split_fields_nonempty(r, '.');
    let f = split_fields(r, '.');
    let g = split_fields(seq!['v'] + r, '.');
    assert(g[0] == seq!['v'] + f[0]);
    assert(!is_digit((seq!['v'] + f[0])[0]));
    assert(parse_unsigned(seq!['v'] + f[0], u32::MAX as nat) is None);
    lemma_first_field_fails(g);
}

/// An update is never offered to the version that was released: a
/// release whose tag is the local version, with or without a leading
/// `v`, is not reported as an update.
pub proof fn lemma_no_update_to_same_version(json: Seq<char>, local: Seq<char>)
    requires
        spec_extract_tag_name(json) == Some(local) || spec_extract_tag_name(json) == Some(seq!['v'] + local),
    ensures
        spec_check_for_update(json, local) is None,
{
    if spec_extract_tag_name(json) == Some(seq!['v'] + local) {
        assert((seq!['v'] + local).drop_first() =~= local);
    } else if local.len() > 0 && local[0] == 'v' {
        assert(local =~= seq!['v'] + local.drop_first());
        lemma_v_prefix_malformed(local.drop_first());
    }
}


/// Between two well-formed versions of three numbers each, the major
/// number decides first, then the minor, then the patch: a higher major
/// is newer and a lower one is not, whatever follows; with equal majors a
/// higher minor is newer and a lower one is not, whatever the patches;
/// with equal majors and minors, the higher patch is newer.
pub proof fn lemma_newer_is_lexicographic(remote: Seq<char>, local: Seq<char>)
    requires
        version_parts(remote) matches Some(r) && r.len() == 3,
        version_parts(local) matches Some(l) && l.len() == 3,
    ensures
        ({
            let r = version_parts(remote)->0;
            let l = version_parts(local)->0;
            &&& r[0] > l[0] ==> spec_is_newer(remote, local)
            &&& r[0] < l[0] ==> !spec_is_newer(remote, local)
            &&& r[0] == l[0] && r[1] > l[1] ==> spec_is_newer(remote, local)
            &&& r[0] == l[0] && r[1] < l[1] ==> !spec_is_newer(remote, local)
            &&& r[0] == l[0] && r[1] == l[1] ==> (spec_is_newer(remote, local) <==> r[2] > l[2])
        }),
{
}


/// The fields put back together with `sep` between them.
pub open spec fn joined(fields: Seq<Seq<char>>, sep: char) -> Seq<char>
    decreases fields.len(),
{
    if fields.len() <= 1 {
        if fields.len() == 1 {
            fields[0]
        } else {
            Seq::<char>::empty()
        }
    } else {
        joined(fields.drop_last(), sep).push(sep) + fields.last()
    }
}

/// Splitting a string at `sep` loses and invents nothing: no field holds
/// `sep`, and the fields joined with `sep` give the string back.
pub proof fn lemma_split_rejoins(s: Seq<char>, sep: char)
    ensures
        split_fields(s, sep).len() >= 1,
        forall|i: int, j: int|
            0 <= i < split_fields(s, sep).len() && 0 <= j < split_fields(s, sep)[i].len()
                ==> #[trigger] split_fields(s, sep)[i][j] != sep,
        joined(split_fields(s, sep), sep) == s,
    decreases s.len(),
{
    if s.len() > 0 {
        let f = split_fields(s.drop_last(), sep);
        lemma_split_rejoins(s.drop_last(), sep);
        let g = split_fields(s, sep);
        if s.last() == sep {
            assert(g.drop_last() =~= f);
            assert(g.last() =~= Seq::<char>::empty());
            assert(joined(g, sep) =~= joined(f, sep).push(sep));
            assert(s =~= s.drop_last().push(sep));
            assert forall|i: int, j: int| 0 <= i < g.len() && 0 <= j < g[i].len() implies #[trigger] g[i][j] != sep by {
                assert(g[i] == f[i]);
            }
        } else {
            let last = f.last().push(s.last());
            assert(g == f.update(f.len() - 1, last));
            assert forall|i: int, j: int| 0 <= i < g.len() && 0 <= j < g[i].len() implies #[trigger] g[i][j] != sep by {
                if i < f.len() - 1 {
                    assert(g[i] == f[i]);
                } else if j < f.last().len() {
                    assert(g[i][j] == f[f.len() - 1][j]);
                }
            }
            if f.len() == 1 {
                assert(joined(g, sep) == g[0]);
                assert(s =~= f[0].push(s.last()));
            } else {
                assert(g.drop_last() =~= f.drop_last());
                assert(joined(g, sep) == joined(f.drop_last(), sep).push(sep) + last);
                assert(joined(f, sep) == joined(f.drop_last(), sep).push(sep) + f.last());
                assert(joined(g, sep) =~= joined(f, sep).push(s.last()));
                assert(s =~= s.drop_last().push(s.last()));
            }
        }
    }
}

/// The fields parse exactly when each of them parses as a `u32` on its
/// own, and then there is one value per field, in order.
pub proof fn lemma_parsed_fields_each(fields: Seq<Seq<char>>)
    ensures
        parsed_fields(fields) is Some <==> forall|i: int|
            0 <= i < fields.len() ==> (#[trigger] parse_unsigned(fields[i], u32::MAX as nat)) is Some,
        parsed_fields(fields) matches Some(v) ==> v.len() == fields.len() && forall|i: int|
            0 <= i < fields.len() ==> parse_unsigned(fields[i], u32::MAX as nat) == Some(#[trigger] v[i]),
    decreases fields.len(),
{
    if fields.len() > 0 {
        let d = fields.drop_last();
        lemma_parsed_fields_each(d);
        assert forall|i: int| 0 <= i < d.len() implies d[i] == fields[i] by {}
        if !(forall|i: int| 0 <= i < fields.len() ==> (#[trigger] parse_unsigned(fields[i], u32::MAX as nat)) is Some) {
            let i = choose|i: int| 0 <= i < fields.len() && !((#[trigger] parse_unsigned(fields[i], u32::MAX as nat)) is Some);
            if i < d.len() {
                assert(parse_unsigned(d[i], u32::MAX as nat) is None);
            }
        }
        if forall|i: int| 0 <= i < fields.len() ==> (#[trigger] parse_unsigned(fields[i], u32::MAX as nat)) is Some {
            assert forall|i: int| 0 <= i < d.len() implies (#[trigger] parse_unsigned(d[i], u32::MAX as nat)) is Some by {
                assert(d[i] == fields[i]);
                assert(parse_unsigned(fields[i], u32::MAX as nat) is Some);
            }
            assert(parse_unsigned(fields[fields.len() - 1], u32::MAX as nat) is Some);
        }
        if parsed_fields(fields) is Some {
            let v = parsed_fields(fields)->0;
            let w = parsed_fields(d)->0;
            assert(v == w.push(parse_unsigned(fields.last(), u32::MAX as nat)->0));
            assert forall|i: int| 0 <= i < fields.len() implies parse_unsigned(fields[i], u32::MAX as nat) == Some(#[trigger] v[i]) by {
                if i < d.len() {
                    assert(v[i] == w[i]);
                    assert(d[i] == fields[i]);
                }
            }
        }
    }
}

} // verus!
