//! Verified string helpers shared by the whole crate.
//!
//! Everything here is executable code proved against specs over `Seq<char>`:
//! no call leaves the crate.

use vstd::prelude::*;
use vstd::string::StrSliceExecFns;
use vstd::string::StringExecFns;

verus! {

/// The space-joined concatenation of a sequence of strings, in order,
/// keeping duplicates: the mathematical form of dependency aggregation.
pub open spec fn spec_space_join(ls: Seq<Seq<char>>) -> Seq<char>
    decreases ls.len(),
{
    if ls.len() == 0 {
        Seq::empty()
    } else if ls.len() == 1 {
        ls[0]
    } else {
        spec_space_join(ls.drop_last()) + seq![' '] + ls.last()
    }
}

/// Joins the strings of `v` with single spaces, in order, keeping duplicates.
pub fn join_space(v: &Vec<String>) -> (r: String)
    ensures
        r@ == spec_space_join(v.deep_view()),
{
    let ghost all: Seq<Seq<char>> = v.deep_view();
    let mut r = String::new();
    let mut i: usize = 0;
    proof {
        reveal_strlit(" ");
        assert(all.take(0int) =~= Seq::<Seq<char>>::empty());
    }
    while i < v.len()
        invariant
            i <= v.len(),
            all == v.deep_view(),
            all.len() == v.len(),
            r@ == spec_space_join(all.take(i as int)),
        decreases v.len() - i,
    {
        proof {
            reveal_strlit(" ");
            assert(all[i as int] == v[i as int]@);
            if i > 0 {
                assert(all.take(i + 1).drop_last() =~= all.take(i as int));
                assert(all.take(i + 1).last() == all[i as int]);
            } else {
                assert(all.take(1int) =~= seq![all[0int]]);
            }
        }
        if i > 0 {
            r.append(" ");
        }
        r.append(v[i].as_str());
        i += 1;
    }
    proof {
        assert(all.take(v.len() as int) =~= all);
    }
    r
}

/// Equality of two string slices, decided character by character.
pub fn str_eq(a: &str, b: &str) -> (r: bool)
    ensures
        r == (a@ == b@),
{
    let alen = a.unicode_len();
    let blen = b.unicode_len();
    if alen != blen {
        return false;
    }
    let mut i: usize = 0;
    while i < alen
        invariant
            alen == a@.len(),
            blen == b@.len(),
            alen == blen,
            i <= alen,
            forall|k: int| 0 <= k < i ==> a@[k] == b@[k],
        decreases alen - i,
    {
        if a.get_char(i) != b.get_char(i) {
            return false;
        }
        i += 1;
    }
    proof {
        assert(a@ =~= b@);
    }
    true
}

pub open spec fn spec_starts_with(s: Seq<char>, p: Seq<char>) -> bool {
    p.len() <= s.len() && s.take(p.len() as int) == p
}

pub open spec fn spec_ends_with(s: Seq<char>, p: Seq<char>) -> bool {
    p.len() <= s.len() && s.skip(s.len() - p.len()) == p
}

/// Whether `s` starts with the prefix `p`.
pub fn str_starts_with(s: &str, p: &str) -> (r: bool)
    ensures
        r == spec_starts_with(s@, p@),
{
    let slen = s.unicode_len();
    let plen = p.unicode_len();
    if plen > slen {
        proof {
            assert(!spec_starts_with(s@, p@));
        }
        return false;
    }
    let mut i: usize = 0;
    while i < plen
        invariant
            slen == s@.len(),
            plen == p@.len(),
            plen <= slen,
            i <= plen,
            forall|k: int| 0 <= k < i ==> s@[k] == p@[k],
        decreases plen - i,
    {
        if s.get_char(i) != p.get_char(i) {
            proof {
                assert(s@.take(p@.len() as int)[i as int] != p@[i as int]);
            }
            return false;
        }
        i += 1;
    }
    proof {
        assert(s@.take(p@.len() as int) =~= p@);
    }
    true
}

/// Whether `s` ends with the suffix `p`.
pub fn str_ends_with(s: &str, p: &str) -> (r: bool)
    ensures
        r == spec_ends_with(s@, p@),
{
    let slen = s.unicode_len();
    let plen = p.unicode_len();
    if plen > slen {
        proof {
            assert(!spec_ends_with(s@, p@));
        }
        return false;
    }
    let off = slen - plen;
    let mut i: usize = 0;
    while i < plen
        invariant
            slen == s@.len(),
            plen == p@.len(),
            plen <= slen,
            off == slen - plen,
            i <= plen,
            forall|k: int| 0 <= k < i ==> s@[off + k] == p@[k],
        decreases plen - i,
    {
        if s.get_char(off + i) != p.get_char(i) {
            proof {
                assert(s@.skip(s@.len() - p@.len())[i as int] != p@[i as int]);
            }
            return false;
        }
        i += 1;
    }
    proof {
        assert(s@.skip(s@.len() - p@.len()) =~= p@);
    }
    true
}

/// The concatenation of two strings.
pub fn scat2(a: &str, b: &str) -> (r: String)
    ensures
        r@ == a@ + b@,
{
    let mut r = String::new();
    r.append(a);
    r.append(b);
    proof {
        assert(r@ =~= a@ + b@);
    }
    r
}

/// The concatenation of three strings.
pub fn scat3(a: &str, b: &str, c: &str) -> (r: String)
    ensures
        r@ == a@ + b@ + c@,
{
    let mut r = String::new();
    r.append(a);
    r.append(b);
    r.append(c);
    proof {
        assert(r@ =~= a@ + b@ + c@);
    }
    r
}

/// The concatenation of four strings.
pub fn scat4(a: &str, b: &str, c: &str, d: &str) -> (r: String)
    ensures
        r@ == a@ + b@ + c@ + d@,
{
    let mut r = String::new();
    r.append(a);
    r.append(b);
    r.append(c);
    r.append(d);
    proof {
        assert(r@ =~= a@ + b@ + c@ + d@);
    }
    r
}

/// The concatenation of five strings.
pub fn scat5(a: &str, b: &str, c: &str, d: &str, e: &str) -> (r: String)
    ensures
        r@ == a@ + b@ + c@ + d@ + e@,
{
    let mut r = String::new();
    r.append(a);
    r.append(b);
    r.append(c);
    r.append(d);
    r.append(e);
    proof {
        assert(r@ =~= a@ + b@ + c@ + d@ + e@);
    }
    r
}

pub open spec fn spec_pad_right(s: Seq<char>, width: nat) -> Seq<char> {
    if s.len() >= width {
        s
    } else {
        s + Seq::new((width - s.len()) as nat, |i: int| ' ')
    }
}

/// Pads `s` with spaces on the right up to `width` characters.
pub fn pad_right(s: &str, width: usize) -> (r: String)
    ensures
        r@ == spec_pad_right(s@, width as nat),
        r@.len() >= width,
        r@.len() >= s@.len(),
{
    let mut r = String::new();
    r.append(s);
    let mut n = s.unicode_len();
    proof {
        assert(r@ =~= s@ + Seq::new(0nat, |i: int| ' '));
    }
    while n < width
        invariant
            n >= s@.len(),
            n == r@.len(),
            s@.len() < n ==> n <= width,
            r@ == s@ + Seq::new((n - s@.len()) as nat, |i: int| ' '),
        decreases width - n,
    {
        proof {
            reveal_strlit(" ");
            assert(r@ + " "@ =~= s@ + Seq::new((n + 1 - s@.len()) as nat, |i: int| ' '));
        }
        r.append(" ");
        n += 1;
    }
    proof {
        if s@.len() >= width as nat {
            assert(r@ =~= s@);
        }
    }
    r
}

/// Lexicographic order on character sequences, by code point.
pub open spec fn spec_lex_le(a: Seq<char>, b: Seq<char>) -> bool
    decreases a.len(),
{
    if a.len() == 0 {
        true
    } else if b.len() == 0 {
        false
    } else if a[0] == b[0] {
        spec_lex_le(a.drop_first(), b.drop_first())
    } else {
        (a[0] as u32) < (b[0] as u32)
    }
}

pub proof fn lemma_lex_le_total(a: Seq<char>, b: Seq<char>)
    ensures
        spec_lex_le(a, b) || spec_lex_le(b, a),
    decreases a.len(),
{
    if a.len() != 0 && b.len() != 0 {
        if a[0] == b[0] {
            lemma_lex_le_total(a.drop_first(), b.drop_first());
        } else {
            assert(a[0] as u32 != b[0] as u32) by {
                vstd::utf8::char_u32_cast(a[0], a[0] as u32);
                vstd::utf8::char_u32_cast(b[0], b[0] as u32);
            }
        }
    }
}

pub proof fn lemma_lex_le_trans(a: Seq<char>, b: Seq<char>, c: Seq<char>)
    requires
        spec_lex_le(a, b),
        spec_lex_le(b, c),
    ensures
        spec_lex_le(a, c),
    decreases a.len(),
{
    if a.len() != 0 && b.len() != 0 && c.len() != 0 && a[0] == b[0] && b[0] == c[0] {
        lemma_lex_le_trans(a.drop_first(), b.drop_first(), c.drop_first());
    }
}

proof fn lemma_lex_le_skip(a: Seq<char>, b: Seq<char>, i: int)
    requires
        0 <= i <= a.len(),
        i <= b.len(),
        forall|k: int| 0 <= k < i ==> a[k] == b[k],
    ensures
        spec_lex_le(a, b) == spec_lex_le(a.skip(i), b.skip(i)),
    decreases i,
{
    if i > 0 {
        assert(a.len() > 0 && b.len() > 0 && a[0] == b[0]);
        assert(spec_lex_le(a, b) == spec_lex_le(a.drop_first(), b.drop_first()));
        assert(a.drop_first() =~= a.skip(1));
        assert(b.drop_first() =~= b.skip(1));
        lemma_lex_le_skip(a.skip(1), b.skip(1), i - 1);
        assert(a.skip(1).skip(i - 1) =~= a.skip(i));
        assert(b.skip(1).skip(i - 1) =~= b.skip(i));
    } else {
        assert(a.skip(0) =~= a);
        assert(b.skip(0) =~= b);
    }
}

/// Decides the lexicographic order between two strings.
pub fn str_lex_le(a: &str, b: &str) -> (r: bool)
    ensures
        r == spec_lex_le(a@, b@),
{
    let alen = a.unicode_len();
    let blen = b.unicode_len();
    let mut i: usize = 0;
    loop
        invariant
            alen == a@.len(),
            blen == b@.len(),
            i <= alen,
            i <= blen,
            forall|k: int| 0 <= k < i ==> a@[k] == b@[k],
        decreases alen - i,
    {
        proof {
            lemma_lex_le_skip(a@, b@, i as int);
        }
        if i == alen {
            proof {
                assert(a@.skip(i as int).len() == 0);
            }
            return true;
        }
        if i == blen {
            proof {
                assert(b@.skip(i as int).len() == 0);
                assert(a@.skip(i as int).len() > 0);
            }
            return false;
        }
        let ca = a.get_char(i);
        let cb = b.get_char(i);
        if ca != cb {
            proof {
                assert(a@.skip(i as int)[0] == a@[i as int]);
                assert(b@.skip(i as int)[0] == b@[i as int]);
            }
            return (ca as u32) < (cb as u32);
        }
        i += 1;
    }
}

pub open spec fn spec_sorted_lex(s: Seq<Seq<char>>) -> bool {
    forall|i: int, j: int| 0 <= i < j < s.len() ==> spec_lex_le(s[i], s[j])
}

/// Inserts `x` into the lexicographically sorted vector `out`, keeping it sorted.
fn insert_sorted(out: &mut Vec<String>, x: String)
    requires
        spec_sorted_lex(old(out).deep_view()),
    ensures
        spec_sorted_lex(final(out).deep_view()),
        final(out).deep_view().to_multiset() == old(out).deep_view().to_multiset().insert(x@),
        final(out).len() == old(out).len() + 1,
{
    let ghost before: Seq<Seq<char>> = out.deep_view();
    let mut p: usize = 0;
    while p < out.len() && !str_lex_le(x.as_str(), out[p].as_str())
        invariant
            before == out.deep_view(),
            p <= out.len(),
            forall|k: int| 0 <= k < p ==> spec_lex_le(before[k], x@),
        decreases out.len() - p,
    {
        proof {
            lemma_lex_le_total(x@, before[p as int]);
        }
        p += 1;
    }
    out.insert(p, x);
    proof {
        let after = out.deep_view();
        assert(after =~= before.insert(p as int, x@));
        assert forall|k: int| p <= k < before.len() implies spec_lex_le(x@, before[k]) by {
            if k > p {
                lemma_lex_le_trans(x@, before[p as int], before[k]);
            }
        }
        assert forall|i: int, j: int| 0 <= i < j < after.len() implies spec_lex_le(
            after[i],
            after[j],
        ) by {
            if i < p && j > p {
                lemma_lex_le_trans(before[i], x@, before[j - 1]);
            }
        }
        broadcast use vstd::seq_lib::group_to_multiset_ensures;

        assert(after.remove(p as int) =~= before);
        assert(after.to_multiset().remove(x@) =~= before.to_multiset());
        assert(after.to_multiset().contains(x@));
        assert(after.to_multiset() =~= before.to_multiset().insert(x@));
    }
}

/// Sorts the strings of `v` lexicographically; the result is a permutation.
pub fn sort_strings(v: &Vec<String>) -> (r: Vec<String>)
    ensures
        spec_sorted_lex(r.deep_view()),
        r.deep_view().to_multiset() == v.deep_view().to_multiset(),
        r.len() == v.len(),
{
    let ghost all: Seq<Seq<char>> = v.deep_view();
    let mut r: Vec<String> = Vec::new();
    let mut i: usize = 0;
    proof {
        broadcast use vstd::seq_lib::group_to_multiset_ensures;

        assert(all.take(0int) =~= Seq::<Seq<char>>::empty());
        assert(r.deep_view() =~= Seq::<Seq<char>>::empty());
        assert(Seq::<Seq<char>>::empty().to_multiset() =~= all.take(0int).to_multiset());
    }
    while i < v.len()
        invariant
            all == v.deep_view(),
            all.len() == v.len(),
            i <= v.len(),
            spec_sorted_lex(r.deep_view()),
            r.deep_view().to_multiset() == all.take(i as int).to_multiset(),
            r.len() == i,
        decreases v.len() - i,
    {
        let x = v[i].clone();
        proof {
            broadcast use vstd::seq_lib::group_to_multiset_ensures;

            assert(x@ == all[i as int]);
            assert(all.take(i + 1).drop_last() =~= all.take(i as int));
            assert(all.take(i + 1) =~= all.take(i as int).push(all[i as int]));
        }
        insert_sorted(&mut r, x);
        i += 1;
    }
    proof {
        assert(all.take(v.len() as int) =~= all);
    }
    r
}

/// The first occurrence of the two-character marker `{}` in `s`,
/// replaced by `arg`; `s` itself when the marker does not occur.
pub open spec fn spec_fill_marker(s: Seq<char>, arg: Seq<char>) -> Seq<char>
    decreases s.len(),
{
    if s.len() < 2 {
        s
    } else if s[0] == '{' && s[1] == '}' {
        arg + s.skip(2)
    } else {
        seq![s[0]] + spec_fill_marker(s.drop_first(), arg)
    }
}

pub open spec fn marker_at(s: Seq<char>, i: int) -> bool {
    0 <= i && i + 2 <= s.len() && s[i] == '{' && s[i + 1] == '}'
}

proof fn lemma_fill_marker_skip(s: Seq<char>, arg: Seq<char>, i: int)
    requires
        0 <= i <= s.len(),
        forall|j: int| 0 <= j < i ==> !marker_at(s, j),
    ensures
        spec_fill_marker(s, arg) == s.take(i) + spec_fill_marker(s.skip(i), arg),
    decreases i,
{
    if i == 0 {
        assert(s.skip(0) =~= s);
        assert(s.take(0int) + spec_fill_marker(s, arg) =~= spec_fill_marker(s, arg));
    } else {
        assert(!marker_at(s, 0));
        let t = s.drop_first();
        assert(t =~= s.skip(1));
        if s.len() < 2 {
            assert(i == 1 && s.len() == 1);
            assert(spec_fill_marker(s, arg) == s);
            assert(s.take(1int) + spec_fill_marker(s.skip(1), arg) =~= s);
        } else {
            assert(spec_fill_marker(s, arg) == seq![s[0]] + spec_fill_marker(t, arg));
            assert forall|j: int| 0 <= j < i - 1 implies !marker_at(t, j) by {
                assert(t.len() == s.len() - 1);
                if j + 2 <= t.len() {
                    assert(t[j] == s[j + 1]);
                    assert(t[j + 1] == s[j + 2]);
                    assert(!marker_at(s, j + 1));
                }
            }
            lemma_fill_marker_skip(t, arg, i - 1);
            assert(t.skip(i - 1) =~= s.skip(i));
            assert(seq![s[0]] + (t.take(i - 1) + spec_fill_marker(s.skip(i), arg)) =~= s.take(i)
                + spec_fill_marker(s.skip(i), arg));
        }
    }
}

/// Replaces the first `{}` in `s` by `arg`, as the logger's message templates use it.
pub fn fill_marker(s: &str, arg: &str) -> (r: String)
    ensures
        r@ == spec_fill_marker(s@, arg@),
{
    let n = s.unicode_len();
    let mut i: usize = 0;
    while i < n && i + 1 < n
        invariant
            n == s@.len(),
            i <= n,
            forall|j: int| 0 <= j < i ==> !marker_at(s@, j),
        decreases n - i,
    {
        if s.get_char(i) == '{' && s.get_char(i + 1) == '}' {
            let prefix = s.substring_char(0, i);
            let suffix = s.substring_char(i + 2, n);
            let r = scat3(prefix, arg, suffix);
            proof {
                lemma_fill_marker_skip(s@, arg@, i as int);
                let rest = s@.skip(i as int);
                assert(rest[0] == '{' && rest[1] == '}');
                assert(spec_fill_marker(rest, arg@) == arg@ + rest.skip(2));
                assert(rest.skip(2) =~= s@.skip(i + 2));
                assert(prefix@ =~= s@.take(i as int));
                assert(suffix@ =~= s@.skip(i + 2));
                assert(r@ =~= s@.take(i as int) + (arg@ + s@.skip(i + 2)));
            }
            return r;
        }
        i += 1;
    }
    let mut r = String::new();
    r.append(s);
    proof {
        lemma_fill_marker_skip(s@, arg@, i as int);
        let rest = s@.skip(i as int);
        assert(rest.len() < 2);
        if rest.len() == 1 {
            assert(spec_fill_marker(rest, arg@) == rest);
        }
        assert(s@.take(i as int) + rest =~= s@);
        assert(r@ =~= s@);
    }
    r
}

} // verus!

use vstd::prelude::*;

verus! {

pub open spec fn spec_path_join(dir: Seq<char>, name: Seq<char>) -> Seq<char> {
    if dir.len() == 0 {
        name
    } else if dir.last() == '/' {
        dir + name
    } else {
        dir + seq!['/'] + name
    }
}

/// Joins a directory and a file name with a single separator,
/// as the platform path type displays it.
pub fn path_join(dir: &str, name: &str) -> (r: String)
    ensures
        r@ == spec_path_join(dir@, name@),
{
    let n = dir.unicode_len();
    if n == 0 {
        let mut r = String::new();
        r.append(name);
        proof {
            assert(r@ =~= name@);
        }
        return r;
    }
    if dir.get_char(n - 1) == '/' {
        scat2(dir, name)
    } else {
        let r = scat3(dir, "/", name);
        proof {
            reveal_strlit("/");
            assert(dir@ + "/"@ + name@ =~= dir@ + seq!['/'] + name@);
        }
        r
    }
}

/// The index of the last occurrence of `c` in `s`, or `-1` when absent.
pub open spec fn spec_last_index_of(s: Seq<char>, c: char) -> int
    decreases s.len(),
{
    if s.len() == 0 {
        -1
    } else if s.last() == c {
        s.len() - 1
    } else {
        spec_last_index_of(s.drop_last(), c)
    }
}

proof fn lemma_last_index_of_none(s: Seq<char>, c: char)
    requires
        forall|k: int| 0 <= k < s.len() ==> s[k] != c,
    ensures
        spec_last_index_of(s, c) == -1,
    decreases s.len(),
{
    if s.len() > 0 {
        lemma_last_index_of_none(s.drop_last(), c);
    }
}

proof fn lemma_last_index_of_at(s: Seq<char>, c: char, i: int)
    requires
        0 <= i < s.len(),
        s[i] == c,
        forall|k: int| i < k < s.len() ==> s[k] != c,
    ensures
        spec_last_index_of(s, c) == i,
    decreases s.len(),
{
    if i < s.len() - 1 {
        lemma_last_index_of_at(s.drop_last(), c, i);
    }
}

/// Finds the last occurrence of `c` in `s`.
pub fn last_index_of(s: &str, c: char) -> (r: Option<usize>)
    ensures
        match r {
            Some(i) => i == spec_last_index_of(s@, c) && i < s@.len(),
            None => spec_last_index_of(s@, c) == -1,
        },
{
    let n = s.unicode_len();
    let mut i = n;
    while i > 0
        invariant
            n == s@.len(),
            i <= n,
            forall|k: int| i <= k < n ==> s@[k] != c,
        decreases i,
    {
        i -= 1;
        if s.get_char(i) == c {
            proof {
                lemma_last_index_of_at(s@, c, i as int);
            }
            return Some(i);
        }
    }
    proof {
        lemma_last_index_of_none(s@, c);
    }
    None
}

/// The stem of the file named by the path `s`: the part of the last path
/// component before its extension, keeping a leading-dot name whole.
pub open spec fn spec_file_stem(s: Seq<char>) -> Seq<char> {
    let name = s.skip(spec_last_index_of(s, '/') + 1);
    let d = spec_last_index_of(name, '.');
    if d <= 0 {
        name
    } else {
        name.take(d)
    }
}

/// Extracts the application name from a descriptor path, as the
/// stem of its file name: `app/atom.yml` names the application `atom`.
pub fn file_stem(s: &str) -> (r: String)
    ensures
        r@ == spec_file_stem(s@),
{
    let n = s.unicode_len();
    let start: usize = match last_index_of(s, '/') {
        Some(i) => i + 1,
        None => 0,
    };
    let name = s.substring_char(start, n);
    proof {
        assert(name@ =~= s@.skip(spec_last_index_of(s@, '/') + 1));
    }
    let m = name.unicode_len();
    let stem = match last_index_of(name, '.') {
        Some(d) if d > 0 => name.substring_char(0, d),
        _ => name,
    };
    let mut r = String::new();
    r.append(stem);
    proof {
        let nm = s@.skip(spec_last_index_of(s@, '/') + 1);
        let d = spec_last_index_of(nm, '.');
        if d > 0 {
            assert(stem@ =~= nm.take(d));
        }
        assert(r@ =~= stem@);
    }
    r
}

pub open spec fn spec_digit_char(d: nat) -> char {
    if d == 0 {
        '0'
    } else if d == 1 {
        '1'
    } else if d == 2 {
        '2'
    } else if d == 3 {
        '3'
    } else if d == 4 {
        '4'
    } else if d == 5 {
        '5'
    } else if d == 6 {
        '6'
    } else if d == 7 {
        '7'
    } else if d == 8 {
        '8'
    } else {
        '9'
    }
}

fn digit_str(d: u32) -> (r: &'static str)
    requires
        d < 10,
    ensures
        r@ == seq![spec_digit_char(d as nat)],
{
    proof {
        reveal_strlit("0");
        reveal_strlit("1");
        reveal_strlit("2");
        reveal_strlit("3");
        reveal_strlit("4");
        reveal_strlit("5");
        reveal_strlit("6");
        reveal_strlit("7");
        reveal_strlit("8");
        reveal_strlit("9");
    }
    let r = match d {
        0 => "0",
        1 => "1",
        2 => "2",
        3 => "3",
        4 => "4",
        5 => "5",
        6 => "6",
        7 => "7",
        8 => "8",
        _ => "9",
    };
    proof {
        assert(r@ =~= seq![spec_digit_char(d as nat)]);
    }
    r
}

/// The decimal form of `n`, most significant digit first, no leading zeros.
pub open spec fn spec_dec(n: nat) -> Seq<char>
    decreases n,
{
    if n < 10 {
        seq![spec_digit_char(n)]
    } else {
        spec_dec(n / 10) + seq![spec_digit_char(n % 10)]
    }
}

/// Formats `n` in decimal.
pub fn u32_dec(n: u32) -> (r: String)
    ensures
        r@ == spec_dec(n as nat),
    decreases n,
{
    if n < 10 {
        let mut r = String::new();
        r.append(digit_str(n));
        proof {
            assert(r@ =~= seq![spec_digit_char(n as nat)]);
        }
        r
    } else {
        let mut r = u32_dec(n / 10);
        r.append(digit_str(n % 10));
        proof {
            assert(r@ =~= spec_dec((n / 10) as nat) + seq![spec_digit_char((n % 10) as nat)]);
        }
        r
    }
}

/// An ASCII decimal digit.
pub open spec fn spec_is_ascii_digit(c: char) -> bool {
    '0' as u32 <= c as u32 <= '9' as u32
}

/// Every character the digit formatter produces is a decimal digit.
pub proof fn lemma_digit_char_is_digit(d: nat)
    ensures
        spec_is_ascii_digit(spec_digit_char(d)),
{
}

/// The six-digit form holds decimal digits only.
pub proof fn lemma_six_digits_are_digits(n: nat)
    ensures
        forall|i: int| 0 <= i < 6 ==> spec_is_ascii_digit(#[trigger] spec_six_digits(n)[i]),
{
    assert forall|i: int| 0 <= i < 6 implies spec_is_ascii_digit(
        #[trigger] spec_six_digits(n)[i],
    ) by {
        lemma_digit_char_is_digit((n / 100000 % 10) as nat);
        lemma_digit_char_is_digit((n / 10000 % 10) as nat);
        lemma_digit_char_is_digit((n / 1000 % 10) as nat);
        lemma_digit_char_is_digit((n / 100 % 10) as nat);
        lemma_digit_char_is_digit((n / 10 % 10) as nat);
        lemma_digit_char_is_digit((n % 10) as nat);
    }
}

/// The six-digit, zero-padded decimal form of `n < 1000000`.
pub open spec fn spec_six_digits(n: nat) -> Seq<char> {
    seq![
        spec_digit_char(n / 100000 % 10),
        spec_digit_char(n / 10000 % 10),
        spec_digit_char(n / 1000 % 10),
        spec_digit_char(n / 100 % 10),
        spec_digit_char(n / 10 % 10),
        spec_digit_char(n % 10),
    ]
}

/// Formats `n` as exactly six decimal digits, zero padded on the left.
pub fn six_digits(n: u32) -> (r: String)
    requires
        n < 1000000,
    ensures
        r@ == spec_six_digits(n as nat),
        r@.len() == 6,
{
    let mut r = String::new();
    r.append(digit_str(n / 100000 % 10));
    r.append(digit_str(n / 10000 % 10));
    r.append(digit_str(n / 1000 % 10));
    r.append(digit_str(n / 100 % 10));
    r.append(digit_str(n / 10 % 10));
    r.append(digit_str(n % 10));
    proof {
        assert(r@ =~= spec_six_digits(n as nat));
    }
    r
}

} // verus!

verus! {

/// Whether `c` is one of the blank characters the prompt reader strips.
pub open spec fn spec_is_blank(c: char) -> bool {
    c == ' ' || c == '\t' || c == '\n' || c == '\r'
}

fn is_blank(c: char) -> (r: bool)
    ensures
        r == spec_is_blank(c),
{
    c == ' ' || c == '\t' || c == '\n' || c == '\r'
}

/// `s` without its leading blanks.
pub open spec fn spec_trim_front(s: Seq<char>) -> Seq<char>
    decreases s.len(),
{
    if s.len() > 0 && spec_is_blank(s[0]) {
        spec_trim_front(s.drop_first())
    } else {
        s
    }
}

/// `s` without its trailing blanks.
pub open spec fn spec_trim_back(s: Seq<char>) -> Seq<char>
    decreases s.len(),
{
    if s.len() > 0 && spec_is_blank(s.last()) {
        spec_trim_back(s.drop_last())
    } else {
        s
    }
}

/// `s` without its leading and trailing blanks.
pub open spec fn spec_trim(s: Seq<char>) -> Seq<char> {
    spec_trim_back(spec_trim_front(s))
}

proof fn lemma_trim_front_skip(s: Seq<char>, i: int)
    requires
        0 <= i <= s.len(),
        forall|k: int| 0 <= k < i ==> spec_is_blank(s[k]),
    ensures
        spec_trim_front(s) == spec_trim_front(s.skip(i)),
    decreases i,
{
    if i > 0 {
        assert(spec_is_blank(s[0]));
        assert(s.drop_first() =~= s.skip(1));
        lemma_trim_front_skip(s.skip(1), i - 1);
        assert(s.skip(1).skip(i - 1) =~= s.skip(i));
    } else {
        assert(s.skip(0) =~= s);
    }
}

proof fn lemma_trim_back_take(s: Seq<char>, i: int)
    requires
        0 <= i <= s.len(),
        forall|k: int| i <= k < s.len() ==> spec_is_blank(s[k]),
    ensures
        spec_trim_back(s) == spec_trim_back(s.take(i)),
    decreases s.len() - i,
{
    if i < s.len() {
        assert(spec_is_blank(s.last()));
        lemma_trim_back_take(s.drop_last(), i);
        assert(s.drop_last().take(i) =~= s.take(i));
    } else {
        assert(s.take(i) =~= s);
    }
}

/// Strips leading and trailing blanks from `s`: the space, tab, line feed
/// and carriage return characters.
pub fn trim_blanks(s: &str) -> (r: String)
    ensures
        r@ == spec_trim(s@),
{
    let n = s.unicode_len();
    let mut a: usize = 0;
    while a < n && is_blank(s.get_char(a))
        invariant
            n == s@.len(),
            a <= n,
            forall|k: int| 0 <= k < a ==> spec_is_blank(s@[k]),
        decreases n - a,
    {
        a += 1;
    }
    let mut b: usize = n;
    while b > a && is_blank(s.get_char(b - 1))
        invariant
            n == s@.len(),
            a <= b <= n,
            forall|k: int| b <= k < n ==> spec_is_blank(s@[k]),
        decreases b,
    {
        b -= 1;
    }
    let mid = s.substring_char(a, b);
    let mut r = String::new();
    r.append(mid);
    proof {
        lemma_trim_front_skip(s@, a as int);
        let t = s@.skip(a as int);
        assert(a < n ==> !spec_is_blank(s@[a as int]));
        if a < n {
            assert(t[0] == s@[a as int]);
            assert(spec_trim_front(t) == t);
        } else {
            assert(t.len() == 0);
            assert(spec_trim_front(t) == t);
        }
        assert(spec_trim(s@) == spec_trim_back(t));
        lemma_trim_back_take(t, b - a);
        let u = t.take(b - a);
        if b > a {
            assert(u.last() == s@[b - 1]);
            assert(!spec_is_blank(u.last()));
            assert(spec_trim_back(u) == u);
        } else {
            assert(u.len() == 0);
            assert(spec_trim_back(u) == u);
        }
        assert(mid@ =~= u);
        assert(r@ =~= mid@);
    }
    r
}

/// The directory part of the path `s`: what stands before its last slash.
pub fn parent_dir(s: &str) -> (r: Option<String>)
    ensures
        r matches Some(p) ==> spec_last_index_of(s@, '/') >= 0 && p@ == s@.take(
            spec_last_index_of(s@, '/'),
        ),
        r is None ==> spec_last_index_of(s@, '/') == -1,
{
    match last_index_of(s, '/') {
        Some(i) => {
            let p = s.substring_char(0, i);
            let mut r = String::new();
            r.append(p);
            proof {
                assert(r@ =~= s@.take(spec_last_index_of(s@, '/')));
            }
            Some(r)
        },
        None => None,
    }
}

} // verus!

verus! {

/// Whether `e` extends `o`: `o` is a prefix of `e`. The helper event logs
/// only ever grow, and every orchestration step promises this of them.
pub open spec fn seq_extends<A>(o: Seq<A>, e: Seq<A>) -> bool {
    o.len() <= e.len() && e.take(o.len() as int) == o
}

pub proof fn lemma_seq_extends_refl<A>(a: Seq<A>)
    ensures
        seq_extends(a, a),
{
    assert(a.take(a.len() as int) =~= a);
}

pub proof fn lemma_seq_extends_push<A>(o: Seq<A>, e: Seq<A>, x: A)
    requires
        seq_extends(o, e),
    ensures
        seq_extends(o, e.push(x)),
{
    assert(e.push(x).take(o.len() as int) =~= e.take(o.len() as int));
}

pub proof fn lemma_seq_extends_trans<A>(a: Seq<A>, b: Seq<A>, c: Seq<A>)
    requires
        seq_extends(a, b),
        seq_extends(b, c),
    ensures
        seq_extends(a, c),
{
    assert(c.take(a.len() as int) =~= c.take(b.len() as int).take(a.len() as int));
}

} // verus!

verus! {

pub proof fn lemma_seq_extends_push_self<A>(e: Seq<A>, x: A)
    ensures
        seq_extends(e, e.push(x)),
{
    lemma_seq_extends_refl(e);
    lemma_seq_extends_push(e, e, x);
}

} // verus!

verus! {

/// Pushing an element appends its deep view to the vector's deep view.
pub proof fn lemma_push_deep_view<T: DeepView>(prev: Vec<T>, now: Vec<T>, x: T)
    requires
        now@ == prev@.push(x),
    ensures
        now.deep_view() == prev.deep_view().push(x.deep_view()),
{
    assert forall|i: int| 0 <= i < now@.len() implies now.deep_view()[i]
        == prev.deep_view().push(x.deep_view())[i] by {
        if i < prev@.len() {
            assert(now@[i] == prev@[i]);
        } else {
            assert(now@[i] == x);
        }
    }
    assert(now.deep_view() =~= prev.deep_view().push(x.deep_view()));
}

} // verus!

verus! {

pub proof fn lemma_seq_extends_contains<A>(o: Seq<A>, e: Seq<A>, x: A)
    requires
        seq_extends(o, e),
        o.contains(x),
    ensures
        e.contains(x),
{
    let idx = choose|idx: int| 0 <= idx < o.len() && o[idx] == x;
    assert(e.take(o.len() as int)[idx] == e[idx]);
    assert(e[idx] == x);
}

} // verus!
