//! Verified string helpers shared by the router and the provisioner.
//!
//! Requests, path patterns, query strings and connection strings are all
//! read by splitting on a separator character; the split is specified by
//! [`spec_split`] and located by [`find_char`].

use vstd::prelude::*;

verus! {

use vstd::string::StrSliceExecFns;

/// The views of a vector of strings.
pub open spec fn views_of(v: Seq<String>) -> Seq<Seq<char>> {
    v.map_values(|t: String| t@)
}

/// Index of the first occurrence of `sep` in `s`, or -1 when absent.
pub open spec fn find_char(s: Seq<char>, sep: char) -> int
    decreases s.len(),
{
    if s.len() == 0 {
        -1
    } else if s[0] == sep {
        0
    } else {
        let r = find_char(s.drop_first(), sep);
        if r == -1 {
            -1
        } else {
            r + 1
        }
    }
}

/// What `find_char` returns: the least index holding `sep`, or -1.
pub proof fn lemma_find_char_props(s: Seq<char>, sep: char)
    ensures
        find_char(s, sep) == -1 ==> (forall|i: int| 0 <= i < s.len() ==> s[i] != sep),
        find_char(s, sep) != -1 ==> {
            let r = find_char(s, sep);
            &&& 0 <= r < s.len()
            &&& s[r] == sep
            &&& forall|j: int| 0 <= j < r ==> s[j] != sep
        },
    decreases s.len(),
{
    if s.len() > 0 && s[0] != sep {
        lemma_find_char_props(s.drop_first(), sep);
        assert forall|i: int| 0 <= i < s.len() && find_char(s, sep) == -1 implies s[i] != sep by {
            if i > 0 {
                assert(s.drop_first()[i - 1] == s[i]);
            }
        }
        if find_char(s, sep) != -1 {
            let r = find_char(s, sep);
            assert(s.drop_first()[r - 1] == s[r]);
            assert forall|j: int| 0 <= j < r implies s[j] != sep by {
                if j > 0 {
                    assert(s.drop_first()[j - 1] == s[j]);
                }
            }
        }
    }
}

/// A scan that saw no `sep` up to `i`, then `sep` at `i`, found the first one.
pub proof fn lemma_find_char_at(s: Seq<char>, sep: char, i: int)
    requires
        0 <= i < s.len(),
        s[i] == sep,
        forall|j: int| 0 <= j < i ==> s[j] != sep,
    ensures
        find_char(s, sep) == i,
    decreases i,
{
    if i > 0 {
        assert forall|j: int| 0 <= j < i - 1 implies s.drop_first()[j] != sep by {
            assert(s.drop_first()[j] == s[j + 1]);
        }
        assert(s.drop_first()[i - 1] == s[i]);
        lemma_find_char_at(s.drop_first(), sep, i - 1);
    }
}

/// A scan that saw no `sep` anywhere finds none.
pub proof fn lemma_find_char_none(s: Seq<char>, sep: char)
    requires
        forall|j: int| 0 <= j < s.len() ==> s[j] != sep,
    ensures
        find_char(s, sep) == -1,
    decreases s.len(),
{
    if s.len() > 0 {
        assert forall|j: int| 0 <= j < s.len() - 1 implies s.drop_first()[j] != sep by {
            assert(s.drop_first()[j] == s[j + 1]);
        }
        lemma_find_char_none(s.drop_first(), sep);
    }
}

/// The segments of `s` between occurrences of `sep`, separators dropped.
/// Always at least one segment; empty input gives one empty segment.
pub open spec fn spec_split(s: Seq<char>, sep: char) -> Seq<Seq<char>>
    decreases s.len(),
{
    if s.len() == 0 {
        seq![Seq::<char>::empty()]
    } else if s[0] == sep {
        seq![Seq::<char>::empty()].add(spec_split(s.drop_first(), sep))
    } else {
        let rest = spec_split(s.drop_first(), sep);
        seq![seq![s[0]].add(rest[0])].add(rest.drop_first())
    }
}

/// A split yields at least one segment.
pub proof fn lemma_split_nonempty(s: Seq<char>, sep: char)
    ensures
        spec_split(s, sep).len() >= 1,
    decreases s.len(),
{
    if s.len() > 0 {
        lemma_split_nonempty(s.drop_first(), sep);
    }
}

/// With no separator present, the whole string is the one segment.
pub proof fn lemma_split_no_sep(s: Seq<char>, sep: char)
    requires
        find_char(s, sep) == -1,
    ensures
        spec_split(s, sep) == seq![s],
    decreases s.len(),
{
    if s.len() == 0 {
        assert(s =~= Seq::<char>::empty());
        assert(spec_split(s, sep) =~= seq![s]);
    } else {
        lemma_find_char_props(s.drop_first(), sep);
        assert(s[0] != sep);
        assert(find_char(s.drop_first(), sep) == -1);
        lemma_split_no_sep(s.drop_first(), sep);
        let rest = spec_split(s.drop_first(), sep);
        assert(rest == seq![s.drop_first()]);
        assert(seq![s[0]].add(rest[0]) =~= s);
        assert(rest.drop_first() =~= Seq::<Seq<char>>::empty());
        assert(spec_split(s, sep) =~= seq![s]);
    }
}

/// Splitting at the first separator: head segment, then the split of the rest.
pub proof fn lemma_split_at_sep(s: Seq<char>, sep: char, i: int)
    requires
        find_char(s, sep) == i,
        0 <= i < s.len(),
    ensures
        spec_split(s, sep) == seq![s.take(i)].add(spec_split(s.skip(i + 1), sep)),
    decreases s.len(),
{
    lemma_find_char_props(s, sep);
    if i == 0 {
        assert(s.take(0) =~= Seq::<char>::empty());
        assert(s.skip(1) =~= s.drop_first());
    } else {
        assert(s.drop_first()[i - 1] == s[i]);
        assert forall|j: int| 0 <= j < i - 1 implies s.drop_first()[j] != sep by {
            assert(s.drop_first()[j] == s[j + 1]);
        }
        lemma_find_char_at(s.drop_first(), sep, i - 1);
        lemma_split_at_sep(s.drop_first(), sep, i - 1);
        let rest = spec_split(s.drop_first(), sep);
        lemma_split_nonempty(s.drop_first().skip(i), sep);
        assert(rest == seq![s.drop_first().take(i - 1)].add(spec_split(s.drop_first().skip(i), sep)));
        assert(seq![s[0]].add(rest[0]) =~= s.take(i));
        assert(s.drop_first().skip(i) =~= s.skip(i + 1));
        assert(rest.drop_first() =~= spec_split(s.skip(i + 1), sep));
        assert(spec_split(s, sep) =~= seq![s.take(i)].add(spec_split(s.skip(i + 1), sep)));
    }
}

/// True exactly when the two string slices hold the same characters.
pub fn str_eq(a: &str, b: &str) -> (r: bool)
    ensures
        r == (a@ == b@),
{
    let sa: String = a.to_owned();
    let sb: String = b.to_owned();
    sa == sb
}

/// Position of the first occurrence of `sep` in `s`, if any.
pub fn find_char_at(s: &str, sep: char) -> (r: Option<usize>)
    ensures
        match r {
            Some(i) => find_char(s@, sep) == i as int,
            None => find_char(s@, sep) == -1,
        },
{
    let n = s.unicode_len();
    let mut i: usize = 0;
    while i < n
        invariant
            0 <= i <= n,
            n == s@.len(),
            forall|j: int| 0 <= j < i ==> s@[j] != sep,
        decreases n - i,
    {
        if s.get_char(i) == sep {
            proof {
                lemma_find_char_at(s@, sep, i as int);
            }
            return Some(i);
        }
        i = i + 1;
    }
    proof {
        lemma_find_char_none(s@, sep);
    }
    None
}

/// Splits `s` on `sep` into owned segments, separators dropped.
pub fn split_str(s: &str, sep: char) -> (r: Vec<String>)
    ensures
        views_of(r@) == spec_split(s@, sep),
        r@.len() >= 1,
    decreases s@.len(),
{
    let n = s.unicode_len();
    match find_char_at(s, sep) {
        None => {
            proof {
                lemma_split_no_sep(s@, sep);
            }
            let mut r: Vec<String> = Vec::new();
            r.push(s.to_owned());
            assert(views_of(r@) =~= spec_split(s@, sep));
            r
        },
        Some(i) => {
            proof {
                lemma_find_char_props(s@, sep);
                lemma_split_at_sep(s@, sep, i as int);
            }
            let head = s.substring_char(0, i);
            let tail = s.substring_char(i + 1, n);
            assert(tail@ == s@.skip(i + 1));
            let mut r: Vec<String> = Vec::new();
            r.push(head.to_owned());
            let mut rest = split_str(tail, sep);
            r.append(&mut rest);
            assert(head@ == s@.take(i as int));
            assert(views_of(r@) =~= spec_split(s@, sep));
            r
        },
    }
}

/// Splits `s` at the first occurrence of `sep`; `None` when `sep` is absent.
pub fn split_first(s: &str, sep: char) -> (r: Option<(String, String)>)
    ensures
        match r {
            Some(p) => {
                let i = find_char(s@, sep);
                &&& i >= 0
                &&& p.0@ == s@.take(i)
                &&& p.1@ == s@.skip(i + 1)
            },
            None => find_char(s@, sep) == -1,
        },
{
    let n = s.unicode_len();
    match find_char_at(s, sep) {
        None => None,
        Some(i) => {
            proof {
                lemma_find_char_props(s@, sep);
            }
            let head = s.substring_char(0, i);
            let tail = s.substring_char(i + 1, n);
            Some((head.to_owned(), tail.to_owned()))
        },
    }
}

/// The views of a vector of string pairs.
pub open spec fn pairs_view(v: Seq<(String, String)>) -> Seq<(Seq<char>, Seq<char>)> {
    v.map_values(|p: (String, String)| (p.0@, p.1@))
}

/// The value beside the first occurrence of `k` in an ordered pair list.
pub open spec fn lookup_pairs(s: Seq<(Seq<char>, Seq<char>)>, k: Seq<char>) -> Option<Seq<char>>
    decreases s.len(),
{
    if s.len() == 0 {
        None
    } else if s[0].0 == k {
        Some(s[0].1)
    } else {
        lookup_pairs(s.drop_first(), k)
    }
}

/// Looking a key up in a concatenation: the left part is searched first.
pub proof fn lemma_lookup_concat(a: Seq<(Seq<char>, Seq<char>)>, b: Seq<(Seq<char>, Seq<char>)>, k: Seq<char>)
    ensures
        lookup_pairs(a + b, k) == match lookup_pairs(a, k) {
            Some(v) => Some(v),
            None => lookup_pairs(b, k),
        },
    decreases a.len(),
{
    if a.len() == 0 {
        assert(a + b =~= b);
    } else {
        assert((a + b)[0] == a[0]);
        assert((a + b).drop_first() =~= a.drop_first() + b);
        lemma_lookup_concat(a.drop_first(), b, k);
    }
}

/// A key no entry carries is not found.
pub proof fn lemma_lookup_absent(s: Seq<(Seq<char>, Seq<char>)>, k: Seq<char>)
    requires
        forall|i: int| 0 <= i < s.len() ==> (#[trigger] s[i]).0 != k,
    ensures
        lookup_pairs(s, k) is None,
    decreases s.len(),
{
    if s.len() > 0 {
        assert forall|i: int| 0 <= i < s.len() - 1 implies (#[trigger] s.drop_first()[i]).0 != k by {
            assert(s.drop_first()[i] == s[i + 1]);
        }
        lemma_lookup_absent(s.drop_first(), k);
    }
}

/// The first entry carrying the key decides the lookup.
pub proof fn lemma_lookup_first(s: Seq<(Seq<char>, Seq<char>)>, i: int, k: Seq<char>)
    requires
        0 <= i < s.len(),
        s[i].0 == k,
        forall|j: int| 0 <= j < i ==> (#[trigger] s[j]).0 != k,
    ensures
        lookup_pairs(s, k) == Some(s[i].1),
    decreases i,
{
    if i > 0 {
        assert forall|j: int| 0 <= j < i - 1 implies (#[trigger] s.drop_first()[j]).0 != k by {
            assert(s.drop_first()[j] == s[j + 1]);
        }
        assert(s.drop_first()[i - 1] == s[i]);
        lemma_lookup_first(s.drop_first(), i - 1, k);
    }
}

/// Finds the first entry with the given key in an ordered pair list.
pub fn lookup_pair(entries: &Vec<(String, String)>, key: &str) -> (r: Option<String>)
    ensures
        match r {
            Some(v) => lookup_pairs(pairs_view(entries@), key@) == Some(v@),
            None => lookup_pairs(pairs_view(entries@), key@) is None,
        },
{
    let ghost full = pairs_view(entries@);
    assert(full.skip(0) =~= full);
    let mut i: usize = 0;
    while i < entries.len()
        invariant
            0 <= i <= entries@.len(),
            full == pairs_view(entries@),
            lookup_pairs(full, key@) == lookup_pairs(full.skip(i as int), key@),
        decreases entries@.len() - i,
    {
        assert(full.skip(i as int)[0] == full[i as int]);
        assert(full.skip(i as int).drop_first() =~= full.skip(i as int + 1));
        if str_eq(entries[i].0.as_str(), key) {
            let v = entries[i].1.clone();
            return Some(v);
        }
        i = i + 1;
    }
    assert(full.skip(i as int) =~= Seq::<(Seq<char>, Seq<char>)>::empty());
    None
}

/// The key of one `key=value` piece; the whole piece when `=` is absent.
pub open spec fn kv_key(p: Seq<char>) -> Seq<char> {
    let i = find_char(p, '=');
    if i == -1 {
        p
    } else {
        p.take(i)
    }
}

/// The value of one `key=value` piece; empty when `=` is absent.
pub open spec fn kv_val(p: Seq<char>) -> Seq<char> {
    let i = find_char(p, '=');
    if i == -1 {
        Seq::empty()
    } else {
        p.skip(i + 1)
    }
}

/// The value beside the first piece whose key is `key`, scanning from `i`.
pub open spec fn find_kv(pieces: Seq<Seq<char>>, key: Seq<char>, i: int) -> Option<Seq<char>>
    decreases pieces.len() - i,
{
    if i < 0 || i >= pieces.len() {
        None
    } else if kv_key(pieces[i]) == key {
        Some(kv_val(pieces[i]))
    } else {
        find_kv(pieces, key, i + 1)
    }
}

/// Scans `key=value` pieces for the first one keyed `key` and hands its
/// value back.
pub fn find_kv_value(pieces: &Vec<String>, key: &str) -> (r: Option<String>)
    ensures
        match r {
            Some(v) => find_kv(views_of(pieces@), key@, 0) == Some(v@),
            None => find_kv(views_of(pieces@), key@, 0) is None,
        },
{
    let ghost pv = views_of(pieces@);
    let mut i: usize = 0;
    while i < pieces.len()
        invariant
            0 <= i <= pieces@.len(),
            pv == views_of(pieces@),
            find_kv(pv, key@, 0) == find_kv(pv, key@, i as int),
        decreases pieces@.len() - i,
    {
        let p = pieces[i].as_str();
        proof {
            assert(p@ == pv[i as int]);
        }
        match split_first(p, '=') {
            Some(kv) => {
                if str_eq(kv.0.as_str(), key) {
                    proof {
                        assert(kv_key(pv[i as int]) == key@);
                        assert(kv_val(pv[i as int]) == kv.1@);
                    }
                    return Some(kv.1);
                } else {
                    proof {
                        assert(kv_key(pv[i as int]) == kv.0@);
                    }
                }
            },
            None => {
                if str_eq(p, key) {
                    proof {
                        assert(kv_key(pv[i as int]) == key@);
                        assert(kv_val(pv[i as int]) == Seq::<char>::empty());
                    }
                    return Some(String::new());
                } else {
                    proof {
                        assert(kv_key(pv[i as int]) == p@);
                    }
                }
            },
        }
        i = i + 1;
    }
    None
}

/// A name for what `str::to_lowercase` returns on a given string.
pub uninterp spec fn lower_of(s: Seq<char>) -> Seq<char>;

/// Relies on str::to_lowercase: the lowercased form depends on the
/// characters of the input alone.
#[verifier::external_body]
pub(crate) fn lowercase(s: &str) -> (r: String)
    ensures
        r@ == lower_of(s@),
{
    s.to_lowercase()
}

} // verus!
