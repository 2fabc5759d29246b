//! The preset browser's list: the collections in the order they first
//! appear, and the presets that a collection choice and a name search keep.
use vstd::prelude::*;

use crate::text::{chars_equal, chars_of};

verus! {

/// What `str::to_lowercase` gives for a string: its Unicode lowercase form.
pub uninterp spec fn unicode_lowercase(s: Seq<char>) -> Seq<char>;

/// `str::to_lowercase`, which std documents as returning the lowercase
/// equivalent of the string, mapped character by character by Unicode's
/// `Lowercase` property; it depends on the string alone. The contract names
/// that result and says nothing more of it.
#[verifier::external_body]
fn to_lowercase(s: &str) -> (r: String)
    ensures
        r@ == unicode_lowercase(s@),
{
    s.to_lowercase()
}

/// `needle` occurs in `hay` starting at position `i`.
pub open spec fn occurs_at(hay: Seq<char>, needle: Seq<char>, i: int) -> bool {
    hay.subrange(i, i + needle.len()) == needle
}

/// `needle` occurs in `hay` as a run of consecutive characters.
pub open spec fn contains_text(hay: Seq<char>, needle: Seq<char>) -> bool {
    exists|i: int| 0 <= i && i + needle.len() <= hay.len() && #[trigger] occurs_at(hay, needle, i)
}

/// A preset is listed when it belongs to the chosen collection (any, when
/// none is chosen) and, unless the lowercased search text is empty, its
/// lowercased name contains the lowercased search text.
pub open spec fn preset_listed(
    name: Seq<char>,
    collection: Seq<char>,
    query: Seq<char>,
    wanted: Option<Seq<char>>,
) -> bool {
    let q = unicode_lowercase(query);
    &&& (wanted matches Some(c) ==> collection == c)
    &&& (q.len() == 0 || contains_text(unicode_lowercase(name), q))
}

/// The indices, in increasing order, of the first `n` presets that are listed.
pub open spec fn listed_upto(
    names: Seq<Seq<char>>,
    collections: Seq<Seq<char>>,
    query: Seq<char>,
    wanted: Option<Seq<char>>,
    n: int,
) -> Seq<usize>
    decreases n,
{
    if n <= 0 {
        Seq::empty()
    } else {
        let rest = listed_upto(names, collections, query, wanted, n - 1);
        if preset_listed(names[n - 1], collections[n - 1], query, wanted) {
            rest.push((n - 1) as usize)
        } else {
            rest
        }
    }
}

/// The distinct collections among the first `n`, in the order they first appear.
pub open spec fn distinct_upto(collections: Seq<Seq<char>>, n: int) -> Seq<Seq<char>>
    decreases n,
{
    if n <= 0 {
        Seq::empty()
    } else {
        let rest = distinct_upto(collections, n - 1);
        if rest.contains(collections[n - 1]) {
            rest
        } else {
            rest.push(collections[n - 1])
        }
    }
}

/// The view of a chosen collection.
pub open spec fn wanted_view(collection: Option<&str>) -> Option<Seq<char>> {
    match collection {
        Some(c) => Some(c@),
        None => None,
    }
}

/// Whether `needle` occurs in `hay`.
fn contains_chars(hay: &Vec<char>, needle: &Vec<char>) -> (b: bool)
    ensures
        b == contains_text(hay@, needle@),
{
    let n = needle.len();
    if n > hay.len() {
        return false;
    }
    if n == 0 {
        assert(hay@.subrange(0, 0) =~= needle@);
        assert(occurs_at(hay@, needle@, 0));
        return true;
    }
    let last = hay.len() - n;
    let mut i: usize = 0;
    while i <= last
        invariant
            n == needle@.len(),
            n > 0,
            last + n == hay@.len(),
            hay@.len() <= usize::MAX,
            i <= last + 1,
            forall|k: int| 0 <= k < i ==> !#[trigger] occurs_at(hay@, needle@, k),
        decreases last + 1 - i,
    {
        let mut j: usize = 0;
        let mut same = true;
        while j < n
            invariant
                n == needle@.len(),
                i <= last,
                last + n == hay@.len(),
                hay@.len() <= usize::MAX,
                j <= n,
                same == (forall|m: int| 0 <= m < j ==> hay@[i + m] == needle@[m]),
            decreases n - j,
        {
            if hay[i + j] != needle[j] {
                same = false;
            }
            j = j + 1;
        }
        if same {
            assert(hay@.subrange(i as int, i + n) =~= needle@);
            assert(occurs_at(hay@, needle@, i as int));
            return true;
        }
        assert(!occurs_at(hay@, needle@, i as int)) by {
            let m = choose|m: int| 0 <= m < n && hay@[i + m] != needle@[m];
            assert(hay@.subrange(i as int, i + n)[m] == hay@[i + m]);
        }
        i = i + 1;
    }
    false
}

/// The collections of a preset list, each once, in the order they first appear.
pub fn collections_in_order(collections: &[String]) -> (r: Vec<String>)
    ensures
        r@.map_values(|s: String| s@) == distinct_upto(
            collections@.map_values(|s: String| s@),
            collections@.len() as int,
        ),
{
    let ghost views = collections@.map_values(|s: String| s@);
    let mut r: Vec<String> = Vec::new();
    let mut k: usize = 0;
    while k < collections.len()
        invariant
            k <= collections@.len(),
            views == collections@.map_values(|s: String| s@),
            r@.map_values(|s: String| s@) == distinct_upto(views, k as int),
        decreases collections.len() - k,
    {
        let ghost seen = r@.map_values(|s: String| s@);
        let mut found = false;
        let mut j: usize = 0;
        while j < r.len()
            invariant
                j <= r@.len(),
                k < collections@.len(),
                seen == r@.map_values(|s: String| s@),
                found == (exists|m: int| 0 <= m < j && r@[m]@ == collections@[k as int]@),
            decreases r.len() - j,
        {
            if r[j] == collections[k] {
                found = true;
            }
            j = j + 1;
        }
        proof {
            if found {
                let m = choose|m: int| 0 <= m < r@.len() && r@[m]@ == collections@[k as int]@;
                assert(seen[m] == views[k as int]);
            }
            if seen.contains(views[k as int]) {
                let m = choose|m: int| 0 <= m < seen.len() && seen[m] == views[k as int];
                assert(r@[m]@ == collections@[k as int]@);
            }
        }
        if !found {
            r.push(collections[k].clone());
            assert(r@.map_values(|s: String| s@) =~= seen.push(views[k as int]));
        }
        k = k + 1;
    }
    r
}

/// The indices of the presets a collection choice and a name search keep,
/// in list order (see `preset_listed`).
pub fn filter_presets(
    names: &[String],
    collections: &[String],
    query: &str,
    collection: Option<&str>,
) -> (r: Vec<usize>)
    requires
        names@.len() == collections@.len(),
    ensures
        r@ == listed_upto(
            names@.map_values(|s: String| s@),
            collections@.map_values(|s: String| s@),
            query@,
            wanted_view(collection),
            names@.len() as int,
        ),
{
    let ghost nv = names@.map_values(|s: String| s@);
    let ghost cv = collections@.map_values(|s: String| s@);
    let ghost wanted = wanted_view(collection);
    let q_lower = to_lowercase(query);
    let q = chars_of(q_lower.as_str());
    let mut r: Vec<usize> = Vec::new();
    let mut i: usize = 0;
    while i < names.len()
        invariant
            i <= names@.len(),
            names@.len() == collections@.len(),
            nv == names@.map_values(|s: String| s@),
            cv == collections@.map_values(|s: String| s@),
            wanted == wanted_view(collection),
            q@ == unicode_lowercase(query@),
            r@ == listed_upto(nv, cv, query@, wanted, i as int),
        decreases names.len() - i,
    {
        let coll_ok = match collection {
            Some(c) => chars_equal(&chars_of(collections[i].as_str()), c),
            None => true,
        };
        let name_ok = if q.len() == 0 {
            true
        } else {
            let lowered = to_lowercase(names[i].as_str());
            contains_chars(&chars_of(lowered.as_str()), &q)
        };
        assert(nv[i as int] == names@[i as int]@ && cv[i as int] == collections@[i as int]@);
        if coll_ok && name_ok {
            r.push(i);
        }
        i = i + 1;
    }
    r
}

} // verus!
