//! Install folder names: the canonical name of an unpacked package, its slug,
//! and which existing folders are stale versions of it.

use vstd::prelude::*;
use vstd::string::*;

verus! {

/// `s` ends with the archive extension `.zip`.
pub open spec fn ends_with_zip(s: Seq<char>) -> bool {
    s.len() >= 4 && s[s.len() - 4] == '.' && s[s.len() - 3] == 'z' && s[s.len() - 2] == 'i'
        && s[s.len() - 1] == 'p'
}

/// The folder name with every trailing `.zip` removed.
pub open spec fn canonical_of(s: Seq<char>) -> Seq<char>
    decreases s.len(),
{
    if ends_with_zip(s) {
        canonical_of(s.take(s.len() - 4))
    } else {
        s
    }
}

/// `k` is where the slug of `t` ends: no `_` before it, and `_` or the end of
/// `t` at it.
pub open spec fn is_slug_end(t: Seq<char>, k: int) -> bool {
    &&& 0 <= k <= t.len()
    &&& forall|i: int| 0 <= i < k ==> #[trigger] t[i] != '_'
    &&& k < t.len() ==> t[k] == '_'
}

/// The length of the slug of `t`: the part before its first `_`.
pub open spec fn slug_end(t: Seq<char>) -> int {
    choose|k: int| is_slug_end(t, k)
}

pub proof fn lemma_slug_end_unique(t: Seq<char>, k: int)
    requires
        is_slug_end(t, k),
    ensures
        slug_end(t) == k,
{
    let m = slug_end(t);
    assert(is_slug_end(t, m));
    if m < k {
        assert(t[m] == '_');
    } else if k < m {
        assert(t[k] == '_');
    }
}

/// Every name has a slug end: the first `_` at or after `k`, or the end.
pub proof fn lemma_slug_end_exists(t: Seq<char>, k: int)
    requires
        0 <= k <= t.len(),
        forall|i: int| 0 <= i < k ==> #[trigger] t[i] != '_',
    ensures
        is_slug_end(t, slug_end(t)),
    decreases t.len() - k,
{
    if k == t.len() || t[k] == '_' {
        assert(is_slug_end(t, k));
    } else {
        lemma_slug_end_exists(t, k + 1);
    }
}

/// The slug of `t`.
pub open spec fn slug_of(t: Seq<char>) -> Seq<char> {
    t.take(slug_end(t))
}

/// `s` names a version of the package whose slug is that of `target`: it
/// starts with the slug followed by `_`.
pub open spec fn shares_slug(s: Seq<char>, target: Seq<char>) -> bool {
    let k = slug_end(target);
    s.len() > k && s.take(k) == target.take(k) && s[k] == '_'
}

/// `s` is a folder that an install of `target` removes.
pub open spec fn is_stale(s: Seq<char>, target: Seq<char>) -> bool {
    shares_slug(s, target) && s != target
}

fn ends_with_zip_at(s: &str, k: usize) -> (r: bool)
    requires
        k <= s@.len(),
    ensures
        r == ends_with_zip(s@.take(k as int)),
{
    if k < 4 {
        return false;
    }
    s.get_char(k - 4) == '.' && s.get_char(k - 3) == 'z' && s.get_char(k - 2) == 'i'
        && s.get_char(k - 1) == 'p'
}

/// The install folder name for an unpacked root folder: its name with
/// trailing `.zip` extensions removed.
pub fn canonical_name(dir_name: &str) -> (r: String)
    ensures
        r@ == canonical_of(dir_name@),
{
    let n = dir_name.unicode_len();
    let mut k: usize = n;
    assert(dir_name@.take(k as int) =~= dir_name@);
    while ends_with_zip_at(dir_name, k)
        invariant
            k <= n == dir_name@.len(),
            canonical_of(dir_name@.take(k as int)) == canonical_of(dir_name@),
        decreases k,
    {
        assert(dir_name@.take(k as int).take(k - 4) =~= dir_name@.take(k - 4));
        k = k - 4;
    }
    assert(dir_name@.take(k as int) =~= dir_name@.subrange(0, k as int));
    dir_name.substring_char(0, k).to_owned()
}

/// The length of the slug of `t`.
pub fn slug_len(t: &str) -> (r: usize)
    ensures
        r == slug_end(t@),
        is_slug_end(t@, r as int),
{
    let n = t.unicode_len();
    let mut k: usize = 0;
    while k < n && t.get_char(k) != '_'
        invariant
            k <= n == t@.len(),
            forall|i: int| 0 <= i < k ==> #[trigger] t@[i] != '_',
        decreases n - k,
    {
        k = k + 1;
    }
    proof {
        lemma_slug_end_unique(t@, k as int);
    }
    k
}

/// The slug of a folder name: the part before its first `_`, or all of it.
pub fn slug(t: &str) -> (r: String)
    ensures
        r@ == slug_of(t@),
{
    let k = slug_len(t);
    assert(t@.take(k as int) =~= t@.subrange(0, k as int));
    t.substring_char(0, k).to_owned()
}

/// Whether `name` is an older folder of the package installed as `target`.
pub fn is_stale_version(name: &str, target: &str) -> (r: bool)
    ensures
        r == is_stale(name@, target@),
{
    let k = slug_len(target);
    let n = name.unicode_len();
    if n <= k {
        return false;
    }
    let mut i: usize = 0;
    while i < k
        invariant
            k == slug_end(target@),
            k < n == name@.len(),
            0 <= k <= target@.len(),
            i <= k,
            forall|j: int| 0 <= j < i ==> #[trigger] name@[j] == target@[j],
        decreases k - i,
    {
        if name.get_char(i) != target.get_char(i) {
            assert(name@.take(k as int)[i as int] != target@.take(k as int)[i as int]);
            return false;
        }
        i = i + 1;
    }
    assert(name@.take(k as int) =~= target@.take(k as int));
    if name.get_char(k) != '_' {
        return false;
    }
    !same_text(name, target)
}

/// Whether two texts are equal.
pub fn same_text(a: &str, b: &str) -> (r: bool)
    ensures
        r == (a@ == b@),
{
    let n = a.unicode_len();
    if n != b.unicode_len() {
        return false;
    }
    let mut i: usize = 0;
    while i < n
        invariant
            n == a@.len() == b@.len(),
            i <= n,
            forall|j: int| 0 <= j < i ==> #[trigger] a@[j] == b@[j],
        decreases n - i,
    {
        if a.get_char(i) != b.get_char(i) {
            return false;
        }
        i = i + 1;
    }
    assert(a@ =~= b@);
    true
}

/// The names of a list of folders, as a set.
pub open spec fn name_set(names: Seq<String>) -> Set<Seq<char>> {
    Set::new(|s: Seq<char>| exists|i: int| 0 <= i < names.len() && #[trigger] names[i]@ == s)
}

/// The folders among `names` that installing `target` removes, in order.
pub fn stale_versions(names: &Vec<String>, target: &str) -> (r: Vec<String>)
    ensures
        forall|s: Seq<char>| #[trigger]
            name_set(r@).contains(s) <==> name_set(names@).contains(s) && is_stale(s, target@),
{
    let mut out: Vec<String> = Vec::new();
    let mut i: usize = 0;
    while i < names.len()
        invariant
            i <= names.len(),
            forall|s: Seq<char>| #[trigger]
                name_set(out@).contains(s) <==> (exists|j: int|
                    0 <= j < i && #[trigger] names@[j]@ == s) && is_stale(s, target@),
        decreases names.len() - i,
    {
        let ghost before = out@;
        if is_stale_version(names[i].as_str(), target) {
            out.push(names[i].clone());
            assert forall|s: Seq<char>| #[trigger]
                name_set(out@).contains(s) <==> (exists|j: int|
                    0 <= j < i + 1 && #[trigger] names@[j]@ == s) && is_stale(s, target@) by {
                if name_set(out@).contains(s) {
                    let j = choose|j: int| 0 <= j < out@.len() && #[trigger] out@[j]@ == s;
                    if j < before.len() {
                        assert(before[j]@ == s);
                        assert(name_set(before).contains(s));
                    }
                }
                if (exists|j: int| 0 <= j < i + 1 && #[trigger] names@[j]@ == s) && is_stale(s, target@) {
                    let j = choose|j: int| 0 <= j < i + 1 && #[trigger] names@[j]@ == s;
                    if j < i {
                        assert(name_set(before).contains(s));
                        let m = choose|m: int| 0 <= m < before.len() && #[trigger] before[m]@ == s;
                        assert(out@[m]@ == s);
                    } else {
                        assert(out@[before.len() as int]@ == s);
                    }
                }
            }
        } else {
            assert forall|s: Seq<char>| #[trigger]
                name_set(out@).contains(s) <==> (exists|j: int|
                    0 <= j < i + 1 && #[trigger] names@[j]@ == s) && is_stale(s, target@) by {
                if (exists|j: int| 0 <= j < i + 1 && #[trigger] names@[j]@ == s) && is_stale(s, target@) {
                    let j = choose|j: int| 0 <= j < i + 1 && #[trigger] names@[j]@ == s;
                    assert(j < i);
                }
            }
        }
        i = i + 1;
    }
    out
}

} // verus!
