//! Addresses on the remote catalog.

use vstd::prelude::*;
use vstd::string::*;

verus! {

/// `s` begins with `p`.
pub open spec fn starts_with(s: Seq<char>, p: Seq<char>) -> bool {
    s.len() >= p.len() && s.take(p.len() as int) == p
}

/// The address of a package's full release list.
pub fn release_list_url(name: &str) -> (r: String)
    ensures
        r@ == "https://mods.factorio.com/api/mods/"@ + name@ + "/full"@,
{
    let mut r = String::from_str("https://mods.factorio.com/api/mods/");
    r.append(name);
    r.append("/full");
    r
}

/// Whether `s` begins with `p`.
pub fn has_prefix(s: &str, p: &str) -> (r: bool)
    ensures
        r == starts_with(s@, p@),
{
    let n = p.unicode_len();
    if s.unicode_len() < n {
        return false;
    }
    let mut i: usize = 0;
    while i < n
        invariant
            n == p@.len() <= s@.len(),
            i <= n,
            forall|j: int| 0 <= j < i ==> #[trigger] s@[j] == p@[j],
        decreases n - i,
    {
        if s.get_char(i) != p.get_char(i) {
            assert(s@.take(n as int)[i as int] != p@[i as int]);
            return false;
        }
        i = i + 1;
    }
    assert(s@.take(n as int) =~= p@);
    true
}

/// A download address that already names an `http` or `https` scheme.
pub open spec fn is_absolute_url(u: Seq<char>) -> bool {
    starts_with(u, "http://"@) || starts_with(u, "https://"@)
}

/// The absolute address of an archive: a download address without an
/// `http://` or `https://` scheme is taken relative to the catalog host.
pub open spec fn archive_address(download_url: Seq<char>) -> Seq<char> {
    if is_absolute_url(download_url) {
        download_url
    } else {
        "https://mods.factorio.com/"@ + download_url
    }
}

/// Builds the absolute address of an archive.
pub fn archive_url(download_url: &str) -> (r: String)
    ensures
        r@ == archive_address(download_url@),
{
    if has_prefix(download_url, "http://") || has_prefix(download_url, "https://") {
        download_url.to_owned()
    } else {
        let mut r = String::from_str("https://mods.factorio.com/");
        r.append(download_url);
        r
    }
}

} // verus!
