//! Rules for serving the embedded web UI: which request path names which
//! asset, when a client-side route falls back to the index page, and how
//! long a browser may cache each asset.

use vstd::prelude::*;
use crate::text::{contains_char, ends_with, has_suffix, str_equal};

verus! {

/// Cache policy for fingerprinted bundles, which never change.
pub open spec fn immutable_policy() -> Seq<char> {
    "public, max-age=31536000, immutable"@
}

/// Cache policy for the index page, which must be revalidated.
pub open spec fn revalidate_policy() -> Seq<char> {
    "no-cache"@
}

/// Cache policy for every other asset: one hour.
pub open spec fn hour_policy() -> Seq<char> {
    "public, max-age=3600"@
}

/// Whether a path names a fingerprinted script, module or style sheet: a
/// hyphen in the name and one of the extensions `.js`, `.wasm`, `.css`.
pub open spec fn is_hashed_bundle(path: Seq<char>) -> bool {
    path.contains('-') && (has_suffix(path, ".js"@) || has_suffix(path, ".wasm"@) || has_suffix(
        path,
        ".css"@,
    ))
}

/// The cache policy of an asset path.
pub open spec fn cache_policy(path: Seq<char>) -> Seq<char> {
    if is_hashed_bundle(path) {
        immutable_policy()
    } else if path == "index.html"@ {
        revalidate_policy()
    } else {
        hour_policy()
    }
}

/// The `Cache-Control` value for an asset path.
pub fn cache_control(path: &str) -> (r: &'static str)
    ensures
        r@ == cache_policy(path@),
{
    let hashed = contains_char(path, '-') && (ends_with(path, ".js") || ends_with(path, ".wasm")
        || ends_with(path, ".css"));
    if hashed {
        "public, max-age=31536000, immutable"
    } else if str_equal(path, "index.html") {
        "no-cache"
    } else {
        "public, max-age=3600"
    }
}

/// `r` is `s` without all of its leading slashes.
pub open spec fn slashes_trimmed(s: Seq<char>, r: Seq<char>) -> bool {
    exists|k: int|
        #![trigger s.subrange(k, s.len() as int)]
        0 <= k <= s.len() && (forall|j: int| 0 <= j < k ==> s[j] == '/') && r == s.subrange(
            k,
            s.len() as int,
        ) && (r.len() > 0 ==> r[0] != '/')
}

/// The asset path that a request path names: the request path without its
/// leading slashes.
pub fn asset_path(request_path: &str) -> (r: &str)
    ensures
        slashes_trimmed(request_path@, r@),
{
    let n = request_path.unicode_len();
    let mut i: usize = 0;
    while i < n && request_path.get_char(i) == '/'
        invariant
            n == request_path@.len(),
            i <= n,
            forall|j: int| 0 <= j < i ==> request_path@[j] == '/',
        decreases n - i,
    {
        i = i + 1;
    }
    let r = request_path.substring_char(i, n);
    assert(r@ == request_path@.subrange(i as int, n as int));
    r
}

/// Whether a path that names no asset is served the index page instead, so
/// that the client-side router can handle it: only paths without a dot,
/// which do not look like file names.
pub fn falls_back_to_index(path: &str) -> (r: bool)
    ensures
        r == !path@.contains('.'),
{
    !contains_char(path, '.')
}

} // verus!
