//! Mods that are downloaded once and then served from the cache.

use crate::mods::{HttpMod, HttpModView};
use crate::paths::{join, path_join};
use crate::pattern::{first_group, first_group_text};
use crate::{Error, CACHE_ROOT};
use vstd::prelude::*;

verus! {

/// The shape of a URL that names a jar: group 1 is what follows the last
/// slash, up to and with `.jar`.
pub const NAME_PATTERN: &'static str = r#".*\/(.*\.jar)"#;

/// What is to be done to have the file of a download on disk.
#[derive(Debug, PartialEq, Eq)]
pub enum Fetch {
    /// The file is in the cache at this path; nothing is transferred.
    Cached(String),
    /// The body of a GET of `url` is to be written to `dest`, which is then
    /// the file's path.
    Download { url: String, dest: String },
}

/// A `Fetch` as plain text.
pub enum FetchView {
    Cached(Seq<char>),
    Download { url: Seq<char>, dest: Seq<char> },
}

impl View for Fetch {
    type V = FetchView;

    open spec fn view(&self) -> FetchView {
        match self {
            Fetch::Cached(path) => FetchView::Cached(path@),
            Fetch::Download { url, dest } => FetchView::Download { url: url@, dest: dest@ },
        }
    }
}

/// The file name that `url` ends in, if it names a jar.
pub open spec fn file_name_of(url: Seq<char>) -> Option<Seq<char>> {
    first_group(NAME_PATTERN@, url, 1)
}

/// Where in the cache the download of `url` is kept: directly under the
/// cache root, under the file name that the URL ends in.
pub open spec fn cache_path_of(url: Seq<char>) -> Option<Seq<char>> {
    match file_name_of(url) {
        Some(name) => Some(path_join(CACHE_ROOT@, name)),
        None => None,
    }
}

/// What resolving `http` asks for, given whether its file is in the cache.
pub open spec fn fetch_of(http: HttpModView, cached: bool) -> Option<FetchView> {
    match cache_path_of(http.url) {
        Some(dest) => Some(
            if cached {
                FetchView::Cached(dest)
            } else {
                FetchView::Download { url: http.url, dest }
            },
        ),
        None => None,
    }
}

/// The number of transfers that carrying out `fetch` makes.
pub open spec fn transfers(fetch: FetchView) -> nat {
    match fetch {
        FetchView::Cached(_) => 0,
        FetchView::Download { .. } => 1,
    }
}

/// The path that carrying out `fetch` yields.
pub open spec fn fetched_path(fetch: FetchView) -> Seq<char> {
    match fetch {
        FetchView::Cached(path) => path,
        FetchView::Download { dest, .. } => dest,
    }
}

/// The files in the cache once `fetch` has been carried out with success.
pub open spec fn cache_after(cache: Set<Seq<char>>, fetch: FetchView) -> Set<Seq<char>> {
    match fetch {
        FetchView::Cached(_) => cache,
        FetchView::Download { dest, .. } => cache.insert(dest),
    }
}

/// The file name under which the download of `http` is cached.
/// Fails with `Error::Regex` exactly where the URL names no jar.
pub fn name(http: &HttpMod) -> (name: Result<String, Error>)
    ensures
        match name {
            Ok(n) => file_name_of(http@.url) == Some(n@),
            Err(e) => e == Error::Regex && file_name_of(http@.url) is None,
        },
{
    match first_group_text(NAME_PATTERN, http.url.as_str(), 1) {
        Some(n) => Ok(n),
        None => Err(Error::Regex),
    }
}

/// The path in the cache of the download of `http`.
/// Fails with `Error::Regex` exactly where the URL names no jar.
pub fn cache_path(http: &HttpMod) -> (path: Result<String, Error>)
    ensures
        match path {
            Ok(p) => cache_path_of(http@.url) == Some(p@),
            Err(e) => e == Error::Regex && cache_path_of(http@.url) is None,
        },
{
    match name(http) {
        Ok(n) => Ok(join(CACHE_ROOT, n.as_str())),
        Err(e) => Err(e),
    }
}

/// Resolves `http` as far as can be done without touching disk or network.
/// `cached` says whether a file exists at `cache_path(http)`. A file that is
/// there is used as it is, and never compared with what the URL now serves.
/// Fails with `Error::Regex` exactly where the URL names no jar.
pub fn get(http: &HttpMod, cached: bool) -> (fetch: Result<Fetch, Error>)
    ensures
        match fetch {
            Ok(f) => fetch_of(http@, cached) == Some(f@),
            Err(e) => e == Error::Regex && fetch_of(http@, cached) is None,
        },
{
    match cache_path(http) {
        Ok(dest) => Ok(
            if cached {
                Fetch::Cached(dest)
            } else {
                Fetch::Download { url: http.url.clone(), dest }
            },
        ),
        Err(e) => Err(e),
    }
}

/// Resolving a download a second time transfers nothing: once the first
/// resolution has been carried out, the second finds the file in the cache
/// and yields the very path that the first did. Over both, one transfer is
/// made where the file was not cached at the start, and none where it was.
pub proof fn lemma_second_get_is_cached(http: HttpModView, cache: Set<Seq<char>>)
    requires
        cache_path_of(http.url) is Some,
    ensures
        ({
            let dest = cache_path_of(http.url)->Some_0;
            let first = fetch_of(http, cache.contains(dest))->Some_0;
            let after = cache_after(cache, first);
            let second = fetch_of(http, after.contains(dest))->Some_0;
            &&& after.contains(dest)
            &&& second == FetchView::Cached(dest)
            &&& fetched_path(second) == fetched_path(first)
            &&& cache_after(after, second) == after
            &&& transfers(first) + transfers(second) == if cache.contains(dest) {
                0nat
            } else {
                1nat
            }
        }),
{
}

} // verus!
