//! Where the cache keeps its files, and how a source file is named in it.

use vstd::prelude::*;

use crate::error::ThumbnailError;
use crate::hash::{compute_hash, fingerprint};
use crate::sizes::ThumbnailSize;
use crate::text::{option_str_view, push_chars, string_of};

pub use crate::provenance::{add_thumbnail_metadata, write_failed_thumbnail, write_out_thumbnail};
pub use crate::thumbnail::parse_file;

verus! {

/// The cache root: the user's cache home if one is set, else the platform's
/// per-user cache directory, else `.cache` under the home directory, else
/// `.cache` under the working directory.
pub open spec fn cache_root(
    xdg_cache_home: Option<Seq<char>>,
    os_cache_dir: Option<Seq<char>>,
    home: Option<Seq<char>>,
) -> Seq<char> {
    match xdg_cache_home {
        Some(dir) => dir,
        None => match os_cache_dir {
            Some(dir) => dir,
            None => match home {
                Some(h) => h + "/.cache"@,
                None => "./.cache"@,
            },
        },
    }
}

/// The directory that holds the thumbnails of one size.
pub open spec fn thumbnail_dir(root: Seq<char>, size: ThumbnailSize) -> Seq<char> {
    root + "/thumbnails/"@ + size.dir_name()
}

/// The place of a thumbnail: `{root}/thumbnails/{size}/{hash}.png`.
pub open spec fn thumbnail_path(root: Seq<char>, hash: Seq<char>, size: ThumbnailSize) -> Seq<
    char,
> {
    thumbnail_dir(root, size) + "/"@ + hash + ".png"@
}

/// The directory that holds this library's fail markers.
pub open spec fn failed_dir(root: Seq<char>) -> Seq<char> {
    root + "/thumbnails/fail/thumbnailify"@
}

/// The place of a fail marker: `{root}/thumbnails/fail/thumbnailify/{hash}.png`.
pub open spec fn failed_path(root: Seq<char>, hash: Seq<char>) -> Seq<char> {
    failed_dir(root) + "/"@ + hash + ".png"@
}

/// The `file://` URI of a path, or `None` where the path has none.
pub uninterp spec fn file_uri(path: Seq<char>) -> Option<Seq<char>>;

/// `Url::from_file_path` of the `url` crate, with the URL written out as a
/// string: the `file://` URI of `path`, or `None` where the crate refuses the
/// path.
#[verifier::external_body]
fn url_from_file_path(path: &str) -> (uri: Option<String>)
    ensures
        match uri {
            Some(u) => file_uri(path@) == Some(u@),
            None => file_uri(path@) is None,
        },
{
    match url::Url::from_file_path(path) {
        Ok(u) => Some(String::from(u)),
        Err(_) => None,
    }
}

/// Chooses the cache root from what the environment offers.
pub fn get_base_cache_dir(
    xdg_cache_home: Option<&str>,
    os_cache_dir: Option<&str>,
    home: Option<&str>,
) -> (dir: String)
    ensures
        dir@ == cache_root(
            option_str_view(xdg_cache_home),
            option_str_view(os_cache_dir),
            option_str_view(home),
        ),
{
    if let Some(dir) = xdg_cache_home {
        return dir.to_owned();
    }
    if let Some(dir) = os_cache_dir {
        return dir.to_owned();
    }
    match home {
        Some(h) => {
            let mut out: Vec<char> = Vec::new();
            push_chars(&mut out, h);
            push_chars(&mut out, "/.cache");
            string_of(&out)
        },
        None => "./.cache".to_owned(),
    }
}

/// The directory in which thumbnails of `size` are kept and their temporary
/// files are made.
pub fn get_thumbnail_dir(cache_root: &str, size: ThumbnailSize) -> (dir: String)
    ensures
        dir@ == thumbnail_dir(cache_root@, size),
{
    let mut out: Vec<char> = Vec::new();
    push_chars(&mut out, cache_root);
    push_chars(&mut out, "/thumbnails/");
    let name = size.to_string();
    push_chars(&mut out, name.as_str());
    assert(out@ == thumbnail_dir(cache_root@, size));
    string_of(&out)
}

/// Gets the thumbnail output path using hash and size:
/// `{cache_root}/thumbnails/{size}/{hash}.png`.
pub fn get_thumbnail_hash_output(cache_root: &str, hash: &str, size: ThumbnailSize) -> (path:
    String)
    ensures
        path@ == thumbnail_path(cache_root@, hash@, size),
{
    let dir = get_thumbnail_dir(cache_root, size);
    let mut out: Vec<char> = Vec::new();
    push_chars(&mut out, dir.as_str());
    push_chars(&mut out, "/");
    push_chars(&mut out, hash);
    push_chars(&mut out, ".png");
    assert(out@ == thumbnail_path(cache_root@, hash@, size));
    string_of(&out)
}

/// The directory in which this library keeps its fail markers.
pub fn get_failed_dir(cache_root: &str) -> (dir: String)
    ensures
        dir@ == failed_dir(cache_root@),
{
    let mut out: Vec<char> = Vec::new();
    push_chars(&mut out, cache_root);
    push_chars(&mut out, "/thumbnails/fail/thumbnailify");
    string_of(&out)
}

/// Returns the output path for a failed thumbnail marker:
/// `{cache_root}/thumbnails/fail/thumbnailify/{hash}.png`.
pub fn get_failed_thumbnail_output(cache_root: &str, hash: &str) -> (path: String)
    ensures
        path@ == failed_path(cache_root@, hash@),
{
    let dir = get_failed_dir(cache_root);
    let mut out: Vec<char> = Vec::new();
    push_chars(&mut out, dir.as_str());
    push_chars(&mut out, "/");
    push_chars(&mut out, hash);
    push_chars(&mut out, ".png");
    assert(out@ == failed_path(cache_root@, hash@));
    string_of(&out)
}

/// The path that stands for a source: its canonical absolute path, or the
/// path as it was given where that cannot be resolved.
pub open spec fn canonical_or_given(input: Seq<char>, canonical: Option<Seq<char>>) -> Seq<char> {
    match canonical {
        Some(c) => c,
        None => input,
    }
}

/// Converts the path of a source into its canonical `file://` URI: the URI
/// of the canonical absolute path, or of the path as given where the source
/// cannot be resolved. A path that has no such URI is an `Io` error.
pub fn get_file_uri(input: &str, canonical: Option<&str>) -> (uri: Result<String, ThumbnailError>)
    ensures
        match uri {
            Ok(u) => file_uri(canonical_or_given(input@, option_str_view(canonical))) == Some(u@),
            Err(e) => file_uri(canonical_or_given(input@, option_str_view(canonical))) is None
                && e == ThumbnailError::Io,
        },
{
    let path = match canonical {
        Some(c) => c,
        None => input,
    };
    match url_from_file_path(path) {
        Some(u) => Ok(u),
        None => Err(ThumbnailError::Io),
    }
}

/// The place in the cache of the thumbnail of `source_path` at `size`. No
/// file is touched: `source_path` is taken as the canonical absolute path.
pub fn cache_path(cache_root: &str, source_path: &str, size: ThumbnailSize) -> (path: Result<
    String,
    ThumbnailError,
>)
    ensures
        match path {
            Ok(p) => file_uri(source_path@) matches Some(u) && p@ == thumbnail_path(
                cache_root@,
                fingerprint(u),
                size,
            ),
            Err(e) => file_uri(source_path@) is None && e == ThumbnailError::Io,
        },
{
    match get_file_uri(source_path, None) {
        Ok(uri) => {
            let hash = compute_hash(uri.as_str());
            Ok(get_thumbnail_hash_output(cache_root, hash.as_str(), size))
        },
        Err(e) => Err(e),
    }
}

} // verus!
