//! Answers for requests to the bundled web dashboard: the media type and the
//! cache policy of an asset, and the response that carries it.

use crate::gateway::asset_path::{is_safe_spec, requested_asset, requested_asset_spec};
use crate::text::{contains_str, has_infix};
use vstd::prelude::*;
use vstd::utf8::encode_utf8;

verus! {

/// Cache policy of assets that never change under their name.
pub const CACHE_IMMUTABLE: &'static str = "public, max-age=31536000, immutable";

/// Cache policy of everything else.
pub const CACHE_NO_STORE: &'static str = "no-cache";

/// Media type of an asset whose extension tells nothing.
pub const DEFAULT_CONTENT_TYPE: &'static str = "application/octet-stream";

/// The directory of the bundle whose files carry a hash in their names.
pub const HASHED_ASSETS_DIR: &'static str = "assets/";

/// The asset that answers every request of the single-page application that
/// names no other resource.
pub const SPA_ENTRY: &'static str = "index.html";

/// The body of the answer to a request that names no bundled asset.
pub const NOT_FOUND_BODY: &'static str = "Not found";

/// The media type of that body.
pub const NOT_FOUND_CONTENT_TYPE: &'static str = "text/plain; charset=utf-8";

/// What the gateway answers to a request for a bundled asset.
#[derive(Debug, Clone, PartialEq, Eq)]
pub enum AssetResponse {
    /// The asset, with the two headers that go with it.
    Found { content_type: &'static str, cache_control: &'static str, body: Vec<u8> },
    /// No such asset. The same answer is given whatever the reason.
    NotFound,
}

/// An answer as plain values.
pub enum AssetResponseView {
    Found { content_type: Seq<char>, cache_control: Seq<char>, body: Seq<u8> },
    NotFound,
}

impl View for AssetResponse {
    type V = AssetResponseView;

    open spec fn view(&self) -> AssetResponseView {
        match *self {
            AssetResponse::Found { content_type, cache_control, body } => AssetResponseView::Found {
                content_type: content_type@,
                cache_control: cache_control@,
                body: body@,
            },
            AssetResponse::NotFound => AssetResponseView::NotFound,
        }
    }
}

/// The media type that `mime_guess` lists first for the extension of `path`,
/// if it lists one.
pub uninterp spec fn guessed_media_type(path: Seq<char>) -> Option<Seq<char>>;

/// The media type sent for a guess: the guess, or the default without one.
pub open spec fn content_type_spec(guess: Option<Seq<char>>) -> Seq<char> {
    match guess {
        Some(media_type) => media_type,
        None => DEFAULT_CONTENT_TYPE@,
    }
}

/// The cache policy of the asset at `path`: immutable where the path leads
/// through the directory of hashed assets.
pub open spec fn cache_control_spec(path: Seq<char>) -> Seq<char> {
    if has_infix(path, HASHED_ASSETS_DIR@) {
        CACHE_IMMUTABLE@
    } else {
        CACHE_NO_STORE@
    }
}

/// The answer to a request for the asset at `path`, where `guess` is what
/// was guessed of its media type and `content` what the bundle holds under
/// that path.
pub open spec fn response_spec(
    path: Seq<char>,
    guess: Option<Seq<char>>,
    content: Option<Seq<u8>>,
) -> AssetResponseView {
    match content {
        Some(bytes) => AssetResponseView::Found {
            content_type: content_type_spec(guess),
            cache_control: cache_control_spec(path),
            body: bytes,
        },
        None => AssetResponseView::NotFound,
    }
}

/// An optional static text as plain values.
pub open spec fn guess_view(guess: Option<&'static str>) -> Option<Seq<char>> {
    match guess {
        Some(media_type) => Some(media_type@),
        None => None,
    }
}

/// The content of an asset as plain values.
pub open spec fn content_view(content: Option<Vec<u8>>) -> Option<Seq<u8>> {
    match content {
        Some(bytes) => Some(bytes@),
        None => None,
    }
}

/// Calls `mime_guess::from_path(path).first_raw()`. The guess looks at the
/// extension of the path only, never at a file, and takes the first entry
/// that the crate's table of extensions holds for it; the contract gives
/// that entry the name `guessed_media_type` and claims nothing else of it.
#[verifier::external_body]
fn guess_media_type(path: &str) -> (guess: Option<&'static str>)
    ensures
        guess_view(guess) == guessed_media_type(path@),
{
    mime_guess::from_path(path).first_raw()
}

/// The media type to send for a guess: the guessed one, or
/// `application/octet-stream` where there is none.
pub fn content_type_or_default(guess: Option<&'static str>) -> (content_type: &'static str)
    ensures
        content_type@ == content_type_spec(guess_view(guess)),
{
    match guess {
        Some(media_type) => media_type,
        None => DEFAULT_CONTENT_TYPE,
    }
}

/// The media type to send for the asset at `path`.
pub fn content_type_for(path: &str) -> (content_type: &'static str)
    ensures
        content_type@ == content_type_spec(guessed_media_type(path@)),
{
    content_type_or_default(guess_media_type(path))
}

/// The cache policy to send for the asset at `path`: immutable where the
/// path holds `assets/`, no caching elsewhere.
pub fn cache_control_for(path: &str) -> (cache_control: &'static str)
    ensures
        cache_control@ == cache_control_spec(path@),
{
    if contains_str(path, HASHED_ASSETS_DIR) {
        CACHE_IMMUTABLE
    } else {
        CACHE_NO_STORE
    }
}

/// Builds the answer to a request for the asset at `path` from what was
/// guessed of its media type and what the bundle holds under that path.
pub fn respond(path: &str, guess: Option<&'static str>, content: Option<Vec<u8>>) -> (response:
    AssetResponse)
    ensures
        response@ == response_spec(path@, guess_view(guess), content_view(content)),
{
    match content {
        Some(body) => AssetResponse::Found {
            content_type: content_type_or_default(guess),
            cache_control: cache_control_for(path),
            body,
        },
        None => AssetResponse::NotFound,
    }
}

/// Answers a request for the asset at `path`, given what the bundle holds
/// under that path: the content with its media type and cache policy, or
/// not found where the bundle holds nothing.
pub fn serve_embedded_file(path: &str, content: Option<Vec<u8>>) -> (response: AssetResponse)
    ensures
        response@ == response_spec(path@, guessed_media_type(path@), content_view(content)),
{
    match content {
        Some(body) => respond(path, guess_media_type(path), Some(body)),
        None => AssetResponse::NotFound,
    }
}

/// Answers a request for a static file under the mount prefix `/_app/`.
///
/// The asset path is taken out of the request's path and percent-decoded.
/// Where the decoded path is no text or does not meet the asset path
/// invariant, the answer is not found and the bundle is not asked. Else
/// `lookup` is asked, once, for what the bundle holds under the decoded
/// path, and the answer is built from what it gives.
pub fn handle_static<F>(uri_path: &str, lookup: F) -> (response: AssetResponse) where
    F: FnOnce(&str) -> Option<Vec<u8>>,

    requires
        forall|path: &str| is_safe_spec(path@) ==> call_requires(lookup, (path,)),
    ensures
        requested_asset_spec(uri_path@) is None ==> response is NotFound,
        requested_asset_spec(uri_path@) matches Some(asset) ==> exists|
            path: &str,
            content: Option<Vec<u8>>,
        |
            {
                &&& path@ == asset
                &&& is_safe_spec(path@)
                &&& call_ensures(lookup, (path,), content)
                &&& response@ == response_spec(
                    path@,
                    guessed_media_type(path@),
                    content_view(content),
                )
            },
{
    match requested_asset(uri_path) {
        Some(path) => {
            let content = lookup(path.as_str());
            let response = serve_embedded_file(path.as_str(), content);
            response
        },
        None => AssetResponse::NotFound,
    }
}

/// Answers a request that names no other resource with the entry page of
/// the single-page application, `index.html`, as `lookup` gives it.
pub fn handle_spa_fallback<F>(lookup: F) -> (response: AssetResponse) where
    F: FnOnce(&str) -> Option<Vec<u8>>,

    requires
        call_requires(lookup, (SPA_ENTRY,)),
    ensures
        exists|content: Option<Vec<u8>>|
            {
                &&& call_ensures(lookup, (SPA_ENTRY,), content)
                &&& response@ == response_spec(
                    SPA_ENTRY@,
                    guessed_media_type(SPA_ENTRY@),
                    content_view(content),
                )
            },
{
    let content = lookup(SPA_ENTRY);
    serve_embedded_file(SPA_ENTRY, content)
}

impl AssetResponseView {
    /// The HTTP status of the answer: 200 with the asset, 404 without.
    pub open spec fn status(self) -> u16 {
        match self {
            AssetResponseView::Found { .. } => 200,
            AssetResponseView::NotFound => 404,
        }
    }

    /// The media type of the answer's body.
    pub open spec fn media_type(self) -> Seq<char> {
        match self {
            AssetResponseView::Found { content_type, .. } => content_type,
            AssetResponseView::NotFound => NOT_FOUND_CONTENT_TYPE@,
        }
    }

    /// The cache policy of the answer, if it carries one.
    pub open spec fn cache_policy(self) -> Option<Seq<char>> {
        match self {
            AssetResponseView::Found { cache_control, .. } => Some(cache_control),
            AssetResponseView::NotFound => None,
        }
    }

    /// The body of the answer: the asset, or the text `Not found`.
    pub open spec fn payload(self) -> Seq<u8> {
        match self {
            AssetResponseView::Found { body, .. } => body,
            AssetResponseView::NotFound => encode_utf8(NOT_FOUND_BODY@),
        }
    }
}

impl AssetResponse {
    /// The HTTP status of the answer: 200 with the asset, 404 without.
    pub fn status_code(&self) -> (status: u16)
        ensures
            status == self@.status(),
    {
        match self {
            AssetResponse::Found { .. } => 200,
            AssetResponse::NotFound => 404,
        }
    }

    /// The media type of the answer's body: that of the asset, or plain
    /// text for the answer without one.
    pub fn content_type(&self) -> (content_type: &'static str)
        ensures
            content_type@ == self@.media_type(),
    {
        match self {
            AssetResponse::Found { content_type, .. } => *content_type,
            AssetResponse::NotFound => NOT_FOUND_CONTENT_TYPE,
        }
    }

    /// The cache policy of the answer. Only an asset carries one.
    pub fn cache_control(&self) -> (cache_control: Option<&'static str>)
        ensures
            guess_view(cache_control) == self@.cache_policy(),
    {
        match self {
            AssetResponse::Found { cache_control, .. } => Some(*cache_control),
            AssetResponse::NotFound => None,
        }
    }

    /// The body of the answer: the asset, or the text `Not found`.
    pub fn into_body(self) -> (body: Vec<u8>)
        ensures
            body@ == self@.payload(),
    {
        match self {
            AssetResponse::Found { body, .. } => body,
            AssetResponse::NotFound => NOT_FOUND_BODY.as_bytes_vec(),
        }
    }
}

} // verus!
