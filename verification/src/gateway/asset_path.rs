//! Asset paths: the relative, slash-separated names under which bundled
//! static resources are looked up, and the predicate that keeps a lookup
//! inside the bundle.

use crate::gateway::percent::{
    decode_path,
    decoded_text,
    lemma_decoded_without_escape,
    text_view,
};
use crate::text::{chars_of, is_segment};
use vstd::prelude::*;

verus! {

/// A segment that names something: not empty, not `.`, not `..`.
pub open spec fn is_plain_name(segment: Seq<char>) -> bool {
    &&& segment.len() > 0
    &&& segment != seq!['.']
    &&& segment != seq!['.', '.']
}

/// The asset path invariant: the path is not empty, holds no backslash, and
/// every one of its segments is a plain name.
pub open spec fn is_safe_spec(path: Seq<char>) -> bool {
    &&& path.len() > 0
    &&& !path.contains('\\')
    &&& forall|start: int, end: int| #[trigger]
        is_segment(path, start, end) ==> is_plain_name(path.subrange(start, end))
}

/// Whether `chars[start..end]` is a plain name.
fn is_plain_range(chars: &[char], start: usize, end: usize) -> (plain: bool)
    requires
        start <= end <= chars@.len(),
    ensures
        plain == is_plain_name(chars@.subrange(start as int, end as int)),
{
    let ghost segment = chars@.subrange(start as int, end as int);
    let ghost dot = seq!['.'];
    let ghost dot_dot = seq!['.', '.'];
    assert(dot.len() == 1 && dot[0] == '.');
    assert(dot_dot.len() == 2 && dot_dot[0] == '.' && dot_dot[1] == '.');
    let len: usize = end - start;
    if len == 0 {
        false
    } else if len == 1 {
        assert(chars@[start as int] == '.' ==> segment =~= dot);
        chars[start] != '.'
    } else if len == 2 {
        assert(chars@[start as int] == '.' && chars@[start + 1] == '.' ==> segment =~= dot_dot);
        !(chars[start] == '.' && chars[start + 1] == '.')
    } else {
        true
    }
}

/// The asset path invariant on a path given as characters.
fn is_safe_chars(chars: &[char]) -> (safe: bool)
    ensures
        safe == is_safe_spec(chars@),
{
    let n: usize = chars.len();
    if n == 0 {
        return false;
    }
    let mut start: usize = 0;
    let mut i: usize = 0;
    while i < n
        invariant
            n == chars@.len(),
            start <= i <= n,
            start == 0 || chars@[start - 1] == '/',
            forall|k: int| start <= k < i ==> chars@[k] != '/',
            forall|k: int| 0 <= k < i ==> chars@[k] != '\\',
            forall|a: int, b: int| #[trigger]
                is_segment(chars@, a, b) && b < start ==> is_plain_name(chars@.subrange(a, b)),
        decreases n - i,
    {
        let c = chars[i];
        if c == '\\' {
            assert(chars@.contains('\\'));
            return false;
        }
        if c == '/' {
            assert(is_segment(chars@, start as int, i as int));
            if !is_plain_range(chars, start, i) {
                return false;
            }
            assert forall|a: int, b: int| #[trigger]
                is_segment(chars@, a, b) && b < i + 1 implies is_plain_name(
                chars@.subrange(a, b),
            ) by {
                if b >= start {
                    lemma_segment_is_determined(chars@, start as int, i as int, a, b);
                }
            }
            start = i + 1;
        }
        i += 1;
    }
    assert(is_segment(chars@, start as int, n as int));
    assert forall|a: int, b: int| #[trigger]
        is_segment(chars@, a, b) && !(a == start && b == n) implies b < start by {
        if b >= start {
            lemma_segment_is_determined(chars@, start as int, n as int, a, b);
        }
    }
    is_plain_range(chars, start, n)
}

/// Segments do not overlap: a segment that ends at or after the start of
/// another one, and not after its end, is that segment.
proof fn lemma_segment_is_determined(path: Seq<char>, start: int, end: int, a: int, b: int)
    requires
        is_segment(path, start, end),
        is_segment(path, a, b),
        start <= b <= end,
    ensures
        a == start,
        b == end,
{
    if b < end {
        assert(path[b] == '/');
    }
    if a < start {
        assert(path[start - 1] == '/');
    }
    if a > start {
        assert(path[a - 1] == '/');
    }
}

/// No path that holds a backslash is safe.
pub proof fn lemma_backslash_is_unsafe(path: Seq<char>)
    requires
        path.contains('\\'),
    ensures
        !is_safe_spec(path),
{
}

/// A safe path holds no segment `..`: wherever two dots stand between
/// separators or the ends of the path, the path is not safe.
pub proof fn lemma_parent_segment_is_unsafe(path: Seq<char>, start: int)
    requires
        is_segment(path, start, start + 2),
        path[start] == '.',
        path[start + 1] == '.',
    ensures
        !is_safe_spec(path),
{
    assert(path.subrange(start, start + 2) =~= seq!['.', '.']);
}

/// Decides whether `path` may be looked up among the bundled assets: it is
/// not empty, holds no backslash, and none of its `/`-separated segments is
/// empty, `.` or `..`.
pub fn is_safe_asset_path(path: &str) -> (safe: bool)
    ensures
        safe == is_safe_spec(path@),
{
    let chars = chars_of(path);
    is_safe_chars(chars.as_slice())
}

/// The prefix under which the gateway mounts the bundled assets.
pub open spec fn app_prefix() -> Seq<char> {
    seq!['/', '_', 'a', 'p', 'p', '/']
}

/// `path` without the mount prefix, where it starts with it; else `path`.
pub open spec fn without_app_prefix(path: Seq<char>) -> Seq<char> {
    if app_prefix().is_prefix_of(path) {
        path.skip(app_prefix().len() as int)
    } else {
        path
    }
}

/// The number of `/` that `s` starts with.
pub open spec fn leading_slashes(s: Seq<char>) -> nat
    decreases s.len(),
{
    if s.len() > 0 && s[0] == '/' {
        1 + leading_slashes(s.skip(1))
    } else {
        0
    }
}

/// `s` from its first character that is not a `/`.
pub open spec fn without_leading_slashes(s: Seq<char>) -> Seq<char> {
    s.skip(leading_slashes(s) as int)
}

/// The asset path that the path of a request names: the mount prefix is
/// taken off once, where it is there, and then every leading `/`.
pub open spec fn asset_path_spec(uri_path: Seq<char>) -> Seq<char> {
    without_leading_slashes(without_app_prefix(uri_path))
}

/// `leading_slashes(s)` is the one `count` such that the first `count`
/// characters of `s` are slashes and the next one, if any, is not.
pub proof fn lemma_leading_slashes(s: Seq<char>, count: int)
    requires
        0 <= count <= s.len(),
        forall|k: int| 0 <= k < count ==> s[k] == '/',
        count == s.len() || s[count] != '/',
    ensures
        leading_slashes(s) == count,
    decreases count,
{
    if count > 0 {
        lemma_leading_slashes(s.skip(1), count - 1);
    }
}

/// Whether `chars` starts with the mount prefix.
fn has_app_prefix(chars: &[char]) -> (found: bool)
    ensures
        found == app_prefix().is_prefix_of(chars@),
{
    let found = chars.len() >= 6 && chars[0] == '/' && chars[1] == '_' && chars[2] == 'a'
        && chars[3] == 'p' && chars[4] == 'p' && chars[5] == '/';
    proof {
        let prefix = app_prefix();
        assert(prefix.len() == 6);
        if chars@.len() >= 6 {
            let head = chars@.subrange(0, 6);
            assert(prefix =~= head <==> (forall|k: int| 0 <= k < 6 ==> prefix[k] == head[k]));
            if prefix =~= head {
                assert(prefix[0] == head[0] && prefix[1] == head[1] && prefix[2] == head[2]);
                assert(prefix[3] == head[3] && prefix[4] == head[4] && prefix[5] == head[5]);
            }
        }
    }
    found
}

/// The index at which the asset path starts in the path of a request.
fn asset_start(chars: &[char]) -> (start: usize)
    ensures
        start <= chars@.len(),
        chars@.skip(start as int) == asset_path_spec(chars@),
{
    let n: usize = chars.len();
    let base: usize = if has_app_prefix(chars) {
        6
    } else {
        0
    };
    let ghost rest = without_app_prefix(chars@);
    assert(rest =~= chars@.skip(base as int));
    let mut start: usize = base;
    while start < n && chars[start] == '/'
        invariant
            n == chars@.len(),
            base <= start <= n,
            forall|k: int| base <= k < start ==> chars@[k] == '/',
        decreases n - start,
    {
        start += 1;
    }
    proof {
        lemma_leading_slashes(rest, start - base);
        assert(rest.skip(start - base) =~= chars@.skip(start as int));
    }
    start
}

/// Takes the asset path out of the path of a request: the mount prefix
/// `/_app/` is removed once, where the path starts with it, and then every
/// leading `/`.
pub fn asset_path_of(uri_path: &str) -> (path: &str)
    ensures
        path@ == asset_path_spec(uri_path@),
{
    let chars = chars_of(uri_path);
    let start = asset_start(chars.as_slice());
    assert(uri_path@.subrange(start as int, uri_path@.len() as int) =~= uri_path@.skip(
        start as int,
    ));
    uri_path.substring_char(start, chars.len())
}

/// The asset that the path of a request asks for. The asset path is taken
/// out of the path as it came and percent-decoded; the decoded path is the
/// asset where it is text and the path meets the asset path invariant both
/// as it came and decoded. `None` where the request names no asset.
pub open spec fn requested_asset_spec(uri_path: Seq<char>) -> Option<Seq<char>> {
    let raw = asset_path_spec(uri_path);
    match decoded_text(raw) {
        Some(path) => if is_safe_spec(raw) && is_safe_spec(path) {
            Some(path)
        } else {
            None
        },
        None => None,
    }
}

/// A request whose decoded asset path fails the asset path invariant asks
/// for nothing, and so does one whose path fails it as it came; every
/// asset asked for is the decoded path and meets the invariant.
pub proof fn lemma_requested_asset_is_safe(uri_path: Seq<char>)
    ensures
        match requested_asset_spec(uri_path) {
            Some(path) => is_safe_spec(path) && decoded_text(asset_path_spec(uri_path)) == Some(
                path,
            ),
            None => true,
        },
        !is_safe_spec(asset_path_spec(uri_path)) ==> requested_asset_spec(uri_path) is None,
        decoded_text(asset_path_spec(uri_path)) matches Some(path) && !is_safe_spec(path)
            ==> requested_asset_spec(uri_path) is None,
        decoded_text(asset_path_spec(uri_path)) is None ==> requested_asset_spec(uri_path) is None,
{
}

/// A request whose asset path holds no `%` asks for that path as it came,
/// where it meets the asset path invariant.
pub proof fn lemma_requested_asset_without_escape(uri_path: Seq<char>)
    requires
        !asset_path_spec(uri_path).contains('%'),
    ensures
        requested_asset_spec(uri_path) == if is_safe_spec(asset_path_spec(uri_path)) {
            Some(asset_path_spec(uri_path))
        } else {
            None
        },
{
    lemma_decoded_without_escape(asset_path_spec(uri_path));
}

/// Decides what the path of a request asks for: `Some` asset path to look
/// up in the bundle, or `None` where the request is to be answered as not
/// found.
///
/// The mount prefix and the leading slashes are taken off the path as it
/// came; what is left is percent-decoded. The decoded path is the asset
/// path. It is handed out exactly when it is text and the path meets the
/// asset path invariant as it came and decoded: an encoded `..`, `/` or
/// backslash is refused like a plain one.
pub fn requested_asset(uri_path: &str) -> (asset: Option<String>)
    ensures
        text_view(asset) == requested_asset_spec(uri_path@),
{
    let raw = asset_path_of(uri_path);
    if !is_safe_asset_path(raw) {
        proof {
            lemma_requested_asset_is_safe(uri_path@);
        }
        return None;
    }
    match decode_path(raw) {
        Some(path) => if is_safe_asset_path(path.as_str()) {
            Some(path)
        } else {
            None
        },
        None => None,
    }
}

} // verus!
