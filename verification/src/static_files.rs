//! Which of the client's files a request path names.

use vstd::prelude::*;
use vstd::string::{StrSliceExecFns, StringExecFns};

verus! {

/// A text without the slashes that it begins with.
pub open spec fn without_leading_slashes(text: Seq<char>) -> Seq<char>
    decreases text.len(),
{
    if text.len() > 0 && text[0] == '/' {
        without_leading_slashes(text.skip(1))
    } else {
        text
    }
}

/// A text without the occurrences of a pattern, found from the left; an
/// occurrence begins where the one before it ended or later.
pub open spec fn without_all(text: Seq<char>, pattern: Seq<char>) -> Seq<char>
    decreases text.len(),
{
    if text.len() == 0 {
        text
    } else if 0 < pattern.len() && pattern.is_prefix_of(text) {
        without_all(text.skip(pattern.len() as int), pattern)
    } else {
        seq![text[0]] + without_all(text.skip(1), pattern)
    }
}

/// The file that a request path names: the path without its leading
/// slashes, and without any `static/` if it begins with one.
pub open spec fn asset_path_of(uri_path: Seq<char>) -> Seq<char> {
    let path = without_leading_slashes(uri_path);
    if "static/"@.is_prefix_of(path) {
        without_all(path, "static/"@)
    } else {
        path
    }
}

fn has_prefix_at(text: &str, at: usize, prefix: &str) -> (yes: bool)
    requires
        at <= text@.len(),
    ensures
        yes == prefix@.is_prefix_of(text@.skip(at as int)),
{
    let n = text.unicode_len();
    let m = prefix.unicode_len();
    let ghost rest = text@.skip(at as int);
    if m > n - at {
        return false;
    }
    let mut j: usize = 0;
    while j < m
        invariant
            0 <= j <= m,
            m == prefix@.len(),
            n == text@.len(),
            at + m <= n,
            rest == text@.skip(at as int),
            forall|k: int| 0 <= k < j ==> rest[k] == prefix@[k],
        decreases m - j,
    {
        if text.get_char(at + j) != prefix.get_char(j) {
            assert(rest[j as int] != prefix@[j as int]);
            assert(!(rest.subrange(0, prefix@.len() as int) =~= prefix@)) by {
                if rest.subrange(0, prefix@.len() as int) == prefix@ {
                    assert(rest.subrange(0, prefix@.len() as int)[j as int] == rest[j as int]);
                }
            }
            return false;
        }
        j += 1;
    }
    assert(rest.subrange(0, prefix@.len() as int) =~= prefix@);
    true
}

fn remove_all(text: &str, pattern: &str) -> (cleaned: String)
    requires
        pattern@.len() > 0,
    ensures
        cleaned@ == without_all(text@, pattern@),
{
    let n = text.unicode_len();
    let m = pattern.unicode_len();
    let mut cleaned = String::new();
    let mut i: usize = 0;
    assert(text@.skip(0) =~= text@);
    while i < n
        invariant
            0 <= i <= n,
            n == text@.len(),
            m == pattern@.len(),
            m > 0,
            cleaned@ + without_all(text@.skip(i as int), pattern@) == without_all(text@, pattern@),
        decreases n - i,
    {
        let ghost rest = text@.skip(i as int);
        if has_prefix_at(text, i, pattern) {
            assert(rest.skip(m as int) =~= text@.skip(i + m));
            i += m;
        } else {
            let ghost before = cleaned@;
            cleaned.append(text.substring_char(i, i + 1));
            assert(rest.skip(1) =~= text@.skip(i + 1));
            assert(text@.subrange(i as int, i + 1) =~= seq![rest[0]]);
            assert(cleaned@ + without_all(rest.skip(1), pattern@) =~= before + (seq![rest[0]]
                + without_all(rest.skip(1), pattern@)));
            i += 1;
        }
    }
    assert(cleaned@ + Seq::<char>::empty() =~= cleaned@);
    cleaned
}

/// The file that a request path names.
pub fn asset_path(uri_path: &str) -> (path: String)
    ensures
        path@ == asset_path_of(uri_path@),
{
    let n = uri_path.unicode_len();
    let mut start: usize = 0;
    assert(uri_path@.skip(0) =~= uri_path@);
    while start < n && uri_path.get_char(start) == '/'
        invariant
            0 <= start <= n,
            n == uri_path@.len(),
            without_leading_slashes(uri_path@.skip(start as int)) == without_leading_slashes(
                uri_path@,
            ),
        decreases n - start,
    {
        assert(uri_path@.skip(start as int).skip(1) =~= uri_path@.skip(start + 1));
        start += 1;
    }
    let trimmed = uri_path.substring_char(start, n);
    assert(trimmed@ =~= uri_path@.skip(start as int));
    assert(trimmed@.skip(0) =~= trimmed@);
    proof {
        reveal_strlit("static/");
    }
    if has_prefix_at(trimmed, 0, "static/") {
        remove_all(trimmed, "static/")
    } else {
        String::from_str(trimmed)
    }
}

/// The media type that `mime_guess` gives for a path.
pub uninterp spec fn guessed_content_type(path: Seq<char>) -> Seq<char>;

/// Trusted: `mime_guess::from_path` followed by `first_or_octet_stream`. The
/// guess goes by the extension of the path alone, through a table that the
/// crate holds; nothing is read from disk, and a path without a known
/// extension gets `application/octet-stream`. The result is the media type
/// as text.
#[verifier::external_body]
fn content_type(path: &str) -> (media_type: String)
    ensures
        media_type@ == guessed_content_type(path@),
{
    mime_guess::from_path(path).first_or_octet_stream().as_ref().to_string()
}

/// A file of the client, by its path.
pub struct StaticFile<T>(pub T);

/// What is sent for a file of the client: which file, and as what.
#[derive(Debug, Clone, PartialEq, Eq)]
pub struct Asset {
    pub path: String,
    pub content_type: String,
}

/// The file to send for a path: the one asked for if the client has it, and
/// the client's entry page if it has not.
pub open spec fn served_path(asked: Seq<char>, embedded: bool) -> Seq<char> {
    if embedded {
        asked
    } else {
        "index.html"@
    }
}

impl StaticFile<String> {
    /// The file to send.
    pub fn served(self, embedded: bool) -> (path: String)
        ensures
            path@ == served_path(self.0@, embedded),
    {
        if embedded {
            self.0
        } else {
            String::from_str("index.html")
        }
    }

    /// The file to send, with the media type that its extension stands for.
    pub fn asset(self, embedded: bool) -> (asset: Asset)
        ensures
            asset.path@ == served_path(self.0@, embedded),
            asset.content_type@ == guessed_content_type(asset.path@),
    {
        let path = self.served(embedded);
        let content_type = content_type(path.as_str());
        Asset { path, content_type }
    }
}

} // verus!
