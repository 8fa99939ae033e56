use vstd::prelude::*;
use vstd::string::*;

verus! {

/// Host of the image CDN.
pub const CDN_HOST: &'static str = "cdn.discordapp.com";

/// Host whose pages link to the media that is actually served.
pub const MEDIA_PAGE_HOST: &'static str = "tenor.com";

/// Host that the media pages link to.
pub const MEDIA_HOST: &'static str = "media1.tenor.com";

/// Body sent back for every refused or failed request.
pub const FALLBACK_BODY: &'static str = "nie lubie cie";

/// Content types that name this text are composited.
pub const IMAGE_MARKER: &'static str = "image";

/// Content type that is decoded frame by frame.
pub const GIF_CONTENT_TYPE: &'static str = "image/gif";

/// Finds the first `img` tag whose source is on a media host; the group holds its URL.
pub const MEDIA_LINK_PATTERN: &'static str = ".*?<img src=\"(https://media.*?)\".*";

/// What the relay does next.
#[derive(Debug, PartialEq, Eq)]
pub enum RelayStep {
    /// Answer with the fallback body.
    Fallback,
    /// Fetch `url`; when `media_page` holds, the answer is a page to scrape for the media URL.
    Fetch { url: String, media_page: bool },
    /// Decode the fetched bytes and composite them, frame by frame when `animated` holds.
    Composite { animated: bool },
}

/// The host as the `http` crate's URI parser reads it from `target`, if it parses and has one.
pub uninterp spec fn uri_host_of(target: Seq<char>) -> Option<Seq<char>>;

/// The text of the first capture group of the first match of `pattern` in `text`, as the
/// regex crate finds it; `None` when the pattern does not compile or nothing matches.
pub uninterp spec fn first_capture_of(pattern: Seq<char>, text: Seq<char>) -> Option<Seq<char>>;

/// An HTTP status in the success class.
pub open spec fn is_success(status: u16) -> bool {
    200 <= status <= 299
}

pub open spec fn allowed_host(host: Seq<char>) -> bool {
    host == CDN_HOST@ || host == MEDIA_PAGE_HOST@ || host == MEDIA_HOST@
}

pub open spec fn occurs_at(hay: Seq<char>, needle: Seq<char>, i: int) -> bool {
    0 <= i && i + needle.len() <= hay.len() && hay.subrange(i, i + needle.len()) == needle
}

pub open spec fn contains_text(hay: Seq<char>, needle: Seq<char>) -> bool {
    exists|i: int| occurs_at(hay, needle, i)
}

/// The target URL of a request path: the path without its leading slash.
pub open spec fn target_of(path: Seq<char>) -> Option<Seq<char>> {
    if path.len() > 0 && path[0] == '/' {
        Some(path.drop_first())
    } else {
        None
    }
}

/// Relies on parsing into `http::Uri` (re-exported by hyper) and on `Uri::host`.
#[verifier::external_body]
fn uri_host(target: &str) -> (r: Option<String>)
    ensures
        r matches Some(h) ==> uri_host_of(target@) == Some(h@),
        r is None ==> uri_host_of(target@) is None,
{
    target.parse::<hyper::Uri>().ok().and_then(|u| u.host().map(|h| h.to_string()))
}

/// Relies on `regex::Regex::new` and `Regex::captures`: the first match's first group.
#[verifier::external_body]
fn first_capture(pattern: &str, text: &str) -> (r: Option<String>)
    ensures
        r matches Some(c) ==> first_capture_of(pattern@, text@) == Some(c@),
        r is None ==> first_capture_of(pattern@, text@) is None,
{
    let re = regex::Regex::new(pattern).ok()?;
    re.captures(text).and_then(|c| c.get(1)).map(|m| m.as_str().to_string())
}

/// Character-wise equality of two strings.
pub fn same_text(a: &str, b: &str) -> (r: bool)
    ensures
        r == (a@ == b@),
{
    let n = a.unicode_len();
    if n != b.unicode_len() {
        return false;
    }
    let mut i: usize = 0;
    while i < n
        invariant
            n == a@.len(),
            n == b@.len(),
            i <= n,
            forall|j: int| 0 <= j < i ==> a@[j] == b@[j],
        decreases n - i,
    {
        if a.get_char(i) != b.get_char(i) {
            return false;
        }
        i = i + 1;
    }
    assert(a@ =~= b@);
    true
}

/// Whether `needle` occurs anywhere in `hay`.
pub fn contains(hay: &str, needle: &str) -> (r: bool)
    ensures
        r == contains_text(hay@, needle@),
{
    let n = hay.unicode_len();
    let m = needle.unicode_len();
    if m > n {
        assert forall|i: int| !occurs_at(hay@, needle@, i) by {}
        return false;
    }
    let mut i: usize = 0;
    while i <= n - m
        invariant
            n == hay@.len(),
            m == needle@.len(),
            m <= n,
            i <= n - m + 1,
            forall|k: int| 0 <= k < i ==> !occurs_at(hay@, needle@, k),
        decreases n - m + 1 - i,
    {
        let mut j: usize = 0;
        let mut same = true;
        while j < m
            invariant
                n == hay@.len(),
                m == needle@.len(),
                i + m <= n,
                j <= m,
                same == (forall|t: int| 0 <= t < j ==> hay@[i + t] == needle@[t]),
            decreases m - j,
        {
            if hay.get_char(i + j) != needle.get_char(j) {
                same = false;
            }
            j = j + 1;
        }
        if same {
            assert(hay@.subrange(i as int, i + m) =~= needle@);
            assert(occurs_at(hay@, needle@, i as int));
            return true;
        }
        assert(!occurs_at(hay@, needle@, i as int)) by {
            if occurs_at(hay@, needle@, i as int) {
                assert forall|t: int| 0 <= t < m implies hay@[i + t] == needle@[t] by {
                    assert(hay@.subrange(i as int, i + m)[t] == hay@[i + t]);
                }
            }
        }
        i = i + 1;
    }
    assert forall|k: int| !occurs_at(hay@, needle@, k) by {
        if 0 <= k && k + m <= n {
            assert(k < i);
        }
    }
    false
}

/// Whether a host may be fetched from: it must equal one of the three allowed hosts exactly.
pub fn is_allowed_host(host: &str) -> (r: bool)
    ensures
        r == allowed_host(host@),
{
    same_text(host, CDN_HOST) || same_text(host, MEDIA_PAGE_HOST) || same_text(host, MEDIA_HOST)
}

/// Only hosts equal, character for character, to an allowed one pass: a host that merely
/// contains, starts or ends with an allowed host and differs from all three is refused.
pub proof fn lemma_allowlist_is_exact(host: Seq<char>)
    requires
        host != CDN_HOST@,
        host != MEDIA_PAGE_HOST@,
        host != MEDIA_HOST@,
    ensures
        !allowed_host(host),
{
}

/// Takes the leading slash off a request path; `None` when there is none.
pub fn target_from_path(path: &str) -> (r: Option<String>)
    ensures
        r matches Some(t) ==> target_of(path@) == Some(t@),
        r is None ==> target_of(path@) is None,
{
    let n = path.unicode_len();
    if n == 0 {
        return None;
    }
    if path.get_char(0) != '/' {
        return None;
    }
    let rest = path.substring_char(1, n);
    Some(rest.to_owned())
}

/// What to do with an incoming request path: fetch its target when the target's host is
/// allowed (scraping first when it is the media-page host), otherwise fall back.
pub fn plan_request(path: &str) -> (r: RelayStep)
    ensures
        match target_of(path@) {
            None => r == RelayStep::Fallback,
            Some(t) => match uri_host_of(t) {
                None => r == RelayStep::Fallback,
                Some(h) => if allowed_host(h) {
                    r matches RelayStep::Fetch { url, media_page } && url@ == t && media_page == (h
                        == MEDIA_PAGE_HOST@)
                } else {
                    r == RelayStep::Fallback
                },
            },
        },
{
    let target = match target_from_path(path) {
        Some(t) => t,
        None => return RelayStep::Fallback,
    };
    let host = match uri_host(target.as_str()) {
        Some(h) => h,
        None => return RelayStep::Fallback,
    };
    if !is_allowed_host(host.as_str()) {
        return RelayStep::Fallback;
    }
    let media_page = same_text(host.as_str(), MEDIA_PAGE_HOST);
    RelayStep::Fetch { url: target, media_page }
}

/// Given the status and HTML of a media page, fetch the first media URL that an `img` tag
/// names, or fall back when the fetch failed or there is none.
pub fn resolve_media_page(status: u16, html: &str) -> (r: RelayStep)
    ensures
        !is_success(status) ==> r == RelayStep::Fallback,
        is_success(status) ==> match first_capture_of(MEDIA_LINK_PATTERN@, html@) {
            None => r == RelayStep::Fallback,
            Some(u) => r matches RelayStep::Fetch { url, media_page } && url@ == u && !media_page,
        },
{
    if status < 200 || status > 299 {
        return RelayStep::Fallback;
    }
    match first_capture(MEDIA_LINK_PATTERN, html) {
        Some(url) => RelayStep::Fetch { url, media_page: false },
        None => RelayStep::Fallback,
    }
}

/// Given the status and content type of the final response, composite it when it succeeded and
/// names an image (frame by frame for GIF), otherwise fall back.
pub fn classify_response(status: u16, content_type: Option<&str>) -> (r: RelayStep)
    ensures
        !is_success(status) ==> r == RelayStep::Fallback,
        is_success(status) ==> match content_type {
            None => r == RelayStep::Fallback,
            Some(ct) => if contains_text(ct@, IMAGE_MARKER@) {
                r == (RelayStep::Composite { animated: ct@ == GIF_CONTENT_TYPE@ })
            } else {
                r == RelayStep::Fallback
            },
        },
{
    if status < 200 || status > 299 {
        return RelayStep::Fallback;
    }
    match content_type {
        None => RelayStep::Fallback,
        Some(ct) => {
            if contains(ct, IMAGE_MARKER) {
                RelayStep::Composite { animated: same_text(ct, GIF_CONTENT_TYPE) }
            } else {
                RelayStep::Fallback
            }
        },
    }
}

/// The body sent back for refused or failed requests.
pub fn fallback_body() -> (r: &'static str)
    ensures
        r@ == FALLBACK_BODY@,
{
    FALLBACK_BODY
}

} // verus!
