use vstd::prelude::*;

use crate::media::Media;
use crate::text::{str_eq, str_ends_with, str_starts_with};

verus! {

/// Upper bound on the HTTP redirects one fetch will follow.
pub const MAX_REDIRECTS: usize = 10;

/// Reddit's post-permalink payload: an ordered sequence of top-level objects
/// (index 0 is the listing holding the post, index 1 the comment listing).
#[derive(Debug)]
pub struct ApiResponse {
    pub data: Vec<ApiObject>,
}

/// One object of the payload, discriminated by Reddit's `kind` tag
/// (untagged nested listing, `t3` post, `t1` comment, `more`).
#[derive(Debug)]
pub enum ApiObject {
    Listing(ApiListing),
    Post(PostInfo),
    Comment(CommentInfo),
    More(MoreInfo),
}

/// Reddit's generic paginated-collection wrapper.
#[derive(Debug)]
pub struct ApiListing {
    pub children: Vec<ApiObject>,
}

/// Placeholder for a `more` object; no field of it is consumed.
#[derive(Debug, Clone)]
pub struct MoreInfo {}

/// Placeholder for a comment; no field of it is consumed.
#[derive(Debug, Clone)]
pub struct CommentInfo {}

/// The attributes of a post that the engine consumes. `url` is always
/// present; `media` is present only when Reddit attached structured media
/// metadata (mirrored by `secure_media`).
#[derive(Debug, Clone)]
pub struct PostInfo {
    pub subreddit: String,
    pub title: String,
    pub is_reddit_media_domain: bool,
    pub secure_media: Option<RedditMedia>,
    pub media: Option<RedditMedia>,
    pub domain: String,
    pub over_18: bool,
    pub is_video: bool,
    pub url: String,
}

/// Structured media metadata attached to a post.
#[derive(Debug, Clone)]
pub struct RedditMedia {
    pub reddit_video: Option<RedditVideo>,
    pub oembed: Option<OEmbedVideo>,
}

/// Placeholder for an oembed record; only its presence matters.
#[derive(Debug, Clone)]
pub struct OEmbedVideo {}

/// A Reddit-hosted video record; `fallback_url` is the directly playable
/// URL (before query stripping). The duration is in whole seconds.
#[derive(Debug, Clone)]
pub struct RedditVideo {
    pub scrubber_media_url: String,
    pub fallback_url: String,
    pub duration: u64,
    pub is_gif: bool,
}

/// What stood at a place in the payload where the engine required a
/// particular object (`Missing` when the sequence ended early).
#[derive(Debug, Clone, Copy, PartialEq, Eq, Structural)]
pub enum ApiShape {
    Missing,
    Listing,
    Post,
    Comment,
    More,
}

/// Every way a single resolution request can fail.
#[derive(Debug, Clone, Copy, PartialEq, Eq, Structural)]
pub enum ResolutionError {
    /// The response body was not the expected JSON shape.
    DecodeError,
    /// A network-level failure (connection, DNS, TLS).
    TransportError,
    /// A 3xx response carried no `location` header.
    RedirectWithoutLocation,
    /// The HTTP-level loop guard tripped after `count` requests.
    TooManyRedirects { count: usize },
    /// The content-level loop guard tripped after `hops` fetches.
    CrossPostLimitExceeded { hops: usize },
    /// The payload did not match the required listing-then-post structure;
    /// `got` is what stood in the offending place instead.
    UnexpectedShape { got: ApiShape },
}

/// The classifier's answer: either a terminal media URL, or a pointer to
/// another post that must itself be fetched and classified.
#[derive(Debug, Clone)]
pub enum PostMediaSource {
    Media(Media),
    CrossPost(String),
}

impl PartialEq for PostMediaSource {
    fn eq(&self, other: &Self) -> (r: bool) {
        match (self, other) {
            (PostMediaSource::Media(a), PostMediaSource::Media(b)) => str_eq(
                a.url.as_str(),
                b.url.as_str(),
            ),
            (PostMediaSource::CrossPost(a), PostMediaSource::CrossPost(b)) => str_eq(
                a.as_str(),
                b.as_str(),
            ),
            _ => false,
        }
    }
}

impl vstd::std_specs::cmp::PartialEqSpecImpl for PostMediaSource {
    open spec fn obeys_eq_spec() -> bool {
        true
    }

    open spec fn eq_spec(&self, other: &Self) -> bool {
        self@ == other@
    }
}

/// The mathematical value of a classifier answer: the variant together
/// with the characters of the URL it carries.
pub enum MediaSourceView {
    Media(Seq<char>),
    CrossPost(Seq<char>),
}

impl View for PostMediaSource {
    type V = MediaSourceView;

    open spec fn view(&self) -> MediaSourceView {
        match self {
            PostMediaSource::Media(m) => MediaSourceView::Media(m.url@),
            PostMediaSource::CrossPost(u) => MediaSourceView::CrossPost(u@),
        }
    }
}

// ---------------------------------------------------------------------------
// Query stripping
// ---------------------------------------------------------------------------

/// Index of the first `?` in `s`, or `s.len()` if there is none.
pub open spec fn query_start(s: Seq<char>) -> int
    decreases s.len(),
{
    if s.len() == 0 {
        0
    } else if s[0] == '?' {
        0
    } else {
        1 + query_start(s.subrange(1, s.len() as int))
    }
}

/// `s` up to (and not including) its first `?`: the URL with the query
/// string stripped.
pub open spec fn strip_query_spec(s: Seq<char>) -> Seq<char> {
    s.subrange(0, query_start(s))
}

proof fn lemma_query_start_at(s: Seq<char>, i: int)
    requires
        0 <= i <= s.len(),
        forall|j: int| 0 <= j < i ==> s[j] != '?',
        i == s.len() || s[i] == '?',
    ensures
        query_start(s) == i,
    decreases s.len(),
{
    if i == 0 {
    } else {
        let t = s.subrange(1, s.len() as int);
        assert(forall|j: int| 0 <= j < i - 1 ==> t[j] == s[j + 1]);
        lemma_query_start_at(t, i - 1);
    }
}

/// Remove the query string: everything from the first `?` on, the `?`
/// itself included.
pub fn strip_query_params(s: &str) -> (r: String)
    ensures
        r@ == strip_query_spec(s@),
{
    let n = s.unicode_len();
    let mut i: usize = 0;
    loop
        invariant
            n == s@.len(),
            i <= n,
            forall|j: int| 0 <= j < i ==> s@[j] != '?',
        ensures
            i <= n,
            forall|j: int| 0 <= j < i ==> s@[j] != '?',
            i == n || s@[i as int] == '?',
        decreases n - i,
    {
        if i == n {
            break;
        }
        if s.get_char(i) == '?' {
            break;
        }
        i += 1;
    }
    proof {
        lemma_query_start_at(s@, i as int);
    }
    let stripped = s.substring_char(0, i);
    String::from_str(stripped)
}

// ---------------------------------------------------------------------------
// Short-link detection
// ---------------------------------------------------------------------------

/// A character allowed in a short-link id: a lower-case ASCII letter or a
/// decimal digit.
pub open spec fn is_short_id_char(c: char) -> bool {
    ('a' as u32 <= c as u32 && c as u32 <= 'z' as u32) || ('0' as u32 <= c as u32 && c as u32
        <= '9' as u32)
}

/// An absolute URL of the exact form `https://v.redd.it/<id>` with a
/// non-empty id and no extra path segment or query string.
pub open spec fn is_short_link(s: Seq<char>) -> bool {
    &&& s.len() > "https://v.redd.it/"@.len()
    &&& "https://v.redd.it/"@.is_prefix_of(s)
    &&& forall|i: int|
        "https://v.redd.it/"@.len() <= i < s.len() ==> is_short_id_char(#[trigger] s[i])
}

/// Check whether a URL is a short-link to a post.
pub fn is_reddit_short_url(text: &str) -> (r: bool)
    ensures
        r == is_short_link(text@),
{
    let prefix = "https://v.redd.it/";
    let n = text.unicode_len();
    let m = prefix.unicode_len();
    if n <= m {
        return false;
    }
    if !str_starts_with(text, prefix) {
        return false;
    }
    let mut i: usize = m;
    while i < n
        invariant
            n == text@.len(),
            m == "https://v.redd.it/"@.len(),
            m <= i <= n,
            forall|j: int| m <= j < i ==> is_short_id_char(#[trigger] text@[j]),
        decreases n - i,
    {
        let c = text.get_char(i) as u32;
        if !(('a' as u32 <= c && c <= 'z' as u32) || ('0' as u32 <= c && c <= '9' as u32)) {
            return false;
        }
        i += 1;
    }
    true
}

// ---------------------------------------------------------------------------
// URL normalization for the fetch
// ---------------------------------------------------------------------------

/// The URL a fetch actually requests: short-links are left untouched (their
/// endpoint relies on HTTP redirection), every other URL gets the literal
/// suffix `/.json` to ask for Reddit's JSON representation.
pub open spec fn url_json_spec(s: Seq<char>) -> Seq<char> {
    if is_short_link(s) {
        s
    } else {
        s + "/.json"@
    }
}

/// Normalize a post reference into the URL to request.
pub fn make_url_json(s: &str) -> (r: String)
    ensures
        r@ == url_json_spec(s@),
{
    if is_reddit_short_url(s) {
        String::from_str(s)
    } else {
        String::from_str(s).concat("/.json")
    }
}

/// Does this URL end in `.json` (so that the default redirect-following
/// policy may be used)?
pub fn is_json(url: &str) -> (r: bool)
    ensures
        r == ".json"@.is_suffix_of(url@),
{
    str_ends_with(url, ".json")
}

// ---------------------------------------------------------------------------
// Classifier
// ---------------------------------------------------------------------------

/// The fallback URL of the post's Reddit-hosted video, when one is attached.
pub open spec fn post_video_fallback(p: PostInfo) -> Option<Seq<char>> {
    match p.media {
        Some(m) => match m.reddit_video {
            Some(v) => Some(v.fallback_url@),
            None => None,
        },
        None => None,
    }
}

/// What `scan_for_media` returns, as a function of the post alone:
/// 1. an attached `reddit_video` always wins — its fallback URL, query
///    stripped;
/// 2. otherwise a `self.`-prefixed domain means a text post, no media;
/// 3. otherwise a short-link URL is a cross-post pointer;
/// 4. otherwise the outbound link itself is the media.
pub open spec fn scan_spec(p: PostInfo) -> Option<MediaSourceView> {
    match post_video_fallback(p) {
        Some(fb) => Some(MediaSourceView::Media(strip_query_spec(fb))),
        None => {
            if "self."@.is_prefix_of(p.domain@) {
                None
            } else if is_short_link(p.url@) {
                Some(MediaSourceView::CrossPost(p.url@))
            } else {
                Some(MediaSourceView::Media(p.url@))
            }
        },
    }
}

/// Decide what a post "is": terminal media, a cross-post pointer, or a
/// text post with no media (`None`).
pub fn scan_for_media(post: &PostInfo) -> (r: Option<PostMediaSource>)
    ensures
        match r {
            Some(src) => scan_spec(*post) == Some(src@),
            None => scan_spec(*post) is None,
        },
{
    if let Some(media) = &post.media {
        if let Some(video) = &media.reddit_video {
            let url = strip_query_params(video.fallback_url.as_str());
            return Some(PostMediaSource::Media(Media { url }));
        }
    }
    if str_starts_with(post.domain.as_str(), "self.") {
        return None;
    }
    if is_reddit_short_url(post.url.as_str()) {
        Some(PostMediaSource::CrossPost(post.url.clone()))
    } else {
        Some(PostMediaSource::Media(Media { url: post.url.clone() }))
    }
}

/// Law: classification is a pure function of the post — equal posts are
/// classified equally, with no hidden state.
pub proof fn lemma_scan_deterministic(a: PostInfo, b: PostInfo)
    requires
        a == b,
    ensures
        scan_spec(a) == scan_spec(b),
{
}

/// Law: an attached `reddit_video` always wins. Whatever `domain` and
/// `url` hold, the answer is terminal media carrying the fallback URL
/// with its query string stripped.
pub proof fn lemma_video_priority(p: PostInfo)
    requires
        post_video_fallback(p) is Some,
    ensures
        scan_spec(p) == Some(
            MediaSourceView::Media(strip_query_spec(post_video_fallback(p).unwrap())),
        ),
{
}

/// Law: a post whose domain begins with `self.` is a text post and yields
/// no media, whatever else is populated — except an attached
/// `reddit_video`, which takes priority and is excluded here.
pub proof fn lemma_self_post(p: PostInfo)
    requires
        post_video_fallback(p) is None,
        "self."@.is_prefix_of(p.domain@),
    ensures
        scan_spec(p) is None,
{
}

/// Law: with no `reddit_video` attached and a non-self domain, a URL of
/// the exact short-link form is a cross-post pointer carrying that URL
/// verbatim.
pub proof fn lemma_short_link_cross_post(p: PostInfo)
    requires
        post_video_fallback(p) is None,
        !"self."@.is_prefix_of(p.domain@),
        is_short_link(p.url@),
    ensures
        scan_spec(p) == Some(MediaSourceView::CrossPost(p.url@)),
{
}

/// Law: under the same conditions, any URL that is not of the exact
/// short-link form — an extra path segment, a query string, another host —
/// falls through to the direct-media default and is returned verbatim.
pub proof fn lemma_non_short_link_media(p: PostInfo)
    requires
        post_video_fallback(p) is None,
        !"self."@.is_prefix_of(p.domain@),
        !is_short_link(p.url@),
    ensures
        scan_spec(p) == Some(MediaSourceView::Media(p.url@)),
{
}

// ---------------------------------------------------------------------------
// Shape extraction
// ---------------------------------------------------------------------------

/// The discriminator of an object.
pub open spec fn shape_of(o: ApiObject) -> ApiShape {
    match o {
        ApiObject::Listing(_) => ApiShape::Listing,
        ApiObject::Post(_) => ApiShape::Post,
        ApiObject::Comment(_) => ApiShape::Comment,
        ApiObject::More(_) => ApiShape::More,
    }
}

/// The post a payload carries, or the shape violation that prevents
/// extracting one: the first top-level object must be a listing and its
/// first child a post.
pub open spec fn post_of_response(resp: ApiResponse) -> Result<PostInfo, ResolutionError> {
    if resp.data@.len() == 0 {
        Err(ResolutionError::UnexpectedShape { got: ApiShape::Missing })
    } else {
        match resp.data@[0] {
            ApiObject::Listing(listing) => {
                if listing.children@.len() == 0 {
                    Err(ResolutionError::UnexpectedShape { got: ApiShape::Missing })
                } else {
                    match listing.children@[0] {
                        ApiObject::Post(post) => Ok(post),
                        other => Err(
                            ResolutionError::UnexpectedShape { got: shape_of(other) },
                        ),
                    }
                }
            },
            other => Err(ResolutionError::UnexpectedShape { got: shape_of(other) }),
        }
    }
}

// ---------------------------------------------------------------------------
// The redirect-following fetch, as a state machine
// ---------------------------------------------------------------------------

/// The state of one fetch between HTTP requests: the URL the next request
/// goes to (already normalized) and how many requests were made so far.
/// The caller issues the GET; a redirect response is handed back to
/// `on_redirect`, any other response ends the fetch and its body is the
/// result.
#[derive(Debug, Clone)]
pub struct FetchState {
    pub url: String,
    pub attempts: usize,
}

/// The mathematical value of a fetch state.
pub struct FetchStateView {
    pub url: Seq<char>,
    pub attempts: int,
}

impl View for FetchState {
    type V = FetchStateView;

    open spec fn view(&self) -> FetchStateView {
        FetchStateView { url: self.url@, attempts: self.attempts as int }
    }
}

impl FetchStateView {
    /// A live fetch state: the loop guard has not tripped, so one more
    /// request may be issued.
    pub open spec fn wf(self) -> bool {
        0 <= self.attempts < MAX_REDIRECTS
    }
}

/// How one redirect response advances a fetch: no `location` header is a
/// protocol violation; the MAX_REDIRECTS-th request still redirecting
/// trips the loop guard; otherwise the location is normalized and becomes
/// the next URL.
pub open spec fn redirect_step(s: FetchStateView, location: Option<Seq<char>>) -> Result<
    FetchStateView,
    ResolutionError,
> {
    match location {
        None => Err(ResolutionError::RedirectWithoutLocation),
        Some(loc) => {
            if s.attempts + 1 == MAX_REDIRECTS {
                Err(ResolutionError::TooManyRedirects { count: MAX_REDIRECTS })
            } else {
                Ok(FetchStateView { url: url_json_spec(loc), attempts: s.attempts + 1 })
            }
        },
    }
}

/// The `location` values of a redirect response, lifted to a sequence view.
pub open spec fn location_view(location: Option<&str>) -> Option<Seq<char>> {
    match location {
        Some(l) => Some(l@),
        None => None,
    }
}

impl FetchState {
    /// Begin a fetch of a post reference: normalize it and count no
    /// request yet.
    pub fn start(url: &str) -> (s: FetchState)
        ensures
            s@.url == url_json_spec(url@),
            s@.attempts == 0,
            s@.wf(),
    {
        FetchState { url: make_url_json(url), attempts: 0 }
    }

    /// Whether the caller should let its HTTP client follow redirects on
    /// its own: only when the URL already ends in `.json`. A short-link
    /// redirects to the canonical post URL, which must be intercepted and
    /// re-normalized instead of followed blindly.
    pub fn follow_redirects(&self) -> (r: bool)
        ensures
            r == ".json"@.is_suffix_of(self@.url),
    {
        is_json(self.url.as_str())
    }

    /// Advance the fetch after a redirect (3xx) response carrying the
    /// given `location` header.
    pub fn on_redirect(&self, location: Option<&str>) -> (r: Result<FetchState, ResolutionError>)
        requires
            self@.wf(),
        ensures
            match r {
                Ok(s2) => redirect_step(self@, location_view(location)) == Ok::<
                    FetchStateView,
                    ResolutionError,
                >(s2@) && s2@.wf(),
                Err(e) => redirect_step(self@, location_view(location)) == Err::<
                    FetchStateView,
                    ResolutionError,
                >(e),
            },
    {
        match location {
            None => Err(ResolutionError::RedirectWithoutLocation),
            Some(loc) => {
                let next = self.attempts + 1;
                if next == MAX_REDIRECTS {
                    Err(ResolutionError::TooManyRedirects { count: MAX_REDIRECTS })
                } else {
                    Ok(FetchState { url: make_url_json(loc), attempts: next })
                }
            },
        }
    }
}

/// The fetch state after a whole chain of redirect responses, each
/// carrying a location, or the error that stopped the chain.
pub open spec fn run_redirects(s: FetchStateView, locs: Seq<Seq<char>>) -> Result<
    FetchStateView,
    ResolutionError,
>
    decreases locs.len(),
{
    if locs.len() == 0 {
        Ok(s)
    } else {
        match redirect_step(s, Some(locs[0])) {
            Ok(s2) => run_redirects(s2, locs.subrange(1, locs.len() as int)),
            Err(e) => Err(e),
        }
    }
}

/// Law: against a server that answers every request with a redirect, a
/// fresh fetch survives any chain of fewer than MAX_REDIRECTS redirects,
/// and fails with TooManyRedirects the moment the chain reaches
/// MAX_REDIRECTS — never earlier, never later.
pub proof fn lemma_redirect_bound(s: FetchStateView, locs: Seq<Seq<char>>)
    requires
        s.attempts == 0,
    ensures
        locs.len() < MAX_REDIRECTS ==> (run_redirects(s, locs) matches Ok(t) && t.attempts
            == locs.len()),
        locs.len() >= MAX_REDIRECTS ==> run_redirects(s, locs) == Err::<
            FetchStateView,
            ResolutionError,
        >(ResolutionError::TooManyRedirects { count: MAX_REDIRECTS }),
{
    lemma_redirect_bound_from(s, locs);
}

proof fn lemma_redirect_bound_from(s: FetchStateView, locs: Seq<Seq<char>>)
    requires
        0 <= s.attempts < MAX_REDIRECTS,
    ensures
        locs.len() < MAX_REDIRECTS - s.attempts ==> (run_redirects(s, locs) matches Ok(t)
            && t.attempts == s.attempts + locs.len()),
        locs.len() >= MAX_REDIRECTS - s.attempts ==> run_redirects(s, locs) == Err::<
            FetchStateView,
            ResolutionError,
        >(ResolutionError::TooManyRedirects { count: MAX_REDIRECTS }),
    decreases locs.len(),
{
    if locs.len() == 0 {
    } else if s.attempts + 1 < MAX_REDIRECTS {
        let s2 = FetchStateView { url: url_json_spec(locs[0]), attempts: s.attempts + 1 };
        lemma_redirect_bound_from(s2, locs.subrange(1, locs.len() as int));
    }
}

/// Extract the post from a permalink payload, requiring the
/// listing-then-post structure Reddit guarantees.
pub fn get_post_from_response(resp: &ApiResponse) -> (r: Result<&PostInfo, ResolutionError>)
    ensures
        match r {
            Ok(p) => post_of_response(*resp) == Ok::<PostInfo, ResolutionError>(*p),
            Err(e) => post_of_response(*resp) == Err::<PostInfo, ResolutionError>(e),
        },
{
    if resp.data.len() == 0 {
        return Err(ResolutionError::UnexpectedShape { got: ApiShape::Missing });
    }
    match &resp.data[0] {
        ApiObject::Listing(listing) => {
            if listing.children.len() == 0 {
                return Err(ResolutionError::UnexpectedShape { got: ApiShape::Missing });
            }
            match &listing.children[0] {
                ApiObject::Post(post) => Ok(post),
                ApiObject::Listing(_) => Err(
                    ResolutionError::UnexpectedShape { got: ApiShape::Listing },
                ),
                ApiObject::Comment(_) => Err(
                    ResolutionError::UnexpectedShape { got: ApiShape::Comment },
                ),
                ApiObject::More(_) => Err(
                    ResolutionError::UnexpectedShape { got: ApiShape::More },
                ),
            }
        },
        ApiObject::Post(_) => Err(ResolutionError::UnexpectedShape { got: ApiShape::Post }),
        ApiObject::Comment(_) => Err(ResolutionError::UnexpectedShape { got: ApiShape::Comment }),
        ApiObject::More(_) => Err(ResolutionError::UnexpectedShape { got: ApiShape::More }),
    }
}

} // verus!
