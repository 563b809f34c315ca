use vstd::prelude::*;

use crate::reddit::{
    post_of_response, scan_for_media, scan_spec, ApiResponse, MediaSourceView, PostMediaSource,
    ResolutionError,
};

verus! {

/// Upper bound on the cross-post hops one resolution will follow.
pub const CROSS_POST_RETRIES: usize = 10;

/// An optional classifier answer, lifted to its mathematical value.
pub open spec fn source_opt_view(o: Option<PostMediaSource>) -> Option<MediaSourceView> {
    match o {
        Some(s) => Some(s@),
        None => None,
    }
}

/// What one payload says, end to end: extract its post, then classify it.
pub open spec fn extract_spec(resp: ApiResponse) -> Result<
    Option<MediaSourceView>,
    ResolutionError,
> {
    match post_of_response(resp) {
        Ok(p) => Ok(scan_spec(p)),
        Err(e) => Err(e),
    }
}

/// Extract the post from a payload and classify it.
pub fn extract_media_from_response(resp: &ApiResponse) -> (r: Result<
    Option<PostMediaSource>,
    ResolutionError,
>)
    ensures
        match r {
            Ok(o) => extract_spec(*resp) == Ok::<Option<MediaSourceView>, ResolutionError>(
                source_opt_view(o),
            ),
            Err(e) => extract_spec(*resp) == Err::<Option<MediaSourceView>, ResolutionError>(e),
        },
{
    let post = match crate::reddit::get_post_from_response(resp) {
        Ok(p) => p,
        Err(e) => {
            return Err(e);
        },
    };
    Ok(scan_for_media(post))
}

// ---------------------------------------------------------------------------
// The cross-post chain, as a state machine
// ---------------------------------------------------------------------------

/// The state of one resolution between fetches: the URL to fetch and
/// classify next, and how many fetches happened so far. The caller runs
/// the fetch and hands the classifier's answer to `on_outcome`.
#[derive(Debug, Clone)]
pub struct ResolveState {
    pub url: String,
    pub hops: usize,
}

/// The mathematical value of a resolution state.
pub struct ResolveStateView {
    pub url: Seq<char>,
    pub hops: int,
}

impl View for ResolveState {
    type V = ResolveStateView;

    open spec fn view(&self) -> ResolveStateView {
        ResolveStateView { url: self.url@, hops: self.hops as int }
    }
}

impl ResolveStateView {
    /// A live resolution: the hop guard has not tripped, so one more
    /// fetch may be made.
    pub open spec fn wf(self) -> bool {
        0 <= self.hops < CROSS_POST_RETRIES
    }
}

/// How one resolution ends or continues: a terminal answer (`Done`),
/// another URL to fetch (`Continue`), or a tripped loop guard (`Failed`).
#[derive(Debug)]
pub enum ResolveOutcome {
    Done(Option<String>),
    Continue(ResolveState),
    Failed(ResolutionError),
}

/// The mathematical value of a resolution outcome.
pub enum ResolveOutcomeView {
    Done(Option<Seq<char>>),
    Continue(ResolveStateView),
    Failed(ResolutionError),
}

impl View for ResolveOutcome {
    type V = ResolveOutcomeView;

    open spec fn view(&self) -> ResolveOutcomeView {
        match self {
            ResolveOutcome::Done(Some(u)) => ResolveOutcomeView::Done(Some(u@)),
            ResolveOutcome::Done(None) => ResolveOutcomeView::Done(None),
            ResolveOutcome::Continue(s) => ResolveOutcomeView::Continue(s@),
            ResolveOutcome::Failed(e) => ResolveOutcomeView::Failed(*e),
        }
    }
}

/// How one classified fetch advances a resolution: terminal media or an
/// explicit "no media" answer ends it; a cross-post pointer becomes the
/// next URL, unless it is the CROSS_POST_RETRIES-th hop, which trips the
/// loop guard.
pub open spec fn resolve_step(s: ResolveStateView, outcome: Option<MediaSourceView>)
    -> ResolveOutcomeView {
    match outcome {
        None => ResolveOutcomeView::Done(None),
        Some(MediaSourceView::Media(u)) => ResolveOutcomeView::Done(Some(u)),
        Some(MediaSourceView::CrossPost(u)) => {
            if s.hops + 1 == CROSS_POST_RETRIES {
                ResolveOutcomeView::Failed(
                    ResolutionError::CrossPostLimitExceeded { hops: CROSS_POST_RETRIES },
                )
            } else {
                ResolveOutcomeView::Continue(ResolveStateView { url: u, hops: s.hops + 1 })
            }
        },
    }
}

impl ResolveState {
    /// Begin resolving a post reference.
    pub fn start(url: &str) -> (s: ResolveState)
        ensures
            s@.url == url@,
            s@.hops == 0,
            s@.wf(),
    {
        ResolveState { url: String::from_str(url), hops: 0 }
    }

    /// Advance the resolution with the classifier's answer on the
    /// payload fetched from the current URL.
    pub fn on_outcome(self, outcome: Option<PostMediaSource>) -> (r: ResolveOutcome)
        requires
            self@.wf(),
        ensures
            r@ == resolve_step(self@, source_opt_view(outcome)),
    {
        match outcome {
            None => ResolveOutcome::Done(None),
            Some(PostMediaSource::Media(m)) => ResolveOutcome::Done(Some(m.url)),
            Some(PostMediaSource::CrossPost(u)) => {
                let next = self.hops + 1;
                if next == CROSS_POST_RETRIES {
                    ResolveOutcome::Failed(
                        ResolutionError::CrossPostLimitExceeded { hops: CROSS_POST_RETRIES },
                    )
                } else {
                    ResolveOutcome::Continue(ResolveState { url: u, hops: next })
                }
            },
        }
    }
}

/// The outcome after a whole chain of fetches that all classified as
/// cross-posts pointing at the given URLs in order.
pub open spec fn run_cross_posts(s: ResolveStateView, urls: Seq<Seq<char>>) -> ResolveOutcomeView
    decreases urls.len(),
{
    if urls.len() == 0 {
        ResolveOutcomeView::Continue(s)
    } else {
        match resolve_step(s, Some(MediaSourceView::CrossPost(urls[0]))) {
            ResolveOutcomeView::Continue(s2) => run_cross_posts(
                s2,
                urls.subrange(1, urls.len() as int),
            ),
            other => other,
        }
    }
}

/// Law: a chain in which every fetch classifies as a cross-post keeps a
/// fresh resolution going for any chain shorter than CROSS_POST_RETRIES,
/// and fails with CrossPostLimitExceeded at exactly the
/// CROSS_POST_RETRIES-th hop — never earlier, never later.
pub proof fn lemma_cross_post_bound(s: ResolveStateView, urls: Seq<Seq<char>>)
    requires
        s.hops == 0,
    ensures
        urls.len() < CROSS_POST_RETRIES ==> (run_cross_posts(s, urls)
            matches ResolveOutcomeView::Continue(t) && t.hops == urls.len()),
        urls.len() >= CROSS_POST_RETRIES ==> run_cross_posts(s, urls)
            == ResolveOutcomeView::Failed(
            ResolutionError::CrossPostLimitExceeded { hops: CROSS_POST_RETRIES },
        ),
{
    lemma_cross_post_bound_from(s, urls);
}

proof fn lemma_cross_post_bound_from(s: ResolveStateView, urls: Seq<Seq<char>>)
    requires
        0 <= s.hops < CROSS_POST_RETRIES,
    ensures
        urls.len() < CROSS_POST_RETRIES - s.hops ==> (run_cross_posts(s, urls)
            matches ResolveOutcomeView::Continue(t) && t.hops == s.hops + urls.len()),
        urls.len() >= CROSS_POST_RETRIES - s.hops ==> run_cross_posts(s, urls)
            == ResolveOutcomeView::Failed(
            ResolutionError::CrossPostLimitExceeded { hops: CROSS_POST_RETRIES },
        ),
    decreases urls.len(),
{
    if urls.len() == 0 {
    } else if s.hops + 1 < CROSS_POST_RETRIES {
        let s2 = ResolveStateView { url: urls[0], hops: s.hops + 1 };
        lemma_cross_post_bound_from(s2, urls.subrange(1, urls.len() as int));
    }
}

} // verus!
