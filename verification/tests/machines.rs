use bananagrabber::media::Media;
use bananagrabber::media_extraction::{
    extract_media_from_response, ResolveOutcome, ResolveState, CROSS_POST_RETRIES,
};
use bananagrabber::reddit::{
    ApiListing, ApiObject, ApiResponse, ApiShape, CommentInfo, FetchState, PostInfo,
    PostMediaSource, ResolutionError, MAX_REDIRECTS,
};

fn bare_post(url: &str) -> PostInfo {
    PostInfo {
        subreddit: "gifs".to_string(),
        title: "a post".to_string(),
        is_reddit_media_domain: false,
        secure_media: None,
        media: None,
        domain: "v.redd.it".to_string(),
        over_18: false,
        is_video: false,
        url: url.to_string(),
    }
}

fn response_around(p: PostInfo) -> ApiResponse {
    ApiResponse {
        data: vec![ApiObject::Listing(ApiListing { children: vec![ApiObject::Post(p)] })],
    }
}

#[test]
fn fetch_start_normalizes() {
    let s = FetchState::start("https://www.reddit.com/video/yub5uok42jq81");
    assert_eq!(s.url.as_str(), "https://www.reddit.com/video/yub5uok42jq81/.json");
    assert_eq!(s.attempts, 0);
    assert!(s.follow_redirects());
}

#[test]
fn fetch_start_keeps_short_link() {
    let s = FetchState::start("https://v.redd.it/yub5uok42jq81");
    assert_eq!(s.url.as_str(), "https://v.redd.it/yub5uok42jq81");
    assert!(!s.follow_redirects());
}

#[test]
fn fetch_redirect_without_location_fails() {
    let s = FetchState::start("https://v.redd.it/yub5uok42jq81");
    match s.on_redirect(None) {
        Err(e) => assert_eq!(e, ResolutionError::RedirectWithoutLocation),
        Ok(s2) => panic!("fetch went on to {}", s2.url),
    }
}

#[test]
fn fetch_redirect_renormalizes_location() {
    let s = FetchState::start("https://v.redd.it/yub5uok42jq81");
    let s2 = s.on_redirect(Some("https://www.reddit.com/video/yub5uok42jq81")).unwrap();
    assert_eq!(s2.url.as_str(), "https://www.reddit.com/video/yub5uok42jq81/.json");
    assert_eq!(s2.attempts, 1);
}

#[test]
fn fetch_fails_at_exactly_max_redirects() {
    let mut s = FetchState::start("https://v.redd.it/yub5uok42jq81");
    // the first MAX_REDIRECTS - 1 redirect replies keep the fetch alive
    for k in 1..MAX_REDIRECTS {
        s = s.on_redirect(Some("https://v.redd.it/yub5uok42jq81")).unwrap();
        assert_eq!(s.attempts, k);
    }
    // the reply to the MAX_REDIRECTS-th request trips the guard
    match s.on_redirect(Some("https://v.redd.it/yub5uok42jq81")) {
        Err(e) => assert_eq!(e, ResolutionError::TooManyRedirects { count: MAX_REDIRECTS }),
        Ok(s2) => panic!("fetch went on to {}", s2.url),
    }
}

#[test]
fn resolve_media_outcome_is_done() {
    let s = ResolveState::start("https://v.redd.it/dkczbt15n2r71");
    let out = s.on_outcome(Some(PostMediaSource::Media(Media {
        url: "https://i.imgur.com/wSME5Xy.gif".to_string(),
    })));
    match out {
        ResolveOutcome::Done(Some(u)) => assert_eq!(u.as_str(), "https://i.imgur.com/wSME5Xy.gif"),
        other => panic!("unexpected outcome: {:?}", other),
    }
}

#[test]
fn resolve_none_outcome_is_done_without_media() {
    let s = ResolveState::start("https://v.redd.it/dkczbt15n2r71");
    match s.on_outcome(None) {
        ResolveOutcome::Done(None) => {}
        other => panic!("unexpected outcome: {:?}", other),
    }
}

#[test]
fn resolve_fails_at_exactly_cross_post_limit() {
    let mut s = ResolveState::start("https://v.redd.it/hop0");
    // the first CROSS_POST_RETRIES - 1 cross-posts keep the resolution alive
    for k in 1..CROSS_POST_RETRIES {
        let next = format!("https://v.redd.it/hop{}", k);
        match s.on_outcome(Some(PostMediaSource::CrossPost(next.clone()))) {
            ResolveOutcome::Continue(s2) => {
                assert_eq!(s2.url, next);
                assert_eq!(s2.hops, k);
                s = s2;
            }
            other => panic!("unexpected outcome at hop {}: {:?}", k, other),
        }
    }
    // the CROSS_POST_RETRIES-th cross-post trips the guard
    match s.on_outcome(Some(PostMediaSource::CrossPost("https://v.redd.it/hopx".to_string()))) {
        ResolveOutcome::Failed(e) => assert_eq!(
            e,
            ResolutionError::CrossPostLimitExceeded { hops: CROSS_POST_RETRIES }
        ),
        other => panic!("unexpected outcome: {:?}", other),
    }
}

#[test]
fn extract_classifies_the_carried_post() {
    let resp = response_around(bare_post("https://v.redd.it/dkczbt15n2r71"));
    assert_eq!(
        extract_media_from_response(&resp),
        Ok(Some(PostMediaSource::CrossPost("https://v.redd.it/dkczbt15n2r71".to_string())))
    );
}

#[test]
fn extract_rejects_empty_payload() {
    let resp = ApiResponse { data: vec![] };
    assert_eq!(
        extract_media_from_response(&resp),
        Err(ResolutionError::UnexpectedShape { got: ApiShape::Missing })
    );
}

#[test]
fn extract_rejects_post_in_first_place() {
    let resp = ApiResponse {
        data: vec![ApiObject::Post(bare_post("https://v.redd.it/dkczbt15n2r71"))],
    };
    assert_eq!(
        extract_media_from_response(&resp),
        Err(ResolutionError::UnexpectedShape { got: ApiShape::Post })
    );
}

#[test]
fn extract_rejects_comment_as_first_child() {
    let resp = ApiResponse {
        data: vec![ApiObject::Listing(ApiListing {
            children: vec![ApiObject::Comment(CommentInfo {})],
        })],
    };
    assert_eq!(
        extract_media_from_response(&resp),
        Err(ResolutionError::UnexpectedShape { got: ApiShape::Comment })
    );
}

#[test]
fn extract_rejects_empty_listing() {
    let resp = ApiResponse {
        data: vec![ApiObject::Listing(ApiListing { children: vec![] })],
    };
    assert_eq!(
        extract_media_from_response(&resp),
        Err(ResolutionError::UnexpectedShape { got: ApiShape::Missing })
    );
}

#[test]
fn scan_twice_gives_the_same_answer() {
    let p = bare_post("https://v.redd.it/dkczbt15n2r71");
    let first = bananagrabber::reddit::scan_for_media(&p);
    let second = bananagrabber::reddit::scan_for_media(&p);
    assert_eq!(first, second);
}
