//! The values exchanged with the content platform: what a listing holds,
//! how a listing is paged through, and the forms that deletions and
//! submissions are sent as.

use vstd::prelude::*;

verus! {

/// The form sent to delete one item.
pub struct DeleteRequestForm<'a> {
    pub id: &'a str,
}

/// Where in a listing a page starts and how long it may be.
#[derive(Debug)]
pub struct ListingControl {
    pub after: Option<String>,
    pub before: Option<String>,
    pub limit: Option<u32>,
    pub count: Option<u32>,
    pub show: Option<ListingShow>,
}

/// Which items a listing shows.
#[derive(Clone, Copy, Debug, PartialEq, Eq, Structural)]
pub enum ListingShow {
    All,
}

/// What a [`ListingControl`] is, mathematically.
pub ghost struct ListingControlView {
    pub after: Option<Seq<char>>,
    pub before: Option<Seq<char>>,
    pub limit: Option<u32>,
    pub count: Option<u32>,
    pub show: Option<ListingShow>,
}

impl ListingControlView {
    /// The request for the page that follows `after` (the start of the
    /// listing where it is absent), at most `limit` items long.
    pub open spec fn page_after(after: Option<Seq<char>>, limit: u32) -> ListingControlView {
        ListingControlView { after, before: None, limit: Some(limit), count: None, show: None }
    }
}

impl DeepView for ListingControl {
    type V = ListingControlView;

    open spec fn deep_view(&self) -> ListingControlView {
        ListingControlView {
            after: self.after.deep_view(),
            before: self.before.deep_view(),
            limit: self.limit,
            count: self.count,
            show: self.show,
        }
    }
}

/// One object of the platform, as decoded from a response.
#[derive(Debug)]
pub enum Object {
    /// One page of a listing.
    Listing {
        modhash: Option<String>,
        dist: u64,
        after: Option<String>,
        before: Option<String>,
        children: Vec<Object>,
    },
    /// A comment; `name` is the handle it is deleted by.
    Comment { link_title: String, link_id: String, subreddit: String, name: String },
    /// A post; `name` is the handle it is deleted by.
    Link { subreddit: String, title: String, name: String },
    /// An element that could not be decoded into any of the kinds above.
    Unknown,
}

/// A post to be submitted.
#[derive(Debug)]
pub enum Post {
    Link { subreddit: String, title: String, url: String },
    SelfPost { subreddit: String, title: String, body: SelfPostBody },
}

/// The body of a self-post.
#[derive(Debug)]
pub enum SelfPostBody {
    Text(String),
    RichtextJson(String),
}

/// What a [`SelfPostBody`] is, mathematically.
pub ghost enum SelfPostBodyView {
    Text(Seq<char>),
    RichtextJson(Seq<char>),
}

impl DeepView for SelfPostBody {
    type V = SelfPostBodyView;

    open spec fn deep_view(&self) -> SelfPostBodyView {
        match self {
            SelfPostBody::Text(text) => SelfPostBodyView::Text(text@),
            SelfPostBody::RichtextJson(json) => SelfPostBodyView::RichtextJson(json@),
        }
    }
}

/// What a [`Post`] is, mathematically.
pub ghost enum PostView {
    Link { subreddit: Seq<char>, title: Seq<char>, url: Seq<char> },
    SelfPost { subreddit: Seq<char>, title: Seq<char>, body: SelfPostBodyView },
}

impl DeepView for Post {
    type V = PostView;

    open spec fn deep_view(&self) -> PostView {
        match self {
            Post::Link { subreddit, title, url } => PostView::Link {
                subreddit: subreddit@,
                title: title@,
                url: url@,
            },
            Post::SelfPost { subreddit, title, body } => PostView::SelfPost {
                subreddit: subreddit@,
                title: title@,
                body: body.deep_view(),
            },
        }
    }
}

/// The answer to a deletion.
#[derive(Debug)]
pub struct DeleteResponse {}

/// The answer to a request for an access token.
#[derive(Debug)]
pub struct GetTokenResponse {
    pub access_token: String,
}

/// The form a submission is sent as.
pub struct SubmitRequest<'a> {
    pub subreddit: &'a str,
    pub title: &'a str,
    pub kind: String,
    pub url: Option<&'a str>,
    pub resubmit: bool,
    pub text: Option<&'a str>,
    pub richtext_json: Option<&'a str>,
}

/// What a [`SubmitRequest`] is, mathematically.
pub ghost struct SubmitRequestView {
    pub subreddit: Seq<char>,
    pub title: Seq<char>,
    pub kind: Seq<char>,
    pub url: Option<Seq<char>>,
    pub resubmit: bool,
    pub text: Option<Seq<char>>,
    pub richtext_json: Option<Seq<char>>,
}

impl<'a> DeepView for SubmitRequest<'a> {
    type V = SubmitRequestView;

    open spec fn deep_view(&self) -> SubmitRequestView {
        SubmitRequestView {
            subreddit: self.subreddit@,
            title: self.title@,
            kind: self.kind@,
            url: self.url.deep_view(),
            resubmit: self.resubmit,
            text: self.text.deep_view(),
            richtext_json: self.richtext_json.deep_view(),
        }
    }
}

/// The form that submits `post`: a link goes out as kind `link` with its
/// URL, a self-post as kind `self` with its text or its rich text, and
/// either may repeat an earlier submission.
pub open spec fn submit_form(post: PostView) -> SubmitRequestView {
    match post {
        PostView::Link { subreddit, title, url } => SubmitRequestView {
            subreddit,
            title,
            kind: "link"@,
            url: Some(url),
            resubmit: true,
            text: None,
            richtext_json: None,
        },
        PostView::SelfPost { subreddit, title, body } => SubmitRequestView {
            subreddit,
            title,
            kind: "self"@,
            url: None,
            resubmit: true,
            text: match body {
                SelfPostBodyView::Text(text) => Some(text),
                SelfPostBodyView::RichtextJson(_) => None,
            },
            richtext_json: match body {
                SelfPostBodyView::Text(_) => None,
                SelfPostBodyView::RichtextJson(json) => Some(json),
            },
        },
    }
}

impl<'a> SubmitRequest<'a> {
    /// The form that submits `post`.
    pub fn for_post(post: &'a Post) -> (form: SubmitRequest<'a>)
        ensures
            form.deep_view() == submit_form(post.deep_view()),
    {
        match post {
            Post::Link { subreddit, title, url } => SubmitRequest {
                subreddit: subreddit.as_str(),
                title: title.as_str(),
                kind: "link".to_owned(),
                url: Some(url.as_str()),
                resubmit: true,
                text: None,
                richtext_json: None,
            },
            Post::SelfPost { subreddit, title, body } => match body {
                SelfPostBody::Text(text) => SubmitRequest {
                    subreddit: subreddit.as_str(),
                    title: title.as_str(),
                    kind: "self".to_owned(),
                    url: None,
                    resubmit: true,
                    text: Some(text.as_str()),
                    richtext_json: None,
                },
                SelfPostBody::RichtextJson(json) => SubmitRequest {
                    subreddit: subreddit.as_str(),
                    title: title.as_str(),
                    kind: "self".to_owned(),
                    url: None,
                    resubmit: true,
                    text: None,
                    richtext_json: Some(json.as_str()),
                },
            },
        }
    }
}

/// The answer to a submission.
#[derive(Debug)]
pub struct SubmitResponse {
    pub success: bool,
}

} // verus!
