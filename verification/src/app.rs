//! What the application is asked to do, and with what: the parameters of
//! a purge and of a submission, and the rules that turn the parameters of
//! a submission into the post that is submitted.

use crate::error::{text_view, Error, ErrorKind, ErrorView};
use crate::reddit::{Post, PostView, SelfPostBody, SelfPostBodyView};
use crate::settings;
use vstd::prelude::*;

verus! {

/// The page size that listings are walked with.
pub const LISTING_LIMIT: u32 = 50;

/// The parameters of the submission of a link.
pub struct SubmitLinkParams<'a> {
    pub credentials: &'a settings::Credentials,
    pub subreddit: &'a str,
    pub title: &'a str,
    pub url: &'a str,
}

/// The result of the submission of a link.
#[derive(Debug)]
pub struct SubmitLinkResult {}

/// The parameters of the submission of a self-post. Exactly one of the
/// four sources of the body is expected.
pub struct SubmitSelfPostParams<'a> {
    pub credentials: &'a settings::Credentials,
    pub subreddit: &'a str,
    pub title: &'a str,
    pub text: Option<&'a str>,
    pub text_file: Option<&'a str>,
    pub richtext_json: Option<&'a str>,
    pub richtext_json_file: Option<&'a str>,
}

/// The result of the submission of a self-post.
#[derive(Debug)]
pub struct SubmitSelfPostResult {}

/// The parameters of a purge.
pub struct RegredditParams<'a> {
    pub settings: &'a settings::Settings,
}

/// The result of a purge.
#[derive(Debug)]
pub struct RegredditResult {}

/// What parsing a text as an absolute URL gives: the serialization of the
/// URL, or the description of why the text is none.
pub uninterp spec fn url_parse(input: Seq<char>) -> Result<Seq<char>, Seq<char>>;

/// Parses `input` as an absolute URL with `url::Url::parse`. Believed, not
/// proved: the result is the serialization of the parsed URL or the
/// description of the parse error, and depends on nothing but `input`.
#[verifier::external_body]
fn parse_url(input: &str) -> (parsed: Result<String, String>)
    ensures
        text_view(parsed) == url_parse(input@),
{
    match ::url::Url::parse(input) {
        Ok(url) => Ok(String::from(url)),
        Err(err) => Err(err.to_string()),
    }
}

/// The view of a post or of the error that kept it from being built.
pub open spec fn post_view(post: Result<Post, Error>) -> Result<PostView, ErrorView> {
    match post {
        Ok(post) => Ok(post.deep_view()),
        Err(error) => Err(error@),
    }
}

/// The link post for a community, a title and a parsed URL: the post
/// carries the URL as parsed; a text that is no URL is invalid input,
/// described as the parser describes it.
pub open spec fn link_post_of(
    subreddit: Seq<char>,
    title: Seq<char>,
    parsed: Result<Seq<char>, Seq<char>>,
) -> Result<PostView, ErrorView> {
    match parsed {
        Ok(url) => Ok(PostView::Link { subreddit, title, url }),
        Err(message) => Err(ErrorView::custom(ErrorKind::InvalidInput, message)),
    }
}

/// The link post for `subreddit` and `title`, given what parsing the URL
/// gave.
pub fn link_post_from(subreddit: &str, title: &str, parsed: Result<String, String>) -> (post:
    Result<Post, Error>)
    ensures
        post_view(post) == link_post_of(subreddit@, title@, text_view(parsed)),
{
    match parsed {
        Ok(url) => Ok(Post::Link { subreddit: subreddit.to_owned(), title: title.to_owned(), url }),
        Err(message) => Err(Error::new(ErrorKind::InvalidInput, message.as_str())),
    }
}

/// The link post that `p` asks to submit. The URL is parsed first: the
/// post carries it as parsed, and a text that is no absolute URL is
/// invalid input.
pub fn link_post(p: &SubmitLinkParams) -> (post: Result<Post, Error>)
    ensures
        post_view(post) == link_post_of(p.subreddit@, p.title@, url_parse(p.url@)),
{
    link_post_from(p.subreddit, p.title, parse_url(p.url))
}

/// Whether the body of a self-post is plain text or rich text.
#[derive(Clone, Copy, Debug, PartialEq, Eq, Structural)]
pub enum BodyFormat {
    Text,
    RichtextJson,
}

/// How the body of a self-post is come by.
#[derive(Debug)]
pub enum SelfPostPlan<'a> {
    /// The body was given; this is the post.
    Ready(Post),
    /// The body is the content of the file `path`, yet to be read.
    Read { path: &'a str, format: BodyFormat },
}

/// What a [`SelfPostPlan`] is, mathematically.
pub ghost enum SelfPostPlanView {
    Ready(PostView),
    Read { path: Seq<char>, format: BodyFormat },
}

impl<'a> DeepView for SelfPostPlan<'a> {
    type V = SelfPostPlanView;

    open spec fn deep_view(&self) -> SelfPostPlanView {
        match self {
            SelfPostPlan::Ready(post) => SelfPostPlanView::Ready(post.deep_view()),
            SelfPostPlan::Read { path, format } => SelfPostPlanView::Read {
                path: path@,
                format: *format,
            },
        }
    }
}

/// The body of the given format with the given content.
pub open spec fn body_of(format: BodyFormat, content: Seq<char>) -> SelfPostBodyView {
    match format {
        BodyFormat::Text => SelfPostBodyView::Text(content),
        BodyFormat::RichtextJson => SelfPostBodyView::RichtextJson(content),
    }
}

/// The error of a self-post that names no source for its body, or more
/// than one.
pub open spec fn one_source_only() -> ErrorView {
    ErrorView::custom(ErrorKind::InvalidInput, "only one input source is accepted"@)
}

/// How the body of the self-post for `subreddit` and `title` is come by,
/// given the four places it may be named in. Exactly one of them has to be
/// named.
pub open spec fn self_post_plan_of(
    subreddit: Seq<char>,
    title: Seq<char>,
    text: Option<Seq<char>>,
    text_file: Option<Seq<char>>,
    richtext_json: Option<Seq<char>>,
    richtext_json_file: Option<Seq<char>>,
) -> Result<SelfPostPlanView, ErrorView> {
    match (text, text_file, richtext_json, richtext_json_file) {
        (Some(text), None, None, None) => Ok(
            SelfPostPlanView::Ready(
                PostView::SelfPost { subreddit, title, body: body_of(BodyFormat::Text, text) },
            ),
        ),
        (None, Some(path), None, None) => Ok(
            SelfPostPlanView::Read { path, format: BodyFormat::Text },
        ),
        (None, None, Some(json), None) => Ok(
            SelfPostPlanView::Ready(
                PostView::SelfPost {
                    subreddit,
                    title,
                    body: body_of(BodyFormat::RichtextJson, json),
                },
            ),
        ),
        (None, None, None, Some(path)) => Ok(
            SelfPostPlanView::Read { path, format: BodyFormat::RichtextJson },
        ),
        _ => Err(one_source_only()),
    }
}

/// The view of a plan or of the error that kept it from being made.
pub open spec fn plan_view(plan: Result<SelfPostPlan, Error>) -> Result<
    SelfPostPlanView,
    ErrorView,
> {
    match plan {
        Ok(plan) => Ok(plan.deep_view()),
        Err(error) => Err(error@),
    }
}

/// The self-post for `subreddit` and `title` with the given body.
fn self_post(subreddit: &str, title: &str, format: BodyFormat, content: String) -> (post: Post)
    ensures
        post.deep_view() == (PostView::SelfPost {
            subreddit: subreddit@,
            title: title@,
            body: body_of(format, content@),
        }),
{
    let body = match format {
        BodyFormat::Text => SelfPostBody::Text(content),
        BodyFormat::RichtextJson => SelfPostBody::RichtextJson(content),
    };
    Post::SelfPost { subreddit: subreddit.to_owned(), title: title.to_owned(), body }
}

/// How the body of the self-post that `p` asks to submit is come by:
/// either the post is ready, or a file has to be read first. Parameters
/// that name no source for the body, or more than one, are invalid input.
pub fn self_post_plan<'a>(p: &SubmitSelfPostParams<'a>) -> (plan: Result<SelfPostPlan<'a>, Error>)
    ensures
        plan_view(plan) == self_post_plan_of(
            p.subreddit@,
            p.title@,
            p.text.deep_view(),
            p.text_file.deep_view(),
            p.richtext_json.deep_view(),
            p.richtext_json_file.deep_view(),
        ),
{
    match (p.text, p.text_file, p.richtext_json, p.richtext_json_file) {
        (Some(text), None, None, None) => Ok(
            SelfPostPlan::Ready(
                self_post(p.subreddit, p.title, BodyFormat::Text, text.to_owned()),
            ),
        ),
        (None, Some(path), None, None) => Ok(SelfPostPlan::Read { path, format: BodyFormat::Text }),
        (None, None, Some(json), None) => Ok(
            SelfPostPlan::Ready(
                self_post(p.subreddit, p.title, BodyFormat::RichtextJson, json.to_owned()),
            ),
        ),
        (None, None, None, Some(path)) => Ok(
            SelfPostPlan::Read { path, format: BodyFormat::RichtextJson },
        ),
        _ => Err(Error::new(ErrorKind::InvalidInput, "only one input source is accepted")),
    }
}

/// The self-post whose body is the content of a file, given what reading
/// the file gave: the content, or the description of the failure to read.
pub open spec fn self_post_from_file_of(
    subreddit: Seq<char>,
    title: Seq<char>,
    format: BodyFormat,
    content: Result<Seq<char>, Seq<char>>,
) -> Result<PostView, ErrorView> {
    match content {
        Ok(content) => Ok(PostView::SelfPost { subreddit, title, body: body_of(format, content) }),
        Err(message) => Err(ErrorView::custom(ErrorKind::Io, message)),
    }
}

/// The self-post for `subreddit` and `title` whose body is the content of
/// a file, given what reading the file gave. A file that could not be read
/// is an I/O error, described as the failure to read was.
pub fn self_post_from_file(
    subreddit: &str,
    title: &str,
    format: BodyFormat,
    content: Result<String, String>,
) -> (post: Result<Post, Error>)
    ensures
        post_view(post) == self_post_from_file_of(subreddit@, title@, format, text_view(content)),
{
    match content {
        Ok(content) => Ok(self_post(subreddit, title, format, content)),
        Err(message) => Err(Error::new(ErrorKind::Io, message.as_str())),
    }
}

/// How much of what happens is logged.
#[derive(Clone, Copy, Debug, PartialEq, Eq, Structural)]
pub enum LogLevel {
    Off,
    Error,
    Warn,
    Info,
    Debug,
    Trace,
}

/// The level that is logged at when verbosity was asked for `verbosity`
/// times: nothing at all by default, then one level more each time, up to
/// everything.
pub open spec fn log_level_of(verbosity: u64) -> LogLevel {
    if verbosity == 0 {
        LogLevel::Off
    } else if verbosity == 1 {
        LogLevel::Error
    } else if verbosity == 2 {
        LogLevel::Warn
    } else if verbosity == 3 {
        LogLevel::Info
    } else if verbosity == 4 {
        LogLevel::Debug
    } else {
        LogLevel::Trace
    }
}

/// The level that is logged at when verbosity was asked for `verbosity`
/// times.
pub fn log_level(verbosity: u64) -> (level: LogLevel)
    ensures
        level == log_level_of(verbosity),
{
    match verbosity {
        0 => LogLevel::Off,
        1 => LogLevel::Error,
        2 => LogLevel::Warn,
        3 => LogLevel::Info,
        4 => LogLevel::Debug,
        _ => LogLevel::Trace,
    }
}

} // verus!
