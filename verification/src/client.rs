//! What is asked of the content platform and what it answers: the
//! parameters and results of each call, the request that each call is
//! sent as, and the reading of what comes back.
//!
//! Sending a request and decoding an answer are left to the caller; which
//! request goes out, and what an answer means, is decided here.

use crate::error::{text_view, Error, ErrorKind, ErrorView};
use crate::reddit;
use crate::reddit::{
    DeleteRequestForm, GetTokenResponse, ListingControl, ListingControlView, SubmitRequest,
    SubmitRequestView, SubmitResponse,
};
use crate::settings;
use vstd::prelude::*;
use vstd::string::StringExecFns;

verus! {

/// What a client of the platform is set up with.
pub struct Params {
    pub user_agent: String,
}

/// The parameters of a request for an access token.
pub struct BasicAuthParams<'a> {
    pub credentials: &'a settings::Credentials,
}

/// The result of a request for an access token.
#[derive(Debug)]
pub struct BasicAuthResult {
    pub access_token: String,
}

/// The parameters of the deletion of one item.
pub struct DeleteLinkParams<'a> {
    pub access_token: &'a str,
    pub id: &'a str,
}

/// The result of the deletion of one item.
#[derive(Debug)]
pub struct DeleteLinkResult {}

/// The parameters of a request for one page of an account's comments.
pub struct GetCommentsParams<'a> {
    pub access_token: &'a str,
    pub username: &'a str,
    pub listing_control: &'a reddit::ListingControl,
}

/// The result of a request for one page of an account's comments.
#[derive(Debug)]
pub struct GetCommentsResult {
    pub response: reddit::Object,
}

/// The parameters of a request for one page of an account's posts.
pub struct GetPostsParams<'a> {
    pub access_token: &'a str,
    pub username: &'a str,
    pub listing_control: &'a reddit::ListingControl,
}

/// The result of a request for one page of an account's posts.
#[derive(Debug)]
pub struct GetPostsResult {
    pub response: reddit::Object,
}

/// The parameters of a submission.
pub struct SubmitParams<'a> {
    pub access_token: &'a str,
    pub post: reddit::Post,
}

/// The result of a submission.
#[derive(Debug)]
pub struct SubmitResult {}

/// How a request is made.
#[derive(Clone, Copy, Debug, PartialEq, Eq, Structural)]
pub enum Method {
    Get,
    Post,
}

/// What a request carries besides its headers.
pub enum Payload<'a> {
    /// A form of named fields.
    Form(Vec<(&'a str, &'a str)>),
    /// The form of a deletion.
    Delete(DeleteRequestForm<'a>),
    /// The query of a listing.
    Listing(&'a ListingControl),
    /// The form of a submission.
    Submit(SubmitRequest<'a>),
}

/// What a [`Payload`] is, mathematically.
pub ghost enum PayloadView {
    Form(Seq<(Seq<char>, Seq<char>)>),
    Delete { id: Seq<char> },
    Listing(ListingControlView),
    Submit(SubmitRequestView),
}

impl<'a> DeepView for Payload<'a> {
    type V = PayloadView;

    open spec fn deep_view(&self) -> PayloadView {
        match self {
            Payload::Form(fields) => PayloadView::Form(fields.deep_view()),
            Payload::Delete(form) => PayloadView::Delete { id: form.id@ },
            Payload::Listing(control) => PayloadView::Listing(control.deep_view()),
            Payload::Submit(form) => PayloadView::Submit(form.deep_view()),
        }
    }
}

/// One request to the platform, ready to be sent.
pub struct Request<'a> {
    pub method: Method,
    pub url: String,
    /// The headers, by name and value, in order.
    pub headers: Vec<(String, String)>,
    /// The user name and the password of HTTP basic authentication, where
    /// the request uses it.
    pub basic_auth: Option<(&'a str, &'a str)>,
    pub payload: Payload<'a>,
}

/// What a [`Request`] is, mathematically.
pub ghost struct RequestView {
    pub method: Method,
    pub url: Seq<char>,
    pub headers: Seq<(Seq<char>, Seq<char>)>,
    pub basic_auth: Option<(Seq<char>, Seq<char>)>,
    pub payload: PayloadView,
}

impl<'a> DeepView for Request<'a> {
    type V = RequestView;

    open spec fn deep_view(&self) -> RequestView {
        RequestView {
            method: self.method,
            url: self.url@,
            headers: self.headers.deep_view(),
            basic_auth: self.basic_auth.deep_view(),
            payload: self.payload.deep_view(),
        }
    }
}

/// The header that names the client.
pub open spec fn user_agent_header(user_agent: Seq<char>) -> (Seq<char>, Seq<char>) {
    ("User-Agent"@, user_agent)
}

/// The header that presents an access token.
pub open spec fn bearer_header(access_token: Seq<char>) -> (Seq<char>, Seq<char>) {
    ("Authorization"@, "Bearer "@ + access_token)
}

/// The address of the listing `segment` of the account `username`.
pub open spec fn listing_url(username: Seq<char>, segment: Seq<char>) -> Seq<char> {
    "https://oauth.reddit.com/user/"@ + username + "/"@ + segment
}

/// The request for an access token: the password grant of the account,
/// authenticated as the application.
pub open spec fn basic_auth_request_of(
    user_agent: Seq<char>,
    client_id: Seq<char>,
    secret: Seq<char>,
    username: Seq<char>,
    password: Seq<char>,
) -> RequestView {
    RequestView {
        method: Method::Post,
        url: "https://www.reddit.com/api/v1/access_token"@,
        headers: seq![user_agent_header(user_agent)],
        basic_auth: Some((client_id, secret)),
        payload: PayloadView::Form(
            seq![
                ("grant_type"@, "password"@),
                ("username"@, username),
                ("password"@, password),
            ],
        ),
    }
}

/// The request that deletes the item `id`.
pub open spec fn delete_link_request_of(
    user_agent: Seq<char>,
    access_token: Seq<char>,
    id: Seq<char>,
) -> RequestView {
    RequestView {
        method: Method::Post,
        url: "https://oauth.reddit.com/api/del"@,
        headers: seq![user_agent_header(user_agent), bearer_header(access_token)],
        basic_auth: None,
        payload: PayloadView::Delete { id },
    }
}

/// The request for one page of the listing `segment` of an account.
pub open spec fn listing_request_of(
    user_agent: Seq<char>,
    access_token: Seq<char>,
    username: Seq<char>,
    segment: Seq<char>,
    control: ListingControlView,
) -> RequestView {
    RequestView {
        method: Method::Get,
        url: listing_url(username, segment),
        headers: seq![user_agent_header(user_agent), bearer_header(access_token)],
        basic_auth: None,
        payload: PayloadView::Listing(control),
    }
}

/// The request that submits `post`.
pub open spec fn submit_request_of(
    user_agent: Seq<char>,
    access_token: Seq<char>,
    post: reddit::PostView,
) -> RequestView {
    RequestView {
        method: Method::Post,
        url: "https://oauth.reddit.com/api/submit"@,
        headers: seq![user_agent_header(user_agent), bearer_header(access_token)],
        basic_auth: None,
        payload: PayloadView::Submit(reddit::submit_form(post)),
    }
}

/// The headers of a request that names the client and nothing else.
fn plain_headers(user_agent: &str) -> (headers: Vec<(String, String)>)
    ensures
        headers.deep_view() == seq![user_agent_header(user_agent@)],
{
    let mut headers: Vec<(String, String)> = Vec::new();
    headers.push(("User-Agent".to_owned(), user_agent.to_owned()));
    assert(headers.deep_view() =~= seq![user_agent_header(user_agent@)]);
    headers
}

/// The headers of a request that names the client and presents an access
/// token.
fn oauth_headers(user_agent: &str, access_token: &str) -> (headers: Vec<(String, String)>)
    ensures
        headers.deep_view() == seq![user_agent_header(user_agent@), bearer_header(access_token@)],
{
    let mut headers: Vec<(String, String)> = Vec::new();
    headers.push(("User-Agent".to_owned(), user_agent.to_owned()));
    headers.push(("Authorization".to_owned(), "Bearer ".to_owned().concat(access_token)));
    assert(headers.deep_view() =~= seq![
        user_agent_header(user_agent@),
        bearer_header(access_token@),
    ]);
    headers
}

/// The request for one page of the listing `segment` of an account.
fn listing_request<'a>(
    user_agent: &str,
    access_token: &str,
    username: &str,
    segment: &str,
    control: &'a ListingControl,
) -> (request: Request<'a>)
    ensures
        request.deep_view() == listing_request_of(
            user_agent@,
            access_token@,
            username@,
            segment@,
            control.deep_view(),
        ),
{
    Request {
        method: Method::Get,
        url: "https://oauth.reddit.com/user/".to_owned().concat(username).concat("/").concat(
            segment,
        ),
        headers: oauth_headers(user_agent, access_token),
        basic_auth: None,
        payload: Payload::Listing(control),
    }
}

impl Params {
    /// The request for an access token for the account of `p`.
    pub fn basic_auth_request<'a>(&self, p: &BasicAuthParams<'a>) -> (request: Request<'a>)
        ensures
            request.deep_view() == basic_auth_request_of(
                self.user_agent@,
                p.credentials.client_id@,
                p.credentials.secret@,
                p.credentials.username@,
                p.credentials.password@,
            ),
    {
        let mut fields: Vec<(&'a str, &'a str)> = Vec::new();
        fields.push(("grant_type", "password"));
        fields.push(("username", p.credentials.username.as_str()));
        fields.push(("password", p.credentials.password.as_str()));
        assert(fields.deep_view() =~= seq![
            ("grant_type"@, "password"@),
            ("username"@, p.credentials.username@),
            ("password"@, p.credentials.password@),
        ]);
        Request {
            method: Method::Post,
            url: "https://www.reddit.com/api/v1/access_token".to_owned(),
            headers: plain_headers(self.user_agent.as_str()),
            basic_auth: Some((p.credentials.client_id.as_str(), p.credentials.secret.as_str())),
            payload: Payload::Form(fields),
        }
    }

    /// The request that deletes the item of `p`.
    pub fn delete_link_request<'a>(&self, p: &DeleteLinkParams<'a>) -> (request: Request<'a>)
        ensures
            request.deep_view() == delete_link_request_of(
                self.user_agent@,
                p.access_token@,
                p.id@,
            ),
    {
        Request {
            method: Method::Post,
            url: "https://oauth.reddit.com/api/del".to_owned(),
            headers: oauth_headers(self.user_agent.as_str(), p.access_token),
            basic_auth: None,
            payload: Payload::Delete(DeleteRequestForm { id: p.id }),
        }
    }

    /// The request for the page of an account's comments that `p` asks for.
    pub fn get_comments_request<'a>(&self, p: &GetCommentsParams<'a>) -> (request: Request<'a>)
        ensures
            request.deep_view() == listing_request_of(
                self.user_agent@,
                p.access_token@,
                p.username@,
                "comments"@,
                p.listing_control.deep_view(),
            ),
    {
        listing_request(
            self.user_agent.as_str(),
            p.access_token,
            p.username,
            "comments",
            p.listing_control,
        )
    }

    /// The request for the page of an account's posts that `p` asks for.
    pub fn get_posts_request<'a>(&self, p: &GetPostsParams<'a>) -> (request: Request<'a>)
        ensures
            request.deep_view() == listing_request_of(
                self.user_agent@,
                p.access_token@,
                p.username@,
                "submitted"@,
                p.listing_control.deep_view(),
            ),
    {
        listing_request(
            self.user_agent.as_str(),
            p.access_token,
            p.username,
            "submitted",
            p.listing_control,
        )
    }

    /// The request that submits the post of `p`.
    pub fn submit_request<'a>(&self, p: &'a SubmitParams<'a>) -> (request: Request<'a>)
        ensures
            request.deep_view() == submit_request_of(
                self.user_agent@,
                p.access_token@,
                p.post.deep_view(),
            ),
    {
        Request {
            method: Method::Post,
            url: "https://oauth.reddit.com/api/submit".to_owned(),
            headers: oauth_headers(self.user_agent.as_str(), p.access_token),
            basic_auth: None,
            payload: Payload::Submit(SubmitRequest::for_post(&p.post)),
        }
    }
}

/// The status of an answer that is accepted.
pub const STATUS_OK: u16 = 200;

/// The view of a value or of the description of a failure to get it.
pub open spec fn described<T>(outcome: Result<T, String>) -> Result<T, Seq<char>> {
    match outcome {
        Ok(value) => Ok(value),
        Err(message) => Err(message@),
    }
}

/// The view of a value or of the error that kept it from being had.
pub open spec fn checked<T>(outcome: Result<T, Error>) -> Result<T, ErrorView> {
    match outcome {
        Ok(value) => Ok(value),
        Err(error) => Err(error@),
    }
}

/// Whether the answer to a request for an access token is worth decoding,
/// given how sending went: the status of the answer, or the description of
/// the failure to send. Anything but an accepted answer is a failure to
/// authenticate.
pub open spec fn token_status_of(sent: Result<u16, Seq<char>>) -> Result<(), ErrorView> {
    match sent {
        Ok(status) => if status == STATUS_OK {
            Ok(())
        } else {
            Err(ErrorView::simple(ErrorKind::Authentication))
        },
        Err(message) => Err(ErrorView::custom(ErrorKind::Authentication, message)),
    }
}

/// Whether the answer to a request for an access token is worth decoding,
/// given how sending went.
pub fn check_token_status(sent: Result<u16, String>) -> (outcome: Result<(), Error>)
    ensures
        checked(outcome) == token_status_of(described(sent)),
{
    match sent {
        Ok(status) => if status == STATUS_OK {
            Ok(())
        } else {
            Err(Error::from(ErrorKind::Authentication))
        },
        Err(message) => Err(Error::new(ErrorKind::Authentication, message.as_str())),
    }
}

/// The result of a request for an access token, given what decoding the
/// answer gave: an answer that cannot be decoded is a failure to
/// authenticate.
pub open spec fn token_result_of(decoded: Result<Seq<char>, Seq<char>>) -> Result<
    Seq<char>,
    ErrorView,
> {
    match decoded {
        Ok(access_token) => Ok(access_token),
        Err(message) => Err(ErrorView::custom(ErrorKind::Authentication, message)),
    }
}

/// The view of a decoded answer to a request for an access token.
pub open spec fn token_view(decoded: Result<GetTokenResponse, String>) -> Result<
    Seq<char>,
    Seq<char>,
> {
    match decoded {
        Ok(response) => Ok(response.access_token@),
        Err(message) => Err(message@),
    }
}

/// The view of the result of a request for an access token.
pub open spec fn granted(result: Result<BasicAuthResult, Error>) -> Result<Seq<char>, ErrorView> {
    match result {
        Ok(result) => Ok(result.access_token@),
        Err(error) => Err(error@),
    }
}

/// The result of a request for an access token, given what decoding the
/// answer gave.
pub fn token_result(decoded: Result<GetTokenResponse, String>) -> (result: Result<
    BasicAuthResult,
    Error,
>)
    ensures
        granted(result) == token_result_of(token_view(decoded)),
{
    match decoded {
        Ok(response) => Ok(BasicAuthResult { access_token: response.access_token }),
        Err(message) => Err(Error::new(ErrorKind::Authentication, message.as_str())),
    }
}

/// The body of an answer that is worth decoding, given the status of the
/// answer and what reading its body gave. A body that could not be read is
/// a network error; a body that came with any status but the accepted one
/// is an error of the platform.
pub open spec fn body_of_answer(status: u16, body: Result<Seq<char>, Seq<char>>) -> Result<
    Seq<char>,
    ErrorView,
> {
    match body {
        Ok(text) => if status == STATUS_OK {
            Ok(text)
        } else {
            Err(ErrorView::simple(ErrorKind::Reddit))
        },
        Err(message) => Err(ErrorView::custom(ErrorKind::Network, message)),
    }
}

/// The view of a text or of the error that kept it from being had.
pub open spec fn checked_text(text: Result<String, Error>) -> Result<Seq<char>, ErrorView> {
    match text {
        Ok(text) => Ok(text@),
        Err(error) => Err(error@),
    }
}

/// The body of an answer that is worth decoding, given the status of the
/// answer and what reading its body gave.
pub fn check_body(status: u16, body: Result<String, String>) -> (text: Result<String, Error>)
    ensures
        checked_text(text) == body_of_answer(status, text_view(body)),
{
    match body {
        Ok(text) => if status == STATUS_OK {
            Ok(text)
        } else {
            Err(Error::from(ErrorKind::Reddit))
        },
        Err(message) => Err(Error::new(ErrorKind::Network, message.as_str())),
    }
}

/// What an answer holds, given what decoding its body gave: a body that
/// cannot be decoded is an error of the platform.
pub open spec fn response_of<T>(decoded: Result<T, Seq<char>>) -> Result<T, ErrorView> {
    match decoded {
        Ok(value) => Ok(value),
        Err(message) => Err(ErrorView::custom(ErrorKind::Reddit, message)),
    }
}

/// What an answer holds, given what decoding its body gave.
pub fn check_response<T>(decoded: Result<T, String>) -> (response: Result<T, Error>)
    ensures
        checked(response) == response_of(described(decoded)),
{
    match decoded {
        Ok(value) => Ok(value),
        Err(message) => Err(Error::new(ErrorKind::Reddit, message.as_str())),
    }
}

/// The result of a submission, given the answer to it: an answer that does
/// not report success is an error of the platform.
pub fn submit_result(response: &SubmitResponse) -> (result: Result<SubmitResult, Error>)
    ensures
        response.success ==> result is Ok,
        !response.success ==> result is Err && result->Err_0@ == ErrorView::custom(
            ErrorKind::Reddit,
            "submit unsuccessful"@,
        ),
{
    if response.success {
        Ok(SubmitResult {  })
    } else {
        Err(Error::new(ErrorKind::Reddit, "submit unsuccessful"))
    }
}

} // verus!
