//! The responses that the endpoints hand back, as plain values.

use crate::post::{Post, PostView};
use crate::user::{UserDto, UserDtoView};
use vstd::prelude::*;

verus! {

/// Status of a request that was served.
pub const OK: u16 = 200;

/// Status of a request that made a new record.
pub const CREATED: u16 = 201;

/// Status of a lookup that found nothing.
pub const NOT_FOUND: u16 = 404;

/// Status of a request on which the server failed.
pub const INTERNAL_SERVER_ERROR: u16 = 500;

/// What a response carries: plain text or raw bytes as they stand, or a
/// value that is sent as JSON.
#[derive(Clone, Debug, PartialEq, Eq)]
pub enum Body {
    Text(String),
    Bytes(Vec<u8>),
    Post(Post),
    Posts(Vec<Post>),
    User(UserDto),
    Users(Vec<UserDto>),
}

/// Mathematical model of a [`Body`].
pub enum BodyView {
    Text(Seq<char>),
    Bytes(Seq<u8>),
    Post(PostView),
    Posts(Seq<PostView>),
    User(UserDtoView),
    Users(Seq<UserDtoView>),
}

impl View for Body {
    type V = BodyView;

    open spec fn view(&self) -> BodyView {
        match self {
            Body::Text(text) => BodyView::Text(text@),
            Body::Bytes(bytes) => BodyView::Bytes(bytes@),
            Body::Post(post) => BodyView::Post(post@),
            Body::Posts(posts) => BodyView::Posts(posts.deep_view()),
            Body::User(user) => BodyView::User(user@),
            Body::Users(users) => BodyView::Users(users.deep_view()),
        }
    }
}

/// An HTTP response: a status code and a body.
#[derive(Clone, Debug, PartialEq, Eq)]
pub struct Response {
    pub status: u16,
    pub body: Body,
}

/// Mathematical model of a [`Response`].
pub struct ResponseView {
    pub status: int,
    pub body: BodyView,
}

impl View for Response {
    type V = ResponseView;

    open spec fn view(&self) -> ResponseView {
        ResponseView { status: self.status as int, body: self.body@ }
    }
}

/// The response with the given status whose body is the given text.
pub open spec fn text_response(status: int, text: Seq<char>) -> ResponseView {
    ResponseView { status, body: BodyView::Text(text) }
}

impl Response {
    /// A response with the given status and the given text as its body.
    pub fn text(status: u16, text: String) -> (r: Response)
        ensures
            r@ == text_response(status as int, text@),
    {
        Response { status, body: Body::Text(text) }
    }
}

} // verus!
