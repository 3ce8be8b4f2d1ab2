//! The post endpoints: list, create, delete and find by id.

use crate::http::{
    text_response, Body, BodyView, Response, ResponseView, INTERNAL_SERVER_ERROR, NOT_FOUND, OK,
};
use crate::store::{
    lookup_reply, post_reply, posts_reply, NewPost, NewPostView, PostRecord, PostRecordView,
    StoreFailure,
};
use vstd::prelude::*;

verus! {

/// A post as the endpoints report it.
#[derive(Clone, Debug, PartialEq, Eq)]
pub struct Post {
    pub id: String,
    pub name: String,
    pub author: String,
    pub views: i32,
}

/// Mathematical model of a [`Post`].
pub struct PostView {
    pub id: Seq<char>,
    pub name: Seq<char>,
    pub author: Seq<char>,
    pub views: int,
}

impl View for Post {
    type V = PostView;

    open spec fn view(&self) -> PostView {
        PostView {
            id: self.id@,
            name: self.name@,
            author: self.author@,
            views: self.views as int,
        }
    }
}

impl DeepView for Post {
    type V = PostView;

    open spec fn deep_view(&self) -> PostView {
        self@
    }
}

/// What a client sends to create a post. It names no view count.
#[derive(Clone, Debug, PartialEq, Eq)]
pub struct CreatePost {
    pub name: String,
    pub author: String,
}

/// Mathematical model of a [`CreatePost`].
pub struct CreatePostView {
    pub name: Seq<char>,
    pub author: Seq<char>,
}

impl View for CreatePost {
    type V = CreatePostView;

    open spec fn view(&self) -> CreatePostView {
        CreatePostView { name: self.name@, author: self.author@ }
    }
}

/// What a client sends to delete a post.
#[derive(Clone, Debug, PartialEq, Eq)]
pub struct DeletePost {
    pub id: String,
}

/// What a client sends to look a post up.
#[derive(Clone, Debug, PartialEq, Eq)]
pub struct FindPost {
    pub id: String,
}

/// The post that reports the stored record `record`: every field as stored.
pub open spec fn post_of(record: PostRecordView) -> PostView {
    PostView { id: record.id, name: record.name, author: record.author, views: record.views }
}

/// The posts that report the stored records `records`, one for one and in
/// the same order.
pub open spec fn posts_of(records: Seq<PostRecordView>) -> Seq<PostView> {
    Seq::new(records.len(), |i: int| post_of(records[i]))
}

/// The response that carries one post.
pub open spec fn post_response(status: int, post: PostView) -> ResponseView {
    ResponseView { status, body: BodyView::Post(post) }
}

/// The response to a request for all posts, given the store's answer.
pub open spec fn spec_get_all_posts(found: Result<Seq<PostRecordView>, StoreFailure>)
    -> ResponseView {
    match found {
        Ok(records) => ResponseView { status: OK as int, body: BodyView::Posts(posts_of(records)) },
        Err(_) => text_response(
            INTERNAL_SERVER_ERROR as int,
            "Error occured while fetching posts from repository"@,
        ),
    }
}

/// What the store is asked to keep for a new post: the name and the author
/// as sent, and no views.
pub open spec fn spec_create_post_query(dto: CreatePostView) -> NewPostView {
    NewPostView { name: dto.name, author: dto.author, views: 0 }
}

/// The response to a request to create a post, given the store's answer.
pub open spec fn spec_create_post(created: Result<PostRecordView, StoreFailure>) -> ResponseView {
    match created {
        Ok(record) => post_response(OK as int, post_of(record)),
        Err(_) => text_response(
            INTERNAL_SERVER_ERROR as int,
            "Could not create a post due server error"@,
        ),
    }
}

/// The response to a request to delete a post, given the store's answer.
pub open spec fn spec_remove_post(removed: Result<PostRecordView, StoreFailure>) -> ResponseView {
    match removed {
        Ok(record) => post_response(OK as int, post_of(record)),
        Err(_) => text_response(
            INTERNAL_SERVER_ERROR as int,
            "Could not delete the selected entity"@,
        ),
    }
}

/// The response to a lookup by id, given the store's answer.
pub open spec fn spec_find_by_id(found: Result<Option<PostRecordView>, StoreFailure>)
    -> ResponseView {
    match found {
        Ok(Some(record)) => post_response(OK as int, post_of(record)),
        Ok(None) => text_response(NOT_FOUND as int, "Entity not found"@),
        Err(_) => text_response(
            INTERNAL_SERVER_ERROR as int,
            "Could not find the selected entity"@,
        ),
    }
}

impl Post {
    /// Reports a stored record: every field as stored.
    pub fn from_record(record: &PostRecord) -> (post: Post)
        ensures
            post@ == post_of(record@),
    {
        Post {
            id: record.id.clone(),
            name: record.name.clone(),
            author: record.author.clone(),
            views: record.views,
        }
    }
}

/// Lists all posts. `found` is the store's answer to a request for every
/// post: the posts are reported in the store's order with status 200, a
/// failure of the store with status 500.
pub fn get_all_posts(found: Result<Vec<PostRecord>, StoreFailure>) -> (r: Response)
    ensures
        r@ == spec_get_all_posts(posts_reply(found)),
{
    match found {
        Ok(records) => {
            let mut posts: Vec<Post> = Vec::new();
            let mut i: usize = 0;
            while i < records.len()
                invariant
                    i <= records.len(),
                    posts.len() == i,
                    forall|k: int| 0 <= k < i ==> (#[trigger] posts[k])@ == post_of(records[k]@),
                decreases records.len() - i,
            {
                posts.push(Post::from_record(&records[i]));
                i += 1;
            }
            assert(posts.deep_view() =~= posts_of(records.deep_view()));
            Response { status: OK, body: Body::Posts(posts) }
        },
        Err(_) => Response::text(
            INTERNAL_SERVER_ERROR,
            "Error occured while fetching posts from repository".to_owned(),
        ),
    }
}

/// What to ask of the store for a request to create a post: the name and
/// the author as sent, and a view count of 0.
pub fn create_post_query(dto: &CreatePost) -> (new: NewPost)
    ensures
        new@ == spec_create_post_query(dto@),
        new.views == 0,
{
    NewPost { name: dto.name.clone(), author: dto.author.clone(), views: 0 }
}

/// Answers a request to create a post. `created` is the store's answer: the
/// record is reported as stored with status 200, a failure of the store with
/// status 500.
pub fn create_post(created: Result<PostRecord, StoreFailure>) -> (r: Response)
    ensures
        r@ == spec_create_post(post_reply(created)),
{
    match created {
        Ok(record) => Response { status: OK, body: Body::Post(Post::from_record(&record)) },
        Err(_) => Response::text(
            INTERNAL_SERVER_ERROR,
            "Could not create a post due server error".to_owned(),
        ),
    }
}

/// The id of the record that the store is asked to delete.
pub fn remove_post_query(path: &DeletePost) -> (id: String)
    ensures
        id@ == path.id@,
{
    path.id.clone()
}

/// Answers a request to delete a post. `removed` is the store's answer: the
/// deleted record is reported with status 200; a failure of the store, which
/// includes that no record has the id, with status 500.
pub fn remove_post(removed: Result<PostRecord, StoreFailure>) -> (r: Response)
    ensures
        r@ == spec_remove_post(post_reply(removed)),
{
    match removed {
        Ok(record) => Response { status: OK, body: Body::Post(Post::from_record(&record)) },
        Err(_) => Response::text(
            INTERNAL_SERVER_ERROR,
            "Could not delete the selected entity".to_owned(),
        ),
    }
}

/// The id of the record that the store is asked to look up.
pub fn find_by_id_query(path: &FindPost) -> (id: String)
    ensures
        id@ == path.id@,
{
    path.id.clone()
}

/// Answers a lookup by id. `found` is the store's answer: a record is
/// reported with status 200, the lack of one with status 404 and the text
/// "Entity not found", a failure of the store with status 500.
pub fn find_by_id(found: Result<Option<PostRecord>, StoreFailure>) -> (r: Response)
    ensures
        r@ == spec_find_by_id(lookup_reply(found)),
{
    match found {
        Ok(Some(record)) => Response { status: OK, body: Body::Post(Post::from_record(&record)) },
        Ok(None) => Response::text(NOT_FOUND, "Entity not found".to_owned()),
        Err(_) => Response::text(
            INTERNAL_SERVER_ERROR,
            "Could not find the selected entity".to_owned(),
        ),
    }
}

} // verus!
