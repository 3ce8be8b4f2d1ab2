//! What the endpoints ask of the data store, and what the store answers.
//!
//! The store itself is reached by the caller. The endpoints hand it one of
//! the values below and take back a record, a list of records, or a
//! [`StoreFailure`].

use vstd::prelude::*;

verus! {

/// The store could not do what was asked of it.
#[derive(Clone, Copy, Debug, PartialEq, Eq, Structural)]
pub struct StoreFailure {}

/// A post as the store keeps it.
#[derive(Clone, Debug, PartialEq, Eq)]
pub struct PostRecord {
    pub id: String,
    pub name: String,
    pub author: String,
    pub views: i32,
}

/// Mathematical model of a [`PostRecord`].
pub struct PostRecordView {
    pub id: Seq<char>,
    pub name: Seq<char>,
    pub author: Seq<char>,
    pub views: int,
}

impl View for PostRecord {
    type V = PostRecordView;

    open spec fn view(&self) -> PostRecordView {
        PostRecordView {
            id: self.id@,
            name: self.name@,
            author: self.author@,
            views: self.views as int,
        }
    }
}

impl DeepView for PostRecord {
    type V = PostRecordView;

    open spec fn deep_view(&self) -> PostRecordView {
        self@
    }
}

/// The fields of a post that is to be stored; the store gives it its id.
#[derive(Clone, Debug, PartialEq, Eq)]
pub struct NewPost {
    pub name: String,
    pub author: String,
    pub views: i32,
}

/// Mathematical model of a [`NewPost`].
pub struct NewPostView {
    pub name: Seq<char>,
    pub author: Seq<char>,
    pub views: int,
}

impl View for NewPost {
    type V = NewPostView;

    open spec fn view(&self) -> NewPostView {
        NewPostView { name: self.name@, author: self.author@, views: self.views as int }
    }
}

/// A user as the store keeps it. `password` holds the salted hash.
#[derive(Clone, Debug, PartialEq, Eq)]
pub struct UserRecord {
    pub id: i32,
    pub email: String,
    pub password: String,
}

/// Mathematical model of a [`UserRecord`].
pub struct UserRecordView {
    pub id: int,
    pub email: Seq<char>,
    pub password: Seq<char>,
}

impl View for UserRecord {
    type V = UserRecordView;

    open spec fn view(&self) -> UserRecordView {
        UserRecordView { id: self.id as int, email: self.email@, password: self.password@ }
    }
}

impl DeepView for UserRecord {
    type V = UserRecordView;

    open spec fn deep_view(&self) -> UserRecordView {
        self@
    }
}

/// The fields of a user that is to be stored; the store gives it its id.
/// `password` holds the salted hash, never the password itself.
#[derive(Clone, Debug, PartialEq, Eq)]
pub struct NewUser {
    pub email: String,
    pub password: String,
}

/// Mathematical model of a [`NewUser`].
pub struct NewUserView {
    pub email: Seq<char>,
    pub password: Seq<char>,
}

impl View for NewUser {
    type V = NewUserView;

    open spec fn view(&self) -> NewUserView {
        NewUserView { email: self.email@, password: self.password@ }
    }
}

/// A window on a list of records: pass over `skip` of them, then hand out at
/// most `take`.
#[derive(Clone, Copy, Debug, PartialEq, Eq, Structural)]
pub struct Window {
    pub skip: i64,
    pub take: i64,
}

/// Mathematical model of a [`Window`].
pub struct WindowView {
    pub skip: int,
    pub take: int,
}

impl View for Window {
    type V = WindowView;

    open spec fn view(&self) -> WindowView {
        WindowView { skip: self.skip as int, take: self.take as int }
    }
}

/// The store's answer to a request for one record, as the model sees it.
pub open spec fn post_reply(reply: Result<PostRecord, StoreFailure>) -> Result<
    PostRecordView,
    StoreFailure,
> {
    match reply {
        Ok(record) => Ok(record@),
        Err(failure) => Err(failure),
    }
}

/// The store's answer to a lookup, as the model sees it.
pub open spec fn lookup_reply(reply: Result<Option<PostRecord>, StoreFailure>) -> Result<
    Option<PostRecordView>,
    StoreFailure,
> {
    match reply {
        Ok(found) => Ok(found.deep_view()),
        Err(failure) => Err(failure),
    }
}

/// The store's answer to a request for a list of posts, as the model sees it.
pub open spec fn posts_reply(reply: Result<Vec<PostRecord>, StoreFailure>) -> Result<
    Seq<PostRecordView>,
    StoreFailure,
> {
    match reply {
        Ok(records) => Ok(records.deep_view()),
        Err(failure) => Err(failure),
    }
}

/// The store's answer to a request for one user, as the model sees it.
pub open spec fn user_reply(reply: Result<UserRecord, StoreFailure>) -> Result<
    UserRecordView,
    StoreFailure,
> {
    match reply {
        Ok(record) => Ok(record@),
        Err(failure) => Err(failure),
    }
}

/// The store's answer to a request for a list of users, as the model sees it.
pub open spec fn users_reply(reply: Result<Vec<UserRecord>, StoreFailure>) -> Result<
    Seq<UserRecordView>,
    StoreFailure,
> {
    match reply {
        Ok(records) => Ok(records.deep_view()),
        Err(failure) => Err(failure),
    }
}

} // verus!
