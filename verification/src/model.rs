//! What the endpoints expect of the data store, and what follows for a
//! client when the store behaves so.
//!
//! A table is modelled as the sequence of its records in the store's own
//! order. The store gives a new record an id that no record of the table
//! has, answers a lookup with a record of that id if it holds one, and
//! answers a window with the records at the window's places. The theorems
//! below hold of the endpoints beside any store of which this is true.

use crate::http::{text_response, BodyView, ResponseView, NOT_FOUND, OK};
use crate::post::{
    post_of, post_response, spec_create_post, spec_create_post_query, spec_find_by_id,
    CreatePostView,
};
use crate::store::{NewPostView, PostRecordView, UserRecordView, WindowView};
use crate::user::{
    spec_find_all_paginated, spec_find_all_paginated_query, user_dto_of, user_dtos_of,
};
use vstd::prelude::*;

verus! {

/// Whether some record of `posts` has the id `id`.
pub open spec fn holds_post(posts: Seq<PostRecordView>, id: Seq<char>) -> bool {
    exists|i: int| 0 <= i < posts.len() && (#[trigger] posts[i]).id == id
}

/// What a store that holds `posts` answers to a lookup of `id`: a record
/// with that id, or nothing if it holds none.
pub open spec fn looked_up(posts: Seq<PostRecordView>, id: Seq<char>) -> Option<PostRecordView> {
    if holds_post(posts, id) {
        Some(posts[choose|i: int| 0 <= i < posts.len() && (#[trigger] posts[i]).id == id])
    } else {
        None
    }
}

/// The record that a store makes of `new` under the id `id`.
pub open spec fn stored_post(id: Seq<char>, new: NewPostView) -> PostRecordView {
    PostRecordView { id, name: new.name, author: new.author, views: new.views }
}

/// How many records of a table of `len` records come before the window
/// `window`.
pub open spec fn window_start(len: nat, window: WindowView) -> int
    recommends
        0 <= window.skip,
{
    if window.skip < len {
        window.skip
    } else {
        len as int
    }
}

/// How many records of a table of `len` records come before the end of the
/// window `window`.
pub open spec fn window_end(len: nat, window: WindowView) -> int
    recommends
        0 <= window.skip,
        0 <= window.take,
{
    if window.skip + window.take < len {
        window.skip + window.take
    } else {
        len as int
    }
}

/// What a store that holds `users` answers to a request for the window
/// `window`, where neither `skip` nor `take` is negative: it passes over
/// `skip` records and hands out the next `take`, or as many as are left.
pub open spec fn windowed(users: Seq<UserRecordView>, window: WindowView) -> Seq<UserRecordView>
    recommends
        0 <= window.skip,
        0 <= window.take,
{
    users.subrange(window_start(users.len(), window), window_end(users.len(), window))
}

/// A post that was created has no views, whatever the request said, and is
/// reported so.
pub proof fn lemma_created_post_has_no_views(id: Seq<char>, dto: CreatePostView)
    ensures
        stored_post(id, spec_create_post_query(dto)).views == 0,
        spec_create_post(Ok(stored_post(id, spec_create_post_query(dto)))) == post_response(
            OK as int,
            post_of(stored_post(id, spec_create_post_query(dto))),
        ),
        post_of(stored_post(id, spec_create_post_query(dto))).views == 0,
{
}

/// A post that was created is found afterwards under the id that the store
/// gave it: the lookup is answered as the creation was, with the same name,
/// author and view count.
pub proof fn lemma_created_post_is_found(
    posts: Seq<PostRecordView>,
    id: Seq<char>,
    dto: CreatePostView,
)
    requires
        !holds_post(posts, id),
    ensures
        ({
            let record = stored_post(id, spec_create_post_query(dto));
            let created = spec_create_post(Ok(record));
            let found = spec_find_by_id(Ok(looked_up(posts.push(record), id)));
            &&& created == post_response(OK as int, post_of(record))
            &&& found == created
            &&& post_of(record).name == dto.name
            &&& post_of(record).author == dto.author
            &&& post_of(record).views == 0
        }),
{
    let record = stored_post(id, spec_create_post_query(dto));
    let after = posts.push(record);
    assert(after[posts.len() as int] == record);
    assert(holds_post(after, id));
    let found = choose|i: int| 0 <= i < after.len() && (#[trigger] after[i]).id == id;
    if found < posts.len() {
        assert(after[found] == posts[found]);
        assert(holds_post(posts, id));
    }
}

/// A lookup of an id that no record has is answered with status 404 and the
/// text "Entity not found".
pub proof fn lemma_absent_post_is_not_found(posts: Seq<PostRecordView>, id: Seq<char>)
    requires
        !holds_post(posts, id),
    ensures
        spec_find_by_id(Ok(looked_up(posts, id))) == text_response(
            NOT_FOUND as int,
            "Entity not found"@,
        ),
{
}

/// Page 0 begins at the first user, whatever the limit: it reports the
/// first `limit` users, or all of them where there are fewer.
pub proof fn lemma_page_zero_begins_at_the_front(users: Seq<UserRecordView>, limit: int)
    requires
        0 <= limit,
    ensures
        spec_find_all_paginated_query(0, limit).skip == 0,
        ({
            let page = windowed(users, spec_find_all_paginated_query(0, limit));
            &&& page.len() == if limit < users.len() { limit } else { users.len() as int }
            &&& forall|k: int| 0 <= k < page.len() ==> #[trigger] page[k] == users[k]
            &&& spec_find_all_paginated(Ok(page)) == ResponseView {
                status: OK as int,
                body: BodyView::Users(user_dtos_of(page)),
            }
        }),
{
    assert(limit * 0 == 0) by (nonlinear_arith);
}

/// Page `page` of `limit` users passes over exactly `page * limit` users:
/// its first user is the one that this many users precede, and it reports
/// at most `limit` users, in the store's order.
pub proof fn lemma_page_passes_over_whole_pages(
    users: Seq<UserRecordView>,
    page: int,
    limit: int,
)
    requires
        0 <= page,
        0 <= limit,
    ensures
        spec_find_all_paginated_query(page, limit).skip == page * limit,
        spec_find_all_paginated_query(page, limit).take == limit,
        ({
            let listed = windowed(users, spec_find_all_paginated_query(page, limit));
            &&& listed.len() <= limit
            &&& listed.len() == if page * limit + limit <= users.len() {
                limit
            } else if page * limit <= users.len() {
                users.len() - page * limit
            } else {
                0
            }
            &&& forall|k: int|
                0 <= k < listed.len() ==> #[trigger] listed[k] == users[page * limit + k]
            &&& forall|k: int|
                0 <= k < listed.len() ==> #[trigger] user_dtos_of(listed)[k] == user_dto_of(
                    users[page * limit + k],
                )
        }),
{
    assert(0 <= limit * page && limit * page == page * limit) by (nonlinear_arith)
        requires
            0 <= page,
            0 <= limit,
    ;
}

} // verus!
