//! The user endpoints: a paginated list, and create with a hashed password.

use crate::http::{
    text_response, Body, BodyView, Response, ResponseView, CREATED, INTERNAL_SERVER_ERROR, OK,
};
use crate::password::{
    hash_password, hash_text, is_fresh_salt, is_hash_of, is_salt, lemma_hash_is_not_the_password,
    max_password_len, phc_header, phc_string, HashFailure,
};
use crate::store::{
    user_reply, users_reply, NewUser, NewUserView, StoreFailure, UserRecord, UserRecordView,
    Window, WindowView,
};
use vstd::prelude::*;

verus! {

/// What a client sends to create a user. `password` is the password itself.
#[derive(Clone, Debug, PartialEq, Eq)]
pub struct CreateUser {
    pub email: String,
    pub password: String,
}

/// Mathematical model of a [`CreateUser`].
pub struct CreateUserView {
    pub email: Seq<char>,
    pub password: Seq<char>,
}

impl View for CreateUser {
    type V = CreateUserView;

    open spec fn view(&self) -> CreateUserView {
        CreateUserView { email: self.email@, password: self.password@ }
    }
}

/// A user as the endpoints report it: it has no field for the password.
#[derive(Clone, Debug, PartialEq, Eq)]
pub struct UserDto {
    pub id: i32,
    pub email: String,
}

/// Mathematical model of a [`UserDto`].
pub struct UserDtoView {
    pub id: int,
    pub email: Seq<char>,
}

impl View for UserDto {
    type V = UserDtoView;

    open spec fn view(&self) -> UserDtoView {
        UserDtoView { id: self.id as int, email: self.email@ }
    }
}

impl DeepView for UserDto {
    type V = UserDtoView;

    open spec fn deep_view(&self) -> UserDtoView {
        self@
    }
}

/// What a client sends to list users: the number of the page, and how many
/// users a page holds. Neither is bounded.
#[derive(Clone, Copy, Debug, PartialEq, Eq, Structural)]
pub struct PaginationDto {
    pub page: i32,
    pub limit: i32,
}

/// The report of the stored user `record`: its id and its email.
pub open spec fn user_dto_of(record: UserRecordView) -> UserDtoView {
    UserDtoView { id: record.id, email: record.email }
}

/// The reports of the stored users `records`, one for one and in the same
/// order.
pub open spec fn user_dtos_of(records: Seq<UserRecordView>) -> Seq<UserDtoView> {
    Seq::new(records.len(), |i: int| user_dto_of(records[i]))
}

/// The window that page number `page` of `limit` users is: it passes over
/// `limit * page` users and holds at most `limit`.
pub open spec fn spec_find_all_paginated_query(page: int, limit: int) -> WindowView {
    WindowView { skip: limit * page, take: limit }
}

/// The response to a request for a page of users, given the store's answer.
pub open spec fn spec_find_all_paginated(found: Result<Seq<UserRecordView>, StoreFailure>)
    -> ResponseView {
    match found {
        Ok(records) => ResponseView {
            status: OK as int,
            body: BodyView::Users(user_dtos_of(records)),
        },
        Err(_) => text_response(
            INTERNAL_SERVER_ERROR as int,
            "Failed to fetch users from database"@,
        ),
    }
}

/// What is kept for a new user, given the outcome of hashing the password:
/// the email as sent beside the hash, or the response that reports that no
/// hash could be made.
pub open spec fn spec_new_user(body: CreateUserView, hashed: Result<Seq<char>, HashFailure>)
    -> Result<NewUserView, ResponseView> {
    match hashed {
        Ok(hash) => Ok(NewUserView { email: body.email, password: hash }),
        Err(_) => Err(text_response(INTERNAL_SERVER_ERROR as int, "Could not generate salt"@)),
    }
}

/// The response to a request to create a user, given the store's answer.
pub open spec fn spec_create_user(created: Result<UserRecordView, StoreFailure>) -> ResponseView {
    match created {
        Ok(record) => ResponseView {
            status: CREATED as int,
            body: BodyView::User(user_dto_of(record)),
        },
        Err(_) => text_response(
            INTERNAL_SERVER_ERROR as int,
            "Error occured while creating user"@,
        ),
    }
}

/// What is done for a request to create a user whose password is hashed
/// under `salt`: what [`spec_new_user`] says of the outcome of the hashing.
pub open spec fn spec_create_user_query(body: CreateUserView, salt: Seq<char>) -> Result<
    NewUserView,
    ResponseView,
> {
    spec_new_user(
        body,
        match phc_string(body.password, salt) {
            Some(hash) => Ok(hash),
            None => Err(HashFailure {}),
        },
    )
}

/// The outcome of hashing, as the model sees it.
pub open spec fn hash_outcome(hashed: Result<String, HashFailure>) -> Result<
    Seq<char>,
    HashFailure,
> {
    match hashed {
        Ok(hash) => Ok(hash@),
        Err(failure) => Err(failure),
    }
}

/// What is asked of the store or answered at once, as the model sees it.
pub open spec fn query_outcome(step: Result<NewUser, Response>) -> Result<
    NewUserView,
    ResponseView,
> {
    match step {
        Ok(new) => Ok(new@),
        Err(response) => Err(response@),
    }
}

impl UserDto {
    /// Reports a stored user: its id and its email, and nothing else.
    pub fn from_record(record: &UserRecord) -> (dto: UserDto)
        ensures
            dto@ == user_dto_of(record@),
    {
        UserDto { id: record.id, email: record.email.clone() }
    }
}

/// The window to ask the store for: it passes over `limit * page` users and
/// holds at most `limit`. The product is exact for every page and limit.
pub fn find_all_paginated_query(query_params: &PaginationDto) -> (window: Window)
    ensures
        window@ == spec_find_all_paginated_query(
            query_params.page as int,
            query_params.limit as int,
        ),
        window.skip == query_params.limit * query_params.page,
        window.take == query_params.limit,
{
    let limit: i64 = query_params.limit as i64;
    let page: i64 = query_params.page as i64;
    assert(-0x4000_0000_0000_0000 <= limit * page <= 0x4000_0000_0000_0000) by (nonlinear_arith)
        requires
            -0x8000_0000 <= limit <= 0x8000_0000,
            -0x8000_0000 <= page <= 0x8000_0000,
    ;
    Window { skip: limit * page, take: limit }
}

/// Lists a page of users. `found` is the store's answer to a request for
/// the window: the users are reported in the store's order with status 200,
/// each by its id and its email; a failure of the store with status 500.
pub fn find_all_paginated(found: Result<Vec<UserRecord>, StoreFailure>) -> (r: Response)
    ensures
        r@ == spec_find_all_paginated(users_reply(found)),
{
    match found {
        Ok(records) => {
            let mut users: Vec<UserDto> = Vec::new();
            let mut i: usize = 0;
            while i < records.len()
                invariant
                    i <= records.len(),
                    users.len() == i,
                    forall|k: int|
                        0 <= k < i ==> (#[trigger] users[k])@ == user_dto_of(records[k]@),
                decreases records.len() - i,
            {
                users.push(UserDto::from_record(&records[i]));
                i += 1;
            }
            assert(users.deep_view() =~= user_dtos_of(records.deep_view()));
            Response { status: OK, body: Body::Users(users) }
        },
        Err(_) => Response::text(
            INTERNAL_SERVER_ERROR,
            "Failed to fetch users from database".to_owned(),
        ),
    }
}

/// What to do for a request to create a user once the password has been
/// hashed. `hashed` is the outcome of the hashing: with a hash, the store is
/// asked to keep the email as sent and the hash; without one, the request is
/// answered at once with status 500.
pub fn new_user(body: &CreateUser, hashed: Result<String, HashFailure>) -> (step: Result<
    NewUser,
    Response,
>)
    ensures
        query_outcome(step) == spec_new_user(body@, hash_outcome(hashed)),
{
    match hashed {
        Ok(hash) => Ok(NewUser { email: body.email.clone(), password: hash }),
        Err(_) => Err(
            Response::text(INTERNAL_SERVER_ERROR, "Could not generate salt".to_owned()),
        ),
    }
}

/// What to do for a request to create a user: the password is hashed under
/// a salt of 22 characters that is drawn afresh, and the store is asked to
/// keep the email as sent and the hash. Where the hashing library gives no
/// hash under that salt, the request is answered at once with status 500.
pub fn create_user_query(body: &CreateUser) -> (step: Result<NewUser, Response>)
    ensures
        exists|salt: Seq<char>|
            is_fresh_salt(salt) && query_outcome(step) == #[trigger] spec_create_user_query(
                body@,
                salt,
            ),
        match step {
            Ok(new) => {
                &&& new.email@ == body.email@
                &&& is_hash_of(new.password@, body.password@)
                &&& !phc_header().is_prefix_of(body.password@) ==> new.password@ != body.password@
            },
            Err(response) => response@ == text_response(
                INTERNAL_SERVER_ERROR as int,
                "Could not generate salt"@,
            ),
        },
        body.password@.len() <= max_password_len() ==> step is Ok,
{
    let hashed = hash_password(body.password.as_str());
    proof {
        let drawn = choose|salt: Seq<char>|
            is_fresh_salt(salt) && hash_text(hashed) == #[trigger] phc_string(
                body.password@,
                salt,
            );
        assert(spec_create_user_query(body@, drawn) == spec_new_user(body@, hash_outcome(hashed)));
        if hashed is Ok && !phc_header().is_prefix_of(body.password@) {
            let hash = hashed->Ok_0@;
            let salt = choose|salt: Seq<char>|
                is_salt(salt) && #[trigger] phc_string(body.password@, salt) == Some(hash);
            let front = phc_header() + salt + seq!['$'];
            if front.is_prefix_of(body.password@) {
                assert(body.password@.subrange(0, phc_header().len() as int) =~= front.subrange(
                    0,
                    phc_header().len() as int,
                ));
                assert(front.subrange(0, phc_header().len() as int) =~= phc_header());
            }
            lemma_hash_is_not_the_password(body.password@, salt);
        }
    }
    new_user(body, hashed)
}

/// Answers a request to create a user. `created` is the store's answer: the
/// new user is reported with status 201, by the id and the email of the
/// record that the store made; a failure of the store with status 500 and a
/// text that says nothing of its cause.
pub fn create_user(created: Result<UserRecord, StoreFailure>) -> (r: Response)
    ensures
        r@ == spec_create_user(user_reply(created)),
{
    match created {
        Ok(record) => Response { status: CREATED, body: Body::User(UserDto::from_record(&record)) },
        Err(_) => Response::text(
            INTERNAL_SERVER_ERROR,
            "Error occured while creating user".to_owned(),
        ),
    }
}

/// The answer to a request to create a user says nothing of the password
/// or of its hash: two records of one id and one email get the same
/// response, whatever the store holds as their hashes.
pub proof fn lemma_created_user_is_reported_without_password(
    first_record: UserRecordView,
    second_record: UserRecordView,
)
    requires
        first_record.id == second_record.id,
        first_record.email == second_record.email,
    ensures
        spec_create_user(Ok(first_record)) == spec_create_user(Ok(second_record)),
{
}

/// A list of users says nothing of what the store holds as their
/// passwords: two answers of the store that agree on every id and email
/// get the same response.
pub proof fn lemma_users_are_listed_without_passwords(
    first: Seq<UserRecordView>,
    second: Seq<UserRecordView>,
)
    requires
        first.len() == second.len(),
        forall|i: int|
            0 <= i < first.len() ==> (#[trigger] first[i]).id == second[i].id && first[i].email
                == second[i].email,
    ensures
        spec_find_all_paginated(Ok(first)) == spec_find_all_paginated(Ok(second)),
{
    assert(user_dtos_of(first) =~= user_dtos_of(second));
}

} // verus!
