use blog_backend::http::{Body, Response};
use blog_backend::password::HashFailure;
use blog_backend::store::{NewUser, StoreFailure, UserRecord, Window};
use blog_backend::user::{
    create_user, create_user_query, find_all_paginated, find_all_paginated_query, new_user,
    CreateUser, PaginationDto, UserDto,
};

fn stored(id: i32, email: &str, password: &str) -> UserRecord {
    UserRecord { id, email: email.to_string(), password: password.to_string() }
}

fn dto(id: i32, email: &str) -> UserDto {
    UserDto { id, email: email.to_string() }
}

fn text(status: u16, message: &str) -> Response {
    Response { status, body: Body::Text(message.to_string()) }
}

fn table() -> Vec<UserRecord> {
    (1..=7).map(|n| stored(n, &format!("u{}@example.org", n), &format!("hash-{}", n))).collect()
}

/// A store for the tests: it hands out the window's records.
fn window_of(table: &[UserRecord], window: Window) -> Vec<UserRecord> {
    table.iter().skip(window.skip as usize).take(window.take as usize).cloned().collect()
}

#[test]
fn the_window_passes_over_limit_times_page() {
    let w = find_all_paginated_query(&PaginationDto { page: 3, limit: 10 });
    assert_eq!(w, Window { skip: 30, take: 10 });
}

#[test]
fn page_zero_passes_over_nothing() {
    let w = find_all_paginated_query(&PaginationDto { page: 0, limit: 25 });
    assert_eq!(w, Window { skip: 0, take: 25 });
}

#[test]
fn a_limit_of_zero_passes_over_nothing() {
    let w = find_all_paginated_query(&PaginationDto { page: 9, limit: 0 });
    assert_eq!(w, Window { skip: 0, take: 0 });
}

#[test]
fn the_window_of_the_largest_page_and_limit_is_exact() {
    let w = find_all_paginated_query(&PaginationDto { page: i32::MAX, limit: i32::MAX });
    assert_eq!(w, Window { skip: 4611686014132420609, take: 2147483647 });
}

#[test]
fn the_window_of_the_smallest_page_and_limit_is_exact() {
    let w = find_all_paginated_query(&PaginationDto { page: i32::MIN, limit: i32::MIN });
    assert_eq!(w, Window { skip: 4611686018427387904, take: -2147483648 });
}

#[test]
fn the_window_of_a_negative_page_is_exact() {
    let w = find_all_paginated_query(&PaginationDto { page: -2, limit: 5 });
    assert_eq!(w, Window { skip: -10, take: 5 });
}

#[test]
fn users_are_listed_without_their_passwords() {
    let r = find_all_paginated(Ok(vec![stored(1, "a@x.org", "h1"), stored(2, "b@x.org", "h2")]));
    assert_eq!(r.status, 200);
    assert_eq!(r.body, Body::Users(vec![dto(1, "a@x.org"), dto(2, "b@x.org")]));
}

#[test]
fn no_users_are_listed_as_an_empty_list() {
    let r = find_all_paginated(Ok(Vec::new()));
    assert_eq!(r, Response { status: 200, body: Body::Users(Vec::new()) });
}

#[test]
fn a_failed_listing_of_users_is_a_server_error() {
    let r = find_all_paginated(Err(StoreFailure {}));
    assert_eq!(r, text(500, "Failed to fetch users from database"));
}

#[test]
fn page_zero_lists_the_first_users() {
    let all = table();
    let w = find_all_paginated_query(&PaginationDto { page: 0, limit: 3 });
    let r = find_all_paginated(Ok(window_of(&all, w)));
    assert_eq!(
        r.body,
        Body::Users(vec![
            dto(1, "u1@example.org"),
            dto(2, "u2@example.org"),
            dto(3, "u3@example.org"),
        ])
    );
}

#[test]
fn page_two_passes_over_two_pages() {
    let all = table();
    let w = find_all_paginated_query(&PaginationDto { page: 2, limit: 3 });
    let r = find_all_paginated(Ok(window_of(&all, w)));
    assert_eq!(r.body, Body::Users(vec![dto(7, "u7@example.org")]));
}

#[test]
fn a_page_past_the_end_lists_nothing() {
    let all = table();
    let w = find_all_paginated_query(&PaginationDto { page: 3, limit: 3 });
    let r = find_all_paginated(Ok(window_of(&all, w)));
    assert_eq!(r.body, Body::Users(Vec::new()));
}

#[test]
fn a_user_is_reported_by_id_and_email() {
    assert_eq!(UserDto::from_record(&stored(5, "e@x.org", "secret")), dto(5, "e@x.org"));
}

#[test]
fn a_hash_is_kept_beside_the_email() {
    let body = CreateUser { email: "a@x.org".to_string(), password: "hunter42".to_string() };
    let step = new_user(&body, Ok("$argon2id$stand-in".to_string()));
    assert_eq!(
        step,
        Ok(NewUser { email: "a@x.org".to_string(), password: "$argon2id$stand-in".to_string() })
    );
}

#[test]
fn a_failed_hashing_is_a_server_error() {
    let body = CreateUser { email: "a@x.org".to_string(), password: "hunter42".to_string() };
    let step = new_user(&body, Err(HashFailure {}));
    assert_eq!(step, Err(text(500, "Could not generate salt")));
}

#[test]
fn the_store_is_asked_to_keep_a_hash_and_not_the_password() {
    let body = CreateUser { email: "a@x.org".to_string(), password: "hunter42".to_string() };
    let new = create_user_query(&body).expect("the password is hashed");
    assert_eq!(new.email, "a@x.org");
    assert_ne!(new.password, "hunter42");
    assert!(new.password.starts_with("$argon2id$v=19$m=19456,t=2,p=1$"));
    assert!(!new.password.contains("hunter42"));
}

#[test]
fn an_empty_password_is_hashed_too() {
    let body = CreateUser { email: String::new(), password: String::new() };
    let new = create_user_query(&body).expect("the password is hashed");
    assert_eq!(new.email, "");
    assert!(new.password.starts_with("$argon2id$v=19$m=19456,t=2,p=1$"));
}

#[test]
fn one_password_is_stored_under_two_hashes() {
    let body = CreateUser { email: "a@x.org".to_string(), password: "hunter42".to_string() };
    let first = create_user_query(&body).expect("the password is hashed");
    let second = create_user_query(&body).expect("the password is hashed");
    assert_ne!(first.password, second.password);
    assert_eq!(first.email, second.email);
}

#[test]
fn a_created_user_is_reported_by_the_id_and_the_email_of_the_record() {
    let r = create_user(Ok(stored(41, "a@x.org", "$argon2id$stand-in")));
    assert_eq!(r, Response { status: 201, body: Body::User(dto(41, "a@x.org")) });
}

#[test]
fn a_created_user_is_reported_by_the_email_that_the_store_holds() {
    let body = CreateUser { email: "A@X.org".to_string(), password: "hunter42".to_string() };
    let new = create_user_query(&body).expect("the password is hashed");
    assert_eq!(new.email, "A@X.org");
    let r = create_user(Ok(stored(7, "a@x.org", &new.password)));
    assert_eq!(r, Response { status: 201, body: Body::User(dto(7, "a@x.org")) });
}

#[test]
fn a_created_user_is_reported_without_password_or_hash() {
    let body = CreateUser { email: "a@x.org".to_string(), password: "hunter42".to_string() };
    let new = create_user_query(&body).expect("the password is hashed");
    let hash = new.password.clone();
    let r = create_user(Ok(UserRecord { id: 1, email: new.email, password: new.password }));
    let shown = format!("{:?}", r);
    assert!(!shown.contains(&hash));
    assert!(!shown.contains("hunter42"));
    assert_eq!(r, create_user(Ok(stored(1, "a@x.org", "another hash"))));
}

#[test]
fn a_failed_creation_of_a_user_is_a_server_error() {
    let r = create_user(Err(StoreFailure {}));
    assert_eq!(r, text(500, "Error occured while creating user"));
}

#[test]
fn a_password_that_begins_as_a_hash_does_is_hashed_too() {
    let password = "$argon2id$v=19$m=19456,t=2,p=1$c29tZXNhbHR2YWx1ZTEyMw$abc".to_string();
    let body = CreateUser { email: "a@x.org".to_string(), password: password.clone() };
    let new = create_user_query(&body).expect("the password is hashed");
    assert_ne!(new.password, password);
}

#[test]
fn a_long_password_is_hashed() {
    let body = CreateUser { email: "a@x.org".to_string(), password: "x".repeat(100_000) };
    let new = create_user_query(&body).expect("the password is hashed");
    assert!(new.password.starts_with("$argon2id$v=19$m=19456,t=2,p=1$"));
    assert_eq!(new.password.len(), 97);
}
