use uuid::Uuid;
use wishlist::domain::user::CreateUserError;
use wishlist::domain::user::CreateUserRequest;
use wishlist::domain::user::FindUserByEmailRequest;
use wishlist::domain::user::FindUserByIdRequest;
use wishlist::domain::user::UserRepository;
use wishlist::domain::wishlist::CreateWishlistRequest;
use wishlist::domain::wishlist::WishlistName;
use wishlist::domain::wishlist::WishlistRepository;
use wishlist::domain::wishlist::WishlistSlug;
use wishlist::infrastructure::persistence::in_memory::item::InMemoryItemRepository;
use wishlist::infrastructure::persistence::in_memory::user::InMemoryUserRepository;
use wishlist::infrastructure::persistence::in_memory::wishlist::InMemoryWishlistRepository;

#[test]
fn user_test_create_user() {
    let req = CreateUserRequest::new("".into(), "".into());
    let mut repository = InMemoryUserRepository::new();

    let result = repository.save(&req);
    assert!(result.is_ok());

    let user = result.unwrap();
    assert_eq!(user.email(), req.email());
    assert_eq!(user.password(), req.password());
}

#[test]
fn test_create_duplicate_user() {
    let req = CreateUserRequest::new("".into(), "".into());
    let mut repository = InMemoryUserRepository::new();

    let _ = repository.save(&req);
    let result = repository.save(&req);

    assert!(result.is_err());
    if let Err(CreateUserError::Duplicate { email }) = result {
        assert_eq!(email, req.email().clone());
    } else {
        panic!("Expected CreateUserError::Duplicate");
    }
}

#[test]
fn test_find_user_by_email() {
    let req = CreateUserRequest::new("a@b.c".into(), "".into());
    let mut repository = InMemoryUserRepository::new();

    let user = repository.save(&req).unwrap();
    let find_req = FindUserByEmailRequest::new(user.email().clone());

    let result = repository.find_user_by_email(&find_req);
    assert!(result.is_ok());
    let found_user = result.unwrap();
    assert_eq!(found_user.as_ref().unwrap().email(), user.email());

    let find_req = FindUserByEmailRequest::new("notfound@b.c".into());
    let result = repository.find_user_by_email(&find_req);
    assert!(result.is_ok());
    let found_user = result.unwrap();
    assert!(found_user.is_none());
}

#[test]
fn test_find_user_by_id() {
    let req = CreateUserRequest::new("a@b.c".into(), "".into());
    let mut repository = InMemoryUserRepository::new();

    let user = repository.save(&req).unwrap();
    let find_req = FindUserByIdRequest::new(user.id().clone());

    let result = repository.find_user_by_id(&find_req);
    assert!(result.is_ok());

    let found_user = result.unwrap();
    assert_eq!(found_user.as_ref().unwrap().id(), user.id());

    let find_req = FindUserByIdRequest::new(Uuid::new_v4().as_u128());
    let result = repository.find_user_by_id(&find_req);
    assert!(result.is_ok());
    let found_user = result.unwrap();
    assert!(found_user.is_none());
}

#[test]
fn saved_user_is_found_by_id_and_by_email_equal_to_itself() {
    let mut repository = InMemoryUserRepository::new();
    let other = CreateUserRequest::new("other@b.c".into(), "p".into());
    repository.save(&other).unwrap();
    let req = CreateUserRequest::new("a@b.c".into(), "secret".into());
    let user = repository.save(&req).unwrap();

    let by_id = repository
        .find_user_by_id(&FindUserByIdRequest::new(*user.id()))
        .unwrap()
        .unwrap();
    assert_eq!(by_id.id(), user.id());
    assert_eq!(by_id.email(), user.email());
    assert_eq!(by_id.password(), user.password());
    assert_eq!(by_id.anonymous(), user.anonymous());

    let by_email = repository
        .find_user_by_email(&FindUserByEmailRequest::new("a@b.c".into()))
        .unwrap()
        .unwrap();
    assert_eq!(by_email.id(), user.id());
    assert_eq!(by_email.email(), user.email());
    assert_eq!(by_email.password(), user.password());
}

#[test]
fn one_email_registers_once_among_others() {
    let mut repository = InMemoryUserRepository::new();
    let first = CreateUserRequest::new("a@b.c".into(), "1".into());
    let between = CreateUserRequest::new("z@b.c".into(), "2".into());
    let again = CreateUserRequest::new("a@b.c".into(), "3".into());

    assert!(repository.save(&first).is_ok());
    assert!(repository.save(&between).is_ok());
    for _ in 0..3 {
        match repository.save(&again) {
            Err(CreateUserError::Duplicate { email }) => assert_eq!(email.to_string(), "a@b.c"),
            other => panic!("expected Duplicate, got {:?}", other),
        }
    }
    let kept = repository
        .find_user_by_email(&FindUserByEmailRequest::new("a@b.c".into()))
        .unwrap()
        .unwrap();
    assert_eq!(*kept.password(), "1".into());
}

#[test]
fn saved_users_get_distinct_time_ordered_identifiers() {
    let mut repository = InMemoryUserRepository::new();
    let first = repository
        .save(&CreateUserRequest::new("a@b.c".into(), "".into()))
        .unwrap();
    let second = repository
        .save(&CreateUserRequest::new("b@b.c".into(), "".into()))
        .unwrap();
    assert_ne!(first.id(), second.id());
    assert!(first.id() < second.id());
    assert_eq!(Uuid::from_u128(*first.id()).get_version_num(), 7);
}

#[test]
fn save_with_id_stores_under_the_identifier_given() {
    let mut repository = InMemoryUserRepository::new();
    let req = CreateUserRequest::new("a@b.c".into(), "x".into());
    let user = repository.save_with_id(&req, 42).unwrap();
    assert_eq!(*user.id(), 42);
    assert!(!user.anonymous());
    let found = repository
        .find_user_by_id(&FindUserByIdRequest::new(42))
        .unwrap()
        .unwrap();
    assert_eq!(found.email(), req.email());

    match repository.save_with_id(&req, 43) {
        Err(CreateUserError::Duplicate { email }) => assert_eq!(&email, req.email()),
        other => panic!("expected Duplicate, got {:?}", other),
    }
    assert!(repository
        .find_user_by_id(&FindUserByIdRequest::new(43))
        .unwrap()
        .is_none());
}

#[test]
fn save_with_a_used_identifier_replaces_the_user() {
    let mut repository = InMemoryUserRepository::new();
    let first = CreateUserRequest::new("a@b.c".into(), "x".into());
    let second = CreateUserRequest::new("b@b.c".into(), "y".into());
    repository.save_with_id(&first, 42).unwrap();
    repository.save_with_id(&second, 42).unwrap();
    let found = repository
        .find_user_by_id(&FindUserByIdRequest::new(42))
        .unwrap()
        .unwrap();
    assert_eq!(found.email(), second.email());
    assert!(repository
        .find_user_by_email(&FindUserByEmailRequest::new("a@b.c".into()))
        .unwrap()
        .is_none());
}

#[test]
fn empty_store_finds_nothing() {
    let repository = InMemoryUserRepository::new();
    assert!(repository
        .find_user_by_id(&FindUserByIdRequest::new(0))
        .unwrap()
        .is_none());
    assert!(repository
        .find_user_by_email(&FindUserByEmailRequest::new("".into()))
        .unwrap()
        .is_none());
}

#[test]
fn wishlist_store_saves_every_request() {
    let mut repository = InMemoryWishlistRepository::new();
    let req = CreateWishlistRequest::new(5, WishlistName::from("Birthday"), true);
    let wishlist = repository.save(&req).unwrap();
    assert_eq!(wishlist.owner_id(), 5);
    assert_eq!(wishlist.name(), req.name());
    assert!(wishlist.private());
    assert!(wishlist.items().is_empty());
    assert!(wishlist.slug().to_string().starts_with("birthday-"));
    assert_eq!(wishlist.slug().to_string().len(), 17);

    let found = repository.find_wishlist_by_id(wishlist.id()).unwrap();
    assert_eq!(found.id(), wishlist.id());
    assert_eq!(found.slug(), wishlist.slug());
    assert_eq!(found.owner_id(), 5);

    let second = repository.save(&req).unwrap();
    assert_ne!(second.id(), wishlist.id());
    assert!(repository.find_wishlist_by_id(second.id()).is_some());
    assert!(repository.find_wishlist_by_id(wishlist.id()).is_some());
}

#[test]
fn wishlist_store_saves_with_given_identifier_and_slug() {
    let mut repository = InMemoryWishlistRepository::new();
    let req = CreateWishlistRequest::new(5, WishlistName::from("Books"), false);
    let slug = WishlistSlug::from_lowered("books", 1);
    let wishlist = repository.save_with(&req, 77, slug.clone());
    assert_eq!(wishlist.id(), 77);
    assert_eq!(*wishlist.slug(), slug);
    assert!(!wishlist.private());
    assert!(repository.find_wishlist_by_id(77).is_some());
    assert!(repository.find_wishlist_by_id(78).is_none());
}

#[test]
fn item_store_starts_empty() {
    let _repository = InMemoryItemRepository::new();
}
