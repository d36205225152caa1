use uuid::Uuid;
use wishlist::application::user;
use wishlist::application::wishlist as wish;
use wishlist::application::Service;
use wishlist::domain::user::CreateUserError;
use wishlist::domain::user::CreateUserRequest;
use wishlist::domain::user::User;
use wishlist::domain::user::UserEmail;
use wishlist::domain::user::UserPassword;
use wishlist::domain::user::UserRepository;
use wishlist::domain::user::UserService;
use wishlist::domain::wishlist::CreateWishlistError;
use wishlist::domain::wishlist::CreateWishlistRequest;
use wishlist::domain::wishlist::Wishlist;
use wishlist::domain::wishlist::WishlistName;
use wishlist::domain::wishlist::WishlistService;
use wishlist::domain::wishlist::WishlistSlug;
use wishlist::infrastructure::persistence::in_memory::user::InMemoryUserRepository;
use wishlist::infrastructure::persistence::in_memory::wishlist::InMemoryWishlistRepository;
use wishlist::interface::http::handlers::create_user::create_user;
use wishlist::interface::http::handlers::create_user::registration_answer;
use wishlist::interface::http::handlers::create_user::CreateUserHttpRequestBody;
use wishlist::interface::http::handlers::create_user::CreateUserResponseData;
use wishlist::interface::http::handlers::create_wishlist::create_wishlist;
use wishlist::interface::http::handlers::create_wishlist::creation_answer;
use wishlist::interface::http::handlers::create_wishlist::CreateWishlistHttpRequestBody;
use wishlist::interface::http::handlers::create_wishlist::CreateWishlistResponseData;
use wishlist::interface::http::handlers::create_wishlist::ParseCreateWishlistHttpRequestError;
use wishlist::interface::http::responses::internal_server_error;
use wishlist::interface::http::responses::ApiError;
use wishlist::interface::http::HttpServerConfig;

/// A user service that answers every request with a user of a fixed
/// identifier and the texts of the request.
struct Users {
    id: u128,
}

impl UserService for Users {
    fn create_user(&mut self, req: &CreateUserRequest) -> Result<User, CreateUserError> {
        Ok(User::new(self.id, req.email().clone(), req.password().clone()))
    }
}

/// A wishlist service that answers every request with a wishlist of a fixed
/// identifier and the values of the request.
struct Wishlists {
    id: u128,
}

impl WishlistService for Wishlists {
    fn create_wishlist(
        &mut self,
        req: &CreateWishlistRequest,
    ) -> Result<Wishlist, CreateWishlistError> {
        Ok(Wishlist::new(
            self.id,
            req.owner_id(),
            req.name().clone(),
            WishlistSlug::from("Test Wishlist"),
            req.private(),
        ))
    }
}

/// A user service that is out of order.
struct NoUsers;

impl UserService for NoUsers {
    fn create_user(&mut self, _req: &CreateUserRequest) -> Result<User, CreateUserError> {
        Err(CreateUserError::Unknown(anyhow::Error::msg("store is down")))
    }
}

/// A wishlist service that is out of order.
struct NoWishlists;

impl WishlistService for NoWishlists {
    fn create_wishlist(
        &mut self,
        _req: &CreateWishlistRequest,
    ) -> Result<Wishlist, CreateWishlistError> {
        Err(CreateWishlistError::Unknown(anyhow::Error::msg("store is down")))
    }
}

#[test]
fn test_create_user_success() {
    let email = UserEmail::new("a@b.c").unwrap();
    let password = UserPassword::new("password").unwrap();
    let id = Uuid::now_v7();

    let mut service = Service::new(Users { id: id.as_u128() }, Wishlists { id: 0 });
    let body = CreateUserHttpRequestBody::new(email.to_string(), password.to_string());
    let expected = CreateUserResponseData::from(&User::new(
        id.as_u128(),
        "a@b.c".into(),
        "****************".into(),
    ));

    let actual = create_user(&mut service, body);
    assert!(
        actual.is_ok(),
        "expected create_author to succeed, but got {:?}",
        actual
    );

    let actual = actual.unwrap();
    assert_eq!(
        actual, expected,
        "expected ApiSuccess {:?}, but got {:?}",
        expected, actual
    );
    assert_eq!(actual.id(), id.to_string());
}

#[test]
fn test_create_wishlist_success() {
    let id = Uuid::now_v7();
    let name = WishlistName::from("Test wishlist");
    let private = true;

    let mut service = Service::new(Users { id: 0 }, Wishlists { id: id.as_u128() });
    let body = CreateWishlistHttpRequestBody {
        name: name.to_string(),
        owner_id: id.to_string(),
        private,
    };
    let expected = CreateWishlistResponseData { id: id.to_string() };
    let actual = create_wishlist(&mut service, body);
    assert!(
        actual.is_ok(),
        "expected create_wishlist to succeed, but got {:?}",
        actual
    );

    let actual = actual.unwrap();
    assert_eq!(
        actual, expected,
        "expected ApiSuccess {:?}, but got {:?}",
        expected, actual
    );
}

#[test]
fn identifier_is_answered_in_hyphenated_lower_case() {
    let user = User::new(0xa1a2a3a4b1b2c1c2d1d2d3d4d5d6d7d8, "".into(), "".into());
    let data = CreateUserResponseData::from(&user);
    assert_eq!(data.id(), "a1a2a3a4-b1b2-c1c2-d1d2-d3d4d5d6d7d8");
    assert_eq!(data.clone(), data);

    let nil = CreateUserResponseData::from(&User::new(0, "".into(), "".into()));
    assert_eq!(nil.id(), "00000000-0000-0000-0000-000000000000");

    let all = CreateUserResponseData::from(&User::new(u128::MAX, "".into(), "".into()));
    assert_eq!(all.id(), "ffffffff-ffff-ffff-ffff-ffffffffffff");

    let wishlist = Wishlist::new(
        0x0123456789abcdef0123456789abcdef,
        1,
        "".into(),
        WishlistSlug::from_lowered("", 0),
        true,
    );
    let data = CreateWishlistResponseData::from(&wishlist);
    assert_eq!(data.id, "01234567-89ab-cdef-0123-456789abcdef");
    assert_eq!(data.clone(), data);
}

#[test]
fn user_body_becomes_a_request_with_its_texts() {
    let body = CreateUserHttpRequestBody::new("a@b.c".to_string(), "x".to_string());
    assert_eq!(body.clone(), body);
    let req = body.try_into_domain().unwrap();
    assert_eq!(*req.email(), UserEmail::from("a@b.c"));
    assert_eq!(*req.password(), UserPassword::from("x"));

    let empty = CreateUserHttpRequestBody::new(String::new(), String::new());
    let req = empty.try_into_domain().unwrap();
    assert!(req.email().is_empty());
}

#[test]
fn wishlist_body_becomes_a_request_with_its_values() {
    let body = CreateWishlistHttpRequestBody {
        name: "Birthday".to_string(),
        owner_id: "a1a2a3a4-b1b2-c1c2-d1d2-d3d4d5d6d7d8".to_string(),
        private: true,
    };
    assert_eq!(body.clone(), body);
    let req = body.try_into_domain().unwrap();
    assert_eq!(req.owner_id(), 0xa1a2a3a4b1b2c1c2d1d2d3d4d5d6d7d8);
    assert_eq!(req.name().to_string(), "Birthday");
    assert!(req.private());
    assert_eq!(req.clone().owner_id(), req.owner_id());
}

#[test]
fn wishlist_body_with_unreadable_owner_is_refused_with_the_nil_identifier() {
    let body = CreateWishlistHttpRequestBody {
        name: "".to_string(),
        owner_id: "not an identifier".to_string(),
        private: false,
    };
    match body.try_into_domain() {
        Err(ParseCreateWishlistHttpRequestError::InvalidOwnerId(e)) => {
            assert_eq!(e.invalid_owner_id, 0)
        }
        other => panic!("expected InvalidOwnerId, got {:?}", other),
    }
}

#[test]
fn wishlist_body_with_empty_name_is_refused() {
    let body = CreateWishlistHttpRequestBody {
        name: "".to_string(),
        owner_id: Uuid::nil().to_string(),
        private: false,
    };
    match body.try_into_domain() {
        Err(ParseCreateWishlistHttpRequestError::InvalidName(e)) => {
            assert_eq!(e.invalid_name.to_string(), "")
        }
        other => panic!("expected InvalidName, got {:?}", other),
    }
}

#[test]
fn wishlist_body_with_given_owner_result() {
    let body = CreateWishlistHttpRequestBody {
        name: "Books".to_string(),
        owner_id: "ignored".to_string(),
        private: false,
    };
    let req = body.clone().into_domain_with(Ok(9)).unwrap();
    assert_eq!(req.owner_id(), 9);
    assert_eq!(req.name().to_string(), "Books");
    assert!(!req.private());

    let error = Uuid::parse_str("x").unwrap_err();
    match body.into_domain_with(Err(error)) {
        Err(ParseCreateWishlistHttpRequestError::InvalidOwnerId(e)) => {
            assert_eq!(e.invalid_owner_id, 0)
        }
        other => panic!("expected InvalidOwnerId, got {:?}", other),
    }
}

#[test]
fn errors_are_put_into_words() {
    let duplicate = CreateUserError::Duplicate { email: "a@b.c".into() };
    assert_eq!(
        ApiError::from(duplicate),
        ApiError::UnprocessableEntity("User with email a@b.c already exists".to_string())
    );
    let unknown = CreateUserError::Unknown(anyhow::Error::msg("secret cause"));
    assert_eq!(
        ApiError::from(unknown),
        ApiError::InternalServerError("Internal server error".to_string())
    );
    let missing = CreateWishlistError::OwnerIdDoesNotExist { id: 0xa1a2a3a4b1b2c1c2d1d2d3d4d5d6d7d8 };
    assert_eq!(
        ApiError::from(missing),
        ApiError::UnprocessableEntity(
            "Owner ID a1a2a3a4-b1b2-c1c2-d1d2-d3d4d5d6d7d8 does not exist".to_string()
        )
    );
    let unknown = CreateWishlistError::Unknown(anyhow::Error::msg("secret cause"));
    assert_eq!(ApiError::from(unknown), internal_server_error());
    assert_eq!(internal_server_error().message(), "Internal server error");
    assert_eq!(internal_server_error().clone(), internal_server_error());
    assert_ne!(
        ApiError::UnprocessableEntity("x".to_string()),
        ApiError::InternalServerError("x".to_string())
    );
}

#[test]
fn refused_bodies_are_put_into_words() {
    let body = CreateWishlistHttpRequestBody {
        name: "Birthday".to_string(),
        owner_id: "nonsense".to_string(),
        private: false,
    };
    let refusal = body.try_into_domain().unwrap_err();
    assert_eq!(
        ApiError::from(refusal),
        ApiError::UnprocessableEntity(
            "owner id 00000000-0000-0000-0000-000000000000 is invalid".to_string()
        )
    );
    let body = CreateWishlistHttpRequestBody {
        name: "".to_string(),
        owner_id: Uuid::nil().to_string(),
        private: false,
    };
    let refusal = body.try_into_domain().unwrap_err();
    assert_eq!(
        ApiError::from(refusal).message(),
        "name is invalid"
    );
}

#[test]
fn outcomes_are_put_into_answers() {
    let user = User::new(1, "a@b.c".into(), "x".into());
    assert_eq!(
        registration_answer(Ok(user)).unwrap().id(),
        "00000000-0000-0000-0000-000000000001"
    );
    let refused = registration_answer(Err(CreateUserError::Duplicate { email: "".into() }));
    assert_eq!(
        refused.unwrap_err().message(),
        "User with email  already exists"
    );
    let wishlist = Wishlist::new(2, 1, "".into(), WishlistSlug::from_lowered("", 0), true);
    assert_eq!(
        creation_answer(Ok(wishlist)).unwrap().id,
        "00000000-0000-0000-0000-000000000002"
    );
    let refused = creation_answer(Err(CreateWishlistError::OwnerIdDoesNotExist { id: 1 }));
    assert_eq!(
        refused.unwrap_err().message(),
        "Owner ID 00000000-0000-0000-0000-000000000001 does not exist"
    );
}

#[test]
fn handlers_answer_over_stores_in_memory() {
    let mut users = InMemoryUserRepository::new();
    let owner = users
        .save(&CreateUserRequest::new("owner@b.c".into(), "x".into()))
        .unwrap();
    let mut services = Service::new(
        user::Service::new(InMemoryUserRepository::new()),
        wish::Service::new(users, InMemoryWishlistRepository::new()),
    );

    let body = CreateUserHttpRequestBody::new("a@b.c".to_string(), "x".to_string());
    let created = create_user(&mut services, body.clone()).unwrap();
    assert_eq!(created.id().len(), 36);
    assert_eq!(
        create_user(&mut services, body).unwrap_err(),
        ApiError::UnprocessableEntity("User with email a@b.c already exists".to_string())
    );

    let body = CreateWishlistHttpRequestBody {
        name: "Birthday".to_string(),
        owner_id: Uuid::from_u128(*owner.id()).to_string(),
        private: true,
    };
    let made = create_wishlist(&mut services, body).unwrap();
    assert_eq!(made.id.len(), 36);

    let unsaved = Uuid::new_v4();
    let body = CreateWishlistHttpRequestBody {
        name: "Birthday".to_string(),
        owner_id: unsaved.to_string(),
        private: true,
    };
    assert_eq!(
        create_wishlist(&mut services, body).unwrap_err(),
        ApiError::UnprocessableEntity(format!("Owner ID {} does not exist", unsaved))
    );

    let body = CreateWishlistHttpRequestBody {
        name: "".to_string(),
        owner_id: unsaved.to_string(),
        private: true,
    };
    assert_eq!(
        create_wishlist(&mut services, body).unwrap_err().message(),
        "name is invalid"
    );
}

#[test]
fn handlers_hide_unknown_causes() {
    let mut services = Service::new(NoUsers, NoWishlists);
    let body = CreateUserHttpRequestBody::new("a@b.c".to_string(), "x".to_string());
    assert_eq!(
        create_user(&mut services, body).unwrap_err(),
        ApiError::InternalServerError("Internal server error".to_string())
    );
    let body = CreateWishlistHttpRequestBody {
        name: "Birthday".to_string(),
        owner_id: Uuid::nil().to_string(),
        private: true,
    };
    assert_eq!(
        create_wishlist(&mut services, body).unwrap_err(),
        ApiError::InternalServerError("Internal server error".to_string())
    );
}

#[test]
fn server_config_holds_host_and_port() {
    let config = HttpServerConfig::new("127.0.0.1".to_string(), 8080);
    assert_eq!(config.host, "127.0.0.1");
    assert_eq!(config.port, 8080);
}
